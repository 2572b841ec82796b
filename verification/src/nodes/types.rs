use crate::nodes::array_type::ArrayType;
use crate::nodes::expression_type::ExpressionType;
use crate::nodes::function_type::FunctionType;
use crate::nodes::intersection_type::IntersectionType;
use crate::nodes::list::{NodeList, deeper};
use crate::nodes::named_type::TypeName;
use crate::nodes::optional_type::OptionalType;
use crate::nodes::parenthese_type::ParentheseType;
use crate::nodes::string_type::StringType;
use crate::nodes::table_type::TableType;
use crate::nodes::token::{
    Token, clear_optional_token_comments, cleared_optional_token_is_comment_free,
    optional_token_is_comment_free, optional_token_without_comments,
    optional_token_without_comments_is_idempotent,
};
use crate::nodes::type_field::TypeField;
use crate::nodes::union_type::UnionType;
use vstd::prelude::*;

verus! {

/// A type annotation.
#[derive(Debug, PartialEq, Eq)]
pub enum Type {
    Name(TypeName),
    Field(Box<TypeField>),
    True(Option<Token>),
    False(Option<Token>),
    Nil(Option<Token>),
    String(StringType),
    Array(ArrayType),
    Table(TableType),
    TypeOf(ExpressionType),
    Parenthese(ParentheseType),
    Function(Box<FunctionType>),
    Optional(OptionalType),
    Intersection(IntersectionType),
    Union(UnionType),
}

impl Type {
    /// How deep the tree under this node goes.
    pub open spec fn depth(self) -> nat
        decreases self,
    {
        match self {
            Type::Name(inner) => 1 + inner.depth(),
            Type::Field(inner) => 1 + inner.depth(),
            Type::Array(inner) => 1 + inner.depth(),
            Type::Table(inner) => 1 + inner.depth(),
            Type::TypeOf(inner) => 1 + inner.depth(),
            Type::Parenthese(inner) => 1 + inner.depth(),
            Type::Function(inner) => 1 + inner.depth(),
            Type::Optional(inner) => 1 + inner.depth(),
            Type::Intersection(inner) => 1 + inner.depth(),
            Type::Union(inner) => 1 + inner.depth(),
            _ => 0,
        }
    }

    /// This node with every comment taken out of the tokens it holds itself.
    pub open spec fn without_comments(self) -> Self {
        match self {
            Type::True(token) => Type::True(optional_token_without_comments(token)),
            Type::False(token) => Type::False(optional_token_without_comments(token)),
            Type::Nil(token) => Type::Nil(optional_token_without_comments(token)),
            _ => self,
        }
    }

    /// Takes the comments out of the tokens this node holds itself. What the node means
    /// stays as it is.
    pub fn clear_comments(&mut self)
        ensures
            *final(self) == old(self).without_comments(),
    {
        match self {
            Type::True(token) => clear_optional_token_comments(token),
            Type::False(token) => clear_optional_token_comments(token),
            Type::Nil(token) => clear_optional_token_comments(token),
            _ => {},
        }
    }

    /// Clearing comments a second time changes nothing.
    pub proof fn without_comments_is_idempotent(self)
        ensures
            self.without_comments().without_comments() == self.without_comments(),
    {
        match self {
            Type::True(token) => optional_token_without_comments_is_idempotent(token),
            Type::False(token) => optional_token_without_comments_is_idempotent(token),
            Type::Nil(token) => optional_token_without_comments_is_idempotent(token),
            _ => {},
        }
    }

    /// Clearing comments leaves the depth as it is.
    pub proof fn without_comments_keeps_depth(self)
        ensures
            self.without_comments().depth() == self.depth(),
    {
    }

    /// Whether no token of this node, nor of anything under it, holds a comment.
    pub open spec fn is_comment_free(self) -> bool
        decreases self,
    {
        match self {
            Type::Name(inner) => inner.is_comment_free(),
            Type::Field(inner) => inner.is_comment_free(),
            Type::True(token) => optional_token_is_comment_free(token),
            Type::False(token) => optional_token_is_comment_free(token),
            Type::Nil(token) => optional_token_is_comment_free(token),
            Type::String(inner) => inner.is_comment_free(),
            Type::Array(inner) => inner.is_comment_free(),
            Type::Table(inner) => inner.is_comment_free(),
            Type::TypeOf(inner) => inner.is_comment_free(),
            Type::Parenthese(inner) => inner.is_comment_free(),
            Type::Function(inner) => inner.is_comment_free(),
            Type::Optional(inner) => inner.is_comment_free(),
            Type::Intersection(inner) => inner.is_comment_free(),
            Type::Union(inner) => inner.is_comment_free(),
        }
    }

    /// This node with the comments taken out of every token of it and of everything
    /// under it.
    pub open spec fn stripped(self) -> Self
        decreases self,
    {
        match self {
            Type::Name(inner) => Type::Name(inner.stripped()),
            Type::Field(inner) => Type::Field(Box::new(inner.stripped())),
            Type::True(token) => Type::True(optional_token_without_comments(token)),
            Type::False(token) => Type::False(optional_token_without_comments(token)),
            Type::Nil(token) => Type::Nil(optional_token_without_comments(token)),
            Type::String(inner) => Type::String(inner.stripped()),
            Type::Array(inner) => Type::Array(inner.stripped()),
            Type::Table(inner) => Type::Table(inner.stripped()),
            Type::TypeOf(inner) => Type::TypeOf(inner.stripped()),
            Type::Parenthese(inner) => Type::Parenthese(inner.stripped()),
            Type::Function(inner) => Type::Function(Box::new(inner.stripped())),
            Type::Optional(inner) => Type::Optional(inner.stripped()),
            Type::Intersection(inner) => Type::Intersection(inner.stripped()),
            Type::Union(inner) => Type::Union(inner.stripped()),
        }
    }

    /// Taking the comments out of everything makes no difference between a node and the
    /// node cleared.
    pub proof fn stripped_absorbs_clearing(self)
        ensures
            self.without_comments().stripped() == self.stripped(),
    {
        self.without_comments_is_idempotent();
    }

    /// Once the comments are taken out of everything, no token holds a comment.
    pub proof fn stripped_is_comment_free(self)
        ensures
            self.stripped().is_comment_free(),
        decreases self.depth(), 0nat,
    {
        match self {
            Type::Name(inner) => inner.stripped_is_comment_free(),
            Type::Field(inner) => inner.stripped_is_comment_free(),
            Type::True(token) => {
                optional_token_without_comments_is_idempotent(token);
                cleared_optional_token_is_comment_free(
                    optional_token_without_comments(token),
                );
            },
            Type::False(token) => {
                optional_token_without_comments_is_idempotent(token);
                cleared_optional_token_is_comment_free(
                    optional_token_without_comments(token),
                );
            },
            Type::Nil(token) => {
                optional_token_without_comments_is_idempotent(token);
                cleared_optional_token_is_comment_free(
                    optional_token_without_comments(token),
                );
            },
            Type::String(inner) => inner.stripped_is_comment_free(),
            Type::Array(inner) => inner.stripped_is_comment_free(),
            Type::Table(inner) => inner.stripped_is_comment_free(),
            Type::TypeOf(inner) => inner.stripped_is_comment_free(),
            Type::Parenthese(inner) => inner.stripped_is_comment_free(),
            Type::Function(inner) => inner.stripped_is_comment_free(),
            Type::Optional(inner) => inner.stripped_is_comment_free(),
            Type::Intersection(inner) => inner.stripped_is_comment_free(),
            Type::Union(inner) => inner.stripped_is_comment_free(),
        }
    }

    /// Taking the comments out of everything a second time changes nothing.
    pub proof fn stripped_is_idempotent(self)
        ensures
            self.stripped().stripped() == self.stripped(),
        decreases self.depth(), 0nat,
    {
        match self {
            Type::Name(inner) => inner.stripped_is_idempotent(),
            Type::Field(inner) => inner.stripped_is_idempotent(),
            Type::True(token) => optional_token_without_comments_is_idempotent(token),
            Type::False(token) => optional_token_without_comments_is_idempotent(token),
            Type::Nil(token) => optional_token_without_comments_is_idempotent(token),
            Type::String(inner) => inner.stripped_is_idempotent(),
            Type::Array(inner) => inner.stripped_is_idempotent(),
            Type::Table(inner) => inner.stripped_is_idempotent(),
            Type::TypeOf(inner) => inner.stripped_is_idempotent(),
            Type::Parenthese(inner) => inner.stripped_is_idempotent(),
            Type::Function(inner) => inner.stripped_is_idempotent(),
            Type::Optional(inner) => inner.stripped_is_idempotent(),
            Type::Intersection(inner) => inner.stripped_is_idempotent(),
            Type::Union(inner) => inner.stripped_is_idempotent(),
        }
    }
}

impl From<TypeName> for Type {
    fn from(node: TypeName) -> (wrapped: Type) {
        Type::Name(node)
    }
}

impl vstd::std_specs::convert::FromSpecImpl<TypeName> for Type {
    open spec fn obeys_from_spec() -> bool {
        true
    }

    open spec fn from_spec(node: TypeName) -> Type {
        Type::Name(node)
    }
}

impl From<TypeField> for Type {
    fn from(node: TypeField) -> (wrapped: Type) {
        Type::Field(Box::new(node))
    }
}

impl vstd::std_specs::convert::FromSpecImpl<TypeField> for Type {
    open spec fn obeys_from_spec() -> bool {
        true
    }

    open spec fn from_spec(node: TypeField) -> Type {
        Type::Field(Box::new(node))
    }
}

impl From<StringType> for Type {
    fn from(node: StringType) -> (wrapped: Type) {
        Type::String(node)
    }
}

impl vstd::std_specs::convert::FromSpecImpl<StringType> for Type {
    open spec fn obeys_from_spec() -> bool {
        true
    }

    open spec fn from_spec(node: StringType) -> Type {
        Type::String(node)
    }
}

impl From<ArrayType> for Type {
    fn from(node: ArrayType) -> (wrapped: Type) {
        Type::Array(node)
    }
}

impl vstd::std_specs::convert::FromSpecImpl<ArrayType> for Type {
    open spec fn obeys_from_spec() -> bool {
        true
    }

    open spec fn from_spec(node: ArrayType) -> Type {
        Type::Array(node)
    }
}

impl From<TableType> for Type {
    fn from(node: TableType) -> (wrapped: Type) {
        Type::Table(node)
    }
}

impl vstd::std_specs::convert::FromSpecImpl<TableType> for Type {
    open spec fn obeys_from_spec() -> bool {
        true
    }

    open spec fn from_spec(node: TableType) -> Type {
        Type::Table(node)
    }
}

impl From<ExpressionType> for Type {
    fn from(node: ExpressionType) -> (wrapped: Type) {
        Type::TypeOf(node)
    }
}

impl vstd::std_specs::convert::FromSpecImpl<ExpressionType> for Type {
    open spec fn obeys_from_spec() -> bool {
        true
    }

    open spec fn from_spec(node: ExpressionType) -> Type {
        Type::TypeOf(node)
    }
}

impl From<ParentheseType> for Type {
    fn from(node: ParentheseType) -> (wrapped: Type) {
        Type::Parenthese(node)
    }
}

impl vstd::std_specs::convert::FromSpecImpl<ParentheseType> for Type {
    open spec fn obeys_from_spec() -> bool {
        true
    }

    open spec fn from_spec(node: ParentheseType) -> Type {
        Type::Parenthese(node)
    }
}

impl From<FunctionType> for Type {
    fn from(node: FunctionType) -> (wrapped: Type) {
        Type::Function(Box::new(node))
    }
}

impl vstd::std_specs::convert::FromSpecImpl<FunctionType> for Type {
    open spec fn obeys_from_spec() -> bool {
        true
    }

    open spec fn from_spec(node: FunctionType) -> Type {
        Type::Function(Box::new(node))
    }
}

impl From<OptionalType> for Type {
    fn from(node: OptionalType) -> (wrapped: Type) {
        Type::Optional(node)
    }
}

impl vstd::std_specs::convert::FromSpecImpl<OptionalType> for Type {
    open spec fn obeys_from_spec() -> bool {
        true
    }

    open spec fn from_spec(node: OptionalType) -> Type {
        Type::Optional(node)
    }
}

impl From<IntersectionType> for Type {
    fn from(node: IntersectionType) -> (wrapped: Type) {
        Type::Intersection(node)
    }
}

impl vstd::std_specs::convert::FromSpecImpl<IntersectionType> for Type {
    open spec fn obeys_from_spec() -> bool {
        true
    }

    open spec fn from_spec(node: IntersectionType) -> Type {
        Type::Intersection(node)
    }
}

impl From<UnionType> for Type {
    fn from(node: UnionType) -> (wrapped: Type) {
        Type::Union(node)
    }
}

impl vstd::std_specs::convert::FromSpecImpl<UnionType> for Type {
    open spec fn obeys_from_spec() -> bool {
        true
    }

    open spec fn from_spec(node: UnionType) -> Type {
        Type::Union(node)
    }
}

/// Whether none of a list of types holds a comment.
pub open spec fn types_are_comment_free(list: NodeList<Type>) -> bool
    decreases list,
{
    match list {
        NodeList::Empty => true,
        NodeList::Cell(cell) => cell.head.is_comment_free() && types_are_comment_free(cell.tail),
    }
}

/// A list of types with the comments taken out of every token of them.
pub open spec fn types_stripped(list: NodeList<Type>) -> NodeList<Type>
    decreases list,
{
    match list {
        NodeList::Empty => NodeList::Empty,
        NodeList::Cell(cell) => NodeList::cons(cell.head.stripped(), types_stripped(cell.tail)),
    }
}

/// Once the comments are taken out of a list of types, no token of them holds a
/// comment.
pub proof fn types_stripped_are_comment_free(list: NodeList<Type>)
    ensures
        types_are_comment_free(types_stripped(list)),
    decreases types_depth(list), 1 + list.count(),
{
    match list {
        NodeList::Empty => {},
        NodeList::Cell(cell) => {
            cell.head.stripped_is_comment_free();
            types_stripped_are_comment_free(cell.tail);
        },
    }
}

/// Taking the comments out of a list of types a second time changes nothing.
pub proof fn types_stripped_is_idempotent(list: NodeList<Type>)
    ensures
        types_stripped(types_stripped(list)) == types_stripped(list),
    decreases types_depth(list), 1 + list.count(),
{
    match list {
        NodeList::Empty => {},
        NodeList::Cell(cell) => {
            cell.head.stripped_is_idempotent();
            types_stripped_is_idempotent(cell.tail);
        },
    }
}

/// The depth of the deepest of a list of types.
pub open spec fn types_depth(list: NodeList<Type>) -> nat
    decreases list,
{
    match list {
        NodeList::Empty => 0,
        NodeList::Cell(cell) => deeper(cell.head.depth(), types_depth(cell.tail)),
    }
}

} // verus!
