use crate::nodes::binary::BinaryExpression;
use crate::nodes::field::FieldExpression;
use crate::nodes::function_call::FunctionCall;
use crate::nodes::function_expression::FunctionExpression;
use crate::nodes::identifier::Identifier;
use crate::nodes::if_expression::IfExpression;
use crate::nodes::index::IndexExpression;
use crate::nodes::interpolated_string::InterpolatedStringExpression;
use crate::nodes::list::{NodeList, deeper};
use crate::nodes::number::{DecimalNumber, NumberExpression};
use crate::nodes::parenthese::ParentheseExpression;
use crate::nodes::string::StringExpression;
use crate::nodes::table::TableExpression;
use crate::nodes::token::{
    Token, clear_optional_token_comments, cleared_optional_token_is_comment_free,
    optional_token_is_comment_free, optional_token_without_comments,
    optional_token_without_comments_is_idempotent,
};
use crate::nodes::type_cast::TypeCastExpression;
use crate::nodes::unary::UnaryExpression;
use vstd::prelude::*;

verus! {

/// An expression.
#[derive(Debug, PartialEq, Eq)]
pub enum Expression {
    Binary(Box<BinaryExpression>),
    Call(Box<FunctionCall>),
    False(Option<Token>),
    Field(Box<FieldExpression>),
    Function(Box<FunctionExpression>),
    Identifier(Identifier),
    If(Box<IfExpression>),
    Index(Box<IndexExpression>),
    Nil(Option<Token>),
    Number(NumberExpression),
    Parenthese(Box<ParentheseExpression>),
    String(StringExpression),
    InterpolatedString(InterpolatedStringExpression),
    Table(TableExpression),
    True(Option<Token>),
    Unary(Box<UnaryExpression>),
    VariableArguments(Option<Token>),
    TypeCast(TypeCastExpression),
}

impl Expression {
    /// How deep the tree under this node goes.
    pub open spec fn depth(self) -> nat
        decreases self,
    {
        match self {
            Expression::Binary(inner) => 1 + inner.depth(),
            Expression::Call(inner) => 1 + inner.depth(),
            Expression::Field(inner) => 1 + inner.depth(),
            Expression::Function(inner) => 1 + inner.depth(),
            Expression::If(inner) => 1 + inner.depth(),
            Expression::Index(inner) => 1 + inner.depth(),
            Expression::Parenthese(inner) => 1 + inner.depth(),
            Expression::InterpolatedString(inner) => 1 + inner.depth(),
            Expression::Table(inner) => 1 + inner.depth(),
            Expression::Unary(inner) => 1 + inner.depth(),
            Expression::TypeCast(inner) => 1 + inner.depth(),
            _ => 0,
        }
    }

    /// This node with every comment taken out of the tokens it holds itself.
    pub open spec fn without_comments(self) -> Self {
        match self {
            Expression::False(token) => Expression::False(optional_token_without_comments(token)),
            Expression::Nil(token) => Expression::Nil(optional_token_without_comments(token)),
            Expression::True(token) => Expression::True(optional_token_without_comments(token)),
            Expression::VariableArguments(token) => {
                Expression::VariableArguments(optional_token_without_comments(token))
            },
            _ => self,
        }
    }

    /// Takes the comments out of the tokens this node holds itself. What the node means
    /// stays as it is.
    pub fn clear_comments(&mut self)
        ensures
            *final(self) == old(self).without_comments(),
    {
        match self {
            Expression::False(token) => clear_optional_token_comments(token),
            Expression::Nil(token) => clear_optional_token_comments(token),
            Expression::True(token) => clear_optional_token_comments(token),
            Expression::VariableArguments(token) => clear_optional_token_comments(token),
            _ => {},
        }
    }

    /// Clearing comments a second time changes nothing.
    pub proof fn without_comments_is_idempotent(self)
        ensures
            self.without_comments().without_comments() == self.without_comments(),
    {
        match self {
            Expression::False(token) => optional_token_without_comments_is_idempotent(token),
            Expression::Nil(token) => optional_token_without_comments_is_idempotent(token),
            Expression::True(token) => optional_token_without_comments_is_idempotent(token),
            Expression::VariableArguments(token) => {
                optional_token_without_comments_is_idempotent(token)
            },
            _ => {},
        }
    }

    /// Clearing comments leaves the depth as it is.
    pub proof fn without_comments_keeps_depth(self)
        ensures
            self.without_comments().depth() == self.depth(),
    {
    }

    /// Whether no token of this node, nor of anything under it, holds a comment.
    pub open spec fn is_comment_free(self) -> bool
        decreases self,
    {
        match self {
            Expression::Binary(inner) => inner.is_comment_free(),
            Expression::Call(inner) => inner.is_comment_free(),
            Expression::False(token) => optional_token_is_comment_free(token),
            Expression::Field(inner) => inner.is_comment_free(),
            Expression::Function(inner) => inner.is_comment_free(),
            Expression::Identifier(inner) => inner.is_comment_free(),
            Expression::If(inner) => inner.is_comment_free(),
            Expression::Index(inner) => inner.is_comment_free(),
            Expression::Nil(token) => optional_token_is_comment_free(token),
            Expression::Number(inner) => inner.is_comment_free(),
            Expression::Parenthese(inner) => inner.is_comment_free(),
            Expression::String(inner) => inner.is_comment_free(),
            Expression::InterpolatedString(inner) => inner.is_comment_free(),
            Expression::Table(inner) => inner.is_comment_free(),
            Expression::True(token) => optional_token_is_comment_free(token),
            Expression::Unary(inner) => inner.is_comment_free(),
            Expression::VariableArguments(token) => optional_token_is_comment_free(token),
            Expression::TypeCast(inner) => inner.is_comment_free(),
        }
    }

    /// This node with the comments taken out of every token of it and of everything
    /// under it.
    pub open spec fn stripped(self) -> Self
        decreases self,
    {
        match self {
            Expression::Binary(inner) => Expression::Binary(Box::new(inner.stripped())),
            Expression::Call(inner) => Expression::Call(Box::new(inner.stripped())),
            Expression::False(token) => Expression::False(optional_token_without_comments(token)),
            Expression::Field(inner) => Expression::Field(Box::new(inner.stripped())),
            Expression::Function(inner) => Expression::Function(Box::new(inner.stripped())),
            Expression::Identifier(inner) => Expression::Identifier(inner.stripped()),
            Expression::If(inner) => Expression::If(Box::new(inner.stripped())),
            Expression::Index(inner) => Expression::Index(Box::new(inner.stripped())),
            Expression::Nil(token) => Expression::Nil(optional_token_without_comments(token)),
            Expression::Number(inner) => Expression::Number(inner.stripped()),
            Expression::Parenthese(inner) => Expression::Parenthese(Box::new(inner.stripped())),
            Expression::String(inner) => Expression::String(inner.stripped()),
            Expression::InterpolatedString(inner) => {
                Expression::InterpolatedString(inner.stripped())
            },
            Expression::Table(inner) => Expression::Table(inner.stripped()),
            Expression::True(token) => Expression::True(optional_token_without_comments(token)),
            Expression::Unary(inner) => Expression::Unary(Box::new(inner.stripped())),
            Expression::VariableArguments(token) => {
                Expression::VariableArguments(optional_token_without_comments(token))
            },
            Expression::TypeCast(inner) => Expression::TypeCast(inner.stripped()),
        }
    }

    /// Taking the comments out of everything makes no difference between a node and the
    /// node cleared.
    pub proof fn stripped_absorbs_clearing(self)
        ensures
            self.without_comments().stripped() == self.stripped(),
    {
        self.without_comments_is_idempotent();
    }

    /// Once the comments are taken out of everything, no token holds a comment.
    pub proof fn stripped_is_comment_free(self)
        ensures
            self.stripped().is_comment_free(),
        decreases self.depth(), 0nat,
    {
        match self {
            Expression::Binary(inner) => inner.stripped_is_comment_free(),
            Expression::Call(inner) => inner.stripped_is_comment_free(),
            Expression::False(token) => {
                optional_token_without_comments_is_idempotent(token);
                cleared_optional_token_is_comment_free(
                    optional_token_without_comments(token),
                );
            },
            Expression::Field(inner) => inner.stripped_is_comment_free(),
            Expression::Function(inner) => inner.stripped_is_comment_free(),
            Expression::Identifier(inner) => inner.stripped_is_comment_free(),
            Expression::If(inner) => inner.stripped_is_comment_free(),
            Expression::Index(inner) => inner.stripped_is_comment_free(),
            Expression::Nil(token) => {
                optional_token_without_comments_is_idempotent(token);
                cleared_optional_token_is_comment_free(
                    optional_token_without_comments(token),
                );
            },
            Expression::Number(inner) => inner.stripped_is_comment_free(),
            Expression::Parenthese(inner) => inner.stripped_is_comment_free(),
            Expression::String(inner) => inner.stripped_is_comment_free(),
            Expression::InterpolatedString(inner) => inner.stripped_is_comment_free(),
            Expression::Table(inner) => inner.stripped_is_comment_free(),
            Expression::True(token) => {
                optional_token_without_comments_is_idempotent(token);
                cleared_optional_token_is_comment_free(
                    optional_token_without_comments(token),
                );
            },
            Expression::Unary(inner) => inner.stripped_is_comment_free(),
            Expression::VariableArguments(token) => {
                optional_token_without_comments_is_idempotent(token);
                cleared_optional_token_is_comment_free(
                    optional_token_without_comments(token),
                );
            },
            Expression::TypeCast(inner) => inner.stripped_is_comment_free(),
        }
    }

    /// Taking the comments out of everything a second time changes nothing.
    pub proof fn stripped_is_idempotent(self)
        ensures
            self.stripped().stripped() == self.stripped(),
        decreases self.depth(), 0nat,
    {
        match self {
            Expression::Binary(inner) => inner.stripped_is_idempotent(),
            Expression::Call(inner) => inner.stripped_is_idempotent(),
            Expression::False(token) => optional_token_without_comments_is_idempotent(token),
            Expression::Field(inner) => inner.stripped_is_idempotent(),
            Expression::Function(inner) => inner.stripped_is_idempotent(),
            Expression::Identifier(inner) => inner.stripped_is_idempotent(),
            Expression::If(inner) => inner.stripped_is_idempotent(),
            Expression::Index(inner) => inner.stripped_is_idempotent(),
            Expression::Nil(token) => optional_token_without_comments_is_idempotent(token),
            Expression::Number(inner) => inner.stripped_is_idempotent(),
            Expression::Parenthese(inner) => inner.stripped_is_idempotent(),
            Expression::String(inner) => inner.stripped_is_idempotent(),
            Expression::InterpolatedString(inner) => inner.stripped_is_idempotent(),
            Expression::Table(inner) => inner.stripped_is_idempotent(),
            Expression::True(token) => optional_token_without_comments_is_idempotent(token),
            Expression::Unary(inner) => inner.stripped_is_idempotent(),
            Expression::VariableArguments(token) => {
                optional_token_without_comments_is_idempotent(token)
            },
            Expression::TypeCast(inner) => inner.stripped_is_idempotent(),
        }
    }
}

impl From<BinaryExpression> for Expression {
    fn from(node: BinaryExpression) -> (wrapped: Expression) {
        Expression::Binary(Box::new(node))
    }
}

impl vstd::std_specs::convert::FromSpecImpl<BinaryExpression> for Expression {
    open spec fn obeys_from_spec() -> bool {
        true
    }

    open spec fn from_spec(node: BinaryExpression) -> Expression {
        Expression::Binary(Box::new(node))
    }
}

impl From<FunctionCall> for Expression {
    fn from(node: FunctionCall) -> (wrapped: Expression) {
        Expression::Call(Box::new(node))
    }
}

impl vstd::std_specs::convert::FromSpecImpl<FunctionCall> for Expression {
    open spec fn obeys_from_spec() -> bool {
        true
    }

    open spec fn from_spec(node: FunctionCall) -> Expression {
        Expression::Call(Box::new(node))
    }
}

impl From<FieldExpression> for Expression {
    fn from(node: FieldExpression) -> (wrapped: Expression) {
        Expression::Field(Box::new(node))
    }
}

impl vstd::std_specs::convert::FromSpecImpl<FieldExpression> for Expression {
    open spec fn obeys_from_spec() -> bool {
        true
    }

    open spec fn from_spec(node: FieldExpression) -> Expression {
        Expression::Field(Box::new(node))
    }
}

impl From<FunctionExpression> for Expression {
    fn from(node: FunctionExpression) -> (wrapped: Expression) {
        Expression::Function(Box::new(node))
    }
}

impl vstd::std_specs::convert::FromSpecImpl<FunctionExpression> for Expression {
    open spec fn obeys_from_spec() -> bool {
        true
    }

    open spec fn from_spec(node: FunctionExpression) -> Expression {
        Expression::Function(Box::new(node))
    }
}

impl From<Identifier> for Expression {
    fn from(node: Identifier) -> (wrapped: Expression) {
        Expression::Identifier(node)
    }
}

impl vstd::std_specs::convert::FromSpecImpl<Identifier> for Expression {
    open spec fn obeys_from_spec() -> bool {
        true
    }

    open spec fn from_spec(node: Identifier) -> Expression {
        Expression::Identifier(node)
    }
}

impl From<IfExpression> for Expression {
    fn from(node: IfExpression) -> (wrapped: Expression) {
        Expression::If(Box::new(node))
    }
}

impl vstd::std_specs::convert::FromSpecImpl<IfExpression> for Expression {
    open spec fn obeys_from_spec() -> bool {
        true
    }

    open spec fn from_spec(node: IfExpression) -> Expression {
        Expression::If(Box::new(node))
    }
}

impl From<IndexExpression> for Expression {
    fn from(node: IndexExpression) -> (wrapped: Expression) {
        Expression::Index(Box::new(node))
    }
}

impl vstd::std_specs::convert::FromSpecImpl<IndexExpression> for Expression {
    open spec fn obeys_from_spec() -> bool {
        true
    }

    open spec fn from_spec(node: IndexExpression) -> Expression {
        Expression::Index(Box::new(node))
    }
}

impl From<NumberExpression> for Expression {
    fn from(node: NumberExpression) -> (wrapped: Expression) {
        Expression::Number(node)
    }
}

impl vstd::std_specs::convert::FromSpecImpl<NumberExpression> for Expression {
    open spec fn obeys_from_spec() -> bool {
        true
    }

    open spec fn from_spec(node: NumberExpression) -> Expression {
        Expression::Number(node)
    }
}

impl From<ParentheseExpression> for Expression {
    fn from(node: ParentheseExpression) -> (wrapped: Expression) {
        Expression::Parenthese(Box::new(node))
    }
}

impl vstd::std_specs::convert::FromSpecImpl<ParentheseExpression> for Expression {
    open spec fn obeys_from_spec() -> bool {
        true
    }

    open spec fn from_spec(node: ParentheseExpression) -> Expression {
        Expression::Parenthese(Box::new(node))
    }
}

impl From<StringExpression> for Expression {
    fn from(node: StringExpression) -> (wrapped: Expression) {
        Expression::String(node)
    }
}

impl vstd::std_specs::convert::FromSpecImpl<StringExpression> for Expression {
    open spec fn obeys_from_spec() -> bool {
        true
    }

    open spec fn from_spec(node: StringExpression) -> Expression {
        Expression::String(node)
    }
}

impl From<InterpolatedStringExpression> for Expression {
    fn from(node: InterpolatedStringExpression) -> (wrapped: Expression) {
        Expression::InterpolatedString(node)
    }
}

impl vstd::std_specs::convert::FromSpecImpl<InterpolatedStringExpression> for Expression {
    open spec fn obeys_from_spec() -> bool {
        true
    }

    open spec fn from_spec(node: InterpolatedStringExpression) -> Expression {
        Expression::InterpolatedString(node)
    }
}

impl From<TableExpression> for Expression {
    fn from(node: TableExpression) -> (wrapped: Expression) {
        Expression::Table(node)
    }
}

impl vstd::std_specs::convert::FromSpecImpl<TableExpression> for Expression {
    open spec fn obeys_from_spec() -> bool {
        true
    }

    open spec fn from_spec(node: TableExpression) -> Expression {
        Expression::Table(node)
    }
}

impl From<UnaryExpression> for Expression {
    fn from(node: UnaryExpression) -> (wrapped: Expression) {
        Expression::Unary(Box::new(node))
    }
}

impl vstd::std_specs::convert::FromSpecImpl<UnaryExpression> for Expression {
    open spec fn obeys_from_spec() -> bool {
        true
    }

    open spec fn from_spec(node: UnaryExpression) -> Expression {
        Expression::Unary(Box::new(node))
    }
}

impl From<TypeCastExpression> for Expression {
    fn from(node: TypeCastExpression) -> (wrapped: Expression) {
        Expression::TypeCast(node)
    }
}

impl vstd::std_specs::convert::FromSpecImpl<TypeCastExpression> for Expression {
    open spec fn obeys_from_spec() -> bool {
        true
    }

    open spec fn from_spec(node: TypeCastExpression) -> Expression {
        Expression::TypeCast(node)
    }
}

/// Whether none of a list of expressions holds a comment.
pub open spec fn expressions_are_comment_free(list: NodeList<Expression>) -> bool
    decreases list,
{
    match list {
        NodeList::Empty => true,
        NodeList::Cell(cell) => {
            cell.head.is_comment_free() && expressions_are_comment_free(cell.tail)
        },
    }
}

/// A list of expressions with the comments taken out of every token of them.
pub open spec fn expressions_stripped(list: NodeList<Expression>) -> NodeList<Expression>
    decreases list,
{
    match list {
        NodeList::Empty => NodeList::Empty,
        NodeList::Cell(cell) => {
            NodeList::cons(cell.head.stripped(), expressions_stripped(cell.tail))
        },
    }
}

/// Once the comments are taken out of a list of expressions, no token of them holds a
/// comment.
pub proof fn expressions_stripped_are_comment_free(list: NodeList<Expression>)
    ensures
        expressions_are_comment_free(expressions_stripped(list)),
    decreases expressions_depth(list), 1 + list.count(),
{
    match list {
        NodeList::Empty => {},
        NodeList::Cell(cell) => {
            cell.head.stripped_is_comment_free();
            expressions_stripped_are_comment_free(cell.tail);
        },
    }
}

/// Taking the comments out of a list of expressions a second time changes nothing.
pub proof fn expressions_stripped_is_idempotent(list: NodeList<Expression>)
    ensures
        expressions_stripped(expressions_stripped(list)) == expressions_stripped(list),
    decreases expressions_depth(list), 1 + list.count(),
{
    match list {
        NodeList::Empty => {},
        NodeList::Cell(cell) => {
            cell.head.stripped_is_idempotent();
            expressions_stripped_is_idempotent(cell.tail);
        },
    }
}

/// The depth of the deepest of a list of expressions.
pub open spec fn expressions_depth(list: NodeList<Expression>) -> nat
    decreases list,
{
    match list {
        NodeList::Empty => 0,
        NodeList::Cell(cell) => deeper(cell.head.depth(), expressions_depth(cell.tail)),
    }
}

impl Expression {
    /// The identifier of a name, as an expression.
    pub fn identifier(name: &str) -> (expression: Self)
        ensures
            expression matches Expression::Identifier(identifier) && identifier.name@ == name@
                && identifier.token is None,
    {
        Expression::Identifier(Identifier::new(name))
    }

    /// The literal `nil`, without token.
    pub fn nil() -> (expression: Self)
        ensures
            expression == Expression::Nil(None),
    {
        Expression::Nil(None)
    }

    /// The variable arguments `...`, without token.
    pub fn variable_arguments() -> (expression: Self)
        ensures
            expression == Expression::VariableArguments(None),
    {
        Expression::VariableArguments(None)
    }
}

impl From<bool> for Expression {
    fn from(value: bool) -> (expression: Expression) {
        if value {
            Expression::True(None)
        } else {
            Expression::False(None)
        }
    }
}

impl vstd::std_specs::convert::FromSpecImpl<bool> for Expression {
    open spec fn obeys_from_spec() -> bool {
        true
    }

    open spec fn from_spec(value: bool) -> Expression {
        if value {
            Expression::True(None)
        } else {
            Expression::False(None)
        }
    }
}

impl From<DecimalNumber> for Expression {
    fn from(number: DecimalNumber) -> (expression: Expression) {
        Expression::Number(NumberExpression::Decimal(number))
    }
}

impl vstd::std_specs::convert::FromSpecImpl<DecimalNumber> for Expression {
    open spec fn obeys_from_spec() -> bool {
        true
    }

    open spec fn from_spec(number: DecimalNumber) -> Expression {
        Expression::Number(NumberExpression::Decimal(number))
    }
}

} // verus!
