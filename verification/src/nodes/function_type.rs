use crate::nodes::function::GenericParameters;
use crate::nodes::identifier::Identifier;
use crate::nodes::list::{NodeList, deeper};
use crate::nodes::token::{
    Token, clear_optional_token_comments, clear_tokens_comments,
    cleared_optional_token_is_comment_free, cleared_tokens_are_comment_free,
    optional_token_is_comment_free, optional_token_without_comments,
    optional_token_without_comments_is_idempotent, tokens_are_comment_free, tokens_without_comments,
    tokens_without_comments_is_idempotent,
};
use crate::nodes::type_pack::{GenericTypePack, TypePack, VariadicArgumentType, VariadicTypePack};
use crate::nodes::types::Type;
use vstd::prelude::*;

verus! {

/// The type of a function.
#[derive(Debug, PartialEq, Eq)]
pub struct FunctionType {
    pub arguments: NodeList<FunctionArgumentType>,
    pub variadic_argument_type: Option<VariadicArgumentType>,
    pub return_type: FunctionReturnType,
    pub generic_parameters: Option<GenericParameters>,
    pub tokens: Option<FunctionTypeTokens>,
}

impl FunctionType {
    /// A node built from its parts, without tokens.
    pub fn new(
        arguments: Vec<FunctionArgumentType>,
        variadic_argument_type: Option<VariadicArgumentType>,
        return_type: FunctionReturnType,
        generic_parameters: Option<GenericParameters>,
    ) -> (node: Self)
        ensures
            node.arguments@ == arguments@,
            node.variadic_argument_type == variadic_argument_type,
            node.return_type == return_type,
            node.generic_parameters == generic_parameters,
            node.tokens is None,
    {
        FunctionType {
            arguments: NodeList::from_vec(arguments),
            variadic_argument_type,
            return_type,
            generic_parameters,
            tokens: None,
        }
    }

    /// This node with the tokens it was read from.
    pub fn with_tokens(self, tokens: FunctionTypeTokens) -> (node: Self)
        ensures
            node == (FunctionType { tokens: Some(tokens), ..self }),
    {
        let mut node = self;
        node.tokens = Some(tokens);
        node
    }

    /// How deep the tree under this node goes.
    pub open spec fn depth(self) -> nat
        decreases self,
    {
        1 + deeper(
            function_argument_types_depth(self.arguments),
            deeper(
                match self.variadic_argument_type {
                    Some(inner) => inner.depth(),
                    None => 0,
                },
                self.return_type.depth(),
            ),
        )
    }

    /// This node with every comment taken out of its own tokens and of the parts that
    /// are cleared with it.
    pub open spec fn without_comments(self) -> Self {
        FunctionType {
            arguments: function_argument_types_without_comments(self.arguments),
            generic_parameters: match self.generic_parameters {
                Some(inner) => Some(inner.without_comments()),
                None => None,
            },
            tokens: match self.tokens {
                Some(tokens) => Some(tokens.without_comments()),
                None => None,
            },
            ..self
        }
    }

    /// Takes the comments out of the tokens of this node and of the parts that are
    /// cleared with it. What the node means stays as it is.
    pub fn clear_comments(&mut self)
        ensures
            *final(self) == old(self).without_comments(),
    {
        clear_function_argument_types_comments(&mut self.arguments);
        match &mut self.generic_parameters {
            Some(inner) => inner.clear_comments(),
            None => {},
        }
        match &mut self.tokens {
            Some(tokens) => tokens.clear_comments(),
            None => {},
        }
    }

    /// Clearing comments a second time changes nothing.
    pub proof fn without_comments_is_idempotent(self)
        ensures
            self.without_comments().without_comments() == self.without_comments(),
    {
        function_argument_types_without_comments_is_idempotent(self.arguments);
        match self.generic_parameters {
            Some(inner) => inner.without_comments_is_idempotent(),
            None => {},
        }
        match self.tokens {
            Some(tokens) => tokens.without_comments_is_idempotent(),
            None => {},
        }
    }

    /// Clearing comments leaves the depth as it is.
    pub proof fn without_comments_keeps_depth(self)
        ensures
            self.without_comments().depth() == self.depth(),
    {
        function_argument_types_without_comments_keeps_depth(self.arguments);
    }

    /// Whether no token of this node, nor of anything under it, holds a comment.
    pub open spec fn is_comment_free(self) -> bool
        decreases self,
    {
        &&& function_argument_types_are_comment_free(self.arguments)
        &&& match self.variadic_argument_type {
            Some(inner) => inner.is_comment_free(),
            None => true,
        }
        &&& self.return_type.is_comment_free()
        &&& match self.generic_parameters {
            Some(inner) => inner.is_comment_free(),
            None => true,
        }
        &&& match self.tokens {
            Some(tokens) => tokens.is_comment_free(),
            None => true,
        }
    }

    /// This node with the comments taken out of every token of it and of everything
    /// under it.
    pub open spec fn stripped(self) -> Self
        decreases self,
    {
        FunctionType {
            arguments: function_argument_types_stripped(self.arguments),
            variadic_argument_type: match self.variadic_argument_type {
                Some(inner) => Some(inner.stripped()),
                None => None,
            },
            return_type: self.return_type.stripped(),
            generic_parameters: match self.generic_parameters {
                Some(inner) => Some(inner.stripped()),
                None => None,
            },
            tokens: match self.tokens {
                Some(tokens) => Some(tokens.without_comments()),
                None => None,
            },
        }
    }

    /// Taking the comments out of everything makes no difference between a node and the
    /// node cleared.
    pub proof fn stripped_absorbs_clearing(self)
        ensures
            self.without_comments().stripped() == self.stripped(),
    {
        self.without_comments_is_idempotent();
        function_argument_types_stripped_absorbs_clearing(self.arguments);
        match self.generic_parameters {
            Some(inner) => inner.without_comments_is_idempotent(),
            None => {},
        }
    }

    /// Once the comments are taken out of everything, no token holds a comment.
    pub proof fn stripped_is_comment_free(self)
        ensures
            self.stripped().is_comment_free(),
        decreases self.depth(), 0nat,
    {
        function_argument_types_stripped_are_comment_free(self.arguments);
        match self.variadic_argument_type {
            Some(inner) => inner.stripped_is_comment_free(),
            None => {},
        }
        self.return_type.stripped_is_comment_free();
        match self.generic_parameters {
            Some(inner) => inner.stripped_is_comment_free(),
            None => {},
        }
        match self.tokens {
            Some(tokens) => {
                tokens.without_comments_is_idempotent();
                tokens.without_comments().cleared_is_comment_free();
            },
            None => {},
        }
    }

    /// Taking the comments out of everything a second time changes nothing.
    pub proof fn stripped_is_idempotent(self)
        ensures
            self.stripped().stripped() == self.stripped(),
        decreases self.depth(), 0nat,
    {
        function_argument_types_stripped_is_idempotent(self.arguments);
        match self.variadic_argument_type {
            Some(inner) => inner.stripped_is_idempotent(),
            None => {},
        }
        self.return_type.stripped_is_idempotent();
        match self.generic_parameters {
            Some(inner) => inner.stripped_is_idempotent(),
            None => {},
        }
        match self.tokens {
            Some(tokens) => tokens.without_comments_is_idempotent(),
            None => {},
        }
    }
}

/// The tokens of a function type.
#[derive(Debug, PartialEq, Eq)]
pub struct FunctionTypeTokens {
    pub opening_parenthese: Token,
    pub closing_parenthese: Token,
    pub arrow: Token,
    pub commas: NodeList<Token>,
}

impl FunctionTypeTokens {
    /// These tokens with every comment taken out of their trivia.
    pub open spec fn without_comments(self) -> Self {
        FunctionTypeTokens {
            opening_parenthese: self.opening_parenthese.without_comments(),
            closing_parenthese: self.closing_parenthese.without_comments(),
            arrow: self.arrow.without_comments(),
            commas: tokens_without_comments(self.commas),
        }
    }

    /// Takes the comments out of the trivia of every token.
    pub fn clear_comments(&mut self)
        ensures
            *final(self) == old(self).without_comments(),
    {
        self.opening_parenthese.clear_comments();
        self.closing_parenthese.clear_comments();
        self.arrow.clear_comments();
        clear_tokens_comments(&mut self.commas);
    }

    /// Clearing comments a second time changes nothing.
    pub proof fn without_comments_is_idempotent(self)
        ensures
            self.without_comments().without_comments() == self.without_comments(),
    {
        self.opening_parenthese.without_comments_is_idempotent();
        self.closing_parenthese.without_comments_is_idempotent();
        self.arrow.without_comments_is_idempotent();
        tokens_without_comments_is_idempotent(self.commas);
    }

    /// Whether none of these tokens holds a comment.
    pub open spec fn is_comment_free(self) -> bool {
        &&& self.opening_parenthese.is_comment_free()
        &&& self.closing_parenthese.is_comment_free()
        &&& self.arrow.is_comment_free()
        &&& tokens_are_comment_free(self.commas)
    }

    /// Tokens that clearing leaves as they are hold no comment.
    pub proof fn cleared_is_comment_free(self)
        requires
            self.without_comments() == self,
        ensures
            self.is_comment_free(),
    {
        self.opening_parenthese.cleared_is_comment_free();
        self.closing_parenthese.cleared_is_comment_free();
        self.arrow.cleared_is_comment_free();
        cleared_tokens_are_comment_free(self.commas);
    }
}

/// The type of one argument, possibly named.
#[derive(Debug, PartialEq, Eq)]
pub struct FunctionArgumentType {
    pub argument_type: Type,
    pub name: Option<Identifier>,
    pub token: Option<Token>,
}

impl FunctionArgumentType {
    /// A node built from its parts, without tokens.
    pub fn new(argument_type: Type, name: Option<Identifier>) -> (node: Self)
        ensures
            node.argument_type == argument_type,
            node.name == name,
            node.token is None,
    {
        FunctionArgumentType { argument_type, name, token: None }
    }

    /// This node with the token it was read from.
    pub fn with_token(self, token: Token) -> (node: Self)
        ensures
            node == (FunctionArgumentType { token: Some(token), ..self }),
    {
        let mut node = self;
        node.token = Some(token);
        node
    }

    /// How deep the tree under this node goes.
    pub open spec fn depth(self) -> nat
        decreases self,
    {
        1 + self.argument_type.depth()
    }

    /// This node with every comment taken out of its own tokens and of the parts that
    /// are cleared with it.
    pub open spec fn without_comments(self) -> Self {
        FunctionArgumentType {
            name: match self.name {
                Some(inner) => Some(inner.without_comments()),
                None => None,
            },
            token: optional_token_without_comments(self.token),
            ..self
        }
    }

    /// Takes the comments out of the tokens of this node and of the parts that are
    /// cleared with it. What the node means stays as it is.
    pub fn clear_comments(&mut self)
        ensures
            *final(self) == old(self).without_comments(),
    {
        match &mut self.name {
            Some(inner) => inner.clear_comments(),
            None => {},
        }
        clear_optional_token_comments(&mut self.token);
    }

    /// Clearing comments a second time changes nothing.
    pub proof fn without_comments_is_idempotent(self)
        ensures
            self.without_comments().without_comments() == self.without_comments(),
    {
        match self.name {
            Some(inner) => inner.without_comments_is_idempotent(),
            None => {},
        }
        optional_token_without_comments_is_idempotent(self.token);
    }

    /// Clearing comments leaves the depth as it is.
    pub proof fn without_comments_keeps_depth(self)
        ensures
            self.without_comments().depth() == self.depth(),
    {
    }

    /// Whether no token of this node, nor of anything under it, holds a comment.
    pub open spec fn is_comment_free(self) -> bool
        decreases self,
    {
        &&& self.argument_type.is_comment_free()
        &&& match self.name {
            Some(inner) => inner.is_comment_free(),
            None => true,
        }
        &&& optional_token_is_comment_free(self.token)
    }

    /// This node with the comments taken out of every token of it and of everything
    /// under it.
    pub open spec fn stripped(self) -> Self
        decreases self,
    {
        FunctionArgumentType {
            argument_type: self.argument_type.stripped(),
            name: match self.name {
                Some(inner) => Some(inner.stripped()),
                None => None,
            },
            token: optional_token_without_comments(self.token),
        }
    }

    /// Taking the comments out of everything makes no difference between a node and the
    /// node cleared.
    pub proof fn stripped_absorbs_clearing(self)
        ensures
            self.without_comments().stripped() == self.stripped(),
    {
        self.without_comments_is_idempotent();
        match self.name {
            Some(inner) => inner.without_comments_is_idempotent(),
            None => {},
        }
    }

    /// Once the comments are taken out of everything, no token holds a comment.
    pub proof fn stripped_is_comment_free(self)
        ensures
            self.stripped().is_comment_free(),
        decreases self.depth(), 0nat,
    {
        self.argument_type.stripped_is_comment_free();
        match self.name {
            Some(inner) => inner.stripped_is_comment_free(),
            None => {},
        }
        optional_token_without_comments_is_idempotent(self.token);
        cleared_optional_token_is_comment_free(
            optional_token_without_comments(self.token),
        );
    }

    /// Taking the comments out of everything a second time changes nothing.
    pub proof fn stripped_is_idempotent(self)
        ensures
            self.stripped().stripped() == self.stripped(),
        decreases self.depth(), 0nat,
    {
        self.argument_type.stripped_is_idempotent();
        match self.name {
            Some(inner) => inner.stripped_is_idempotent(),
            None => {},
        }
        optional_token_without_comments_is_idempotent(self.token);
    }
}

/// Whether none of a list of function argument types holds a comment.
pub open spec fn function_argument_types_are_comment_free(
    list: NodeList<FunctionArgumentType>,
) -> bool
    decreases list,
{
    match list {
        NodeList::Empty => true,
        NodeList::Cell(cell) => {
            cell.head.is_comment_free() && function_argument_types_are_comment_free(cell.tail)
        },
    }
}

/// A list of function argument types with the comments taken out of every token of
/// them.
pub open spec fn function_argument_types_stripped(
    list: NodeList<FunctionArgumentType>,
) -> NodeList<FunctionArgumentType>
    decreases list,
{
    match list {
        NodeList::Empty => NodeList::Empty,
        NodeList::Cell(cell) => {
            NodeList::cons(cell.head.stripped(), function_argument_types_stripped(cell.tail))
        },
    }
}

/// Once the comments are taken out of a list of function argument types, no token of
/// them holds a comment.
pub proof fn function_argument_types_stripped_are_comment_free(list: NodeList<FunctionArgumentType>)
    ensures
        function_argument_types_are_comment_free(function_argument_types_stripped(list)),
    decreases function_argument_types_depth(list), 1 + list.count(),
{
    match list {
        NodeList::Empty => {},
        NodeList::Cell(cell) => {
            cell.head.stripped_is_comment_free();
            function_argument_types_stripped_are_comment_free(cell.tail);
        },
    }
}

/// Taking the comments out of a list of function argument types a second time changes
/// nothing.
pub proof fn function_argument_types_stripped_is_idempotent(list: NodeList<FunctionArgumentType>)
    ensures
        function_argument_types_stripped(function_argument_types_stripped(list))
            == function_argument_types_stripped(list),
    decreases function_argument_types_depth(list), 1 + list.count(),
{
    match list {
        NodeList::Empty => {},
        NodeList::Cell(cell) => {
            cell.head.stripped_is_idempotent();
            function_argument_types_stripped_is_idempotent(cell.tail);
        },
    }
}

/// Taking the comments out of everything makes no difference between a list of function
/// argument types and the list cleared.
pub proof fn function_argument_types_stripped_absorbs_clearing(list: NodeList<FunctionArgumentType>)
    ensures
        function_argument_types_stripped(function_argument_types_without_comments(list))
            == function_argument_types_stripped(list),
    decreases list,
{
    match list {
        NodeList::Empty => {},
        NodeList::Cell(cell) => {
            cell.head.stripped_absorbs_clearing();
            function_argument_types_stripped_absorbs_clearing(cell.tail);
        },
    }
}

/// The depth of the deepest of a list of function argument types.
pub open spec fn function_argument_types_depth(list: NodeList<FunctionArgumentType>) -> nat
    decreases list,
{
    match list {
        NodeList::Empty => 0,
        NodeList::Cell(cell) => deeper(cell.head.depth(), function_argument_types_depth(cell.tail)),
    }
}

/// A list of function argument types, each with its comments taken out.
pub open spec fn function_argument_types_without_comments(
    list: NodeList<FunctionArgumentType>,
) -> NodeList<FunctionArgumentType>
    decreases list,
{
    match list {
        NodeList::Empty => NodeList::Empty,
        NodeList::Cell(cell) => NodeList::cons(
            cell.head.without_comments(),
            function_argument_types_without_comments(cell.tail),
        ),
    }
}

/// Takes the comments out of each of a list of function argument types.
pub fn clear_function_argument_types_comments(list: &mut NodeList<FunctionArgumentType>)
    ensures
        *final(list) == function_argument_types_without_comments(*old(list)),
    decreases *old(list),
{
    match list {
        NodeList::Empty => {},
        NodeList::Cell(cell) => {
            cell.head.clear_comments();
            clear_function_argument_types_comments(&mut cell.tail);
        },
    }
}

/// Clearing a list of function argument types a second time changes nothing.
pub proof fn function_argument_types_without_comments_is_idempotent(
    list: NodeList<FunctionArgumentType>,
)
    ensures
        function_argument_types_without_comments(function_argument_types_without_comments(list))
            == function_argument_types_without_comments(list),
    decreases list,
{
    match list {
        NodeList::Empty => {},
        NodeList::Cell(cell) => {
            cell.head.without_comments_is_idempotent();
            function_argument_types_without_comments_is_idempotent(cell.tail);
        },
    }
}

/// Clearing a list of function argument types leaves its depth as it is.
pub proof fn function_argument_types_without_comments_keeps_depth(
    list: NodeList<FunctionArgumentType>,
)
    ensures
        function_argument_types_depth(function_argument_types_without_comments(list))
            == function_argument_types_depth(list),
    decreases list,
{
    match list {
        NodeList::Empty => {},
        NodeList::Cell(cell) => {
            cell.head.without_comments_keeps_depth();
            function_argument_types_without_comments_keeps_depth(cell.tail);
        },
    }
}

/// What a function returns.
#[derive(Debug, PartialEq, Eq)]
pub enum FunctionReturnType {
    Type(Box<Type>),
    TypePack(TypePack),
    GenericTypePack(GenericTypePack),
    VariadicTypePack(VariadicTypePack),
}

impl FunctionReturnType {
    /// How deep the tree under this node goes.
    pub open spec fn depth(self) -> nat
        decreases self,
    {
        match self {
            FunctionReturnType::Type(inner) => 1 + inner.depth(),
            FunctionReturnType::TypePack(inner) => 1 + inner.depth(),
            FunctionReturnType::VariadicTypePack(inner) => 1 + inner.depth(),
            _ => 0,
        }
    }

    /// Whether no token of this node, nor of anything under it, holds a comment.
    pub open spec fn is_comment_free(self) -> bool
        decreases self,
    {
        match self {
            FunctionReturnType::Type(inner) => inner.is_comment_free(),
            FunctionReturnType::TypePack(inner) => inner.is_comment_free(),
            FunctionReturnType::GenericTypePack(inner) => inner.is_comment_free(),
            FunctionReturnType::VariadicTypePack(inner) => inner.is_comment_free(),
        }
    }

    /// This node with the comments taken out of every token of it and of everything
    /// under it.
    pub open spec fn stripped(self) -> Self
        decreases self,
    {
        match self {
            FunctionReturnType::Type(inner) => FunctionReturnType::Type(Box::new(inner.stripped())),
            FunctionReturnType::TypePack(inner) => FunctionReturnType::TypePack(inner.stripped()),
            FunctionReturnType::GenericTypePack(inner) => {
                FunctionReturnType::GenericTypePack(inner.stripped())
            },
            FunctionReturnType::VariadicTypePack(inner) => {
                FunctionReturnType::VariadicTypePack(inner.stripped())
            },
        }
    }

    /// Once the comments are taken out of everything, no token holds a comment.
    pub proof fn stripped_is_comment_free(self)
        ensures
            self.stripped().is_comment_free(),
        decreases self.depth(), 0nat,
    {
        match self {
            FunctionReturnType::Type(inner) => inner.stripped_is_comment_free(),
            FunctionReturnType::TypePack(inner) => inner.stripped_is_comment_free(),
            FunctionReturnType::GenericTypePack(inner) => inner.stripped_is_comment_free(),
            FunctionReturnType::VariadicTypePack(inner) => inner.stripped_is_comment_free(),
        }
    }

    /// Taking the comments out of everything a second time changes nothing.
    pub proof fn stripped_is_idempotent(self)
        ensures
            self.stripped().stripped() == self.stripped(),
        decreases self.depth(), 0nat,
    {
        match self {
            FunctionReturnType::Type(inner) => inner.stripped_is_idempotent(),
            FunctionReturnType::TypePack(inner) => inner.stripped_is_idempotent(),
            FunctionReturnType::GenericTypePack(inner) => inner.stripped_is_idempotent(),
            FunctionReturnType::VariadicTypePack(inner) => inner.stripped_is_idempotent(),
        }
    }
}

/// The type of the variadic arguments of a function.
#[derive(Debug, PartialEq, Eq)]
pub enum FunctionVariadicType {
    Type(Type),
    GenericTypePack(GenericTypePack),
}

impl FunctionVariadicType {
    /// How deep the tree under this node goes.
    pub open spec fn depth(self) -> nat
        decreases self,
    {
        match self {
            FunctionVariadicType::Type(inner) => 1 + inner.depth(),
            _ => 0,
        }
    }

    /// Whether no token of this node, nor of anything under it, holds a comment.
    pub open spec fn is_comment_free(self) -> bool
        decreases self,
    {
        match self {
            FunctionVariadicType::Type(inner) => inner.is_comment_free(),
            FunctionVariadicType::GenericTypePack(inner) => inner.is_comment_free(),
        }
    }

    /// This node with the comments taken out of every token of it and of everything
    /// under it.
    pub open spec fn stripped(self) -> Self
        decreases self,
    {
        match self {
            FunctionVariadicType::Type(inner) => FunctionVariadicType::Type(inner.stripped()),
            FunctionVariadicType::GenericTypePack(inner) => {
                FunctionVariadicType::GenericTypePack(inner.stripped())
            },
        }
    }

    /// Once the comments are taken out of everything, no token holds a comment.
    pub proof fn stripped_is_comment_free(self)
        ensures
            self.stripped().is_comment_free(),
        decreases self.depth(), 0nat,
    {
        match self {
            FunctionVariadicType::Type(inner) => inner.stripped_is_comment_free(),
            FunctionVariadicType::GenericTypePack(inner) => inner.stripped_is_comment_free(),
        }
    }

    /// Taking the comments out of everything a second time changes nothing.
    pub proof fn stripped_is_idempotent(self)
        ensures
            self.stripped().stripped() == self.stripped(),
        decreases self.depth(), 0nat,
    {
        match self {
            FunctionVariadicType::Type(inner) => inner.stripped_is_idempotent(),
            FunctionVariadicType::GenericTypePack(inner) => inner.stripped_is_idempotent(),
        }
    }
}

} // verus!
