use crate::nodes::identifier::Identifier;
use crate::nodes::list::{NodeList, deeper};
use crate::nodes::token::{
    Token, clear_optional_token_comments, clear_tokens_comments,
    cleared_optional_token_is_comment_free, cleared_tokens_are_comment_free,
    optional_token_is_comment_free, optional_token_without_comments,
    optional_token_without_comments_is_idempotent, tokens_are_comment_free, tokens_without_comments,
    tokens_without_comments_is_idempotent,
};
use crate::nodes::types::{
    Type, types_are_comment_free, types_depth, types_stripped, types_stripped_are_comment_free,
    types_stripped_is_idempotent,
};
use vstd::prelude::*;

verus! {

/// A sequence of types, possibly ending in a variadic tail.
#[derive(Debug, PartialEq, Eq)]
pub struct TypePack {
    pub types: NodeList<Type>,
    pub variadic_type: Option<VariadicArgumentType>,
    pub tokens: Option<TypePackTokens>,
}

impl TypePack {
    /// A node built from its parts, without tokens.
    pub fn new(types: Vec<Type>, variadic_type: Option<VariadicArgumentType>) -> (node: Self)
        ensures
            node.types@ == types@,
            node.variadic_type == variadic_type,
            node.tokens is None,
    {
        TypePack { types: NodeList::from_vec(types), variadic_type, tokens: None }
    }

    /// This node with the tokens it was read from.
    pub fn with_tokens(self, tokens: TypePackTokens) -> (node: Self)
        ensures
            node == (TypePack { tokens: Some(tokens), ..self }),
    {
        let mut node = self;
        node.tokens = Some(tokens);
        node
    }

    /// How deep the tree under this node goes.
    pub open spec fn depth(self) -> nat
        decreases self,
    {
        1 + deeper(
            types_depth(self.types),
            match self.variadic_type {
                Some(inner) => inner.depth(),
                None => 0,
            },
        )
    }

    /// This node with every comment taken out of its own tokens.
    pub open spec fn without_comments(self) -> Self {
        TypePack {
            tokens: match self.tokens {
                Some(tokens) => Some(tokens.without_comments()),
                None => None,
            },
            ..self
        }
    }

    /// Takes the comments out of the tokens of this node. What the node means stays as
    /// it is.
    pub fn clear_comments(&mut self)
        ensures
            *final(self) == old(self).without_comments(),
    {
        match &mut self.tokens {
            Some(tokens) => tokens.clear_comments(),
            None => {},
        }
    }

    /// Clearing comments a second time changes nothing.
    pub proof fn without_comments_is_idempotent(self)
        ensures
            self.without_comments().without_comments() == self.without_comments(),
    {
        match self.tokens {
            Some(tokens) => tokens.without_comments_is_idempotent(),
            None => {},
        }
    }

    /// Clearing comments leaves the depth as it is.
    pub proof fn without_comments_keeps_depth(self)
        ensures
            self.without_comments().depth() == self.depth(),
    {
    }

    /// Whether no token of this node, nor of anything under it, holds a comment.
    pub open spec fn is_comment_free(self) -> bool
        decreases self,
    {
        &&& types_are_comment_free(self.types)
        &&& match self.variadic_type {
            Some(inner) => inner.is_comment_free(),
            None => true,
        }
        &&& match self.tokens {
            Some(tokens) => tokens.is_comment_free(),
            None => true,
        }
    }

    /// This node with the comments taken out of every token of it and of everything
    /// under it.
    pub open spec fn stripped(self) -> Self
        decreases self,
    {
        TypePack {
            types: types_stripped(self.types),
            variadic_type: match self.variadic_type {
                Some(inner) => Some(inner.stripped()),
                None => None,
            },
            tokens: match self.tokens {
                Some(tokens) => Some(tokens.without_comments()),
                None => None,
            },
        }
    }

    /// Taking the comments out of everything makes no difference between a node and the
    /// node cleared.
    pub proof fn stripped_absorbs_clearing(self)
        ensures
            self.without_comments().stripped() == self.stripped(),
    {
        self.without_comments_is_idempotent();
    }

    /// Once the comments are taken out of everything, no token holds a comment.
    pub proof fn stripped_is_comment_free(self)
        ensures
            self.stripped().is_comment_free(),
        decreases self.depth(), 0nat,
    {
        types_stripped_are_comment_free(self.types);
        match self.variadic_type {
            Some(inner) => inner.stripped_is_comment_free(),
            None => {},
        }
        match self.tokens {
            Some(tokens) => {
                tokens.without_comments_is_idempotent();
                tokens.without_comments().cleared_is_comment_free();
            },
            None => {},
        }
    }

    /// Taking the comments out of everything a second time changes nothing.
    pub proof fn stripped_is_idempotent(self)
        ensures
            self.stripped().stripped() == self.stripped(),
        decreases self.depth(), 0nat,
    {
        types_stripped_is_idempotent(self.types);
        match self.variadic_type {
            Some(inner) => inner.stripped_is_idempotent(),
            None => {},
        }
        match self.tokens {
            Some(tokens) => tokens.without_comments_is_idempotent(),
            None => {},
        }
    }
}

impl Default for TypePack {
    fn default() -> (node: Self)
        ensures
            node == (TypePack { types: NodeList::Empty, variadic_type: None, tokens: None }),
    {
        TypePack { types: NodeList::Empty, variadic_type: None, tokens: None }
    }
}

/// The tokens of a type pack.
#[derive(Debug, PartialEq, Eq)]
pub struct TypePackTokens {
    pub left_parenthese: Token,
    pub right_parenthese: Token,
    pub commas: NodeList<Token>,
}

impl TypePackTokens {
    /// These tokens with every comment taken out of their trivia.
    pub open spec fn without_comments(self) -> Self {
        TypePackTokens {
            left_parenthese: self.left_parenthese.without_comments(),
            right_parenthese: self.right_parenthese.without_comments(),
            commas: tokens_without_comments(self.commas),
        }
    }

    /// Takes the comments out of the trivia of every token.
    pub fn clear_comments(&mut self)
        ensures
            *final(self) == old(self).without_comments(),
    {
        self.left_parenthese.clear_comments();
        self.right_parenthese.clear_comments();
        clear_tokens_comments(&mut self.commas);
    }

    /// Clearing comments a second time changes nothing.
    pub proof fn without_comments_is_idempotent(self)
        ensures
            self.without_comments().without_comments() == self.without_comments(),
    {
        self.left_parenthese.without_comments_is_idempotent();
        self.right_parenthese.without_comments_is_idempotent();
        tokens_without_comments_is_idempotent(self.commas);
    }

    /// Whether none of these tokens holds a comment.
    pub open spec fn is_comment_free(self) -> bool {
        &&& self.left_parenthese.is_comment_free()
        &&& self.right_parenthese.is_comment_free()
        &&& tokens_are_comment_free(self.commas)
    }

    /// Tokens that clearing leaves as they are hold no comment.
    pub proof fn cleared_is_comment_free(self)
        requires
            self.without_comments() == self,
        ensures
            self.is_comment_free(),
    {
        self.left_parenthese.cleared_is_comment_free();
        self.right_parenthese.cleared_is_comment_free();
        cleared_tokens_are_comment_free(self.commas);
    }
}

/// Any number of values of one type.
#[derive(Debug, PartialEq, Eq)]
pub struct VariadicTypePack {
    pub inner_type: Box<Type>,
    pub token: Option<Token>,
}

impl VariadicTypePack {
    /// A node built from its parts, without tokens.
    pub fn new(inner_type: Type) -> (node: Self)
        ensures
            *node.inner_type == inner_type,
            node.token is None,
    {
        VariadicTypePack { inner_type: Box::new(inner_type), token: None }
    }

    /// This node with the token it was read from.
    pub fn with_token(self, token: Token) -> (node: Self)
        ensures
            node == (VariadicTypePack { token: Some(token), ..self }),
    {
        let mut node = self;
        node.token = Some(token);
        node
    }

    /// How deep the tree under this node goes.
    pub open spec fn depth(self) -> nat
        decreases self,
    {
        1 + self.inner_type.depth()
    }

    /// This node with every comment taken out of its own tokens.
    pub open spec fn without_comments(self) -> Self {
        VariadicTypePack {
            token: optional_token_without_comments(self.token),
            ..self
        }
    }

    /// Takes the comments out of the tokens of this node. What the node means stays as
    /// it is.
    pub fn clear_comments(&mut self)
        ensures
            *final(self) == old(self).without_comments(),
    {
        clear_optional_token_comments(&mut self.token);
    }

    /// Clearing comments a second time changes nothing.
    pub proof fn without_comments_is_idempotent(self)
        ensures
            self.without_comments().without_comments() == self.without_comments(),
    {
        optional_token_without_comments_is_idempotent(self.token);
    }

    /// Clearing comments leaves the depth as it is.
    pub proof fn without_comments_keeps_depth(self)
        ensures
            self.without_comments().depth() == self.depth(),
    {
    }

    /// Whether no token of this node, nor of anything under it, holds a comment.
    pub open spec fn is_comment_free(self) -> bool
        decreases self,
    {
        &&& self.inner_type.is_comment_free()
        &&& optional_token_is_comment_free(self.token)
    }

    /// This node with the comments taken out of every token of it and of everything
    /// under it.
    pub open spec fn stripped(self) -> Self
        decreases self,
    {
        VariadicTypePack {
            inner_type: Box::new(self.inner_type.stripped()),
            token: optional_token_without_comments(self.token),
        }
    }

    /// Taking the comments out of everything makes no difference between a node and the
    /// node cleared.
    pub proof fn stripped_absorbs_clearing(self)
        ensures
            self.without_comments().stripped() == self.stripped(),
    {
        self.without_comments_is_idempotent();
    }

    /// Once the comments are taken out of everything, no token holds a comment.
    pub proof fn stripped_is_comment_free(self)
        ensures
            self.stripped().is_comment_free(),
        decreases self.depth(), 0nat,
    {
        self.inner_type.stripped_is_comment_free();
        optional_token_without_comments_is_idempotent(self.token);
        cleared_optional_token_is_comment_free(
            optional_token_without_comments(self.token),
        );
    }

    /// Taking the comments out of everything a second time changes nothing.
    pub proof fn stripped_is_idempotent(self)
        ensures
            self.stripped().stripped() == self.stripped(),
        decreases self.depth(), 0nat,
    {
        self.inner_type.stripped_is_idempotent();
        optional_token_without_comments_is_idempotent(self.token);
    }
}

/// A type pack that stands for a generic parameter.
#[derive(Debug, PartialEq, Eq)]
pub struct GenericTypePack {
    pub name: Identifier,
    pub token: Option<Token>,
}

impl GenericTypePack {
    /// This node with the token it was read from.
    pub fn with_token(self, token: Token) -> (node: Self)
        ensures
            node == (GenericTypePack { token: Some(token), ..self }),
    {
        let mut node = self;
        node.token = Some(token);
        node
    }

    /// This node with every comment taken out of its own tokens and of the parts that
    /// are cleared with it.
    pub open spec fn without_comments(self) -> Self {
        GenericTypePack {
            name: self.name.without_comments(),
            token: optional_token_without_comments(self.token),
        }
    }

    /// Takes the comments out of the tokens of this node and of the parts that are
    /// cleared with it. What the node means stays as it is.
    pub fn clear_comments(&mut self)
        ensures
            *final(self) == old(self).without_comments(),
    {
        self.name.clear_comments();
        clear_optional_token_comments(&mut self.token);
    }

    /// Clearing comments a second time changes nothing.
    pub proof fn without_comments_is_idempotent(self)
        ensures
            self.without_comments().without_comments() == self.without_comments(),
    {
        self.name.without_comments_is_idempotent();
        optional_token_without_comments_is_idempotent(self.token);
    }

    /// Whether no token of this node, nor of anything under it, holds a comment.
    pub open spec fn is_comment_free(self) -> bool
    {
        &&& self.name.is_comment_free()
        &&& optional_token_is_comment_free(self.token)
    }

    /// A node that clearing leaves as it is holds no comment.
    pub proof fn cleared_is_comment_free(self)
        requires
            self.without_comments() == self,
        ensures
            self.is_comment_free(),
    {
        self.name.cleared_is_comment_free();
        cleared_optional_token_is_comment_free(self.token);
    }

    /// This node with the comments taken out of every token of it and of everything
    /// under it.
    pub open spec fn stripped(self) -> Self
    {
        self.without_comments()
    }

    /// Once the comments are taken out of everything, no token holds a comment.
    pub proof fn stripped_is_comment_free(self)
        ensures
            self.stripped().is_comment_free(),
    {
        self.without_comments_is_idempotent();
        self.without_comments().cleared_is_comment_free();
    }

    /// Taking the comments out of everything a second time changes nothing.
    pub proof fn stripped_is_idempotent(self)
        ensures
            self.stripped().stripped() == self.stripped(),
    {
        self.without_comments_is_idempotent();
    }
}

/// Whether none of a list of generic type packs holds a comment.
pub open spec fn generic_type_packs_are_comment_free(list: NodeList<GenericTypePack>) -> bool
    decreases list,
{
    match list {
        NodeList::Empty => true,
        NodeList::Cell(cell) => {
            cell.head.is_comment_free() && generic_type_packs_are_comment_free(cell.tail)
        },
    }
}

/// A list of generic type packs with the comments taken out of every token of them.
pub open spec fn generic_type_packs_stripped(
    list: NodeList<GenericTypePack>,
) -> NodeList<GenericTypePack>
    decreases list,
{
    match list {
        NodeList::Empty => NodeList::Empty,
        NodeList::Cell(cell) => {
            NodeList::cons(cell.head.stripped(), generic_type_packs_stripped(cell.tail))
        },
    }
}

/// Once the comments are taken out of a list of generic type packs, no token of them
/// holds a comment.
pub proof fn generic_type_packs_stripped_are_comment_free(list: NodeList<GenericTypePack>)
    ensures
        generic_type_packs_are_comment_free(generic_type_packs_stripped(list)),
    decreases list,
{
    match list {
        NodeList::Empty => {},
        NodeList::Cell(cell) => {
            cell.head.stripped_is_comment_free();
            generic_type_packs_stripped_are_comment_free(cell.tail);
        },
    }
}

/// Taking the comments out of a list of generic type packs a second time changes
/// nothing.
pub proof fn generic_type_packs_stripped_is_idempotent(list: NodeList<GenericTypePack>)
    ensures
        generic_type_packs_stripped(generic_type_packs_stripped(list))
            == generic_type_packs_stripped(list),
    decreases list,
{
    match list {
        NodeList::Empty => {},
        NodeList::Cell(cell) => {
            cell.head.stripped_is_idempotent();
            generic_type_packs_stripped_is_idempotent(cell.tail);
        },
    }
}

/// Taking the comments out of everything makes no difference between a list of generic
/// type packs and the list cleared.
pub proof fn generic_type_packs_stripped_absorbs_clearing(list: NodeList<GenericTypePack>)
    ensures
        generic_type_packs_stripped(generic_type_packs_without_comments(list))
            == generic_type_packs_stripped(list),
    decreases list,
{
    match list {
        NodeList::Empty => {},
        NodeList::Cell(cell) => {
            cell.head.without_comments_is_idempotent();
            generic_type_packs_stripped_absorbs_clearing(cell.tail);
        },
    }
}

/// A list of generic type packs that clearing leaves as it is holds no comment.
pub proof fn cleared_generic_type_packs_are_comment_free(list: NodeList<GenericTypePack>)
    requires
        generic_type_packs_without_comments(list) == list,
    ensures
        generic_type_packs_are_comment_free(list),
    decreases list,
{
    match list {
        NodeList::Empty => {},
        NodeList::Cell(cell) => {
            cell.head.cleared_is_comment_free();
            cleared_generic_type_packs_are_comment_free(cell.tail);
        },
    }
}

/// A list of generic type packs, each with its comments taken out.
pub open spec fn generic_type_packs_without_comments(
    list: NodeList<GenericTypePack>,
) -> NodeList<GenericTypePack>
    decreases list,
{
    match list {
        NodeList::Empty => NodeList::Empty,
        NodeList::Cell(cell) => NodeList::cons(
            cell.head.without_comments(),
            generic_type_packs_without_comments(cell.tail),
        ),
    }
}

/// Takes the comments out of each of a list of generic type packs.
pub fn clear_generic_type_packs_comments(list: &mut NodeList<GenericTypePack>)
    ensures
        *final(list) == generic_type_packs_without_comments(*old(list)),
    decreases *old(list),
{
    match list {
        NodeList::Empty => {},
        NodeList::Cell(cell) => {
            cell.head.clear_comments();
            clear_generic_type_packs_comments(&mut cell.tail);
        },
    }
}

/// Clearing a list of generic type packs a second time changes nothing.
pub proof fn generic_type_packs_without_comments_is_idempotent(list: NodeList<GenericTypePack>)
    ensures
        generic_type_packs_without_comments(generic_type_packs_without_comments(list))
            == generic_type_packs_without_comments(list),
    decreases list,
{
    match list {
        NodeList::Empty => {},
        NodeList::Cell(cell) => {
            cell.head.without_comments_is_idempotent();
            generic_type_packs_without_comments_is_idempotent(cell.tail);
        },
    }
}

/// The variadic tail of a list of types.
#[derive(Debug, PartialEq, Eq)]
pub enum VariadicArgumentType {
    GenericTypePack(GenericTypePack),
    VariadicTypePack(VariadicTypePack),
}

impl VariadicArgumentType {
    /// How deep the tree under this node goes.
    pub open spec fn depth(self) -> nat
        decreases self,
    {
        match self {
            VariadicArgumentType::VariadicTypePack(inner) => 1 + inner.depth(),
            _ => 0,
        }
    }

    /// Whether no token of this node, nor of anything under it, holds a comment.
    pub open spec fn is_comment_free(self) -> bool
        decreases self,
    {
        match self {
            VariadicArgumentType::GenericTypePack(inner) => inner.is_comment_free(),
            VariadicArgumentType::VariadicTypePack(inner) => inner.is_comment_free(),
        }
    }

    /// This node with the comments taken out of every token of it and of everything
    /// under it.
    pub open spec fn stripped(self) -> Self
        decreases self,
    {
        match self {
            VariadicArgumentType::GenericTypePack(inner) => {
                VariadicArgumentType::GenericTypePack(inner.stripped())
            },
            VariadicArgumentType::VariadicTypePack(inner) => {
                VariadicArgumentType::VariadicTypePack(inner.stripped())
            },
        }
    }

    /// Once the comments are taken out of everything, no token holds a comment.
    pub proof fn stripped_is_comment_free(self)
        ensures
            self.stripped().is_comment_free(),
        decreases self.depth(), 0nat,
    {
        match self {
            VariadicArgumentType::GenericTypePack(inner) => inner.stripped_is_comment_free(),
            VariadicArgumentType::VariadicTypePack(inner) => inner.stripped_is_comment_free(),
        }
    }

    /// Taking the comments out of everything a second time changes nothing.
    pub proof fn stripped_is_idempotent(self)
        ensures
            self.stripped().stripped() == self.stripped(),
        decreases self.depth(), 0nat,
    {
        match self {
            VariadicArgumentType::GenericTypePack(inner) => inner.stripped_is_idempotent(),
            VariadicArgumentType::VariadicTypePack(inner) => inner.stripped_is_idempotent(),
        }
    }
}

impl GenericTypePack {
    /// The generic type pack of a name, without token.
    pub fn new(name: &str) -> (pack: Self)
        ensures
            pack.name.name@ == name@,
            pack.name.token is None,
            pack.token is None,
    {
        GenericTypePack { name: Identifier::new(name), token: None }
    }
}

} // verus!
