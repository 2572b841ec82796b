use crate::nodes::identifier::Identifier;
use crate::nodes::list::{NodeList, deeper};
use crate::nodes::token::{
    Token, clear_tokens_comments, cleared_tokens_are_comment_free, tokens_are_comment_free,
    tokens_without_comments, tokens_without_comments_is_idempotent,
};
use crate::nodes::type_pack::{GenericTypePack, TypePack, VariadicTypePack};
use crate::nodes::types::Type;
use vstd::prelude::*;

verus! {

/// A named type, with the parameters it is applied to.
#[derive(Debug, PartialEq, Eq)]
pub struct TypeName {
    pub name: Identifier,
    pub type_parameters: Option<TypeParameters>,
}

impl TypeName {
    /// How deep the tree under this node goes.
    pub open spec fn depth(self) -> nat
        decreases self,
    {
        1 + match self.type_parameters {
            Some(inner) => inner.depth(),
            None => 0,
        }
    }

    /// This node with every comment taken out of its own tokens and of the parts that
    /// are cleared with it.
    pub open spec fn without_comments(self) -> Self {
        TypeName {
            name: self.name.without_comments(),
            type_parameters: match self.type_parameters {
                Some(inner) => Some(inner.without_comments()),
                None => None,
            },
        }
    }

    /// Takes the comments out of the tokens of this node and of the parts that are
    /// cleared with it. What the node means stays as it is.
    pub fn clear_comments(&mut self)
        ensures
            *final(self) == old(self).without_comments(),
    {
        self.name.clear_comments();
        match &mut self.type_parameters {
            Some(inner) => inner.clear_comments(),
            None => {},
        }
    }

    /// Clearing comments a second time changes nothing.
    pub proof fn without_comments_is_idempotent(self)
        ensures
            self.without_comments().without_comments() == self.without_comments(),
    {
        self.name.without_comments_is_idempotent();
        match self.type_parameters {
            Some(inner) => inner.without_comments_is_idempotent(),
            None => {},
        }
    }

    /// Clearing comments leaves the depth as it is.
    pub proof fn without_comments_keeps_depth(self)
        ensures
            self.without_comments().depth() == self.depth(),
    {
        match self.type_parameters {
            Some(inner) => inner.without_comments_keeps_depth(),
            None => {},
        }
    }

    /// Whether no token of this node, nor of anything under it, holds a comment.
    pub open spec fn is_comment_free(self) -> bool
        decreases self,
    {
        &&& self.name.is_comment_free()
        &&& match self.type_parameters {
            Some(inner) => inner.is_comment_free(),
            None => true,
        }
    }

    /// This node with the comments taken out of every token of it and of everything
    /// under it.
    pub open spec fn stripped(self) -> Self
        decreases self,
    {
        TypeName {
            name: self.name.stripped(),
            type_parameters: match self.type_parameters {
                Some(inner) => Some(inner.stripped()),
                None => None,
            },
        }
    }

    /// Taking the comments out of everything makes no difference between a node and the
    /// node cleared.
    pub proof fn stripped_absorbs_clearing(self)
        ensures
            self.without_comments().stripped() == self.stripped(),
    {
        self.without_comments_is_idempotent();
        self.name.without_comments_is_idempotent();
        match self.type_parameters {
            Some(inner) => inner.stripped_absorbs_clearing(),
            None => {},
        }
    }

    /// Once the comments are taken out of everything, no token holds a comment.
    pub proof fn stripped_is_comment_free(self)
        ensures
            self.stripped().is_comment_free(),
        decreases self.depth(), 0nat,
    {
        self.name.stripped_is_comment_free();
        match self.type_parameters {
            Some(inner) => inner.stripped_is_comment_free(),
            None => {},
        }
    }

    /// Taking the comments out of everything a second time changes nothing.
    pub proof fn stripped_is_idempotent(self)
        ensures
            self.stripped().stripped() == self.stripped(),
        decreases self.depth(), 0nat,
    {
        self.name.stripped_is_idempotent();
        match self.type_parameters {
            Some(inner) => inner.stripped_is_idempotent(),
            None => {},
        }
    }
}

/// The parameters a named type is applied to.
#[derive(Debug, PartialEq, Eq)]
pub struct TypeParameters {
    pub parameters: NodeList<TypeParameter>,
    pub tokens: Option<TypeParametersTokens>,
}

impl TypeParameters {
    /// A node built from its parts, without tokens.
    pub fn new(parameters: Vec<TypeParameter>) -> (node: Self)
        ensures
            node.parameters@ == parameters@,
            node.tokens is None,
    {
        TypeParameters { parameters: NodeList::from_vec(parameters), tokens: None }
    }

    /// This node with the tokens it was read from.
    pub fn with_tokens(self, tokens: TypeParametersTokens) -> (node: Self)
        ensures
            node == (TypeParameters { tokens: Some(tokens), ..self }),
    {
        let mut node = self;
        node.tokens = Some(tokens);
        node
    }

    /// How deep the tree under this node goes.
    pub open spec fn depth(self) -> nat
        decreases self,
    {
        1 + type_parameters_depth(self.parameters)
    }

    /// This node with every comment taken out of its own tokens.
    pub open spec fn without_comments(self) -> Self {
        TypeParameters {
            tokens: match self.tokens {
                Some(tokens) => Some(tokens.without_comments()),
                None => None,
            },
            ..self
        }
    }

    /// Takes the comments out of the tokens of this node. What the node means stays as
    /// it is.
    pub fn clear_comments(&mut self)
        ensures
            *final(self) == old(self).without_comments(),
    {
        match &mut self.tokens {
            Some(tokens) => tokens.clear_comments(),
            None => {},
        }
    }

    /// Clearing comments a second time changes nothing.
    pub proof fn without_comments_is_idempotent(self)
        ensures
            self.without_comments().without_comments() == self.without_comments(),
    {
        match self.tokens {
            Some(tokens) => tokens.without_comments_is_idempotent(),
            None => {},
        }
    }

    /// Clearing comments leaves the depth as it is.
    pub proof fn without_comments_keeps_depth(self)
        ensures
            self.without_comments().depth() == self.depth(),
    {
    }

    /// Whether no token of this node, nor of anything under it, holds a comment.
    pub open spec fn is_comment_free(self) -> bool
        decreases self,
    {
        &&& type_parameters_are_comment_free(self.parameters)
        &&& match self.tokens {
            Some(tokens) => tokens.is_comment_free(),
            None => true,
        }
    }

    /// This node with the comments taken out of every token of it and of everything
    /// under it.
    pub open spec fn stripped(self) -> Self
        decreases self,
    {
        TypeParameters {
            parameters: type_parameters_stripped(self.parameters),
            tokens: match self.tokens {
                Some(tokens) => Some(tokens.without_comments()),
                None => None,
            },
        }
    }

    /// Taking the comments out of everything makes no difference between a node and the
    /// node cleared.
    pub proof fn stripped_absorbs_clearing(self)
        ensures
            self.without_comments().stripped() == self.stripped(),
    {
        self.without_comments_is_idempotent();
    }

    /// Once the comments are taken out of everything, no token holds a comment.
    pub proof fn stripped_is_comment_free(self)
        ensures
            self.stripped().is_comment_free(),
        decreases self.depth(), 0nat,
    {
        type_parameters_stripped_are_comment_free(self.parameters);
        match self.tokens {
            Some(tokens) => {
                tokens.without_comments_is_idempotent();
                tokens.without_comments().cleared_is_comment_free();
            },
            None => {},
        }
    }

    /// Taking the comments out of everything a second time changes nothing.
    pub proof fn stripped_is_idempotent(self)
        ensures
            self.stripped().stripped() == self.stripped(),
        decreases self.depth(), 0nat,
    {
        type_parameters_stripped_is_idempotent(self.parameters);
        match self.tokens {
            Some(tokens) => tokens.without_comments_is_idempotent(),
            None => {},
        }
    }
}

/// The tokens of a list of type parameters.
#[derive(Debug, PartialEq, Eq)]
pub struct TypeParametersTokens {
    pub opening_list: Token,
    pub closing_list: Token,
    pub commas: NodeList<Token>,
}

impl TypeParametersTokens {
    /// These tokens with every comment taken out of their trivia.
    pub open spec fn without_comments(self) -> Self {
        TypeParametersTokens {
            opening_list: self.opening_list.without_comments(),
            closing_list: self.closing_list.without_comments(),
            commas: tokens_without_comments(self.commas),
        }
    }

    /// Takes the comments out of the trivia of every token.
    pub fn clear_comments(&mut self)
        ensures
            *final(self) == old(self).without_comments(),
    {
        self.opening_list.clear_comments();
        self.closing_list.clear_comments();
        clear_tokens_comments(&mut self.commas);
    }

    /// Clearing comments a second time changes nothing.
    pub proof fn without_comments_is_idempotent(self)
        ensures
            self.without_comments().without_comments() == self.without_comments(),
    {
        self.opening_list.without_comments_is_idempotent();
        self.closing_list.without_comments_is_idempotent();
        tokens_without_comments_is_idempotent(self.commas);
    }

    /// Whether none of these tokens holds a comment.
    pub open spec fn is_comment_free(self) -> bool {
        &&& self.opening_list.is_comment_free()
        &&& self.closing_list.is_comment_free()
        &&& tokens_are_comment_free(self.commas)
    }

    /// Tokens that clearing leaves as they are hold no comment.
    pub proof fn cleared_is_comment_free(self)
        requires
            self.without_comments() == self,
        ensures
            self.is_comment_free(),
    {
        self.opening_list.cleared_is_comment_free();
        self.closing_list.cleared_is_comment_free();
        cleared_tokens_are_comment_free(self.commas);
    }
}

/// One parameter given to a named type.
#[derive(Debug, PartialEq, Eq)]
pub enum TypeParameter {
    Type(Type),
    TypePack(TypePack),
    VariadicTypePack(VariadicTypePack),
    GenericTypePack(GenericTypePack),
}

impl TypeParameter {
    /// How deep the tree under this node goes.
    pub open spec fn depth(self) -> nat
        decreases self,
    {
        match self {
            TypeParameter::Type(inner) => 1 + inner.depth(),
            TypeParameter::TypePack(inner) => 1 + inner.depth(),
            TypeParameter::VariadicTypePack(inner) => 1 + inner.depth(),
            _ => 0,
        }
    }

    /// Whether no token of this node, nor of anything under it, holds a comment.
    pub open spec fn is_comment_free(self) -> bool
        decreases self,
    {
        match self {
            TypeParameter::Type(inner) => inner.is_comment_free(),
            TypeParameter::TypePack(inner) => inner.is_comment_free(),
            TypeParameter::VariadicTypePack(inner) => inner.is_comment_free(),
            TypeParameter::GenericTypePack(inner) => inner.is_comment_free(),
        }
    }

    /// This node with the comments taken out of every token of it and of everything
    /// under it.
    pub open spec fn stripped(self) -> Self
        decreases self,
    {
        match self {
            TypeParameter::Type(inner) => TypeParameter::Type(inner.stripped()),
            TypeParameter::TypePack(inner) => TypeParameter::TypePack(inner.stripped()),
            TypeParameter::VariadicTypePack(inner) => {
                TypeParameter::VariadicTypePack(inner.stripped())
            },
            TypeParameter::GenericTypePack(inner) => {
                TypeParameter::GenericTypePack(inner.stripped())
            },
        }
    }

    /// Once the comments are taken out of everything, no token holds a comment.
    pub proof fn stripped_is_comment_free(self)
        ensures
            self.stripped().is_comment_free(),
        decreases self.depth(), 0nat,
    {
        match self {
            TypeParameter::Type(inner) => inner.stripped_is_comment_free(),
            TypeParameter::TypePack(inner) => inner.stripped_is_comment_free(),
            TypeParameter::VariadicTypePack(inner) => inner.stripped_is_comment_free(),
            TypeParameter::GenericTypePack(inner) => inner.stripped_is_comment_free(),
        }
    }

    /// Taking the comments out of everything a second time changes nothing.
    pub proof fn stripped_is_idempotent(self)
        ensures
            self.stripped().stripped() == self.stripped(),
        decreases self.depth(), 0nat,
    {
        match self {
            TypeParameter::Type(inner) => inner.stripped_is_idempotent(),
            TypeParameter::TypePack(inner) => inner.stripped_is_idempotent(),
            TypeParameter::VariadicTypePack(inner) => inner.stripped_is_idempotent(),
            TypeParameter::GenericTypePack(inner) => inner.stripped_is_idempotent(),
        }
    }
}

/// Whether none of a list of type parameters holds a comment.
pub open spec fn type_parameters_are_comment_free(list: NodeList<TypeParameter>) -> bool
    decreases list,
{
    match list {
        NodeList::Empty => true,
        NodeList::Cell(cell) => {
            cell.head.is_comment_free() && type_parameters_are_comment_free(cell.tail)
        },
    }
}

/// A list of type parameters with the comments taken out of every token of them.
pub open spec fn type_parameters_stripped(list: NodeList<TypeParameter>) -> NodeList<TypeParameter>
    decreases list,
{
    match list {
        NodeList::Empty => NodeList::Empty,
        NodeList::Cell(cell) => {
            NodeList::cons(cell.head.stripped(), type_parameters_stripped(cell.tail))
        },
    }
}

/// Once the comments are taken out of a list of type parameters, no token of them holds
/// a comment.
pub proof fn type_parameters_stripped_are_comment_free(list: NodeList<TypeParameter>)
    ensures
        type_parameters_are_comment_free(type_parameters_stripped(list)),
    decreases type_parameters_depth(list), 1 + list.count(),
{
    match list {
        NodeList::Empty => {},
        NodeList::Cell(cell) => {
            cell.head.stripped_is_comment_free();
            type_parameters_stripped_are_comment_free(cell.tail);
        },
    }
}

/// Taking the comments out of a list of type parameters a second time changes nothing.
pub proof fn type_parameters_stripped_is_idempotent(list: NodeList<TypeParameter>)
    ensures
        type_parameters_stripped(type_parameters_stripped(list)) == type_parameters_stripped(list),
    decreases type_parameters_depth(list), 1 + list.count(),
{
    match list {
        NodeList::Empty => {},
        NodeList::Cell(cell) => {
            cell.head.stripped_is_idempotent();
            type_parameters_stripped_is_idempotent(cell.tail);
        },
    }
}

/// The depth of the deepest of a list of type parameters.
pub open spec fn type_parameters_depth(list: NodeList<TypeParameter>) -> nat
    decreases list,
{
    match list {
        NodeList::Empty => 0,
        NodeList::Cell(cell) => deeper(cell.head.depth(), type_parameters_depth(cell.tail)),
    }
}

impl TypeName {
    /// The type of a name, applied to nothing.
    pub fn new(name: &str) -> (named: Self)
        ensures
            named.name.name@ == name@,
            named.name.token is None,
            named.type_parameters is None,
    {
        TypeName { name: Identifier::new(name), type_parameters: None }
    }
}

} // verus!
