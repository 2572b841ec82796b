use crate::nodes::function::GenericParametersTokens;
use crate::nodes::identifier::Identifier;
use crate::nodes::list::{NodeList, deeper};
use crate::nodes::token::{
    Token, clear_optional_token_comments, cleared_optional_token_is_comment_free,
    optional_token_is_comment_free, optional_token_without_comments,
    optional_token_without_comments_is_idempotent,
};
use crate::nodes::type_pack::{GenericTypePack, TypePack, VariadicTypePack};
use crate::nodes::types::Type;
use vstd::prelude::*;

verus! {

/// A declaration that gives a type a name.
#[derive(Debug, PartialEq, Eq)]
pub struct TypeDeclarationStatement {
    pub name: Identifier,
    pub declared_type: Type,
    pub exported: bool,
    pub generic_parameters: Option<GenericParametersWithDefaults>,
    pub tokens: Option<TypeDeclarationTokens>,
}

impl TypeDeclarationStatement {
    /// A node built from its parts, without tokens.
    pub fn new(
        name: Identifier,
        declared_type: Type,
        exported: bool,
        generic_parameters: Option<GenericParametersWithDefaults>,
    ) -> (node: Self)
        ensures
            node.name == name,
            node.declared_type == declared_type,
            node.exported == exported,
            node.generic_parameters == generic_parameters,
            node.tokens is None,
    {
        TypeDeclarationStatement { name, declared_type, exported, generic_parameters, tokens: None }
    }

    /// This node with the tokens it was read from.
    pub fn with_tokens(self, tokens: TypeDeclarationTokens) -> (node: Self)
        ensures
            node == (TypeDeclarationStatement { tokens: Some(tokens), ..self }),
    {
        let mut node = self;
        node.tokens = Some(tokens);
        node
    }

    /// How deep the tree under this node goes.
    pub open spec fn depth(self) -> nat
        decreases self,
    {
        1 + deeper(
            self.declared_type.depth(),
            match self.generic_parameters {
                Some(inner) => inner.depth(),
                None => 0,
            },
        )
    }

    /// This node with every comment taken out of its own tokens and of the parts that
    /// are cleared with it.
    pub open spec fn without_comments(self) -> Self {
        TypeDeclarationStatement {
            name: self.name.without_comments(),
            generic_parameters: match self.generic_parameters {
                Some(inner) => Some(inner.without_comments()),
                None => None,
            },
            tokens: match self.tokens {
                Some(tokens) => Some(tokens.without_comments()),
                None => None,
            },
            ..self
        }
    }

    /// Takes the comments out of the tokens of this node and of the parts that are
    /// cleared with it. What the node means stays as it is.
    pub fn clear_comments(&mut self)
        ensures
            *final(self) == old(self).without_comments(),
    {
        self.name.clear_comments();
        match &mut self.generic_parameters {
            Some(inner) => inner.clear_comments(),
            None => {},
        }
        match &mut self.tokens {
            Some(tokens) => tokens.clear_comments(),
            None => {},
        }
    }

    /// Clearing comments a second time changes nothing.
    pub proof fn without_comments_is_idempotent(self)
        ensures
            self.without_comments().without_comments() == self.without_comments(),
    {
        self.name.without_comments_is_idempotent();
        match self.generic_parameters {
            Some(inner) => inner.without_comments_is_idempotent(),
            None => {},
        }
        match self.tokens {
            Some(tokens) => tokens.without_comments_is_idempotent(),
            None => {},
        }
    }

    /// Clearing comments leaves the depth as it is.
    pub proof fn without_comments_keeps_depth(self)
        ensures
            self.without_comments().depth() == self.depth(),
    {
        match self.generic_parameters {
            Some(inner) => inner.without_comments_keeps_depth(),
            None => {},
        }
    }

    /// Whether no token of this node, nor of anything under it, holds a comment.
    pub open spec fn is_comment_free(self) -> bool
        decreases self,
    {
        &&& self.name.is_comment_free()
        &&& self.declared_type.is_comment_free()
        &&& match self.generic_parameters {
            Some(inner) => inner.is_comment_free(),
            None => true,
        }
        &&& match self.tokens {
            Some(tokens) => tokens.is_comment_free(),
            None => true,
        }
    }

    /// This node with the comments taken out of every token of it and of everything
    /// under it.
    pub open spec fn stripped(self) -> Self
        decreases self,
    {
        TypeDeclarationStatement {
            name: self.name.stripped(),
            declared_type: self.declared_type.stripped(),
            generic_parameters: match self.generic_parameters {
                Some(inner) => Some(inner.stripped()),
                None => None,
            },
            tokens: match self.tokens {
                Some(tokens) => Some(tokens.without_comments()),
                None => None,
            },
            ..self
        }
    }

    /// Taking the comments out of everything makes no difference between a node and the
    /// node cleared.
    pub proof fn stripped_absorbs_clearing(self)
        ensures
            self.without_comments().stripped() == self.stripped(),
    {
        self.without_comments_is_idempotent();
        self.name.without_comments_is_idempotent();
        match self.generic_parameters {
            Some(inner) => inner.stripped_absorbs_clearing(),
            None => {},
        }
    }

    /// Once the comments are taken out of everything, no token holds a comment.
    pub proof fn stripped_is_comment_free(self)
        ensures
            self.stripped().is_comment_free(),
        decreases self.depth(), 0nat,
    {
        self.name.stripped_is_comment_free();
        self.declared_type.stripped_is_comment_free();
        match self.generic_parameters {
            Some(inner) => inner.stripped_is_comment_free(),
            None => {},
        }
        match self.tokens {
            Some(tokens) => {
                tokens.without_comments_is_idempotent();
                tokens.without_comments().cleared_is_comment_free();
            },
            None => {},
        }
    }

    /// Taking the comments out of everything a second time changes nothing.
    pub proof fn stripped_is_idempotent(self)
        ensures
            self.stripped().stripped() == self.stripped(),
        decreases self.depth(), 0nat,
    {
        self.name.stripped_is_idempotent();
        self.declared_type.stripped_is_idempotent();
        match self.generic_parameters {
            Some(inner) => inner.stripped_is_idempotent(),
            None => {},
        }
        match self.tokens {
            Some(tokens) => tokens.without_comments_is_idempotent(),
            None => {},
        }
    }
}

/// The tokens of a type declaration.
#[derive(Debug, PartialEq, Eq)]
pub struct TypeDeclarationTokens {
    pub type_token: Token,
    pub equal: Token,
    pub export: Option<Token>,
}

impl TypeDeclarationTokens {
    /// These tokens with every comment taken out of their trivia.
    pub open spec fn without_comments(self) -> Self {
        TypeDeclarationTokens {
            type_token: self.type_token.without_comments(),
            equal: self.equal.without_comments(),
            export: optional_token_without_comments(self.export),
        }
    }

    /// Takes the comments out of the trivia of every token.
    pub fn clear_comments(&mut self)
        ensures
            *final(self) == old(self).without_comments(),
    {
        self.type_token.clear_comments();
        self.equal.clear_comments();
        clear_optional_token_comments(&mut self.export);
    }

    /// Clearing comments a second time changes nothing.
    pub proof fn without_comments_is_idempotent(self)
        ensures
            self.without_comments().without_comments() == self.without_comments(),
    {
        self.type_token.without_comments_is_idempotent();
        self.equal.without_comments_is_idempotent();
        optional_token_without_comments_is_idempotent(self.export);
    }

    /// Whether none of these tokens holds a comment.
    pub open spec fn is_comment_free(self) -> bool {
        &&& self.type_token.is_comment_free()
        &&& self.equal.is_comment_free()
        &&& optional_token_is_comment_free(self.export)
    }

    /// Tokens that clearing leaves as they are hold no comment.
    pub proof fn cleared_is_comment_free(self)
        requires
            self.without_comments() == self,
        ensures
            self.is_comment_free(),
    {
        self.type_token.cleared_is_comment_free();
        self.equal.cleared_is_comment_free();
        cleared_optional_token_is_comment_free(self.export);
    }
}

/// The generic parameters of a type declaration.
#[derive(Debug, PartialEq, Eq)]
pub struct GenericParametersWithDefaults {
    pub parameters: NodeList<GenericParameter>,
    pub tokens: Option<GenericParametersTokens>,
}

impl GenericParametersWithDefaults {
    /// A node built from its parts, without tokens.
    pub fn new(parameters: Vec<GenericParameter>) -> (node: Self)
        ensures
            node.parameters@ == parameters@,
            node.tokens is None,
    {
        GenericParametersWithDefaults { parameters: NodeList::from_vec(parameters), tokens: None }
    }

    /// This node with the tokens it was read from.
    pub fn with_tokens(self, tokens: GenericParametersTokens) -> (node: Self)
        ensures
            node == (GenericParametersWithDefaults { tokens: Some(tokens), ..self }),
    {
        let mut node = self;
        node.tokens = Some(tokens);
        node
    }

    /// How deep the tree under this node goes.
    pub open spec fn depth(self) -> nat
        decreases self,
    {
        1 + generic_parameters_depth(self.parameters)
    }

    /// This node with every comment taken out of its own tokens and of the parts that
    /// are cleared with it.
    pub open spec fn without_comments(self) -> Self {
        GenericParametersWithDefaults {
            parameters: generic_parameters_without_comments(self.parameters),
            tokens: match self.tokens {
                Some(tokens) => Some(tokens.without_comments()),
                None => None,
            },
        }
    }

    /// Takes the comments out of the tokens of this node and of the parts that are
    /// cleared with it. What the node means stays as it is.
    pub fn clear_comments(&mut self)
        ensures
            *final(self) == old(self).without_comments(),
    {
        clear_generic_parameters_comments(&mut self.parameters);
        match &mut self.tokens {
            Some(tokens) => tokens.clear_comments(),
            None => {},
        }
    }

    /// Clearing comments a second time changes nothing.
    pub proof fn without_comments_is_idempotent(self)
        ensures
            self.without_comments().without_comments() == self.without_comments(),
    {
        generic_parameters_without_comments_is_idempotent(self.parameters);
        match self.tokens {
            Some(tokens) => tokens.without_comments_is_idempotent(),
            None => {},
        }
    }

    /// Clearing comments leaves the depth as it is.
    pub proof fn without_comments_keeps_depth(self)
        ensures
            self.without_comments().depth() == self.depth(),
    {
        generic_parameters_without_comments_keeps_depth(self.parameters);
    }

    /// Whether no token of this node, nor of anything under it, holds a comment.
    pub open spec fn is_comment_free(self) -> bool
        decreases self,
    {
        &&& generic_parameters_are_comment_free(self.parameters)
        &&& match self.tokens {
            Some(tokens) => tokens.is_comment_free(),
            None => true,
        }
    }

    /// This node with the comments taken out of every token of it and of everything
    /// under it.
    pub open spec fn stripped(self) -> Self
        decreases self,
    {
        GenericParametersWithDefaults {
            parameters: generic_parameters_stripped(self.parameters),
            tokens: match self.tokens {
                Some(tokens) => Some(tokens.without_comments()),
                None => None,
            },
        }
    }

    /// Taking the comments out of everything makes no difference between a node and the
    /// node cleared.
    pub proof fn stripped_absorbs_clearing(self)
        ensures
            self.without_comments().stripped() == self.stripped(),
    {
        self.without_comments_is_idempotent();
        generic_parameters_stripped_absorbs_clearing(self.parameters);
    }

    /// Once the comments are taken out of everything, no token holds a comment.
    pub proof fn stripped_is_comment_free(self)
        ensures
            self.stripped().is_comment_free(),
        decreases self.depth(), 0nat,
    {
        generic_parameters_stripped_are_comment_free(self.parameters);
        match self.tokens {
            Some(tokens) => {
                tokens.without_comments_is_idempotent();
                tokens.without_comments().cleared_is_comment_free();
            },
            None => {},
        }
    }

    /// Taking the comments out of everything a second time changes nothing.
    pub proof fn stripped_is_idempotent(self)
        ensures
            self.stripped().stripped() == self.stripped(),
        decreases self.depth(), 0nat,
    {
        generic_parameters_stripped_is_idempotent(self.parameters);
        match self.tokens {
            Some(tokens) => tokens.without_comments_is_idempotent(),
            None => {},
        }
    }
}

/// One generic parameter of a type declaration.
#[derive(Debug, PartialEq, Eq)]
pub enum GenericParameter {
    TypeVariable(Identifier),
    TypeVariableWithDefault(TypeVariableWithDefault),
    GenericTypePack(GenericTypePack),
    GenericTypePackWithDefault(GenericTypePackWithDefault),
}

impl GenericParameter {
    /// How deep the tree under this node goes.
    pub open spec fn depth(self) -> nat
        decreases self,
    {
        match self {
            GenericParameter::TypeVariableWithDefault(inner) => 1 + inner.depth(),
            GenericParameter::GenericTypePackWithDefault(inner) => 1 + inner.depth(),
            _ => 0,
        }
    }

    /// This node with every comment taken out of the tokens it holds itself.
    pub open spec fn without_comments(self) -> Self {
        match self {
            GenericParameter::TypeVariable(inner) => {
                GenericParameter::TypeVariable(inner.without_comments())
            },
            GenericParameter::TypeVariableWithDefault(inner) => {
                GenericParameter::TypeVariableWithDefault(inner.without_comments())
            },
            GenericParameter::GenericTypePackWithDefault(inner) => {
                GenericParameter::GenericTypePackWithDefault(inner.without_comments())
            },
            _ => self,
        }
    }

    /// Takes the comments out of the tokens this node holds itself. What the node means
    /// stays as it is.
    pub fn clear_comments(&mut self)
        ensures
            *final(self) == old(self).without_comments(),
    {
        match self {
            GenericParameter::TypeVariable(inner) => inner.clear_comments(),
            GenericParameter::TypeVariableWithDefault(inner) => inner.clear_comments(),
            GenericParameter::GenericTypePackWithDefault(inner) => inner.clear_comments(),
            _ => {},
        }
    }

    /// Clearing comments a second time changes nothing.
    pub proof fn without_comments_is_idempotent(self)
        ensures
            self.without_comments().without_comments() == self.without_comments(),
    {
        match self {
            GenericParameter::TypeVariable(inner) => inner.without_comments_is_idempotent(),
            GenericParameter::TypeVariableWithDefault(inner) => {
                inner.without_comments_is_idempotent()
            },
            GenericParameter::GenericTypePackWithDefault(inner) => {
                inner.without_comments_is_idempotent()
            },
            _ => {},
        }
    }

    /// Clearing comments leaves the depth as it is.
    pub proof fn without_comments_keeps_depth(self)
        ensures
            self.without_comments().depth() == self.depth(),
    {
        match self {
            GenericParameter::TypeVariableWithDefault(inner) => {
                inner.without_comments_keeps_depth()
            },
            GenericParameter::GenericTypePackWithDefault(inner) => {
                inner.without_comments_keeps_depth()
            },
            _ => {},
        }
    }

    /// Whether no token of this node, nor of anything under it, holds a comment.
    pub open spec fn is_comment_free(self) -> bool
        decreases self,
    {
        match self {
            GenericParameter::TypeVariable(inner) => inner.is_comment_free(),
            GenericParameter::TypeVariableWithDefault(inner) => inner.is_comment_free(),
            GenericParameter::GenericTypePack(inner) => inner.is_comment_free(),
            GenericParameter::GenericTypePackWithDefault(inner) => inner.is_comment_free(),
        }
    }

    /// This node with the comments taken out of every token of it and of everything
    /// under it.
    pub open spec fn stripped(self) -> Self
        decreases self,
    {
        match self {
            GenericParameter::TypeVariable(inner) => {
                GenericParameter::TypeVariable(inner.stripped())
            },
            GenericParameter::TypeVariableWithDefault(inner) => {
                GenericParameter::TypeVariableWithDefault(inner.stripped())
            },
            GenericParameter::GenericTypePack(inner) => {
                GenericParameter::GenericTypePack(inner.stripped())
            },
            GenericParameter::GenericTypePackWithDefault(inner) => {
                GenericParameter::GenericTypePackWithDefault(inner.stripped())
            },
        }
    }

    /// Taking the comments out of everything makes no difference between a node and the
    /// node cleared.
    pub proof fn stripped_absorbs_clearing(self)
        ensures
            self.without_comments().stripped() == self.stripped(),
    {
        self.without_comments_is_idempotent();
        match self {
            GenericParameter::TypeVariable(inner) => inner.without_comments_is_idempotent(),
            GenericParameter::TypeVariableWithDefault(inner) => inner.stripped_absorbs_clearing(),
            GenericParameter::GenericTypePackWithDefault(inner) => {
                inner.stripped_absorbs_clearing()
            },
            _ => {},
        }
    }

    /// Once the comments are taken out of everything, no token holds a comment.
    pub proof fn stripped_is_comment_free(self)
        ensures
            self.stripped().is_comment_free(),
        decreases self.depth(), 0nat,
    {
        match self {
            GenericParameter::TypeVariable(inner) => inner.stripped_is_comment_free(),
            GenericParameter::TypeVariableWithDefault(inner) => inner.stripped_is_comment_free(),
            GenericParameter::GenericTypePack(inner) => inner.stripped_is_comment_free(),
            GenericParameter::GenericTypePackWithDefault(inner) => inner.stripped_is_comment_free(),
        }
    }

    /// Taking the comments out of everything a second time changes nothing.
    pub proof fn stripped_is_idempotent(self)
        ensures
            self.stripped().stripped() == self.stripped(),
        decreases self.depth(), 0nat,
    {
        match self {
            GenericParameter::TypeVariable(inner) => inner.stripped_is_idempotent(),
            GenericParameter::TypeVariableWithDefault(inner) => inner.stripped_is_idempotent(),
            GenericParameter::GenericTypePack(inner) => inner.stripped_is_idempotent(),
            GenericParameter::GenericTypePackWithDefault(inner) => inner.stripped_is_idempotent(),
        }
    }
}

/// Whether none of a list of generic parameters holds a comment.
pub open spec fn generic_parameters_are_comment_free(list: NodeList<GenericParameter>) -> bool
    decreases list,
{
    match list {
        NodeList::Empty => true,
        NodeList::Cell(cell) => {
            cell.head.is_comment_free() && generic_parameters_are_comment_free(cell.tail)
        },
    }
}

/// A list of generic parameters with the comments taken out of every token of them.
pub open spec fn generic_parameters_stripped(
    list: NodeList<GenericParameter>,
) -> NodeList<GenericParameter>
    decreases list,
{
    match list {
        NodeList::Empty => NodeList::Empty,
        NodeList::Cell(cell) => {
            NodeList::cons(cell.head.stripped(), generic_parameters_stripped(cell.tail))
        },
    }
}

/// Once the comments are taken out of a list of generic parameters, no token of them
/// holds a comment.
pub proof fn generic_parameters_stripped_are_comment_free(list: NodeList<GenericParameter>)
    ensures
        generic_parameters_are_comment_free(generic_parameters_stripped(list)),
    decreases generic_parameters_depth(list), 1 + list.count(),
{
    match list {
        NodeList::Empty => {},
        NodeList::Cell(cell) => {
            cell.head.stripped_is_comment_free();
            generic_parameters_stripped_are_comment_free(cell.tail);
        },
    }
}

/// Taking the comments out of a list of generic parameters a second time changes
/// nothing.
pub proof fn generic_parameters_stripped_is_idempotent(list: NodeList<GenericParameter>)
    ensures
        generic_parameters_stripped(generic_parameters_stripped(list))
            == generic_parameters_stripped(list),
    decreases generic_parameters_depth(list), 1 + list.count(),
{
    match list {
        NodeList::Empty => {},
        NodeList::Cell(cell) => {
            cell.head.stripped_is_idempotent();
            generic_parameters_stripped_is_idempotent(cell.tail);
        },
    }
}

/// Taking the comments out of everything makes no difference between a list of generic
/// parameters and the list cleared.
pub proof fn generic_parameters_stripped_absorbs_clearing(list: NodeList<GenericParameter>)
    ensures
        generic_parameters_stripped(generic_parameters_without_comments(list))
            == generic_parameters_stripped(list),
    decreases list,
{
    match list {
        NodeList::Empty => {},
        NodeList::Cell(cell) => {
            cell.head.stripped_absorbs_clearing();
            generic_parameters_stripped_absorbs_clearing(cell.tail);
        },
    }
}

/// The depth of the deepest of a list of generic parameters.
pub open spec fn generic_parameters_depth(list: NodeList<GenericParameter>) -> nat
    decreases list,
{
    match list {
        NodeList::Empty => 0,
        NodeList::Cell(cell) => deeper(cell.head.depth(), generic_parameters_depth(cell.tail)),
    }
}

/// A list of generic parameters, each with its comments taken out.
pub open spec fn generic_parameters_without_comments(
    list: NodeList<GenericParameter>,
) -> NodeList<GenericParameter>
    decreases list,
{
    match list {
        NodeList::Empty => NodeList::Empty,
        NodeList::Cell(cell) => NodeList::cons(
            cell.head.without_comments(),
            generic_parameters_without_comments(cell.tail),
        ),
    }
}

/// Takes the comments out of each of a list of generic parameters.
pub fn clear_generic_parameters_comments(list: &mut NodeList<GenericParameter>)
    ensures
        *final(list) == generic_parameters_without_comments(*old(list)),
    decreases *old(list),
{
    match list {
        NodeList::Empty => {},
        NodeList::Cell(cell) => {
            cell.head.clear_comments();
            clear_generic_parameters_comments(&mut cell.tail);
        },
    }
}

/// Clearing a list of generic parameters a second time changes nothing.
pub proof fn generic_parameters_without_comments_is_idempotent(list: NodeList<GenericParameter>)
    ensures
        generic_parameters_without_comments(generic_parameters_without_comments(list))
            == generic_parameters_without_comments(list),
    decreases list,
{
    match list {
        NodeList::Empty => {},
        NodeList::Cell(cell) => {
            cell.head.without_comments_is_idempotent();
            generic_parameters_without_comments_is_idempotent(cell.tail);
        },
    }
}

/// Clearing a list of generic parameters leaves its depth as it is.
pub proof fn generic_parameters_without_comments_keeps_depth(list: NodeList<GenericParameter>)
    ensures
        generic_parameters_depth(generic_parameters_without_comments(list))
            == generic_parameters_depth(list),
    decreases list,
{
    match list {
        NodeList::Empty => {},
        NodeList::Cell(cell) => {
            cell.head.without_comments_keeps_depth();
            generic_parameters_without_comments_keeps_depth(cell.tail);
        },
    }
}

/// A type variable with the type it stands for when none is given.
#[derive(Debug, PartialEq, Eq)]
pub struct TypeVariableWithDefault {
    pub variable: Identifier,
    pub default_type: Type,
    pub token: Option<Token>,
}

impl TypeVariableWithDefault {
    /// A node built from its parts, without tokens.
    pub fn new(variable: Identifier, default_type: Type) -> (node: Self)
        ensures
            node.variable == variable,
            node.default_type == default_type,
            node.token is None,
    {
        TypeVariableWithDefault { variable, default_type, token: None }
    }

    /// This node with the token it was read from.
    pub fn with_token(self, token: Token) -> (node: Self)
        ensures
            node == (TypeVariableWithDefault { token: Some(token), ..self }),
    {
        let mut node = self;
        node.token = Some(token);
        node
    }

    /// How deep the tree under this node goes.
    pub open spec fn depth(self) -> nat
        decreases self,
    {
        1 + self.default_type.depth()
    }

    /// This node with every comment taken out of its own tokens and of the parts that
    /// are cleared with it.
    pub open spec fn without_comments(self) -> Self {
        TypeVariableWithDefault {
            variable: self.variable.without_comments(),
            token: optional_token_without_comments(self.token),
            ..self
        }
    }

    /// Takes the comments out of the tokens of this node and of the parts that are
    /// cleared with it. What the node means stays as it is.
    pub fn clear_comments(&mut self)
        ensures
            *final(self) == old(self).without_comments(),
    {
        self.variable.clear_comments();
        clear_optional_token_comments(&mut self.token);
    }

    /// Clearing comments a second time changes nothing.
    pub proof fn without_comments_is_idempotent(self)
        ensures
            self.without_comments().without_comments() == self.without_comments(),
    {
        self.variable.without_comments_is_idempotent();
        optional_token_without_comments_is_idempotent(self.token);
    }

    /// Clearing comments leaves the depth as it is.
    pub proof fn without_comments_keeps_depth(self)
        ensures
            self.without_comments().depth() == self.depth(),
    {
    }

    /// Whether no token of this node, nor of anything under it, holds a comment.
    pub open spec fn is_comment_free(self) -> bool
        decreases self,
    {
        &&& self.variable.is_comment_free()
        &&& self.default_type.is_comment_free()
        &&& optional_token_is_comment_free(self.token)
    }

    /// This node with the comments taken out of every token of it and of everything
    /// under it.
    pub open spec fn stripped(self) -> Self
        decreases self,
    {
        TypeVariableWithDefault {
            variable: self.variable.stripped(),
            default_type: self.default_type.stripped(),
            token: optional_token_without_comments(self.token),
        }
    }

    /// Taking the comments out of everything makes no difference between a node and the
    /// node cleared.
    pub proof fn stripped_absorbs_clearing(self)
        ensures
            self.without_comments().stripped() == self.stripped(),
    {
        self.without_comments_is_idempotent();
        self.variable.without_comments_is_idempotent();
    }

    /// Once the comments are taken out of everything, no token holds a comment.
    pub proof fn stripped_is_comment_free(self)
        ensures
            self.stripped().is_comment_free(),
        decreases self.depth(), 0nat,
    {
        self.variable.stripped_is_comment_free();
        self.default_type.stripped_is_comment_free();
        optional_token_without_comments_is_idempotent(self.token);
        cleared_optional_token_is_comment_free(
            optional_token_without_comments(self.token),
        );
    }

    /// Taking the comments out of everything a second time changes nothing.
    pub proof fn stripped_is_idempotent(self)
        ensures
            self.stripped().stripped() == self.stripped(),
        decreases self.depth(), 0nat,
    {
        self.variable.stripped_is_idempotent();
        self.default_type.stripped_is_idempotent();
        optional_token_without_comments_is_idempotent(self.token);
    }
}

/// A generic type pack with the pack it stands for when none is given.
#[derive(Debug, PartialEq, Eq)]
pub struct GenericTypePackWithDefault {
    pub generic_type_pack: GenericTypePack,
    pub default_type: GenericTypePackDefault,
    pub token: Option<Token>,
}

impl GenericTypePackWithDefault {
    /// A node built from its parts, without tokens.
    pub fn new(
        generic_type_pack: GenericTypePack,
        default_type: GenericTypePackDefault,
    ) -> (node: Self)
        ensures
            node.generic_type_pack == generic_type_pack,
            node.default_type == default_type,
            node.token is None,
    {
        GenericTypePackWithDefault { generic_type_pack, default_type, token: None }
    }

    /// This node with the token it was read from.
    pub fn with_token(self, token: Token) -> (node: Self)
        ensures
            node == (GenericTypePackWithDefault { token: Some(token), ..self }),
    {
        let mut node = self;
        node.token = Some(token);
        node
    }

    /// How deep the tree under this node goes.
    pub open spec fn depth(self) -> nat
        decreases self,
    {
        1 + self.default_type.depth()
    }

    /// This node with every comment taken out of its own tokens.
    pub open spec fn without_comments(self) -> Self {
        GenericTypePackWithDefault {
            token: optional_token_without_comments(self.token),
            ..self
        }
    }

    /// Takes the comments out of the tokens of this node. What the node means stays as
    /// it is.
    pub fn clear_comments(&mut self)
        ensures
            *final(self) == old(self).without_comments(),
    {
        clear_optional_token_comments(&mut self.token);
    }

    /// Clearing comments a second time changes nothing.
    pub proof fn without_comments_is_idempotent(self)
        ensures
            self.without_comments().without_comments() == self.without_comments(),
    {
        optional_token_without_comments_is_idempotent(self.token);
    }

    /// Clearing comments leaves the depth as it is.
    pub proof fn without_comments_keeps_depth(self)
        ensures
            self.without_comments().depth() == self.depth(),
    {
    }

    /// Whether no token of this node, nor of anything under it, holds a comment.
    pub open spec fn is_comment_free(self) -> bool
        decreases self,
    {
        &&& self.generic_type_pack.is_comment_free()
        &&& self.default_type.is_comment_free()
        &&& optional_token_is_comment_free(self.token)
    }

    /// This node with the comments taken out of every token of it and of everything
    /// under it.
    pub open spec fn stripped(self) -> Self
        decreases self,
    {
        GenericTypePackWithDefault {
            generic_type_pack: self.generic_type_pack.stripped(),
            default_type: self.default_type.stripped(),
            token: optional_token_without_comments(self.token),
        }
    }

    /// Taking the comments out of everything makes no difference between a node and the
    /// node cleared.
    pub proof fn stripped_absorbs_clearing(self)
        ensures
            self.without_comments().stripped() == self.stripped(),
    {
        self.without_comments_is_idempotent();
    }

    /// Once the comments are taken out of everything, no token holds a comment.
    pub proof fn stripped_is_comment_free(self)
        ensures
            self.stripped().is_comment_free(),
        decreases self.depth(), 0nat,
    {
        self.generic_type_pack.stripped_is_comment_free();
        self.default_type.stripped_is_comment_free();
        optional_token_without_comments_is_idempotent(self.token);
        cleared_optional_token_is_comment_free(
            optional_token_without_comments(self.token),
        );
    }

    /// Taking the comments out of everything a second time changes nothing.
    pub proof fn stripped_is_idempotent(self)
        ensures
            self.stripped().stripped() == self.stripped(),
        decreases self.depth(), 0nat,
    {
        self.generic_type_pack.stripped_is_idempotent();
        self.default_type.stripped_is_idempotent();
        optional_token_without_comments_is_idempotent(self.token);
    }
}

/// What a generic type pack may default to.
#[derive(Debug, PartialEq, Eq)]
pub enum GenericTypePackDefault {
    TypePack(TypePack),
    VariadicTypePack(VariadicTypePack),
    GenericTypePack(GenericTypePack),
}

impl GenericTypePackDefault {
    /// How deep the tree under this node goes.
    pub open spec fn depth(self) -> nat
        decreases self,
    {
        match self {
            GenericTypePackDefault::TypePack(inner) => 1 + inner.depth(),
            GenericTypePackDefault::VariadicTypePack(inner) => 1 + inner.depth(),
            _ => 0,
        }
    }

    /// Whether no token of this node, nor of anything under it, holds a comment.
    pub open spec fn is_comment_free(self) -> bool
        decreases self,
    {
        match self {
            GenericTypePackDefault::TypePack(inner) => inner.is_comment_free(),
            GenericTypePackDefault::VariadicTypePack(inner) => inner.is_comment_free(),
            GenericTypePackDefault::GenericTypePack(inner) => inner.is_comment_free(),
        }
    }

    /// This node with the comments taken out of every token of it and of everything
    /// under it.
    pub open spec fn stripped(self) -> Self
        decreases self,
    {
        match self {
            GenericTypePackDefault::TypePack(inner) => {
                GenericTypePackDefault::TypePack(inner.stripped())
            },
            GenericTypePackDefault::VariadicTypePack(inner) => {
                GenericTypePackDefault::VariadicTypePack(inner.stripped())
            },
            GenericTypePackDefault::GenericTypePack(inner) => {
                GenericTypePackDefault::GenericTypePack(inner.stripped())
            },
        }
    }

    /// Once the comments are taken out of everything, no token holds a comment.
    pub proof fn stripped_is_comment_free(self)
        ensures
            self.stripped().is_comment_free(),
        decreases self.depth(), 0nat,
    {
        match self {
            GenericTypePackDefault::TypePack(inner) => inner.stripped_is_comment_free(),
            GenericTypePackDefault::VariadicTypePack(inner) => inner.stripped_is_comment_free(),
            GenericTypePackDefault::GenericTypePack(inner) => inner.stripped_is_comment_free(),
        }
    }

    /// Taking the comments out of everything a second time changes nothing.
    pub proof fn stripped_is_idempotent(self)
        ensures
            self.stripped().stripped() == self.stripped(),
        decreases self.depth(), 0nat,
    {
        match self {
            GenericTypePackDefault::TypePack(inner) => inner.stripped_is_idempotent(),
            GenericTypePackDefault::VariadicTypePack(inner) => inner.stripped_is_idempotent(),
            GenericTypePackDefault::GenericTypePack(inner) => inner.stripped_is_idempotent(),
        }
    }
}

} // verus!
