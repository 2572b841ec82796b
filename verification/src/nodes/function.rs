use crate::nodes::block::Block;
use crate::nodes::function_type::{FunctionReturnType, FunctionVariadicType};
use crate::nodes::identifier::{
    Identifier, TypedIdentifier, clear_identifiers_comments, clear_typed_identifiers_comments,
    cleared_identifiers_are_comment_free, identifiers_are_comment_free,
    identifiers_without_comments, identifiers_without_comments_is_idempotent,
    typed_identifiers_are_comment_free, typed_identifiers_depth, typed_identifiers_stripped,
    typed_identifiers_stripped_absorbs_clearing, typed_identifiers_stripped_are_comment_free,
    typed_identifiers_stripped_is_idempotent, typed_identifiers_without_comments,
    typed_identifiers_without_comments_is_idempotent,
    typed_identifiers_without_comments_keeps_depth,
};
use crate::nodes::list::{NodeList, deeper};
use crate::nodes::token::{
    Token, clear_optional_token_comments, clear_tokens_comments,
    cleared_optional_token_is_comment_free, cleared_tokens_are_comment_free,
    optional_token_is_comment_free, optional_token_without_comments,
    optional_token_without_comments_is_idempotent, tokens_are_comment_free, tokens_without_comments,
    tokens_without_comments_is_idempotent,
};
use crate::nodes::type_pack::{
    GenericTypePack, clear_generic_type_packs_comments, cleared_generic_type_packs_are_comment_free,
    generic_type_packs_are_comment_free, generic_type_packs_without_comments,
    generic_type_packs_without_comments_is_idempotent,
};
use vstd::prelude::*;

verus! {

/// A function declared under a name, possibly with fields and a method.
#[derive(Debug, PartialEq, Eq)]
pub struct FunctionStatement {
    pub name: FunctionName,
    pub block: Block,
    pub parameters: NodeList<TypedIdentifier>,
    pub is_variadic: bool,
    pub variadic_type: Option<FunctionVariadicType>,
    pub return_type: Option<FunctionReturnType>,
    pub generic_parameters: Option<GenericParameters>,
    pub tokens: Option<FunctionBodyTokens>,
}

impl FunctionStatement {
    /// A node built from its parts, without tokens.
    pub fn new(
        name: FunctionName,
        block: Block,
        parameters: Vec<TypedIdentifier>,
        is_variadic: bool,
        variadic_type: Option<FunctionVariadicType>,
        return_type: Option<FunctionReturnType>,
        generic_parameters: Option<GenericParameters>,
    ) -> (node: Self)
        ensures
            node.name == name,
            node.block == block,
            node.parameters@ == parameters@,
            node.is_variadic == is_variadic,
            node.variadic_type == variadic_type,
            node.return_type == return_type,
            node.generic_parameters == generic_parameters,
            node.tokens is None,
    {
        FunctionStatement {
            name,
            block,
            parameters: NodeList::from_vec(parameters),
            is_variadic,
            variadic_type,
            return_type,
            generic_parameters,
            tokens: None,
        }
    }

    /// This node with the tokens it was read from.
    pub fn with_tokens(self, tokens: FunctionBodyTokens) -> (node: Self)
        ensures
            node == (FunctionStatement { tokens: Some(tokens), ..self }),
    {
        let mut node = self;
        node.tokens = Some(tokens);
        node
    }

    /// How deep the tree under this node goes.
    pub open spec fn depth(self) -> nat
        decreases self,
    {
        1 + deeper(
            self.block.depth(),
            deeper(
                typed_identifiers_depth(self.parameters),
                deeper(
                    match self.variadic_type {
                        Some(inner) => inner.depth(),
                        None => 0,
                    },
                    match self.return_type {
                        Some(inner) => inner.depth(),
                        None => 0,
                    },
                ),
            ),
        )
    }

    /// This node with every comment taken out of its own tokens and of the parts that
    /// are cleared with it.
    pub open spec fn without_comments(self) -> Self {
        FunctionStatement {
            name: self.name.without_comments(),
            parameters: typed_identifiers_without_comments(self.parameters),
            generic_parameters: match self.generic_parameters {
                Some(inner) => Some(inner.without_comments()),
                None => None,
            },
            tokens: match self.tokens {
                Some(tokens) => Some(tokens.without_comments()),
                None => None,
            },
            ..self
        }
    }

    /// Takes the comments out of the tokens of this node and of the parts that are
    /// cleared with it. What the node means stays as it is.
    pub fn clear_comments(&mut self)
        ensures
            *final(self) == old(self).without_comments(),
    {
        self.name.clear_comments();
        clear_typed_identifiers_comments(&mut self.parameters);
        match &mut self.generic_parameters {
            Some(inner) => inner.clear_comments(),
            None => {},
        }
        match &mut self.tokens {
            Some(tokens) => tokens.clear_comments(),
            None => {},
        }
    }

    /// Clearing comments a second time changes nothing.
    pub proof fn without_comments_is_idempotent(self)
        ensures
            self.without_comments().without_comments() == self.without_comments(),
    {
        self.name.without_comments_is_idempotent();
        typed_identifiers_without_comments_is_idempotent(self.parameters);
        match self.generic_parameters {
            Some(inner) => inner.without_comments_is_idempotent(),
            None => {},
        }
        match self.tokens {
            Some(tokens) => tokens.without_comments_is_idempotent(),
            None => {},
        }
    }

    /// Clearing comments leaves the depth as it is.
    pub proof fn without_comments_keeps_depth(self)
        ensures
            self.without_comments().depth() == self.depth(),
    {
        typed_identifiers_without_comments_keeps_depth(self.parameters);
    }

    /// Whether no token of this node, nor of anything under it, holds a comment.
    pub open spec fn is_comment_free(self) -> bool
        decreases self,
    {
        &&& self.name.is_comment_free()
        &&& self.block.is_comment_free()
        &&& typed_identifiers_are_comment_free(self.parameters)
        &&& match self.variadic_type {
            Some(inner) => inner.is_comment_free(),
            None => true,
        }
        &&& match self.return_type {
            Some(inner) => inner.is_comment_free(),
            None => true,
        }
        &&& match self.generic_parameters {
            Some(inner) => inner.is_comment_free(),
            None => true,
        }
        &&& match self.tokens {
            Some(tokens) => tokens.is_comment_free(),
            None => true,
        }
    }

    /// This node with the comments taken out of every token of it and of everything
    /// under it.
    pub open spec fn stripped(self) -> Self
        decreases self,
    {
        FunctionStatement {
            name: self.name.stripped(),
            block: self.block.stripped(),
            parameters: typed_identifiers_stripped(self.parameters),
            variadic_type: match self.variadic_type {
                Some(inner) => Some(inner.stripped()),
                None => None,
            },
            return_type: match self.return_type {
                Some(inner) => Some(inner.stripped()),
                None => None,
            },
            generic_parameters: match self.generic_parameters {
                Some(inner) => Some(inner.stripped()),
                None => None,
            },
            tokens: match self.tokens {
                Some(tokens) => Some(tokens.without_comments()),
                None => None,
            },
            ..self
        }
    }

    /// Taking the comments out of everything makes no difference between a node and the
    /// node cleared.
    pub proof fn stripped_absorbs_clearing(self)
        ensures
            self.without_comments().stripped() == self.stripped(),
    {
        self.without_comments_is_idempotent();
        self.name.without_comments_is_idempotent();
        typed_identifiers_stripped_absorbs_clearing(self.parameters);
        match self.generic_parameters {
            Some(inner) => inner.without_comments_is_idempotent(),
            None => {},
        }
    }

    /// Once the comments are taken out of everything, no token holds a comment.
    pub proof fn stripped_is_comment_free(self)
        ensures
            self.stripped().is_comment_free(),
        decreases self.depth(), 0nat,
    {
        self.name.stripped_is_comment_free();
        self.block.stripped_is_comment_free();
        typed_identifiers_stripped_are_comment_free(self.parameters);
        match self.variadic_type {
            Some(inner) => inner.stripped_is_comment_free(),
            None => {},
        }
        match self.return_type {
            Some(inner) => inner.stripped_is_comment_free(),
            None => {},
        }
        match self.generic_parameters {
            Some(inner) => inner.stripped_is_comment_free(),
            None => {},
        }
        match self.tokens {
            Some(tokens) => {
                tokens.without_comments_is_idempotent();
                tokens.without_comments().cleared_is_comment_free();
            },
            None => {},
        }
    }

    /// Taking the comments out of everything a second time changes nothing.
    pub proof fn stripped_is_idempotent(self)
        ensures
            self.stripped().stripped() == self.stripped(),
        decreases self.depth(), 0nat,
    {
        self.name.stripped_is_idempotent();
        self.block.stripped_is_idempotent();
        typed_identifiers_stripped_is_idempotent(self.parameters);
        match self.variadic_type {
            Some(inner) => inner.stripped_is_idempotent(),
            None => {},
        }
        match self.return_type {
            Some(inner) => inner.stripped_is_idempotent(),
            None => {},
        }
        match self.generic_parameters {
            Some(inner) => inner.stripped_is_idempotent(),
            None => {},
        }
        match self.tokens {
            Some(tokens) => tokens.without_comments_is_idempotent(),
            None => {},
        }
    }
}

/// The tokens shared by every function body.
#[derive(Debug, PartialEq, Eq)]
pub struct FunctionBodyTokens {
    pub function: Token,
    pub opening_parenthese: Token,
    pub closing_parenthese: Token,
    pub end: Token,
    pub parameter_commas: NodeList<Token>,
    pub variable_arguments: Option<Token>,
    pub variable_arguments_colon: Option<Token>,
    pub return_type_colon: Option<Token>,
}

impl FunctionBodyTokens {
    /// These tokens with every comment taken out of their trivia.
    pub open spec fn without_comments(self) -> Self {
        FunctionBodyTokens {
            function: self.function.without_comments(),
            opening_parenthese: self.opening_parenthese.without_comments(),
            closing_parenthese: self.closing_parenthese.without_comments(),
            end: self.end.without_comments(),
            parameter_commas: tokens_without_comments(self.parameter_commas),
            variable_arguments: optional_token_without_comments(self.variable_arguments),
            variable_arguments_colon: optional_token_without_comments(
                self.variable_arguments_colon,
            ),
            return_type_colon: optional_token_without_comments(self.return_type_colon),
        }
    }

    /// Takes the comments out of the trivia of every token.
    pub fn clear_comments(&mut self)
        ensures
            *final(self) == old(self).without_comments(),
    {
        self.function.clear_comments();
        self.opening_parenthese.clear_comments();
        self.closing_parenthese.clear_comments();
        self.end.clear_comments();
        clear_tokens_comments(&mut self.parameter_commas);
        clear_optional_token_comments(&mut self.variable_arguments);
        clear_optional_token_comments(&mut self.variable_arguments_colon);
        clear_optional_token_comments(&mut self.return_type_colon);
    }

    /// Clearing comments a second time changes nothing.
    pub proof fn without_comments_is_idempotent(self)
        ensures
            self.without_comments().without_comments() == self.without_comments(),
    {
        self.function.without_comments_is_idempotent();
        self.opening_parenthese.without_comments_is_idempotent();
        self.closing_parenthese.without_comments_is_idempotent();
        self.end.without_comments_is_idempotent();
        tokens_without_comments_is_idempotent(self.parameter_commas);
        optional_token_without_comments_is_idempotent(self.variable_arguments);
        optional_token_without_comments_is_idempotent(self.variable_arguments_colon);
        optional_token_without_comments_is_idempotent(self.return_type_colon);
    }

    /// Whether none of these tokens holds a comment.
    pub open spec fn is_comment_free(self) -> bool {
        &&& self.function.is_comment_free()
        &&& self.opening_parenthese.is_comment_free()
        &&& self.closing_parenthese.is_comment_free()
        &&& self.end.is_comment_free()
        &&& tokens_are_comment_free(self.parameter_commas)
        &&& optional_token_is_comment_free(self.variable_arguments)
        &&& optional_token_is_comment_free(self.variable_arguments_colon)
        &&& optional_token_is_comment_free(self.return_type_colon)
    }

    /// Tokens that clearing leaves as they are hold no comment.
    pub proof fn cleared_is_comment_free(self)
        requires
            self.without_comments() == self,
        ensures
            self.is_comment_free(),
    {
        self.function.cleared_is_comment_free();
        self.opening_parenthese.cleared_is_comment_free();
        self.closing_parenthese.cleared_is_comment_free();
        self.end.cleared_is_comment_free();
        cleared_tokens_are_comment_free(self.parameter_commas);
        cleared_optional_token_is_comment_free(self.variable_arguments);
        cleared_optional_token_is_comment_free(self.variable_arguments_colon);
        cleared_optional_token_is_comment_free(self.return_type_colon);
    }
}

/// The name of a function statement: a variable, field names and an optional method.
#[derive(Debug, PartialEq, Eq)]
pub struct FunctionName {
    pub name: Identifier,
    pub field_names: NodeList<Identifier>,
    pub method: Option<Identifier>,
    pub tokens: Option<FunctionNameTokens>,
}

impl FunctionName {
    /// This node with the tokens it was read from.
    pub fn with_tokens(self, tokens: FunctionNameTokens) -> (node: Self)
        ensures
            node == (FunctionName { tokens: Some(tokens), ..self }),
    {
        let mut node = self;
        node.tokens = Some(tokens);
        node
    }

    /// This node with every comment taken out of its own tokens and of the parts that
    /// are cleared with it.
    pub open spec fn without_comments(self) -> Self {
        FunctionName {
            name: self.name.without_comments(),
            field_names: identifiers_without_comments(self.field_names),
            method: match self.method {
                Some(inner) => Some(inner.without_comments()),
                None => None,
            },
            tokens: match self.tokens {
                Some(tokens) => Some(tokens.without_comments()),
                None => None,
            },
        }
    }

    /// Takes the comments out of the tokens of this node and of the parts that are
    /// cleared with it. What the node means stays as it is.
    pub fn clear_comments(&mut self)
        ensures
            *final(self) == old(self).without_comments(),
    {
        self.name.clear_comments();
        clear_identifiers_comments(&mut self.field_names);
        match &mut self.method {
            Some(inner) => inner.clear_comments(),
            None => {},
        }
        match &mut self.tokens {
            Some(tokens) => tokens.clear_comments(),
            None => {},
        }
    }

    /// Clearing comments a second time changes nothing.
    pub proof fn without_comments_is_idempotent(self)
        ensures
            self.without_comments().without_comments() == self.without_comments(),
    {
        self.name.without_comments_is_idempotent();
        identifiers_without_comments_is_idempotent(self.field_names);
        match self.method {
            Some(inner) => inner.without_comments_is_idempotent(),
            None => {},
        }
        match self.tokens {
            Some(tokens) => tokens.without_comments_is_idempotent(),
            None => {},
        }
    }

    /// Whether no token of this node, nor of anything under it, holds a comment.
    pub open spec fn is_comment_free(self) -> bool
    {
        &&& self.name.is_comment_free()
        &&& identifiers_are_comment_free(self.field_names)
        &&& match self.method {
            Some(inner) => inner.is_comment_free(),
            None => true,
        }
        &&& match self.tokens {
            Some(tokens) => tokens.is_comment_free(),
            None => true,
        }
    }

    /// A node that clearing leaves as it is holds no comment.
    pub proof fn cleared_is_comment_free(self)
        requires
            self.without_comments() == self,
        ensures
            self.is_comment_free(),
    {
        self.name.cleared_is_comment_free();
        cleared_identifiers_are_comment_free(self.field_names);
        match self.method {
            Some(inner) => inner.cleared_is_comment_free(),
            None => {},
        }
        match self.tokens {
            Some(tokens) => tokens.cleared_is_comment_free(),
            None => {},
        }
    }

    /// This node with the comments taken out of every token of it and of everything
    /// under it.
    pub open spec fn stripped(self) -> Self
    {
        self.without_comments()
    }

    /// Once the comments are taken out of everything, no token holds a comment.
    pub proof fn stripped_is_comment_free(self)
        ensures
            self.stripped().is_comment_free(),
    {
        self.without_comments_is_idempotent();
        self.without_comments().cleared_is_comment_free();
    }

    /// Taking the comments out of everything a second time changes nothing.
    pub proof fn stripped_is_idempotent(self)
        ensures
            self.stripped().stripped() == self.stripped(),
    {
        self.without_comments_is_idempotent();
    }
}

/// The tokens of a function name.
#[derive(Debug, PartialEq, Eq)]
pub struct FunctionNameTokens {
    pub periods: NodeList<Token>,
    pub colon: Option<Token>,
}

impl FunctionNameTokens {
    /// These tokens with every comment taken out of their trivia.
    pub open spec fn without_comments(self) -> Self {
        FunctionNameTokens {
            periods: tokens_without_comments(self.periods),
            colon: optional_token_without_comments(self.colon),
        }
    }

    /// Takes the comments out of the trivia of every token.
    pub fn clear_comments(&mut self)
        ensures
            *final(self) == old(self).without_comments(),
    {
        clear_tokens_comments(&mut self.periods);
        clear_optional_token_comments(&mut self.colon);
    }

    /// Clearing comments a second time changes nothing.
    pub proof fn without_comments_is_idempotent(self)
        ensures
            self.without_comments().without_comments() == self.without_comments(),
    {
        tokens_without_comments_is_idempotent(self.periods);
        optional_token_without_comments_is_idempotent(self.colon);
    }

    /// Whether none of these tokens holds a comment.
    pub open spec fn is_comment_free(self) -> bool {
        &&& tokens_are_comment_free(self.periods)
        &&& optional_token_is_comment_free(self.colon)
    }

    /// Tokens that clearing leaves as they are hold no comment.
    pub proof fn cleared_is_comment_free(self)
        requires
            self.without_comments() == self,
        ensures
            self.is_comment_free(),
    {
        cleared_tokens_are_comment_free(self.periods);
        cleared_optional_token_is_comment_free(self.colon);
    }
}

/// The generic parameters of a function: type variables, then generic type packs.
#[derive(Debug, PartialEq, Eq)]
pub struct GenericParameters {
    pub type_variables: NodeList<Identifier>,
    pub generic_type_packs: NodeList<GenericTypePack>,
    pub tokens: Option<GenericParametersTokens>,
}

impl GenericParameters {
    /// A node built from its parts, without tokens.
    pub fn new(
        type_variables: Vec<Identifier>,
        generic_type_packs: Vec<GenericTypePack>,
    ) -> (node: Self)
        ensures
            node.type_variables@ == type_variables@,
            node.generic_type_packs@ == generic_type_packs@,
            node.tokens is None,
    {
        GenericParameters {
            type_variables: NodeList::from_vec(type_variables),
            generic_type_packs: NodeList::from_vec(generic_type_packs),
            tokens: None,
        }
    }

    /// This node with the tokens it was read from.
    pub fn with_tokens(self, tokens: GenericParametersTokens) -> (node: Self)
        ensures
            node == (GenericParameters { tokens: Some(tokens), ..self }),
    {
        let mut node = self;
        node.tokens = Some(tokens);
        node
    }

    /// This node with every comment taken out of its own tokens and of the parts that
    /// are cleared with it.
    pub open spec fn without_comments(self) -> Self {
        GenericParameters {
            type_variables: identifiers_without_comments(self.type_variables),
            generic_type_packs: generic_type_packs_without_comments(self.generic_type_packs),
            tokens: match self.tokens {
                Some(tokens) => Some(tokens.without_comments()),
                None => None,
            },
        }
    }

    /// Takes the comments out of the tokens of this node and of the parts that are
    /// cleared with it. What the node means stays as it is.
    pub fn clear_comments(&mut self)
        ensures
            *final(self) == old(self).without_comments(),
    {
        clear_identifiers_comments(&mut self.type_variables);
        clear_generic_type_packs_comments(&mut self.generic_type_packs);
        match &mut self.tokens {
            Some(tokens) => tokens.clear_comments(),
            None => {},
        }
    }

    /// Clearing comments a second time changes nothing.
    pub proof fn without_comments_is_idempotent(self)
        ensures
            self.without_comments().without_comments() == self.without_comments(),
    {
        identifiers_without_comments_is_idempotent(self.type_variables);
        generic_type_packs_without_comments_is_idempotent(self.generic_type_packs);
        match self.tokens {
            Some(tokens) => tokens.without_comments_is_idempotent(),
            None => {},
        }
    }

    /// Whether no token of this node, nor of anything under it, holds a comment.
    pub open spec fn is_comment_free(self) -> bool
    {
        &&& identifiers_are_comment_free(self.type_variables)
        &&& generic_type_packs_are_comment_free(self.generic_type_packs)
        &&& match self.tokens {
            Some(tokens) => tokens.is_comment_free(),
            None => true,
        }
    }

    /// A node that clearing leaves as it is holds no comment.
    pub proof fn cleared_is_comment_free(self)
        requires
            self.without_comments() == self,
        ensures
            self.is_comment_free(),
    {
        cleared_identifiers_are_comment_free(self.type_variables);
        cleared_generic_type_packs_are_comment_free(self.generic_type_packs);
        match self.tokens {
            Some(tokens) => tokens.cleared_is_comment_free(),
            None => {},
        }
    }

    /// This node with the comments taken out of every token of it and of everything
    /// under it.
    pub open spec fn stripped(self) -> Self
    {
        self.without_comments()
    }

    /// Once the comments are taken out of everything, no token holds a comment.
    pub proof fn stripped_is_comment_free(self)
        ensures
            self.stripped().is_comment_free(),
    {
        self.without_comments_is_idempotent();
        self.without_comments().cleared_is_comment_free();
    }

    /// Taking the comments out of everything a second time changes nothing.
    pub proof fn stripped_is_idempotent(self)
        ensures
            self.stripped().stripped() == self.stripped(),
    {
        self.without_comments_is_idempotent();
    }
}

/// The tokens of a list of generic parameters.
#[derive(Debug, PartialEq, Eq)]
pub struct GenericParametersTokens {
    pub opening_list: Token,
    pub closing_list: Token,
    pub commas: NodeList<Token>,
}

impl GenericParametersTokens {
    /// These tokens with every comment taken out of their trivia.
    pub open spec fn without_comments(self) -> Self {
        GenericParametersTokens {
            opening_list: self.opening_list.without_comments(),
            closing_list: self.closing_list.without_comments(),
            commas: tokens_without_comments(self.commas),
        }
    }

    /// Takes the comments out of the trivia of every token.
    pub fn clear_comments(&mut self)
        ensures
            *final(self) == old(self).without_comments(),
    {
        self.opening_list.clear_comments();
        self.closing_list.clear_comments();
        clear_tokens_comments(&mut self.commas);
    }

    /// Clearing comments a second time changes nothing.
    pub proof fn without_comments_is_idempotent(self)
        ensures
            self.without_comments().without_comments() == self.without_comments(),
    {
        self.opening_list.without_comments_is_idempotent();
        self.closing_list.without_comments_is_idempotent();
        tokens_without_comments_is_idempotent(self.commas);
    }

    /// Whether none of these tokens holds a comment.
    pub open spec fn is_comment_free(self) -> bool {
        &&& self.opening_list.is_comment_free()
        &&& self.closing_list.is_comment_free()
        &&& tokens_are_comment_free(self.commas)
    }

    /// Tokens that clearing leaves as they are hold no comment.
    pub proof fn cleared_is_comment_free(self)
        requires
            self.without_comments() == self,
        ensures
            self.is_comment_free(),
    {
        self.opening_list.cleared_is_comment_free();
        self.closing_list.cleared_is_comment_free();
        cleared_tokens_are_comment_free(self.commas);
    }
}

impl FunctionName {
    /// The name of a function held by a variable, without fields or method.
    pub fn from_name(name: &str) -> (function_name: Self)
        ensures
            function_name.name.name@ == name@,
            function_name.name.token is None,
            function_name.field_names == NodeList::<Identifier>::Empty,
            function_name.method is None,
            function_name.tokens is None,
    {
        FunctionName {
            name: Identifier::new(name),
            field_names: NodeList::Empty,
            method: None,
            tokens: None,
        }
    }
}

} // verus!
