use crate::nodes::block::Block;
use crate::nodes::function::{FunctionBodyTokens, GenericParameters};
use crate::nodes::function_type::{FunctionReturnType, FunctionVariadicType};
use crate::nodes::identifier::{
    Identifier, TypedIdentifier, clear_typed_identifiers_comments,
    typed_identifiers_are_comment_free, typed_identifiers_depth, typed_identifiers_stripped,
    typed_identifiers_stripped_absorbs_clearing, typed_identifiers_stripped_are_comment_free,
    typed_identifiers_stripped_is_idempotent, typed_identifiers_without_comments,
    typed_identifiers_without_comments_is_idempotent,
    typed_identifiers_without_comments_keeps_depth,
};
use crate::nodes::list::{NodeList, deeper};
use crate::nodes::token::Token;
use vstd::prelude::*;

verus! {

/// A function bound to a local name.
#[derive(Debug, PartialEq, Eq)]
pub struct LocalFunctionStatement {
    pub identifier: Identifier,
    pub block: Block,
    pub parameters: NodeList<TypedIdentifier>,
    pub is_variadic: bool,
    pub variadic_type: Option<FunctionVariadicType>,
    pub return_type: Option<FunctionReturnType>,
    pub generic_parameters: Option<GenericParameters>,
    pub tokens: Option<LocalFunctionTokens>,
}

impl LocalFunctionStatement {
    /// A node built from its parts, without tokens.
    pub fn new(
        identifier: Identifier,
        block: Block,
        parameters: Vec<TypedIdentifier>,
        is_variadic: bool,
        variadic_type: Option<FunctionVariadicType>,
        return_type: Option<FunctionReturnType>,
        generic_parameters: Option<GenericParameters>,
    ) -> (node: Self)
        ensures
            node.identifier == identifier,
            node.block == block,
            node.parameters@ == parameters@,
            node.is_variadic == is_variadic,
            node.variadic_type == variadic_type,
            node.return_type == return_type,
            node.generic_parameters == generic_parameters,
            node.tokens is None,
    {
        LocalFunctionStatement {
            identifier,
            block,
            parameters: NodeList::from_vec(parameters),
            is_variadic,
            variadic_type,
            return_type,
            generic_parameters,
            tokens: None,
        }
    }

    /// This node with the tokens it was read from.
    pub fn with_tokens(self, tokens: LocalFunctionTokens) -> (node: Self)
        ensures
            node == (LocalFunctionStatement { tokens: Some(tokens), ..self }),
    {
        let mut node = self;
        node.tokens = Some(tokens);
        node
    }

    /// How deep the tree under this node goes.
    pub open spec fn depth(self) -> nat
        decreases self,
    {
        1 + deeper(
            self.block.depth(),
            deeper(
                typed_identifiers_depth(self.parameters),
                deeper(
                    match self.variadic_type {
                        Some(inner) => inner.depth(),
                        None => 0,
                    },
                    match self.return_type {
                        Some(inner) => inner.depth(),
                        None => 0,
                    },
                ),
            ),
        )
    }

    /// This node with every comment taken out of its own tokens and of the parts that
    /// are cleared with it.
    pub open spec fn without_comments(self) -> Self {
        LocalFunctionStatement {
            identifier: self.identifier.without_comments(),
            parameters: typed_identifiers_without_comments(self.parameters),
            generic_parameters: match self.generic_parameters {
                Some(inner) => Some(inner.without_comments()),
                None => None,
            },
            tokens: match self.tokens {
                Some(tokens) => Some(tokens.without_comments()),
                None => None,
            },
            ..self
        }
    }

    /// Takes the comments out of the tokens of this node and of the parts that are
    /// cleared with it. What the node means stays as it is.
    pub fn clear_comments(&mut self)
        ensures
            *final(self) == old(self).without_comments(),
    {
        self.identifier.clear_comments();
        clear_typed_identifiers_comments(&mut self.parameters);
        match &mut self.generic_parameters {
            Some(inner) => inner.clear_comments(),
            None => {},
        }
        match &mut self.tokens {
            Some(tokens) => tokens.clear_comments(),
            None => {},
        }
    }

    /// Clearing comments a second time changes nothing.
    pub proof fn without_comments_is_idempotent(self)
        ensures
            self.without_comments().without_comments() == self.without_comments(),
    {
        self.identifier.without_comments_is_idempotent();
        typed_identifiers_without_comments_is_idempotent(self.parameters);
        match self.generic_parameters {
            Some(inner) => inner.without_comments_is_idempotent(),
            None => {},
        }
        match self.tokens {
            Some(tokens) => tokens.without_comments_is_idempotent(),
            None => {},
        }
    }

    /// Clearing comments leaves the depth as it is.
    pub proof fn without_comments_keeps_depth(self)
        ensures
            self.without_comments().depth() == self.depth(),
    {
        typed_identifiers_without_comments_keeps_depth(self.parameters);
    }

    /// Whether no token of this node, nor of anything under it, holds a comment.
    pub open spec fn is_comment_free(self) -> bool
        decreases self,
    {
        &&& self.identifier.is_comment_free()
        &&& self.block.is_comment_free()
        &&& typed_identifiers_are_comment_free(self.parameters)
        &&& match self.variadic_type {
            Some(inner) => inner.is_comment_free(),
            None => true,
        }
        &&& match self.return_type {
            Some(inner) => inner.is_comment_free(),
            None => true,
        }
        &&& match self.generic_parameters {
            Some(inner) => inner.is_comment_free(),
            None => true,
        }
        &&& match self.tokens {
            Some(tokens) => tokens.is_comment_free(),
            None => true,
        }
    }

    /// This node with the comments taken out of every token of it and of everything
    /// under it.
    pub open spec fn stripped(self) -> Self
        decreases self,
    {
        LocalFunctionStatement {
            identifier: self.identifier.stripped(),
            block: self.block.stripped(),
            parameters: typed_identifiers_stripped(self.parameters),
            variadic_type: match self.variadic_type {
                Some(inner) => Some(inner.stripped()),
                None => None,
            },
            return_type: match self.return_type {
                Some(inner) => Some(inner.stripped()),
                None => None,
            },
            generic_parameters: match self.generic_parameters {
                Some(inner) => Some(inner.stripped()),
                None => None,
            },
            tokens: match self.tokens {
                Some(tokens) => Some(tokens.without_comments()),
                None => None,
            },
            ..self
        }
    }

    /// Taking the comments out of everything makes no difference between a node and the
    /// node cleared.
    pub proof fn stripped_absorbs_clearing(self)
        ensures
            self.without_comments().stripped() == self.stripped(),
    {
        self.without_comments_is_idempotent();
        self.identifier.without_comments_is_idempotent();
        typed_identifiers_stripped_absorbs_clearing(self.parameters);
        match self.generic_parameters {
            Some(inner) => inner.without_comments_is_idempotent(),
            None => {},
        }
    }

    /// Once the comments are taken out of everything, no token holds a comment.
    pub proof fn stripped_is_comment_free(self)
        ensures
            self.stripped().is_comment_free(),
        decreases self.depth(), 0nat,
    {
        self.identifier.stripped_is_comment_free();
        self.block.stripped_is_comment_free();
        typed_identifiers_stripped_are_comment_free(self.parameters);
        match self.variadic_type {
            Some(inner) => inner.stripped_is_comment_free(),
            None => {},
        }
        match self.return_type {
            Some(inner) => inner.stripped_is_comment_free(),
            None => {},
        }
        match self.generic_parameters {
            Some(inner) => inner.stripped_is_comment_free(),
            None => {},
        }
        match self.tokens {
            Some(tokens) => {
                tokens.without_comments_is_idempotent();
                tokens.without_comments().cleared_is_comment_free();
            },
            None => {},
        }
    }

    /// Taking the comments out of everything a second time changes nothing.
    pub proof fn stripped_is_idempotent(self)
        ensures
            self.stripped().stripped() == self.stripped(),
        decreases self.depth(), 0nat,
    {
        self.identifier.stripped_is_idempotent();
        self.block.stripped_is_idempotent();
        typed_identifiers_stripped_is_idempotent(self.parameters);
        match self.variadic_type {
            Some(inner) => inner.stripped_is_idempotent(),
            None => {},
        }
        match self.return_type {
            Some(inner) => inner.stripped_is_idempotent(),
            None => {},
        }
        match self.generic_parameters {
            Some(inner) => inner.stripped_is_idempotent(),
            None => {},
        }
        match self.tokens {
            Some(tokens) => tokens.without_comments_is_idempotent(),
            None => {},
        }
    }
}

/// The tokens of a local function.
#[derive(Debug, PartialEq, Eq)]
pub struct LocalFunctionTokens {
    pub local: Token,
    pub function_body: FunctionBodyTokens,
}

impl LocalFunctionTokens {
    /// These tokens with every comment taken out of their trivia.
    pub open spec fn without_comments(self) -> Self {
        LocalFunctionTokens {
            local: self.local.without_comments(),
            function_body: self.function_body.without_comments(),
        }
    }

    /// Takes the comments out of the trivia of every token.
    pub fn clear_comments(&mut self)
        ensures
            *final(self) == old(self).without_comments(),
    {
        self.local.clear_comments();
        self.function_body.clear_comments();
    }

    /// Clearing comments a second time changes nothing.
    pub proof fn without_comments_is_idempotent(self)
        ensures
            self.without_comments().without_comments() == self.without_comments(),
    {
        self.local.without_comments_is_idempotent();
        self.function_body.without_comments_is_idempotent();
    }

    /// Whether none of these tokens holds a comment.
    pub open spec fn is_comment_free(self) -> bool {
        &&& self.local.is_comment_free()
        &&& self.function_body.is_comment_free()
    }

    /// Tokens that clearing leaves as they are hold no comment.
    pub proof fn cleared_is_comment_free(self)
        requires
            self.without_comments() == self,
        ensures
            self.is_comment_free(),
    {
        self.local.cleared_is_comment_free();
        self.function_body.cleared_is_comment_free();
    }
}

} // verus!
