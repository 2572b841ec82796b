use crate::nodes::block::Block;
use crate::nodes::function::{FunctionBodyTokens, GenericParameters};
use crate::nodes::function_type::{FunctionReturnType, FunctionVariadicType};
use crate::nodes::identifier::{
    TypedIdentifier, clear_typed_identifiers_comments, typed_identifiers_are_comment_free,
    typed_identifiers_depth, typed_identifiers_stripped,
    typed_identifiers_stripped_absorbs_clearing, typed_identifiers_stripped_are_comment_free,
    typed_identifiers_stripped_is_idempotent, typed_identifiers_without_comments,
    typed_identifiers_without_comments_is_idempotent,
    typed_identifiers_without_comments_keeps_depth,
};
use crate::nodes::list::{NodeList, deeper};
use vstd::prelude::*;

verus! {

/// An anonymous function.
#[derive(Debug, PartialEq, Eq)]
pub struct FunctionExpression {
    pub block: Block,
    pub parameters: NodeList<TypedIdentifier>,
    pub is_variadic: bool,
    pub variadic_type: Option<FunctionVariadicType>,
    pub return_type: Option<FunctionReturnType>,
    pub generic_parameters: Option<GenericParameters>,
    pub tokens: Option<FunctionBodyTokens>,
}

impl FunctionExpression {
    /// A node built from its parts, without tokens.
    pub fn new(
        block: Block,
        parameters: Vec<TypedIdentifier>,
        is_variadic: bool,
        variadic_type: Option<FunctionVariadicType>,
        return_type: Option<FunctionReturnType>,
        generic_parameters: Option<GenericParameters>,
    ) -> (node: Self)
        ensures
            node.block == block,
            node.parameters@ == parameters@,
            node.is_variadic == is_variadic,
            node.variadic_type == variadic_type,
            node.return_type == return_type,
            node.generic_parameters == generic_parameters,
            node.tokens is None,
    {
        FunctionExpression {
            block,
            parameters: NodeList::from_vec(parameters),
            is_variadic,
            variadic_type,
            return_type,
            generic_parameters,
            tokens: None,
        }
    }

    /// This node with the tokens it was read from.
    pub fn with_tokens(self, tokens: FunctionBodyTokens) -> (node: Self)
        ensures
            node == (FunctionExpression { tokens: Some(tokens), ..self }),
    {
        let mut node = self;
        node.tokens = Some(tokens);
        node
    }

    /// How deep the tree under this node goes.
    pub open spec fn depth(self) -> nat
        decreases self,
    {
        1 + deeper(
            self.block.depth(),
            deeper(
                typed_identifiers_depth(self.parameters),
                deeper(
                    match self.variadic_type {
                        Some(inner) => inner.depth(),
                        None => 0,
                    },
                    match self.return_type {
                        Some(inner) => inner.depth(),
                        None => 0,
                    },
                ),
            ),
        )
    }

    /// This node with every comment taken out of its own tokens and of the parts that
    /// are cleared with it.
    pub open spec fn without_comments(self) -> Self {
        FunctionExpression {
            parameters: typed_identifiers_without_comments(self.parameters),
            generic_parameters: match self.generic_parameters {
                Some(inner) => Some(inner.without_comments()),
                None => None,
            },
            tokens: match self.tokens {
                Some(tokens) => Some(tokens.without_comments()),
                None => None,
            },
            ..self
        }
    }

    /// Takes the comments out of the tokens of this node and of the parts that are
    /// cleared with it. What the node means stays as it is.
    pub fn clear_comments(&mut self)
        ensures
            *final(self) == old(self).without_comments(),
    {
        clear_typed_identifiers_comments(&mut self.parameters);
        match &mut self.generic_parameters {
            Some(inner) => inner.clear_comments(),
            None => {},
        }
        match &mut self.tokens {
            Some(tokens) => tokens.clear_comments(),
            None => {},
        }
    }

    /// Clearing comments a second time changes nothing.
    pub proof fn without_comments_is_idempotent(self)
        ensures
            self.without_comments().without_comments() == self.without_comments(),
    {
        typed_identifiers_without_comments_is_idempotent(self.parameters);
        match self.generic_parameters {
            Some(inner) => inner.without_comments_is_idempotent(),
            None => {},
        }
        match self.tokens {
            Some(tokens) => tokens.without_comments_is_idempotent(),
            None => {},
        }
    }

    /// Clearing comments leaves the depth as it is.
    pub proof fn without_comments_keeps_depth(self)
        ensures
            self.without_comments().depth() == self.depth(),
    {
        typed_identifiers_without_comments_keeps_depth(self.parameters);
    }

    /// Whether no token of this node, nor of anything under it, holds a comment.
    pub open spec fn is_comment_free(self) -> bool
        decreases self,
    {
        &&& self.block.is_comment_free()
        &&& typed_identifiers_are_comment_free(self.parameters)
        &&& match self.variadic_type {
            Some(inner) => inner.is_comment_free(),
            None => true,
        }
        &&& match self.return_type {
            Some(inner) => inner.is_comment_free(),
            None => true,
        }
        &&& match self.generic_parameters {
            Some(inner) => inner.is_comment_free(),
            None => true,
        }
        &&& match self.tokens {
            Some(tokens) => tokens.is_comment_free(),
            None => true,
        }
    }

    /// This node with the comments taken out of every token of it and of everything
    /// under it.
    pub open spec fn stripped(self) -> Self
        decreases self,
    {
        FunctionExpression {
            block: self.block.stripped(),
            parameters: typed_identifiers_stripped(self.parameters),
            variadic_type: match self.variadic_type {
                Some(inner) => Some(inner.stripped()),
                None => None,
            },
            return_type: match self.return_type {
                Some(inner) => Some(inner.stripped()),
                None => None,
            },
            generic_parameters: match self.generic_parameters {
                Some(inner) => Some(inner.stripped()),
                None => None,
            },
            tokens: match self.tokens {
                Some(tokens) => Some(tokens.without_comments()),
                None => None,
            },
            ..self
        }
    }

    /// Taking the comments out of everything makes no difference between a node and the
    /// node cleared.
    pub proof fn stripped_absorbs_clearing(self)
        ensures
            self.without_comments().stripped() == self.stripped(),
    {
        self.without_comments_is_idempotent();
        typed_identifiers_stripped_absorbs_clearing(self.parameters);
        match self.generic_parameters {
            Some(inner) => inner.without_comments_is_idempotent(),
            None => {},
        }
    }

    /// Once the comments are taken out of everything, no token holds a comment.
    pub proof fn stripped_is_comment_free(self)
        ensures
            self.stripped().is_comment_free(),
        decreases self.depth(), 0nat,
    {
        self.block.stripped_is_comment_free();
        typed_identifiers_stripped_are_comment_free(self.parameters);
        match self.variadic_type {
            Some(inner) => inner.stripped_is_comment_free(),
            None => {},
        }
        match self.return_type {
            Some(inner) => inner.stripped_is_comment_free(),
            None => {},
        }
        match self.generic_parameters {
            Some(inner) => inner.stripped_is_comment_free(),
            None => {},
        }
        match self.tokens {
            Some(tokens) => {
                tokens.without_comments_is_idempotent();
                tokens.without_comments().cleared_is_comment_free();
            },
            None => {},
        }
    }

    /// Taking the comments out of everything a second time changes nothing.
    pub proof fn stripped_is_idempotent(self)
        ensures
            self.stripped().stripped() == self.stripped(),
        decreases self.depth(), 0nat,
    {
        self.block.stripped_is_idempotent();
        typed_identifiers_stripped_is_idempotent(self.parameters);
        match self.variadic_type {
            Some(inner) => inner.stripped_is_idempotent(),
            None => {},
        }
        match self.return_type {
            Some(inner) => inner.stripped_is_idempotent(),
            None => {},
        }
        match self.generic_parameters {
            Some(inner) => inner.stripped_is_idempotent(),
            None => {},
        }
        match self.tokens {
            Some(tokens) => tokens.without_comments_is_idempotent(),
            None => {},
        }
    }
}

impl Default for FunctionExpression {
    fn default() -> (node: Self)
        ensures
            node == (FunctionExpression {
                block: Block { statements: NodeList::Empty, last_statement: None, tokens: None },
                parameters: NodeList::Empty,
                is_variadic: false,
                variadic_type: None,
                return_type: None,
                generic_parameters: None,
                tokens: None,
            }),
    {
        FunctionExpression {
            block: Block { statements: NodeList::Empty, last_statement: None, tokens: None },
            parameters: NodeList::Empty,
            is_variadic: false,
            variadic_type: None,
            return_type: None,
            generic_parameters: None,
            tokens: None,
        }
    }
}

} // verus!
