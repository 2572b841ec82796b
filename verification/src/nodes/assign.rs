use crate::nodes::expression::{
    Expression, expressions_are_comment_free, expressions_depth, expressions_stripped,
    expressions_stripped_are_comment_free, expressions_stripped_is_idempotent,
};
use crate::nodes::list::{NodeList, deeper};
use crate::nodes::token::{
    Token, clear_tokens_comments, cleared_tokens_are_comment_free, tokens_are_comment_free,
    tokens_without_comments, tokens_without_comments_is_idempotent,
};
use crate::nodes::variable::{
    Variable, variables_are_comment_free, variables_depth, variables_stripped,
    variables_stripped_are_comment_free, variables_stripped_is_idempotent,
};
use vstd::prelude::*;

verus! {

/// An assignment of values to variables.
#[derive(Debug, PartialEq, Eq)]
pub struct AssignStatement {
    pub variables: NodeList<Variable>,
    pub values: NodeList<Expression>,
    pub tokens: Option<AssignTokens>,
}

impl AssignStatement {
    /// A node built from its parts, without tokens.
    pub fn new(variables: Vec<Variable>, values: Vec<Expression>) -> (node: Self)
        ensures
            node.variables@ == variables@,
            node.values@ == values@,
            node.tokens is None,
    {
        AssignStatement {
            variables: NodeList::from_vec(variables),
            values: NodeList::from_vec(values),
            tokens: None,
        }
    }

    /// This node with the tokens it was read from.
    pub fn with_tokens(self, tokens: AssignTokens) -> (node: Self)
        ensures
            node == (AssignStatement { tokens: Some(tokens), ..self }),
    {
        let mut node = self;
        node.tokens = Some(tokens);
        node
    }

    /// How deep the tree under this node goes.
    pub open spec fn depth(self) -> nat
        decreases self,
    {
        1 + deeper(
            variables_depth(self.variables),
            expressions_depth(self.values),
        )
    }

    /// This node with every comment taken out of its own tokens.
    pub open spec fn without_comments(self) -> Self {
        AssignStatement {
            tokens: match self.tokens {
                Some(tokens) => Some(tokens.without_comments()),
                None => None,
            },
            ..self
        }
    }

    /// Takes the comments out of the tokens of this node. What the node means stays as
    /// it is.
    pub fn clear_comments(&mut self)
        ensures
            *final(self) == old(self).without_comments(),
    {
        match &mut self.tokens {
            Some(tokens) => tokens.clear_comments(),
            None => {},
        }
    }

    /// Clearing comments a second time changes nothing.
    pub proof fn without_comments_is_idempotent(self)
        ensures
            self.without_comments().without_comments() == self.without_comments(),
    {
        match self.tokens {
            Some(tokens) => tokens.without_comments_is_idempotent(),
            None => {},
        }
    }

    /// Clearing comments leaves the depth as it is.
    pub proof fn without_comments_keeps_depth(self)
        ensures
            self.without_comments().depth() == self.depth(),
    {
    }

    /// Whether no token of this node, nor of anything under it, holds a comment.
    pub open spec fn is_comment_free(self) -> bool
        decreases self,
    {
        &&& variables_are_comment_free(self.variables)
        &&& expressions_are_comment_free(self.values)
        &&& match self.tokens {
            Some(tokens) => tokens.is_comment_free(),
            None => true,
        }
    }

    /// This node with the comments taken out of every token of it and of everything
    /// under it.
    pub open spec fn stripped(self) -> Self
        decreases self,
    {
        AssignStatement {
            variables: variables_stripped(self.variables),
            values: expressions_stripped(self.values),
            tokens: match self.tokens {
                Some(tokens) => Some(tokens.without_comments()),
                None => None,
            },
        }
    }

    /// Taking the comments out of everything makes no difference between a node and the
    /// node cleared.
    pub proof fn stripped_absorbs_clearing(self)
        ensures
            self.without_comments().stripped() == self.stripped(),
    {
        self.without_comments_is_idempotent();
    }

    /// Once the comments are taken out of everything, no token holds a comment.
    pub proof fn stripped_is_comment_free(self)
        ensures
            self.stripped().is_comment_free(),
        decreases self.depth(), 0nat,
    {
        variables_stripped_are_comment_free(self.variables);
        expressions_stripped_are_comment_free(self.values);
        match self.tokens {
            Some(tokens) => {
                tokens.without_comments_is_idempotent();
                tokens.without_comments().cleared_is_comment_free();
            },
            None => {},
        }
    }

    /// Taking the comments out of everything a second time changes nothing.
    pub proof fn stripped_is_idempotent(self)
        ensures
            self.stripped().stripped() == self.stripped(),
        decreases self.depth(), 0nat,
    {
        variables_stripped_is_idempotent(self.variables);
        expressions_stripped_is_idempotent(self.values);
        match self.tokens {
            Some(tokens) => tokens.without_comments_is_idempotent(),
            None => {},
        }
    }
}

/// The tokens of an assignment.
#[derive(Debug, PartialEq, Eq)]
pub struct AssignTokens {
    pub equal: Token,
    pub variable_commas: NodeList<Token>,
    pub value_commas: NodeList<Token>,
}

impl AssignTokens {
    /// These tokens with every comment taken out of their trivia.
    pub open spec fn without_comments(self) -> Self {
        AssignTokens {
            equal: self.equal.without_comments(),
            variable_commas: tokens_without_comments(self.variable_commas),
            value_commas: tokens_without_comments(self.value_commas),
        }
    }

    /// Takes the comments out of the trivia of every token.
    pub fn clear_comments(&mut self)
        ensures
            *final(self) == old(self).without_comments(),
    {
        self.equal.clear_comments();
        clear_tokens_comments(&mut self.variable_commas);
        clear_tokens_comments(&mut self.value_commas);
    }

    /// Clearing comments a second time changes nothing.
    pub proof fn without_comments_is_idempotent(self)
        ensures
            self.without_comments().without_comments() == self.without_comments(),
    {
        self.equal.without_comments_is_idempotent();
        tokens_without_comments_is_idempotent(self.variable_commas);
        tokens_without_comments_is_idempotent(self.value_commas);
    }

    /// Whether none of these tokens holds a comment.
    pub open spec fn is_comment_free(self) -> bool {
        &&& self.equal.is_comment_free()
        &&& tokens_are_comment_free(self.variable_commas)
        &&& tokens_are_comment_free(self.value_commas)
    }

    /// Tokens that clearing leaves as they are hold no comment.
    pub proof fn cleared_is_comment_free(self)
        requires
            self.without_comments() == self,
        ensures
            self.is_comment_free(),
    {
        self.equal.cleared_is_comment_free();
        cleared_tokens_are_comment_free(self.variable_commas);
        cleared_tokens_are_comment_free(self.value_commas);
    }
}

} // verus!
