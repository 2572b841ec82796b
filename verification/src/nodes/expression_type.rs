use crate::nodes::expression::Expression;
use crate::nodes::token::Token;
use vstd::prelude::*;

verus! {

/// The type of an expression, written `typeof(...)`.
#[derive(Debug, PartialEq, Eq)]
pub struct ExpressionType {
    pub expression: Box<Expression>,
    pub tokens: Option<ExpressionTypeTokens>,
}

impl ExpressionType {
    /// A node built from its parts, without tokens.
    pub fn new(expression: Expression) -> (node: Self)
        ensures
            *node.expression == expression,
            node.tokens is None,
    {
        ExpressionType { expression: Box::new(expression), tokens: None }
    }

    /// This node with the tokens it was read from.
    pub fn with_tokens(self, tokens: ExpressionTypeTokens) -> (node: Self)
        ensures
            node == (ExpressionType { tokens: Some(tokens), ..self }),
    {
        let mut node = self;
        node.tokens = Some(tokens);
        node
    }

    /// How deep the tree under this node goes.
    pub open spec fn depth(self) -> nat
        decreases self,
    {
        1 + self.expression.depth()
    }

    /// This node with every comment taken out of its own tokens.
    pub open spec fn without_comments(self) -> Self {
        ExpressionType {
            tokens: match self.tokens {
                Some(tokens) => Some(tokens.without_comments()),
                None => None,
            },
            ..self
        }
    }

    /// Takes the comments out of the tokens of this node. What the node means stays as
    /// it is.
    pub fn clear_comments(&mut self)
        ensures
            *final(self) == old(self).without_comments(),
    {
        match &mut self.tokens {
            Some(tokens) => tokens.clear_comments(),
            None => {},
        }
    }

    /// Clearing comments a second time changes nothing.
    pub proof fn without_comments_is_idempotent(self)
        ensures
            self.without_comments().without_comments() == self.without_comments(),
    {
        match self.tokens {
            Some(tokens) => tokens.without_comments_is_idempotent(),
            None => {},
        }
    }

    /// Clearing comments leaves the depth as it is.
    pub proof fn without_comments_keeps_depth(self)
        ensures
            self.without_comments().depth() == self.depth(),
    {
    }

    /// Whether no token of this node, nor of anything under it, holds a comment.
    pub open spec fn is_comment_free(self) -> bool
        decreases self,
    {
        &&& self.expression.is_comment_free()
        &&& match self.tokens {
            Some(tokens) => tokens.is_comment_free(),
            None => true,
        }
    }

    /// This node with the comments taken out of every token of it and of everything
    /// under it.
    pub open spec fn stripped(self) -> Self
        decreases self,
    {
        ExpressionType {
            expression: Box::new(self.expression.stripped()),
            tokens: match self.tokens {
                Some(tokens) => Some(tokens.without_comments()),
                None => None,
            },
        }
    }

    /// Taking the comments out of everything makes no difference between a node and the
    /// node cleared.
    pub proof fn stripped_absorbs_clearing(self)
        ensures
            self.without_comments().stripped() == self.stripped(),
    {
        self.without_comments_is_idempotent();
    }

    /// Once the comments are taken out of everything, no token holds a comment.
    pub proof fn stripped_is_comment_free(self)
        ensures
            self.stripped().is_comment_free(),
        decreases self.depth(), 0nat,
    {
        self.expression.stripped_is_comment_free();
        match self.tokens {
            Some(tokens) => {
                tokens.without_comments_is_idempotent();
                tokens.without_comments().cleared_is_comment_free();
            },
            None => {},
        }
    }

    /// Taking the comments out of everything a second time changes nothing.
    pub proof fn stripped_is_idempotent(self)
        ensures
            self.stripped().stripped() == self.stripped(),
        decreases self.depth(), 0nat,
    {
        self.expression.stripped_is_idempotent();
        match self.tokens {
            Some(tokens) => tokens.without_comments_is_idempotent(),
            None => {},
        }
    }
}

/// The tokens of a `typeof` type.
#[derive(Debug, PartialEq, Eq)]
pub struct ExpressionTypeTokens {
    pub typeof_token: Token,
    pub opening_parenthese: Token,
    pub closing_parenthese: Token,
}

impl ExpressionTypeTokens {
    /// These tokens with every comment taken out of their trivia.
    pub open spec fn without_comments(self) -> Self {
        ExpressionTypeTokens {
            typeof_token: self.typeof_token.without_comments(),
            opening_parenthese: self.opening_parenthese.without_comments(),
            closing_parenthese: self.closing_parenthese.without_comments(),
        }
    }

    /// Takes the comments out of the trivia of every token.
    pub fn clear_comments(&mut self)
        ensures
            *final(self) == old(self).without_comments(),
    {
        self.typeof_token.clear_comments();
        self.opening_parenthese.clear_comments();
        self.closing_parenthese.clear_comments();
    }

    /// Clearing comments a second time changes nothing.
    pub proof fn without_comments_is_idempotent(self)
        ensures
            self.without_comments().without_comments() == self.without_comments(),
    {
        self.typeof_token.without_comments_is_idempotent();
        self.opening_parenthese.without_comments_is_idempotent();
        self.closing_parenthese.without_comments_is_idempotent();
    }

    /// Whether none of these tokens holds a comment.
    pub open spec fn is_comment_free(self) -> bool {
        &&& self.typeof_token.is_comment_free()
        &&& self.opening_parenthese.is_comment_free()
        &&& self.closing_parenthese.is_comment_free()
    }

    /// Tokens that clearing leaves as they are hold no comment.
    pub proof fn cleared_is_comment_free(self)
        requires
            self.without_comments() == self,
        ensures
            self.is_comment_free(),
    {
        self.typeof_token.cleared_is_comment_free();
        self.opening_parenthese.cleared_is_comment_free();
        self.closing_parenthese.cleared_is_comment_free();
    }
}

} // verus!
