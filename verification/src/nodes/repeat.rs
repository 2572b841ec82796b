use crate::nodes::block::Block;
use crate::nodes::expression::Expression;
use crate::nodes::list::deeper;
use crate::nodes::token::Token;
use vstd::std_specs::convert::IntoSpec;
use vstd::prelude::*;

verus! {

/// A `repeat ... until` loop; its condition reads the scope of its block.
#[derive(Debug, PartialEq, Eq)]
pub struct RepeatStatement {
    pub block: Block,
    pub condition: Expression,
    pub tokens: Option<RepeatTokens>,
}

impl RepeatStatement {
    /// This node with the tokens it was read from.
    pub fn with_tokens(self, tokens: RepeatTokens) -> (node: Self)
        ensures
            node == (RepeatStatement { tokens: Some(tokens), ..self }),
    {
        let mut node = self;
        node.tokens = Some(tokens);
        node
    }

    /// How deep the tree under this node goes.
    pub open spec fn depth(self) -> nat
        decreases self,
    {
        1 + deeper(
            self.block.depth(),
            self.condition.depth(),
        )
    }

    /// This node with every comment taken out of its own tokens.
    pub open spec fn without_comments(self) -> Self {
        RepeatStatement {
            tokens: match self.tokens {
                Some(tokens) => Some(tokens.without_comments()),
                None => None,
            },
            ..self
        }
    }

    /// Takes the comments out of the tokens of this node. What the node means stays as
    /// it is.
    pub fn clear_comments(&mut self)
        ensures
            *final(self) == old(self).without_comments(),
    {
        match &mut self.tokens {
            Some(tokens) => tokens.clear_comments(),
            None => {},
        }
    }

    /// Clearing comments a second time changes nothing.
    pub proof fn without_comments_is_idempotent(self)
        ensures
            self.without_comments().without_comments() == self.without_comments(),
    {
        match self.tokens {
            Some(tokens) => tokens.without_comments_is_idempotent(),
            None => {},
        }
    }

    /// Clearing comments leaves the depth as it is.
    pub proof fn without_comments_keeps_depth(self)
        ensures
            self.without_comments().depth() == self.depth(),
    {
    }

    /// Whether no token of this node, nor of anything under it, holds a comment.
    pub open spec fn is_comment_free(self) -> bool
        decreases self,
    {
        &&& self.block.is_comment_free()
        &&& self.condition.is_comment_free()
        &&& match self.tokens {
            Some(tokens) => tokens.is_comment_free(),
            None => true,
        }
    }

    /// This node with the comments taken out of every token of it and of everything
    /// under it.
    pub open spec fn stripped(self) -> Self
        decreases self,
    {
        RepeatStatement {
            block: self.block.stripped(),
            condition: self.condition.stripped(),
            tokens: match self.tokens {
                Some(tokens) => Some(tokens.without_comments()),
                None => None,
            },
        }
    }

    /// Taking the comments out of everything makes no difference between a node and the
    /// node cleared.
    pub proof fn stripped_absorbs_clearing(self)
        ensures
            self.without_comments().stripped() == self.stripped(),
    {
        self.without_comments_is_idempotent();
    }

    /// Once the comments are taken out of everything, no token holds a comment.
    pub proof fn stripped_is_comment_free(self)
        ensures
            self.stripped().is_comment_free(),
        decreases self.depth(), 0nat,
    {
        self.block.stripped_is_comment_free();
        self.condition.stripped_is_comment_free();
        match self.tokens {
            Some(tokens) => {
                tokens.without_comments_is_idempotent();
                tokens.without_comments().cleared_is_comment_free();
            },
            None => {},
        }
    }

    /// Taking the comments out of everything a second time changes nothing.
    pub proof fn stripped_is_idempotent(self)
        ensures
            self.stripped().stripped() == self.stripped(),
        decreases self.depth(), 0nat,
    {
        self.block.stripped_is_idempotent();
        self.condition.stripped_is_idempotent();
        match self.tokens {
            Some(tokens) => tokens.without_comments_is_idempotent(),
            None => {},
        }
    }
}

/// The tokens of a repeat loop.
#[derive(Debug, PartialEq, Eq)]
pub struct RepeatTokens {
    pub repeat: Token,
    pub until: Token,
}

impl RepeatTokens {
    /// These tokens with every comment taken out of their trivia.
    pub open spec fn without_comments(self) -> Self {
        RepeatTokens {
            repeat: self.repeat.without_comments(),
            until: self.until.without_comments(),
        }
    }

    /// Takes the comments out of the trivia of every token.
    pub fn clear_comments(&mut self)
        ensures
            *final(self) == old(self).without_comments(),
    {
        self.repeat.clear_comments();
        self.until.clear_comments();
    }

    /// Clearing comments a second time changes nothing.
    pub proof fn without_comments_is_idempotent(self)
        ensures
            self.without_comments().without_comments() == self.without_comments(),
    {
        self.repeat.without_comments_is_idempotent();
        self.until.without_comments_is_idempotent();
    }

    /// Whether none of these tokens holds a comment.
    pub open spec fn is_comment_free(self) -> bool {
        &&& self.repeat.is_comment_free()
        &&& self.until.is_comment_free()
    }

    /// Tokens that clearing leaves as they are hold no comment.
    pub proof fn cleared_is_comment_free(self)
        requires
            self.without_comments() == self,
        ensures
            self.is_comment_free(),
    {
        self.repeat.cleared_is_comment_free();
        self.until.cleared_is_comment_free();
    }
}

impl RepeatStatement {
    /// A node built from its parts, without tokens.
    pub fn new<E: Into<Expression>>(block: Block, condition: E) -> (node: Self)
        ensures
            node.block == block,
            call_ensures(<E as Into<Expression>>::into, (condition,), node.condition),
            <E as IntoSpec<Expression>>::obeys_into_spec() ==> node.condition
                == <E as IntoSpec<Expression>>::into_spec(condition),
            node.tokens is None,
    {
        RepeatStatement { block, condition: condition.into(), tokens: None }
    }
}

} // verus!
