use crate::nodes::block::Block;
use crate::nodes::expression::Expression;
use crate::nodes::list::deeper;
use crate::nodes::token::Token;
use vstd::std_specs::convert::IntoSpec;
use vstd::prelude::*;

verus! {

/// A `while` loop.
#[derive(Debug, PartialEq, Eq)]
pub struct WhileStatement {
    pub block: Block,
    pub condition: Expression,
    pub tokens: Option<WhileTokens>,
}

impl WhileStatement {
    /// This node with the tokens it was read from.
    pub fn with_tokens(self, tokens: WhileTokens) -> (node: Self)
        ensures
            node == (WhileStatement { tokens: Some(tokens), ..self }),
    {
        let mut node = self;
        node.tokens = Some(tokens);
        node
    }

    /// How deep the tree under this node goes.
    pub open spec fn depth(self) -> nat
        decreases self,
    {
        1 + deeper(
            self.block.depth(),
            self.condition.depth(),
        )
    }

    /// This node with every comment taken out of its own tokens.
    pub open spec fn without_comments(self) -> Self {
        WhileStatement {
            tokens: match self.tokens {
                Some(tokens) => Some(tokens.without_comments()),
                None => None,
            },
            ..self
        }
    }

    /// Takes the comments out of the tokens of this node. What the node means stays as
    /// it is.
    pub fn clear_comments(&mut self)
        ensures
            *final(self) == old(self).without_comments(),
    {
        match &mut self.tokens {
            Some(tokens) => tokens.clear_comments(),
            None => {},
        }
    }

    /// Clearing comments a second time changes nothing.
    pub proof fn without_comments_is_idempotent(self)
        ensures
            self.without_comments().without_comments() == self.without_comments(),
    {
        match self.tokens {
            Some(tokens) => tokens.without_comments_is_idempotent(),
            None => {},
        }
    }

    /// Clearing comments leaves the depth as it is.
    pub proof fn without_comments_keeps_depth(self)
        ensures
            self.without_comments().depth() == self.depth(),
    {
    }

    /// Whether no token of this node, nor of anything under it, holds a comment.
    pub open spec fn is_comment_free(self) -> bool
        decreases self,
    {
        &&& self.block.is_comment_free()
        &&& self.condition.is_comment_free()
        &&& match self.tokens {
            Some(tokens) => tokens.is_comment_free(),
            None => true,
        }
    }

    /// This node with the comments taken out of every token of it and of everything
    /// under it.
    pub open spec fn stripped(self) -> Self
        decreases self,
    {
        WhileStatement {
            block: self.block.stripped(),
            condition: self.condition.stripped(),
            tokens: match self.tokens {
                Some(tokens) => Some(tokens.without_comments()),
                None => None,
            },
        }
    }

    /// Taking the comments out of everything makes no difference between a node and the
    /// node cleared.
    pub proof fn stripped_absorbs_clearing(self)
        ensures
            self.without_comments().stripped() == self.stripped(),
    {
        self.without_comments_is_idempotent();
    }

    /// Once the comments are taken out of everything, no token holds a comment.
    pub proof fn stripped_is_comment_free(self)
        ensures
            self.stripped().is_comment_free(),
        decreases self.depth(), 0nat,
    {
        self.block.stripped_is_comment_free();
        self.condition.stripped_is_comment_free();
        match self.tokens {
            Some(tokens) => {
                tokens.without_comments_is_idempotent();
                tokens.without_comments().cleared_is_comment_free();
            },
            None => {},
        }
    }

    /// Taking the comments out of everything a second time changes nothing.
    pub proof fn stripped_is_idempotent(self)
        ensures
            self.stripped().stripped() == self.stripped(),
        decreases self.depth(), 0nat,
    {
        self.block.stripped_is_idempotent();
        self.condition.stripped_is_idempotent();
        match self.tokens {
            Some(tokens) => tokens.without_comments_is_idempotent(),
            None => {},
        }
    }
}

/// The tokens of a while loop.
#[derive(Debug, PartialEq, Eq)]
pub struct WhileTokens {
    pub while_token: Token,
    pub do_token: Token,
    pub end: Token,
}

impl WhileTokens {
    /// These tokens with every comment taken out of their trivia.
    pub open spec fn without_comments(self) -> Self {
        WhileTokens {
            while_token: self.while_token.without_comments(),
            do_token: self.do_token.without_comments(),
            end: self.end.without_comments(),
        }
    }

    /// Takes the comments out of the trivia of every token.
    pub fn clear_comments(&mut self)
        ensures
            *final(self) == old(self).without_comments(),
    {
        self.while_token.clear_comments();
        self.do_token.clear_comments();
        self.end.clear_comments();
    }

    /// Clearing comments a second time changes nothing.
    pub proof fn without_comments_is_idempotent(self)
        ensures
            self.without_comments().without_comments() == self.without_comments(),
    {
        self.while_token.without_comments_is_idempotent();
        self.do_token.without_comments_is_idempotent();
        self.end.without_comments_is_idempotent();
    }

    /// Whether none of these tokens holds a comment.
    pub open spec fn is_comment_free(self) -> bool {
        &&& self.while_token.is_comment_free()
        &&& self.do_token.is_comment_free()
        &&& self.end.is_comment_free()
    }

    /// Tokens that clearing leaves as they are hold no comment.
    pub proof fn cleared_is_comment_free(self)
        requires
            self.without_comments() == self,
        ensures
            self.is_comment_free(),
    {
        self.while_token.cleared_is_comment_free();
        self.do_token.cleared_is_comment_free();
        self.end.cleared_is_comment_free();
    }
}

impl WhileStatement {
    /// A node built from its parts, without tokens.
    pub fn new<E: Into<Expression>>(block: Block, condition: E) -> (node: Self)
        ensures
            node.block == block,
            call_ensures(<E as Into<Expression>>::into, (condition,), node.condition),
            <E as IntoSpec<Expression>>::obeys_into_spec() ==> node.condition
                == <E as IntoSpec<Expression>>::into_spec(condition),
            node.tokens is None,
    {
        WhileStatement { block, condition: condition.into(), tokens: None }
    }
}

} // verus!
