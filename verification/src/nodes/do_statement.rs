use crate::nodes::block::Block;
use crate::nodes::list::NodeList;
use crate::nodes::token::Token;
use vstd::prelude::*;

verus! {

/// A `do ... end` block.
#[derive(Debug, PartialEq, Eq)]
pub struct DoStatement {
    pub block: Block,
    pub tokens: Option<DoTokens>,
}

impl DoStatement {
    /// A node built from its parts, without tokens.
    pub fn new(block: Block) -> (node: Self)
        ensures
            node.block == block,
            node.tokens is None,
    {
        DoStatement { block, tokens: None }
    }

    /// This node with the tokens it was read from.
    pub fn with_tokens(self, tokens: DoTokens) -> (node: Self)
        ensures
            node == (DoStatement { tokens: Some(tokens), ..self }),
    {
        let mut node = self;
        node.tokens = Some(tokens);
        node
    }

    /// How deep the tree under this node goes.
    pub open spec fn depth(self) -> nat
        decreases self,
    {
        1 + self.block.depth()
    }

    /// This node with every comment taken out of its own tokens.
    pub open spec fn without_comments(self) -> Self {
        DoStatement {
            tokens: match self.tokens {
                Some(tokens) => Some(tokens.without_comments()),
                None => None,
            },
            ..self
        }
    }

    /// Takes the comments out of the tokens of this node. What the node means stays as
    /// it is.
    pub fn clear_comments(&mut self)
        ensures
            *final(self) == old(self).without_comments(),
    {
        match &mut self.tokens {
            Some(tokens) => tokens.clear_comments(),
            None => {},
        }
    }

    /// Clearing comments a second time changes nothing.
    pub proof fn without_comments_is_idempotent(self)
        ensures
            self.without_comments().without_comments() == self.without_comments(),
    {
        match self.tokens {
            Some(tokens) => tokens.without_comments_is_idempotent(),
            None => {},
        }
    }

    /// Clearing comments leaves the depth as it is.
    pub proof fn without_comments_keeps_depth(self)
        ensures
            self.without_comments().depth() == self.depth(),
    {
    }

    /// Whether no token of this node, nor of anything under it, holds a comment.
    pub open spec fn is_comment_free(self) -> bool
        decreases self,
    {
        &&& self.block.is_comment_free()
        &&& match self.tokens {
            Some(tokens) => tokens.is_comment_free(),
            None => true,
        }
    }

    /// This node with the comments taken out of every token of it and of everything
    /// under it.
    pub open spec fn stripped(self) -> Self
        decreases self,
    {
        DoStatement {
            block: self.block.stripped(),
            tokens: match self.tokens {
                Some(tokens) => Some(tokens.without_comments()),
                None => None,
            },
        }
    }

    /// Taking the comments out of everything makes no difference between a node and the
    /// node cleared.
    pub proof fn stripped_absorbs_clearing(self)
        ensures
            self.without_comments().stripped() == self.stripped(),
    {
        self.without_comments_is_idempotent();
    }

    /// Once the comments are taken out of everything, no token holds a comment.
    pub proof fn stripped_is_comment_free(self)
        ensures
            self.stripped().is_comment_free(),
        decreases self.depth(), 0nat,
    {
        self.block.stripped_is_comment_free();
        match self.tokens {
            Some(tokens) => {
                tokens.without_comments_is_idempotent();
                tokens.without_comments().cleared_is_comment_free();
            },
            None => {},
        }
    }

    /// Taking the comments out of everything a second time changes nothing.
    pub proof fn stripped_is_idempotent(self)
        ensures
            self.stripped().stripped() == self.stripped(),
        decreases self.depth(), 0nat,
    {
        self.block.stripped_is_idempotent();
        match self.tokens {
            Some(tokens) => tokens.without_comments_is_idempotent(),
            None => {},
        }
    }
}

impl Default for DoStatement {
    fn default() -> (node: Self)
        ensures
            node == (DoStatement {
                block: Block { statements: NodeList::Empty, last_statement: None, tokens: None },
                tokens: None,
            }),
    {
        DoStatement {
            block: Block { statements: NodeList::Empty, last_statement: None, tokens: None },
            tokens: None,
        }
    }
}

/// The tokens of a do statement.
#[derive(Debug, PartialEq, Eq)]
pub struct DoTokens {
    pub do_token: Token,
    pub end: Token,
}

impl DoTokens {
    /// These tokens with every comment taken out of their trivia.
    pub open spec fn without_comments(self) -> Self {
        DoTokens {
            do_token: self.do_token.without_comments(),
            end: self.end.without_comments(),
        }
    }

    /// Takes the comments out of the trivia of every token.
    pub fn clear_comments(&mut self)
        ensures
            *final(self) == old(self).without_comments(),
    {
        self.do_token.clear_comments();
        self.end.clear_comments();
    }

    /// Clearing comments a second time changes nothing.
    pub proof fn without_comments_is_idempotent(self)
        ensures
            self.without_comments().without_comments() == self.without_comments(),
    {
        self.do_token.without_comments_is_idempotent();
        self.end.without_comments_is_idempotent();
    }

    /// Whether none of these tokens holds a comment.
    pub open spec fn is_comment_free(self) -> bool {
        &&& self.do_token.is_comment_free()
        &&& self.end.is_comment_free()
    }

    /// Tokens that clearing leaves as they are hold no comment.
    pub proof fn cleared_is_comment_free(self)
        requires
            self.without_comments() == self,
        ensures
            self.is_comment_free(),
    {
        self.do_token.cleared_is_comment_free();
        self.end.cleared_is_comment_free();
    }
}

} // verus!
