use crate::nodes::block::Block;
use crate::nodes::expression::Expression;
use crate::nodes::identifier::TypedIdentifier;
use crate::nodes::list::deeper;
use crate::nodes::token::{
    Token, clear_optional_token_comments, cleared_optional_token_is_comment_free,
    optional_token_is_comment_free, optional_token_without_comments,
    optional_token_without_comments_is_idempotent,
};
use vstd::std_specs::convert::IntoSpec;
use vstd::prelude::*;

verus! {

/// A `for` loop over a numeric range.
#[derive(Debug, PartialEq, Eq)]
pub struct NumericForStatement {
    pub identifier: TypedIdentifier,
    pub start: Expression,
    pub end: Expression,
    pub step: Option<Expression>,
    pub block: Block,
    pub tokens: Option<NumericForTokens>,
}

impl NumericForStatement {
    /// This node with the tokens it was read from.
    pub fn with_tokens(self, tokens: NumericForTokens) -> (node: Self)
        ensures
            node == (NumericForStatement { tokens: Some(tokens), ..self }),
    {
        let mut node = self;
        node.tokens = Some(tokens);
        node
    }

    /// How deep the tree under this node goes.
    pub open spec fn depth(self) -> nat
        decreases self,
    {
        1 + deeper(
            self.identifier.depth(),
            deeper(
                self.start.depth(),
                deeper(
                    self.end.depth(),
                    deeper(
                        match self.step {
                            Some(inner) => inner.depth(),
                            None => 0,
                        },
                        self.block.depth(),
                    ),
                ),
            ),
        )
    }

    /// This node with every comment taken out of its own tokens and of the parts that
    /// are cleared with it.
    pub open spec fn without_comments(self) -> Self {
        NumericForStatement {
            identifier: self.identifier.without_comments(),
            tokens: match self.tokens {
                Some(tokens) => Some(tokens.without_comments()),
                None => None,
            },
            ..self
        }
    }

    /// Takes the comments out of the tokens of this node and of the parts that are
    /// cleared with it. What the node means stays as it is.
    pub fn clear_comments(&mut self)
        ensures
            *final(self) == old(self).without_comments(),
    {
        self.identifier.clear_comments();
        match &mut self.tokens {
            Some(tokens) => tokens.clear_comments(),
            None => {},
        }
    }

    /// Clearing comments a second time changes nothing.
    pub proof fn without_comments_is_idempotent(self)
        ensures
            self.without_comments().without_comments() == self.without_comments(),
    {
        self.identifier.without_comments_is_idempotent();
        match self.tokens {
            Some(tokens) => tokens.without_comments_is_idempotent(),
            None => {},
        }
    }

    /// Clearing comments leaves the depth as it is.
    pub proof fn without_comments_keeps_depth(self)
        ensures
            self.without_comments().depth() == self.depth(),
    {
        self.identifier.without_comments_keeps_depth();
    }

    /// Whether no token of this node, nor of anything under it, holds a comment.
    pub open spec fn is_comment_free(self) -> bool
        decreases self,
    {
        &&& self.identifier.is_comment_free()
        &&& self.start.is_comment_free()
        &&& self.end.is_comment_free()
        &&& match self.step {
            Some(inner) => inner.is_comment_free(),
            None => true,
        }
        &&& self.block.is_comment_free()
        &&& match self.tokens {
            Some(tokens) => tokens.is_comment_free(),
            None => true,
        }
    }

    /// This node with the comments taken out of every token of it and of everything
    /// under it.
    pub open spec fn stripped(self) -> Self
        decreases self,
    {
        NumericForStatement {
            identifier: self.identifier.stripped(),
            start: self.start.stripped(),
            end: self.end.stripped(),
            step: match self.step {
                Some(inner) => Some(inner.stripped()),
                None => None,
            },
            block: self.block.stripped(),
            tokens: match self.tokens {
                Some(tokens) => Some(tokens.without_comments()),
                None => None,
            },
        }
    }

    /// Taking the comments out of everything makes no difference between a node and the
    /// node cleared.
    pub proof fn stripped_absorbs_clearing(self)
        ensures
            self.without_comments().stripped() == self.stripped(),
    {
        self.without_comments_is_idempotent();
        self.identifier.stripped_absorbs_clearing();
    }

    /// Once the comments are taken out of everything, no token holds a comment.
    pub proof fn stripped_is_comment_free(self)
        ensures
            self.stripped().is_comment_free(),
        decreases self.depth(), 0nat,
    {
        self.identifier.stripped_is_comment_free();
        self.start.stripped_is_comment_free();
        self.end.stripped_is_comment_free();
        match self.step {
            Some(inner) => inner.stripped_is_comment_free(),
            None => {},
        }
        self.block.stripped_is_comment_free();
        match self.tokens {
            Some(tokens) => {
                tokens.without_comments_is_idempotent();
                tokens.without_comments().cleared_is_comment_free();
            },
            None => {},
        }
    }

    /// Taking the comments out of everything a second time changes nothing.
    pub proof fn stripped_is_idempotent(self)
        ensures
            self.stripped().stripped() == self.stripped(),
        decreases self.depth(), 0nat,
    {
        self.identifier.stripped_is_idempotent();
        self.start.stripped_is_idempotent();
        self.end.stripped_is_idempotent();
        match self.step {
            Some(inner) => inner.stripped_is_idempotent(),
            None => {},
        }
        self.block.stripped_is_idempotent();
        match self.tokens {
            Some(tokens) => tokens.without_comments_is_idempotent(),
            None => {},
        }
    }
}

/// The tokens of a numeric for loop.
#[derive(Debug, PartialEq, Eq)]
pub struct NumericForTokens {
    pub for_token: Token,
    pub equal: Token,
    pub do_token: Token,
    pub end: Token,
    pub end_comma: Token,
    pub step_comma: Option<Token>,
}

impl NumericForTokens {
    /// These tokens with every comment taken out of their trivia.
    pub open spec fn without_comments(self) -> Self {
        NumericForTokens {
            for_token: self.for_token.without_comments(),
            equal: self.equal.without_comments(),
            do_token: self.do_token.without_comments(),
            end: self.end.without_comments(),
            end_comma: self.end_comma.without_comments(),
            step_comma: optional_token_without_comments(self.step_comma),
        }
    }

    /// Takes the comments out of the trivia of every token.
    pub fn clear_comments(&mut self)
        ensures
            *final(self) == old(self).without_comments(),
    {
        self.for_token.clear_comments();
        self.equal.clear_comments();
        self.do_token.clear_comments();
        self.end.clear_comments();
        self.end_comma.clear_comments();
        clear_optional_token_comments(&mut self.step_comma);
    }

    /// Clearing comments a second time changes nothing.
    pub proof fn without_comments_is_idempotent(self)
        ensures
            self.without_comments().without_comments() == self.without_comments(),
    {
        self.for_token.without_comments_is_idempotent();
        self.equal.without_comments_is_idempotent();
        self.do_token.without_comments_is_idempotent();
        self.end.without_comments_is_idempotent();
        self.end_comma.without_comments_is_idempotent();
        optional_token_without_comments_is_idempotent(self.step_comma);
    }

    /// Whether none of these tokens holds a comment.
    pub open spec fn is_comment_free(self) -> bool {
        &&& self.for_token.is_comment_free()
        &&& self.equal.is_comment_free()
        &&& self.do_token.is_comment_free()
        &&& self.end.is_comment_free()
        &&& self.end_comma.is_comment_free()
        &&& optional_token_is_comment_free(self.step_comma)
    }

    /// Tokens that clearing leaves as they are hold no comment.
    pub proof fn cleared_is_comment_free(self)
        requires
            self.without_comments() == self,
        ensures
            self.is_comment_free(),
    {
        self.for_token.cleared_is_comment_free();
        self.equal.cleared_is_comment_free();
        self.do_token.cleared_is_comment_free();
        self.end.cleared_is_comment_free();
        self.end_comma.cleared_is_comment_free();
        cleared_optional_token_is_comment_free(self.step_comma);
    }
}

impl NumericForStatement {
    /// A node built from its parts, without tokens.
    pub fn new<I: Into<TypedIdentifier>>(
        identifier: I,
        start: Expression,
        end: Expression,
        step: Option<Expression>,
        block: Block,
    ) -> (node: Self)
        ensures
            call_ensures(<I as Into<TypedIdentifier>>::into, (identifier,), node.identifier),
            <I as IntoSpec<TypedIdentifier>>::obeys_into_spec() ==> node.identifier
                == <I as IntoSpec<TypedIdentifier>>::into_spec(identifier),
            node.start == start,
            node.end == end,
            node.step == step,
            node.block == block,
            node.tokens is None,
    {
        NumericForStatement { identifier: identifier.into(), start, end, step, block, tokens: None }
    }
}

} // verus!
