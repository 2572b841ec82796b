use crate::nodes::block::Block;
use crate::nodes::expression::{
    Expression, expressions_are_comment_free, expressions_depth, expressions_stripped,
    expressions_stripped_are_comment_free, expressions_stripped_is_idempotent,
};
use crate::nodes::identifier::{
    TypedIdentifier, clear_typed_identifiers_comments, typed_identifiers_are_comment_free,
    typed_identifiers_depth, typed_identifiers_stripped,
    typed_identifiers_stripped_absorbs_clearing, typed_identifiers_stripped_are_comment_free,
    typed_identifiers_stripped_is_idempotent, typed_identifiers_without_comments,
    typed_identifiers_without_comments_is_idempotent,
    typed_identifiers_without_comments_keeps_depth,
};
use crate::nodes::list::{NodeList, deeper};
use crate::nodes::token::{
    Token, clear_tokens_comments, cleared_tokens_are_comment_free, tokens_are_comment_free,
    tokens_without_comments, tokens_without_comments_is_idempotent,
};
use vstd::prelude::*;

verus! {

/// A `for ... in ...` loop.
#[derive(Debug, PartialEq, Eq)]
pub struct GenericForStatement {
    pub identifiers: NodeList<TypedIdentifier>,
    pub expressions: NodeList<Expression>,
    pub block: Block,
    pub tokens: Option<GenericForTokens>,
}

impl GenericForStatement {
    /// A node built from its parts, without tokens.
    pub fn new(
        identifiers: Vec<TypedIdentifier>,
        expressions: Vec<Expression>,
        block: Block,
    ) -> (node: Self)
        ensures
            node.identifiers@ == identifiers@,
            node.expressions@ == expressions@,
            node.block == block,
            node.tokens is None,
    {
        GenericForStatement {
            identifiers: NodeList::from_vec(identifiers),
            expressions: NodeList::from_vec(expressions),
            block,
            tokens: None,
        }
    }

    /// This node with the tokens it was read from.
    pub fn with_tokens(self, tokens: GenericForTokens) -> (node: Self)
        ensures
            node == (GenericForStatement { tokens: Some(tokens), ..self }),
    {
        let mut node = self;
        node.tokens = Some(tokens);
        node
    }

    /// How deep the tree under this node goes.
    pub open spec fn depth(self) -> nat
        decreases self,
    {
        1 + deeper(
            typed_identifiers_depth(self.identifiers),
            deeper(
                expressions_depth(self.expressions),
                self.block.depth(),
            ),
        )
    }

    /// This node with every comment taken out of its own tokens and of the parts that
    /// are cleared with it.
    pub open spec fn without_comments(self) -> Self {
        GenericForStatement {
            identifiers: typed_identifiers_without_comments(self.identifiers),
            tokens: match self.tokens {
                Some(tokens) => Some(tokens.without_comments()),
                None => None,
            },
            ..self
        }
    }

    /// Takes the comments out of the tokens of this node and of the parts that are
    /// cleared with it. What the node means stays as it is.
    pub fn clear_comments(&mut self)
        ensures
            *final(self) == old(self).without_comments(),
    {
        clear_typed_identifiers_comments(&mut self.identifiers);
        match &mut self.tokens {
            Some(tokens) => tokens.clear_comments(),
            None => {},
        }
    }

    /// Clearing comments a second time changes nothing.
    pub proof fn without_comments_is_idempotent(self)
        ensures
            self.without_comments().without_comments() == self.without_comments(),
    {
        typed_identifiers_without_comments_is_idempotent(self.identifiers);
        match self.tokens {
            Some(tokens) => tokens.without_comments_is_idempotent(),
            None => {},
        }
    }

    /// Clearing comments leaves the depth as it is.
    pub proof fn without_comments_keeps_depth(self)
        ensures
            self.without_comments().depth() == self.depth(),
    {
        typed_identifiers_without_comments_keeps_depth(self.identifiers);
    }

    /// Whether no token of this node, nor of anything under it, holds a comment.
    pub open spec fn is_comment_free(self) -> bool
        decreases self,
    {
        &&& typed_identifiers_are_comment_free(self.identifiers)
        &&& expressions_are_comment_free(self.expressions)
        &&& self.block.is_comment_free()
        &&& match self.tokens {
            Some(tokens) => tokens.is_comment_free(),
            None => true,
        }
    }

    /// This node with the comments taken out of every token of it and of everything
    /// under it.
    pub open spec fn stripped(self) -> Self
        decreases self,
    {
        GenericForStatement {
            identifiers: typed_identifiers_stripped(self.identifiers),
            expressions: expressions_stripped(self.expressions),
            block: self.block.stripped(),
            tokens: match self.tokens {
                Some(tokens) => Some(tokens.without_comments()),
                None => None,
            },
        }
    }

    /// Taking the comments out of everything makes no difference between a node and the
    /// node cleared.
    pub proof fn stripped_absorbs_clearing(self)
        ensures
            self.without_comments().stripped() == self.stripped(),
    {
        self.without_comments_is_idempotent();
        typed_identifiers_stripped_absorbs_clearing(self.identifiers);
    }

    /// Once the comments are taken out of everything, no token holds a comment.
    pub proof fn stripped_is_comment_free(self)
        ensures
            self.stripped().is_comment_free(),
        decreases self.depth(), 0nat,
    {
        typed_identifiers_stripped_are_comment_free(self.identifiers);
        expressions_stripped_are_comment_free(self.expressions);
        self.block.stripped_is_comment_free();
        match self.tokens {
            Some(tokens) => {
                tokens.without_comments_is_idempotent();
                tokens.without_comments().cleared_is_comment_free();
            },
            None => {},
        }
    }

    /// Taking the comments out of everything a second time changes nothing.
    pub proof fn stripped_is_idempotent(self)
        ensures
            self.stripped().stripped() == self.stripped(),
        decreases self.depth(), 0nat,
    {
        typed_identifiers_stripped_is_idempotent(self.identifiers);
        expressions_stripped_is_idempotent(self.expressions);
        self.block.stripped_is_idempotent();
        match self.tokens {
            Some(tokens) => tokens.without_comments_is_idempotent(),
            None => {},
        }
    }
}

/// The tokens of a generic for loop.
#[derive(Debug, PartialEq, Eq)]
pub struct GenericForTokens {
    pub for_token: Token,
    pub in_token: Token,
    pub do_token: Token,
    pub end: Token,
    pub identifier_commas: NodeList<Token>,
    pub value_commas: NodeList<Token>,
}

impl GenericForTokens {
    /// These tokens with every comment taken out of their trivia.
    pub open spec fn without_comments(self) -> Self {
        GenericForTokens {
            for_token: self.for_token.without_comments(),
            in_token: self.in_token.without_comments(),
            do_token: self.do_token.without_comments(),
            end: self.end.without_comments(),
            identifier_commas: tokens_without_comments(self.identifier_commas),
            value_commas: tokens_without_comments(self.value_commas),
        }
    }

    /// Takes the comments out of the trivia of every token.
    pub fn clear_comments(&mut self)
        ensures
            *final(self) == old(self).without_comments(),
    {
        self.for_token.clear_comments();
        self.in_token.clear_comments();
        self.do_token.clear_comments();
        self.end.clear_comments();
        clear_tokens_comments(&mut self.identifier_commas);
        clear_tokens_comments(&mut self.value_commas);
    }

    /// Clearing comments a second time changes nothing.
    pub proof fn without_comments_is_idempotent(self)
        ensures
            self.without_comments().without_comments() == self.without_comments(),
    {
        self.for_token.without_comments_is_idempotent();
        self.in_token.without_comments_is_idempotent();
        self.do_token.without_comments_is_idempotent();
        self.end.without_comments_is_idempotent();
        tokens_without_comments_is_idempotent(self.identifier_commas);
        tokens_without_comments_is_idempotent(self.value_commas);
    }

    /// Whether none of these tokens holds a comment.
    pub open spec fn is_comment_free(self) -> bool {
        &&& self.for_token.is_comment_free()
        &&& self.in_token.is_comment_free()
        &&& self.do_token.is_comment_free()
        &&& self.end.is_comment_free()
        &&& tokens_are_comment_free(self.identifier_commas)
        &&& tokens_are_comment_free(self.value_commas)
    }

    /// Tokens that clearing leaves as they are hold no comment.
    pub proof fn cleared_is_comment_free(self)
        requires
            self.without_comments() == self,
        ensures
            self.is_comment_free(),
    {
        self.for_token.cleared_is_comment_free();
        self.in_token.cleared_is_comment_free();
        self.do_token.cleared_is_comment_free();
        self.end.cleared_is_comment_free();
        cleared_tokens_are_comment_free(self.identifier_commas);
        cleared_tokens_are_comment_free(self.value_commas);
    }
}

} // verus!
