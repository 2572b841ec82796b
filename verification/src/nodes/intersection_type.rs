use crate::nodes::list::NodeList;
use crate::nodes::token::{
    Token, clear_optional_token_comments, clear_tokens_comments,
    cleared_optional_token_is_comment_free, cleared_tokens_are_comment_free,
    optional_token_is_comment_free, optional_token_without_comments,
    optional_token_without_comments_is_idempotent, tokens_are_comment_free, tokens_without_comments,
    tokens_without_comments_is_idempotent,
};
use crate::nodes::types::{
    Type, types_are_comment_free, types_depth, types_stripped, types_stripped_are_comment_free,
    types_stripped_is_idempotent,
};
use vstd::prelude::*;

verus! {

/// A type that is each of several types at once.
#[derive(Debug, PartialEq, Eq)]
pub struct IntersectionType {
    pub types: NodeList<Type>,
    pub tokens: Option<IntersectionTypeTokens>,
}

impl IntersectionType {
    /// A node built from its parts, without tokens.
    pub fn new(types: Vec<Type>) -> (node: Self)
        ensures
            node.types@ == types@,
            node.tokens is None,
    {
        IntersectionType { types: NodeList::from_vec(types), tokens: None }
    }

    /// This node with the tokens it was read from.
    pub fn with_tokens(self, tokens: IntersectionTypeTokens) -> (node: Self)
        ensures
            node == (IntersectionType { tokens: Some(tokens), ..self }),
    {
        let mut node = self;
        node.tokens = Some(tokens);
        node
    }

    /// How deep the tree under this node goes.
    pub open spec fn depth(self) -> nat
        decreases self,
    {
        1 + types_depth(self.types)
    }

    /// This node with every comment taken out of its own tokens.
    pub open spec fn without_comments(self) -> Self {
        IntersectionType {
            tokens: match self.tokens {
                Some(tokens) => Some(tokens.without_comments()),
                None => None,
            },
            ..self
        }
    }

    /// Takes the comments out of the tokens of this node. What the node means stays as
    /// it is.
    pub fn clear_comments(&mut self)
        ensures
            *final(self) == old(self).without_comments(),
    {
        match &mut self.tokens {
            Some(tokens) => tokens.clear_comments(),
            None => {},
        }
    }

    /// Clearing comments a second time changes nothing.
    pub proof fn without_comments_is_idempotent(self)
        ensures
            self.without_comments().without_comments() == self.without_comments(),
    {
        match self.tokens {
            Some(tokens) => tokens.without_comments_is_idempotent(),
            None => {},
        }
    }

    /// Clearing comments leaves the depth as it is.
    pub proof fn without_comments_keeps_depth(self)
        ensures
            self.without_comments().depth() == self.depth(),
    {
    }

    /// Whether no token of this node, nor of anything under it, holds a comment.
    pub open spec fn is_comment_free(self) -> bool
        decreases self,
    {
        &&& types_are_comment_free(self.types)
        &&& match self.tokens {
            Some(tokens) => tokens.is_comment_free(),
            None => true,
        }
    }

    /// This node with the comments taken out of every token of it and of everything
    /// under it.
    pub open spec fn stripped(self) -> Self
        decreases self,
    {
        IntersectionType {
            types: types_stripped(self.types),
            tokens: match self.tokens {
                Some(tokens) => Some(tokens.without_comments()),
                None => None,
            },
        }
    }

    /// Taking the comments out of everything makes no difference between a node and the
    /// node cleared.
    pub proof fn stripped_absorbs_clearing(self)
        ensures
            self.without_comments().stripped() == self.stripped(),
    {
        self.without_comments_is_idempotent();
    }

    /// Once the comments are taken out of everything, no token holds a comment.
    pub proof fn stripped_is_comment_free(self)
        ensures
            self.stripped().is_comment_free(),
        decreases self.depth(), 0nat,
    {
        types_stripped_are_comment_free(self.types);
        match self.tokens {
            Some(tokens) => {
                tokens.without_comments_is_idempotent();
                tokens.without_comments().cleared_is_comment_free();
            },
            None => {},
        }
    }

    /// Taking the comments out of everything a second time changes nothing.
    pub proof fn stripped_is_idempotent(self)
        ensures
            self.stripped().stripped() == self.stripped(),
        decreases self.depth(), 0nat,
    {
        types_stripped_is_idempotent(self.types);
        match self.tokens {
            Some(tokens) => tokens.without_comments_is_idempotent(),
            None => {},
        }
    }
}

/// The tokens of an intersection type.
#[derive(Debug, PartialEq, Eq)]
pub struct IntersectionTypeTokens {
    pub leading_token: Option<Token>,
    pub separators: NodeList<Token>,
}

impl IntersectionTypeTokens {
    /// These tokens with every comment taken out of their trivia.
    pub open spec fn without_comments(self) -> Self {
        IntersectionTypeTokens {
            leading_token: optional_token_without_comments(self.leading_token),
            separators: tokens_without_comments(self.separators),
        }
    }

    /// Takes the comments out of the trivia of every token.
    pub fn clear_comments(&mut self)
        ensures
            *final(self) == old(self).without_comments(),
    {
        clear_optional_token_comments(&mut self.leading_token);
        clear_tokens_comments(&mut self.separators);
    }

    /// Clearing comments a second time changes nothing.
    pub proof fn without_comments_is_idempotent(self)
        ensures
            self.without_comments().without_comments() == self.without_comments(),
    {
        optional_token_without_comments_is_idempotent(self.leading_token);
        tokens_without_comments_is_idempotent(self.separators);
    }

    /// Whether none of these tokens holds a comment.
    pub open spec fn is_comment_free(self) -> bool {
        &&& optional_token_is_comment_free(self.leading_token)
        &&& tokens_are_comment_free(self.separators)
    }

    /// Tokens that clearing leaves as they are hold no comment.
    pub proof fn cleared_is_comment_free(self)
        requires
            self.without_comments() == self,
        ensures
            self.is_comment_free(),
    {
        cleared_optional_token_is_comment_free(self.leading_token);
        cleared_tokens_are_comment_free(self.separators);
    }
}

} // verus!
