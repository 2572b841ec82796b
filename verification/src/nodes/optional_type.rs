use crate::nodes::token::{
    Token, clear_optional_token_comments, cleared_optional_token_is_comment_free,
    optional_token_is_comment_free, optional_token_without_comments,
    optional_token_without_comments_is_idempotent,
};
use crate::nodes::types::Type;
use vstd::prelude::*;

verus! {

/// A type that also admits nil.
#[derive(Debug, PartialEq, Eq)]
pub struct OptionalType {
    pub inner_type: Box<Type>,
    pub token: Option<Token>,
}

impl OptionalType {
    /// A node built from its parts, without tokens.
    pub fn new(inner_type: Type) -> (node: Self)
        ensures
            *node.inner_type == inner_type,
            node.token is None,
    {
        OptionalType { inner_type: Box::new(inner_type), token: None }
    }

    /// This node with the token it was read from.
    pub fn with_token(self, token: Token) -> (node: Self)
        ensures
            node == (OptionalType { token: Some(token), ..self }),
    {
        let mut node = self;
        node.token = Some(token);
        node
    }

    /// How deep the tree under this node goes.
    pub open spec fn depth(self) -> nat
        decreases self,
    {
        1 + self.inner_type.depth()
    }

    /// This node with every comment taken out of its own tokens.
    pub open spec fn without_comments(self) -> Self {
        OptionalType {
            token: optional_token_without_comments(self.token),
            ..self
        }
    }

    /// Takes the comments out of the tokens of this node. What the node means stays as
    /// it is.
    pub fn clear_comments(&mut self)
        ensures
            *final(self) == old(self).without_comments(),
    {
        clear_optional_token_comments(&mut self.token);
    }

    /// Clearing comments a second time changes nothing.
    pub proof fn without_comments_is_idempotent(self)
        ensures
            self.without_comments().without_comments() == self.without_comments(),
    {
        optional_token_without_comments_is_idempotent(self.token);
    }

    /// Clearing comments leaves the depth as it is.
    pub proof fn without_comments_keeps_depth(self)
        ensures
            self.without_comments().depth() == self.depth(),
    {
    }

    /// Whether no token of this node, nor of anything under it, holds a comment.
    pub open spec fn is_comment_free(self) -> bool
        decreases self,
    {
        &&& self.inner_type.is_comment_free()
        &&& optional_token_is_comment_free(self.token)
    }

    /// This node with the comments taken out of every token of it and of everything
    /// under it.
    pub open spec fn stripped(self) -> Self
        decreases self,
    {
        OptionalType {
            inner_type: Box::new(self.inner_type.stripped()),
            token: optional_token_without_comments(self.token),
        }
    }

    /// Taking the comments out of everything makes no difference between a node and the
    /// node cleared.
    pub proof fn stripped_absorbs_clearing(self)
        ensures
            self.without_comments().stripped() == self.stripped(),
    {
        self.without_comments_is_idempotent();
    }

    /// Once the comments are taken out of everything, no token holds a comment.
    pub proof fn stripped_is_comment_free(self)
        ensures
            self.stripped().is_comment_free(),
        decreases self.depth(), 0nat,
    {
        self.inner_type.stripped_is_comment_free();
        optional_token_without_comments_is_idempotent(self.token);
        cleared_optional_token_is_comment_free(
            optional_token_without_comments(self.token),
        );
    }

    /// Taking the comments out of everything a second time changes nothing.
    pub proof fn stripped_is_idempotent(self)
        ensures
            self.stripped().stripped() == self.stripped(),
        decreases self.depth(), 0nat,
    {
        self.inner_type.stripped_is_idempotent();
        optional_token_without_comments_is_idempotent(self.token);
    }
}

} // verus!
