use crate::nodes::token::{
    Token, clear_optional_token_comments, cleared_optional_token_is_comment_free,
    optional_token_is_comment_free, optional_token_without_comments,
    optional_token_without_comments_is_idempotent,
};
use vstd::prelude::*;

verus! {

/// A string literal.
#[derive(Debug, PartialEq, Eq)]
pub struct StringExpression {
    pub value: String,
    pub token: Option<Token>,
}

impl StringExpression {
    /// This node with the token it was read from.
    pub fn with_token(self, token: Token) -> (node: Self)
        ensures
            node == (StringExpression { token: Some(token), ..self }),
    {
        let mut node = self;
        node.token = Some(token);
        node
    }

    /// This node with every comment taken out of its own tokens.
    pub open spec fn without_comments(self) -> Self {
        StringExpression {
            token: optional_token_without_comments(self.token),
            ..self
        }
    }

    /// Takes the comments out of the tokens of this node. What the node means stays as
    /// it is.
    pub fn clear_comments(&mut self)
        ensures
            *final(self) == old(self).without_comments(),
    {
        clear_optional_token_comments(&mut self.token);
    }

    /// Clearing comments a second time changes nothing.
    pub proof fn without_comments_is_idempotent(self)
        ensures
            self.without_comments().without_comments() == self.without_comments(),
    {
        optional_token_without_comments_is_idempotent(self.token);
    }

    /// Whether no token of this node, nor of anything under it, holds a comment.
    pub open spec fn is_comment_free(self) -> bool
    {
        &&& optional_token_is_comment_free(self.token)
    }

    /// A node that clearing leaves as it is holds no comment.
    pub proof fn cleared_is_comment_free(self)
        requires
            self.without_comments() == self,
        ensures
            self.is_comment_free(),
    {
        cleared_optional_token_is_comment_free(self.token);
    }

    /// This node with the comments taken out of every token of it and of everything
    /// under it.
    pub open spec fn stripped(self) -> Self
    {
        self.without_comments()
    }

    /// Once the comments are taken out of everything, no token holds a comment.
    pub proof fn stripped_is_comment_free(self)
        ensures
            self.stripped().is_comment_free(),
    {
        self.without_comments_is_idempotent();
        self.without_comments().cleared_is_comment_free();
    }

    /// Taking the comments out of everything a second time changes nothing.
    pub proof fn stripped_is_idempotent(self)
        ensures
            self.stripped().stripped() == self.stripped(),
    {
        self.without_comments_is_idempotent();
    }
}

impl StringExpression {
    /// The string literal of a text, without token.
    pub fn from_value(value: &str) -> (string: Self)
        ensures
            string.value@ == value@,
            string.token is None,
    {
        StringExpression { value: value.to_owned(), token: None }
    }

    /// The text of the literal.
    pub fn get_value(&self) -> (value: &String)
        ensures
            value == self.value,
    {
        &self.value
    }
}

} // verus!
