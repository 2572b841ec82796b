use crate::nodes::arguments::Arguments;
use crate::nodes::identifier::Identifier;
use crate::nodes::list::deeper;
use crate::nodes::prefix::Prefix;
use crate::nodes::token::{
    Token, clear_optional_token_comments, cleared_optional_token_is_comment_free,
    optional_token_is_comment_free, optional_token_without_comments,
    optional_token_without_comments_is_idempotent,
};
use vstd::prelude::*;

verus! {

/// A call of a prefix with arguments, possibly through a method.
#[derive(Debug, PartialEq, Eq)]
pub struct FunctionCall {
    pub prefix: Box<Prefix>,
    pub arguments: Arguments,
    pub method: Option<Identifier>,
    pub tokens: Option<FunctionCallTokens>,
}

impl FunctionCall {
    /// A node built from its parts, without tokens.
    pub fn new(prefix: Prefix, arguments: Arguments, method: Option<Identifier>) -> (node: Self)
        ensures
            *node.prefix == prefix,
            node.arguments == arguments,
            node.method == method,
            node.tokens is None,
    {
        FunctionCall { prefix: Box::new(prefix), arguments, method, tokens: None }
    }

    /// This node with the tokens it was read from.
    pub fn with_tokens(self, tokens: FunctionCallTokens) -> (node: Self)
        ensures
            node == (FunctionCall { tokens: Some(tokens), ..self }),
    {
        let mut node = self;
        node.tokens = Some(tokens);
        node
    }

    /// How deep the tree under this node goes.
    pub open spec fn depth(self) -> nat
        decreases self,
    {
        1 + deeper(
            self.prefix.depth(),
            self.arguments.depth(),
        )
    }

    /// This node with every comment taken out of its own tokens and of the parts that
    /// are cleared with it.
    pub open spec fn without_comments(self) -> Self {
        FunctionCall {
            arguments: self.arguments.without_comments(),
            method: match self.method {
                Some(inner) => Some(inner.without_comments()),
                None => None,
            },
            tokens: match self.tokens {
                Some(tokens) => Some(tokens.without_comments()),
                None => None,
            },
            ..self
        }
    }

    /// Takes the comments out of the tokens of this node and of the parts that are
    /// cleared with it. What the node means stays as it is.
    pub fn clear_comments(&mut self)
        ensures
            *final(self) == old(self).without_comments(),
    {
        self.arguments.clear_comments();
        match &mut self.method {
            Some(inner) => inner.clear_comments(),
            None => {},
        }
        match &mut self.tokens {
            Some(tokens) => tokens.clear_comments(),
            None => {},
        }
    }

    /// Clearing comments a second time changes nothing.
    pub proof fn without_comments_is_idempotent(self)
        ensures
            self.without_comments().without_comments() == self.without_comments(),
    {
        self.arguments.without_comments_is_idempotent();
        match self.method {
            Some(inner) => inner.without_comments_is_idempotent(),
            None => {},
        }
        match self.tokens {
            Some(tokens) => tokens.without_comments_is_idempotent(),
            None => {},
        }
    }

    /// Clearing comments leaves the depth as it is.
    pub proof fn without_comments_keeps_depth(self)
        ensures
            self.without_comments().depth() == self.depth(),
    {
        self.arguments.without_comments_keeps_depth();
    }

    /// Whether no token of this node, nor of anything under it, holds a comment.
    pub open spec fn is_comment_free(self) -> bool
        decreases self,
    {
        &&& self.prefix.is_comment_free()
        &&& self.arguments.is_comment_free()
        &&& match self.method {
            Some(inner) => inner.is_comment_free(),
            None => true,
        }
        &&& match self.tokens {
            Some(tokens) => tokens.is_comment_free(),
            None => true,
        }
    }

    /// This node with the comments taken out of every token of it and of everything
    /// under it.
    pub open spec fn stripped(self) -> Self
        decreases self,
    {
        FunctionCall {
            prefix: Box::new(self.prefix.stripped()),
            arguments: self.arguments.stripped(),
            method: match self.method {
                Some(inner) => Some(inner.stripped()),
                None => None,
            },
            tokens: match self.tokens {
                Some(tokens) => Some(tokens.without_comments()),
                None => None,
            },
        }
    }

    /// Taking the comments out of everything makes no difference between a node and the
    /// node cleared.
    pub proof fn stripped_absorbs_clearing(self)
        ensures
            self.without_comments().stripped() == self.stripped(),
    {
        self.without_comments_is_idempotent();
        self.arguments.stripped_absorbs_clearing();
        match self.method {
            Some(inner) => inner.without_comments_is_idempotent(),
            None => {},
        }
    }

    /// Once the comments are taken out of everything, no token holds a comment.
    pub proof fn stripped_is_comment_free(self)
        ensures
            self.stripped().is_comment_free(),
        decreases self.depth(), 0nat,
    {
        self.prefix.stripped_is_comment_free();
        self.arguments.stripped_is_comment_free();
        match self.method {
            Some(inner) => inner.stripped_is_comment_free(),
            None => {},
        }
        match self.tokens {
            Some(tokens) => {
                tokens.without_comments_is_idempotent();
                tokens.without_comments().cleared_is_comment_free();
            },
            None => {},
        }
    }

    /// Taking the comments out of everything a second time changes nothing.
    pub proof fn stripped_is_idempotent(self)
        ensures
            self.stripped().stripped() == self.stripped(),
        decreases self.depth(), 0nat,
    {
        self.prefix.stripped_is_idempotent();
        self.arguments.stripped_is_idempotent();
        match self.method {
            Some(inner) => inner.stripped_is_idempotent(),
            None => {},
        }
        match self.tokens {
            Some(tokens) => tokens.without_comments_is_idempotent(),
            None => {},
        }
    }
}

/// The tokens of a function call.
#[derive(Debug, PartialEq, Eq)]
pub struct FunctionCallTokens {
    pub colon: Option<Token>,
}

impl FunctionCallTokens {
    /// These tokens with every comment taken out of their trivia.
    pub open spec fn without_comments(self) -> Self {
        FunctionCallTokens {
            colon: optional_token_without_comments(self.colon),
        }
    }

    /// Takes the comments out of the trivia of every token.
    pub fn clear_comments(&mut self)
        ensures
            *final(self) == old(self).without_comments(),
    {
        clear_optional_token_comments(&mut self.colon);
    }

    /// Clearing comments a second time changes nothing.
    pub proof fn without_comments_is_idempotent(self)
        ensures
            self.without_comments().without_comments() == self.without_comments(),
    {
        optional_token_without_comments_is_idempotent(self.colon);
    }

    /// Whether none of these tokens holds a comment.
    pub open spec fn is_comment_free(self) -> bool {
        &&& optional_token_is_comment_free(self.colon)
    }

    /// Tokens that clearing leaves as they are hold no comment.
    pub proof fn cleared_is_comment_free(self)
        requires
            self.without_comments() == self,
        ensures
            self.is_comment_free(),
    {
        cleared_optional_token_is_comment_free(self.colon);
    }
}

} // verus!
