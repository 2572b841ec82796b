use crate::nodes::token::{
    Token, clear_optional_token_comments, cleared_optional_token_is_comment_free,
    optional_token_is_comment_free, optional_token_without_comments,
    optional_token_without_comments_is_idempotent,
};
use vstd::prelude::*;

verus! {

/// A number literal, in the base it was written in.
#[derive(Debug, PartialEq, Eq)]
pub enum NumberExpression {
    Decimal(DecimalNumber),
    Hex(HexNumber),
    Binary(BinaryNumber),
}

impl NumberExpression {
    /// This node with every comment taken out of the tokens it holds itself.
    pub open spec fn without_comments(self) -> Self {
        match self {
            NumberExpression::Decimal(inner) => NumberExpression::Decimal(inner.without_comments()),
            NumberExpression::Hex(inner) => NumberExpression::Hex(inner.without_comments()),
            NumberExpression::Binary(inner) => NumberExpression::Binary(inner.without_comments()),
        }
    }

    /// Takes the comments out of the tokens this node holds itself. What the node means
    /// stays as it is.
    pub fn clear_comments(&mut self)
        ensures
            *final(self) == old(self).without_comments(),
    {
        match self {
            NumberExpression::Decimal(inner) => inner.clear_comments(),
            NumberExpression::Hex(inner) => inner.clear_comments(),
            NumberExpression::Binary(inner) => inner.clear_comments(),
        }
    }

    /// Clearing comments a second time changes nothing.
    pub proof fn without_comments_is_idempotent(self)
        ensures
            self.without_comments().without_comments() == self.without_comments(),
    {
        match self {
            NumberExpression::Decimal(inner) => inner.without_comments_is_idempotent(),
            NumberExpression::Hex(inner) => inner.without_comments_is_idempotent(),
            NumberExpression::Binary(inner) => inner.without_comments_is_idempotent(),
        }
    }

    /// Whether no token of this node, nor of anything under it, holds a comment.
    pub open spec fn is_comment_free(self) -> bool
    {
        match self {
            NumberExpression::Decimal(inner) => inner.is_comment_free(),
            NumberExpression::Hex(inner) => inner.is_comment_free(),
            NumberExpression::Binary(inner) => inner.is_comment_free(),
        }
    }

    /// A node that clearing leaves as it is holds no comment.
    pub proof fn cleared_is_comment_free(self)
        requires
            self.without_comments() == self,
        ensures
            self.is_comment_free(),
    {
        match self {
            NumberExpression::Decimal(inner) => inner.cleared_is_comment_free(),
            NumberExpression::Hex(inner) => inner.cleared_is_comment_free(),
            NumberExpression::Binary(inner) => inner.cleared_is_comment_free(),
        }
    }

    /// This node with the comments taken out of every token of it and of everything
    /// under it.
    pub open spec fn stripped(self) -> Self
    {
        self.without_comments()
    }

    /// Once the comments are taken out of everything, no token holds a comment.
    pub proof fn stripped_is_comment_free(self)
        ensures
            self.stripped().is_comment_free(),
    {
        self.without_comments_is_idempotent();
        self.without_comments().cleared_is_comment_free();
    }

    /// Taking the comments out of everything a second time changes nothing.
    pub proof fn stripped_is_idempotent(self)
        ensures
            self.stripped().stripped() == self.stripped(),
    {
        self.without_comments_is_idempotent();
    }
}

/// A decimal literal, held as the bits of its double-precision value.
#[derive(Debug, PartialEq, Eq)]
pub struct DecimalNumber {
    pub float_bits: u64,
    pub exponent: Option<i64>,
    pub is_uppercase: bool,
    pub token: Option<Token>,
}

impl DecimalNumber {
    /// A node built from its parts, without tokens.
    pub fn new(float_bits: u64, exponent: Option<i64>, is_uppercase: bool) -> (node: Self)
        ensures
            node.float_bits == float_bits,
            node.exponent == exponent,
            node.is_uppercase == is_uppercase,
            node.token is None,
    {
        DecimalNumber { float_bits, exponent, is_uppercase, token: None }
    }

    /// This node with the token it was read from.
    pub fn with_token(self, token: Token) -> (node: Self)
        ensures
            node == (DecimalNumber { token: Some(token), ..self }),
    {
        let mut node = self;
        node.token = Some(token);
        node
    }

    /// This node with every comment taken out of its own tokens.
    pub open spec fn without_comments(self) -> Self {
        DecimalNumber {
            token: optional_token_without_comments(self.token),
            ..self
        }
    }

    /// Takes the comments out of the tokens of this node. What the node means stays as
    /// it is.
    pub fn clear_comments(&mut self)
        ensures
            *final(self) == old(self).without_comments(),
    {
        clear_optional_token_comments(&mut self.token);
    }

    /// Clearing comments a second time changes nothing.
    pub proof fn without_comments_is_idempotent(self)
        ensures
            self.without_comments().without_comments() == self.without_comments(),
    {
        optional_token_without_comments_is_idempotent(self.token);
    }

    /// Whether no token of this node, nor of anything under it, holds a comment.
    pub open spec fn is_comment_free(self) -> bool
    {
        &&& optional_token_is_comment_free(self.token)
    }

    /// A node that clearing leaves as it is holds no comment.
    pub proof fn cleared_is_comment_free(self)
        requires
            self.without_comments() == self,
        ensures
            self.is_comment_free(),
    {
        cleared_optional_token_is_comment_free(self.token);
    }

    /// This node with the comments taken out of every token of it and of everything
    /// under it.
    pub open spec fn stripped(self) -> Self
    {
        self.without_comments()
    }

    /// Once the comments are taken out of everything, no token holds a comment.
    pub proof fn stripped_is_comment_free(self)
        ensures
            self.stripped().is_comment_free(),
    {
        self.without_comments_is_idempotent();
        self.without_comments().cleared_is_comment_free();
    }

    /// Taking the comments out of everything a second time changes nothing.
    pub proof fn stripped_is_idempotent(self)
        ensures
            self.stripped().stripped() == self.stripped(),
    {
        self.without_comments_is_idempotent();
    }
}

/// A hexadecimal literal.
#[derive(Debug, PartialEq, Eq)]
pub struct HexNumber {
    pub integer: u64,
    pub exponent: Option<u32>,
    pub is_x_uppercase: bool,
    pub token: Option<Token>,
}

impl HexNumber {
    /// A node built from its parts, without tokens.
    pub fn new(integer: u64, exponent: Option<u32>, is_x_uppercase: bool) -> (node: Self)
        ensures
            node.integer == integer,
            node.exponent == exponent,
            node.is_x_uppercase == is_x_uppercase,
            node.token is None,
    {
        HexNumber { integer, exponent, is_x_uppercase, token: None }
    }

    /// This node with the token it was read from.
    pub fn with_token(self, token: Token) -> (node: Self)
        ensures
            node == (HexNumber { token: Some(token), ..self }),
    {
        let mut node = self;
        node.token = Some(token);
        node
    }

    /// This node with every comment taken out of its own tokens.
    pub open spec fn without_comments(self) -> Self {
        HexNumber {
            token: optional_token_without_comments(self.token),
            ..self
        }
    }

    /// Takes the comments out of the tokens of this node. What the node means stays as
    /// it is.
    pub fn clear_comments(&mut self)
        ensures
            *final(self) == old(self).without_comments(),
    {
        clear_optional_token_comments(&mut self.token);
    }

    /// Clearing comments a second time changes nothing.
    pub proof fn without_comments_is_idempotent(self)
        ensures
            self.without_comments().without_comments() == self.without_comments(),
    {
        optional_token_without_comments_is_idempotent(self.token);
    }

    /// Whether no token of this node, nor of anything under it, holds a comment.
    pub open spec fn is_comment_free(self) -> bool
    {
        &&& optional_token_is_comment_free(self.token)
    }

    /// A node that clearing leaves as it is holds no comment.
    pub proof fn cleared_is_comment_free(self)
        requires
            self.without_comments() == self,
        ensures
            self.is_comment_free(),
    {
        cleared_optional_token_is_comment_free(self.token);
    }

    /// This node with the comments taken out of every token of it and of everything
    /// under it.
    pub open spec fn stripped(self) -> Self
    {
        self.without_comments()
    }

    /// Once the comments are taken out of everything, no token holds a comment.
    pub proof fn stripped_is_comment_free(self)
        ensures
            self.stripped().is_comment_free(),
    {
        self.without_comments_is_idempotent();
        self.without_comments().cleared_is_comment_free();
    }

    /// Taking the comments out of everything a second time changes nothing.
    pub proof fn stripped_is_idempotent(self)
        ensures
            self.stripped().stripped() == self.stripped(),
    {
        self.without_comments_is_idempotent();
    }
}

/// A binary literal.
#[derive(Debug, PartialEq, Eq)]
pub struct BinaryNumber {
    pub value: u64,
    pub is_b_uppercase: bool,
    pub token: Option<Token>,
}

impl BinaryNumber {
    /// A node built from its parts, without tokens.
    pub fn new(value: u64, is_b_uppercase: bool) -> (node: Self)
        ensures
            node.value == value,
            node.is_b_uppercase == is_b_uppercase,
            node.token is None,
    {
        BinaryNumber { value, is_b_uppercase, token: None }
    }

    /// This node with the token it was read from.
    pub fn with_token(self, token: Token) -> (node: Self)
        ensures
            node == (BinaryNumber { token: Some(token), ..self }),
    {
        let mut node = self;
        node.token = Some(token);
        node
    }

    /// This node with every comment taken out of its own tokens.
    pub open spec fn without_comments(self) -> Self {
        BinaryNumber {
            token: optional_token_without_comments(self.token),
            ..self
        }
    }

    /// Takes the comments out of the tokens of this node. What the node means stays as
    /// it is.
    pub fn clear_comments(&mut self)
        ensures
            *final(self) == old(self).without_comments(),
    {
        clear_optional_token_comments(&mut self.token);
    }

    /// Clearing comments a second time changes nothing.
    pub proof fn without_comments_is_idempotent(self)
        ensures
            self.without_comments().without_comments() == self.without_comments(),
    {
        optional_token_without_comments_is_idempotent(self.token);
    }

    /// Whether no token of this node, nor of anything under it, holds a comment.
    pub open spec fn is_comment_free(self) -> bool
    {
        &&& optional_token_is_comment_free(self.token)
    }

    /// A node that clearing leaves as it is holds no comment.
    pub proof fn cleared_is_comment_free(self)
        requires
            self.without_comments() == self,
        ensures
            self.is_comment_free(),
    {
        cleared_optional_token_is_comment_free(self.token);
    }

    /// This node with the comments taken out of every token of it and of everything
    /// under it.
    pub open spec fn stripped(self) -> Self
    {
        self.without_comments()
    }

    /// Once the comments are taken out of everything, no token holds a comment.
    pub proof fn stripped_is_comment_free(self)
        ensures
            self.stripped().is_comment_free(),
    {
        self.without_comments_is_idempotent();
        self.without_comments().cleared_is_comment_free();
    }

    /// Taking the comments out of everything a second time changes nothing.
    pub proof fn stripped_is_idempotent(self)
        ensures
            self.stripped().stripped() == self.stripped(),
    {
        self.without_comments_is_idempotent();
    }
}

impl DecimalNumber {
    /// The decimal literal whose double-precision value has the bits `float_bits`.
    pub fn from_bits(float_bits: u64) -> (number: Self)
        ensures
            number
                == (DecimalNumber { float_bits, exponent: None, is_uppercase: false, token: None }),
    {
        DecimalNumber { float_bits, exponent: None, is_uppercase: false, token: None }
    }
}

impl From<DecimalNumber> for NumberExpression {
    fn from(number: DecimalNumber) -> (expression: NumberExpression) {
        NumberExpression::Decimal(number)
    }
}

impl vstd::std_specs::convert::FromSpecImpl<DecimalNumber> for NumberExpression {
    open spec fn obeys_from_spec() -> bool {
        true
    }

    open spec fn from_spec(number: DecimalNumber) -> NumberExpression {
        NumberExpression::Decimal(number)
    }
}

} // verus!
