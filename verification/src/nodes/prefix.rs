use crate::nodes::field::FieldExpression;
use crate::nodes::function_call::FunctionCall;
use crate::nodes::identifier::Identifier;
use crate::nodes::index::IndexExpression;
use crate::nodes::parenthese::ParentheseExpression;
use vstd::prelude::*;

verus! {

/// What can be indexed or called: the head of a chain.
#[derive(Debug, PartialEq, Eq)]
pub enum Prefix {
    Call(FunctionCall),
    Field(Box<FieldExpression>),
    Identifier(Identifier),
    Index(Box<IndexExpression>),
    Parenthese(ParentheseExpression),
}

impl Prefix {
    /// How deep the tree under this node goes.
    pub open spec fn depth(self) -> nat
        decreases self,
    {
        match self {
            Prefix::Call(inner) => 1 + inner.depth(),
            Prefix::Field(inner) => 1 + inner.depth(),
            Prefix::Index(inner) => 1 + inner.depth(),
            Prefix::Parenthese(inner) => 1 + inner.depth(),
            _ => 0,
        }
    }

    /// Whether no token of this node, nor of anything under it, holds a comment.
    pub open spec fn is_comment_free(self) -> bool
        decreases self,
    {
        match self {
            Prefix::Call(inner) => inner.is_comment_free(),
            Prefix::Field(inner) => inner.is_comment_free(),
            Prefix::Identifier(inner) => inner.is_comment_free(),
            Prefix::Index(inner) => inner.is_comment_free(),
            Prefix::Parenthese(inner) => inner.is_comment_free(),
        }
    }

    /// This node with the comments taken out of every token of it and of everything
    /// under it.
    pub open spec fn stripped(self) -> Self
        decreases self,
    {
        match self {
            Prefix::Call(inner) => Prefix::Call(inner.stripped()),
            Prefix::Field(inner) => Prefix::Field(Box::new(inner.stripped())),
            Prefix::Identifier(inner) => Prefix::Identifier(inner.stripped()),
            Prefix::Index(inner) => Prefix::Index(Box::new(inner.stripped())),
            Prefix::Parenthese(inner) => Prefix::Parenthese(inner.stripped()),
        }
    }

    /// Once the comments are taken out of everything, no token holds a comment.
    pub proof fn stripped_is_comment_free(self)
        ensures
            self.stripped().is_comment_free(),
        decreases self.depth(), 0nat,
    {
        match self {
            Prefix::Call(inner) => inner.stripped_is_comment_free(),
            Prefix::Field(inner) => inner.stripped_is_comment_free(),
            Prefix::Identifier(inner) => inner.stripped_is_comment_free(),
            Prefix::Index(inner) => inner.stripped_is_comment_free(),
            Prefix::Parenthese(inner) => inner.stripped_is_comment_free(),
        }
    }

    /// Taking the comments out of everything a second time changes nothing.
    pub proof fn stripped_is_idempotent(self)
        ensures
            self.stripped().stripped() == self.stripped(),
        decreases self.depth(), 0nat,
    {
        match self {
            Prefix::Call(inner) => inner.stripped_is_idempotent(),
            Prefix::Field(inner) => inner.stripped_is_idempotent(),
            Prefix::Identifier(inner) => inner.stripped_is_idempotent(),
            Prefix::Index(inner) => inner.stripped_is_idempotent(),
            Prefix::Parenthese(inner) => inner.stripped_is_idempotent(),
        }
    }
}

impl From<FunctionCall> for Prefix {
    fn from(node: FunctionCall) -> (wrapped: Prefix) {
        Prefix::Call(node)
    }
}

impl vstd::std_specs::convert::FromSpecImpl<FunctionCall> for Prefix {
    open spec fn obeys_from_spec() -> bool {
        true
    }

    open spec fn from_spec(node: FunctionCall) -> Prefix {
        Prefix::Call(node)
    }
}

impl From<FieldExpression> for Prefix {
    fn from(node: FieldExpression) -> (wrapped: Prefix) {
        Prefix::Field(Box::new(node))
    }
}

impl vstd::std_specs::convert::FromSpecImpl<FieldExpression> for Prefix {
    open spec fn obeys_from_spec() -> bool {
        true
    }

    open spec fn from_spec(node: FieldExpression) -> Prefix {
        Prefix::Field(Box::new(node))
    }
}

impl From<Identifier> for Prefix {
    fn from(node: Identifier) -> (wrapped: Prefix) {
        Prefix::Identifier(node)
    }
}

impl vstd::std_specs::convert::FromSpecImpl<Identifier> for Prefix {
    open spec fn obeys_from_spec() -> bool {
        true
    }

    open spec fn from_spec(node: Identifier) -> Prefix {
        Prefix::Identifier(node)
    }
}

impl From<IndexExpression> for Prefix {
    fn from(node: IndexExpression) -> (wrapped: Prefix) {
        Prefix::Index(Box::new(node))
    }
}

impl vstd::std_specs::convert::FromSpecImpl<IndexExpression> for Prefix {
    open spec fn obeys_from_spec() -> bool {
        true
    }

    open spec fn from_spec(node: IndexExpression) -> Prefix {
        Prefix::Index(Box::new(node))
    }
}

impl From<ParentheseExpression> for Prefix {
    fn from(node: ParentheseExpression) -> (wrapped: Prefix) {
        Prefix::Parenthese(node)
    }
}

impl vstd::std_specs::convert::FromSpecImpl<ParentheseExpression> for Prefix {
    open spec fn obeys_from_spec() -> bool {
        true
    }

    open spec fn from_spec(node: ParentheseExpression) -> Prefix {
        Prefix::Parenthese(node)
    }
}

} // verus!
