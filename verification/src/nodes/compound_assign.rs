use crate::nodes::expression::Expression;
use crate::nodes::list::deeper;
use crate::nodes::operators::CompoundOperator;
use crate::nodes::token::Token;
use crate::nodes::variable::Variable;
use vstd::std_specs::convert::IntoSpec;
use vstd::prelude::*;

verus! {

/// An assignment that combines the variable with a value, such as `+=`.
#[derive(Debug, PartialEq, Eq)]
pub struct CompoundAssignStatement {
    pub operator: CompoundOperator,
    pub variable: Variable,
    pub value: Expression,
    pub tokens: Option<CompoundAssignTokens>,
}

impl CompoundAssignStatement {
    /// This node with the tokens it was read from.
    pub fn with_tokens(self, tokens: CompoundAssignTokens) -> (node: Self)
        ensures
            node == (CompoundAssignStatement { tokens: Some(tokens), ..self }),
    {
        let mut node = self;
        node.tokens = Some(tokens);
        node
    }

    /// How deep the tree under this node goes.
    pub open spec fn depth(self) -> nat
        decreases self,
    {
        1 + deeper(
            self.variable.depth(),
            self.value.depth(),
        )
    }

    /// This node with every comment taken out of its own tokens.
    pub open spec fn without_comments(self) -> Self {
        CompoundAssignStatement {
            tokens: match self.tokens {
                Some(tokens) => Some(tokens.without_comments()),
                None => None,
            },
            ..self
        }
    }

    /// Takes the comments out of the tokens of this node. What the node means stays as
    /// it is.
    pub fn clear_comments(&mut self)
        ensures
            *final(self) == old(self).without_comments(),
    {
        match &mut self.tokens {
            Some(tokens) => tokens.clear_comments(),
            None => {},
        }
    }

    /// Clearing comments a second time changes nothing.
    pub proof fn without_comments_is_idempotent(self)
        ensures
            self.without_comments().without_comments() == self.without_comments(),
    {
        match self.tokens {
            Some(tokens) => tokens.without_comments_is_idempotent(),
            None => {},
        }
    }

    /// Clearing comments leaves the depth as it is.
    pub proof fn without_comments_keeps_depth(self)
        ensures
            self.without_comments().depth() == self.depth(),
    {
    }

    /// Whether no token of this node, nor of anything under it, holds a comment.
    pub open spec fn is_comment_free(self) -> bool
        decreases self,
    {
        &&& self.variable.is_comment_free()
        &&& self.value.is_comment_free()
        &&& match self.tokens {
            Some(tokens) => tokens.is_comment_free(),
            None => true,
        }
    }

    /// This node with the comments taken out of every token of it and of everything
    /// under it.
    pub open spec fn stripped(self) -> Self
        decreases self,
    {
        CompoundAssignStatement {
            variable: self.variable.stripped(),
            value: self.value.stripped(),
            tokens: match self.tokens {
                Some(tokens) => Some(tokens.without_comments()),
                None => None,
            },
            ..self
        }
    }

    /// Taking the comments out of everything makes no difference between a node and the
    /// node cleared.
    pub proof fn stripped_absorbs_clearing(self)
        ensures
            self.without_comments().stripped() == self.stripped(),
    {
        self.without_comments_is_idempotent();
    }

    /// Once the comments are taken out of everything, no token holds a comment.
    pub proof fn stripped_is_comment_free(self)
        ensures
            self.stripped().is_comment_free(),
        decreases self.depth(), 0nat,
    {
        self.variable.stripped_is_comment_free();
        self.value.stripped_is_comment_free();
        match self.tokens {
            Some(tokens) => {
                tokens.without_comments_is_idempotent();
                tokens.without_comments().cleared_is_comment_free();
            },
            None => {},
        }
    }

    /// Taking the comments out of everything a second time changes nothing.
    pub proof fn stripped_is_idempotent(self)
        ensures
            self.stripped().stripped() == self.stripped(),
        decreases self.depth(), 0nat,
    {
        self.variable.stripped_is_idempotent();
        self.value.stripped_is_idempotent();
        match self.tokens {
            Some(tokens) => tokens.without_comments_is_idempotent(),
            None => {},
        }
    }
}

/// The tokens of a compound assignment.
#[derive(Debug, PartialEq, Eq)]
pub struct CompoundAssignTokens {
    pub operator: Token,
}

impl CompoundAssignTokens {
    /// These tokens with every comment taken out of their trivia.
    pub open spec fn without_comments(self) -> Self {
        CompoundAssignTokens {
            operator: self.operator.without_comments(),
        }
    }

    /// Takes the comments out of the trivia of every token.
    pub fn clear_comments(&mut self)
        ensures
            *final(self) == old(self).without_comments(),
    {
        self.operator.clear_comments();
    }

    /// Clearing comments a second time changes nothing.
    pub proof fn without_comments_is_idempotent(self)
        ensures
            self.without_comments().without_comments() == self.without_comments(),
    {
        self.operator.without_comments_is_idempotent();
    }

    /// Whether none of these tokens holds a comment.
    pub open spec fn is_comment_free(self) -> bool {
        &&& self.operator.is_comment_free()
    }

    /// Tokens that clearing leaves as they are hold no comment.
    pub proof fn cleared_is_comment_free(self)
        requires
            self.without_comments() == self,
        ensures
            self.is_comment_free(),
    {
        self.operator.cleared_is_comment_free();
    }
}

impl CompoundAssignStatement {
    /// A node built from its parts, without tokens.
    pub fn new<E: Into<Expression>>(
        operator: CompoundOperator,
        variable: Variable,
        value: E,
    ) -> (node:
        Self)
        ensures
            node.operator == operator,
            node.variable == variable,
            call_ensures(<E as Into<Expression>>::into, (value,), node.value),
            <E as IntoSpec<Expression>>::obeys_into_spec() ==> node.value
                == <E as IntoSpec<Expression>>::into_spec(value),
            node.tokens is None,
    {
        CompoundAssignStatement { operator, variable, value: value.into(), tokens: None }
    }
}

} // verus!
