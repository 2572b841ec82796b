use crate::nodes::expression::{
    Expression, expressions_are_comment_free, expressions_depth, expressions_stripped,
    expressions_stripped_are_comment_free, expressions_stripped_is_idempotent,
};
use crate::nodes::identifier::{
    TypedIdentifier, clear_typed_identifiers_comments, typed_identifiers_are_comment_free,
    typed_identifiers_depth, typed_identifiers_stripped,
    typed_identifiers_stripped_absorbs_clearing, typed_identifiers_stripped_are_comment_free,
    typed_identifiers_stripped_is_idempotent, typed_identifiers_without_comments,
    typed_identifiers_without_comments_is_idempotent,
    typed_identifiers_without_comments_keeps_depth,
};
use crate::nodes::list::{NodeList, deeper};
use crate::nodes::token::{
    Token, clear_optional_token_comments, clear_tokens_comments,
    cleared_optional_token_is_comment_free, cleared_tokens_are_comment_free,
    optional_token_is_comment_free, optional_token_without_comments,
    optional_token_without_comments_is_idempotent, tokens_are_comment_free, tokens_without_comments,
    tokens_without_comments_is_idempotent,
};
use vstd::std_specs::convert::IntoSpec;
use vstd::prelude::*;

verus! {

/// A declaration of local variables, with or without values.
#[derive(Debug, PartialEq, Eq)]
pub struct LocalAssignStatement {
    pub variables: NodeList<TypedIdentifier>,
    pub values: NodeList<Expression>,
    pub tokens: Option<LocalAssignTokens>,
}

impl LocalAssignStatement {
    /// This node with the tokens it was read from.
    pub fn with_tokens(self, tokens: LocalAssignTokens) -> (node: Self)
        ensures
            node == (LocalAssignStatement { tokens: Some(tokens), ..self }),
    {
        let mut node = self;
        node.tokens = Some(tokens);
        node
    }

    /// How deep the tree under this node goes.
    pub open spec fn depth(self) -> nat
        decreases self,
    {
        1 + deeper(
            typed_identifiers_depth(self.variables),
            expressions_depth(self.values),
        )
    }

    /// This node with every comment taken out of its own tokens and of the parts that
    /// are cleared with it.
    pub open spec fn without_comments(self) -> Self {
        LocalAssignStatement {
            variables: typed_identifiers_without_comments(self.variables),
            tokens: match self.tokens {
                Some(tokens) => Some(tokens.without_comments()),
                None => None,
            },
            ..self
        }
    }

    /// Takes the comments out of the tokens of this node and of the parts that are
    /// cleared with it. What the node means stays as it is.
    pub fn clear_comments(&mut self)
        ensures
            *final(self) == old(self).without_comments(),
    {
        clear_typed_identifiers_comments(&mut self.variables);
        match &mut self.tokens {
            Some(tokens) => tokens.clear_comments(),
            None => {},
        }
    }

    /// Clearing comments a second time changes nothing.
    pub proof fn without_comments_is_idempotent(self)
        ensures
            self.without_comments().without_comments() == self.without_comments(),
    {
        typed_identifiers_without_comments_is_idempotent(self.variables);
        match self.tokens {
            Some(tokens) => tokens.without_comments_is_idempotent(),
            None => {},
        }
    }

    /// Clearing comments leaves the depth as it is.
    pub proof fn without_comments_keeps_depth(self)
        ensures
            self.without_comments().depth() == self.depth(),
    {
        typed_identifiers_without_comments_keeps_depth(self.variables);
    }

    /// Whether no token of this node, nor of anything under it, holds a comment.
    pub open spec fn is_comment_free(self) -> bool
        decreases self,
    {
        &&& typed_identifiers_are_comment_free(self.variables)
        &&& expressions_are_comment_free(self.values)
        &&& match self.tokens {
            Some(tokens) => tokens.is_comment_free(),
            None => true,
        }
    }

    /// This node with the comments taken out of every token of it and of everything
    /// under it.
    pub open spec fn stripped(self) -> Self
        decreases self,
    {
        LocalAssignStatement {
            variables: typed_identifiers_stripped(self.variables),
            values: expressions_stripped(self.values),
            tokens: match self.tokens {
                Some(tokens) => Some(tokens.without_comments()),
                None => None,
            },
        }
    }

    /// Taking the comments out of everything makes no difference between a node and the
    /// node cleared.
    pub proof fn stripped_absorbs_clearing(self)
        ensures
            self.without_comments().stripped() == self.stripped(),
    {
        self.without_comments_is_idempotent();
        typed_identifiers_stripped_absorbs_clearing(self.variables);
    }

    /// Once the comments are taken out of everything, no token holds a comment.
    pub proof fn stripped_is_comment_free(self)
        ensures
            self.stripped().is_comment_free(),
        decreases self.depth(), 0nat,
    {
        typed_identifiers_stripped_are_comment_free(self.variables);
        expressions_stripped_are_comment_free(self.values);
        match self.tokens {
            Some(tokens) => {
                tokens.without_comments_is_idempotent();
                tokens.without_comments().cleared_is_comment_free();
            },
            None => {},
        }
    }

    /// Taking the comments out of everything a second time changes nothing.
    pub proof fn stripped_is_idempotent(self)
        ensures
            self.stripped().stripped() == self.stripped(),
        decreases self.depth(), 0nat,
    {
        typed_identifiers_stripped_is_idempotent(self.variables);
        expressions_stripped_is_idempotent(self.values);
        match self.tokens {
            Some(tokens) => tokens.without_comments_is_idempotent(),
            None => {},
        }
    }
}

/// The tokens of a local assignment.
#[derive(Debug, PartialEq, Eq)]
pub struct LocalAssignTokens {
    pub local: Token,
    pub equal: Option<Token>,
    pub variable_commas: NodeList<Token>,
    pub value_commas: NodeList<Token>,
}

impl LocalAssignTokens {
    /// These tokens with every comment taken out of their trivia.
    pub open spec fn without_comments(self) -> Self {
        LocalAssignTokens {
            local: self.local.without_comments(),
            equal: optional_token_without_comments(self.equal),
            variable_commas: tokens_without_comments(self.variable_commas),
            value_commas: tokens_without_comments(self.value_commas),
        }
    }

    /// Takes the comments out of the trivia of every token.
    pub fn clear_comments(&mut self)
        ensures
            *final(self) == old(self).without_comments(),
    {
        self.local.clear_comments();
        clear_optional_token_comments(&mut self.equal);
        clear_tokens_comments(&mut self.variable_commas);
        clear_tokens_comments(&mut self.value_commas);
    }

    /// Clearing comments a second time changes nothing.
    pub proof fn without_comments_is_idempotent(self)
        ensures
            self.without_comments().without_comments() == self.without_comments(),
    {
        self.local.without_comments_is_idempotent();
        optional_token_without_comments_is_idempotent(self.equal);
        tokens_without_comments_is_idempotent(self.variable_commas);
        tokens_without_comments_is_idempotent(self.value_commas);
    }

    /// Whether none of these tokens holds a comment.
    pub open spec fn is_comment_free(self) -> bool {
        &&& self.local.is_comment_free()
        &&& optional_token_is_comment_free(self.equal)
        &&& tokens_are_comment_free(self.variable_commas)
        &&& tokens_are_comment_free(self.value_commas)
    }

    /// Tokens that clearing leaves as they are hold no comment.
    pub proof fn cleared_is_comment_free(self)
        requires
            self.without_comments() == self,
        ensures
            self.is_comment_free(),
    {
        self.local.cleared_is_comment_free();
        cleared_optional_token_is_comment_free(self.equal);
        cleared_tokens_are_comment_free(self.variable_commas);
        cleared_tokens_are_comment_free(self.value_commas);
    }
}

impl LocalAssignStatement {
    /// A node built from its parts, without tokens.
    pub fn new(variables: Vec<TypedIdentifier>, values: Vec<Expression>) -> (statement: Self)
        ensures
            statement.variables@ == variables@,
            statement.values@ == values@,
            statement.tokens is None,
    {
        LocalAssignStatement {
            variables: NodeList::from_vec(variables),
            values: NodeList::from_vec(values),
            tokens: None,
        }
    }

    /// The declaration of one variable, without value.
    pub fn from_variable<V: Into<TypedIdentifier>>(variable: V) -> (statement: Self)
        ensures
            statement.variables@.len() == 1,
            call_ensures(<V as Into<TypedIdentifier>>::into, (variable,), statement.variables@[0]),
            <V as IntoSpec<TypedIdentifier>>::obeys_into_spec() ==> statement.variables@[0]
                == <V as IntoSpec<TypedIdentifier>>::into_spec(variable),
            statement.values@.len() == 0,
            statement.tokens is None,
    {
        let mut variables = NodeList::new();
        variables.push(variable.into());
        LocalAssignStatement { variables, values: NodeList::new(), tokens: None }
    }

    /// This declaration with one more variable after the others.
    pub fn with_variable<V: Into<TypedIdentifier>>(self, variable: V) -> (statement: Self)
        ensures
            statement.variables@.len() == self.variables@.len() + 1,
            statement.variables@.subrange(0, self.variables@.len() as int) == self.variables@,
            call_ensures(
                <V as Into<TypedIdentifier>>::into,
                (variable,),
                statement.variables@.last(),
            ),
            <V as IntoSpec<TypedIdentifier>>::obeys_into_spec() ==> statement.variables@
                == self.variables@.push(<V as IntoSpec<TypedIdentifier>>::into_spec(variable)),
            statement.values == self.values,
            statement.tokens == self.tokens,
    {
        let mut statement = self;
        statement.variables.push(variable.into());
        assert(statement.variables@.subrange(0, self.variables@.len() as int)
            =~= self.variables@);
        statement
    }

    /// This declaration with one more value after the others.
    pub fn with_value<E: Into<Expression>>(self, value: E) -> (statement: Self)
        ensures
            statement.values@.len() == self.values@.len() + 1,
            statement.values@.subrange(0, self.values@.len() as int) == self.values@,
            call_ensures(<E as Into<Expression>>::into, (value,), statement.values@.last()),
            <E as IntoSpec<Expression>>::obeys_into_spec() ==> statement.values@
                == self.values@.push(<E as IntoSpec<Expression>>::into_spec(value)),
            statement.variables == self.variables,
            statement.tokens == self.tokens,
    {
        let mut statement = self;
        statement.values.push(value.into());
        assert(statement.values@.subrange(0, self.values@.len() as int) =~= self.values@);
        statement
    }
}

} // verus!
