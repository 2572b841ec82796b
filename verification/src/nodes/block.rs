use crate::nodes::expression::{
    Expression, expressions_are_comment_free, expressions_depth, expressions_stripped,
    expressions_stripped_are_comment_free, expressions_stripped_is_idempotent,
};
use crate::nodes::list::{NodeList, deeper};
use crate::nodes::statement::{
    Statement, statements_are_comment_free, statements_depth, statements_stripped,
    statements_stripped_are_comment_free, statements_stripped_is_idempotent,
};
use crate::nodes::token::{
    Token, clear_optional_token_comments, clear_tokens_comments,
    cleared_optional_token_is_comment_free, cleared_tokens_are_comment_free,
    optional_token_is_comment_free, optional_token_without_comments,
    optional_token_without_comments_is_idempotent, tokens_are_comment_free, tokens_without_comments,
    tokens_without_comments_is_idempotent,
};
use vstd::std_specs::convert::IntoSpec;
use vstd::prelude::*;

verus! {

/// An ordered sequence of statements with an optional closing statement: the unit of
/// lexical scope.
#[derive(Debug, PartialEq, Eq)]
pub struct Block {
    pub statements: NodeList<Statement>,
    pub last_statement: Option<LastStatement>,
    pub tokens: Option<BlockTokens>,
}

impl Block {
    /// A node built from its parts, without tokens.
    pub fn new(statements: Vec<Statement>, last_statement: Option<LastStatement>) -> (node: Self)
        ensures
            node.statements@ == statements@,
            node.last_statement == last_statement,
            node.tokens is None,
    {
        Block { statements: NodeList::from_vec(statements), last_statement, tokens: None }
    }

    /// This node with the tokens it was read from.
    pub fn with_tokens(self, tokens: BlockTokens) -> (node: Self)
        ensures
            node == (Block { tokens: Some(tokens), ..self }),
    {
        let mut node = self;
        node.tokens = Some(tokens);
        node
    }

    /// How deep the tree under this node goes.
    pub open spec fn depth(self) -> nat
        decreases self,
    {
        1 + deeper(
            statements_depth(self.statements),
            match self.last_statement {
                Some(inner) => inner.depth(),
                None => 0,
            },
        )
    }

    /// This node with every comment taken out of its own tokens.
    pub open spec fn without_comments(self) -> Self {
        Block {
            tokens: match self.tokens {
                Some(tokens) => Some(tokens.without_comments()),
                None => None,
            },
            ..self
        }
    }

    /// Takes the comments out of the tokens of this node. What the node means stays as
    /// it is.
    pub fn clear_comments(&mut self)
        ensures
            *final(self) == old(self).without_comments(),
    {
        match &mut self.tokens {
            Some(tokens) => tokens.clear_comments(),
            None => {},
        }
    }

    /// Clearing comments a second time changes nothing.
    pub proof fn without_comments_is_idempotent(self)
        ensures
            self.without_comments().without_comments() == self.without_comments(),
    {
        match self.tokens {
            Some(tokens) => tokens.without_comments_is_idempotent(),
            None => {},
        }
    }

    /// Clearing comments leaves the depth as it is.
    pub proof fn without_comments_keeps_depth(self)
        ensures
            self.without_comments().depth() == self.depth(),
    {
    }

    /// Whether no token of this node, nor of anything under it, holds a comment.
    pub open spec fn is_comment_free(self) -> bool
        decreases self,
    {
        &&& statements_are_comment_free(self.statements)
        &&& match self.last_statement {
            Some(inner) => inner.is_comment_free(),
            None => true,
        }
        &&& match self.tokens {
            Some(tokens) => tokens.is_comment_free(),
            None => true,
        }
    }

    /// This node with the comments taken out of every token of it and of everything
    /// under it.
    pub open spec fn stripped(self) -> Self
        decreases self,
    {
        Block {
            statements: statements_stripped(self.statements),
            last_statement: match self.last_statement {
                Some(inner) => Some(inner.stripped()),
                None => None,
            },
            tokens: match self.tokens {
                Some(tokens) => Some(tokens.without_comments()),
                None => None,
            },
        }
    }

    /// Taking the comments out of everything makes no difference between a node and the
    /// node cleared.
    pub proof fn stripped_absorbs_clearing(self)
        ensures
            self.without_comments().stripped() == self.stripped(),
    {
        self.without_comments_is_idempotent();
    }

    /// Once the comments are taken out of everything, no token holds a comment.
    pub proof fn stripped_is_comment_free(self)
        ensures
            self.stripped().is_comment_free(),
        decreases self.depth(), 0nat,
    {
        statements_stripped_are_comment_free(self.statements);
        match self.last_statement {
            Some(inner) => inner.stripped_is_comment_free(),
            None => {},
        }
        match self.tokens {
            Some(tokens) => {
                tokens.without_comments_is_idempotent();
                tokens.without_comments().cleared_is_comment_free();
            },
            None => {},
        }
    }

    /// Taking the comments out of everything a second time changes nothing.
    pub proof fn stripped_is_idempotent(self)
        ensures
            self.stripped().stripped() == self.stripped(),
        decreases self.depth(), 0nat,
    {
        statements_stripped_is_idempotent(self.statements);
        match self.last_statement {
            Some(inner) => inner.stripped_is_idempotent(),
            None => {},
        }
        match self.tokens {
            Some(tokens) => tokens.without_comments_is_idempotent(),
            None => {},
        }
    }
}

impl Default for Block {
    fn default() -> (node: Self)
        ensures
            node == (Block { statements: NodeList::Empty, last_statement: None, tokens: None }),
    {
        Block { statements: NodeList::Empty, last_statement: None, tokens: None }
    }
}

/// The tokens of a block.
#[derive(Debug, PartialEq, Eq)]
pub struct BlockTokens {
    pub semicolons: NodeList<Token>,
    pub last_semicolon: Option<Token>,
    pub final_token: Option<Token>,
}

impl BlockTokens {
    /// These tokens with every comment taken out of their trivia.
    pub open spec fn without_comments(self) -> Self {
        BlockTokens {
            semicolons: tokens_without_comments(self.semicolons),
            last_semicolon: optional_token_without_comments(self.last_semicolon),
            final_token: optional_token_without_comments(self.final_token),
        }
    }

    /// Takes the comments out of the trivia of every token.
    pub fn clear_comments(&mut self)
        ensures
            *final(self) == old(self).without_comments(),
    {
        clear_tokens_comments(&mut self.semicolons);
        clear_optional_token_comments(&mut self.last_semicolon);
        clear_optional_token_comments(&mut self.final_token);
    }

    /// Clearing comments a second time changes nothing.
    pub proof fn without_comments_is_idempotent(self)
        ensures
            self.without_comments().without_comments() == self.without_comments(),
    {
        tokens_without_comments_is_idempotent(self.semicolons);
        optional_token_without_comments_is_idempotent(self.last_semicolon);
        optional_token_without_comments_is_idempotent(self.final_token);
    }

    /// Whether none of these tokens holds a comment.
    pub open spec fn is_comment_free(self) -> bool {
        &&& tokens_are_comment_free(self.semicolons)
        &&& optional_token_is_comment_free(self.last_semicolon)
        &&& optional_token_is_comment_free(self.final_token)
    }

    /// Tokens that clearing leaves as they are hold no comment.
    pub proof fn cleared_is_comment_free(self)
        requires
            self.without_comments() == self,
        ensures
            self.is_comment_free(),
    {
        cleared_tokens_are_comment_free(self.semicolons);
        cleared_optional_token_is_comment_free(self.last_semicolon);
        cleared_optional_token_is_comment_free(self.final_token);
    }
}

/// The statement that may close a block.
#[derive(Debug, PartialEq, Eq)]
pub enum LastStatement {
    Break(Option<Token>),
    Continue(Option<Token>),
    Return(ReturnStatement),
}

impl LastStatement {
    /// How deep the tree under this node goes.
    pub open spec fn depth(self) -> nat
        decreases self,
    {
        match self {
            LastStatement::Return(inner) => 1 + inner.depth(),
            _ => 0,
        }
    }

    /// This node with every comment taken out of the tokens it holds itself.
    pub open spec fn without_comments(self) -> Self {
        match self {
            LastStatement::Break(token) => {
                LastStatement::Break(optional_token_without_comments(token))
            },
            LastStatement::Continue(token) => {
                LastStatement::Continue(optional_token_without_comments(token))
            },
            LastStatement::Return(inner) => LastStatement::Return(inner.without_comments()),
        }
    }

    /// Takes the comments out of the tokens this node holds itself. What the node means
    /// stays as it is.
    pub fn clear_comments(&mut self)
        ensures
            *final(self) == old(self).without_comments(),
    {
        match self {
            LastStatement::Break(token) => clear_optional_token_comments(token),
            LastStatement::Continue(token) => clear_optional_token_comments(token),
            LastStatement::Return(inner) => inner.clear_comments(),
        }
    }

    /// Clearing comments a second time changes nothing.
    pub proof fn without_comments_is_idempotent(self)
        ensures
            self.without_comments().without_comments() == self.without_comments(),
    {
        match self {
            LastStatement::Break(token) => optional_token_without_comments_is_idempotent(token),
            LastStatement::Continue(token) => optional_token_without_comments_is_idempotent(token),
            LastStatement::Return(inner) => inner.without_comments_is_idempotent(),
        }
    }

    /// Clearing comments leaves the depth as it is.
    pub proof fn without_comments_keeps_depth(self)
        ensures
            self.without_comments().depth() == self.depth(),
    {
        match self {
            LastStatement::Return(inner) => inner.without_comments_keeps_depth(),
            _ => {},
        }
    }

    /// Whether no token of this node, nor of anything under it, holds a comment.
    pub open spec fn is_comment_free(self) -> bool
        decreases self,
    {
        match self {
            LastStatement::Break(token) => optional_token_is_comment_free(token),
            LastStatement::Continue(token) => optional_token_is_comment_free(token),
            LastStatement::Return(inner) => inner.is_comment_free(),
        }
    }

    /// This node with the comments taken out of every token of it and of everything
    /// under it.
    pub open spec fn stripped(self) -> Self
        decreases self,
    {
        match self {
            LastStatement::Break(token) => {
                LastStatement::Break(optional_token_without_comments(token))
            },
            LastStatement::Continue(token) => {
                LastStatement::Continue(optional_token_without_comments(token))
            },
            LastStatement::Return(inner) => LastStatement::Return(inner.stripped()),
        }
    }

    /// Taking the comments out of everything makes no difference between a node and the
    /// node cleared.
    pub proof fn stripped_absorbs_clearing(self)
        ensures
            self.without_comments().stripped() == self.stripped(),
    {
        self.without_comments_is_idempotent();
        match self {
            LastStatement::Return(inner) => inner.stripped_absorbs_clearing(),
            _ => {},
        }
    }

    /// Once the comments are taken out of everything, no token holds a comment.
    pub proof fn stripped_is_comment_free(self)
        ensures
            self.stripped().is_comment_free(),
        decreases self.depth(), 0nat,
    {
        match self {
            LastStatement::Break(token) => {
                optional_token_without_comments_is_idempotent(token);
                cleared_optional_token_is_comment_free(
                    optional_token_without_comments(token),
                );
            },
            LastStatement::Continue(token) => {
                optional_token_without_comments_is_idempotent(token);
                cleared_optional_token_is_comment_free(
                    optional_token_without_comments(token),
                );
            },
            LastStatement::Return(inner) => inner.stripped_is_comment_free(),
        }
    }

    /// Taking the comments out of everything a second time changes nothing.
    pub proof fn stripped_is_idempotent(self)
        ensures
            self.stripped().stripped() == self.stripped(),
        decreases self.depth(), 0nat,
    {
        match self {
            LastStatement::Break(token) => optional_token_without_comments_is_idempotent(token),
            LastStatement::Continue(token) => optional_token_without_comments_is_idempotent(token),
            LastStatement::Return(inner) => inner.stripped_is_idempotent(),
        }
    }
}

/// A `return` with the expressions it hands back.
#[derive(Debug, PartialEq, Eq)]
pub struct ReturnStatement {
    pub expressions: NodeList<Expression>,
    pub tokens: Option<ReturnTokens>,
}

impl ReturnStatement {
    /// A node built from its parts, without tokens.
    pub fn new(expressions: Vec<Expression>) -> (node: Self)
        ensures
            node.expressions@ == expressions@,
            node.tokens is None,
    {
        ReturnStatement { expressions: NodeList::from_vec(expressions), tokens: None }
    }

    /// This node with the tokens it was read from.
    pub fn with_tokens(self, tokens: ReturnTokens) -> (node: Self)
        ensures
            node == (ReturnStatement { tokens: Some(tokens), ..self }),
    {
        let mut node = self;
        node.tokens = Some(tokens);
        node
    }

    /// How deep the tree under this node goes.
    pub open spec fn depth(self) -> nat
        decreases self,
    {
        1 + expressions_depth(self.expressions)
    }

    /// This node with every comment taken out of its own tokens.
    pub open spec fn without_comments(self) -> Self {
        ReturnStatement {
            tokens: match self.tokens {
                Some(tokens) => Some(tokens.without_comments()),
                None => None,
            },
            ..self
        }
    }

    /// Takes the comments out of the tokens of this node. What the node means stays as
    /// it is.
    pub fn clear_comments(&mut self)
        ensures
            *final(self) == old(self).without_comments(),
    {
        match &mut self.tokens {
            Some(tokens) => tokens.clear_comments(),
            None => {},
        }
    }

    /// Clearing comments a second time changes nothing.
    pub proof fn without_comments_is_idempotent(self)
        ensures
            self.without_comments().without_comments() == self.without_comments(),
    {
        match self.tokens {
            Some(tokens) => tokens.without_comments_is_idempotent(),
            None => {},
        }
    }

    /// Clearing comments leaves the depth as it is.
    pub proof fn without_comments_keeps_depth(self)
        ensures
            self.without_comments().depth() == self.depth(),
    {
    }

    /// Whether no token of this node, nor of anything under it, holds a comment.
    pub open spec fn is_comment_free(self) -> bool
        decreases self,
    {
        &&& expressions_are_comment_free(self.expressions)
        &&& match self.tokens {
            Some(tokens) => tokens.is_comment_free(),
            None => true,
        }
    }

    /// This node with the comments taken out of every token of it and of everything
    /// under it.
    pub open spec fn stripped(self) -> Self
        decreases self,
    {
        ReturnStatement {
            expressions: expressions_stripped(self.expressions),
            tokens: match self.tokens {
                Some(tokens) => Some(tokens.without_comments()),
                None => None,
            },
        }
    }

    /// Taking the comments out of everything makes no difference between a node and the
    /// node cleared.
    pub proof fn stripped_absorbs_clearing(self)
        ensures
            self.without_comments().stripped() == self.stripped(),
    {
        self.without_comments_is_idempotent();
    }

    /// Once the comments are taken out of everything, no token holds a comment.
    pub proof fn stripped_is_comment_free(self)
        ensures
            self.stripped().is_comment_free(),
        decreases self.depth(), 0nat,
    {
        expressions_stripped_are_comment_free(self.expressions);
        match self.tokens {
            Some(tokens) => {
                tokens.without_comments_is_idempotent();
                tokens.without_comments().cleared_is_comment_free();
            },
            None => {},
        }
    }

    /// Taking the comments out of everything a second time changes nothing.
    pub proof fn stripped_is_idempotent(self)
        ensures
            self.stripped().stripped() == self.stripped(),
        decreases self.depth(), 0nat,
    {
        expressions_stripped_is_idempotent(self.expressions);
        match self.tokens {
            Some(tokens) => tokens.without_comments_is_idempotent(),
            None => {},
        }
    }
}

impl Default for ReturnStatement {
    fn default() -> (node: Self)
        ensures
            node == (ReturnStatement { expressions: NodeList::Empty, tokens: None }),
    {
        ReturnStatement { expressions: NodeList::Empty, tokens: None }
    }
}

/// The tokens of a return statement.
#[derive(Debug, PartialEq, Eq)]
pub struct ReturnTokens {
    pub return_token: Token,
    pub commas: NodeList<Token>,
}

impl ReturnTokens {
    /// These tokens with every comment taken out of their trivia.
    pub open spec fn without_comments(self) -> Self {
        ReturnTokens {
            return_token: self.return_token.without_comments(),
            commas: tokens_without_comments(self.commas),
        }
    }

    /// Takes the comments out of the trivia of every token.
    pub fn clear_comments(&mut self)
        ensures
            *final(self) == old(self).without_comments(),
    {
        self.return_token.clear_comments();
        clear_tokens_comments(&mut self.commas);
    }

    /// Clearing comments a second time changes nothing.
    pub proof fn without_comments_is_idempotent(self)
        ensures
            self.without_comments().without_comments() == self.without_comments(),
    {
        self.return_token.without_comments_is_idempotent();
        tokens_without_comments_is_idempotent(self.commas);
    }

    /// Whether none of these tokens holds a comment.
    pub open spec fn is_comment_free(self) -> bool {
        &&& self.return_token.is_comment_free()
        &&& tokens_are_comment_free(self.commas)
    }

    /// Tokens that clearing leaves as they are hold no comment.
    pub proof fn cleared_is_comment_free(self)
        requires
            self.without_comments() == self,
        ensures
            self.is_comment_free(),
    {
        self.return_token.cleared_is_comment_free();
        cleared_tokens_are_comment_free(self.commas);
    }
}

impl Block {
    /// This block with one more statement after the others.
    pub fn with_statement<T: Into<Statement>>(self, statement: T) -> (block: Self)
        ensures
            block.statements@.len() == self.statements@.len() + 1,
            block.statements@.subrange(0, self.statements@.len() as int) == self.statements@,
            call_ensures(<T as Into<Statement>>::into, (statement,), block.statements@.last()),
            <T as IntoSpec<Statement>>::obeys_into_spec() ==> block.statements@
                == self.statements@.push(<T as IntoSpec<Statement>>::into_spec(statement)),
            block.last_statement == self.last_statement,
            block.tokens == self.tokens,
    {
        let mut block = self;
        let statement: Statement = statement.into();
        block.statements.push(statement);
        assert(block.statements@.subrange(0, self.statements@.len() as int) =~= self.statements@);
        block
    }

    /// This block closed by `last_statement`.
    pub fn with_last_statement(self, last_statement: LastStatement) -> (block: Self)
        ensures
            block == (Block { last_statement: Some(last_statement), ..self }),
    {
        let mut block = self;
        block.last_statement = Some(last_statement);
        block
    }

    /// Whether the block holds no statement at all.
    pub fn is_empty(&self) -> (empty: bool)
        ensures
            empty == (self.statements@.len() == 0 && self.last_statement is None),
    {
        self.statements.is_empty() && self.last_statement.is_none()
    }
}

impl LastStatement {
    /// A `break` without token.
    pub fn new_break() -> (statement: Self)
        ensures
            statement == LastStatement::Break(None),
    {
        LastStatement::Break(None)
    }

    /// A `continue` without token.
    pub fn new_continue() -> (statement: Self)
        ensures
            statement == LastStatement::Continue(None),
    {
        LastStatement::Continue(None)
    }
}

impl ReturnStatement {
    /// A `return` of one expression.
    pub fn one(expression: Expression) -> (statement: Self)
        ensures
            statement.expressions@ == seq![expression],
            statement.tokens is None,
    {
        let mut expressions = NodeList::new();
        expressions.push(expression);
        ReturnStatement { expressions, tokens: None }
    }
}

impl<T: Into<Statement>> From<T> for Block {
    fn from(statement: T) -> (block: Block)
        ensures
            block.statements@.len() == 1,
            call_ensures(<T as Into<Statement>>::into, (statement,), block.statements@[0]),
            block.last_statement is None,
            block.tokens is None,
    {
        let statement: Statement = statement.into();
        proof {
            NodeList::view_of_one(statement);
        }
        let statements = NodeList::new().prepend(statement);
        Block { statements, last_statement: None, tokens: None }
    }
}

impl<T: Into<Statement>> vstd::std_specs::convert::FromSpecImpl<T> for Block {
    open spec fn obeys_from_spec() -> bool {
        <T as IntoSpec<Statement>>::obeys_into_spec()
    }

    open spec fn from_spec(statement: T) -> Block {
        Block {
            statements: NodeList::cons(
                <T as IntoSpec<Statement>>::into_spec(statement),
                NodeList::Empty,
            ),
            last_statement: None,
            tokens: None,
        }
    }
}

} // verus!
