use crate::nodes::block::Block;
use crate::nodes::expression::Expression;
use crate::nodes::list::{NodeList, deeper};
use crate::nodes::token::{
    Token, clear_optional_token_comments, cleared_optional_token_is_comment_free,
    optional_token_is_comment_free, optional_token_without_comments,
    optional_token_without_comments_is_idempotent,
};
use vstd::std_specs::convert::IntoSpec;
use vstd::prelude::*;

verus! {

/// An `if` with its `elseif` branches and optional `else` block.
#[derive(Debug, PartialEq, Eq)]
pub struct IfStatement {
    pub branches: NodeList<IfBranch>,
    pub else_block: Option<Block>,
    pub tokens: Option<IfStatementTokens>,
}

impl IfStatement {
    /// This node with the tokens it was read from.
    pub fn with_tokens(self, tokens: IfStatementTokens) -> (node: Self)
        ensures
            node == (IfStatement { tokens: Some(tokens), ..self }),
    {
        let mut node = self;
        node.tokens = Some(tokens);
        node
    }

    /// How deep the tree under this node goes.
    pub open spec fn depth(self) -> nat
        decreases self,
    {
        1 + deeper(
            if_branches_depth(self.branches),
            match self.else_block {
                Some(inner) => inner.depth(),
                None => 0,
            },
        )
    }

    /// This node with every comment taken out of its own tokens and of the parts that
    /// are cleared with it.
    pub open spec fn without_comments(self) -> Self {
        IfStatement {
            branches: if_branches_without_comments(self.branches),
            tokens: match self.tokens {
                Some(tokens) => Some(tokens.without_comments()),
                None => None,
            },
            ..self
        }
    }

    /// Takes the comments out of the tokens of this node and of the parts that are
    /// cleared with it. What the node means stays as it is.
    pub fn clear_comments(&mut self)
        ensures
            *final(self) == old(self).without_comments(),
    {
        clear_if_branches_comments(&mut self.branches);
        match &mut self.tokens {
            Some(tokens) => tokens.clear_comments(),
            None => {},
        }
    }

    /// Clearing comments a second time changes nothing.
    pub proof fn without_comments_is_idempotent(self)
        ensures
            self.without_comments().without_comments() == self.without_comments(),
    {
        if_branches_without_comments_is_idempotent(self.branches);
        match self.tokens {
            Some(tokens) => tokens.without_comments_is_idempotent(),
            None => {},
        }
    }

    /// Clearing comments leaves the depth as it is.
    pub proof fn without_comments_keeps_depth(self)
        ensures
            self.without_comments().depth() == self.depth(),
    {
        if_branches_without_comments_keeps_depth(self.branches);
    }

    /// Whether no token of this node, nor of anything under it, holds a comment.
    pub open spec fn is_comment_free(self) -> bool
        decreases self,
    {
        &&& if_branches_are_comment_free(self.branches)
        &&& match self.else_block {
            Some(inner) => inner.is_comment_free(),
            None => true,
        }
        &&& match self.tokens {
            Some(tokens) => tokens.is_comment_free(),
            None => true,
        }
    }

    /// This node with the comments taken out of every token of it and of everything
    /// under it.
    pub open spec fn stripped(self) -> Self
        decreases self,
    {
        IfStatement {
            branches: if_branches_stripped(self.branches),
            else_block: match self.else_block {
                Some(inner) => Some(inner.stripped()),
                None => None,
            },
            tokens: match self.tokens {
                Some(tokens) => Some(tokens.without_comments()),
                None => None,
            },
        }
    }

    /// Taking the comments out of everything makes no difference between a node and the
    /// node cleared.
    pub proof fn stripped_absorbs_clearing(self)
        ensures
            self.without_comments().stripped() == self.stripped(),
    {
        self.without_comments_is_idempotent();
        if_branches_stripped_absorbs_clearing(self.branches);
    }

    /// Once the comments are taken out of everything, no token holds a comment.
    pub proof fn stripped_is_comment_free(self)
        ensures
            self.stripped().is_comment_free(),
        decreases self.depth(), 0nat,
    {
        if_branches_stripped_are_comment_free(self.branches);
        match self.else_block {
            Some(inner) => inner.stripped_is_comment_free(),
            None => {},
        }
        match self.tokens {
            Some(tokens) => {
                tokens.without_comments_is_idempotent();
                tokens.without_comments().cleared_is_comment_free();
            },
            None => {},
        }
    }

    /// Taking the comments out of everything a second time changes nothing.
    pub proof fn stripped_is_idempotent(self)
        ensures
            self.stripped().stripped() == self.stripped(),
        decreases self.depth(), 0nat,
    {
        if_branches_stripped_is_idempotent(self.branches);
        match self.else_block {
            Some(inner) => inner.stripped_is_idempotent(),
            None => {},
        }
        match self.tokens {
            Some(tokens) => tokens.without_comments_is_idempotent(),
            None => {},
        }
    }
}

/// The tokens of an if statement.
#[derive(Debug, PartialEq, Eq)]
pub struct IfStatementTokens {
    pub if_token: Token,
    pub then_token: Token,
    pub end: Token,
    pub else_token: Option<Token>,
}

impl IfStatementTokens {
    /// These tokens with every comment taken out of their trivia.
    pub open spec fn without_comments(self) -> Self {
        IfStatementTokens {
            if_token: self.if_token.without_comments(),
            then_token: self.then_token.without_comments(),
            end: self.end.without_comments(),
            else_token: optional_token_without_comments(self.else_token),
        }
    }

    /// Takes the comments out of the trivia of every token.
    pub fn clear_comments(&mut self)
        ensures
            *final(self) == old(self).without_comments(),
    {
        self.if_token.clear_comments();
        self.then_token.clear_comments();
        self.end.clear_comments();
        clear_optional_token_comments(&mut self.else_token);
    }

    /// Clearing comments a second time changes nothing.
    pub proof fn without_comments_is_idempotent(self)
        ensures
            self.without_comments().without_comments() == self.without_comments(),
    {
        self.if_token.without_comments_is_idempotent();
        self.then_token.without_comments_is_idempotent();
        self.end.without_comments_is_idempotent();
        optional_token_without_comments_is_idempotent(self.else_token);
    }

    /// Whether none of these tokens holds a comment.
    pub open spec fn is_comment_free(self) -> bool {
        &&& self.if_token.is_comment_free()
        &&& self.then_token.is_comment_free()
        &&& self.end.is_comment_free()
        &&& optional_token_is_comment_free(self.else_token)
    }

    /// Tokens that clearing leaves as they are hold no comment.
    pub proof fn cleared_is_comment_free(self)
        requires
            self.without_comments() == self,
        ensures
            self.is_comment_free(),
    {
        self.if_token.cleared_is_comment_free();
        self.then_token.cleared_is_comment_free();
        self.end.cleared_is_comment_free();
        cleared_optional_token_is_comment_free(self.else_token);
    }
}

/// A condition and the block that runs when it holds.
#[derive(Debug, PartialEq, Eq)]
pub struct IfBranch {
    pub condition: Expression,
    pub block: Block,
    pub tokens: Option<IfBranchTokens>,
}

impl IfBranch {
    /// A node built from its parts, without tokens.
    pub fn new(condition: Expression, block: Block) -> (node: Self)
        ensures
            node.condition == condition,
            node.block == block,
            node.tokens is None,
    {
        IfBranch { condition, block, tokens: None }
    }

    /// This node with the tokens it was read from.
    pub fn with_tokens(self, tokens: IfBranchTokens) -> (node: Self)
        ensures
            node == (IfBranch { tokens: Some(tokens), ..self }),
    {
        let mut node = self;
        node.tokens = Some(tokens);
        node
    }

    /// How deep the tree under this node goes.
    pub open spec fn depth(self) -> nat
        decreases self,
    {
        1 + deeper(
            self.condition.depth(),
            self.block.depth(),
        )
    }

    /// This node with every comment taken out of its own tokens.
    pub open spec fn without_comments(self) -> Self {
        IfBranch {
            tokens: match self.tokens {
                Some(tokens) => Some(tokens.without_comments()),
                None => None,
            },
            ..self
        }
    }

    /// Takes the comments out of the tokens of this node. What the node means stays as
    /// it is.
    pub fn clear_comments(&mut self)
        ensures
            *final(self) == old(self).without_comments(),
    {
        match &mut self.tokens {
            Some(tokens) => tokens.clear_comments(),
            None => {},
        }
    }

    /// Clearing comments a second time changes nothing.
    pub proof fn without_comments_is_idempotent(self)
        ensures
            self.without_comments().without_comments() == self.without_comments(),
    {
        match self.tokens {
            Some(tokens) => tokens.without_comments_is_idempotent(),
            None => {},
        }
    }

    /// Clearing comments leaves the depth as it is.
    pub proof fn without_comments_keeps_depth(self)
        ensures
            self.without_comments().depth() == self.depth(),
    {
    }

    /// Whether no token of this node, nor of anything under it, holds a comment.
    pub open spec fn is_comment_free(self) -> bool
        decreases self,
    {
        &&& self.condition.is_comment_free()
        &&& self.block.is_comment_free()
        &&& match self.tokens {
            Some(tokens) => tokens.is_comment_free(),
            None => true,
        }
    }

    /// This node with the comments taken out of every token of it and of everything
    /// under it.
    pub open spec fn stripped(self) -> Self
        decreases self,
    {
        IfBranch {
            condition: self.condition.stripped(),
            block: self.block.stripped(),
            tokens: match self.tokens {
                Some(tokens) => Some(tokens.without_comments()),
                None => None,
            },
        }
    }

    /// Taking the comments out of everything makes no difference between a node and the
    /// node cleared.
    pub proof fn stripped_absorbs_clearing(self)
        ensures
            self.without_comments().stripped() == self.stripped(),
    {
        self.without_comments_is_idempotent();
    }

    /// Once the comments are taken out of everything, no token holds a comment.
    pub proof fn stripped_is_comment_free(self)
        ensures
            self.stripped().is_comment_free(),
        decreases self.depth(), 0nat,
    {
        self.condition.stripped_is_comment_free();
        self.block.stripped_is_comment_free();
        match self.tokens {
            Some(tokens) => {
                tokens.without_comments_is_idempotent();
                tokens.without_comments().cleared_is_comment_free();
            },
            None => {},
        }
    }

    /// Taking the comments out of everything a second time changes nothing.
    pub proof fn stripped_is_idempotent(self)
        ensures
            self.stripped().stripped() == self.stripped(),
        decreases self.depth(), 0nat,
    {
        self.condition.stripped_is_idempotent();
        self.block.stripped_is_idempotent();
        match self.tokens {
            Some(tokens) => tokens.without_comments_is_idempotent(),
            None => {},
        }
    }
}

/// The tokens of an `elseif` branch.
#[derive(Debug, PartialEq, Eq)]
pub struct IfBranchTokens {
    pub elseif: Token,
    pub then_token: Token,
}

impl IfBranchTokens {
    /// These tokens with every comment taken out of their trivia.
    pub open spec fn without_comments(self) -> Self {
        IfBranchTokens {
            elseif: self.elseif.without_comments(),
            then_token: self.then_token.without_comments(),
        }
    }

    /// Takes the comments out of the trivia of every token.
    pub fn clear_comments(&mut self)
        ensures
            *final(self) == old(self).without_comments(),
    {
        self.elseif.clear_comments();
        self.then_token.clear_comments();
    }

    /// Clearing comments a second time changes nothing.
    pub proof fn without_comments_is_idempotent(self)
        ensures
            self.without_comments().without_comments() == self.without_comments(),
    {
        self.elseif.without_comments_is_idempotent();
        self.then_token.without_comments_is_idempotent();
    }

    /// Whether none of these tokens holds a comment.
    pub open spec fn is_comment_free(self) -> bool {
        &&& self.elseif.is_comment_free()
        &&& self.then_token.is_comment_free()
    }

    /// Tokens that clearing leaves as they are hold no comment.
    pub proof fn cleared_is_comment_free(self)
        requires
            self.without_comments() == self,
        ensures
            self.is_comment_free(),
    {
        self.elseif.cleared_is_comment_free();
        self.then_token.cleared_is_comment_free();
    }
}

/// Whether none of a list of if branches holds a comment.
pub open spec fn if_branches_are_comment_free(list: NodeList<IfBranch>) -> bool
    decreases list,
{
    match list {
        NodeList::Empty => true,
        NodeList::Cell(cell) => {
            cell.head.is_comment_free() && if_branches_are_comment_free(cell.tail)
        },
    }
}

/// A list of if branches with the comments taken out of every token of them.
pub open spec fn if_branches_stripped(list: NodeList<IfBranch>) -> NodeList<IfBranch>
    decreases list,
{
    match list {
        NodeList::Empty => NodeList::Empty,
        NodeList::Cell(cell) => {
            NodeList::cons(cell.head.stripped(), if_branches_stripped(cell.tail))
        },
    }
}

/// Once the comments are taken out of a list of if branches, no token of them holds a
/// comment.
pub proof fn if_branches_stripped_are_comment_free(list: NodeList<IfBranch>)
    ensures
        if_branches_are_comment_free(if_branches_stripped(list)),
    decreases if_branches_depth(list), 1 + list.count(),
{
    match list {
        NodeList::Empty => {},
        NodeList::Cell(cell) => {
            cell.head.stripped_is_comment_free();
            if_branches_stripped_are_comment_free(cell.tail);
        },
    }
}

/// Taking the comments out of a list of if branches a second time changes nothing.
pub proof fn if_branches_stripped_is_idempotent(list: NodeList<IfBranch>)
    ensures
        if_branches_stripped(if_branches_stripped(list)) == if_branches_stripped(list),
    decreases if_branches_depth(list), 1 + list.count(),
{
    match list {
        NodeList::Empty => {},
        NodeList::Cell(cell) => {
            cell.head.stripped_is_idempotent();
            if_branches_stripped_is_idempotent(cell.tail);
        },
    }
}

/// Taking the comments out of everything makes no difference between a list of if
/// branches and the list cleared.
pub proof fn if_branches_stripped_absorbs_clearing(list: NodeList<IfBranch>)
    ensures
        if_branches_stripped(if_branches_without_comments(list)) == if_branches_stripped(list),
    decreases list,
{
    match list {
        NodeList::Empty => {},
        NodeList::Cell(cell) => {
            cell.head.stripped_absorbs_clearing();
            if_branches_stripped_absorbs_clearing(cell.tail);
        },
    }
}

/// The depth of the deepest of a list of if branches.
pub open spec fn if_branches_depth(list: NodeList<IfBranch>) -> nat
    decreases list,
{
    match list {
        NodeList::Empty => 0,
        NodeList::Cell(cell) => deeper(cell.head.depth(), if_branches_depth(cell.tail)),
    }
}

/// A list of if branches, each with its comments taken out.
pub open spec fn if_branches_without_comments(list: NodeList<IfBranch>) -> NodeList<IfBranch>
    decreases list,
{
    match list {
        NodeList::Empty => NodeList::Empty,
        NodeList::Cell(cell) => NodeList::cons(
            cell.head.without_comments(),
            if_branches_without_comments(cell.tail),
        ),
    }
}

/// Takes the comments out of each of a list of if branches.
pub fn clear_if_branches_comments(list: &mut NodeList<IfBranch>)
    ensures
        *final(list) == if_branches_without_comments(*old(list)),
    decreases *old(list),
{
    match list {
        NodeList::Empty => {},
        NodeList::Cell(cell) => {
            cell.head.clear_comments();
            clear_if_branches_comments(&mut cell.tail);
        },
    }
}

/// Clearing a list of if branches a second time changes nothing.
pub proof fn if_branches_without_comments_is_idempotent(list: NodeList<IfBranch>)
    ensures
        if_branches_without_comments(if_branches_without_comments(list))
            == if_branches_without_comments(list),
    decreases list,
{
    match list {
        NodeList::Empty => {},
        NodeList::Cell(cell) => {
            cell.head.without_comments_is_idempotent();
            if_branches_without_comments_is_idempotent(cell.tail);
        },
    }
}

/// Clearing a list of if branches leaves its depth as it is.
pub proof fn if_branches_without_comments_keeps_depth(list: NodeList<IfBranch>)
    ensures
        if_branches_depth(if_branches_without_comments(list)) == if_branches_depth(list),
    decreases list,
{
    match list {
        NodeList::Empty => {},
        NodeList::Cell(cell) => {
            cell.head.without_comments_keeps_depth();
            if_branches_without_comments_keeps_depth(cell.tail);
        },
    }
}

impl IfStatement {
    /// An `if` with one branch and no `else`.
    pub fn create<E: Into<Expression>>(condition: E, block: Block) -> (statement: Self)
        ensures
            statement.branches@.len() == 1,
            statement.branches@[0].block == block,
            statement.branches@[0].tokens is None,
            call_ensures(
                <E as Into<Expression>>::into,
                (condition,),
                statement.branches@[0].condition,
            ),
            <E as IntoSpec<Expression>>::obeys_into_spec() ==> statement.branches@[0].condition
                == <E as IntoSpec<Expression>>::into_spec(condition),
            statement.else_block is None,
            statement.tokens is None,
    {
        let mut branches = NodeList::new();
        branches.push(IfBranch { condition: condition.into(), block, tokens: None });
        IfStatement { branches, else_block: None, tokens: None }
    }

    /// A node built from its parts, without tokens.
    pub fn new(branches: Vec<IfBranch>, else_block: Option<Block>) -> (statement: Self)
        ensures
            statement.branches@ == branches@,
            statement.else_block == else_block,
            statement.tokens is None,
    {
        IfStatement { branches: NodeList::from_vec(branches), else_block, tokens: None }
    }

    /// This statement with one more `elseif` branch after the others.
    pub fn with_new_branch<E: Into<Expression>>(self, condition: E, block: Block) -> (statement:
        Self)
        ensures
            statement.branches@.len() == self.branches@.len() + 1,
            statement.branches@.subrange(0, self.branches@.len() as int) == self.branches@,
            statement.branches@.last().block == block,
            call_ensures(
                <E as Into<Expression>>::into,
                (condition,),
                statement.branches@.last().condition,
            ),
            <E as IntoSpec<Expression>>::obeys_into_spec() ==> statement.branches@.last().condition
                == <E as IntoSpec<Expression>>::into_spec(condition),
            statement.else_block == self.else_block,
            statement.tokens == self.tokens,
    {
        let mut statement = self;
        statement.branches.push(IfBranch { condition: condition.into(), block, tokens: None });
        assert(statement.branches@.subrange(0, self.branches@.len() as int) =~= self.branches@);
        statement
    }

    /// This statement with `block` as its `else` block.
    pub fn with_else_block(self, block: Block) -> (statement: Self)
        ensures
            statement == (IfStatement { else_block: Some(block), ..self }),
    {
        let mut statement = self;
        statement.else_block = Some(block);
        statement
    }
}

} // verus!
