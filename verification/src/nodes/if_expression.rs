use crate::nodes::expression::Expression;
use crate::nodes::list::{NodeList, deeper};
use crate::nodes::token::Token;
use vstd::prelude::*;

verus! {

/// An `if` used as an expression: every branch gives a value.
#[derive(Debug, PartialEq, Eq)]
pub struct IfExpression {
    pub condition: Expression,
    pub result: Expression,
    pub else_result: Expression,
    pub branches: NodeList<ElseIfExpressionBranch>,
    pub tokens: Option<IfExpressionTokens>,
}

impl IfExpression {
    /// A node built from its parts, without tokens.
    pub fn new(
        condition: Expression,
        result: Expression,
        else_result: Expression,
        branches: Vec<ElseIfExpressionBranch>,
    ) -> (node: Self)
        ensures
            node.condition == condition,
            node.result == result,
            node.else_result == else_result,
            node.branches@ == branches@,
            node.tokens is None,
    {
        IfExpression {
            condition,
            result,
            else_result,
            branches: NodeList::from_vec(branches),
            tokens: None,
        }
    }

    /// This node with the tokens it was read from.
    pub fn with_tokens(self, tokens: IfExpressionTokens) -> (node: Self)
        ensures
            node == (IfExpression { tokens: Some(tokens), ..self }),
    {
        let mut node = self;
        node.tokens = Some(tokens);
        node
    }

    /// How deep the tree under this node goes.
    pub open spec fn depth(self) -> nat
        decreases self,
    {
        1 + deeper(
            self.condition.depth(),
            deeper(
                self.result.depth(),
                deeper(
                    self.else_result.depth(),
                    else_if_branches_depth(self.branches),
                ),
            ),
        )
    }

    /// This node with every comment taken out of its own tokens and of the parts that
    /// are cleared with it.
    pub open spec fn without_comments(self) -> Self {
        IfExpression {
            branches: else_if_branches_without_comments(self.branches),
            tokens: match self.tokens {
                Some(tokens) => Some(tokens.without_comments()),
                None => None,
            },
            ..self
        }
    }

    /// Takes the comments out of the tokens of this node and of the parts that are
    /// cleared with it. What the node means stays as it is.
    pub fn clear_comments(&mut self)
        ensures
            *final(self) == old(self).without_comments(),
    {
        clear_else_if_branches_comments(&mut self.branches);
        match &mut self.tokens {
            Some(tokens) => tokens.clear_comments(),
            None => {},
        }
    }

    /// Clearing comments a second time changes nothing.
    pub proof fn without_comments_is_idempotent(self)
        ensures
            self.without_comments().without_comments() == self.without_comments(),
    {
        else_if_branches_without_comments_is_idempotent(self.branches);
        match self.tokens {
            Some(tokens) => tokens.without_comments_is_idempotent(),
            None => {},
        }
    }

    /// Clearing comments leaves the depth as it is.
    pub proof fn without_comments_keeps_depth(self)
        ensures
            self.without_comments().depth() == self.depth(),
    {
        else_if_branches_without_comments_keeps_depth(self.branches);
    }

    /// Whether no token of this node, nor of anything under it, holds a comment.
    pub open spec fn is_comment_free(self) -> bool
        decreases self,
    {
        &&& self.condition.is_comment_free()
        &&& self.result.is_comment_free()
        &&& self.else_result.is_comment_free()
        &&& else_if_branches_are_comment_free(self.branches)
        &&& match self.tokens {
            Some(tokens) => tokens.is_comment_free(),
            None => true,
        }
    }

    /// This node with the comments taken out of every token of it and of everything
    /// under it.
    pub open spec fn stripped(self) -> Self
        decreases self,
    {
        IfExpression {
            condition: self.condition.stripped(),
            result: self.result.stripped(),
            else_result: self.else_result.stripped(),
            branches: else_if_branches_stripped(self.branches),
            tokens: match self.tokens {
                Some(tokens) => Some(tokens.without_comments()),
                None => None,
            },
        }
    }

    /// Taking the comments out of everything makes no difference between a node and the
    /// node cleared.
    pub proof fn stripped_absorbs_clearing(self)
        ensures
            self.without_comments().stripped() == self.stripped(),
    {
        self.without_comments_is_idempotent();
        else_if_branches_stripped_absorbs_clearing(self.branches);
    }

    /// Once the comments are taken out of everything, no token holds a comment.
    pub proof fn stripped_is_comment_free(self)
        ensures
            self.stripped().is_comment_free(),
        decreases self.depth(), 0nat,
    {
        self.condition.stripped_is_comment_free();
        self.result.stripped_is_comment_free();
        self.else_result.stripped_is_comment_free();
        else_if_branches_stripped_are_comment_free(self.branches);
        match self.tokens {
            Some(tokens) => {
                tokens.without_comments_is_idempotent();
                tokens.without_comments().cleared_is_comment_free();
            },
            None => {},
        }
    }

    /// Taking the comments out of everything a second time changes nothing.
    pub proof fn stripped_is_idempotent(self)
        ensures
            self.stripped().stripped() == self.stripped(),
        decreases self.depth(), 0nat,
    {
        self.condition.stripped_is_idempotent();
        self.result.stripped_is_idempotent();
        self.else_result.stripped_is_idempotent();
        else_if_branches_stripped_is_idempotent(self.branches);
        match self.tokens {
            Some(tokens) => tokens.without_comments_is_idempotent(),
            None => {},
        }
    }
}

/// The tokens of an if expression.
#[derive(Debug, PartialEq, Eq)]
pub struct IfExpressionTokens {
    pub if_token: Token,
    pub then_token: Token,
    pub else_token: Token,
}

impl IfExpressionTokens {
    /// These tokens with every comment taken out of their trivia.
    pub open spec fn without_comments(self) -> Self {
        IfExpressionTokens {
            if_token: self.if_token.without_comments(),
            then_token: self.then_token.without_comments(),
            else_token: self.else_token.without_comments(),
        }
    }

    /// Takes the comments out of the trivia of every token.
    pub fn clear_comments(&mut self)
        ensures
            *final(self) == old(self).without_comments(),
    {
        self.if_token.clear_comments();
        self.then_token.clear_comments();
        self.else_token.clear_comments();
    }

    /// Clearing comments a second time changes nothing.
    pub proof fn without_comments_is_idempotent(self)
        ensures
            self.without_comments().without_comments() == self.without_comments(),
    {
        self.if_token.without_comments_is_idempotent();
        self.then_token.without_comments_is_idempotent();
        self.else_token.without_comments_is_idempotent();
    }

    /// Whether none of these tokens holds a comment.
    pub open spec fn is_comment_free(self) -> bool {
        &&& self.if_token.is_comment_free()
        &&& self.then_token.is_comment_free()
        &&& self.else_token.is_comment_free()
    }

    /// Tokens that clearing leaves as they are hold no comment.
    pub proof fn cleared_is_comment_free(self)
        requires
            self.without_comments() == self,
        ensures
            self.is_comment_free(),
    {
        self.if_token.cleared_is_comment_free();
        self.then_token.cleared_is_comment_free();
        self.else_token.cleared_is_comment_free();
    }
}

/// An `elseif` branch of an if expression.
#[derive(Debug, PartialEq, Eq)]
pub struct ElseIfExpressionBranch {
    pub condition: Expression,
    pub result: Expression,
    pub tokens: Option<ElseIfExpressionBranchTokens>,
}

impl ElseIfExpressionBranch {
    /// A node built from its parts, without tokens.
    pub fn new(condition: Expression, result: Expression) -> (node: Self)
        ensures
            node.condition == condition,
            node.result == result,
            node.tokens is None,
    {
        ElseIfExpressionBranch { condition, result, tokens: None }
    }

    /// This node with the tokens it was read from.
    pub fn with_tokens(self, tokens: ElseIfExpressionBranchTokens) -> (node: Self)
        ensures
            node == (ElseIfExpressionBranch { tokens: Some(tokens), ..self }),
    {
        let mut node = self;
        node.tokens = Some(tokens);
        node
    }

    /// How deep the tree under this node goes.
    pub open spec fn depth(self) -> nat
        decreases self,
    {
        1 + deeper(
            self.condition.depth(),
            self.result.depth(),
        )
    }

    /// This node with every comment taken out of its own tokens.
    pub open spec fn without_comments(self) -> Self {
        ElseIfExpressionBranch {
            tokens: match self.tokens {
                Some(tokens) => Some(tokens.without_comments()),
                None => None,
            },
            ..self
        }
    }

    /// Takes the comments out of the tokens of this node. What the node means stays as
    /// it is.
    pub fn clear_comments(&mut self)
        ensures
            *final(self) == old(self).without_comments(),
    {
        match &mut self.tokens {
            Some(tokens) => tokens.clear_comments(),
            None => {},
        }
    }

    /// Clearing comments a second time changes nothing.
    pub proof fn without_comments_is_idempotent(self)
        ensures
            self.without_comments().without_comments() == self.without_comments(),
    {
        match self.tokens {
            Some(tokens) => tokens.without_comments_is_idempotent(),
            None => {},
        }
    }

    /// Clearing comments leaves the depth as it is.
    pub proof fn without_comments_keeps_depth(self)
        ensures
            self.without_comments().depth() == self.depth(),
    {
    }

    /// Whether no token of this node, nor of anything under it, holds a comment.
    pub open spec fn is_comment_free(self) -> bool
        decreases self,
    {
        &&& self.condition.is_comment_free()
        &&& self.result.is_comment_free()
        &&& match self.tokens {
            Some(tokens) => tokens.is_comment_free(),
            None => true,
        }
    }

    /// This node with the comments taken out of every token of it and of everything
    /// under it.
    pub open spec fn stripped(self) -> Self
        decreases self,
    {
        ElseIfExpressionBranch {
            condition: self.condition.stripped(),
            result: self.result.stripped(),
            tokens: match self.tokens {
                Some(tokens) => Some(tokens.without_comments()),
                None => None,
            },
        }
    }

    /// Taking the comments out of everything makes no difference between a node and the
    /// node cleared.
    pub proof fn stripped_absorbs_clearing(self)
        ensures
            self.without_comments().stripped() == self.stripped(),
    {
        self.without_comments_is_idempotent();
    }

    /// Once the comments are taken out of everything, no token holds a comment.
    pub proof fn stripped_is_comment_free(self)
        ensures
            self.stripped().is_comment_free(),
        decreases self.depth(), 0nat,
    {
        self.condition.stripped_is_comment_free();
        self.result.stripped_is_comment_free();
        match self.tokens {
            Some(tokens) => {
                tokens.without_comments_is_idempotent();
                tokens.without_comments().cleared_is_comment_free();
            },
            None => {},
        }
    }

    /// Taking the comments out of everything a second time changes nothing.
    pub proof fn stripped_is_idempotent(self)
        ensures
            self.stripped().stripped() == self.stripped(),
        decreases self.depth(), 0nat,
    {
        self.condition.stripped_is_idempotent();
        self.result.stripped_is_idempotent();
        match self.tokens {
            Some(tokens) => tokens.without_comments_is_idempotent(),
            None => {},
        }
    }
}

/// The tokens of an `elseif` branch of an if expression.
#[derive(Debug, PartialEq, Eq)]
pub struct ElseIfExpressionBranchTokens {
    pub elseif: Token,
    pub then_token: Token,
}

impl ElseIfExpressionBranchTokens {
    /// These tokens with every comment taken out of their trivia.
    pub open spec fn without_comments(self) -> Self {
        ElseIfExpressionBranchTokens {
            elseif: self.elseif.without_comments(),
            then_token: self.then_token.without_comments(),
        }
    }

    /// Takes the comments out of the trivia of every token.
    pub fn clear_comments(&mut self)
        ensures
            *final(self) == old(self).without_comments(),
    {
        self.elseif.clear_comments();
        self.then_token.clear_comments();
    }

    /// Clearing comments a second time changes nothing.
    pub proof fn without_comments_is_idempotent(self)
        ensures
            self.without_comments().without_comments() == self.without_comments(),
    {
        self.elseif.without_comments_is_idempotent();
        self.then_token.without_comments_is_idempotent();
    }

    /// Whether none of these tokens holds a comment.
    pub open spec fn is_comment_free(self) -> bool {
        &&& self.elseif.is_comment_free()
        &&& self.then_token.is_comment_free()
    }

    /// Tokens that clearing leaves as they are hold no comment.
    pub proof fn cleared_is_comment_free(self)
        requires
            self.without_comments() == self,
        ensures
            self.is_comment_free(),
    {
        self.elseif.cleared_is_comment_free();
        self.then_token.cleared_is_comment_free();
    }
}

/// Whether none of a list of else if branches holds a comment.
pub open spec fn else_if_branches_are_comment_free(list: NodeList<ElseIfExpressionBranch>) -> bool
    decreases list,
{
    match list {
        NodeList::Empty => true,
        NodeList::Cell(cell) => {
            cell.head.is_comment_free() && else_if_branches_are_comment_free(cell.tail)
        },
    }
}

/// A list of else if branches with the comments taken out of every token of them.
pub open spec fn else_if_branches_stripped(
    list: NodeList<ElseIfExpressionBranch>,
) -> NodeList<ElseIfExpressionBranch>
    decreases list,
{
    match list {
        NodeList::Empty => NodeList::Empty,
        NodeList::Cell(cell) => {
            NodeList::cons(cell.head.stripped(), else_if_branches_stripped(cell.tail))
        },
    }
}

/// Once the comments are taken out of a list of else if branches, no token of them
/// holds a comment.
pub proof fn else_if_branches_stripped_are_comment_free(list: NodeList<ElseIfExpressionBranch>)
    ensures
        else_if_branches_are_comment_free(else_if_branches_stripped(list)),
    decreases else_if_branches_depth(list), 1 + list.count(),
{
    match list {
        NodeList::Empty => {},
        NodeList::Cell(cell) => {
            cell.head.stripped_is_comment_free();
            else_if_branches_stripped_are_comment_free(cell.tail);
        },
    }
}

/// Taking the comments out of a list of else if branches a second time changes nothing.
pub proof fn else_if_branches_stripped_is_idempotent(list: NodeList<ElseIfExpressionBranch>)
    ensures
        else_if_branches_stripped(else_if_branches_stripped(list))
            == else_if_branches_stripped(list),
    decreases else_if_branches_depth(list), 1 + list.count(),
{
    match list {
        NodeList::Empty => {},
        NodeList::Cell(cell) => {
            cell.head.stripped_is_idempotent();
            else_if_branches_stripped_is_idempotent(cell.tail);
        },
    }
}

/// Taking the comments out of everything makes no difference between a list of else if
/// branches and the list cleared.
pub proof fn else_if_branches_stripped_absorbs_clearing(list: NodeList<ElseIfExpressionBranch>)
    ensures
        else_if_branches_stripped(else_if_branches_without_comments(list))
            == else_if_branches_stripped(list),
    decreases list,
{
    match list {
        NodeList::Empty => {},
        NodeList::Cell(cell) => {
            cell.head.stripped_absorbs_clearing();
            else_if_branches_stripped_absorbs_clearing(cell.tail);
        },
    }
}

/// The depth of the deepest of a list of else if branches.
pub open spec fn else_if_branches_depth(list: NodeList<ElseIfExpressionBranch>) -> nat
    decreases list,
{
    match list {
        NodeList::Empty => 0,
        NodeList::Cell(cell) => deeper(cell.head.depth(), else_if_branches_depth(cell.tail)),
    }
}

/// A list of else if branches, each with its comments taken out.
pub open spec fn else_if_branches_without_comments(
    list: NodeList<ElseIfExpressionBranch>,
) -> NodeList<ElseIfExpressionBranch>
    decreases list,
{
    match list {
        NodeList::Empty => NodeList::Empty,
        NodeList::Cell(cell) => NodeList::cons(
            cell.head.without_comments(),
            else_if_branches_without_comments(cell.tail),
        ),
    }
}

/// Takes the comments out of each of a list of else if branches.
pub fn clear_else_if_branches_comments(list: &mut NodeList<ElseIfExpressionBranch>)
    ensures
        *final(list) == else_if_branches_without_comments(*old(list)),
    decreases *old(list),
{
    match list {
        NodeList::Empty => {},
        NodeList::Cell(cell) => {
            cell.head.clear_comments();
            clear_else_if_branches_comments(&mut cell.tail);
        },
    }
}

/// Clearing a list of else if branches a second time changes nothing.
pub proof fn else_if_branches_without_comments_is_idempotent(list: NodeList<ElseIfExpressionBranch>)
    ensures
        else_if_branches_without_comments(else_if_branches_without_comments(list))
            == else_if_branches_without_comments(list),
    decreases list,
{
    match list {
        NodeList::Empty => {},
        NodeList::Cell(cell) => {
            cell.head.without_comments_is_idempotent();
            else_if_branches_without_comments_is_idempotent(cell.tail);
        },
    }
}

/// Clearing a list of else if branches leaves its depth as it is.
pub proof fn else_if_branches_without_comments_keeps_depth(list: NodeList<ElseIfExpressionBranch>)
    ensures
        else_if_branches_depth(else_if_branches_without_comments(list))
            == else_if_branches_depth(list),
    decreases list,
{
    match list {
        NodeList::Empty => {},
        NodeList::Cell(cell) => {
            cell.head.without_comments_keeps_depth();
            else_if_branches_without_comments_keeps_depth(cell.tail);
        },
    }
}

} // verus!
