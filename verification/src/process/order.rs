//! The order of a visit, stated for the places that passes rely on.
use crate::nodes::{Block, DoStatement, Expression, IfBranch, RepeatStatement};
use crate::process::processor::NodeProcessor;
use crate::process::walk::{
    walk_block, walk_do_statement, walk_expression, walk_if_branch, walk_repeat_statement,
};
use vstd::prelude::*;

verus! {

/// A node is handed to its callback before anything under it is visited, and a block
/// that opens a scope gets its scope notification before the block itself is visited:
/// a do statement goes to its callback, then its block to the scope notification, then
/// to the visit, each step with the processor and the node that the step before left.
pub proof fn callback_then_scope_then_block<P: NodeProcessor>(p: P, statement: DoStatement)
    ensures
        ({
            let (p1, entered) = p.on_do_statement(statement);
            let (p2, scoped) = p1.on_scope(entered.block);
            let (p3, block) = walk_block(p2, scoped);
            walk_do_statement(p, statement) == (p3, DoStatement { block, ..entered })
        }),
{
}

/// In a branch of an if statement the condition is visited first: the block gets its
/// scope notification, and then its visit, with the processor that the visit of the
/// condition left.
pub proof fn condition_comes_before_the_block<P: NodeProcessor>(p: P, branch: IfBranch)
    ensures
        ({
            let (p1, condition) = walk_expression(p, branch.condition);
            let (p2, scoped) = p1.on_scope(branch.block);
            let (p3, block) = walk_block(p2, scoped);
            walk_if_branch(p, branch) == (p3, IfBranch { condition, block, ..branch })
        }),
{
}

/// A repeat loop gets one scope notification, for its block together with its
/// condition, right after its own callback. The block is visited next and the
/// condition last, as they are written; the condition is visited as any expression
/// is.
pub proof fn repeat_scope_comes_before_block_and_condition<P: NodeProcessor>(
    p: P,
    statement: RepeatStatement,
)
    ensures
        ({
            let (p1, entered) = p.on_repeat_statement(statement);
            let (p2, scoped, seen) = p1.on_repeat_scope(entered.block, entered.condition);
            let (p3, block) = walk_block(p2, scoped);
            let (p4, condition) = walk_expression(p3, seen);
            walk_repeat_statement(p, statement) == (
                p4,
                RepeatStatement { block, condition, ..entered },
            )
        }),
{
}

/// A literal without anything under it goes to the callback for expressions and to
/// nothing else.
pub proof fn literal_gets_only_its_callback<P: NodeProcessor>(p: P, expression: Expression)
    requires
        p.on_expression(expression).1 is True || p.on_expression(expression).1 is False
            || p.on_expression(expression).1 is Nil || p.on_expression(
            expression,
        ).1 is VariableArguments,
    ensures
        walk_expression(p, expression) == p.on_expression(expression),
{
}

} // verus!
