//! What a visit that removes comments leaves: expressions.
use crate::nodes::{
    Arguments, BinaryExpression, ElseIfExpressionBranch, Expression, FieldExpression, FunctionCall,
    FunctionExpression, Identifier, IfExpression, IndexExpression, InterpolatedStringExpression,
    InterpolationSegment, NumberExpression, ParentheseExpression, Prefix, StringExpression,
    TableEntry, TableExpression, TypeCastExpression, UnaryExpression, Variable,
};
use crate::process::walk::{
    walk_arguments, walk_binary_expression, walk_block, walk_else_if_branch, walk_else_if_branches,
    walk_expression, walk_expressions, walk_field_expression, walk_function_call,
    walk_function_expression, walk_function_return_type, walk_function_variadic_type,
    walk_identifier, walk_if_expression, walk_index_expression, walk_interpolated_string_expression,
    walk_number_expression, walk_parenthese_expression, walk_prefix_expression, walk_segment,
    walk_segments, walk_string_expression, walk_table, walk_table_entries, walk_table_entry,
    walk_type, walk_type_cast_expression, walk_typed_identifiers, walk_unary_expression,
    walk_variable,
};
use crate::rules::remove_comments::{RemoveCommentProcessor, processors_are_equal};
use crate::rules::stripping::lists::{
    visit_strips_else_if_branches, visit_strips_expressions, visit_strips_segments,
    visit_strips_table_entries, visit_strips_typed_identifiers,
};
use crate::rules::stripping::statements::{visit_strips_block, visit_strips_identifier};
use crate::rules::stripping::types::{
    visit_strips_function_return_type, visit_strips_function_variadic_type, visit_strips_type,
};
use vstd::prelude::*;

verus! {

/// A visit of an expression takes the comments out of every token of it and of
/// everything under it, and changes nothing else.
pub proof fn visit_strips_expression(expression: Expression)
    ensures
        forall|p: RemoveCommentProcessor|
            (#[trigger] walk_expression(p, expression)).1 == expression.stripped(),
    decreases expression.depth(), 0nat,
{
    expression.without_comments_is_idempotent();
    expression.without_comments_keeps_depth();
    expression.stripped_absorbs_clearing();
    let entered = expression.without_comments();
    match entered {
        Expression::Binary(inner) => {
            visit_strips_binary_expression(*inner);
        },
        Expression::Call(inner) => {
            visit_strips_function_call(*inner);
        },
        Expression::Field(inner) => {
            visit_strips_field_expression(*inner);
        },
        Expression::Function(inner) => {
            visit_strips_function_expression(*inner);
        },
        Expression::Identifier(inner) => {
            visit_strips_identifier(inner);
        },
        Expression::If(inner) => {
            visit_strips_if_expression(*inner);
        },
        Expression::Index(inner) => {
            visit_strips_index_expression(*inner);
        },
        Expression::Number(inner) => {
            visit_strips_number_expression(inner);
        },
        Expression::Parenthese(inner) => {
            visit_strips_parenthese_expression(*inner);
        },
        Expression::String(inner) => {
            visit_strips_string_expression(inner);
        },
        Expression::InterpolatedString(inner) => {
            visit_strips_interpolated_string_expression(inner);
        },
        Expression::Table(inner) => {
            visit_strips_table(inner);
        },
        Expression::Unary(inner) => {
            visit_strips_unary_expression(*inner);
        },
        Expression::TypeCast(inner) => {
            visit_strips_type_cast_expression(inner);
        },
        _ => {},
    }
    assert forall|p: RemoveCommentProcessor|
        (#[trigger] walk_expression(p, expression)).1 == expression.stripped() by {
        match entered {
            Expression::Binary(inner) => {
                processors_are_equal(walk_binary_expression(p, *inner).0, p);
            },
            Expression::Call(inner) => {
                processors_are_equal(walk_function_call(p, *inner).0, p);
            },
            Expression::Field(inner) => {
                processors_are_equal(walk_field_expression(p, *inner).0, p);
            },
            Expression::Function(inner) => {
                processors_are_equal(walk_function_expression(p, *inner).0, p);
            },
            Expression::Identifier(inner) => {
                processors_are_equal(walk_identifier(p, inner).0, p);
            },
            Expression::If(inner) => {
                processors_are_equal(walk_if_expression(p, *inner).0, p);
            },
            Expression::Index(inner) => {
                processors_are_equal(walk_index_expression(p, *inner).0, p);
            },
            Expression::Number(inner) => {
                processors_are_equal(walk_number_expression(p, inner).0, p);
            },
            Expression::Parenthese(inner) => {
                processors_are_equal(walk_parenthese_expression(p, *inner).0, p);
            },
            Expression::String(inner) => {
                processors_are_equal(walk_string_expression(p, inner).0, p);
            },
            Expression::InterpolatedString(inner) => {
                processors_are_equal(walk_interpolated_string_expression(p, inner).0, p);
            },
            Expression::Table(inner) => {
                processors_are_equal(walk_table(p, inner).0, p);
            },
            Expression::Unary(inner) => {
                processors_are_equal(walk_unary_expression(p, *inner).0, p);
            },
            Expression::TypeCast(inner) => {
                processors_are_equal(walk_type_cast_expression(p, inner).0, p);
            },
            _ => {},
        }
    }
}

/// A visit of a binary expression takes the comments out of every token of it and of
/// everything under it, and changes nothing else.
pub proof fn visit_strips_binary_expression(binary: BinaryExpression)
    ensures
        forall|p: RemoveCommentProcessor|
            (#[trigger] walk_binary_expression(p, binary)).1 == binary.stripped(),
    decreases binary.depth(), 0nat,
{
    binary.without_comments_is_idempotent();
    binary.without_comments_keeps_depth();
    binary.stripped_absorbs_clearing();
    let entered = binary.without_comments();
    visit_strips_expression(entered.left);
    visit_strips_expression(entered.right);
    assert forall|p: RemoveCommentProcessor|
        (#[trigger] walk_binary_expression(p, binary)).1 == binary.stripped() by {
        processors_are_equal(walk_expression(p, entered.left).0, p);
        processors_are_equal(walk_expression(p, entered.right).0, p);
    }
}

/// A visit of a number takes the comments out of every token of it and of everything
/// under it, and changes nothing else.
pub proof fn visit_strips_number_expression(number: NumberExpression)
    ensures
        forall|p: RemoveCommentProcessor|
            (#[trigger] walk_number_expression(p, number)).1 == number.stripped(),
{
}

/// A visit of a parenthesized expression takes the comments out of every token of it
/// and of everything under it, and changes nothing else.
pub proof fn visit_strips_parenthese_expression(parenthese: ParentheseExpression)
    ensures
        forall|p: RemoveCommentProcessor|
            (#[trigger] walk_parenthese_expression(p, parenthese)).1 == parenthese.stripped(),
    decreases parenthese.depth(), 0nat,
{
    parenthese.without_comments_is_idempotent();
    parenthese.without_comments_keeps_depth();
    parenthese.stripped_absorbs_clearing();
    let entered = parenthese.without_comments();
    visit_strips_expression(entered.expression);
    assert forall|p: RemoveCommentProcessor|
        (#[trigger] walk_parenthese_expression(p, parenthese)).1 == parenthese.stripped() by {
        processors_are_equal(walk_expression(p, entered.expression).0, p);
    }
}

/// A visit of a string takes the comments out of every token of it and of everything
/// under it, and changes nothing else.
pub proof fn visit_strips_string_expression(string: StringExpression)
    ensures
        forall|p: RemoveCommentProcessor|
            (#[trigger] walk_string_expression(p, string)).1 == string.stripped(),
{
}

/// A visit of an interpolated string takes the comments out of every token of it and of
/// everything under it, and changes nothing else.
pub proof fn visit_strips_interpolated_string_expression(
    interpolated_string: InterpolatedStringExpression,
)
    ensures
        forall|p: RemoveCommentProcessor|
            (#[trigger] walk_interpolated_string_expression(p, interpolated_string)).1
                == interpolated_string.stripped(),
    decreases interpolated_string.depth(), 0nat,
{
    interpolated_string.without_comments_is_idempotent();
    interpolated_string.without_comments_keeps_depth();
    interpolated_string.stripped_absorbs_clearing();
    let entered = interpolated_string.without_comments();
    visit_strips_segments(entered.segments);
    assert forall|p: RemoveCommentProcessor|
        (#[trigger] walk_interpolated_string_expression(p, interpolated_string)).1
            == interpolated_string.stripped() by {
        processors_are_equal(walk_segments(p, entered.segments).0, p);
    }
}

/// A visit of a unary expression takes the comments out of every token of it and of
/// everything under it, and changes nothing else.
pub proof fn visit_strips_unary_expression(unary: UnaryExpression)
    ensures
        forall|p: RemoveCommentProcessor|
            (#[trigger] walk_unary_expression(p, unary)).1 == unary.stripped(),
    decreases unary.depth(), 0nat,
{
    unary.without_comments_is_idempotent();
    unary.without_comments_keeps_depth();
    unary.stripped_absorbs_clearing();
    let entered = unary.without_comments();
    visit_strips_expression(entered.expression);
    assert forall|p: RemoveCommentProcessor|
        (#[trigger] walk_unary_expression(p, unary)).1 == unary.stripped() by {
        processors_are_equal(walk_expression(p, entered.expression).0, p);
    }
}

/// A visit of a type cast takes the comments out of every token of it and of everything
/// under it, and changes nothing else.
pub proof fn visit_strips_type_cast_expression(type_cast: TypeCastExpression)
    ensures
        forall|p: RemoveCommentProcessor|
            (#[trigger] walk_type_cast_expression(p, type_cast)).1 == type_cast.stripped(),
    decreases type_cast.depth(), 0nat,
{
    type_cast.without_comments_is_idempotent();
    type_cast.without_comments_keeps_depth();
    type_cast.stripped_absorbs_clearing();
    let entered = type_cast.without_comments();
    visit_strips_expression(*entered.expression);
    visit_strips_type(*entered.cast_type);
    assert forall|p: RemoveCommentProcessor|
        (#[trigger] walk_type_cast_expression(p, type_cast)).1 == type_cast.stripped() by {
        processors_are_equal(walk_expression(p, *entered.expression).0, p);
        processors_are_equal(walk_type(p, *entered.cast_type).0, p);
    }
}

/// A visit of an anonymous function takes the comments out of every token of it and of
/// everything under it, and changes nothing else.
pub proof fn visit_strips_function_expression(function: FunctionExpression)
    ensures
        forall|p: RemoveCommentProcessor|
            (#[trigger] walk_function_expression(p, function)).1 == function.stripped(),
    decreases function.depth(), 0nat,
{
    function.without_comments_is_idempotent();
    function.without_comments_keeps_depth();
    function.stripped_absorbs_clearing();
    let entered = function.without_comments();
    visit_strips_block(entered.block);
    visit_strips_typed_identifiers(entered.parameters);
    match entered.variadic_type {
        Some(inner) => {
            visit_strips_function_variadic_type(inner);
        },
        None => {},
    }
    match entered.return_type {
        Some(inner) => {
            visit_strips_function_return_type(inner);
        },
        None => {},
    }
    assert forall|p: RemoveCommentProcessor|
        (#[trigger] walk_function_expression(p, function)).1 == function.stripped() by {
        processors_are_equal(walk_block(p, entered.block).0, p);
        processors_are_equal(walk_typed_identifiers(p, entered.parameters).0, p);
        match entered.variadic_type {
            Some(inner) => {
                processors_are_equal(walk_function_variadic_type(p, inner).0, p);
            },
            None => {},
        }
        match entered.return_type {
            Some(inner) => {
                processors_are_equal(walk_function_return_type(p, inner).0, p);
            },
            None => {},
        }
    }
}

/// A visit of a variable takes the comments out of every token of it and of everything
/// under it, and changes nothing else.
pub proof fn visit_strips_variable(variable: Variable)
    ensures
        forall|p: RemoveCommentProcessor|
            (#[trigger] walk_variable(p, variable)).1 == variable.stripped(),
    decreases variable.depth(), 0nat,
{
    match variable {
        Variable::Identifier(inner) => {
            visit_strips_identifier(inner);
        },
        Variable::Field(inner) => {
            visit_strips_field_expression(*inner);
        },
        Variable::Index(inner) => {
            visit_strips_index_expression(*inner);
        },
    }
    assert forall|p: RemoveCommentProcessor|
        (#[trigger] walk_variable(p, variable)).1 == variable.stripped() by {
        match variable {
            Variable::Identifier(inner) => {
                processors_are_equal(walk_identifier(p, inner).0, p);
            },
            Variable::Field(inner) => {
                processors_are_equal(walk_field_expression(p, *inner).0, p);
            },
            Variable::Index(inner) => {
                processors_are_equal(walk_index_expression(p, *inner).0, p);
            },
            _ => {},
        }
    }
}

/// A visit of an if expression takes the comments out of every token of it and of
/// everything under it, and changes nothing else.
pub proof fn visit_strips_if_expression(if_expression: IfExpression)
    ensures
        forall|p: RemoveCommentProcessor|
            (#[trigger] walk_if_expression(p, if_expression)).1 == if_expression.stripped(),
    decreases if_expression.depth(), 0nat,
{
    if_expression.without_comments_is_idempotent();
    if_expression.without_comments_keeps_depth();
    if_expression.stripped_absorbs_clearing();
    let entered = if_expression.without_comments();
    visit_strips_expression(entered.condition);
    visit_strips_expression(entered.result);
    visit_strips_else_if_branches(entered.branches);
    visit_strips_expression(entered.else_result);
    assert forall|p: RemoveCommentProcessor|
        (#[trigger] walk_if_expression(p, if_expression)).1 == if_expression.stripped() by {
        processors_are_equal(walk_expression(p, entered.condition).0, p);
        processors_are_equal(walk_expression(p, entered.result).0, p);
        processors_are_equal(walk_else_if_branches(p, entered.branches).0, p);
        processors_are_equal(walk_expression(p, entered.else_result).0, p);
    }
}

/// A visit of a field expression takes the comments out of every token of it and of
/// everything under it, and changes nothing else.
pub proof fn visit_strips_field_expression(field: FieldExpression)
    ensures
        forall|p: RemoveCommentProcessor|
            (#[trigger] walk_field_expression(p, field)).1 == field.stripped(),
    decreases field.depth(), 0nat,
{
    field.without_comments_is_idempotent();
    field.without_comments_keeps_depth();
    field.stripped_absorbs_clearing();
    let entered = field.without_comments();
    visit_strips_prefix_expression(entered.prefix);
    assert forall|p: RemoveCommentProcessor|
        (#[trigger] walk_field_expression(p, field)).1 == field.stripped() by {
        processors_are_equal(walk_prefix_expression(p, entered.prefix).0, p);
    }
}

/// A visit of an index expression takes the comments out of every token of it and of
/// everything under it, and changes nothing else.
pub proof fn visit_strips_index_expression(index: IndexExpression)
    ensures
        forall|p: RemoveCommentProcessor|
            (#[trigger] walk_index_expression(p, index)).1 == index.stripped(),
    decreases index.depth(), 0nat,
{
    index.without_comments_is_idempotent();
    index.without_comments_keeps_depth();
    index.stripped_absorbs_clearing();
    let entered = index.without_comments();
    visit_strips_prefix_expression(entered.prefix);
    visit_strips_expression(entered.index);
    assert forall|p: RemoveCommentProcessor|
        (#[trigger] walk_index_expression(p, index)).1 == index.stripped() by {
        processors_are_equal(walk_prefix_expression(p, entered.prefix).0, p);
        processors_are_equal(walk_expression(p, entered.index).0, p);
    }
}

/// A visit of a function call takes the comments out of every token of it and of
/// everything under it, and changes nothing else.
pub proof fn visit_strips_function_call(call: FunctionCall)
    ensures
        forall|p: RemoveCommentProcessor|
            (#[trigger] walk_function_call(p, call)).1 == call.stripped(),
    decreases call.depth(), 0nat,
{
    call.without_comments_is_idempotent();
    call.without_comments_keeps_depth();
    call.stripped_absorbs_clearing();
    let entered = call.without_comments();
    visit_strips_prefix_expression(*entered.prefix);
    visit_strips_arguments(entered.arguments);
    assert forall|p: RemoveCommentProcessor|
        (#[trigger] walk_function_call(p, call)).1 == call.stripped() by {
        processors_are_equal(walk_prefix_expression(p, *entered.prefix).0, p);
        processors_are_equal(walk_arguments(p, entered.arguments).0, p);
    }
}

/// A visit of the arguments of a call takes the comments out of every token of it and
/// of everything under it, and changes nothing else, where its own tokens held no
/// comment before.
pub proof fn visit_strips_arguments(arguments: Arguments)
    requires
        arguments.without_comments() == arguments,
    ensures
        forall|p: RemoveCommentProcessor|
            (#[trigger] walk_arguments(p, arguments)).1 == arguments.stripped(),
    decreases arguments.depth(), 0nat,
{
    match arguments {
        Arguments::String(inner) => {
            visit_strips_string_expression(inner);
        },
        Arguments::Table(inner) => {
            visit_strips_table(inner);
        },
        Arguments::Tuple(inner) => {
            visit_strips_expressions(inner.values);
        },
    }
    assert forall|p: RemoveCommentProcessor|
        (#[trigger] walk_arguments(p, arguments)).1 == arguments.stripped() by {
        match arguments {
            Arguments::String(inner) => {
                processors_are_equal(walk_string_expression(p, inner).0, p);
            },
            Arguments::Table(inner) => {
                processors_are_equal(walk_table(p, inner).0, p);
            },
            Arguments::Tuple(inner) => {
                processors_are_equal(walk_expressions(p, inner.values).0, p);
            },
            _ => {},
        }
    }
}

/// A visit of a table constructor takes the comments out of every token of it and of
/// everything under it, and changes nothing else.
pub proof fn visit_strips_table(table: TableExpression)
    ensures
        forall|p: RemoveCommentProcessor| (#[trigger] walk_table(p, table)).1 == table.stripped(),
    decreases table.depth(), 0nat,
{
    table.without_comments_is_idempotent();
    table.without_comments_keeps_depth();
    table.stripped_absorbs_clearing();
    let entered = table.without_comments();
    visit_strips_table_entries(entered.entries);
    assert forall|p: RemoveCommentProcessor|
        (#[trigger] walk_table(p, table)).1 == table.stripped() by {
        processors_are_equal(walk_table_entries(p, entered.entries).0, p);
    }
}

/// A visit of a prefix takes the comments out of every token of it and of everything
/// under it, and changes nothing else.
pub proof fn visit_strips_prefix_expression(prefix: Prefix)
    ensures
        forall|p: RemoveCommentProcessor|
            (#[trigger] walk_prefix_expression(p, prefix)).1 == prefix.stripped(),
    decreases prefix.depth(), 0nat,
{
    match prefix {
        Prefix::Call(inner) => {
            visit_strips_function_call(inner);
        },
        Prefix::Field(inner) => {
            visit_strips_field_expression(*inner);
        },
        Prefix::Identifier(inner) => {
            visit_strips_identifier(inner);
        },
        Prefix::Index(inner) => {
            visit_strips_index_expression(*inner);
        },
        Prefix::Parenthese(inner) => {
            visit_strips_parenthese_expression(inner);
        },
    }
    assert forall|p: RemoveCommentProcessor|
        (#[trigger] walk_prefix_expression(p, prefix)).1 == prefix.stripped() by {
        match prefix {
            Prefix::Call(inner) => {
                processors_are_equal(walk_function_call(p, inner).0, p);
            },
            Prefix::Field(inner) => {
                processors_are_equal(walk_field_expression(p, *inner).0, p);
            },
            Prefix::Identifier(inner) => {
                processors_are_equal(walk_identifier(p, inner).0, p);
            },
            Prefix::Index(inner) => {
                processors_are_equal(walk_index_expression(p, *inner).0, p);
            },
            Prefix::Parenthese(inner) => {
                processors_are_equal(walk_parenthese_expression(p, inner).0, p);
            },
            _ => {},
        }
    }
}

/// A visit of an `elseif` branch of an if expression takes the comments out of every
/// token of it and of everything under it, and changes nothing else, where its own
/// tokens held no comment before.
pub proof fn visit_strips_else_if_branch(branch: ElseIfExpressionBranch)
    requires
        branch.without_comments() == branch,
    ensures
        forall|p: RemoveCommentProcessor|
            (#[trigger] walk_else_if_branch(p, branch)).1 == branch.stripped(),
    decreases branch.depth(), 0nat,
{
    visit_strips_expression(branch.condition);
    visit_strips_expression(branch.result);
    assert forall|p: RemoveCommentProcessor|
        (#[trigger] walk_else_if_branch(p, branch)).1 == branch.stripped() by {
        processors_are_equal(walk_expression(p, branch.condition).0, p);
        processors_are_equal(walk_expression(p, branch.result).0, p);
    }
}

/// A visit of a piece of an interpolated string takes the comments out of every token
/// of it and of everything under it, and changes nothing else, where its own tokens
/// held no comment before.
pub proof fn visit_strips_segment(segment: InterpolationSegment)
    requires
        segment.without_comments() == segment,
    ensures
        forall|p: RemoveCommentProcessor|
            (#[trigger] walk_segment(p, segment)).1 == segment.stripped(),
    decreases segment.depth(), 0nat,
{
    match segment {
        InterpolationSegment::Value(inner) => {
            visit_strips_expression(inner.value);
        },
        _ => {},
    }
    assert forall|p: RemoveCommentProcessor|
        (#[trigger] walk_segment(p, segment)).1 == segment.stripped() by {
        match segment {
            InterpolationSegment::Value(inner) => {
                processors_are_equal(walk_expression(p, inner.value).0, p);
            },
            _ => {},
        }
    }
}

/// A visit of an entry of a table constructor takes the comments out of every token of
/// it and of everything under it, and changes nothing else, where its own tokens held
/// no comment before.
pub proof fn visit_strips_table_entry(entry: TableEntry)
    requires
        entry.without_comments() == entry,
    ensures
        forall|p: RemoveCommentProcessor|
            (#[trigger] walk_table_entry(p, entry)).1 == entry.stripped(),
    decreases entry.depth(), 0nat,
{
    match entry {
        TableEntry::Field(inner) => {
            visit_strips_expression(inner.value);
        },
        TableEntry::Index(inner) => {
            visit_strips_expression(inner.key);
            visit_strips_expression(inner.value);
        },
        TableEntry::Value(inner) => {
            visit_strips_expression(inner);
        },
    }
    assert forall|p: RemoveCommentProcessor|
        (#[trigger] walk_table_entry(p, entry)).1 == entry.stripped() by {
        match entry {
            TableEntry::Field(inner) => {
                processors_are_equal(walk_expression(p, inner.value).0, p);
            },
            TableEntry::Index(inner) => {
                processors_are_equal(walk_expression(p, inner.key).0, p);
                processors_are_equal(walk_expression(p, inner.value).0, p);
            },
            TableEntry::Value(inner) => {
                processors_are_equal(walk_expression(p, inner).0, p);
            },
            _ => {},
        }
    }
}

} // verus!
