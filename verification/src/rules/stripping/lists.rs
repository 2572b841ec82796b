//! What a visit that removes comments leaves, list by list.
use crate::nodes::{
    ElseIfExpressionBranch, Expression, FunctionArgumentType, GenericParameter, IfBranch,
    InterpolationSegment, NodeList, Statement, TableEntry, TableEntryType, Type, TypeParameter,
    TypedIdentifier, Variable,
};
use crate::nodes::expression::{expressions_depth, expressions_stripped};
use crate::nodes::function_type::{
    function_argument_types_depth, function_argument_types_stripped,
    function_argument_types_without_comments,
};
use crate::nodes::identifier::{
    typed_identifiers_depth, typed_identifiers_stripped, typed_identifiers_without_comments,
};
use crate::nodes::if_expression::{
    else_if_branches_depth, else_if_branches_stripped, else_if_branches_without_comments,
};
use crate::nodes::if_statement::{
    if_branches_depth, if_branches_stripped, if_branches_without_comments,
};
use crate::nodes::interpolated_string::{
    segments_depth, segments_stripped, segments_without_comments,
};
use crate::nodes::named_type::{type_parameters_depth, type_parameters_stripped};
use crate::nodes::statement::{statements_depth, statements_stripped};
use crate::nodes::table::{
    table_entries_depth, table_entries_stripped, table_entries_without_comments,
};
use crate::nodes::table_type::{
    table_entry_types_depth, table_entry_types_stripped, table_entry_types_without_comments,
};
use crate::nodes::type_declaration::{
    generic_parameters_depth, generic_parameters_stripped, generic_parameters_without_comments,
};
use crate::nodes::types::{types_depth, types_stripped};
use crate::nodes::variable::{variables_depth, variables_stripped};
use crate::process::walk::{
    walk_else_if_branch, walk_else_if_branches, walk_expression, walk_expressions,
    walk_function_argument_type, walk_function_argument_types, walk_generic_parameter,
    walk_generic_parameters, walk_if_branch, walk_if_branches, walk_segment, walk_segments,
    walk_statement, walk_statements, walk_table_entries, walk_table_entry, walk_table_entry_type,
    walk_table_entry_types, walk_type, walk_type_parameter, walk_type_parameters,
    walk_typed_identifier, walk_typed_identifiers, walk_types, walk_variable, walk_variables,
};
use crate::rules::remove_comments::{RemoveCommentProcessor, processors_are_equal};
use crate::rules::stripping::expressions::{
    visit_strips_else_if_branch, visit_strips_expression, visit_strips_segment,
    visit_strips_table_entry, visit_strips_variable,
};
use crate::rules::stripping::statements::{
    visit_strips_generic_parameter, visit_strips_if_branch, visit_strips_statement,
    visit_strips_typed_identifier,
};
use crate::rules::stripping::types::{
    visit_strips_function_argument_type, visit_strips_table_entry_type, visit_strips_type,
    visit_strips_type_parameter,
};
use vstd::prelude::*;

verus! {

/// A visit of a list of statements takes the comments out of every token of them, and
/// changes nothing else.
pub proof fn visit_strips_statements(list: NodeList<Statement>)
    ensures
        forall|p: RemoveCommentProcessor|
            (#[trigger] walk_statements(p, list)).1 == statements_stripped(list),
    decreases statements_depth(list), 1 + list.count(),
{
    match list {
        NodeList::Empty => {},
        NodeList::Cell(cell) => {
            visit_strips_statement(cell.head);
            visit_strips_statements(cell.tail);
            assert forall|p: RemoveCommentProcessor|
                (#[trigger] walk_statements(p, list)).1 == statements_stripped(list) by {
                processors_are_equal(walk_statement(p, cell.head).0, p);
                processors_are_equal(walk_statements(p, cell.tail).0, p);
            }
        },
    }
}

/// A visit of a list of expressions takes the comments out of every token of them, and
/// changes nothing else.
pub proof fn visit_strips_expressions(list: NodeList<Expression>)
    ensures
        forall|p: RemoveCommentProcessor|
            (#[trigger] walk_expressions(p, list)).1 == expressions_stripped(list),
    decreases expressions_depth(list), 1 + list.count(),
{
    match list {
        NodeList::Empty => {},
        NodeList::Cell(cell) => {
            visit_strips_expression(cell.head);
            visit_strips_expressions(cell.tail);
            assert forall|p: RemoveCommentProcessor|
                (#[trigger] walk_expressions(p, list)).1 == expressions_stripped(list) by {
                processors_are_equal(walk_expression(p, cell.head).0, p);
                processors_are_equal(walk_expressions(p, cell.tail).0, p);
            }
        },
    }
}

/// A visit of a list of variables takes the comments out of every token of them, and
/// changes nothing else.
pub proof fn visit_strips_variables(list: NodeList<Variable>)
    ensures
        forall|p: RemoveCommentProcessor|
            (#[trigger] walk_variables(p, list)).1 == variables_stripped(list),
    decreases variables_depth(list), 1 + list.count(),
{
    match list {
        NodeList::Empty => {},
        NodeList::Cell(cell) => {
            visit_strips_variable(cell.head);
            visit_strips_variables(cell.tail);
            assert forall|p: RemoveCommentProcessor|
                (#[trigger] walk_variables(p, list)).1 == variables_stripped(list) by {
                processors_are_equal(walk_variable(p, cell.head).0, p);
                processors_are_equal(walk_variables(p, cell.tail).0, p);
            }
        },
    }
}

/// A visit of a list of typed identifiers takes the comments out of every token of
/// them, and changes nothing else, where their own tokens held no comment before.
pub proof fn visit_strips_typed_identifiers(list: NodeList<TypedIdentifier>)
    requires
        typed_identifiers_without_comments(list) == list,
    ensures
        forall|p: RemoveCommentProcessor|
            (#[trigger] walk_typed_identifiers(p, list)).1 == typed_identifiers_stripped(list),
    decreases typed_identifiers_depth(list), 1 + list.count(),
{
    match list {
        NodeList::Empty => {},
        NodeList::Cell(cell) => {
            visit_strips_typed_identifier(cell.head);
            visit_strips_typed_identifiers(cell.tail);
            assert forall|p: RemoveCommentProcessor|
                (#[trigger] walk_typed_identifiers(p, list)).1
                    == typed_identifiers_stripped(list) by {
                processors_are_equal(walk_typed_identifier(p, cell.head).0, p);
                processors_are_equal(walk_typed_identifiers(p, cell.tail).0, p);
            }
        },
    }
}

/// A visit of a list of if branches takes the comments out of every token of them, and
/// changes nothing else, where their own tokens held no comment before.
pub proof fn visit_strips_if_branches(list: NodeList<IfBranch>)
    requires
        if_branches_without_comments(list) == list,
    ensures
        forall|p: RemoveCommentProcessor|
            (#[trigger] walk_if_branches(p, list)).1 == if_branches_stripped(list),
    decreases if_branches_depth(list), 1 + list.count(),
{
    match list {
        NodeList::Empty => {},
        NodeList::Cell(cell) => {
            visit_strips_if_branch(cell.head);
            visit_strips_if_branches(cell.tail);
            assert forall|p: RemoveCommentProcessor|
                (#[trigger] walk_if_branches(p, list)).1 == if_branches_stripped(list) by {
                processors_are_equal(walk_if_branch(p, cell.head).0, p);
                processors_are_equal(walk_if_branches(p, cell.tail).0, p);
            }
        },
    }
}

/// A visit of a list of else if branches takes the comments out of every token of them,
/// and changes nothing else, where their own tokens held no comment before.
pub proof fn visit_strips_else_if_branches(list: NodeList<ElseIfExpressionBranch>)
    requires
        else_if_branches_without_comments(list) == list,
    ensures
        forall|p: RemoveCommentProcessor|
            (#[trigger] walk_else_if_branches(p, list)).1 == else_if_branches_stripped(list),
    decreases else_if_branches_depth(list), 1 + list.count(),
{
    match list {
        NodeList::Empty => {},
        NodeList::Cell(cell) => {
            visit_strips_else_if_branch(cell.head);
            visit_strips_else_if_branches(cell.tail);
            assert forall|p: RemoveCommentProcessor|
                (#[trigger] walk_else_if_branches(p, list)).1
                    == else_if_branches_stripped(list) by {
                processors_are_equal(walk_else_if_branch(p, cell.head).0, p);
                processors_are_equal(walk_else_if_branches(p, cell.tail).0, p);
            }
        },
    }
}

/// A visit of a list of segments takes the comments out of every token of them, and
/// changes nothing else, where their own tokens held no comment before.
pub proof fn visit_strips_segments(list: NodeList<InterpolationSegment>)
    requires
        segments_without_comments(list) == list,
    ensures
        forall|p: RemoveCommentProcessor|
            (#[trigger] walk_segments(p, list)).1 == segments_stripped(list),
    decreases segments_depth(list), 1 + list.count(),
{
    match list {
        NodeList::Empty => {},
        NodeList::Cell(cell) => {
            visit_strips_segment(cell.head);
            visit_strips_segments(cell.tail);
            assert forall|p: RemoveCommentProcessor|
                (#[trigger] walk_segments(p, list)).1 == segments_stripped(list) by {
                processors_are_equal(walk_segment(p, cell.head).0, p);
                processors_are_equal(walk_segments(p, cell.tail).0, p);
            }
        },
    }
}

/// A visit of a list of table entries takes the comments out of every token of them,
/// and changes nothing else, where their own tokens held no comment before.
pub proof fn visit_strips_table_entries(list: NodeList<TableEntry>)
    requires
        table_entries_without_comments(list) == list,
    ensures
        forall|p: RemoveCommentProcessor|
            (#[trigger] walk_table_entries(p, list)).1 == table_entries_stripped(list),
    decreases table_entries_depth(list), 1 + list.count(),
{
    match list {
        NodeList::Empty => {},
        NodeList::Cell(cell) => {
            visit_strips_table_entry(cell.head);
            visit_strips_table_entries(cell.tail);
            assert forall|p: RemoveCommentProcessor|
                (#[trigger] walk_table_entries(p, list)).1 == table_entries_stripped(list) by {
                processors_are_equal(walk_table_entry(p, cell.head).0, p);
                processors_are_equal(walk_table_entries(p, cell.tail).0, p);
            }
        },
    }
}

/// A visit of a list of types takes the comments out of every token of them, and
/// changes nothing else.
pub proof fn visit_strips_types(list: NodeList<Type>)
    ensures
        forall|p: RemoveCommentProcessor|
            (#[trigger] walk_types(p, list)).1 == types_stripped(list),
    decreases types_depth(list), 1 + list.count(),
{
    match list {
        NodeList::Empty => {},
        NodeList::Cell(cell) => {
            visit_strips_type(cell.head);
            visit_strips_types(cell.tail);
            assert forall|p: RemoveCommentProcessor|
                (#[trigger] walk_types(p, list)).1 == types_stripped(list) by {
                processors_are_equal(walk_type(p, cell.head).0, p);
                processors_are_equal(walk_types(p, cell.tail).0, p);
            }
        },
    }
}

/// A visit of a list of type parameters takes the comments out of every token of them,
/// and changes nothing else.
pub proof fn visit_strips_type_parameters(list: NodeList<TypeParameter>)
    ensures
        forall|p: RemoveCommentProcessor|
            (#[trigger] walk_type_parameters(p, list)).1 == type_parameters_stripped(list),
    decreases type_parameters_depth(list), 1 + list.count(),
{
    match list {
        NodeList::Empty => {},
        NodeList::Cell(cell) => {
            visit_strips_type_parameter(cell.head);
            visit_strips_type_parameters(cell.tail);
            assert forall|p: RemoveCommentProcessor|
                (#[trigger] walk_type_parameters(p, list)).1 == type_parameters_stripped(list) by {
                processors_are_equal(walk_type_parameter(p, cell.head).0, p);
                processors_are_equal(walk_type_parameters(p, cell.tail).0, p);
            }
        },
    }
}

/// A visit of a list of table entry types takes the comments out of every token of
/// them, and changes nothing else, where their own tokens held no comment before.
pub proof fn visit_strips_table_entry_types(list: NodeList<TableEntryType>)
    requires
        table_entry_types_without_comments(list) == list,
    ensures
        forall|p: RemoveCommentProcessor|
            (#[trigger] walk_table_entry_types(p, list)).1 == table_entry_types_stripped(list),
    decreases table_entry_types_depth(list), 1 + list.count(),
{
    match list {
        NodeList::Empty => {},
        NodeList::Cell(cell) => {
            visit_strips_table_entry_type(cell.head);
            visit_strips_table_entry_types(cell.tail);
            assert forall|p: RemoveCommentProcessor|
                (#[trigger] walk_table_entry_types(p, list)).1
                    == table_entry_types_stripped(list) by {
                processors_are_equal(walk_table_entry_type(p, cell.head).0, p);
                processors_are_equal(walk_table_entry_types(p, cell.tail).0, p);
            }
        },
    }
}

/// A visit of a list of function argument types takes the comments out of every token
/// of them, and changes nothing else, where their own tokens held no comment before.
pub proof fn visit_strips_function_argument_types(list: NodeList<FunctionArgumentType>)
    requires
        function_argument_types_without_comments(list) == list,
    ensures
        forall|p: RemoveCommentProcessor|
            (#[trigger] walk_function_argument_types(p, list)).1
                == function_argument_types_stripped(list),
    decreases function_argument_types_depth(list), 1 + list.count(),
{
    match list {
        NodeList::Empty => {},
        NodeList::Cell(cell) => {
            visit_strips_function_argument_type(cell.head);
            visit_strips_function_argument_types(cell.tail);
            assert forall|p: RemoveCommentProcessor|
                (#[trigger] walk_function_argument_types(p, list)).1
                    == function_argument_types_stripped(list) by {
                processors_are_equal(walk_function_argument_type(p, cell.head).0, p);
                processors_are_equal(walk_function_argument_types(p, cell.tail).0, p);
            }
        },
    }
}

/// A visit of a list of generic parameters takes the comments out of every token of
/// them, and changes nothing else, where their own tokens held no comment before.
pub proof fn visit_strips_generic_parameters(list: NodeList<GenericParameter>)
    requires
        generic_parameters_without_comments(list) == list,
    ensures
        forall|p: RemoveCommentProcessor|
            (#[trigger] walk_generic_parameters(p, list)).1 == generic_parameters_stripped(list),
    decreases generic_parameters_depth(list), 1 + list.count(),
{
    match list {
        NodeList::Empty => {},
        NodeList::Cell(cell) => {
            visit_strips_generic_parameter(cell.head);
            visit_strips_generic_parameters(cell.tail);
            assert forall|p: RemoveCommentProcessor|
                (#[trigger] walk_generic_parameters(p, list)).1
                    == generic_parameters_stripped(list) by {
                processors_are_equal(walk_generic_parameter(p, cell.head).0, p);
                processors_are_equal(walk_generic_parameters(p, cell.tail).0, p);
            }
        },
    }
}

} // verus!
