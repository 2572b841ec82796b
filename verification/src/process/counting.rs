//! What a traversal with a [`NodeCounter`] ends with: the tree as it was, and each
//! counter raised by the number of nodes of its kind in the tree.
use crate::nodes::{
    Arguments, ArrayType, AssignStatement, BinaryExpression, Block, CompoundAssignStatement,
    DoStatement, ElseIfExpressionBranch, ExportTypeFunctionStatement, Expression, ExpressionType,
    FieldExpression, FunctionArgumentType, FunctionCall, FunctionExpression, FunctionReturnType,
    FunctionStatement, FunctionType, FunctionVariadicType, GenericForStatement, GenericParameter,
    GenericTypePack, GenericTypePackDefault, GenericTypePackWithDefault, Identifier, IfBranch,
    IfExpression, IfStatement, IndexExpression, InterpolatedStringExpression, InterpolationSegment,
    IntersectionType, LastStatement, LocalAssignStatement, LocalFunctionStatement, NodeList,
    NumberExpression, NumericForStatement, OptionalType, ParentheseExpression, ParentheseType,
    Prefix, RepeatStatement, Statement, StringExpression, StringType, TableEntry, TableEntryType,
    TableExpression, TableType, Type, TypeCastExpression, TypeDeclarationStatement, TypeField,
    TypeFunctionStatement, TypeName, TypePack, TypeParameter, TypeVariableWithDefault,
    TypedIdentifier, UnaryExpression, UnionType, Variable, VariadicArgumentType, VariadicTypePack,
    WhileStatement,
};
use crate::process::node_counter::{NodeCounter, Tally};
use crate::process::tally::{
    tally_arguments, tally_array_type, tally_assign_statement, tally_binary_expression, tally_block,
    tally_compound_assign, tally_do_statement, tally_else_if_branch, tally_else_if_branches,
    tally_export_type_function, tally_expression, tally_expression_type, tally_expressions,
    tally_field_expression, tally_function_argument_type, tally_function_argument_types,
    tally_function_call, tally_function_expression, tally_function_return_type,
    tally_function_statement, tally_function_type, tally_function_variadic_type, tally_generic_for,
    tally_generic_parameter, tally_generic_parameters, tally_generic_type_pack,
    tally_generic_type_pack_default, tally_identifier, tally_if_branch, tally_if_branches,
    tally_if_expression, tally_if_statement, tally_index_expression,
    tally_interpolated_string_expression, tally_intersection_type, tally_last_statement,
    tally_local_assign, tally_local_function, tally_number_expression, tally_numeric_for,
    tally_optional_type, tally_parenthese_expression, tally_parenthese_type,
    tally_prefix_expression, tally_repeat_statement, tally_segment, tally_segments, tally_statement,
    tally_statements, tally_string_expression, tally_string_type, tally_table, tally_table_entries,
    tally_table_entry, tally_table_entry_type, tally_table_entry_types, tally_table_type,
    tally_type, tally_type_cast_expression, tally_type_declaration, tally_type_field,
    tally_type_function, tally_type_name, tally_type_pack, tally_type_parameter,
    tally_type_parameters, tally_typed_identifier, tally_typed_identifiers, tally_types,
    tally_unary_expression, tally_union_type, tally_variable, tally_variables,
    tally_variadic_argument_type, tally_variadic_type_pack, tally_while_statement,
};
use crate::process::walk::{
    walk_arguments, walk_array_type, walk_assign_statement, walk_binary_expression, walk_block,
    walk_compound_assign, walk_do_statement, walk_else_if_branch, walk_else_if_branches,
    walk_export_type_function, walk_expression, walk_expression_type, walk_expressions,
    walk_field_expression, walk_function_argument_type, walk_function_argument_types,
    walk_function_call, walk_function_expression, walk_function_return_type,
    walk_function_statement, walk_function_type, walk_function_variadic_type, walk_generic_for,
    walk_generic_parameter, walk_generic_parameters, walk_generic_type_pack,
    walk_generic_type_pack_default, walk_identifier, walk_if_branch, walk_if_branches,
    walk_if_expression, walk_if_statement, walk_index_expression,
    walk_interpolated_string_expression, walk_intersection_type, walk_last_statement,
    walk_local_assign, walk_local_function, walk_number_expression, walk_numeric_for,
    walk_optional_type, walk_parenthese_expression, walk_parenthese_type, walk_prefix_expression,
    walk_repeat_statement, walk_segment, walk_segments, walk_statement, walk_statements,
    walk_string_expression, walk_string_type, walk_table, walk_table_entries, walk_table_entry,
    walk_table_entry_type, walk_table_entry_types, walk_table_type, walk_type,
    walk_type_cast_expression, walk_type_declaration, walk_type_field, walk_type_function,
    walk_type_name, walk_type_pack, walk_type_parameter, walk_type_parameters,
    walk_typed_identifier, walk_typed_identifiers, walk_types, walk_unary_expression,
    walk_union_type, walk_variable, walk_variables, walk_variadic_argument_type,
    walk_variadic_type_pack, walk_while_statement,
};
use vstd::prelude::*;

verus! {

/// A visit of a block leaves the node as it is and adds to each counter the number of
/// nodes of its kind that the visit meets.
pub proof fn counts_block(counter: NodeCounter, block: Block)
    ensures
        walk_block(counter, block) == (counter.plus(tally_block(block)), block),
    decreases block,
{
    let own = Tally { block_count: 1, ..Tally::zero() };
    counts_statements(counter.plus(own), block.statements);
    NodeCounter::plus_plus(counter, own, tally_statements(block.statements));
    let met1 = own.plus(tally_statements(block.statements));
    match block.last_statement {
        Some(inner) => {
            counts_last_statement(counter.plus(met1), inner);
        },
        None => {
            NodeCounter::plus_zero(counter.plus(met1));
        },
    }
    let part2 = match block.last_statement {
        Some(inner) => tally_last_statement(inner),
        None => Tally::zero(),
    };
    NodeCounter::plus_plus(counter, met1, part2);
}

/// A visit of a statement leaves the node as it is and adds to each counter the number
/// of nodes of its kind that the visit meets.
pub proof fn counts_statement(counter: NodeCounter, statement: Statement)
    ensures
        walk_statement(counter, statement) == (counter.plus(tally_statement(statement)), statement),
    decreases statement,
{
    match statement {
        Statement::Assign(inner) => {
            counts_assign_statement(counter, inner);
        },
        Statement::Do(inner) => {
            counts_do_statement(counter, inner);
        },
        Statement::Call(inner) => {
            counts_function_call(counter, inner);
        },
        Statement::CompoundAssign(inner) => {
            counts_compound_assign(counter, inner);
        },
        Statement::Function(inner) => {
            counts_function_statement(counter, inner);
        },
        Statement::GenericFor(inner) => {
            counts_generic_for(counter, inner);
        },
        Statement::If(inner) => {
            counts_if_statement(counter, inner);
        },
        Statement::LocalAssign(inner) => {
            counts_local_assign(counter, inner);
        },
        Statement::LocalFunction(inner) => {
            counts_local_function(counter, inner);
        },
        Statement::TypeFunction(inner) => {
            counts_type_function(counter, inner);
        },
        Statement::ExportTypeFunction(inner) => {
            counts_export_type_function(counter, inner);
        },
        Statement::NumericFor(inner) => {
            counts_numeric_for(counter, inner);
        },
        Statement::Repeat(inner) => {
            counts_repeat_statement(counter, inner);
        },
        Statement::While(inner) => {
            counts_while_statement(counter, inner);
        },
        Statement::TypeDeclaration(inner) => {
            counts_type_declaration(counter, inner);
        },
    }
}

/// A visit of the statement that closes a block leaves the node as it is and adds to
/// each counter the number of nodes of its kind that the visit meets.
pub proof fn counts_last_statement(counter: NodeCounter, last_statement: LastStatement)
    ensures
        walk_last_statement(counter, last_statement) == (
            counter.plus(tally_last_statement(last_statement)),
            last_statement,
        ),
    decreases last_statement,
{
    let own = Tally::of_last_statement(last_statement);
    match last_statement {
        LastStatement::Return(inner) => {
            counts_expressions(counter.plus(own), inner.expressions);
            NodeCounter::plus_plus(counter, own, tally_expressions(inner.expressions));
        },
        _ => {
            Tally::plus_zero(own);
        },
    }
}

/// A visit of an expression leaves the node as it is and adds to each counter the
/// number of nodes of its kind that the visit meets.
pub proof fn counts_expression(counter: NodeCounter, expression: Expression)
    ensures
        walk_expression(counter, expression) == (
            counter.plus(tally_expression(expression)),
            expression,
        ),
    decreases expression,
{
    let own = Tally { expression_count: 1, ..Tally::zero() };
    match expression {
        Expression::Binary(inner) => {
            counts_binary_expression(counter.plus(own), *inner);
            NodeCounter::plus_plus(counter, own, tally_binary_expression(*inner));
        },
        Expression::Call(inner) => {
            counts_function_call(counter.plus(own), *inner);
            NodeCounter::plus_plus(counter, own, tally_function_call(*inner));
        },
        Expression::Field(inner) => {
            counts_field_expression(counter.plus(own), *inner);
            NodeCounter::plus_plus(counter, own, tally_field_expression(*inner));
        },
        Expression::Function(inner) => {
            counts_function_expression(counter.plus(own), *inner);
            NodeCounter::plus_plus(counter, own, tally_function_expression(*inner));
        },
        Expression::Identifier(inner) => {
            counts_identifier(counter.plus(own), inner);
            NodeCounter::plus_plus(counter, own, tally_identifier(inner));
        },
        Expression::If(inner) => {
            counts_if_expression(counter.plus(own), *inner);
            NodeCounter::plus_plus(counter, own, tally_if_expression(*inner));
        },
        Expression::Index(inner) => {
            counts_index_expression(counter.plus(own), *inner);
            NodeCounter::plus_plus(counter, own, tally_index_expression(*inner));
        },
        Expression::Number(inner) => {
            counts_number_expression(counter.plus(own), inner);
            NodeCounter::plus_plus(counter, own, tally_number_expression(inner));
        },
        Expression::Parenthese(inner) => {
            counts_parenthese_expression(counter.plus(own), *inner);
            NodeCounter::plus_plus(counter, own, tally_parenthese_expression(*inner));
        },
        Expression::String(inner) => {
            counts_string_expression(counter.plus(own), inner);
            NodeCounter::plus_plus(counter, own, tally_string_expression(inner));
        },
        Expression::InterpolatedString(inner) => {
            counts_interpolated_string_expression(counter.plus(own), inner);
            let part1 = tally_interpolated_string_expression(inner);
            NodeCounter::plus_plus(counter, own, part1);
        },
        Expression::Table(inner) => {
            counts_table(counter.plus(own), inner);
            NodeCounter::plus_plus(counter, own, tally_table(inner));
        },
        Expression::Unary(inner) => {
            counts_unary_expression(counter.plus(own), *inner);
            NodeCounter::plus_plus(counter, own, tally_unary_expression(*inner));
        },
        Expression::TypeCast(inner) => {
            counts_type_cast_expression(counter.plus(own), inner);
            NodeCounter::plus_plus(counter, own, tally_type_cast_expression(inner));
        },
        _ => {
            Tally::plus_zero(own);
        },
    }
}

/// A visit of a binary expression leaves the node as it is and adds to each counter the
/// number of nodes of its kind that the visit meets.
pub proof fn counts_binary_expression(counter: NodeCounter, binary: BinaryExpression)
    ensures
        walk_binary_expression(counter, binary) == (
            counter.plus(tally_binary_expression(binary)),
            binary,
        ),
    decreases binary,
{
    counts_expression(counter, binary.left);
    counts_expression(counter.plus(tally_expression(binary.left)), binary.right);
    NodeCounter::plus_plus(counter, tally_expression(binary.left), tally_expression(binary.right));
}

/// A visit of a number leaves the node as it is and adds to each counter the number of
/// nodes of its kind that the visit meets.
pub proof fn counts_number_expression(counter: NodeCounter, number: NumberExpression)
    ensures
        walk_number_expression(counter, number) == (
            counter.plus(tally_number_expression(number)),
            number,
        ),
{
    NodeCounter::plus_zero(counter);
}

/// A visit of a parenthesized expression leaves the node as it is and adds to each
/// counter the number of nodes of its kind that the visit meets.
pub proof fn counts_parenthese_expression(counter: NodeCounter, parenthese: ParentheseExpression)
    ensures
        walk_parenthese_expression(counter, parenthese) == (
            counter.plus(tally_parenthese_expression(parenthese)),
            parenthese,
        ),
    decreases parenthese,
{
    counts_expression(counter, parenthese.expression);
}

/// A visit of a string leaves the node as it is and adds to each counter the number of
/// nodes of its kind that the visit meets.
pub proof fn counts_string_expression(counter: NodeCounter, string: StringExpression)
    ensures
        walk_string_expression(counter, string) == (
            counter.plus(tally_string_expression(string)),
            string,
        ),
{
    NodeCounter::plus_zero(counter);
}

/// A visit of an interpolated string leaves the node as it is and adds to each counter
/// the number of nodes of its kind that the visit meets.
pub proof fn counts_interpolated_string_expression(
    counter: NodeCounter,
    interpolated_string: InterpolatedStringExpression,
)
    ensures
        walk_interpolated_string_expression(counter, interpolated_string) == (
            counter.plus(tally_interpolated_string_expression(interpolated_string)),
            interpolated_string,
        ),
    decreases interpolated_string,
{
    let own = Tally { interpolated_string_count: 1, ..Tally::zero() };
    counts_segments(counter.plus(own), interpolated_string.segments);
    let part1 = tally_segments(interpolated_string.segments);
    NodeCounter::plus_plus(counter, own, part1);
}

/// A visit of a unary expression leaves the node as it is and adds to each counter the
/// number of nodes of its kind that the visit meets.
pub proof fn counts_unary_expression(counter: NodeCounter, unary: UnaryExpression)
    ensures
        walk_unary_expression(counter, unary) == (
            counter.plus(tally_unary_expression(unary)),
            unary,
        ),
    decreases unary,
{
    counts_expression(counter, unary.expression);
}

/// A visit of a type cast leaves the node as it is and adds to each counter the number
/// of nodes of its kind that the visit meets.
pub proof fn counts_type_cast_expression(counter: NodeCounter, type_cast: TypeCastExpression)
    ensures
        walk_type_cast_expression(counter, type_cast) == (
            counter.plus(tally_type_cast_expression(type_cast)),
            type_cast,
        ),
    decreases type_cast,
{
    counts_expression(counter, *type_cast.expression);
    counts_type(counter.plus(tally_expression(*type_cast.expression)), *type_cast.cast_type);
    NodeCounter::plus_plus(
        counter,
        tally_expression(*type_cast.expression),
        tally_type(*type_cast.cast_type),
    );
}

/// A visit of an anonymous function leaves the node as it is and adds to each counter
/// the number of nodes of its kind that the visit meets.
pub proof fn counts_function_expression(counter: NodeCounter, function: FunctionExpression)
    ensures
        walk_function_expression(counter, function) == (
            counter.plus(tally_function_expression(function)),
            function,
        ),
    decreases function,
{
    counts_block(counter, function.block);
    counts_typed_identifiers(counter.plus(tally_block(function.block)), function.parameters);
    let part1 = tally_typed_identifiers(function.parameters);
    NodeCounter::plus_plus(counter, tally_block(function.block), part1);
    let met2 = tally_block(function.block).plus(part1);
    match function.variadic_type {
        Some(inner) => {
            counts_function_variadic_type(counter.plus(met2), inner);
        },
        None => {
            NodeCounter::plus_zero(counter.plus(met2));
        },
    }
    let part3 = match function.variadic_type {
        Some(inner) => tally_function_variadic_type(inner),
        None => Tally::zero(),
    };
    NodeCounter::plus_plus(counter, met2, part3);
    let met4 = met2.plus(part3);
    match function.return_type {
        Some(inner) => {
            counts_function_return_type(counter.plus(met4), inner);
        },
        None => {
            NodeCounter::plus_zero(counter.plus(met4));
        },
    }
    let part5 = match function.return_type {
        Some(inner) => tally_function_return_type(inner),
        None => Tally::zero(),
    };
    NodeCounter::plus_plus(counter, met4, part5);
}

/// A visit of an assignment leaves the node as it is and adds to each counter the
/// number of nodes of its kind that the visit meets.
pub proof fn counts_assign_statement(counter: NodeCounter, statement: AssignStatement)
    ensures
        walk_assign_statement(counter, statement) == (
            counter.plus(tally_assign_statement(statement)),
            statement,
        ),
    decreases statement,
{
    let own = Tally { assign_count: 1, ..Tally::zero() };
    counts_variables(counter.plus(own), statement.variables);
    NodeCounter::plus_plus(counter, own, tally_variables(statement.variables));
    let met1 = own.plus(tally_variables(statement.variables));
    counts_expressions(counter.plus(met1), statement.values);
    NodeCounter::plus_plus(counter, met1, tally_expressions(statement.values));
}

/// A visit of a do statement leaves the node as it is and adds to each counter the
/// number of nodes of its kind that the visit meets.
pub proof fn counts_do_statement(counter: NodeCounter, statement: DoStatement)
    ensures
        walk_do_statement(counter, statement) == (
            counter.plus(tally_do_statement(statement)),
            statement,
        ),
    decreases statement,
{
    let own = Tally { do_count: 1, ..Tally::zero() };
    counts_block(counter.plus(own), statement.block);
    NodeCounter::plus_plus(counter, own, tally_block(statement.block));
}

/// A visit of a compound assignment leaves the node as it is and adds to each counter
/// the number of nodes of its kind that the visit meets.
pub proof fn counts_compound_assign(counter: NodeCounter, statement: CompoundAssignStatement)
    ensures
        walk_compound_assign(counter, statement) == (
            counter.plus(tally_compound_assign(statement)),
            statement,
        ),
    decreases statement,
{
    let own = Tally { compound_assign: 1, ..Tally::zero() };
    counts_variable(counter.plus(own), statement.variable);
    NodeCounter::plus_plus(counter, own, tally_variable(statement.variable));
    let met1 = own.plus(tally_variable(statement.variable));
    counts_expression(counter.plus(met1), statement.value);
    NodeCounter::plus_plus(counter, met1, tally_expression(statement.value));
}

/// A visit of a function statement leaves the node as it is and adds to each counter
/// the number of nodes of its kind that the visit meets.
pub proof fn counts_function_statement(counter: NodeCounter, statement: FunctionStatement)
    ensures
        walk_function_statement(counter, statement) == (
            counter.plus(tally_function_statement(statement)),
            statement,
        ),
    decreases statement,
{
    let own = Tally { function_count: 1, ..Tally::zero() };
    counts_identifier(counter.plus(own), statement.name.name);
    NodeCounter::plus_plus(counter, own, tally_identifier(statement.name.name));
    let met1 = own.plus(tally_identifier(statement.name.name));
    counts_block(counter.plus(met1), statement.block);
    NodeCounter::plus_plus(counter, met1, tally_block(statement.block));
    let met2 = met1.plus(tally_block(statement.block));
    counts_typed_identifiers(counter.plus(met2), statement.parameters);
    let part3 = tally_typed_identifiers(statement.parameters);
    NodeCounter::plus_plus(counter, met2, part3);
    let met4 = met2.plus(part3);
    match statement.variadic_type {
        Some(inner) => {
            counts_function_variadic_type(counter.plus(met4), inner);
        },
        None => {
            NodeCounter::plus_zero(counter.plus(met4));
        },
    }
    let part5 = match statement.variadic_type {
        Some(inner) => tally_function_variadic_type(inner),
        None => Tally::zero(),
    };
    NodeCounter::plus_plus(counter, met4, part5);
    let met6 = met4.plus(part5);
    match statement.return_type {
        Some(inner) => {
            counts_function_return_type(counter.plus(met6), inner);
        },
        None => {
            NodeCounter::plus_zero(counter.plus(met6));
        },
    }
    let part7 = match statement.return_type {
        Some(inner) => tally_function_return_type(inner),
        None => Tally::zero(),
    };
    NodeCounter::plus_plus(counter, met6, part7);
}

/// A visit of a generic for loop leaves the node as it is and adds to each counter the
/// number of nodes of its kind that the visit meets.
pub proof fn counts_generic_for(counter: NodeCounter, statement: GenericForStatement)
    ensures
        walk_generic_for(counter, statement) == (
            counter.plus(tally_generic_for(statement)),
            statement,
        ),
    decreases statement,
{
    let own = Tally { generic_for_count: 1, ..Tally::zero() };
    counts_expressions(counter.plus(own), statement.expressions);
    NodeCounter::plus_plus(counter, own, tally_expressions(statement.expressions));
    let met1 = own.plus(tally_expressions(statement.expressions));
    counts_block(counter.plus(met1), statement.block);
    NodeCounter::plus_plus(counter, met1, tally_block(statement.block));
    let met2 = met1.plus(tally_block(statement.block));
    counts_typed_identifiers(counter.plus(met2), statement.identifiers);
    let part3 = tally_typed_identifiers(statement.identifiers);
    NodeCounter::plus_plus(counter, met2, part3);
}

/// A visit of an if statement leaves the node as it is and adds to each counter the
/// number of nodes of its kind that the visit meets.
pub proof fn counts_if_statement(counter: NodeCounter, statement: IfStatement)
    ensures
        walk_if_statement(counter, statement) == (
            counter.plus(tally_if_statement(statement)),
            statement,
        ),
    decreases statement,
{
    let own = Tally { if_count: 1, ..Tally::zero() };
    counts_if_branches(counter.plus(own), statement.branches);
    NodeCounter::plus_plus(counter, own, tally_if_branches(statement.branches));
    let met1 = own.plus(tally_if_branches(statement.branches));
    match statement.else_block {
        Some(inner) => {
            counts_block(counter.plus(met1), inner);
        },
        None => {
            NodeCounter::plus_zero(counter.plus(met1));
        },
    }
    let part2 = match statement.else_block {
        Some(inner) => tally_block(inner),
        None => Tally::zero(),
    };
    NodeCounter::plus_plus(counter, met1, part2);
}

/// A visit of a local assignment leaves the node as it is and adds to each counter the
/// number of nodes of its kind that the visit meets.
pub proof fn counts_local_assign(counter: NodeCounter, statement: LocalAssignStatement)
    ensures
        walk_local_assign(counter, statement) == (
            counter.plus(tally_local_assign(statement)),
            statement,
        ),
    decreases statement,
{
    let own = Tally { local_assign_count: 1, ..Tally::zero() };
    counts_expressions(counter.plus(own), statement.values);
    NodeCounter::plus_plus(counter, own, tally_expressions(statement.values));
    let met1 = own.plus(tally_expressions(statement.values));
    counts_typed_identifiers(counter.plus(met1), statement.variables);
    let part2 = tally_typed_identifiers(statement.variables);
    NodeCounter::plus_plus(counter, met1, part2);
}

/// A visit of a local function leaves the node as it is and adds to each counter the
/// number of nodes of its kind that the visit meets.
pub proof fn counts_local_function(counter: NodeCounter, statement: LocalFunctionStatement)
    ensures
        walk_local_function(counter, statement) == (
            counter.plus(tally_local_function(statement)),
            statement,
        ),
    decreases statement,
{
    let own = Tally { local_function_count: 1, ..Tally::zero() };
    counts_block(counter.plus(own), statement.block);
    NodeCounter::plus_plus(counter, own, tally_block(statement.block));
    let met1 = own.plus(tally_block(statement.block));
    counts_typed_identifiers(counter.plus(met1), statement.parameters);
    let part2 = tally_typed_identifiers(statement.parameters);
    NodeCounter::plus_plus(counter, met1, part2);
    let met3 = met1.plus(part2);
    match statement.variadic_type {
        Some(inner) => {
            counts_function_variadic_type(counter.plus(met3), inner);
        },
        None => {
            NodeCounter::plus_zero(counter.plus(met3));
        },
    }
    let part4 = match statement.variadic_type {
        Some(inner) => tally_function_variadic_type(inner),
        None => Tally::zero(),
    };
    NodeCounter::plus_plus(counter, met3, part4);
    let met5 = met3.plus(part4);
    match statement.return_type {
        Some(inner) => {
            counts_function_return_type(counter.plus(met5), inner);
        },
        None => {
            NodeCounter::plus_zero(counter.plus(met5));
        },
    }
    let part6 = match statement.return_type {
        Some(inner) => tally_function_return_type(inner),
        None => Tally::zero(),
    };
    NodeCounter::plus_plus(counter, met5, part6);
}

/// A visit of a type function leaves the node as it is and adds to each counter the
/// number of nodes of its kind that the visit meets.
pub proof fn counts_type_function(counter: NodeCounter, statement: TypeFunctionStatement)
    ensures
        walk_type_function(counter, statement) == (
            counter.plus(tally_type_function(statement)),
            statement,
        ),
    decreases statement,
{
    let own = Tally { type_function_count: 1, ..Tally::zero() };
    counts_block(counter.plus(own), statement.block);
    NodeCounter::plus_plus(counter, own, tally_block(statement.block));
    let met1 = own.plus(tally_block(statement.block));
    counts_typed_identifiers(counter.plus(met1), statement.parameters);
    let part2 = tally_typed_identifiers(statement.parameters);
    NodeCounter::plus_plus(counter, met1, part2);
    let met3 = met1.plus(part2);
    match statement.variadic_type {
        Some(inner) => {
            counts_function_variadic_type(counter.plus(met3), inner);
        },
        None => {
            NodeCounter::plus_zero(counter.plus(met3));
        },
    }
    let part4 = match statement.variadic_type {
        Some(inner) => tally_function_variadic_type(inner),
        None => Tally::zero(),
    };
    NodeCounter::plus_plus(counter, met3, part4);
    let met5 = met3.plus(part4);
    match statement.return_type {
        Some(inner) => {
            counts_function_return_type(counter.plus(met5), inner);
        },
        None => {
            NodeCounter::plus_zero(counter.plus(met5));
        },
    }
    let part6 = match statement.return_type {
        Some(inner) => tally_function_return_type(inner),
        None => Tally::zero(),
    };
    NodeCounter::plus_plus(counter, met5, part6);
}

/// A visit of an exported type function leaves the node as it is and adds to each
/// counter the number of nodes of its kind that the visit meets.
pub proof fn counts_export_type_function(
    counter: NodeCounter,
    statement: ExportTypeFunctionStatement,
)
    ensures
        walk_export_type_function(counter, statement) == (
            counter.plus(tally_export_type_function(statement)),
            statement,
        ),
    decreases statement,
{
    let own = Tally { export_type_function_count: 1, ..Tally::zero() };
    counts_block(counter.plus(own), statement.block);
    NodeCounter::plus_plus(counter, own, tally_block(statement.block));
    let met1 = own.plus(tally_block(statement.block));
    counts_typed_identifiers(counter.plus(met1), statement.parameters);
    let part2 = tally_typed_identifiers(statement.parameters);
    NodeCounter::plus_plus(counter, met1, part2);
    let met3 = met1.plus(part2);
    match statement.variadic_type {
        Some(inner) => {
            counts_function_variadic_type(counter.plus(met3), inner);
        },
        None => {
            NodeCounter::plus_zero(counter.plus(met3));
        },
    }
    let part4 = match statement.variadic_type {
        Some(inner) => tally_function_variadic_type(inner),
        None => Tally::zero(),
    };
    NodeCounter::plus_plus(counter, met3, part4);
    let met5 = met3.plus(part4);
    match statement.return_type {
        Some(inner) => {
            counts_function_return_type(counter.plus(met5), inner);
        },
        None => {
            NodeCounter::plus_zero(counter.plus(met5));
        },
    }
    let part6 = match statement.return_type {
        Some(inner) => tally_function_return_type(inner),
        None => Tally::zero(),
    };
    NodeCounter::plus_plus(counter, met5, part6);
}

/// A visit of the type of the variadic arguments of a function leaves the node as it is
/// and adds to each counter the number of nodes of its kind that the visit meets.
pub proof fn counts_function_variadic_type(
    counter: NodeCounter,
    variadic_type: FunctionVariadicType,
)
    ensures
        walk_function_variadic_type(counter, variadic_type) == (
            counter.plus(tally_function_variadic_type(variadic_type)),
            variadic_type,
        ),
    decreases variadic_type,
{
    match variadic_type {
        FunctionVariadicType::Type(inner) => {
            counts_type(counter, inner);
        },
        FunctionVariadicType::GenericTypePack(inner) => {
            counts_generic_type_pack(counter, inner);
        },
    }
}

/// A visit of a generic type pack leaves the node as it is and adds to each counter the
/// number of nodes of its kind that the visit meets.
pub proof fn counts_generic_type_pack(counter: NodeCounter, generic: GenericTypePack)
    ensures
        walk_generic_type_pack(counter, generic) == (
            counter.plus(tally_generic_type_pack(generic)),
            generic,
        ),
{
    NodeCounter::plus_zero(counter);
}

/// A visit of a numeric for loop leaves the node as it is and adds to each counter the
/// number of nodes of its kind that the visit meets.
pub proof fn counts_numeric_for(counter: NodeCounter, statement: NumericForStatement)
    ensures
        walk_numeric_for(counter, statement) == (
            counter.plus(tally_numeric_for(statement)),
            statement,
        ),
    decreases statement,
{
    let own = Tally { numeric_for_count: 1, ..Tally::zero() };
    counts_expression(counter.plus(own), statement.start);
    NodeCounter::plus_plus(counter, own, tally_expression(statement.start));
    let met1 = own.plus(tally_expression(statement.start));
    counts_expression(counter.plus(met1), statement.end);
    NodeCounter::plus_plus(counter, met1, tally_expression(statement.end));
    let met2 = met1.plus(tally_expression(statement.end));
    match statement.step {
        Some(inner) => {
            counts_expression(counter.plus(met2), inner);
        },
        None => {
            NodeCounter::plus_zero(counter.plus(met2));
        },
    }
    let part3 = match statement.step {
        Some(inner) => tally_expression(inner),
        None => Tally::zero(),
    };
    NodeCounter::plus_plus(counter, met2, part3);
    let met4 = met2.plus(part3);
    counts_block(counter.plus(met4), statement.block);
    NodeCounter::plus_plus(counter, met4, tally_block(statement.block));
    let met5 = met4.plus(tally_block(statement.block));
    counts_typed_identifier(counter.plus(met5), statement.identifier);
    let part6 = tally_typed_identifier(statement.identifier);
    NodeCounter::plus_plus(counter, met5, part6);
}

/// A visit of a repeat loop leaves the node as it is and adds to each counter the
/// number of nodes of its kind that the visit meets.
pub proof fn counts_repeat_statement(counter: NodeCounter, statement: RepeatStatement)
    ensures
        walk_repeat_statement(counter, statement) == (
            counter.plus(tally_repeat_statement(statement)),
            statement,
        ),
    decreases statement,
{
    let own = Tally { repeat_count: 1, ..Tally::zero() };
    counts_block(counter.plus(own), statement.block);
    NodeCounter::plus_plus(counter, own, tally_block(statement.block));
    let met1 = own.plus(tally_block(statement.block));
    counts_expression(counter.plus(met1), statement.condition);
    NodeCounter::plus_plus(counter, met1, tally_expression(statement.condition));
}

/// A visit of a while loop leaves the node as it is and adds to each counter the number
/// of nodes of its kind that the visit meets.
pub proof fn counts_while_statement(counter: NodeCounter, statement: WhileStatement)
    ensures
        walk_while_statement(counter, statement) == (
            counter.plus(tally_while_statement(statement)),
            statement,
        ),
    decreases statement,
{
    let own = Tally { while_count: 1, ..Tally::zero() };
    counts_expression(counter.plus(own), statement.condition);
    NodeCounter::plus_plus(counter, own, tally_expression(statement.condition));
    let met1 = own.plus(tally_expression(statement.condition));
    counts_block(counter.plus(met1), statement.block);
    NodeCounter::plus_plus(counter, met1, tally_block(statement.block));
}

/// A visit of a type declaration leaves the node as it is and adds to each counter the
/// number of nodes of its kind that the visit meets.
pub proof fn counts_type_declaration(counter: NodeCounter, statement: TypeDeclarationStatement)
    ensures
        walk_type_declaration(counter, statement) == (
            counter.plus(tally_type_declaration(statement)),
            statement,
        ),
    decreases statement,
{
    let own = Tally { type_declaration_count: 1, ..Tally::zero() };
    match statement.generic_parameters {
        Some(inner) => {
            counts_generic_parameters(counter.plus(own), inner.parameters);
            let part1 = tally_generic_parameters(inner.parameters);
        },
        None => {
            NodeCounter::plus_zero(counter.plus(own));
        },
    }
    let part2 = match statement.generic_parameters {
        Some(inner) => tally_generic_parameters(inner.parameters),
        None => Tally::zero(),
    };
    NodeCounter::plus_plus(counter, own, part2);
    let met3 = own.plus(part2);
    counts_type(counter.plus(met3), statement.declared_type);
    NodeCounter::plus_plus(counter, met3, tally_type(statement.declared_type));
}

/// A visit of a variable leaves the node as it is and adds to each counter the number
/// of nodes of its kind that the visit meets.
pub proof fn counts_variable(counter: NodeCounter, variable: Variable)
    ensures
        walk_variable(counter, variable) == (counter.plus(tally_variable(variable)), variable),
    decreases variable,
{
    match variable {
        Variable::Identifier(inner) => {
            counts_identifier(counter, inner);
        },
        Variable::Field(inner) => {
            counts_field_expression(counter, *inner);
        },
        Variable::Index(inner) => {
            counts_index_expression(counter, *inner);
        },
    }
}

/// A visit of an identifier leaves the node as it is and adds to each counter the
/// number of nodes of its kind that the visit meets.
pub proof fn counts_identifier(counter: NodeCounter, identifier: Identifier)
    ensures
        walk_identifier(counter, identifier) == (
            counter.plus(tally_identifier(identifier)),
            identifier,
        ),
{
    let own = Tally { variable_count: 1, ..Tally::zero() };
}

/// A visit of an if expression leaves the node as it is and adds to each counter the
/// number of nodes of its kind that the visit meets.
pub proof fn counts_if_expression(counter: NodeCounter, if_expression: IfExpression)
    ensures
        walk_if_expression(counter, if_expression) == (
            counter.plus(tally_if_expression(if_expression)),
            if_expression,
        ),
    decreases if_expression,
{
    counts_expression(counter, if_expression.condition);
    let part1 = tally_expression(if_expression.condition);
    counts_expression(counter.plus(part1), if_expression.result);
    NodeCounter::plus_plus(counter, part1, tally_expression(if_expression.result));
    let met2 = part1.plus(tally_expression(if_expression.result));
    counts_else_if_branches(counter.plus(met2), if_expression.branches);
    let part3 = tally_else_if_branches(if_expression.branches);
    NodeCounter::plus_plus(counter, met2, part3);
    let met4 = met2.plus(part3);
    counts_expression(counter.plus(met4), if_expression.else_result);
    let part5 = tally_expression(if_expression.else_result);
    NodeCounter::plus_plus(counter, met4, part5);
}

/// A visit of a field expression leaves the node as it is and adds to each counter the
/// number of nodes of its kind that the visit meets.
pub proof fn counts_field_expression(counter: NodeCounter, field: FieldExpression)
    ensures
        walk_field_expression(counter, field) == (
            counter.plus(tally_field_expression(field)),
            field,
        ),
    decreases field,
{
    counts_prefix_expression(counter, field.prefix);
}

/// A visit of an index expression leaves the node as it is and adds to each counter the
/// number of nodes of its kind that the visit meets.
pub proof fn counts_index_expression(counter: NodeCounter, index: IndexExpression)
    ensures
        walk_index_expression(counter, index) == (
            counter.plus(tally_index_expression(index)),
            index,
        ),
    decreases index,
{
    counts_prefix_expression(counter, index.prefix);
    counts_expression(counter.plus(tally_prefix_expression(index.prefix)), index.index);
    NodeCounter::plus_plus(
        counter,
        tally_prefix_expression(index.prefix),
        tally_expression(index.index),
    );
}

/// A visit of a function call leaves the node as it is and adds to each counter the
/// number of nodes of its kind that the visit meets.
pub proof fn counts_function_call(counter: NodeCounter, call: FunctionCall)
    ensures
        walk_function_call(counter, call) == (counter.plus(tally_function_call(call)), call),
    decreases call,
{
    let own = Tally { function_call_count: 1, ..Tally::zero() };
    counts_prefix_expression(counter.plus(own), *call.prefix);
    NodeCounter::plus_plus(counter, own, tally_prefix_expression(*call.prefix));
    let met1 = own.plus(tally_prefix_expression(*call.prefix));
    counts_arguments(counter.plus(met1), call.arguments);
    NodeCounter::plus_plus(counter, met1, tally_arguments(call.arguments));
}

/// A visit of the arguments of a call leaves the node as it is and adds to each counter
/// the number of nodes of its kind that the visit meets.
pub proof fn counts_arguments(counter: NodeCounter, arguments: Arguments)
    ensures
        walk_arguments(counter, arguments) == (counter.plus(tally_arguments(arguments)), arguments),
    decreases arguments,
{
    match arguments {
        Arguments::String(inner) => {
            counts_string_expression(counter, inner);
        },
        Arguments::Table(inner) => {
            counts_table(counter, inner);
        },
        Arguments::Tuple(inner) => {
            counts_expressions(counter, inner.values);
        },
    }
}

/// A visit of a table constructor leaves the node as it is and adds to each counter the
/// number of nodes of its kind that the visit meets.
pub proof fn counts_table(counter: NodeCounter, table: TableExpression)
    ensures
        walk_table(counter, table) == (counter.plus(tally_table(table)), table),
    decreases table,
{
    counts_table_entries(counter, table.entries);
}

/// A visit of a prefix leaves the node as it is and adds to each counter the number of
/// nodes of its kind that the visit meets.
pub proof fn counts_prefix_expression(counter: NodeCounter, prefix: Prefix)
    ensures
        walk_prefix_expression(counter, prefix) == (
            counter.plus(tally_prefix_expression(prefix)),
            prefix,
        ),
    decreases prefix,
{
    match prefix {
        Prefix::Call(inner) => {
            counts_function_call(counter, inner);
        },
        Prefix::Field(inner) => {
            counts_field_expression(counter, *inner);
        },
        Prefix::Identifier(inner) => {
            counts_identifier(counter, inner);
        },
        Prefix::Index(inner) => {
            counts_index_expression(counter, *inner);
        },
        Prefix::Parenthese(inner) => {
            counts_parenthese_expression(counter, inner);
        },
    }
}

/// A visit of a type leaves the node as it is and adds to each counter the number of
/// nodes of its kind that the visit meets.
pub proof fn counts_type(counter: NodeCounter, annotation: Type)
    ensures
        walk_type(counter, annotation) == (counter.plus(tally_type(annotation)), annotation),
    decreases annotation,
{
    let own = Tally { type_count: 1, ..Tally::zero() };
    match annotation {
        Type::Name(inner) => {
            counts_type_name(counter.plus(own), inner);
            NodeCounter::plus_plus(counter, own, tally_type_name(inner));
        },
        Type::Field(inner) => {
            counts_type_field(counter.plus(own), *inner);
            NodeCounter::plus_plus(counter, own, tally_type_field(*inner));
        },
        Type::Array(inner) => {
            counts_array_type(counter.plus(own), inner);
            NodeCounter::plus_plus(counter, own, tally_array_type(inner));
        },
        Type::Table(inner) => {
            counts_table_type(counter.plus(own), inner);
            NodeCounter::plus_plus(counter, own, tally_table_type(inner));
        },
        Type::TypeOf(inner) => {
            counts_expression_type(counter.plus(own), inner);
            NodeCounter::plus_plus(counter, own, tally_expression_type(inner));
        },
        Type::Parenthese(inner) => {
            counts_parenthese_type(counter.plus(own), inner);
            NodeCounter::plus_plus(counter, own, tally_parenthese_type(inner));
        },
        Type::Function(inner) => {
            counts_function_type(counter.plus(own), *inner);
            NodeCounter::plus_plus(counter, own, tally_function_type(*inner));
        },
        Type::Optional(inner) => {
            counts_optional_type(counter.plus(own), inner);
            NodeCounter::plus_plus(counter, own, tally_optional_type(inner));
        },
        Type::Intersection(inner) => {
            counts_intersection_type(counter.plus(own), inner);
            NodeCounter::plus_plus(counter, own, tally_intersection_type(inner));
        },
        Type::Union(inner) => {
            counts_union_type(counter.plus(own), inner);
            NodeCounter::plus_plus(counter, own, tally_union_type(inner));
        },
        Type::String(inner) => {
            counts_string_type(counter.plus(own), inner);
            NodeCounter::plus_plus(counter, own, tally_string_type(inner));
        },
        _ => {
            Tally::plus_zero(own);
        },
    }
}

/// A visit of a named type leaves the node as it is and adds to each counter the number
/// of nodes of its kind that the visit meets.
pub proof fn counts_type_name(counter: NodeCounter, name: TypeName)
    ensures
        walk_type_name(counter, name) == (counter.plus(tally_type_name(name)), name),
    decreases name,
{
    match name.type_parameters {
        Some(inner) => {
            counts_type_parameters(counter, inner.parameters);
        },
        None => {
            NodeCounter::plus_zero(counter);
        },
    }
    let part1 = match name.type_parameters {
        Some(inner) => tally_type_parameters(inner.parameters),
        None => Tally::zero(),
    };
}

/// A visit of a type read from a namespace leaves the node as it is and adds to each
/// counter the number of nodes of its kind that the visit meets.
pub proof fn counts_type_field(counter: NodeCounter, type_field: TypeField)
    ensures
        walk_type_field(counter, type_field) == (
            counter.plus(tally_type_field(type_field)),
            type_field,
        ),
    decreases type_field,
{
    counts_type_name(counter, type_field.name);
}

/// A visit of an array type leaves the node as it is and adds to each counter the
/// number of nodes of its kind that the visit meets.
pub proof fn counts_array_type(counter: NodeCounter, array: ArrayType)
    ensures
        walk_array_type(counter, array) == (counter.plus(tally_array_type(array)), array),
    decreases array,
{
    counts_type(counter, *array.element_type);
}

/// A visit of a table type leaves the node as it is and adds to each counter the number
/// of nodes of its kind that the visit meets.
pub proof fn counts_table_type(counter: NodeCounter, table: TableType)
    ensures
        walk_table_type(counter, table) == (counter.plus(tally_table_type(table)), table),
    decreases table,
{
    counts_table_entry_types(counter, table.entries);
}

/// A visit of a `typeof` type leaves the node as it is and adds to each counter the
/// number of nodes of its kind that the visit meets.
pub proof fn counts_expression_type(counter: NodeCounter, expression_type: ExpressionType)
    ensures
        walk_expression_type(counter, expression_type) == (
            counter.plus(tally_expression_type(expression_type)),
            expression_type,
        ),
    decreases expression_type,
{
    counts_expression(counter, *expression_type.expression);
    let part1 = tally_expression(*expression_type.expression);
}

/// A visit of a parenthesized type leaves the node as it is and adds to each counter
/// the number of nodes of its kind that the visit meets.
pub proof fn counts_parenthese_type(counter: NodeCounter, parenthese: ParentheseType)
    ensures
        walk_parenthese_type(counter, parenthese) == (
            counter.plus(tally_parenthese_type(parenthese)),
            parenthese,
        ),
    decreases parenthese,
{
    counts_type(counter, *parenthese.inner_type);
}

/// A visit of a function type leaves the node as it is and adds to each counter the
/// number of nodes of its kind that the visit meets.
pub proof fn counts_function_type(counter: NodeCounter, function: FunctionType)
    ensures
        walk_function_type(counter, function) == (
            counter.plus(tally_function_type(function)),
            function,
        ),
    decreases function,
{
    counts_function_argument_types(counter, function.arguments);
    let part1 = tally_function_argument_types(function.arguments);
    match function.variadic_argument_type {
        Some(inner) => {
            counts_variadic_argument_type(counter.plus(part1), inner);
        },
        None => {
            NodeCounter::plus_zero(counter.plus(part1));
        },
    }
    let part2 = match function.variadic_argument_type {
        Some(inner) => tally_variadic_argument_type(inner),
        None => Tally::zero(),
    };
    NodeCounter::plus_plus(counter, part1, part2);
    let met3 = part1.plus(part2);
    counts_function_return_type(counter.plus(met3), function.return_type);
    let part4 = tally_function_return_type(function.return_type);
    NodeCounter::plus_plus(counter, met3, part4);
}

/// A visit of an optional type leaves the node as it is and adds to each counter the
/// number of nodes of its kind that the visit meets.
pub proof fn counts_optional_type(counter: NodeCounter, optional: OptionalType)
    ensures
        walk_optional_type(counter, optional) == (
            counter.plus(tally_optional_type(optional)),
            optional,
        ),
    decreases optional,
{
    counts_type(counter, *optional.inner_type);
}

/// A visit of an intersection type leaves the node as it is and adds to each counter
/// the number of nodes of its kind that the visit meets.
pub proof fn counts_intersection_type(counter: NodeCounter, intersection: IntersectionType)
    ensures
        walk_intersection_type(counter, intersection) == (
            counter.plus(tally_intersection_type(intersection)),
            intersection,
        ),
    decreases intersection,
{
    counts_types(counter, intersection.types);
}

/// A visit of a union type leaves the node as it is and adds to each counter the number
/// of nodes of its kind that the visit meets.
pub proof fn counts_union_type(counter: NodeCounter, union: UnionType)
    ensures
        walk_union_type(counter, union) == (counter.plus(tally_union_type(union)), union),
    decreases union,
{
    counts_types(counter, union.types);
}

/// A visit of a string type leaves the node as it is and adds to each counter the
/// number of nodes of its kind that the visit meets.
pub proof fn counts_string_type(counter: NodeCounter, string: StringType)
    ensures
        walk_string_type(counter, string) == (counter.plus(tally_string_type(string)), string),
{
    NodeCounter::plus_zero(counter);
}

/// A visit of a type pack leaves the node as it is and adds to each counter the number
/// of nodes of its kind that the visit meets.
pub proof fn counts_type_pack(counter: NodeCounter, type_pack: TypePack)
    ensures
        walk_type_pack(counter, type_pack) == (counter.plus(tally_type_pack(type_pack)), type_pack),
    decreases type_pack,
{
    counts_types(counter, type_pack.types);
    let counted1 = counter.plus(tally_types(type_pack.types));
    match type_pack.variadic_type {
        Some(inner) => {
            counts_variadic_argument_type(counted1, inner);
        },
        None => {
            NodeCounter::plus_zero(counted1);
        },
    }
    let part2 = match type_pack.variadic_type {
        Some(inner) => tally_variadic_argument_type(inner),
        None => Tally::zero(),
    };
    NodeCounter::plus_plus(counter, tally_types(type_pack.types), part2);
}

/// A visit of a variadic type pack leaves the node as it is and adds to each counter
/// the number of nodes of its kind that the visit meets.
pub proof fn counts_variadic_type_pack(counter: NodeCounter, variadic_type_pack: VariadicTypePack)
    ensures
        walk_variadic_type_pack(counter, variadic_type_pack) == (
            counter.plus(tally_variadic_type_pack(variadic_type_pack)),
            variadic_type_pack,
        ),
    decreases variadic_type_pack,
{
    counts_type(counter, *variadic_type_pack.inner_type);
    let part1 = tally_type(*variadic_type_pack.inner_type);
}

/// A visit of the variadic tail of a list of types leaves the node as it is and adds to
/// each counter the number of nodes of its kind that the visit meets.
pub proof fn counts_variadic_argument_type(
    counter: NodeCounter,
    variadic_type: VariadicArgumentType,
)
    ensures
        walk_variadic_argument_type(counter, variadic_type) == (
            counter.plus(tally_variadic_argument_type(variadic_type)),
            variadic_type,
        ),
    decreases variadic_type,
{
    match variadic_type {
        VariadicArgumentType::VariadicTypePack(inner) => {
            counts_variadic_type_pack(counter, inner);
        },
        VariadicArgumentType::GenericTypePack(inner) => {
            counts_generic_type_pack(counter, inner);
        },
    }
}

/// A visit of what a function returns leaves the node as it is and adds to each counter
/// the number of nodes of its kind that the visit meets.
pub proof fn counts_function_return_type(counter: NodeCounter, return_type: FunctionReturnType)
    ensures
        walk_function_return_type(counter, return_type) == (
            counter.plus(tally_function_return_type(return_type)),
            return_type,
        ),
    decreases return_type,
{
    match return_type {
        FunctionReturnType::Type(inner) => {
            counts_type(counter, *inner);
        },
        FunctionReturnType::TypePack(inner) => {
            counts_type_pack(counter, inner);
        },
        FunctionReturnType::VariadicTypePack(inner) => {
            counts_variadic_type_pack(counter, inner);
        },
        FunctionReturnType::GenericTypePack(inner) => {
            counts_generic_type_pack(counter, inner);
        },
    }
}

/// A visit of the annotation of a typed identifier leaves the node as it is and adds to
/// each counter the number of nodes of its kind that the visit meets.
pub proof fn counts_typed_identifier(counter: NodeCounter, identifier: TypedIdentifier)
    ensures
        walk_typed_identifier(counter, identifier) == (
            counter.plus(tally_typed_identifier(identifier)),
            identifier,
        ),
    decreases identifier,
{
    match identifier.annotation {
        Some(inner) => {
            counts_type(counter, inner);
        },
        None => {
            NodeCounter::plus_zero(counter);
        },
    }
    let part1 = match identifier.annotation {
        Some(inner) => tally_type(inner),
        None => Tally::zero(),
    };
}

/// A visit of a branch of an if statement leaves the node as it is and adds to each
/// counter the number of nodes of its kind that the visit meets.
pub proof fn counts_if_branch(counter: NodeCounter, branch: IfBranch)
    ensures
        walk_if_branch(counter, branch) == (counter.plus(tally_if_branch(branch)), branch),
    decreases branch,
{
    counts_expression(counter, branch.condition);
    counts_block(counter.plus(tally_expression(branch.condition)), branch.block);
    NodeCounter::plus_plus(counter, tally_expression(branch.condition), tally_block(branch.block));
}

/// A visit of an `elseif` branch of an if expression leaves the node as it is and adds
/// to each counter the number of nodes of its kind that the visit meets.
pub proof fn counts_else_if_branch(counter: NodeCounter, branch: ElseIfExpressionBranch)
    ensures
        walk_else_if_branch(counter, branch) == (
            counter.plus(tally_else_if_branch(branch)),
            branch,
        ),
    decreases branch,
{
    counts_expression(counter, branch.condition);
    counts_expression(counter.plus(tally_expression(branch.condition)), branch.result);
    NodeCounter::plus_plus(
        counter,
        tally_expression(branch.condition),
        tally_expression(branch.result),
    );
}

/// A visit of a piece of an interpolated string leaves the node as it is and adds to
/// each counter the number of nodes of its kind that the visit meets.
pub proof fn counts_segment(counter: NodeCounter, segment: InterpolationSegment)
    ensures
        walk_segment(counter, segment) == (counter.plus(tally_segment(segment)), segment),
    decreases segment,
{
    match segment {
        InterpolationSegment::Value(inner) => {
            counts_expression(counter, inner.value);
        },
        _ => {
            NodeCounter::plus_zero(counter);
        },
    }
}

/// A visit of an entry of a table constructor leaves the node as it is and adds to each
/// counter the number of nodes of its kind that the visit meets.
pub proof fn counts_table_entry(counter: NodeCounter, entry: TableEntry)
    ensures
        walk_table_entry(counter, entry) == (counter.plus(tally_table_entry(entry)), entry),
    decreases entry,
{
    match entry {
        TableEntry::Field(inner) => {
            counts_expression(counter, inner.value);
        },
        TableEntry::Index(inner) => {
            counts_expression(counter, inner.key);
            counts_expression(counter.plus(tally_expression(inner.key)), inner.value);
            NodeCounter::plus_plus(
                counter,
                tally_expression(inner.key),
                tally_expression(inner.value),
            );
        },
        TableEntry::Value(inner) => {
            counts_expression(counter, inner);
        },
    }
}

/// A visit of a parameter given to a named type leaves the node as it is and adds to
/// each counter the number of nodes of its kind that the visit meets.
pub proof fn counts_type_parameter(counter: NodeCounter, parameter: TypeParameter)
    ensures
        walk_type_parameter(counter, parameter) == (
            counter.plus(tally_type_parameter(parameter)),
            parameter,
        ),
    decreases parameter,
{
    match parameter {
        TypeParameter::Type(inner) => {
            counts_type(counter, inner);
        },
        TypeParameter::TypePack(inner) => {
            counts_type_pack(counter, inner);
        },
        TypeParameter::VariadicTypePack(inner) => {
            counts_variadic_type_pack(counter, inner);
        },
        TypeParameter::GenericTypePack(inner) => {
            counts_generic_type_pack(counter, inner);
        },
    }
}

/// A visit of an entry of a table type leaves the node as it is and adds to each
/// counter the number of nodes of its kind that the visit meets.
pub proof fn counts_table_entry_type(counter: NodeCounter, entry: TableEntryType)
    ensures
        walk_table_entry_type(counter, entry) == (
            counter.plus(tally_table_entry_type(entry)),
            entry,
        ),
    decreases entry,
{
    match entry {
        TableEntryType::Property(inner) => {
            counts_type(counter, inner.property_type);
        },
        TableEntryType::Literal(inner) => {
            counts_string_type(counter, inner.string);
            counts_type(counter.plus(tally_string_type(inner.string)), inner.property_type);
            NodeCounter::plus_plus(
                counter,
                tally_string_type(inner.string),
                tally_type(inner.property_type),
            );
        },
        TableEntryType::Indexer(inner) => {
            counts_type(counter, inner.key_type);
            counts_type(counter.plus(tally_type(inner.key_type)), inner.value_type);
            NodeCounter::plus_plus(
                counter,
                tally_type(inner.key_type),
                tally_type(inner.value_type),
            );
        },
    }
}

/// A visit of the type of an argument leaves the node as it is and adds to each counter
/// the number of nodes of its kind that the visit meets.
pub proof fn counts_function_argument_type(counter: NodeCounter, argument: FunctionArgumentType)
    ensures
        walk_function_argument_type(counter, argument) == (
            counter.plus(tally_function_argument_type(argument)),
            argument,
        ),
    decreases argument,
{
    counts_type(counter, argument.argument_type);
}

/// A visit of a generic parameter of a type declaration leaves the node as it is and
/// adds to each counter the number of nodes of its kind that the visit meets.
pub proof fn counts_generic_parameter(counter: NodeCounter, parameter: GenericParameter)
    ensures
        walk_generic_parameter(counter, parameter) == (
            counter.plus(tally_generic_parameter(parameter)),
            parameter,
        ),
    decreases parameter,
{
    match parameter {
        GenericParameter::TypeVariableWithDefault(inner) => {
            counts_type(counter, inner.default_type);
        },
        GenericParameter::GenericTypePack(inner) => {
            counts_generic_type_pack(counter, inner);
        },
        GenericParameter::GenericTypePackWithDefault(inner) => {
            counts_generic_type_pack(counter, inner.generic_type_pack);
            let part1 = tally_generic_type_pack(inner.generic_type_pack);
            counts_generic_type_pack_default(counter.plus(part1), inner.default_type);
            let part2 = tally_generic_type_pack_default(inner.default_type);
            NodeCounter::plus_plus(counter, part1, part2);
        },
        _ => {
            NodeCounter::plus_zero(counter);
        },
    }
}

/// A visit of what a generic type pack defaults to leaves the node as it is and adds to
/// each counter the number of nodes of its kind that the visit meets.
pub proof fn counts_generic_type_pack_default(
    counter: NodeCounter,
    default_type: GenericTypePackDefault,
)
    ensures
        walk_generic_type_pack_default(counter, default_type) == (
            counter.plus(tally_generic_type_pack_default(default_type)),
            default_type,
        ),
    decreases default_type,
{
    match default_type {
        GenericTypePackDefault::TypePack(inner) => {
            counts_type_pack(counter, inner);
        },
        GenericTypePackDefault::VariadicTypePack(inner) => {
            counts_variadic_type_pack(counter, inner);
        },
        GenericTypePackDefault::GenericTypePack(inner) => {
            counts_generic_type_pack(counter, inner);
        },
    }
}

/// A visit of a list of statements leaves the list as it is and adds to each counter
/// the number of nodes of its kind that the visit meets.
pub proof fn counts_statements(counter: NodeCounter, list: NodeList<Statement>)
    ensures
        walk_statements(counter, list) == (counter.plus(tally_statements(list)), list),
    decreases list,
{
    match list {
        NodeList::Empty => {
            NodeCounter::plus_zero(counter);
        },
        NodeList::Cell(cell) => {
            let head = tally_statement(cell.head);
            let tail = tally_statements(cell.tail);
            counts_statement(counter, cell.head);
            counts_statements(counter.plus(head), cell.tail);
            NodeCounter::plus_plus(counter, head, tail);
        },
    }
}

/// A visit of a list of expressions leaves the list as it is and adds to each counter
/// the number of nodes of its kind that the visit meets.
pub proof fn counts_expressions(counter: NodeCounter, list: NodeList<Expression>)
    ensures
        walk_expressions(counter, list) == (counter.plus(tally_expressions(list)), list),
    decreases list,
{
    match list {
        NodeList::Empty => {
            NodeCounter::plus_zero(counter);
        },
        NodeList::Cell(cell) => {
            let head = tally_expression(cell.head);
            let tail = tally_expressions(cell.tail);
            counts_expression(counter, cell.head);
            counts_expressions(counter.plus(head), cell.tail);
            NodeCounter::plus_plus(counter, head, tail);
        },
    }
}

/// A visit of a list of variables leaves the list as it is and adds to each counter the
/// number of nodes of its kind that the visit meets.
pub proof fn counts_variables(counter: NodeCounter, list: NodeList<Variable>)
    ensures
        walk_variables(counter, list) == (counter.plus(tally_variables(list)), list),
    decreases list,
{
    match list {
        NodeList::Empty => {
            NodeCounter::plus_zero(counter);
        },
        NodeList::Cell(cell) => {
            let head = tally_variable(cell.head);
            let tail = tally_variables(cell.tail);
            counts_variable(counter, cell.head);
            counts_variables(counter.plus(head), cell.tail);
            NodeCounter::plus_plus(counter, head, tail);
        },
    }
}

/// A visit of a list of typed identifiers leaves the list as it is and adds to each
/// counter the number of nodes of its kind that the visit meets.
pub proof fn counts_typed_identifiers(counter: NodeCounter, list: NodeList<TypedIdentifier>)
    ensures
        walk_typed_identifiers(counter, list) == (counter
            .plus(tally_typed_identifiers(list)), list),
    decreases list,
{
    match list {
        NodeList::Empty => {
            NodeCounter::plus_zero(counter);
        },
        NodeList::Cell(cell) => {
            let head = tally_typed_identifier(cell.head);
            let tail = tally_typed_identifiers(cell.tail);
            counts_typed_identifier(counter, cell.head);
            counts_typed_identifiers(counter.plus(head), cell.tail);
            NodeCounter::plus_plus(counter, head, tail);
        },
    }
}

/// A visit of a list of if branches leaves the list as it is and adds to each counter
/// the number of nodes of its kind that the visit meets.
pub proof fn counts_if_branches(counter: NodeCounter, list: NodeList<IfBranch>)
    ensures
        walk_if_branches(counter, list) == (counter.plus(tally_if_branches(list)), list),
    decreases list,
{
    match list {
        NodeList::Empty => {
            NodeCounter::plus_zero(counter);
        },
        NodeList::Cell(cell) => {
            let head = tally_if_branch(cell.head);
            let tail = tally_if_branches(cell.tail);
            counts_if_branch(counter, cell.head);
            counts_if_branches(counter.plus(head), cell.tail);
            NodeCounter::plus_plus(counter, head, tail);
        },
    }
}

/// A visit of a list of else if branches leaves the list as it is and adds to each
/// counter the number of nodes of its kind that the visit meets.
pub proof fn counts_else_if_branches(counter: NodeCounter, list: NodeList<ElseIfExpressionBranch>)
    ensures
        walk_else_if_branches(counter, list) == (counter.plus(tally_else_if_branches(list)), list),
    decreases list,
{
    match list {
        NodeList::Empty => {
            NodeCounter::plus_zero(counter);
        },
        NodeList::Cell(cell) => {
            let head = tally_else_if_branch(cell.head);
            let tail = tally_else_if_branches(cell.tail);
            counts_else_if_branch(counter, cell.head);
            counts_else_if_branches(counter.plus(head), cell.tail);
            NodeCounter::plus_plus(counter, head, tail);
        },
    }
}

/// A visit of a list of segments leaves the list as it is and adds to each counter the
/// number of nodes of its kind that the visit meets.
pub proof fn counts_segments(counter: NodeCounter, list: NodeList<InterpolationSegment>)
    ensures
        walk_segments(counter, list) == (counter.plus(tally_segments(list)), list),
    decreases list,
{
    match list {
        NodeList::Empty => {
            NodeCounter::plus_zero(counter);
        },
        NodeList::Cell(cell) => {
            let head = tally_segment(cell.head);
            let tail = tally_segments(cell.tail);
            counts_segment(counter, cell.head);
            counts_segments(counter.plus(head), cell.tail);
            NodeCounter::plus_plus(counter, head, tail);
        },
    }
}

/// A visit of a list of table entries leaves the list as it is and adds to each counter
/// the number of nodes of its kind that the visit meets.
pub proof fn counts_table_entries(counter: NodeCounter, list: NodeList<TableEntry>)
    ensures
        walk_table_entries(counter, list) == (counter.plus(tally_table_entries(list)), list),
    decreases list,
{
    match list {
        NodeList::Empty => {
            NodeCounter::plus_zero(counter);
        },
        NodeList::Cell(cell) => {
            let head = tally_table_entry(cell.head);
            let tail = tally_table_entries(cell.tail);
            counts_table_entry(counter, cell.head);
            counts_table_entries(counter.plus(head), cell.tail);
            NodeCounter::plus_plus(counter, head, tail);
        },
    }
}

/// A visit of a list of types leaves the list as it is and adds to each counter the
/// number of nodes of its kind that the visit meets.
pub proof fn counts_types(counter: NodeCounter, list: NodeList<Type>)
    ensures
        walk_types(counter, list) == (counter.plus(tally_types(list)), list),
    decreases list,
{
    match list {
        NodeList::Empty => {
            NodeCounter::plus_zero(counter);
        },
        NodeList::Cell(cell) => {
            let head = tally_type(cell.head);
            let tail = tally_types(cell.tail);
            counts_type(counter, cell.head);
            counts_types(counter.plus(head), cell.tail);
            NodeCounter::plus_plus(counter, head, tail);
        },
    }
}

/// A visit of a list of type parameters leaves the list as it is and adds to each
/// counter the number of nodes of its kind that the visit meets.
pub proof fn counts_type_parameters(counter: NodeCounter, list: NodeList<TypeParameter>)
    ensures
        walk_type_parameters(counter, list) == (counter.plus(tally_type_parameters(list)), list),
    decreases list,
{
    match list {
        NodeList::Empty => {
            NodeCounter::plus_zero(counter);
        },
        NodeList::Cell(cell) => {
            let head = tally_type_parameter(cell.head);
            let tail = tally_type_parameters(cell.tail);
            counts_type_parameter(counter, cell.head);
            counts_type_parameters(counter.plus(head), cell.tail);
            NodeCounter::plus_plus(counter, head, tail);
        },
    }
}

/// A visit of a list of table entry types leaves the list as it is and adds to each
/// counter the number of nodes of its kind that the visit meets.
pub proof fn counts_table_entry_types(counter: NodeCounter, list: NodeList<TableEntryType>)
    ensures
        walk_table_entry_types(counter, list) == (counter
            .plus(tally_table_entry_types(list)), list),
    decreases list,
{
    match list {
        NodeList::Empty => {
            NodeCounter::plus_zero(counter);
        },
        NodeList::Cell(cell) => {
            let head = tally_table_entry_type(cell.head);
            let tail = tally_table_entry_types(cell.tail);
            counts_table_entry_type(counter, cell.head);
            counts_table_entry_types(counter.plus(head), cell.tail);
            NodeCounter::plus_plus(counter, head, tail);
        },
    }
}

/// A visit of a list of function argument types leaves the list as it is and adds to
/// each counter the number of nodes of its kind that the visit meets.
pub proof fn counts_function_argument_types(
    counter: NodeCounter,
    list: NodeList<FunctionArgumentType>,
)
    ensures
        walk_function_argument_types(counter, list) == (counter
            .plus(tally_function_argument_types(list)), list),
    decreases list,
{
    match list {
        NodeList::Empty => {
            NodeCounter::plus_zero(counter);
        },
        NodeList::Cell(cell) => {
            let head = tally_function_argument_type(cell.head);
            let tail = tally_function_argument_types(cell.tail);
            counts_function_argument_type(counter, cell.head);
            counts_function_argument_types(counter.plus(head), cell.tail);
            NodeCounter::plus_plus(counter, head, tail);
        },
    }
}

/// A visit of a list of generic parameters leaves the list as it is and adds to each
/// counter the number of nodes of its kind that the visit meets.
pub proof fn counts_generic_parameters(counter: NodeCounter, list: NodeList<GenericParameter>)
    ensures
        walk_generic_parameters(counter, list) == (counter
            .plus(tally_generic_parameters(list)), list),
    decreases list,
{
    match list {
        NodeList::Empty => {
            NodeCounter::plus_zero(counter);
        },
        NodeList::Cell(cell) => {
            let head = tally_generic_parameter(cell.head);
            let tail = tally_generic_parameters(cell.tail);
            counts_generic_parameter(counter, cell.head);
            counts_generic_parameters(counter.plus(head), cell.tail);
            NodeCounter::plus_plus(counter, head, tail);
        },
    }
}

} // verus!
