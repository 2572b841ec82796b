//! The traversal as a function.
//!
//! For every kind of node, `walk_x(p, node)` is the pair of the processor and the
//! node that a visit of `node` with the processor `p` ends with. A visit runs the
//! callback of the node first, then visits what the callback left under the node,
//! from left to right, handing the processor on from each part to the next. A block
//! that opens a scope gets its scope notification before it is visited. Annotations
//! of parameters and variables come after the bodies and values they stand beside.
use crate::nodes::{
    Arguments, ArrayType, AssignStatement, BinaryExpression, Block, CompoundAssignStatement,
    DoStatement, ElseIfExpressionBranch, ExportTypeFunctionStatement, Expression, ExpressionType,
    FieldExpression, FunctionArgumentType, FunctionCall, FunctionExpression, FunctionName,
    FunctionReturnType, FunctionStatement, FunctionType, FunctionVariadicType, GenericForStatement,
    GenericParameter, GenericParametersWithDefaults, GenericTypePack, GenericTypePackDefault,
    GenericTypePackWithDefault, Identifier, IfBranch, IfExpression, IfStatement, IndexExpression,
    InterpolatedStringExpression, InterpolationSegment, IntersectionType, LastStatement,
    LocalAssignStatement, LocalFunctionStatement, NodeList, NumberExpression, NumericForStatement,
    OptionalType, ParentheseExpression, ParentheseType, Prefix, RepeatStatement, ReturnStatement,
    Statement, StringExpression, StringType, TableEntry, TableEntryType, TableExpression,
    TableFieldEntry, TableIndexEntry, TableIndexerType, TableLiteralPropertyType, TablePropertyType,
    TableType, TupleArguments, Type, TypeCastExpression, TypeDeclarationStatement, TypeField,
    TypeFunctionStatement, TypeName, TypePack, TypeParameter, TypeParameters,
    TypeVariableWithDefault, TypedIdentifier, UnaryExpression, UnionType, ValueSegment, Variable,
    VariadicArgumentType, VariadicTypePack, WhileStatement,
};
use crate::nodes::expression::expressions_depth;
use crate::nodes::function_type::function_argument_types_depth;
use crate::nodes::identifier::typed_identifiers_depth;
use crate::nodes::if_expression::else_if_branches_depth;
use crate::nodes::if_statement::if_branches_depth;
use crate::nodes::interpolated_string::segments_depth;
use crate::nodes::named_type::type_parameters_depth;
use crate::nodes::statement::statements_depth;
use crate::nodes::table::table_entries_depth;
use crate::nodes::table_type::table_entry_types_depth;
use crate::nodes::type_declaration::generic_parameters_depth;
use crate::nodes::types::types_depth;
use crate::nodes::variable::variables_depth;
use crate::process::processor::NodeProcessor;
use vstd::prelude::*;

verus! {

/// What visiting a block does to the processor and to the node: the callback for the
/// node first, then each of the statements, then the last statement, if there is one.
pub open spec fn walk_block<P: NodeProcessor>(p: P, block: Block) -> (P, Block)
    decreases block.depth(), 0nat,
{
    proof {
        P::callbacks_keep_depth();
    }
    let (p1, entered) = p.on_block(block);
    let (p2, statements) = walk_statements(p1, entered.statements);
    let (p4, last_statement) = match entered.last_statement {
        Some(inner) => {
            let (p3, walked) = walk_last_statement(p2, inner);
            (p3, Some(walked))
        },
        None => (p2, None),
    };
    (p4, Block { statements, last_statement, ..entered })
}

/// What visiting a statement does to the processor and to the node: the callback for
/// the node first, then what the node holds, by its kind.
pub open spec fn walk_statement<P: NodeProcessor>(p: P, statement: Statement) -> (P, Statement)
    decreases statement.depth(), 0nat,
{
    proof {
        P::callbacks_keep_depth();
    }
    let (p1, entered) = p.on_statement(statement);
    match entered {
        Statement::Assign(inner) => {
            let (p2, walked) = walk_assign_statement(p1, inner);
            (p2, Statement::Assign(walked))
        },
        Statement::Do(inner) => {
            let (p2, walked) = walk_do_statement(p1, inner);
            (p2, Statement::Do(walked))
        },
        Statement::Call(inner) => {
            let (p2, walked) = walk_function_call(p1, inner);
            (p2, Statement::Call(walked))
        },
        Statement::CompoundAssign(inner) => {
            let (p2, walked) = walk_compound_assign(p1, inner);
            (p2, Statement::CompoundAssign(walked))
        },
        Statement::Function(inner) => {
            let (p2, walked) = walk_function_statement(p1, inner);
            (p2, Statement::Function(walked))
        },
        Statement::GenericFor(inner) => {
            let (p2, walked) = walk_generic_for(p1, inner);
            (p2, Statement::GenericFor(walked))
        },
        Statement::If(inner) => {
            let (p2, walked) = walk_if_statement(p1, inner);
            (p2, Statement::If(walked))
        },
        Statement::LocalAssign(inner) => {
            let (p2, walked) = walk_local_assign(p1, inner);
            (p2, Statement::LocalAssign(walked))
        },
        Statement::LocalFunction(inner) => {
            let (p2, walked) = walk_local_function(p1, inner);
            (p2, Statement::LocalFunction(walked))
        },
        Statement::TypeFunction(inner) => {
            let (p2, walked) = walk_type_function(p1, inner);
            (p2, Statement::TypeFunction(walked))
        },
        Statement::ExportTypeFunction(inner) => {
            let (p2, walked) = walk_export_type_function(p1, inner);
            (p2, Statement::ExportTypeFunction(walked))
        },
        Statement::NumericFor(inner) => {
            let (p2, walked) = walk_numeric_for(p1, inner);
            (p2, Statement::NumericFor(walked))
        },
        Statement::Repeat(inner) => {
            let (p2, walked) = walk_repeat_statement(p1, inner);
            (p2, Statement::Repeat(walked))
        },
        Statement::While(inner) => {
            let (p2, walked) = walk_while_statement(p1, inner);
            (p2, Statement::While(walked))
        },
        Statement::TypeDeclaration(inner) => {
            let (p2, walked) = walk_type_declaration(p1, inner);
            (p2, Statement::TypeDeclaration(walked))
        },
    }
}

/// What visiting the statement that closes a block does to the processor and to the
/// node: the callback for the node first, then what the node holds, by its kind.
pub open spec fn walk_last_statement<P: NodeProcessor>(
    p: P,
    last_statement: LastStatement,
) -> (P, LastStatement)
    decreases last_statement.depth(), 0nat,
{
    proof {
        P::callbacks_keep_depth();
    }
    let (p1, entered) = p.on_last_statement(last_statement);
    match entered {
        LastStatement::Return(inner) => {
            let (p2, expressions) = walk_expressions(p1, inner.expressions);
            (p2, LastStatement::Return(ReturnStatement { expressions, ..inner }))
        },
        LastStatement::Break(_) | LastStatement::Continue(_) => (p1, entered),
    }
}

/// What visiting an expression does to the processor and to the node: the callback for
/// the node first, then what the node holds, by its kind.
pub open spec fn walk_expression<P: NodeProcessor>(p: P, expression: Expression) -> (P, Expression)
    decreases expression.depth(), 0nat,
{
    proof {
        P::callbacks_keep_depth();
    }
    let (p1, entered) = p.on_expression(expression);
    match entered {
        Expression::Binary(inner) => {
            let (p2, walked) = walk_binary_expression(p1, *inner);
            (p2, Expression::Binary(Box::new(walked)))
        },
        Expression::Call(inner) => {
            let (p2, walked) = walk_function_call(p1, *inner);
            (p2, Expression::Call(Box::new(walked)))
        },
        Expression::Field(inner) => {
            let (p2, walked) = walk_field_expression(p1, *inner);
            (p2, Expression::Field(Box::new(walked)))
        },
        Expression::Function(inner) => {
            let (p2, walked) = walk_function_expression(p1, *inner);
            (p2, Expression::Function(Box::new(walked)))
        },
        Expression::Identifier(inner) => {
            let (p2, walked) = walk_identifier(p1, inner);
            (p2, Expression::Identifier(walked))
        },
        Expression::If(inner) => {
            let (p2, walked) = walk_if_expression(p1, *inner);
            (p2, Expression::If(Box::new(walked)))
        },
        Expression::Index(inner) => {
            let (p2, walked) = walk_index_expression(p1, *inner);
            (p2, Expression::Index(Box::new(walked)))
        },
        Expression::Number(inner) => {
            let (p2, walked) = walk_number_expression(p1, inner);
            (p2, Expression::Number(walked))
        },
        Expression::Parenthese(inner) => {
            let (p2, walked) = walk_parenthese_expression(p1, *inner);
            (p2, Expression::Parenthese(Box::new(walked)))
        },
        Expression::String(inner) => {
            let (p2, walked) = walk_string_expression(p1, inner);
            (p2, Expression::String(walked))
        },
        Expression::InterpolatedString(inner) => {
            let (p2, walked) = walk_interpolated_string_expression(p1, inner);
            (p2, Expression::InterpolatedString(walked))
        },
        Expression::Table(inner) => {
            let (p2, walked) = walk_table(p1, inner);
            (p2, Expression::Table(walked))
        },
        Expression::Unary(inner) => {
            let (p2, walked) = walk_unary_expression(p1, *inner);
            (p2, Expression::Unary(Box::new(walked)))
        },
        Expression::TypeCast(inner) => {
            let (p2, walked) = walk_type_cast_expression(p1, inner);
            (p2, Expression::TypeCast(walked))
        },
        Expression::False(_)
        | Expression::Nil(_)
        | Expression::True(_)
        | Expression::VariableArguments(_) => (p1, entered),
    }
}

/// What visiting a binary expression does to the processor and to the node: the
/// callback for the node first, then the left, then the right.
pub open spec fn walk_binary_expression<P: NodeProcessor>(
    p: P,
    binary: BinaryExpression,
) -> (P, BinaryExpression)
    decreases binary.depth(), 0nat,
{
    proof {
        P::callbacks_keep_depth();
    }
    let (p1, entered) = p.on_binary_expression(binary);
    let (p2, left) = walk_expression(p1, entered.left);
    let (p3, right) = walk_expression(p2, entered.right);
    (p3, BinaryExpression { left, right, ..entered })
}

/// What visiting a number does to the processor and to the node: the callback for the
/// node first, and nothing else.
pub open spec fn walk_number_expression<P: NodeProcessor>(
    p: P,
    number: NumberExpression,
) -> (P, NumberExpression)
{
    p.on_number_expression(number)
}

/// What visiting a parenthesized expression does to the processor and to the node: the
/// callback for the node first, then the expression.
pub open spec fn walk_parenthese_expression<P: NodeProcessor>(
    p: P,
    parenthese: ParentheseExpression,
) -> (P, ParentheseExpression)
    decreases parenthese.depth(), 0nat,
{
    proof {
        P::callbacks_keep_depth();
    }
    let (p1, entered) = p.on_parenthese_expression(parenthese);
    let (p2, expression) = walk_expression(p1, entered.expression);
    (p2, ParentheseExpression { expression, ..entered })
}

/// What visiting a string does to the processor and to the node: the callback for the
/// node first, and nothing else.
pub open spec fn walk_string_expression<P: NodeProcessor>(
    p: P,
    string: StringExpression,
) -> (P, StringExpression)
{
    p.on_string_expression(string)
}

/// What visiting an interpolated string does to the processor and to the node: the
/// callback for the node first, then each of the segments.
pub open spec fn walk_interpolated_string_expression<P: NodeProcessor>(
    p: P,
    interpolated_string: InterpolatedStringExpression,
) -> (P, InterpolatedStringExpression)
    decreases interpolated_string.depth(), 0nat,
{
    proof {
        P::callbacks_keep_depth();
    }
    let (p1, entered) = p.on_interpolated_string_expression(interpolated_string);
    let (p2, segments) = walk_segments(p1, entered.segments);
    (p2, InterpolatedStringExpression { segments, ..entered })
}

/// What visiting a unary expression does to the processor and to the node: the callback
/// for the node first, then the expression.
pub open spec fn walk_unary_expression<P: NodeProcessor>(
    p: P,
    unary: UnaryExpression,
) -> (P, UnaryExpression)
    decreases unary.depth(), 0nat,
{
    proof {
        P::callbacks_keep_depth();
    }
    let (p1, entered) = p.on_unary_expression(unary);
    let (p2, expression) = walk_expression(p1, entered.expression);
    (p2, UnaryExpression { expression, ..entered })
}

/// What visiting a type cast does to the processor and to the node: the callback for
/// the node first, then the expression, then the cast type.
pub open spec fn walk_type_cast_expression<P: NodeProcessor>(
    p: P,
    type_cast: TypeCastExpression,
) -> (P, TypeCastExpression)
    decreases type_cast.depth(), 0nat,
{
    proof {
        P::callbacks_keep_depth();
    }
    let (p1, entered) = p.on_type_cast_expression(type_cast);
    let (p2, expression) = walk_expression(p1, *entered.expression);
    let (p3, cast_type) = walk_type(p2, *entered.cast_type);
    (
        p3,
        TypeCastExpression {
            expression: Box::new(expression),
            cast_type: Box::new(cast_type),
            ..entered
        },
    )
}

/// What visiting an anonymous function does to the processor and to the node: the
/// callback for the node first, then the scope notification for the block, then the
/// block, then each of the parameters, then the variadic type, if there is one, then
/// the return type, if there is one.
pub open spec fn walk_function_expression<P: NodeProcessor>(
    p: P,
    function: FunctionExpression,
) -> (P, FunctionExpression)
    decreases function.depth(), 0nat,
{
    proof {
        P::callbacks_keep_depth();
    }
    let (p1, entered) = p.on_function_expression(function);
    let (p2, scoped) = p1.on_scope(entered.block);
    let (p3, block) = walk_block(p2, scoped);
    let (p4, parameters) = walk_typed_identifiers(p3, entered.parameters);
    let (p6, variadic_type) = match entered.variadic_type {
        Some(inner) => {
            let (p5, walked) = walk_function_variadic_type(p4, inner);
            (p5, Some(walked))
        },
        None => (p4, None),
    };
    let (p8, return_type) = match entered.return_type {
        Some(inner) => {
            let (p7, walked) = walk_function_return_type(p6, inner);
            (p7, Some(walked))
        },
        None => (p6, None),
    };
    (p8, FunctionExpression { block, parameters, variadic_type, return_type, ..entered })
}

/// What visiting an assignment does to the processor and to the node: the callback for
/// the node first, then each of the variables, then each of the values.
pub open spec fn walk_assign_statement<P: NodeProcessor>(
    p: P,
    statement: AssignStatement,
) -> (P, AssignStatement)
    decreases statement.depth(), 0nat,
{
    proof {
        P::callbacks_keep_depth();
    }
    let (p1, entered) = p.on_assign_statement(statement);
    let (p2, variables) = walk_variables(p1, entered.variables);
    let (p3, values) = walk_expressions(p2, entered.values);
    (p3, AssignStatement { variables, values, ..entered })
}

/// What visiting a do statement does to the processor and to the node: the callback for
/// the node first, then the scope notification for the block, then the block.
pub open spec fn walk_do_statement<P: NodeProcessor>(
    p: P,
    statement: DoStatement,
) -> (P, DoStatement)
    decreases statement.depth(), 0nat,
{
    proof {
        P::callbacks_keep_depth();
    }
    let (p1, entered) = p.on_do_statement(statement);
    let (p2, scoped) = p1.on_scope(entered.block);
    let (p3, block) = walk_block(p2, scoped);
    (p3, DoStatement { block, ..entered })
}

/// What visiting a compound assignment does to the processor and to the node: the
/// callback for the node first, then the variable, then the value.
pub open spec fn walk_compound_assign<P: NodeProcessor>(
    p: P,
    statement: CompoundAssignStatement,
) -> (P, CompoundAssignStatement)
    decreases statement.depth(), 0nat,
{
    proof {
        P::callbacks_keep_depth();
    }
    let (p1, entered) = p.on_compound_assign_statement(statement);
    let (p2, variable) = walk_variable(p1, entered.variable);
    let (p3, value) = walk_expression(p2, entered.value);
    (p3, CompoundAssignStatement { variable, value, ..entered })
}

/// What visiting a function statement does to the processor and to the node: the
/// callback for the node first, then the name, then the scope notification for the
/// block, then the block, then each of the parameters, then the variadic type, if there
/// is one, then the return type, if there is one.
pub open spec fn walk_function_statement<P: NodeProcessor>(
    p: P,
    statement: FunctionStatement,
) -> (P, FunctionStatement)
    decreases statement.depth(), 0nat,
{
    proof {
        P::callbacks_keep_depth();
    }
    let (p1, entered) = p.on_function_statement(statement);
    let (p2, walked_name) = walk_identifier(p1, entered.name.name);
    let (p3, scoped) = p2.on_scope(entered.block);
    let (p4, block) = walk_block(p3, scoped);
    let (p5, parameters) = walk_typed_identifiers(p4, entered.parameters);
    let (p7, variadic_type) = match entered.variadic_type {
        Some(inner) => {
            let (p6, walked) = walk_function_variadic_type(p5, inner);
            (p6, Some(walked))
        },
        None => (p5, None),
    };
    let (p9, return_type) = match entered.return_type {
        Some(inner) => {
            let (p8, walked) = walk_function_return_type(p7, inner);
            (p8, Some(walked))
        },
        None => (p7, None),
    };
    (
        p9,
        FunctionStatement {
            name: FunctionName { name: walked_name, ..entered.name },
            block,
            parameters,
            variadic_type,
            return_type,
            ..entered
        },
    )
}

/// What visiting a generic for loop does to the processor and to the node: the callback
/// for the node first, then each of the expressions, then the scope notification for
/// the block, then the block, then each of the identifiers.
pub open spec fn walk_generic_for<P: NodeProcessor>(
    p: P,
    statement: GenericForStatement,
) -> (P, GenericForStatement)
    decreases statement.depth(), 0nat,
{
    proof {
        P::callbacks_keep_depth();
    }
    let (p1, entered) = p.on_generic_for_statement(statement);
    let (p2, expressions) = walk_expressions(p1, entered.expressions);
    let (p3, scoped) = p2.on_scope(entered.block);
    let (p4, block) = walk_block(p3, scoped);
    let (p5, identifiers) = walk_typed_identifiers(p4, entered.identifiers);
    (p5, GenericForStatement { identifiers, expressions, block, ..entered })
}

/// What visiting an if statement does to the processor and to the node: the callback
/// for the node first, then each of the branches, then for the else block, if there is
/// one, its scope notification and then the block itself.
pub open spec fn walk_if_statement<P: NodeProcessor>(
    p: P,
    statement: IfStatement,
) -> (P, IfStatement)
    decreases statement.depth(), 0nat,
{
    proof {
        P::callbacks_keep_depth();
    }
    let (p1, entered) = p.on_if_statement(statement);
    let (p2, branches) = walk_if_branches(p1, entered.branches);
    let (p5, else_block) = match entered.else_block {
        Some(inner) => {
            let (p3, scoped) = p2.on_scope(inner);
            let (p4, walked) = walk_block(p3, scoped);
            (p4, Some(walked))
        },
        None => (p2, None),
    };
    (p5, IfStatement { branches, else_block, ..entered })
}

/// What visiting a local assignment does to the processor and to the node: the callback
/// for the node first, then each of the values, then each of the variables.
pub open spec fn walk_local_assign<P: NodeProcessor>(
    p: P,
    statement: LocalAssignStatement,
) -> (P, LocalAssignStatement)
    decreases statement.depth(), 0nat,
{
    proof {
        P::callbacks_keep_depth();
    }
    let (p1, entered) = p.on_local_assign_statement(statement);
    let (p2, values) = walk_expressions(p1, entered.values);
    let (p3, variables) = walk_typed_identifiers(p2, entered.variables);
    (p3, LocalAssignStatement { variables, values, ..entered })
}

/// What visiting a local function does to the processor and to the node: the callback
/// for the node first, then the scope notification for the block, then the block, then
/// each of the parameters, then the variadic type, if there is one, then the return
/// type, if there is one.
pub open spec fn walk_local_function<P: NodeProcessor>(
    p: P,
    statement: LocalFunctionStatement,
) -> (P, LocalFunctionStatement)
    decreases statement.depth(), 0nat,
{
    proof {
        P::callbacks_keep_depth();
    }
    let (p1, entered) = p.on_local_function_statement(statement);
    let (p2, scoped) = p1.on_scope(entered.block);
    let (p3, block) = walk_block(p2, scoped);
    let (p4, parameters) = walk_typed_identifiers(p3, entered.parameters);
    let (p6, variadic_type) = match entered.variadic_type {
        Some(inner) => {
            let (p5, walked) = walk_function_variadic_type(p4, inner);
            (p5, Some(walked))
        },
        None => (p4, None),
    };
    let (p8, return_type) = match entered.return_type {
        Some(inner) => {
            let (p7, walked) = walk_function_return_type(p6, inner);
            (p7, Some(walked))
        },
        None => (p6, None),
    };
    (p8, LocalFunctionStatement { block, parameters, variadic_type, return_type, ..entered })
}

/// What visiting a type function does to the processor and to the node: the callback
/// for the node first, then the scope notification for the block, then the block, then
/// each of the parameters, then the variadic type, if there is one, then the return
/// type, if there is one.
pub open spec fn walk_type_function<P: NodeProcessor>(
    p: P,
    statement: TypeFunctionStatement,
) -> (P, TypeFunctionStatement)
    decreases statement.depth(), 0nat,
{
    proof {
        P::callbacks_keep_depth();
    }
    let (p1, entered) = p.on_type_function_statement(statement);
    let (p2, scoped) = p1.on_scope(entered.block);
    let (p3, block) = walk_block(p2, scoped);
    let (p4, parameters) = walk_typed_identifiers(p3, entered.parameters);
    let (p6, variadic_type) = match entered.variadic_type {
        Some(inner) => {
            let (p5, walked) = walk_function_variadic_type(p4, inner);
            (p5, Some(walked))
        },
        None => (p4, None),
    };
    let (p8, return_type) = match entered.return_type {
        Some(inner) => {
            let (p7, walked) = walk_function_return_type(p6, inner);
            (p7, Some(walked))
        },
        None => (p6, None),
    };
    (p8, TypeFunctionStatement { block, parameters, variadic_type, return_type, ..entered })
}

/// What visiting an exported type function does to the processor and to the node: the
/// callback for the node first, then the scope notification for the block, then the
/// block, then each of the parameters, then the variadic type, if there is one, then
/// the return type, if there is one.
pub open spec fn walk_export_type_function<P: NodeProcessor>(
    p: P,
    statement: ExportTypeFunctionStatement,
) -> (P, ExportTypeFunctionStatement)
    decreases statement.depth(), 0nat,
{
    proof {
        P::callbacks_keep_depth();
    }
    let (p1, entered) = p.on_export_type_function_statement(statement);
    let (p2, scoped) = p1.on_scope(entered.block);
    let (p3, block) = walk_block(p2, scoped);
    let (p4, parameters) = walk_typed_identifiers(p3, entered.parameters);
    let (p6, variadic_type) = match entered.variadic_type {
        Some(inner) => {
            let (p5, walked) = walk_function_variadic_type(p4, inner);
            (p5, Some(walked))
        },
        None => (p4, None),
    };
    let (p8, return_type) = match entered.return_type {
        Some(inner) => {
            let (p7, walked) = walk_function_return_type(p6, inner);
            (p7, Some(walked))
        },
        None => (p6, None),
    };
    (
        p8,
        ExportTypeFunctionStatement {
            block,
            parameters,
            variadic_type,
            return_type,
            ..entered
        },
    )
}

/// What visiting the type of the variadic arguments of a function does to the processor
/// and to the node: what the node holds, by its kind.
pub open spec fn walk_function_variadic_type<P: NodeProcessor>(
    p: P,
    variadic_type: FunctionVariadicType,
) -> (P, FunctionVariadicType)
    decreases variadic_type.depth(), 0nat,
{
    match variadic_type {
        FunctionVariadicType::Type(inner) => {
            let (p1, walked) = walk_type(p, inner);
            (p1, FunctionVariadicType::Type(walked))
        },
        FunctionVariadicType::GenericTypePack(inner) => {
            let (p1, walked) = walk_generic_type_pack(p, inner);
            (p1, FunctionVariadicType::GenericTypePack(walked))
        },
    }
}

/// What visiting a generic type pack does to the processor and to the node: the
/// callback for the node first, and nothing else.
pub open spec fn walk_generic_type_pack<P: NodeProcessor>(
    p: P,
    generic: GenericTypePack,
) -> (P, GenericTypePack)
{
    p.on_generic_type_pack(generic)
}

/// What visiting a numeric for loop does to the processor and to the node: the callback
/// for the node first, then the start, then the end, then the step, if there is one,
/// then the scope notification for the block, then the block, then the identifier.
pub open spec fn walk_numeric_for<P: NodeProcessor>(
    p: P,
    statement: NumericForStatement,
) -> (P, NumericForStatement)
    decreases statement.depth(), 0nat,
{
    proof {
        P::callbacks_keep_depth();
    }
    let (p1, entered) = p.on_numeric_for_statement(statement);
    let (p2, start) = walk_expression(p1, entered.start);
    let (p3, end) = walk_expression(p2, entered.end);
    let (p5, step) = match entered.step {
        Some(inner) => {
            let (p4, walked) = walk_expression(p3, inner);
            (p4, Some(walked))
        },
        None => (p3, None),
    };
    let (p6, scoped) = p5.on_scope(entered.block);
    let (p7, block) = walk_block(p6, scoped);
    let (p8, identifier) = walk_typed_identifier(p7, entered.identifier);
    (p8, NumericForStatement { identifier, start, end, step, block, ..entered })
}

/// What visiting a repeat loop does to the processor and to the node: the callback for
/// the node first, then the scope notification for the block, together with the
/// condition, then the block, then the condition.
pub open spec fn walk_repeat_statement<P: NodeProcessor>(
    p: P,
    statement: RepeatStatement,
) -> (P, RepeatStatement)
    decreases statement.depth(), 0nat,
{
    proof {
        P::callbacks_keep_depth();
    }
    let (p1, entered) = p.on_repeat_statement(statement);
    let (p2, scoped, seen) = p1.on_repeat_scope(entered.block, entered.condition);
    let (p3, block) = walk_block(p2, scoped);
    let (p4, condition) = walk_expression(p3, seen);
    (p4, RepeatStatement { block, condition, ..entered })
}

/// What visiting a while loop does to the processor and to the node: the callback for
/// the node first, then the condition, then the scope notification for the block, then
/// the block.
pub open spec fn walk_while_statement<P: NodeProcessor>(
    p: P,
    statement: WhileStatement,
) -> (P, WhileStatement)
    decreases statement.depth(), 0nat,
{
    proof {
        P::callbacks_keep_depth();
    }
    let (p1, entered) = p.on_while_statement(statement);
    let (p2, condition) = walk_expression(p1, entered.condition);
    let (p3, scoped) = p2.on_scope(entered.block);
    let (p4, block) = walk_block(p3, scoped);
    (p4, WhileStatement { block, condition, ..entered })
}

/// What visiting a type declaration does to the processor and to the node: the callback
/// for the node first, then each of the generic parameters, if there are any, then the
/// declared type.
pub open spec fn walk_type_declaration<P: NodeProcessor>(
    p: P,
    statement: TypeDeclarationStatement,
) -> (P, TypeDeclarationStatement)
    decreases statement.depth(), 0nat,
{
    proof {
        P::callbacks_keep_depth();
    }
    let (p1, entered) = p.on_type_declaration(statement);
    let (p3, generic_parameters) = match entered.generic_parameters {
        Some(inner) => {
            let (p2, parameters) = walk_generic_parameters(p1, inner.parameters);
            (p2, Some(GenericParametersWithDefaults { parameters, ..inner }))
        },
        None => (p1, None),
    };
    let (p4, declared_type) = walk_type(p3, entered.declared_type);
    (p4, TypeDeclarationStatement { declared_type, generic_parameters, ..entered })
}

/// What visiting a variable does to the processor and to the node: the callback for the
/// node first, then what the node holds, by its kind.
pub open spec fn walk_variable<P: NodeProcessor>(p: P, variable: Variable) -> (P, Variable)
    decreases variable.depth(), 0nat,
{
    proof {
        P::callbacks_keep_depth();
    }
    let (p1, entered) = p.on_variable(variable);
    match entered {
        Variable::Identifier(inner) => {
            let (p2, walked) = walk_identifier(p1, inner);
            (p2, Variable::Identifier(walked))
        },
        Variable::Field(inner) => {
            let (p2, walked) = walk_field_expression(p1, *inner);
            (p2, Variable::Field(Box::new(walked)))
        },
        Variable::Index(inner) => {
            let (p2, walked) = walk_index_expression(p1, *inner);
            (p2, Variable::Index(Box::new(walked)))
        },
    }
}

/// What visiting an identifier does to the processor and to the node: the callback for
/// the node first, and nothing else.
pub open spec fn walk_identifier<P: NodeProcessor>(p: P, identifier: Identifier) -> (P, Identifier)
{
    p.on_variable_expression(identifier)
}

/// What visiting an if expression does to the processor and to the node: the callback
/// for the node first, then the condition, then the result, then each of the branches,
/// then the else result.
pub open spec fn walk_if_expression<P: NodeProcessor>(
    p: P,
    if_expression: IfExpression,
) -> (P, IfExpression)
    decreases if_expression.depth(), 0nat,
{
    proof {
        P::callbacks_keep_depth();
    }
    let (p1, entered) = p.on_if_expression(if_expression);
    let (p2, condition) = walk_expression(p1, entered.condition);
    let (p3, result) = walk_expression(p2, entered.result);
    let (p4, branches) = walk_else_if_branches(p3, entered.branches);
    let (p5, else_result) = walk_expression(p4, entered.else_result);
    (p5, IfExpression { condition, result, else_result, branches, ..entered })
}

/// What visiting a field expression does to the processor and to the node: the callback
/// for the node first, then the prefix.
pub open spec fn walk_field_expression<P: NodeProcessor>(
    p: P,
    field: FieldExpression,
) -> (P, FieldExpression)
    decreases field.depth(), 0nat,
{
    proof {
        P::callbacks_keep_depth();
    }
    let (p1, entered) = p.on_field_expression(field);
    let (p2, prefix) = walk_prefix_expression(p1, entered.prefix);
    (p2, FieldExpression { prefix, ..entered })
}

/// What visiting an index expression does to the processor and to the node: the
/// callback for the node first, then the prefix, then the index.
pub open spec fn walk_index_expression<P: NodeProcessor>(
    p: P,
    index: IndexExpression,
) -> (P, IndexExpression)
    decreases index.depth(), 0nat,
{
    proof {
        P::callbacks_keep_depth();
    }
    let (p1, entered) = p.on_index_expression(index);
    let (p2, prefix) = walk_prefix_expression(p1, entered.prefix);
    let (p3, walked_index) = walk_expression(p2, entered.index);
    (p3, IndexExpression { prefix, index: walked_index, ..entered })
}

/// What visiting a function call does to the processor and to the node: the callback
/// for the node first, then the prefix, then the arguments.
pub open spec fn walk_function_call<P: NodeProcessor>(p: P, call: FunctionCall) -> (P, FunctionCall)
    decreases call.depth(), 0nat,
{
    proof {
        P::callbacks_keep_depth();
    }
    let (p1, entered) = p.on_function_call(call);
    let (p2, prefix) = walk_prefix_expression(p1, *entered.prefix);
    let (p3, arguments) = walk_arguments(p2, entered.arguments);
    (p3, FunctionCall { prefix: Box::new(prefix), arguments, ..entered })
}

/// What visiting the arguments of a call does to the processor and to the node: what
/// the node holds, by its kind.
pub open spec fn walk_arguments<P: NodeProcessor>(p: P, arguments: Arguments) -> (P, Arguments)
    decreases arguments.depth(), 0nat,
{
    match arguments {
        Arguments::String(inner) => {
            let (p1, walked) = walk_string_expression(p, inner);
            (p1, Arguments::String(walked))
        },
        Arguments::Table(inner) => {
            let (p1, walked) = walk_table(p, inner);
            (p1, Arguments::Table(walked))
        },
        Arguments::Tuple(inner) => {
            let (p1, values) = walk_expressions(p, inner.values);
            (p1, Arguments::Tuple(TupleArguments { values, ..inner }))
        },
    }
}

/// What visiting a table constructor does to the processor and to the node: the
/// callback for the node first, then each of the entries.
pub open spec fn walk_table<P: NodeProcessor>(p: P, table: TableExpression) -> (P, TableExpression)
    decreases table.depth(), 0nat,
{
    proof {
        P::callbacks_keep_depth();
    }
    let (p1, entered) = p.on_table_expression(table);
    let (p2, entries) = walk_table_entries(p1, entered.entries);
    (p2, TableExpression { entries, ..entered })
}

/// What visiting a prefix does to the processor and to the node: the callback for the
/// node first, then what the node holds, by its kind.
pub open spec fn walk_prefix_expression<P: NodeProcessor>(p: P, prefix: Prefix) -> (P, Prefix)
    decreases prefix.depth(), 0nat,
{
    proof {
        P::callbacks_keep_depth();
    }
    let (p1, entered) = p.on_prefix_expression(prefix);
    match entered {
        Prefix::Call(inner) => {
            let (p2, walked) = walk_function_call(p1, inner);
            (p2, Prefix::Call(walked))
        },
        Prefix::Field(inner) => {
            let (p2, walked) = walk_field_expression(p1, *inner);
            (p2, Prefix::Field(Box::new(walked)))
        },
        Prefix::Identifier(inner) => {
            let (p2, walked) = walk_identifier(p1, inner);
            (p2, Prefix::Identifier(walked))
        },
        Prefix::Index(inner) => {
            let (p2, walked) = walk_index_expression(p1, *inner);
            (p2, Prefix::Index(Box::new(walked)))
        },
        Prefix::Parenthese(inner) => {
            let (p2, walked) = walk_parenthese_expression(p1, inner);
            (p2, Prefix::Parenthese(walked))
        },
    }
}

/// What visiting a type does to the processor and to the node: the callback for the
/// node first, then what the node holds, by its kind.
pub open spec fn walk_type<P: NodeProcessor>(p: P, annotation: Type) -> (P, Type)
    decreases annotation.depth(), 0nat,
{
    proof {
        P::callbacks_keep_depth();
    }
    let (p1, entered) = p.on_type(annotation);
    match entered {
        Type::Name(inner) => {
            let (p2, walked) = walk_type_name(p1, inner);
            (p2, Type::Name(walked))
        },
        Type::Field(inner) => {
            let (p2, walked) = walk_type_field(p1, *inner);
            (p2, Type::Field(Box::new(walked)))
        },
        Type::Array(inner) => {
            let (p2, walked) = walk_array_type(p1, inner);
            (p2, Type::Array(walked))
        },
        Type::Table(inner) => {
            let (p2, walked) = walk_table_type(p1, inner);
            (p2, Type::Table(walked))
        },
        Type::TypeOf(inner) => {
            let (p2, walked) = walk_expression_type(p1, inner);
            (p2, Type::TypeOf(walked))
        },
        Type::Parenthese(inner) => {
            let (p2, walked) = walk_parenthese_type(p1, inner);
            (p2, Type::Parenthese(walked))
        },
        Type::Function(inner) => {
            let (p2, walked) = walk_function_type(p1, *inner);
            (p2, Type::Function(Box::new(walked)))
        },
        Type::Optional(inner) => {
            let (p2, walked) = walk_optional_type(p1, inner);
            (p2, Type::Optional(walked))
        },
        Type::Intersection(inner) => {
            let (p2, walked) = walk_intersection_type(p1, inner);
            (p2, Type::Intersection(walked))
        },
        Type::Union(inner) => {
            let (p2, walked) = walk_union_type(p1, inner);
            (p2, Type::Union(walked))
        },
        Type::String(inner) => {
            let (p2, walked) = walk_string_type(p1, inner);
            (p2, Type::String(walked))
        },
        Type::True(_) | Type::False(_) | Type::Nil(_) => (p1, entered),
    }
}

/// What visiting a named type does to the processor and to the node: the callback for
/// the node first, then each of the type parameters, if there are any.
pub open spec fn walk_type_name<P: NodeProcessor>(p: P, name: TypeName) -> (P, TypeName)
    decreases name.depth(), 0nat,
{
    proof {
        P::callbacks_keep_depth();
    }
    let (p1, entered) = p.on_type_name(name);
    let (p3, type_parameters) = match entered.type_parameters {
        Some(inner) => {
            let (p2, parameters) = walk_type_parameters(p1, inner.parameters);
            (p2, Some(TypeParameters { parameters, ..inner }))
        },
        None => (p1, None),
    };
    (p3, TypeName { type_parameters, ..entered })
}

/// What visiting a type read from a namespace does to the processor and to the node:
/// the callback for the node first, then the name.
pub open spec fn walk_type_field<P: NodeProcessor>(p: P, type_field: TypeField) -> (P, TypeField)
    decreases type_field.depth(), 0nat,
{
    proof {
        P::callbacks_keep_depth();
    }
    let (p1, entered) = p.on_type_field(type_field);
    let (p2, name) = walk_type_name(p1, entered.name);
    (p2, TypeField { name, ..entered })
}

/// What visiting an array type does to the processor and to the node: the callback for
/// the node first, then the element type.
pub open spec fn walk_array_type<P: NodeProcessor>(p: P, array: ArrayType) -> (P, ArrayType)
    decreases array.depth(), 0nat,
{
    proof {
        P::callbacks_keep_depth();
    }
    let (p1, entered) = p.on_array_type(array);
    let (p2, element_type) = walk_type(p1, *entered.element_type);
    (p2, ArrayType { element_type: Box::new(element_type), ..entered })
}

/// What visiting a table type does to the processor and to the node: the callback for
/// the node first, then each of the entries.
pub open spec fn walk_table_type<P: NodeProcessor>(p: P, table: TableType) -> (P, TableType)
    decreases table.depth(), 0nat,
{
    proof {
        P::callbacks_keep_depth();
    }
    let (p1, entered) = p.on_table_type(table);
    let (p2, entries) = walk_table_entry_types(p1, entered.entries);
    (p2, TableType { entries, ..entered })
}

/// What visiting a `typeof` type does to the processor and to the node: the callback
/// for the node first, then the expression.
pub open spec fn walk_expression_type<P: NodeProcessor>(
    p: P,
    expression_type: ExpressionType,
) -> (P, ExpressionType)
    decreases expression_type.depth(), 0nat,
{
    proof {
        P::callbacks_keep_depth();
    }
    let (p1, entered) = p.on_expression_type(expression_type);
    let (p2, expression) = walk_expression(p1, *entered.expression);
    (p2, ExpressionType { expression: Box::new(expression), ..entered })
}

/// What visiting a parenthesized type does to the processor and to the node: the
/// callback for the node first, then the inner type.
pub open spec fn walk_parenthese_type<P: NodeProcessor>(
    p: P,
    parenthese: ParentheseType,
) -> (P, ParentheseType)
    decreases parenthese.depth(), 0nat,
{
    proof {
        P::callbacks_keep_depth();
    }
    let (p1, entered) = p.on_parenthese_type(parenthese);
    let (p2, inner_type) = walk_type(p1, *entered.inner_type);
    (p2, ParentheseType { inner_type: Box::new(inner_type), ..entered })
}

/// What visiting a function type does to the processor and to the node: the callback
/// for the node first, then each of the arguments, then the variadic argument type, if
/// there is one, then the return type.
pub open spec fn walk_function_type<P: NodeProcessor>(
    p: P,
    function: FunctionType,
) -> (P, FunctionType)
    decreases function.depth(), 0nat,
{
    proof {
        P::callbacks_keep_depth();
    }
    let (p1, entered) = p.on_function_type(function);
    let (p2, arguments) = walk_function_argument_types(p1, entered.arguments);
    let (p4, variadic_argument_type) = match entered.variadic_argument_type {
        Some(inner) => {
            let (p3, walked) = walk_variadic_argument_type(p2, inner);
            (p3, Some(walked))
        },
        None => (p2, None),
    };
    let (p5, return_type) = walk_function_return_type(p4, entered.return_type);
    (p5, FunctionType { arguments, variadic_argument_type, return_type, ..entered })
}

/// What visiting an optional type does to the processor and to the node: the callback
/// for the node first, then the inner type.
pub open spec fn walk_optional_type<P: NodeProcessor>(
    p: P,
    optional: OptionalType,
) -> (P, OptionalType)
    decreases optional.depth(), 0nat,
{
    proof {
        P::callbacks_keep_depth();
    }
    let (p1, entered) = p.on_optional_type(optional);
    let (p2, inner_type) = walk_type(p1, *entered.inner_type);
    (p2, OptionalType { inner_type: Box::new(inner_type), ..entered })
}

/// What visiting an intersection type does to the processor and to the node: the
/// callback for the node first, then each of the types.
pub open spec fn walk_intersection_type<P: NodeProcessor>(
    p: P,
    intersection: IntersectionType,
) -> (P, IntersectionType)
    decreases intersection.depth(), 0nat,
{
    proof {
        P::callbacks_keep_depth();
    }
    let (p1, entered) = p.on_intersection_type(intersection);
    let (p2, types) = walk_types(p1, entered.types);
    (p2, IntersectionType { types, ..entered })
}

/// What visiting a union type does to the processor and to the node: the callback for
/// the node first, then each of the types.
pub open spec fn walk_union_type<P: NodeProcessor>(p: P, union: UnionType) -> (P, UnionType)
    decreases union.depth(), 0nat,
{
    proof {
        P::callbacks_keep_depth();
    }
    let (p1, entered) = p.on_union_type(union);
    let (p2, types) = walk_types(p1, entered.types);
    (p2, UnionType { types, ..entered })
}

/// What visiting a string type does to the processor and to the node: the callback for
/// the node first, and nothing else.
pub open spec fn walk_string_type<P: NodeProcessor>(p: P, string: StringType) -> (P, StringType)
{
    p.on_string_type(string)
}

/// What visiting a type pack does to the processor and to the node: the callback for
/// the node first, then each of the types, then the variadic type, if there is one.
pub open spec fn walk_type_pack<P: NodeProcessor>(p: P, type_pack: TypePack) -> (P, TypePack)
    decreases type_pack.depth(), 0nat,
{
    proof {
        P::callbacks_keep_depth();
    }
    let (p1, entered) = p.on_type_pack(type_pack);
    let (p2, types) = walk_types(p1, entered.types);
    let (p4, variadic_type) = match entered.variadic_type {
        Some(inner) => {
            let (p3, walked) = walk_variadic_argument_type(p2, inner);
            (p3, Some(walked))
        },
        None => (p2, None),
    };
    (p4, TypePack { types, variadic_type, ..entered })
}

/// What visiting a variadic type pack does to the processor and to the node: the
/// callback for the node first, then the inner type.
pub open spec fn walk_variadic_type_pack<P: NodeProcessor>(
    p: P,
    variadic_type_pack: VariadicTypePack,
) -> (P, VariadicTypePack)
    decreases variadic_type_pack.depth(), 0nat,
{
    proof {
        P::callbacks_keep_depth();
    }
    let (p1, entered) = p.on_variadic_type_pack(variadic_type_pack);
    let (p2, inner_type) = walk_type(p1, *entered.inner_type);
    (p2, VariadicTypePack { inner_type: Box::new(inner_type), ..entered })
}

/// What visiting the variadic tail of a list of types does to the processor and to the
/// node: what the node holds, by its kind.
pub open spec fn walk_variadic_argument_type<P: NodeProcessor>(
    p: P,
    variadic_type: VariadicArgumentType,
) -> (P, VariadicArgumentType)
    decreases variadic_type.depth(), 0nat,
{
    match variadic_type {
        VariadicArgumentType::VariadicTypePack(inner) => {
            let (p1, walked) = walk_variadic_type_pack(p, inner);
            (p1, VariadicArgumentType::VariadicTypePack(walked))
        },
        VariadicArgumentType::GenericTypePack(inner) => {
            let (p1, walked) = walk_generic_type_pack(p, inner);
            (p1, VariadicArgumentType::GenericTypePack(walked))
        },
    }
}

/// What visiting what a function returns does to the processor and to the node: what
/// the node holds, by its kind.
pub open spec fn walk_function_return_type<P: NodeProcessor>(
    p: P,
    return_type: FunctionReturnType,
) -> (P, FunctionReturnType)
    decreases return_type.depth(), 0nat,
{
    match return_type {
        FunctionReturnType::Type(inner) => {
            let (p1, walked) = walk_type(p, *inner);
            (p1, FunctionReturnType::Type(Box::new(walked)))
        },
        FunctionReturnType::TypePack(inner) => {
            let (p1, walked) = walk_type_pack(p, inner);
            (p1, FunctionReturnType::TypePack(walked))
        },
        FunctionReturnType::VariadicTypePack(inner) => {
            let (p1, walked) = walk_variadic_type_pack(p, inner);
            (p1, FunctionReturnType::VariadicTypePack(walked))
        },
        FunctionReturnType::GenericTypePack(inner) => {
            let (p1, walked) = walk_generic_type_pack(p, inner);
            (p1, FunctionReturnType::GenericTypePack(walked))
        },
    }
}

/// What visiting the annotation of a typed identifier does to the processor and to the
/// node: the annotation, if there is one.
pub open spec fn walk_typed_identifier<P: NodeProcessor>(
    p: P,
    identifier: TypedIdentifier,
) -> (P, TypedIdentifier)
    decreases identifier.depth(), 0nat,
{
    let (p2, annotation) = match identifier.annotation {
        Some(inner) => {
            let (p1, walked) = walk_type(p, inner);
            (p1, Some(walked))
        },
        None => (p, None),
    };
    (p2, TypedIdentifier { annotation, ..identifier })
}

/// What visiting a branch of an if statement does to the processor and to the node: the
/// condition, then the scope notification for the block, then the block.
pub open spec fn walk_if_branch<P: NodeProcessor>(p: P, branch: IfBranch) -> (P, IfBranch)
    decreases branch.depth(), 0nat,
{
    proof {
        P::callbacks_keep_depth();
    }
    let (p1, condition) = walk_expression(p, branch.condition);
    let (p2, scoped) = p1.on_scope(branch.block);
    let (p3, block) = walk_block(p2, scoped);
    (p3, IfBranch { condition, block, ..branch })
}

/// What visiting an `elseif` branch of an if expression does to the processor and to
/// the node: the condition, then the result.
pub open spec fn walk_else_if_branch<P: NodeProcessor>(
    p: P,
    branch: ElseIfExpressionBranch,
) -> (P, ElseIfExpressionBranch)
    decreases branch.depth(), 0nat,
{
    let (p1, condition) = walk_expression(p, branch.condition);
    let (p2, result) = walk_expression(p1, branch.result);
    (p2, ElseIfExpressionBranch { condition, result, ..branch })
}

/// What visiting a piece of an interpolated string does to the processor and to the
/// node: what the node holds, by its kind.
pub open spec fn walk_segment<P: NodeProcessor>(
    p: P,
    segment: InterpolationSegment,
) -> (P, InterpolationSegment)
    decreases segment.depth(), 0nat,
{
    match segment {
        InterpolationSegment::Value(inner) => {
            let (p1, value) = walk_expression(p, inner.value);
            (p1, InterpolationSegment::Value(ValueSegment { value, ..inner }))
        },
        InterpolationSegment::String(_) => (p, segment),
    }
}

/// What visiting an entry of a table constructor does to the processor and to the node:
/// what the node holds, by its kind.
pub open spec fn walk_table_entry<P: NodeProcessor>(p: P, entry: TableEntry) -> (P, TableEntry)
    decreases entry.depth(), 0nat,
{
    match entry {
        TableEntry::Field(inner) => {
            let (p1, value) = walk_expression(p, inner.value);
            (p1, TableEntry::Field(TableFieldEntry { value, ..inner }))
        },
        TableEntry::Index(inner) => {
            let (p1, key) = walk_expression(p, inner.key);
            let (p2, value) = walk_expression(p1, inner.value);
            (p2, TableEntry::Index(TableIndexEntry { key, value, ..inner }))
        },
        TableEntry::Value(inner) => {
            let (p1, walked) = walk_expression(p, inner);
            (p1, TableEntry::Value(walked))
        },
    }
}

/// What visiting a parameter given to a named type does to the processor and to the
/// node: what the node holds, by its kind.
pub open spec fn walk_type_parameter<P: NodeProcessor>(
    p: P,
    parameter: TypeParameter,
) -> (P, TypeParameter)
    decreases parameter.depth(), 0nat,
{
    match parameter {
        TypeParameter::Type(inner) => {
            let (p1, walked) = walk_type(p, inner);
            (p1, TypeParameter::Type(walked))
        },
        TypeParameter::TypePack(inner) => {
            let (p1, walked) = walk_type_pack(p, inner);
            (p1, TypeParameter::TypePack(walked))
        },
        TypeParameter::VariadicTypePack(inner) => {
            let (p1, walked) = walk_variadic_type_pack(p, inner);
            (p1, TypeParameter::VariadicTypePack(walked))
        },
        TypeParameter::GenericTypePack(inner) => {
            let (p1, walked) = walk_generic_type_pack(p, inner);
            (p1, TypeParameter::GenericTypePack(walked))
        },
    }
}

/// What visiting an entry of a table type does to the processor and to the node: what
/// the node holds, by its kind.
pub open spec fn walk_table_entry_type<P: NodeProcessor>(
    p: P,
    entry: TableEntryType,
) -> (P, TableEntryType)
    decreases entry.depth(), 0nat,
{
    match entry {
        TableEntryType::Property(inner) => {
            let (p1, property_type) = walk_type(p, inner.property_type);
            (p1, TableEntryType::Property(TablePropertyType { property_type, ..inner }))
        },
        TableEntryType::Literal(inner) => {
            let (p1, string) = walk_string_type(p, inner.string);
            let (p2, property_type) = walk_type(p1, inner.property_type);
            (
                p2,
                TableEntryType::Literal(TableLiteralPropertyType { string, property_type, ..inner }),
            )
        },
        TableEntryType::Indexer(inner) => {
            let (p1, key_type) = walk_type(p, inner.key_type);
            let (p2, value_type) = walk_type(p1, inner.value_type);
            (p2, TableEntryType::Indexer(TableIndexerType { key_type, value_type, ..inner }))
        },
    }
}

/// What visiting the type of an argument does to the processor and to the node: the
/// argument type.
pub open spec fn walk_function_argument_type<P: NodeProcessor>(
    p: P,
    argument: FunctionArgumentType,
) -> (P, FunctionArgumentType)
    decreases argument.depth(), 0nat,
{
    let (p1, argument_type) = walk_type(p, argument.argument_type);
    (p1, FunctionArgumentType { argument_type, ..argument })
}

/// What visiting a generic parameter of a type declaration does to the processor and to
/// the node: what the node holds, by its kind.
pub open spec fn walk_generic_parameter<P: NodeProcessor>(
    p: P,
    parameter: GenericParameter,
) -> (P, GenericParameter)
    decreases parameter.depth(), 0nat,
{
    match parameter {
        GenericParameter::TypeVariableWithDefault(inner) => {
            let (p1, default_type) = walk_type(p, inner.default_type);
            (
                p1,
                GenericParameter::TypeVariableWithDefault(TypeVariableWithDefault { default_type, ..inner }),
            )
        },
        GenericParameter::GenericTypePack(inner) => {
            let (p1, walked) = walk_generic_type_pack(p, inner);
            (p1, GenericParameter::GenericTypePack(walked))
        },
        GenericParameter::GenericTypePackWithDefault(inner) => {
            let (p1, generic_type_pack) = walk_generic_type_pack(p, inner.generic_type_pack);
            let (p2, default_type) = walk_generic_type_pack_default(p1, inner.default_type);
            (
                p2,
                GenericParameter::GenericTypePackWithDefault(GenericTypePackWithDefault { generic_type_pack, default_type, ..inner }),
            )
        },
        GenericParameter::TypeVariable(_) => (p, parameter),
    }
}

/// What visiting what a generic type pack defaults to does to the processor and to the
/// node: what the node holds, by its kind.
pub open spec fn walk_generic_type_pack_default<P: NodeProcessor>(
    p: P,
    default_type: GenericTypePackDefault,
) -> (P, GenericTypePackDefault)
    decreases default_type.depth(), 0nat,
{
    match default_type {
        GenericTypePackDefault::TypePack(inner) => {
            let (p1, walked) = walk_type_pack(p, inner);
            (p1, GenericTypePackDefault::TypePack(walked))
        },
        GenericTypePackDefault::VariadicTypePack(inner) => {
            let (p1, walked) = walk_variadic_type_pack(p, inner);
            (p1, GenericTypePackDefault::VariadicTypePack(walked))
        },
        GenericTypePackDefault::GenericTypePack(inner) => {
            let (p1, walked) = walk_generic_type_pack(p, inner);
            (p1, GenericTypePackDefault::GenericTypePack(walked))
        },
    }
}

/// What visiting a list of statements does: each item is visited in order, the
/// processor handed from one to the next.
pub open spec fn walk_statements<P: NodeProcessor>(
    p: P,
    list: NodeList<Statement>,
) -> (P, NodeList<Statement>)
    decreases statements_depth(list), 1 + list.count(),
{
    match list {
        NodeList::Empty => (p, list),
        NodeList::Cell(cell) => {
            let (p1, head) = walk_statement(p, cell.head);
            let (p2, tail) = walk_statements(p1, cell.tail);
            (p2, NodeList::cons(head, tail))
        },
    }
}

/// What visiting a list of expressions does: each item is visited in order, the
/// processor handed from one to the next.
pub open spec fn walk_expressions<P: NodeProcessor>(
    p: P,
    list: NodeList<Expression>,
) -> (P, NodeList<Expression>)
    decreases expressions_depth(list), 1 + list.count(),
{
    match list {
        NodeList::Empty => (p, list),
        NodeList::Cell(cell) => {
            let (p1, head) = walk_expression(p, cell.head);
            let (p2, tail) = walk_expressions(p1, cell.tail);
            (p2, NodeList::cons(head, tail))
        },
    }
}

/// What visiting a list of variables does: each item is visited in order, the processor
/// handed from one to the next.
pub open spec fn walk_variables<P: NodeProcessor>(
    p: P,
    list: NodeList<Variable>,
) -> (P, NodeList<Variable>)
    decreases variables_depth(list), 1 + list.count(),
{
    match list {
        NodeList::Empty => (p, list),
        NodeList::Cell(cell) => {
            let (p1, head) = walk_variable(p, cell.head);
            let (p2, tail) = walk_variables(p1, cell.tail);
            (p2, NodeList::cons(head, tail))
        },
    }
}

/// What visiting a list of typed identifiers does: each item is visited in order, the
/// processor handed from one to the next.
pub open spec fn walk_typed_identifiers<P: NodeProcessor>(
    p: P,
    list: NodeList<TypedIdentifier>,
) -> (P, NodeList<TypedIdentifier>)
    decreases typed_identifiers_depth(list), 1 + list.count(),
{
    match list {
        NodeList::Empty => (p, list),
        NodeList::Cell(cell) => {
            let (p1, head) = walk_typed_identifier(p, cell.head);
            let (p2, tail) = walk_typed_identifiers(p1, cell.tail);
            (p2, NodeList::cons(head, tail))
        },
    }
}

/// What visiting a list of if branches does: each item is visited in order, the
/// processor handed from one to the next.
pub open spec fn walk_if_branches<P: NodeProcessor>(
    p: P,
    list: NodeList<IfBranch>,
) -> (P, NodeList<IfBranch>)
    decreases if_branches_depth(list), 1 + list.count(),
{
    match list {
        NodeList::Empty => (p, list),
        NodeList::Cell(cell) => {
            let (p1, head) = walk_if_branch(p, cell.head);
            let (p2, tail) = walk_if_branches(p1, cell.tail);
            (p2, NodeList::cons(head, tail))
        },
    }
}

/// What visiting a list of else if branches does: each item is visited in order, the
/// processor handed from one to the next.
pub open spec fn walk_else_if_branches<P: NodeProcessor>(
    p: P,
    list: NodeList<ElseIfExpressionBranch>,
) -> (P, NodeList<ElseIfExpressionBranch>)
    decreases else_if_branches_depth(list), 1 + list.count(),
{
    match list {
        NodeList::Empty => (p, list),
        NodeList::Cell(cell) => {
            let (p1, head) = walk_else_if_branch(p, cell.head);
            let (p2, tail) = walk_else_if_branches(p1, cell.tail);
            (p2, NodeList::cons(head, tail))
        },
    }
}

/// What visiting a list of segments does: each item is visited in order, the processor
/// handed from one to the next.
pub open spec fn walk_segments<P: NodeProcessor>(
    p: P,
    list: NodeList<InterpolationSegment>,
) -> (P, NodeList<InterpolationSegment>)
    decreases segments_depth(list), 1 + list.count(),
{
    match list {
        NodeList::Empty => (p, list),
        NodeList::Cell(cell) => {
            let (p1, head) = walk_segment(p, cell.head);
            let (p2, tail) = walk_segments(p1, cell.tail);
            (p2, NodeList::cons(head, tail))
        },
    }
}

/// What visiting a list of table entries does: each item is visited in order, the
/// processor handed from one to the next.
pub open spec fn walk_table_entries<P: NodeProcessor>(
    p: P,
    list: NodeList<TableEntry>,
) -> (P, NodeList<TableEntry>)
    decreases table_entries_depth(list), 1 + list.count(),
{
    match list {
        NodeList::Empty => (p, list),
        NodeList::Cell(cell) => {
            let (p1, head) = walk_table_entry(p, cell.head);
            let (p2, tail) = walk_table_entries(p1, cell.tail);
            (p2, NodeList::cons(head, tail))
        },
    }
}

/// What visiting a list of types does: each item is visited in order, the processor
/// handed from one to the next.
pub open spec fn walk_types<P: NodeProcessor>(p: P, list: NodeList<Type>) -> (P, NodeList<Type>)
    decreases types_depth(list), 1 + list.count(),
{
    match list {
        NodeList::Empty => (p, list),
        NodeList::Cell(cell) => {
            let (p1, head) = walk_type(p, cell.head);
            let (p2, tail) = walk_types(p1, cell.tail);
            (p2, NodeList::cons(head, tail))
        },
    }
}

/// What visiting a list of type parameters does: each item is visited in order, the
/// processor handed from one to the next.
pub open spec fn walk_type_parameters<P: NodeProcessor>(
    p: P,
    list: NodeList<TypeParameter>,
) -> (P, NodeList<TypeParameter>)
    decreases type_parameters_depth(list), 1 + list.count(),
{
    match list {
        NodeList::Empty => (p, list),
        NodeList::Cell(cell) => {
            let (p1, head) = walk_type_parameter(p, cell.head);
            let (p2, tail) = walk_type_parameters(p1, cell.tail);
            (p2, NodeList::cons(head, tail))
        },
    }
}

/// What visiting a list of table entry types does: each item is visited in order, the
/// processor handed from one to the next.
pub open spec fn walk_table_entry_types<P: NodeProcessor>(
    p: P,
    list: NodeList<TableEntryType>,
) -> (P, NodeList<TableEntryType>)
    decreases table_entry_types_depth(list), 1 + list.count(),
{
    match list {
        NodeList::Empty => (p, list),
        NodeList::Cell(cell) => {
            let (p1, head) = walk_table_entry_type(p, cell.head);
            let (p2, tail) = walk_table_entry_types(p1, cell.tail);
            (p2, NodeList::cons(head, tail))
        },
    }
}

/// What visiting a list of function argument types does: each item is visited in order,
/// the processor handed from one to the next.
pub open spec fn walk_function_argument_types<P: NodeProcessor>(
    p: P,
    list: NodeList<FunctionArgumentType>,
) -> (P, NodeList<FunctionArgumentType>)
    decreases function_argument_types_depth(list), 1 + list.count(),
{
    match list {
        NodeList::Empty => (p, list),
        NodeList::Cell(cell) => {
            let (p1, head) = walk_function_argument_type(p, cell.head);
            let (p2, tail) = walk_function_argument_types(p1, cell.tail);
            (p2, NodeList::cons(head, tail))
        },
    }
}

/// What visiting a list of generic parameters does: each item is visited in order, the
/// processor handed from one to the next.
pub open spec fn walk_generic_parameters<P: NodeProcessor>(
    p: P,
    list: NodeList<GenericParameter>,
) -> (P, NodeList<GenericParameter>)
    decreases generic_parameters_depth(list), 1 + list.count(),
{
    match list {
        NodeList::Empty => (p, list),
        NodeList::Cell(cell) => {
            let (p1, head) = walk_generic_parameter(p, cell.head);
            let (p2, tail) = walk_generic_parameters(p1, cell.tail);
            (p2, NodeList::cons(head, tail))
        },
    }
}

} // verus!
