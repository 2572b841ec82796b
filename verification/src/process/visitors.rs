use crate::nodes::{
    Arguments, ArrayType, AssignStatement, BinaryExpression, Block, CompoundAssignStatement,
    DoStatement, ElseIfExpressionBranch, ExportTypeFunctionStatement, Expression, ExpressionType,
    FieldExpression, FunctionArgumentType, FunctionCall, FunctionExpression, FunctionReturnType,
    FunctionStatement, FunctionType, FunctionVariadicType, GenericForStatement, GenericParameter,
    GenericTypePack, GenericTypePackDefault, GenericTypePackWithDefault, Identifier, IfBranch,
    IfExpression, IfStatement, IndexExpression, InterpolatedStringExpression, InterpolationSegment,
    IntersectionType, LastStatement, LocalAssignStatement, LocalFunctionStatement, NodeList,
    NumberExpression, NumericForStatement, OptionalType, ParentheseExpression, ParentheseType,
    Prefix, RepeatStatement, Statement, StringExpression, StringType, TableEntry, TableEntryType,
    TableExpression, TableType, Type, TypeCastExpression, TypeDeclarationStatement, TypeField,
    TypeFunctionStatement, TypeName, TypePack, TypeParameter, TypeVariableWithDefault,
    TypedIdentifier, UnaryExpression, UnionType, Variable, VariadicArgumentType, VariadicTypePack,
    WhileStatement,
};
use crate::nodes::expression::expressions_depth;
use crate::nodes::function_type::function_argument_types_depth;
use crate::nodes::identifier::typed_identifiers_depth;
use crate::nodes::if_expression::else_if_branches_depth;
use crate::nodes::if_statement::if_branches_depth;
use crate::nodes::interpolated_string::segments_depth;
use crate::nodes::named_type::type_parameters_depth;
use crate::nodes::statement::statements_depth;
use crate::nodes::table::table_entries_depth;
use crate::nodes::table_type::table_entry_types_depth;
use crate::nodes::type_declaration::generic_parameters_depth;
use crate::nodes::types::types_depth;
use crate::nodes::variable::variables_depth;
use crate::process::processor::NodeProcessor;
use crate::process::walk::{
    walk_arguments, walk_array_type, walk_assign_statement, walk_binary_expression, walk_block,
    walk_compound_assign, walk_do_statement, walk_else_if_branch, walk_else_if_branches,
    walk_export_type_function, walk_expression, walk_expression_type, walk_expressions,
    walk_field_expression, walk_function_argument_type, walk_function_argument_types,
    walk_function_call, walk_function_expression, walk_function_return_type,
    walk_function_statement, walk_function_type, walk_function_variadic_type, walk_generic_for,
    walk_generic_parameter, walk_generic_parameters, walk_generic_type_pack,
    walk_generic_type_pack_default, walk_identifier, walk_if_branch, walk_if_branches,
    walk_if_expression, walk_if_statement, walk_index_expression,
    walk_interpolated_string_expression, walk_intersection_type, walk_last_statement,
    walk_local_assign, walk_local_function, walk_number_expression, walk_numeric_for,
    walk_optional_type, walk_parenthese_expression, walk_parenthese_type, walk_prefix_expression,
    walk_repeat_statement, walk_segment, walk_segments, walk_statement, walk_statements,
    walk_string_expression, walk_string_type, walk_table, walk_table_entries, walk_table_entry,
    walk_table_entry_type, walk_table_entry_types, walk_table_type, walk_type,
    walk_type_cast_expression, walk_type_declaration, walk_type_field, walk_type_function,
    walk_type_name, walk_type_pack, walk_type_parameter, walk_type_parameters,
    walk_typed_identifier, walk_typed_identifiers, walk_types, walk_unary_expression,
    walk_union_type, walk_variable, walk_variables, walk_variadic_argument_type,
    walk_variadic_type_pack, walk_while_statement,
};
use vstd::prelude::*;

verus! {

/// A traversal of a tree that drives a [`NodeProcessor`].
///
/// Every method visits one kind of node and states what the visit leaves: the processor
/// and the node that the model of the traversal gives for the processor and the node it
/// was called with.
pub trait NodeVisitor<T: NodeProcessor> {
    /// Visits a block: the callback for the node, then each of the statements, then the
    /// last statement, if there is one.
    fn visit_block(block: &mut Block, processor: &mut T)
        ensures
            (*final(processor), *final(block)) == walk_block(*old(processor), *old(block)),
    ;

    /// Visits a statement: the callback for the node, then what the node holds, by its
    /// kind.
    fn visit_statement(statement: &mut Statement, processor: &mut T)
        ensures
            (*final(processor), *final(statement))
                == walk_statement(*old(processor), *old(statement)),
    ;

    /// Visits the statement that closes a block: the callback for the node, then what
    /// the node holds, by its kind.
    fn visit_last_statement(last_statement: &mut LastStatement, processor: &mut T)
        ensures
            (*final(processor), *final(last_statement)) == walk_last_statement(
                *old(processor),
                *old(last_statement),
            ),
    ;

    /// Visits an expression: the callback for the node, then what the node holds, by
    /// its kind.
    fn visit_expression(expression: &mut Expression, processor: &mut T)
        ensures
            (*final(processor), *final(expression)) == walk_expression(
                *old(processor),
                *old(expression),
            ),
    ;

    /// Visits a binary expression: the callback for the node, then the left, then the
    /// right.
    fn visit_binary_expression(binary: &mut BinaryExpression, processor: &mut T)
        ensures
            (*final(processor), *final(binary)) == walk_binary_expression(
                *old(processor),
                *old(binary),
            ),
    ;

    /// Visits a number: the callback for the node, and nothing under it.
    fn visit_number_expression(number: &mut NumberExpression, processor: &mut T)
        ensures
            (*final(processor), *final(number)) == walk_number_expression(
                *old(processor),
                *old(number),
            ),
    ;

    /// Visits a parenthesized expression: the callback for the node, then the
    /// expression.
    fn visit_parenthese_expression(parenthese: &mut ParentheseExpression, processor: &mut T)
        ensures
            (*final(processor), *final(parenthese)) == walk_parenthese_expression(
                *old(processor),
                *old(parenthese),
            ),
    ;

    /// Visits a string: the callback for the node, and nothing under it.
    fn visit_string_expression(string: &mut StringExpression, processor: &mut T)
        ensures
            (*final(processor), *final(string)) == walk_string_expression(
                *old(processor),
                *old(string),
            ),
    ;

    /// Visits an interpolated string: the callback for the node, then each of the
    /// segments.
    fn visit_interpolated_string_expression(
        interpolated_string: &mut InterpolatedStringExpression,
        processor: &mut T,
    )
        ensures
            (*final(processor), *final(interpolated_string)) == walk_interpolated_string_expression(
                *old(processor),
                *old(interpolated_string),
            ),
    ;

    /// Visits a unary expression: the callback for the node, then the expression.
    fn visit_unary_expression(unary: &mut UnaryExpression, processor: &mut T)
        ensures
            (*final(processor), *final(unary))
                == walk_unary_expression(*old(processor), *old(unary)),
    ;

    /// Visits a type cast: the callback for the node, then the expression, then the
    /// cast type.
    fn visit_type_cast_expression(type_cast: &mut TypeCastExpression, processor: &mut T)
        ensures
            (*final(processor), *final(type_cast)) == walk_type_cast_expression(
                *old(processor),
                *old(type_cast),
            ),
    ;

    /// Visits an anonymous function: the callback for the node, then the scope
    /// notification for the block, then the block, then each of the parameters, then
    /// the variadic type, if there is one, then the return type, if there is one.
    fn visit_function_expression(function: &mut FunctionExpression, processor: &mut T)
        ensures
            (*final(processor), *final(function)) == walk_function_expression(
                *old(processor),
                *old(function),
            ),
    ;

    /// Visits an assignment: the callback for the node, then each of the variables,
    /// then each of the values.
    fn visit_assign_statement(statement: &mut AssignStatement, processor: &mut T)
        ensures
            (*final(processor), *final(statement)) == walk_assign_statement(
                *old(processor),
                *old(statement),
            ),
    ;

    /// Visits a do statement: the callback for the node, then the scope notification
    /// for the block, then the block.
    fn visit_do_statement(statement: &mut DoStatement, processor: &mut T)
        ensures
            (*final(processor), *final(statement)) == walk_do_statement(
                *old(processor),
                *old(statement),
            ),
    ;

    /// Visits a compound assignment: the callback for the node, then the variable, then
    /// the value.
    fn visit_compound_assign(statement: &mut CompoundAssignStatement, processor: &mut T)
        ensures
            (*final(processor), *final(statement)) == walk_compound_assign(
                *old(processor),
                *old(statement),
            ),
    ;

    /// Visits a function statement: the callback for the node, then the name, then the
    /// scope notification for the block, then the block, then each of the parameters,
    /// then the variadic type, if there is one, then the return type, if there is one.
    fn visit_function_statement(statement: &mut FunctionStatement, processor: &mut T)
        ensures
            (*final(processor), *final(statement)) == walk_function_statement(
                *old(processor),
                *old(statement),
            ),
    ;

    /// Visits a generic for loop: the callback for the node, then each of the
    /// expressions, then the scope notification for the block, then the block, then
    /// each of the identifiers.
    fn visit_generic_for(statement: &mut GenericForStatement, processor: &mut T)
        ensures
            (*final(processor), *final(statement)) == walk_generic_for(
                *old(processor),
                *old(statement),
            ),
    ;

    /// Visits an if statement: the callback for the node, then each of the branches,
    /// then for the else block, if there is one, its scope notification and then the
    /// block itself.
    fn visit_if_statement(statement: &mut IfStatement, processor: &mut T)
        ensures
            (*final(processor), *final(statement)) == walk_if_statement(
                *old(processor),
                *old(statement),
            ),
    ;

    /// Visits a local assignment: the callback for the node, then each of the values,
    /// then each of the variables.
    fn visit_local_assign(statement: &mut LocalAssignStatement, processor: &mut T)
        ensures
            (*final(processor), *final(statement)) == walk_local_assign(
                *old(processor),
                *old(statement),
            ),
    ;

    /// Visits a local function: the callback for the node, then the scope notification
    /// for the block, then the block, then each of the parameters, then the variadic
    /// type, if there is one, then the return type, if there is one.
    fn visit_local_function(statement: &mut LocalFunctionStatement, processor: &mut T)
        ensures
            (*final(processor), *final(statement)) == walk_local_function(
                *old(processor),
                *old(statement),
            ),
    ;

    /// Visits a type function: the callback for the node, then the scope notification
    /// for the block, then the block, then each of the parameters, then the variadic
    /// type, if there is one, then the return type, if there is one.
    fn visit_type_function(statement: &mut TypeFunctionStatement, processor: &mut T)
        ensures
            (*final(processor), *final(statement)) == walk_type_function(
                *old(processor),
                *old(statement),
            ),
    ;

    /// Visits an exported type function: the callback for the node, then the scope
    /// notification for the block, then the block, then each of the parameters, then
    /// the variadic type, if there is one, then the return type, if there is one.
    fn visit_export_type_function(statement: &mut ExportTypeFunctionStatement, processor: &mut T)
        ensures
            (*final(processor), *final(statement)) == walk_export_type_function(
                *old(processor),
                *old(statement),
            ),
    ;

    /// Visits the type of the variadic arguments of a function: what the node holds, by
    /// its kind.
    fn visit_function_variadic_type(variadic_type: &mut FunctionVariadicType, processor: &mut T)
        ensures
            (*final(processor), *final(variadic_type)) == walk_function_variadic_type(
                *old(processor),
                *old(variadic_type),
            ),
    ;

    /// Visits a generic type pack: the callback for the node, and nothing under it.
    fn visit_generic_type_pack(generic: &mut GenericTypePack, processor: &mut T)
        ensures
            (*final(processor), *final(generic)) == walk_generic_type_pack(
                *old(processor),
                *old(generic),
            ),
    ;

    /// Visits a numeric for loop: the callback for the node, then the start, then the
    /// end, then the step, if there is one, then the scope notification for the block,
    /// then the block, then the identifier.
    fn visit_numeric_for(statement: &mut NumericForStatement, processor: &mut T)
        ensures
            (*final(processor), *final(statement)) == walk_numeric_for(
                *old(processor),
                *old(statement),
            ),
    ;

    /// Visits a repeat loop: the callback for the node, then the scope notification for
    /// the block, together with the condition, then the block, then the condition.
    fn visit_repeat_statement(statement: &mut RepeatStatement, processor: &mut T)
        ensures
            (*final(processor), *final(statement)) == walk_repeat_statement(
                *old(processor),
                *old(statement),
            ),
    ;

    /// Visits a while loop: the callback for the node, then the condition, then the
    /// scope notification for the block, then the block.
    fn visit_while_statement(statement: &mut WhileStatement, processor: &mut T)
        ensures
            (*final(processor), *final(statement)) == walk_while_statement(
                *old(processor),
                *old(statement),
            ),
    ;

    /// Visits a type declaration: the callback for the node, then each of the generic
    /// parameters, if there are any, then the declared type.
    fn visit_type_declaration(statement: &mut TypeDeclarationStatement, processor: &mut T)
        ensures
            (*final(processor), *final(statement)) == walk_type_declaration(
                *old(processor),
                *old(statement),
            ),
    ;

    /// Visits a variable: the callback for the node, then what the node holds, by its
    /// kind.
    fn visit_variable(variable: &mut Variable, processor: &mut T)
        ensures
            (*final(processor), *final(variable)) == walk_variable(*old(processor), *old(variable)),
    ;

    /// Visits an identifier: the callback for the node, and nothing under it.
    fn visit_identifier(identifier: &mut Identifier, processor: &mut T)
        ensures
            (*final(processor), *final(identifier)) == walk_identifier(
                *old(processor),
                *old(identifier),
            ),
    ;

    /// Visits an if expression: the callback for the node, then the condition, then the
    /// result, then each of the branches, then the else result.
    fn visit_if_expression(if_expression: &mut IfExpression, processor: &mut T)
        ensures
            (*final(processor), *final(if_expression)) == walk_if_expression(
                *old(processor),
                *old(if_expression),
            ),
    ;

    /// Visits a field expression: the callback for the node, then the prefix.
    fn visit_field_expression(field: &mut FieldExpression, processor: &mut T)
        ensures
            (*final(processor), *final(field))
                == walk_field_expression(*old(processor), *old(field)),
    ;

    /// Visits an index expression: the callback for the node, then the prefix, then the
    /// index.
    fn visit_index_expression(index: &mut IndexExpression, processor: &mut T)
        ensures
            (*final(processor), *final(index))
                == walk_index_expression(*old(processor), *old(index)),
    ;

    /// Visits a function call: the callback for the node, then the prefix, then the
    /// arguments.
    fn visit_function_call(call: &mut FunctionCall, processor: &mut T)
        ensures
            (*final(processor), *final(call)) == walk_function_call(*old(processor), *old(call)),
    ;

    /// Visits the arguments of a call: what the node holds, by its kind.
    fn visit_arguments(arguments: &mut Arguments, processor: &mut T)
        ensures
            (*final(processor), *final(arguments))
                == walk_arguments(*old(processor), *old(arguments)),
    ;

    /// Visits a table constructor: the callback for the node, then each of the entries.
    fn visit_table(table: &mut TableExpression, processor: &mut T)
        ensures
            (*final(processor), *final(table)) == walk_table(*old(processor), *old(table)),
    ;

    /// Visits a prefix: the callback for the node, then what the node holds, by its
    /// kind.
    fn visit_prefix_expression(prefix: &mut Prefix, processor: &mut T)
        ensures
            (*final(processor), *final(prefix)) == walk_prefix_expression(
                *old(processor),
                *old(prefix),
            ),
    ;

    /// Visits a type: the callback for the node, then what the node holds, by its kind.
    fn visit_type(annotation: &mut Type, processor: &mut T)
        ensures
            (*final(processor), *final(annotation)) == walk_type(*old(processor), *old(annotation)),
    ;

    /// Visits a named type: the callback for the node, then each of the type
    /// parameters, if there are any.
    fn visit_type_name(name: &mut TypeName, processor: &mut T)
        ensures
            (*final(processor), *final(name)) == walk_type_name(*old(processor), *old(name)),
    ;

    /// Visits a type read from a namespace: the callback for the node, then the name.
    fn visit_type_field(type_field: &mut TypeField, processor: &mut T)
        ensures
            (*final(processor), *final(type_field)) == walk_type_field(
                *old(processor),
                *old(type_field),
            ),
    ;

    /// Visits an array type: the callback for the node, then the element type.
    fn visit_array_type(array: &mut ArrayType, processor: &mut T)
        ensures
            (*final(processor), *final(array)) == walk_array_type(*old(processor), *old(array)),
    ;

    /// Visits a table type: the callback for the node, then each of the entries.
    fn visit_table_type(table: &mut TableType, processor: &mut T)
        ensures
            (*final(processor), *final(table)) == walk_table_type(*old(processor), *old(table)),
    ;

    /// Visits a `typeof` type: the callback for the node, then the expression.
    fn visit_expression_type(expression_type: &mut ExpressionType, processor: &mut T)
        ensures
            (*final(processor), *final(expression_type)) == walk_expression_type(
                *old(processor),
                *old(expression_type),
            ),
    ;

    /// Visits a parenthesized type: the callback for the node, then the inner type.
    fn visit_parenthese_type(parenthese: &mut ParentheseType, processor: &mut T)
        ensures
            (*final(processor), *final(parenthese)) == walk_parenthese_type(
                *old(processor),
                *old(parenthese),
            ),
    ;

    /// Visits a function type: the callback for the node, then each of the arguments,
    /// then the variadic argument type, if there is one, then the return type.
    fn visit_function_type(function: &mut FunctionType, processor: &mut T)
        ensures
            (*final(processor), *final(function)) == walk_function_type(
                *old(processor),
                *old(function),
            ),
    ;

    /// Visits an optional type: the callback for the node, then the inner type.
    fn visit_optional_type(optional: &mut OptionalType, processor: &mut T)
        ensures
            (*final(processor), *final(optional)) == walk_optional_type(
                *old(processor),
                *old(optional),
            ),
    ;

    /// Visits an intersection type: the callback for the node, then each of the types.
    fn visit_intersection_type(intersection: &mut IntersectionType, processor: &mut T)
        ensures
            (*final(processor), *final(intersection)) == walk_intersection_type(
                *old(processor),
                *old(intersection),
            ),
    ;

    /// Visits a union type: the callback for the node, then each of the types.
    fn visit_union_type(union: &mut UnionType, processor: &mut T)
        ensures
            (*final(processor), *final(union)) == walk_union_type(*old(processor), *old(union)),
    ;

    /// Visits a string type: the callback for the node, and nothing under it.
    fn visit_string_type(string: &mut StringType, processor: &mut T)
        ensures
            (*final(processor), *final(string)) == walk_string_type(*old(processor), *old(string)),
    ;

    /// Visits a type pack: the callback for the node, then each of the types, then the
    /// variadic type, if there is one.
    fn visit_type_pack(type_pack: &mut TypePack, processor: &mut T)
        ensures
            (*final(processor), *final(type_pack))
                == walk_type_pack(*old(processor), *old(type_pack)),
    ;

    /// Visits a variadic type pack: the callback for the node, then the inner type.
    fn visit_variadic_type_pack(variadic_type_pack: &mut VariadicTypePack, processor: &mut T)
        ensures
            (*final(processor), *final(variadic_type_pack)) == walk_variadic_type_pack(
                *old(processor),
                *old(variadic_type_pack),
            ),
    ;

    /// Visits the variadic tail of a list of types: what the node holds, by its kind.
    fn visit_variadic_argument_type(variadic_type: &mut VariadicArgumentType, processor: &mut T)
        ensures
            (*final(processor), *final(variadic_type)) == walk_variadic_argument_type(
                *old(processor),
                *old(variadic_type),
            ),
    ;

    /// Visits what a function returns: what the node holds, by its kind.
    fn visit_function_return_type(return_type: &mut FunctionReturnType, processor: &mut T)
        ensures
            (*final(processor), *final(return_type)) == walk_function_return_type(
                *old(processor),
                *old(return_type),
            ),
    ;
}

/// The traversal in pre-order, from left to right.
pub struct DefaultVisitor<T> {
    _phantom: core::marker::PhantomData<T>,
}

impl<T: NodeProcessor> NodeVisitor<T> for DefaultVisitor<T> {
    fn visit_block(block: &mut Block, processor: &mut T)
        decreases old(block).depth(), 0nat,
    {
        proof {
            T::callbacks_keep_depth();
        }
        processor.process_block(block);
        Self::visit_statements(&mut block.statements, processor);
        match &mut block.last_statement {
            Some(inner) => Self::visit_last_statement(inner, processor),
            None => {},
        }
    }

    fn visit_statement(statement: &mut Statement, processor: &mut T)
        decreases old(statement).depth(), 0nat,
    {
        proof {
            T::callbacks_keep_depth();
        }
        processor.process_statement(statement);
        match statement {
            Statement::Assign(inner) => Self::visit_assign_statement(inner, processor),
            Statement::Do(inner) => Self::visit_do_statement(inner, processor),
            Statement::Call(inner) => Self::visit_function_call(inner, processor),
            Statement::CompoundAssign(inner) => Self::visit_compound_assign(inner, processor),
            Statement::Function(inner) => Self::visit_function_statement(inner, processor),
            Statement::GenericFor(inner) => Self::visit_generic_for(inner, processor),
            Statement::If(inner) => Self::visit_if_statement(inner, processor),
            Statement::LocalAssign(inner) => Self::visit_local_assign(inner, processor),
            Statement::LocalFunction(inner) => Self::visit_local_function(inner, processor),
            Statement::TypeFunction(inner) => Self::visit_type_function(inner, processor),
            Statement::ExportTypeFunction(inner) => {
                Self::visit_export_type_function(inner, processor);
            },
            Statement::NumericFor(inner) => Self::visit_numeric_for(inner, processor),
            Statement::Repeat(inner) => Self::visit_repeat_statement(inner, processor),
            Statement::While(inner) => Self::visit_while_statement(inner, processor),
            Statement::TypeDeclaration(inner) => Self::visit_type_declaration(inner, processor),
        }
    }

    fn visit_last_statement(last_statement: &mut LastStatement, processor: &mut T)
        decreases old(last_statement).depth(), 0nat,
    {
        proof {
            T::callbacks_keep_depth();
        }
        processor.process_last_statement(last_statement);
        match last_statement {
            LastStatement::Return(inner) => {
                Self::visit_expressions(&mut inner.expressions, processor);
            },
            LastStatement::Break(_) | LastStatement::Continue(_) => {},
        }
    }

    fn visit_expression(expression: &mut Expression, processor: &mut T)
        decreases old(expression).depth(), 0nat,
    {
        proof {
            T::callbacks_keep_depth();
        }
        processor.process_expression(expression);
        match expression {
            Expression::Binary(inner) => Self::visit_binary_expression(inner, processor),
            Expression::Call(inner) => Self::visit_function_call(inner, processor),
            Expression::Field(inner) => Self::visit_field_expression(inner, processor),
            Expression::Function(inner) => Self::visit_function_expression(inner, processor),
            Expression::Identifier(inner) => Self::visit_identifier(inner, processor),
            Expression::If(inner) => Self::visit_if_expression(inner, processor),
            Expression::Index(inner) => Self::visit_index_expression(inner, processor),
            Expression::Number(inner) => Self::visit_number_expression(inner, processor),
            Expression::Parenthese(inner) => {
                Self::visit_parenthese_expression(inner, processor);
            },
            Expression::String(inner) => Self::visit_string_expression(inner, processor),
            Expression::InterpolatedString(inner) => {
                Self::visit_interpolated_string_expression(inner, processor);
            },
            Expression::Table(inner) => Self::visit_table(inner, processor),
            Expression::Unary(inner) => Self::visit_unary_expression(inner, processor),
            Expression::TypeCast(inner) => Self::visit_type_cast_expression(inner, processor),
            Expression::False(_)
            | Expression::Nil(_)
            | Expression::True(_)
            | Expression::VariableArguments(_) => {},
        }
    }

    fn visit_binary_expression(binary: &mut BinaryExpression, processor: &mut T)
        decreases old(binary).depth(), 0nat,
    {
        proof {
            T::callbacks_keep_depth();
        }
        processor.process_binary_expression(binary);
        Self::visit_expression(&mut binary.left, processor);
        Self::visit_expression(&mut binary.right, processor);
    }

    fn visit_number_expression(number: &mut NumberExpression, processor: &mut T)
    {
        processor.process_number_expression(number);
    }

    fn visit_parenthese_expression(parenthese: &mut ParentheseExpression, processor: &mut T)
        decreases old(parenthese).depth(), 0nat,
    {
        proof {
            T::callbacks_keep_depth();
        }
        processor.process_parenthese_expression(parenthese);
        Self::visit_expression(&mut parenthese.expression, processor);
    }

    fn visit_string_expression(string: &mut StringExpression, processor: &mut T)
    {
        processor.process_string_expression(string);
    }

    fn visit_interpolated_string_expression(
        interpolated_string: &mut InterpolatedStringExpression,
        processor: &mut T,
    )
        decreases old(interpolated_string).depth(), 0nat,
    {
        proof {
            T::callbacks_keep_depth();
        }
        processor.process_interpolated_string_expression(interpolated_string);
        Self::visit_segments(&mut interpolated_string.segments, processor);
    }

    fn visit_unary_expression(unary: &mut UnaryExpression, processor: &mut T)
        decreases old(unary).depth(), 0nat,
    {
        proof {
            T::callbacks_keep_depth();
        }
        processor.process_unary_expression(unary);
        Self::visit_expression(&mut unary.expression, processor);
    }

    fn visit_type_cast_expression(type_cast: &mut TypeCastExpression, processor: &mut T)
        decreases old(type_cast).depth(), 0nat,
    {
        proof {
            T::callbacks_keep_depth();
        }
        processor.process_type_cast_expression(type_cast);
        Self::visit_expression(&mut type_cast.expression, processor);
        Self::visit_type(&mut type_cast.cast_type, processor);
    }

    fn visit_function_expression(function: &mut FunctionExpression, processor: &mut T)
        decreases old(function).depth(), 0nat,
    {
        proof {
            T::callbacks_keep_depth();
        }
        processor.process_function_expression(function);
        processor.process_scope(&mut function.block, None);
        Self::visit_block(&mut function.block, processor);
        Self::visit_typed_identifiers(&mut function.parameters, processor);
        match &mut function.variadic_type {
            Some(inner) => Self::visit_function_variadic_type(inner, processor),
            None => {},
        }
        match &mut function.return_type {
            Some(inner) => Self::visit_function_return_type(inner, processor),
            None => {},
        }
    }

    fn visit_assign_statement(statement: &mut AssignStatement, processor: &mut T)
        decreases old(statement).depth(), 0nat,
    {
        proof {
            T::callbacks_keep_depth();
        }
        processor.process_assign_statement(statement);
        Self::visit_variables(&mut statement.variables, processor);
        Self::visit_expressions(&mut statement.values, processor);
    }

    fn visit_do_statement(statement: &mut DoStatement, processor: &mut T)
        decreases old(statement).depth(), 0nat,
    {
        proof {
            T::callbacks_keep_depth();
        }
        processor.process_do_statement(statement);
        processor.process_scope(&mut statement.block, None);
        Self::visit_block(&mut statement.block, processor);
    }

    fn visit_compound_assign(statement: &mut CompoundAssignStatement, processor: &mut T)
        decreases old(statement).depth(), 0nat,
    {
        proof {
            T::callbacks_keep_depth();
        }
        processor.process_compound_assign_statement(statement);
        Self::visit_variable(&mut statement.variable, processor);
        Self::visit_expression(&mut statement.value, processor);
    }

    fn visit_function_statement(statement: &mut FunctionStatement, processor: &mut T)
        decreases old(statement).depth(), 0nat,
    {
        proof {
            T::callbacks_keep_depth();
        }
        processor.process_function_statement(statement);
        Self::visit_identifier(&mut statement.name.name, processor);
        processor.process_scope(&mut statement.block, None);
        Self::visit_block(&mut statement.block, processor);
        Self::visit_typed_identifiers(&mut statement.parameters, processor);
        match &mut statement.variadic_type {
            Some(inner) => Self::visit_function_variadic_type(inner, processor),
            None => {},
        }
        match &mut statement.return_type {
            Some(inner) => Self::visit_function_return_type(inner, processor),
            None => {},
        }
    }

    fn visit_generic_for(statement: &mut GenericForStatement, processor: &mut T)
        decreases old(statement).depth(), 0nat,
    {
        proof {
            T::callbacks_keep_depth();
        }
        processor.process_generic_for_statement(statement);
        Self::visit_expressions(&mut statement.expressions, processor);
        processor.process_scope(&mut statement.block, None);
        Self::visit_block(&mut statement.block, processor);
        Self::visit_typed_identifiers(&mut statement.identifiers, processor);
    }

    fn visit_if_statement(statement: &mut IfStatement, processor: &mut T)
        decreases old(statement).depth(), 0nat,
    {
        proof {
            T::callbacks_keep_depth();
        }
        processor.process_if_statement(statement);
        Self::visit_if_branches(&mut statement.branches, processor);
        match &mut statement.else_block {
            Some(inner) => {
                processor.process_scope(inner, None);
                Self::visit_block(inner, processor);
            },
            None => {},
        }
    }

    fn visit_local_assign(statement: &mut LocalAssignStatement, processor: &mut T)
        decreases old(statement).depth(), 0nat,
    {
        proof {
            T::callbacks_keep_depth();
        }
        processor.process_local_assign_statement(statement);
        Self::visit_expressions(&mut statement.values, processor);
        Self::visit_typed_identifiers(&mut statement.variables, processor);
    }

    fn visit_local_function(statement: &mut LocalFunctionStatement, processor: &mut T)
        decreases old(statement).depth(), 0nat,
    {
        proof {
            T::callbacks_keep_depth();
        }
        processor.process_local_function_statement(statement);
        processor.process_scope(&mut statement.block, None);
        Self::visit_block(&mut statement.block, processor);
        Self::visit_typed_identifiers(&mut statement.parameters, processor);
        match &mut statement.variadic_type {
            Some(inner) => Self::visit_function_variadic_type(inner, processor),
            None => {},
        }
        match &mut statement.return_type {
            Some(inner) => Self::visit_function_return_type(inner, processor),
            None => {},
        }
    }

    fn visit_type_function(statement: &mut TypeFunctionStatement, processor: &mut T)
        decreases old(statement).depth(), 0nat,
    {
        proof {
            T::callbacks_keep_depth();
        }
        processor.process_type_function_statement(statement);
        processor.process_scope(&mut statement.block, None);
        Self::visit_block(&mut statement.block, processor);
        Self::visit_typed_identifiers(&mut statement.parameters, processor);
        match &mut statement.variadic_type {
            Some(inner) => Self::visit_function_variadic_type(inner, processor),
            None => {},
        }
        match &mut statement.return_type {
            Some(inner) => Self::visit_function_return_type(inner, processor),
            None => {},
        }
    }

    fn visit_export_type_function(statement: &mut ExportTypeFunctionStatement, processor: &mut T)
        decreases old(statement).depth(), 0nat,
    {
        proof {
            T::callbacks_keep_depth();
        }
        processor.process_export_type_function_statement(statement);
        processor.process_scope(&mut statement.block, None);
        Self::visit_block(&mut statement.block, processor);
        Self::visit_typed_identifiers(&mut statement.parameters, processor);
        match &mut statement.variadic_type {
            Some(inner) => Self::visit_function_variadic_type(inner, processor),
            None => {},
        }
        match &mut statement.return_type {
            Some(inner) => Self::visit_function_return_type(inner, processor),
            None => {},
        }
    }

    fn visit_function_variadic_type(variadic_type: &mut FunctionVariadicType, processor: &mut T)
        decreases old(variadic_type).depth(), 0nat,
    {
        match variadic_type {
            FunctionVariadicType::Type(inner) => Self::visit_type(inner, processor),
            FunctionVariadicType::GenericTypePack(inner) => {
                Self::visit_generic_type_pack(inner, processor);
            },
        }
    }

    fn visit_generic_type_pack(generic: &mut GenericTypePack, processor: &mut T)
    {
        processor.process_generic_type_pack(generic);
    }

    fn visit_numeric_for(statement: &mut NumericForStatement, processor: &mut T)
        decreases old(statement).depth(), 0nat,
    {
        proof {
            T::callbacks_keep_depth();
        }
        processor.process_numeric_for_statement(statement);
        Self::visit_expression(&mut statement.start, processor);
        Self::visit_expression(&mut statement.end, processor);
        match &mut statement.step {
            Some(inner) => Self::visit_expression(inner, processor),
            None => {},
        }
        processor.process_scope(&mut statement.block, None);
        Self::visit_block(&mut statement.block, processor);
        Self::visit_typed_identifier(&mut statement.identifier, processor);
    }

    fn visit_repeat_statement(statement: &mut RepeatStatement, processor: &mut T)
        decreases old(statement).depth(), 0nat,
    {
        proof {
            T::callbacks_keep_depth();
        }
        processor.process_repeat_statement(statement);
        processor.process_scope(&mut statement.block, Some(&mut statement.condition));
        Self::visit_block(&mut statement.block, processor);
        Self::visit_expression(&mut statement.condition, processor);
    }

    fn visit_while_statement(statement: &mut WhileStatement, processor: &mut T)
        decreases old(statement).depth(), 0nat,
    {
        proof {
            T::callbacks_keep_depth();
        }
        processor.process_while_statement(statement);
        Self::visit_expression(&mut statement.condition, processor);
        processor.process_scope(&mut statement.block, None);
        Self::visit_block(&mut statement.block, processor);
    }

    fn visit_type_declaration(statement: &mut TypeDeclarationStatement, processor: &mut T)
        decreases old(statement).depth(), 0nat,
    {
        proof {
            T::callbacks_keep_depth();
        }
        processor.process_type_declaration(statement);
        match &mut statement.generic_parameters {
            Some(inner) => Self::visit_generic_parameters(&mut inner.parameters, processor),
            None => {},
        }
        Self::visit_type(&mut statement.declared_type, processor);
    }

    fn visit_variable(variable: &mut Variable, processor: &mut T)
        decreases old(variable).depth(), 0nat,
    {
        proof {
            T::callbacks_keep_depth();
        }
        processor.process_variable(variable);
        match variable {
            Variable::Identifier(inner) => Self::visit_identifier(inner, processor),
            Variable::Field(inner) => Self::visit_field_expression(inner, processor),
            Variable::Index(inner) => Self::visit_index_expression(inner, processor),
        }
    }

    fn visit_identifier(identifier: &mut Identifier, processor: &mut T)
    {
        processor.process_variable_expression(identifier);
    }

    fn visit_if_expression(if_expression: &mut IfExpression, processor: &mut T)
        decreases old(if_expression).depth(), 0nat,
    {
        proof {
            T::callbacks_keep_depth();
        }
        processor.process_if_expression(if_expression);
        Self::visit_expression(&mut if_expression.condition, processor);
        Self::visit_expression(&mut if_expression.result, processor);
        Self::visit_else_if_branches(&mut if_expression.branches, processor);
        Self::visit_expression(&mut if_expression.else_result, processor);
    }

    fn visit_field_expression(field: &mut FieldExpression, processor: &mut T)
        decreases old(field).depth(), 0nat,
    {
        proof {
            T::callbacks_keep_depth();
        }
        processor.process_field_expression(field);
        Self::visit_prefix_expression(&mut field.prefix, processor);
    }

    fn visit_index_expression(index: &mut IndexExpression, processor: &mut T)
        decreases old(index).depth(), 0nat,
    {
        proof {
            T::callbacks_keep_depth();
        }
        processor.process_index_expression(index);
        Self::visit_prefix_expression(&mut index.prefix, processor);
        Self::visit_expression(&mut index.index, processor);
    }

    fn visit_function_call(call: &mut FunctionCall, processor: &mut T)
        decreases old(call).depth(), 0nat,
    {
        proof {
            T::callbacks_keep_depth();
        }
        processor.process_function_call(call);
        Self::visit_prefix_expression(&mut call.prefix, processor);
        Self::visit_arguments(&mut call.arguments, processor);
    }

    fn visit_arguments(arguments: &mut Arguments, processor: &mut T)
        decreases old(arguments).depth(), 0nat,
    {
        match arguments {
            Arguments::String(inner) => Self::visit_string_expression(inner, processor),
            Arguments::Table(inner) => Self::visit_table(inner, processor),
            Arguments::Tuple(inner) => Self::visit_expressions(&mut inner.values, processor),
        }
    }

    fn visit_table(table: &mut TableExpression, processor: &mut T)
        decreases old(table).depth(), 0nat,
    {
        proof {
            T::callbacks_keep_depth();
        }
        processor.process_table_expression(table);
        Self::visit_table_entries(&mut table.entries, processor);
    }

    fn visit_prefix_expression(prefix: &mut Prefix, processor: &mut T)
        decreases old(prefix).depth(), 0nat,
    {
        proof {
            T::callbacks_keep_depth();
        }
        processor.process_prefix_expression(prefix);
        match prefix {
            Prefix::Call(inner) => Self::visit_function_call(inner, processor),
            Prefix::Field(inner) => Self::visit_field_expression(inner, processor),
            Prefix::Identifier(inner) => Self::visit_identifier(inner, processor),
            Prefix::Index(inner) => Self::visit_index_expression(inner, processor),
            Prefix::Parenthese(inner) => Self::visit_parenthese_expression(inner, processor),
        }
    }

    fn visit_type(annotation: &mut Type, processor: &mut T)
        decreases old(annotation).depth(), 0nat,
    {
        proof {
            T::callbacks_keep_depth();
        }
        processor.process_type(annotation);
        match annotation {
            Type::Name(inner) => Self::visit_type_name(inner, processor),
            Type::Field(inner) => Self::visit_type_field(inner, processor),
            Type::Array(inner) => Self::visit_array_type(inner, processor),
            Type::Table(inner) => Self::visit_table_type(inner, processor),
            Type::TypeOf(inner) => Self::visit_expression_type(inner, processor),
            Type::Parenthese(inner) => Self::visit_parenthese_type(inner, processor),
            Type::Function(inner) => Self::visit_function_type(inner, processor),
            Type::Optional(inner) => Self::visit_optional_type(inner, processor),
            Type::Intersection(inner) => Self::visit_intersection_type(inner, processor),
            Type::Union(inner) => Self::visit_union_type(inner, processor),
            Type::String(inner) => Self::visit_string_type(inner, processor),
            Type::True(_) | Type::False(_) | Type::Nil(_) => {},
        }
    }

    fn visit_type_name(name: &mut TypeName, processor: &mut T)
        decreases old(name).depth(), 0nat,
    {
        proof {
            T::callbacks_keep_depth();
        }
        processor.process_type_name(name);
        match &mut name.type_parameters {
            Some(inner) => Self::visit_type_parameters(&mut inner.parameters, processor),
            None => {},
        }
    }

    fn visit_type_field(type_field: &mut TypeField, processor: &mut T)
        decreases old(type_field).depth(), 0nat,
    {
        proof {
            T::callbacks_keep_depth();
        }
        processor.process_type_field(type_field);
        Self::visit_type_name(&mut type_field.name, processor);
    }

    fn visit_array_type(array: &mut ArrayType, processor: &mut T)
        decreases old(array).depth(), 0nat,
    {
        proof {
            T::callbacks_keep_depth();
        }
        processor.process_array_type(array);
        Self::visit_type(&mut array.element_type, processor);
    }

    fn visit_table_type(table: &mut TableType, processor: &mut T)
        decreases old(table).depth(), 0nat,
    {
        proof {
            T::callbacks_keep_depth();
        }
        processor.process_table_type(table);
        Self::visit_table_entry_types(&mut table.entries, processor);
    }

    fn visit_expression_type(expression_type: &mut ExpressionType, processor: &mut T)
        decreases old(expression_type).depth(), 0nat,
    {
        proof {
            T::callbacks_keep_depth();
        }
        processor.process_expression_type(expression_type);
        Self::visit_expression(&mut expression_type.expression, processor);
    }

    fn visit_parenthese_type(parenthese: &mut ParentheseType, processor: &mut T)
        decreases old(parenthese).depth(), 0nat,
    {
        proof {
            T::callbacks_keep_depth();
        }
        processor.process_parenthese_type(parenthese);
        Self::visit_type(&mut parenthese.inner_type, processor);
    }

    fn visit_function_type(function: &mut FunctionType, processor: &mut T)
        decreases old(function).depth(), 0nat,
    {
        proof {
            T::callbacks_keep_depth();
        }
        processor.process_function_type(function);
        Self::visit_function_argument_types(&mut function.arguments, processor);
        match &mut function.variadic_argument_type {
            Some(inner) => Self::visit_variadic_argument_type(inner, processor),
            None => {},
        }
        Self::visit_function_return_type(&mut function.return_type, processor);
    }

    fn visit_optional_type(optional: &mut OptionalType, processor: &mut T)
        decreases old(optional).depth(), 0nat,
    {
        proof {
            T::callbacks_keep_depth();
        }
        processor.process_optional_type(optional);
        Self::visit_type(&mut optional.inner_type, processor);
    }

    fn visit_intersection_type(intersection: &mut IntersectionType, processor: &mut T)
        decreases old(intersection).depth(), 0nat,
    {
        proof {
            T::callbacks_keep_depth();
        }
        processor.process_intersection_type(intersection);
        Self::visit_types(&mut intersection.types, processor);
    }

    fn visit_union_type(union: &mut UnionType, processor: &mut T)
        decreases old(union).depth(), 0nat,
    {
        proof {
            T::callbacks_keep_depth();
        }
        processor.process_union_type(union);
        Self::visit_types(&mut union.types, processor);
    }

    fn visit_string_type(string: &mut StringType, processor: &mut T)
    {
        processor.process_string_type(string);
    }

    fn visit_type_pack(type_pack: &mut TypePack, processor: &mut T)
        decreases old(type_pack).depth(), 0nat,
    {
        proof {
            T::callbacks_keep_depth();
        }
        processor.process_type_pack(type_pack);
        Self::visit_types(&mut type_pack.types, processor);
        match &mut type_pack.variadic_type {
            Some(inner) => Self::visit_variadic_argument_type(inner, processor),
            None => {},
        }
    }

    fn visit_variadic_type_pack(variadic_type_pack: &mut VariadicTypePack, processor: &mut T)
        decreases old(variadic_type_pack).depth(), 0nat,
    {
        proof {
            T::callbacks_keep_depth();
        }
        processor.process_variadic_type_pack(variadic_type_pack);
        Self::visit_type(&mut variadic_type_pack.inner_type, processor);
    }

    fn visit_variadic_argument_type(variadic_type: &mut VariadicArgumentType, processor: &mut T)
        decreases old(variadic_type).depth(), 0nat,
    {
        match variadic_type {
            VariadicArgumentType::VariadicTypePack(inner) => {
                Self::visit_variadic_type_pack(inner, processor);
            },
            VariadicArgumentType::GenericTypePack(inner) => {
                Self::visit_generic_type_pack(inner, processor);
            },
        }
    }

    fn visit_function_return_type(return_type: &mut FunctionReturnType, processor: &mut T)
        decreases old(return_type).depth(), 0nat,
    {
        match return_type {
            FunctionReturnType::Type(inner) => Self::visit_type(inner, processor),
            FunctionReturnType::TypePack(inner) => Self::visit_type_pack(inner, processor),
            FunctionReturnType::VariadicTypePack(inner) => {
                Self::visit_variadic_type_pack(inner, processor);
            },
            FunctionReturnType::GenericTypePack(inner) => {
                Self::visit_generic_type_pack(inner, processor);
            },
        }
    }
}

impl<T: NodeProcessor> DefaultVisitor<T> {
    /// Visits the annotation of a typed identifier: the annotation, if there is one.
    fn visit_typed_identifier(identifier: &mut TypedIdentifier, processor: &mut T)
        ensures
            (*final(processor), *final(identifier)) == walk_typed_identifier(
                *old(processor),
                *old(identifier),
            ),
        decreases old(identifier).depth(), 0nat,
    {
        match &mut identifier.annotation {
            Some(inner) => Self::visit_type(inner, processor),
            None => {},
        }
    }

    /// Visits a branch of an if statement: the condition, then the scope notification
    /// for the block, then the block.
    fn visit_if_branch(branch: &mut IfBranch, processor: &mut T)
        ensures
            (*final(processor), *final(branch)) == walk_if_branch(*old(processor), *old(branch)),
        decreases old(branch).depth(), 0nat,
    {
        proof {
            T::callbacks_keep_depth();
        }
        Self::visit_expression(&mut branch.condition, processor);
        processor.process_scope(&mut branch.block, None);
        Self::visit_block(&mut branch.block, processor);
    }

    /// Visits an `elseif` branch of an if expression: the condition, then the result.
    fn visit_else_if_branch(branch: &mut ElseIfExpressionBranch, processor: &mut T)
        ensures
            (*final(processor), *final(branch))
                == walk_else_if_branch(*old(processor), *old(branch)),
        decreases old(branch).depth(), 0nat,
    {
        Self::visit_expression(&mut branch.condition, processor);
        Self::visit_expression(&mut branch.result, processor);
    }

    /// Visits a piece of an interpolated string: what the node holds, by its kind.
    fn visit_segment(segment: &mut InterpolationSegment, processor: &mut T)
        ensures
            (*final(processor), *final(segment)) == walk_segment(*old(processor), *old(segment)),
        decreases old(segment).depth(), 0nat,
    {
        match segment {
            InterpolationSegment::Value(inner) => {
                Self::visit_expression(&mut inner.value, processor);
            },
            InterpolationSegment::String(_) => {},
        }
    }

    /// Visits an entry of a table constructor: what the node holds, by its kind.
    fn visit_table_entry(entry: &mut TableEntry, processor: &mut T)
        ensures
            (*final(processor), *final(entry)) == walk_table_entry(*old(processor), *old(entry)),
        decreases old(entry).depth(), 0nat,
    {
        match entry {
            TableEntry::Field(inner) => Self::visit_expression(&mut inner.value, processor),
            TableEntry::Index(inner) => {
                Self::visit_expression(&mut inner.key, processor);
                Self::visit_expression(&mut inner.value, processor);
            },
            TableEntry::Value(inner) => Self::visit_expression(inner, processor),
        }
    }

    /// Visits a parameter given to a named type: what the node holds, by its kind.
    fn visit_type_parameter(parameter: &mut TypeParameter, processor: &mut T)
        ensures
            (*final(processor), *final(parameter)) == walk_type_parameter(
                *old(processor),
                *old(parameter),
            ),
        decreases old(parameter).depth(), 0nat,
    {
        match parameter {
            TypeParameter::Type(inner) => Self::visit_type(inner, processor),
            TypeParameter::TypePack(inner) => Self::visit_type_pack(inner, processor),
            TypeParameter::VariadicTypePack(inner) => {
                Self::visit_variadic_type_pack(inner, processor);
            },
            TypeParameter::GenericTypePack(inner) => {
                Self::visit_generic_type_pack(inner, processor);
            },
        }
    }

    /// Visits an entry of a table type: what the node holds, by its kind.
    fn visit_table_entry_type(entry: &mut TableEntryType, processor: &mut T)
        ensures
            (*final(processor), *final(entry))
                == walk_table_entry_type(*old(processor), *old(entry)),
        decreases old(entry).depth(), 0nat,
    {
        match entry {
            TableEntryType::Property(inner) => {
                Self::visit_type(&mut inner.property_type, processor);
            },
            TableEntryType::Literal(inner) => {
                Self::visit_string_type(&mut inner.string, processor);
                Self::visit_type(&mut inner.property_type, processor);
            },
            TableEntryType::Indexer(inner) => {
                Self::visit_type(&mut inner.key_type, processor);
                Self::visit_type(&mut inner.value_type, processor);
            },
        }
    }

    /// Visits the type of an argument: the argument type.
    fn visit_function_argument_type(argument: &mut FunctionArgumentType, processor: &mut T)
        ensures
            (*final(processor), *final(argument)) == walk_function_argument_type(
                *old(processor),
                *old(argument),
            ),
        decreases old(argument).depth(), 0nat,
    {
        Self::visit_type(&mut argument.argument_type, processor);
    }

    /// Visits a generic parameter of a type declaration: what the node holds, by its
    /// kind.
    fn visit_generic_parameter(parameter: &mut GenericParameter, processor: &mut T)
        ensures
            (*final(processor), *final(parameter)) == walk_generic_parameter(
                *old(processor),
                *old(parameter),
            ),
        decreases old(parameter).depth(), 0nat,
    {
        match parameter {
            GenericParameter::TypeVariableWithDefault(inner) => {
                Self::visit_type(&mut inner.default_type, processor);
            },
            GenericParameter::GenericTypePack(inner) => {
                Self::visit_generic_type_pack(inner, processor);
            },
            GenericParameter::GenericTypePackWithDefault(inner) => {
                Self::visit_generic_type_pack(&mut inner.generic_type_pack, processor);
                Self::visit_generic_type_pack_default(&mut inner.default_type, processor);
            },
            GenericParameter::TypeVariable(_) => {},
        }
    }

    /// Visits what a generic type pack defaults to: what the node holds, by its kind.
    fn visit_generic_type_pack_default(default_type: &mut GenericTypePackDefault, processor: &mut T)
        ensures
            (*final(processor), *final(default_type)) == walk_generic_type_pack_default(
                *old(processor),
                *old(default_type),
            ),
        decreases old(default_type).depth(), 0nat,
    {
        match default_type {
            GenericTypePackDefault::TypePack(inner) => Self::visit_type_pack(inner, processor),
            GenericTypePackDefault::VariadicTypePack(inner) => {
                Self::visit_variadic_type_pack(inner, processor);
            },
            GenericTypePackDefault::GenericTypePack(inner) => {
                Self::visit_generic_type_pack(inner, processor);
            },
        }
    }

    /// Visits each of a list of statements, in order.
    fn visit_statements(list: &mut NodeList<Statement>, processor: &mut T)
        ensures
            (*final(processor), *final(list)) == walk_statements(*old(processor), *old(list)),
        decreases statements_depth(*old(list)), 1 + old(list).count(),
    {
        match list {
            NodeList::Empty => {},
            NodeList::Cell(cell) => {
                Self::visit_statement(&mut cell.head, processor);
                Self::visit_statements(&mut cell.tail, processor);
            },
        }
    }

    /// Visits each of a list of expressions, in order.
    fn visit_expressions(list: &mut NodeList<Expression>, processor: &mut T)
        ensures
            (*final(processor), *final(list)) == walk_expressions(*old(processor), *old(list)),
        decreases expressions_depth(*old(list)), 1 + old(list).count(),
    {
        match list {
            NodeList::Empty => {},
            NodeList::Cell(cell) => {
                Self::visit_expression(&mut cell.head, processor);
                Self::visit_expressions(&mut cell.tail, processor);
            },
        }
    }

    /// Visits each of a list of variables, in order.
    fn visit_variables(list: &mut NodeList<Variable>, processor: &mut T)
        ensures
            (*final(processor), *final(list)) == walk_variables(*old(processor), *old(list)),
        decreases variables_depth(*old(list)), 1 + old(list).count(),
    {
        match list {
            NodeList::Empty => {},
            NodeList::Cell(cell) => {
                Self::visit_variable(&mut cell.head, processor);
                Self::visit_variables(&mut cell.tail, processor);
            },
        }
    }

    /// Visits each of a list of typed identifiers, in order.
    fn visit_typed_identifiers(list: &mut NodeList<TypedIdentifier>, processor: &mut T)
        ensures
            (*final(processor), *final(list))
                == walk_typed_identifiers(*old(processor), *old(list)),
        decreases typed_identifiers_depth(*old(list)), 1 + old(list).count(),
    {
        match list {
            NodeList::Empty => {},
            NodeList::Cell(cell) => {
                Self::visit_typed_identifier(&mut cell.head, processor);
                Self::visit_typed_identifiers(&mut cell.tail, processor);
            },
        }
    }

    /// Visits each of a list of if branches, in order.
    fn visit_if_branches(list: &mut NodeList<IfBranch>, processor: &mut T)
        ensures
            (*final(processor), *final(list)) == walk_if_branches(*old(processor), *old(list)),
        decreases if_branches_depth(*old(list)), 1 + old(list).count(),
    {
        match list {
            NodeList::Empty => {},
            NodeList::Cell(cell) => {
                Self::visit_if_branch(&mut cell.head, processor);
                Self::visit_if_branches(&mut cell.tail, processor);
            },
        }
    }

    /// Visits each of a list of else if branches, in order.
    fn visit_else_if_branches(list: &mut NodeList<ElseIfExpressionBranch>, processor: &mut T)
        ensures
            (*final(processor), *final(list)) == walk_else_if_branches(*old(processor), *old(list)),
        decreases else_if_branches_depth(*old(list)), 1 + old(list).count(),
    {
        match list {
            NodeList::Empty => {},
            NodeList::Cell(cell) => {
                Self::visit_else_if_branch(&mut cell.head, processor);
                Self::visit_else_if_branches(&mut cell.tail, processor);
            },
        }
    }

    /// Visits each of a list of segments, in order.
    fn visit_segments(list: &mut NodeList<InterpolationSegment>, processor: &mut T)
        ensures
            (*final(processor), *final(list)) == walk_segments(*old(processor), *old(list)),
        decreases segments_depth(*old(list)), 1 + old(list).count(),
    {
        match list {
            NodeList::Empty => {},
            NodeList::Cell(cell) => {
                Self::visit_segment(&mut cell.head, processor);
                Self::visit_segments(&mut cell.tail, processor);
            },
        }
    }

    /// Visits each of a list of table entries, in order.
    fn visit_table_entries(list: &mut NodeList<TableEntry>, processor: &mut T)
        ensures
            (*final(processor), *final(list)) == walk_table_entries(*old(processor), *old(list)),
        decreases table_entries_depth(*old(list)), 1 + old(list).count(),
    {
        match list {
            NodeList::Empty => {},
            NodeList::Cell(cell) => {
                Self::visit_table_entry(&mut cell.head, processor);
                Self::visit_table_entries(&mut cell.tail, processor);
            },
        }
    }

    /// Visits each of a list of types, in order.
    fn visit_types(list: &mut NodeList<Type>, processor: &mut T)
        ensures
            (*final(processor), *final(list)) == walk_types(*old(processor), *old(list)),
        decreases types_depth(*old(list)), 1 + old(list).count(),
    {
        match list {
            NodeList::Empty => {},
            NodeList::Cell(cell) => {
                Self::visit_type(&mut cell.head, processor);
                Self::visit_types(&mut cell.tail, processor);
            },
        }
    }

    /// Visits each of a list of type parameters, in order.
    fn visit_type_parameters(list: &mut NodeList<TypeParameter>, processor: &mut T)
        ensures
            (*final(processor), *final(list)) == walk_type_parameters(*old(processor), *old(list)),
        decreases type_parameters_depth(*old(list)), 1 + old(list).count(),
    {
        match list {
            NodeList::Empty => {},
            NodeList::Cell(cell) => {
                Self::visit_type_parameter(&mut cell.head, processor);
                Self::visit_type_parameters(&mut cell.tail, processor);
            },
        }
    }

    /// Visits each of a list of table entry types, in order.
    fn visit_table_entry_types(list: &mut NodeList<TableEntryType>, processor: &mut T)
        ensures
            (*final(processor), *final(list))
                == walk_table_entry_types(*old(processor), *old(list)),
        decreases table_entry_types_depth(*old(list)), 1 + old(list).count(),
    {
        match list {
            NodeList::Empty => {},
            NodeList::Cell(cell) => {
                Self::visit_table_entry_type(&mut cell.head, processor);
                Self::visit_table_entry_types(&mut cell.tail, processor);
            },
        }
    }

    /// Visits each of a list of function argument types, in order.
    fn visit_function_argument_types(list: &mut NodeList<FunctionArgumentType>, processor: &mut T)
        ensures
            (*final(processor), *final(list))
                == walk_function_argument_types(*old(processor), *old(list)),
        decreases function_argument_types_depth(*old(list)), 1 + old(list).count(),
    {
        match list {
            NodeList::Empty => {},
            NodeList::Cell(cell) => {
                Self::visit_function_argument_type(&mut cell.head, processor);
                Self::visit_function_argument_types(&mut cell.tail, processor);
            },
        }
    }

    /// Visits each of a list of generic parameters, in order.
    fn visit_generic_parameters(list: &mut NodeList<GenericParameter>, processor: &mut T)
        ensures
            (*final(processor), *final(list))
                == walk_generic_parameters(*old(processor), *old(list)),
        decreases generic_parameters_depth(*old(list)), 1 + old(list).count(),
    {
        match list {
            NodeList::Empty => {},
            NodeList::Cell(cell) => {
                Self::visit_generic_parameter(&mut cell.head, processor);
                Self::visit_generic_parameters(&mut cell.tail, processor);
            },
        }
    }
}

} // verus!
