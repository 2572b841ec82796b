//! What a visit that removes comments leaves: blocks and statements.
use crate::nodes::{
    AssignStatement, Block, CompoundAssignStatement, DoStatement, ExportTypeFunctionStatement,
    FunctionStatement, GenericForStatement, GenericParameter, GenericTypePack,
    GenericTypePackDefault, GenericTypePackWithDefault, Identifier, IfBranch, IfStatement,
    LastStatement, LocalAssignStatement, LocalFunctionStatement, NumericForStatement,
    RepeatStatement, Statement, TypeDeclarationStatement, TypeFunctionStatement, TypePack,
    TypeVariableWithDefault, TypedIdentifier, VariadicTypePack, WhileStatement,
};
use crate::process::walk::{
    walk_assign_statement, walk_block, walk_compound_assign, walk_do_statement,
    walk_export_type_function, walk_expression, walk_expressions, walk_function_call,
    walk_function_return_type, walk_function_statement, walk_function_variadic_type,
    walk_generic_for, walk_generic_parameter, walk_generic_parameters, walk_generic_type_pack,
    walk_generic_type_pack_default, walk_identifier, walk_if_branch, walk_if_branches,
    walk_if_statement, walk_last_statement, walk_local_assign, walk_local_function,
    walk_numeric_for, walk_repeat_statement, walk_statement, walk_statements, walk_type,
    walk_type_declaration, walk_type_function, walk_type_pack, walk_typed_identifier,
    walk_typed_identifiers, walk_variable, walk_variables, walk_variadic_type_pack,
    walk_while_statement,
};
use crate::rules::remove_comments::{RemoveCommentProcessor, processors_are_equal};
use crate::rules::stripping::expressions::{
    visit_strips_expression, visit_strips_function_call, visit_strips_variable,
};
use crate::rules::stripping::lists::{
    visit_strips_expressions, visit_strips_generic_parameters, visit_strips_if_branches,
    visit_strips_statements, visit_strips_typed_identifiers, visit_strips_variables,
};
use crate::rules::stripping::types::{
    visit_strips_function_return_type, visit_strips_function_variadic_type,
    visit_strips_generic_type_pack, visit_strips_type, visit_strips_type_pack,
    visit_strips_variadic_type_pack,
};
use vstd::prelude::*;

verus! {

/// A visit of a block takes the comments out of every token of it and of everything
/// under it, and changes nothing else.
pub proof fn visit_strips_block(block: Block)
    ensures
        forall|p: RemoveCommentProcessor| (#[trigger] walk_block(p, block)).1 == block.stripped(),
    decreases block.depth(), 0nat,
{
    block.without_comments_is_idempotent();
    block.without_comments_keeps_depth();
    block.stripped_absorbs_clearing();
    let entered = block.without_comments();
    visit_strips_statements(entered.statements);
    match entered.last_statement {
        Some(inner) => {
            visit_strips_last_statement(inner);
        },
        None => {},
    }
    assert forall|p: RemoveCommentProcessor|
        (#[trigger] walk_block(p, block)).1 == block.stripped() by {
        processors_are_equal(walk_statements(p, entered.statements).0, p);
        match entered.last_statement {
            Some(inner) => {
                processors_are_equal(walk_last_statement(p, inner).0, p);
            },
            None => {},
        }
    }
}

/// A visit of a statement takes the comments out of every token of it and of everything
/// under it, and changes nothing else.
pub proof fn visit_strips_statement(statement: Statement)
    ensures
        forall|p: RemoveCommentProcessor|
            (#[trigger] walk_statement(p, statement)).1 == statement.stripped(),
    decreases statement.depth(), 0nat,
{
    match statement {
        Statement::Assign(inner) => {
            visit_strips_assign_statement(inner);
        },
        Statement::Do(inner) => {
            visit_strips_do_statement(inner);
        },
        Statement::Call(inner) => {
            visit_strips_function_call(inner);
        },
        Statement::CompoundAssign(inner) => {
            visit_strips_compound_assign(inner);
        },
        Statement::Function(inner) => {
            visit_strips_function_statement(inner);
        },
        Statement::GenericFor(inner) => {
            visit_strips_generic_for(inner);
        },
        Statement::If(inner) => {
            visit_strips_if_statement(inner);
        },
        Statement::LocalAssign(inner) => {
            visit_strips_local_assign(inner);
        },
        Statement::LocalFunction(inner) => {
            visit_strips_local_function(inner);
        },
        Statement::TypeFunction(inner) => {
            visit_strips_type_function(inner);
        },
        Statement::ExportTypeFunction(inner) => {
            visit_strips_export_type_function(inner);
        },
        Statement::NumericFor(inner) => {
            visit_strips_numeric_for(inner);
        },
        Statement::Repeat(inner) => {
            visit_strips_repeat_statement(inner);
        },
        Statement::While(inner) => {
            visit_strips_while_statement(inner);
        },
        Statement::TypeDeclaration(inner) => {
            visit_strips_type_declaration(inner);
        },
    }
    assert forall|p: RemoveCommentProcessor|
        (#[trigger] walk_statement(p, statement)).1 == statement.stripped() by {
        match statement {
            Statement::Assign(inner) => {
                processors_are_equal(walk_assign_statement(p, inner).0, p);
            },
            Statement::Do(inner) => {
                processors_are_equal(walk_do_statement(p, inner).0, p);
            },
            Statement::Call(inner) => {
                processors_are_equal(walk_function_call(p, inner).0, p);
            },
            Statement::CompoundAssign(inner) => {
                processors_are_equal(walk_compound_assign(p, inner).0, p);
            },
            Statement::Function(inner) => {
                processors_are_equal(walk_function_statement(p, inner).0, p);
            },
            Statement::GenericFor(inner) => {
                processors_are_equal(walk_generic_for(p, inner).0, p);
            },
            Statement::If(inner) => {
                processors_are_equal(walk_if_statement(p, inner).0, p);
            },
            Statement::LocalAssign(inner) => {
                processors_are_equal(walk_local_assign(p, inner).0, p);
            },
            Statement::LocalFunction(inner) => {
                processors_are_equal(walk_local_function(p, inner).0, p);
            },
            Statement::TypeFunction(inner) => {
                processors_are_equal(walk_type_function(p, inner).0, p);
            },
            Statement::ExportTypeFunction(inner) => {
                processors_are_equal(walk_export_type_function(p, inner).0, p);
            },
            Statement::NumericFor(inner) => {
                processors_are_equal(walk_numeric_for(p, inner).0, p);
            },
            Statement::Repeat(inner) => {
                processors_are_equal(walk_repeat_statement(p, inner).0, p);
            },
            Statement::While(inner) => {
                processors_are_equal(walk_while_statement(p, inner).0, p);
            },
            Statement::TypeDeclaration(inner) => {
                processors_are_equal(walk_type_declaration(p, inner).0, p);
            },
            _ => {},
        }
    }
}

/// A visit of the statement that closes a block takes the comments out of every token
/// of it and of everything under it, and changes nothing else.
pub proof fn visit_strips_last_statement(last_statement: LastStatement)
    ensures
        forall|p: RemoveCommentProcessor|
            (#[trigger] walk_last_statement(p, last_statement)).1 == last_statement.stripped(),
    decreases last_statement.depth(), 0nat,
{
    last_statement.without_comments_is_idempotent();
    last_statement.without_comments_keeps_depth();
    last_statement.stripped_absorbs_clearing();
    let entered = last_statement.without_comments();
    match entered {
        LastStatement::Return(inner) => {
            visit_strips_expressions(inner.expressions);
        },
        _ => {},
    }
    assert forall|p: RemoveCommentProcessor|
        (#[trigger] walk_last_statement(p, last_statement)).1 == last_statement.stripped() by {
        match entered {
            LastStatement::Return(inner) => {
                processors_are_equal(walk_expressions(p, inner.expressions).0, p);
            },
            _ => {},
        }
    }
}

/// A visit of an assignment takes the comments out of every token of it and of
/// everything under it, and changes nothing else.
pub proof fn visit_strips_assign_statement(statement: AssignStatement)
    ensures
        forall|p: RemoveCommentProcessor|
            (#[trigger] walk_assign_statement(p, statement)).1 == statement.stripped(),
    decreases statement.depth(), 0nat,
{
    statement.without_comments_is_idempotent();
    statement.without_comments_keeps_depth();
    statement.stripped_absorbs_clearing();
    let entered = statement.without_comments();
    visit_strips_variables(entered.variables);
    visit_strips_expressions(entered.values);
    assert forall|p: RemoveCommentProcessor|
        (#[trigger] walk_assign_statement(p, statement)).1 == statement.stripped() by {
        processors_are_equal(walk_variables(p, entered.variables).0, p);
        processors_are_equal(walk_expressions(p, entered.values).0, p);
    }
}

/// A visit of a do statement takes the comments out of every token of it and of
/// everything under it, and changes nothing else.
pub proof fn visit_strips_do_statement(statement: DoStatement)
    ensures
        forall|p: RemoveCommentProcessor|
            (#[trigger] walk_do_statement(p, statement)).1 == statement.stripped(),
    decreases statement.depth(), 0nat,
{
    statement.without_comments_is_idempotent();
    statement.without_comments_keeps_depth();
    statement.stripped_absorbs_clearing();
    let entered = statement.without_comments();
    visit_strips_block(entered.block);
    assert forall|p: RemoveCommentProcessor|
        (#[trigger] walk_do_statement(p, statement)).1 == statement.stripped() by {
        processors_are_equal(walk_block(p, entered.block).0, p);
    }
}

/// A visit of a compound assignment takes the comments out of every token of it and of
/// everything under it, and changes nothing else.
pub proof fn visit_strips_compound_assign(statement: CompoundAssignStatement)
    ensures
        forall|p: RemoveCommentProcessor|
            (#[trigger] walk_compound_assign(p, statement)).1 == statement.stripped(),
    decreases statement.depth(), 0nat,
{
    statement.without_comments_is_idempotent();
    statement.without_comments_keeps_depth();
    statement.stripped_absorbs_clearing();
    let entered = statement.without_comments();
    visit_strips_variable(entered.variable);
    visit_strips_expression(entered.value);
    assert forall|p: RemoveCommentProcessor|
        (#[trigger] walk_compound_assign(p, statement)).1 == statement.stripped() by {
        processors_are_equal(walk_variable(p, entered.variable).0, p);
        processors_are_equal(walk_expression(p, entered.value).0, p);
    }
}

/// A visit of a function statement takes the comments out of every token of it and of
/// everything under it, and changes nothing else.
pub proof fn visit_strips_function_statement(statement: FunctionStatement)
    ensures
        forall|p: RemoveCommentProcessor|
            (#[trigger] walk_function_statement(p, statement)).1 == statement.stripped(),
    decreases statement.depth(), 0nat,
{
    statement.without_comments_is_idempotent();
    statement.without_comments_keeps_depth();
    statement.stripped_absorbs_clearing();
    let entered = statement.without_comments();
    visit_strips_identifier(entered.name.name);
    visit_strips_block(entered.block);
    visit_strips_typed_identifiers(entered.parameters);
    match entered.variadic_type {
        Some(inner) => {
            visit_strips_function_variadic_type(inner);
        },
        None => {},
    }
    match entered.return_type {
        Some(inner) => {
            visit_strips_function_return_type(inner);
        },
        None => {},
    }
    assert forall|p: RemoveCommentProcessor|
        (#[trigger] walk_function_statement(p, statement)).1 == statement.stripped() by {
        processors_are_equal(walk_identifier(p, entered.name.name).0, p);
        processors_are_equal(walk_block(p, entered.block).0, p);
        processors_are_equal(walk_typed_identifiers(p, entered.parameters).0, p);
        match entered.variadic_type {
            Some(inner) => {
                processors_are_equal(walk_function_variadic_type(p, inner).0, p);
            },
            None => {},
        }
        match entered.return_type {
            Some(inner) => {
                processors_are_equal(walk_function_return_type(p, inner).0, p);
            },
            None => {},
        }
    }
}

/// A visit of a generic for loop takes the comments out of every token of it and of
/// everything under it, and changes nothing else.
pub proof fn visit_strips_generic_for(statement: GenericForStatement)
    ensures
        forall|p: RemoveCommentProcessor|
            (#[trigger] walk_generic_for(p, statement)).1 == statement.stripped(),
    decreases statement.depth(), 0nat,
{
    statement.without_comments_is_idempotent();
    statement.without_comments_keeps_depth();
    statement.stripped_absorbs_clearing();
    let entered = statement.without_comments();
    visit_strips_expressions(entered.expressions);
    visit_strips_block(entered.block);
    visit_strips_typed_identifiers(entered.identifiers);
    assert forall|p: RemoveCommentProcessor|
        (#[trigger] walk_generic_for(p, statement)).1 == statement.stripped() by {
        processors_are_equal(walk_expressions(p, entered.expressions).0, p);
        processors_are_equal(walk_block(p, entered.block).0, p);
        processors_are_equal(walk_typed_identifiers(p, entered.identifiers).0, p);
    }
}

/// A visit of an if statement takes the comments out of every token of it and of
/// everything under it, and changes nothing else.
pub proof fn visit_strips_if_statement(statement: IfStatement)
    ensures
        forall|p: RemoveCommentProcessor|
            (#[trigger] walk_if_statement(p, statement)).1 == statement.stripped(),
    decreases statement.depth(), 0nat,
{
    statement.without_comments_is_idempotent();
    statement.without_comments_keeps_depth();
    statement.stripped_absorbs_clearing();
    let entered = statement.without_comments();
    visit_strips_if_branches(entered.branches);
    match entered.else_block {
        Some(inner) => {
            visit_strips_block(inner);
        },
        None => {},
    }
    assert forall|p: RemoveCommentProcessor|
        (#[trigger] walk_if_statement(p, statement)).1 == statement.stripped() by {
        processors_are_equal(walk_if_branches(p, entered.branches).0, p);
        match entered.else_block {
            Some(inner) => {
                processors_are_equal(walk_block(p, inner).0, p);
            },
            None => {},
        }
    }
}

/// A visit of a local assignment takes the comments out of every token of it and of
/// everything under it, and changes nothing else.
pub proof fn visit_strips_local_assign(statement: LocalAssignStatement)
    ensures
        forall|p: RemoveCommentProcessor|
            (#[trigger] walk_local_assign(p, statement)).1 == statement.stripped(),
    decreases statement.depth(), 0nat,
{
    statement.without_comments_is_idempotent();
    statement.without_comments_keeps_depth();
    statement.stripped_absorbs_clearing();
    let entered = statement.without_comments();
    visit_strips_expressions(entered.values);
    visit_strips_typed_identifiers(entered.variables);
    assert forall|p: RemoveCommentProcessor|
        (#[trigger] walk_local_assign(p, statement)).1 == statement.stripped() by {
        processors_are_equal(walk_expressions(p, entered.values).0, p);
        processors_are_equal(walk_typed_identifiers(p, entered.variables).0, p);
    }
}

/// A visit of a local function takes the comments out of every token of it and of
/// everything under it, and changes nothing else.
pub proof fn visit_strips_local_function(statement: LocalFunctionStatement)
    ensures
        forall|p: RemoveCommentProcessor|
            (#[trigger] walk_local_function(p, statement)).1 == statement.stripped(),
    decreases statement.depth(), 0nat,
{
    statement.without_comments_is_idempotent();
    statement.without_comments_keeps_depth();
    statement.stripped_absorbs_clearing();
    let entered = statement.without_comments();
    visit_strips_block(entered.block);
    visit_strips_typed_identifiers(entered.parameters);
    match entered.variadic_type {
        Some(inner) => {
            visit_strips_function_variadic_type(inner);
        },
        None => {},
    }
    match entered.return_type {
        Some(inner) => {
            visit_strips_function_return_type(inner);
        },
        None => {},
    }
    assert forall|p: RemoveCommentProcessor|
        (#[trigger] walk_local_function(p, statement)).1 == statement.stripped() by {
        processors_are_equal(walk_block(p, entered.block).0, p);
        processors_are_equal(walk_typed_identifiers(p, entered.parameters).0, p);
        match entered.variadic_type {
            Some(inner) => {
                processors_are_equal(walk_function_variadic_type(p, inner).0, p);
            },
            None => {},
        }
        match entered.return_type {
            Some(inner) => {
                processors_are_equal(walk_function_return_type(p, inner).0, p);
            },
            None => {},
        }
    }
}

/// A visit of a type function takes the comments out of every token of it and of
/// everything under it, and changes nothing else.
pub proof fn visit_strips_type_function(statement: TypeFunctionStatement)
    ensures
        forall|p: RemoveCommentProcessor|
            (#[trigger] walk_type_function(p, statement)).1 == statement.stripped(),
    decreases statement.depth(), 0nat,
{
    statement.without_comments_is_idempotent();
    statement.without_comments_keeps_depth();
    statement.stripped_absorbs_clearing();
    let entered = statement.without_comments();
    visit_strips_block(entered.block);
    visit_strips_typed_identifiers(entered.parameters);
    match entered.variadic_type {
        Some(inner) => {
            visit_strips_function_variadic_type(inner);
        },
        None => {},
    }
    match entered.return_type {
        Some(inner) => {
            visit_strips_function_return_type(inner);
        },
        None => {},
    }
    assert forall|p: RemoveCommentProcessor|
        (#[trigger] walk_type_function(p, statement)).1 == statement.stripped() by {
        processors_are_equal(walk_block(p, entered.block).0, p);
        processors_are_equal(walk_typed_identifiers(p, entered.parameters).0, p);
        match entered.variadic_type {
            Some(inner) => {
                processors_are_equal(walk_function_variadic_type(p, inner).0, p);
            },
            None => {},
        }
        match entered.return_type {
            Some(inner) => {
                processors_are_equal(walk_function_return_type(p, inner).0, p);
            },
            None => {},
        }
    }
}

/// A visit of an exported type function takes the comments out of every token of it and
/// of everything under it, and changes nothing else.
pub proof fn visit_strips_export_type_function(statement: ExportTypeFunctionStatement)
    ensures
        forall|p: RemoveCommentProcessor|
            (#[trigger] walk_export_type_function(p, statement)).1 == statement.stripped(),
    decreases statement.depth(), 0nat,
{
    statement.without_comments_is_idempotent();
    statement.without_comments_keeps_depth();
    statement.stripped_absorbs_clearing();
    let entered = statement.without_comments();
    visit_strips_block(entered.block);
    visit_strips_typed_identifiers(entered.parameters);
    match entered.variadic_type {
        Some(inner) => {
            visit_strips_function_variadic_type(inner);
        },
        None => {},
    }
    match entered.return_type {
        Some(inner) => {
            visit_strips_function_return_type(inner);
        },
        None => {},
    }
    assert forall|p: RemoveCommentProcessor|
        (#[trigger] walk_export_type_function(p, statement)).1 == statement.stripped() by {
        processors_are_equal(walk_block(p, entered.block).0, p);
        processors_are_equal(walk_typed_identifiers(p, entered.parameters).0, p);
        match entered.variadic_type {
            Some(inner) => {
                processors_are_equal(walk_function_variadic_type(p, inner).0, p);
            },
            None => {},
        }
        match entered.return_type {
            Some(inner) => {
                processors_are_equal(walk_function_return_type(p, inner).0, p);
            },
            None => {},
        }
    }
}

/// A visit of a numeric for loop takes the comments out of every token of it and of
/// everything under it, and changes nothing else.
pub proof fn visit_strips_numeric_for(statement: NumericForStatement)
    ensures
        forall|p: RemoveCommentProcessor|
            (#[trigger] walk_numeric_for(p, statement)).1 == statement.stripped(),
    decreases statement.depth(), 0nat,
{
    statement.without_comments_is_idempotent();
    statement.without_comments_keeps_depth();
    statement.stripped_absorbs_clearing();
    let entered = statement.without_comments();
    visit_strips_expression(entered.start);
    visit_strips_expression(entered.end);
    match entered.step {
        Some(inner) => {
            visit_strips_expression(inner);
        },
        None => {},
    }
    visit_strips_block(entered.block);
    visit_strips_typed_identifier(entered.identifier);
    assert forall|p: RemoveCommentProcessor|
        (#[trigger] walk_numeric_for(p, statement)).1 == statement.stripped() by {
        processors_are_equal(walk_expression(p, entered.start).0, p);
        processors_are_equal(walk_expression(p, entered.end).0, p);
        match entered.step {
            Some(inner) => {
                processors_are_equal(walk_expression(p, inner).0, p);
            },
            None => {},
        }
        processors_are_equal(walk_block(p, entered.block).0, p);
        processors_are_equal(walk_typed_identifier(p, entered.identifier).0, p);
    }
}

/// A visit of a repeat loop takes the comments out of every token of it and of
/// everything under it, and changes nothing else.
pub proof fn visit_strips_repeat_statement(statement: RepeatStatement)
    ensures
        forall|p: RemoveCommentProcessor|
            (#[trigger] walk_repeat_statement(p, statement)).1 == statement.stripped(),
    decreases statement.depth(), 0nat,
{
    statement.without_comments_is_idempotent();
    statement.without_comments_keeps_depth();
    statement.stripped_absorbs_clearing();
    let entered = statement.without_comments();
    visit_strips_block(entered.block);
    visit_strips_expression(entered.condition);
    assert forall|p: RemoveCommentProcessor|
        (#[trigger] walk_repeat_statement(p, statement)).1 == statement.stripped() by {
        processors_are_equal(walk_block(p, entered.block).0, p);
        processors_are_equal(walk_expression(p, entered.condition).0, p);
    }
}

/// A visit of a while loop takes the comments out of every token of it and of
/// everything under it, and changes nothing else.
pub proof fn visit_strips_while_statement(statement: WhileStatement)
    ensures
        forall|p: RemoveCommentProcessor|
            (#[trigger] walk_while_statement(p, statement)).1 == statement.stripped(),
    decreases statement.depth(), 0nat,
{
    statement.without_comments_is_idempotent();
    statement.without_comments_keeps_depth();
    statement.stripped_absorbs_clearing();
    let entered = statement.without_comments();
    visit_strips_expression(entered.condition);
    visit_strips_block(entered.block);
    assert forall|p: RemoveCommentProcessor|
        (#[trigger] walk_while_statement(p, statement)).1 == statement.stripped() by {
        processors_are_equal(walk_expression(p, entered.condition).0, p);
        processors_are_equal(walk_block(p, entered.block).0, p);
    }
}

/// A visit of a type declaration takes the comments out of every token of it and of
/// everything under it, and changes nothing else.
pub proof fn visit_strips_type_declaration(statement: TypeDeclarationStatement)
    ensures
        forall|p: RemoveCommentProcessor|
            (#[trigger] walk_type_declaration(p, statement)).1 == statement.stripped(),
    decreases statement.depth(), 0nat,
{
    statement.without_comments_is_idempotent();
    statement.without_comments_keeps_depth();
    statement.stripped_absorbs_clearing();
    let entered = statement.without_comments();
    match entered.generic_parameters {
        Some(inner) => {
            visit_strips_generic_parameters(inner.parameters);
        },
        None => {},
    }
    visit_strips_type(entered.declared_type);
    assert forall|p: RemoveCommentProcessor|
        (#[trigger] walk_type_declaration(p, statement)).1 == statement.stripped() by {
        match entered.generic_parameters {
            Some(inner) => {
                processors_are_equal(walk_generic_parameters(p, inner.parameters).0, p);
            },
            None => {},
        }
        processors_are_equal(walk_type(p, entered.declared_type).0, p);
    }
}

/// A visit of an identifier takes the comments out of every token of it and of
/// everything under it, and changes nothing else.
pub proof fn visit_strips_identifier(identifier: Identifier)
    ensures
        forall|p: RemoveCommentProcessor|
            (#[trigger] walk_identifier(p, identifier)).1 == identifier.stripped(),
{
}

/// A visit of the annotation of a typed identifier takes the comments out of every
/// token of it and of everything under it, and changes nothing else, where its own
/// tokens held no comment before.
pub proof fn visit_strips_typed_identifier(identifier: TypedIdentifier)
    requires
        identifier.without_comments() == identifier,
    ensures
        forall|p: RemoveCommentProcessor|
            (#[trigger] walk_typed_identifier(p, identifier)).1 == identifier.stripped(),
    decreases identifier.depth(), 0nat,
{
    match identifier.annotation {
        Some(inner) => {
            visit_strips_type(inner);
        },
        None => {},
    }
    assert forall|p: RemoveCommentProcessor|
        (#[trigger] walk_typed_identifier(p, identifier)).1 == identifier.stripped() by {
        match identifier.annotation {
            Some(inner) => {
                processors_are_equal(walk_type(p, inner).0, p);
            },
            None => {},
        }
    }
}

/// A visit of a branch of an if statement takes the comments out of every token of it
/// and of everything under it, and changes nothing else, where its own tokens held no
/// comment before.
pub proof fn visit_strips_if_branch(branch: IfBranch)
    requires
        branch.without_comments() == branch,
    ensures
        forall|p: RemoveCommentProcessor|
            (#[trigger] walk_if_branch(p, branch)).1 == branch.stripped(),
    decreases branch.depth(), 0nat,
{
    visit_strips_expression(branch.condition);
    visit_strips_block(branch.block);
    assert forall|p: RemoveCommentProcessor|
        (#[trigger] walk_if_branch(p, branch)).1 == branch.stripped() by {
        processors_are_equal(walk_expression(p, branch.condition).0, p);
        processors_are_equal(walk_block(p, branch.block).0, p);
    }
}

/// A visit of a generic parameter of a type declaration takes the comments out of every
/// token of it and of everything under it, and changes nothing else, where its own
/// tokens held no comment before.
pub proof fn visit_strips_generic_parameter(parameter: GenericParameter)
    requires
        parameter.without_comments() == parameter,
    ensures
        forall|p: RemoveCommentProcessor|
            (#[trigger] walk_generic_parameter(p, parameter)).1 == parameter.stripped(),
    decreases parameter.depth(), 0nat,
{
    match parameter {
        GenericParameter::TypeVariableWithDefault(inner) => {
            visit_strips_type(inner.default_type);
        },
        GenericParameter::GenericTypePack(inner) => {
            visit_strips_generic_type_pack(inner);
        },
        GenericParameter::GenericTypePackWithDefault(inner) => {
            visit_strips_generic_type_pack(inner.generic_type_pack);
            visit_strips_generic_type_pack_default(inner.default_type);
        },
        _ => {},
    }
    assert forall|p: RemoveCommentProcessor|
        (#[trigger] walk_generic_parameter(p, parameter)).1 == parameter.stripped() by {
        match parameter {
            GenericParameter::TypeVariableWithDefault(inner) => {
                processors_are_equal(walk_type(p, inner.default_type).0, p);
            },
            GenericParameter::GenericTypePack(inner) => {
                processors_are_equal(walk_generic_type_pack(p, inner).0, p);
            },
            GenericParameter::GenericTypePackWithDefault(inner) => {
                processors_are_equal(walk_generic_type_pack(p, inner.generic_type_pack).0, p);
                processors_are_equal(walk_generic_type_pack_default(p, inner.default_type).0, p);
            },
            _ => {},
        }
    }
}

/// A visit of what a generic type pack defaults to takes the comments out of every
/// token of it and of everything under it, and changes nothing else.
pub proof fn visit_strips_generic_type_pack_default(default_type: GenericTypePackDefault)
    ensures
        forall|p: RemoveCommentProcessor|
            (#[trigger] walk_generic_type_pack_default(p, default_type)).1
                == default_type.stripped(),
    decreases default_type.depth(), 0nat,
{
    match default_type {
        GenericTypePackDefault::TypePack(inner) => {
            visit_strips_type_pack(inner);
        },
        GenericTypePackDefault::VariadicTypePack(inner) => {
            visit_strips_variadic_type_pack(inner);
        },
        GenericTypePackDefault::GenericTypePack(inner) => {
            visit_strips_generic_type_pack(inner);
        },
    }
    assert forall|p: RemoveCommentProcessor|
        (#[trigger] walk_generic_type_pack_default(p, default_type)).1
            == default_type.stripped() by {
        match default_type {
            GenericTypePackDefault::TypePack(inner) => {
                processors_are_equal(walk_type_pack(p, inner).0, p);
            },
            GenericTypePackDefault::VariadicTypePack(inner) => {
                processors_are_equal(walk_variadic_type_pack(p, inner).0, p);
            },
            GenericTypePackDefault::GenericTypePack(inner) => {
                processors_are_equal(walk_generic_type_pack(p, inner).0, p);
            },
            _ => {},
        }
    }
}

} // verus!
