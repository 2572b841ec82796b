//! The nodes of a tree, counted kind by kind.
//!
//! `tally_x(node)` is the number of nodes of each kind that a [`NodeCounter`] counts,
//! among the nodes that a visit of `node` hands to a callback.
use crate::nodes::{
    Arguments, ArrayType, AssignStatement, BinaryExpression, Block, CompoundAssignStatement,
    DoStatement, ElseIfExpressionBranch, ExportTypeFunctionStatement, Expression, ExpressionType,
    FieldExpression, FunctionArgumentType, FunctionCall, FunctionExpression, FunctionReturnType,
    FunctionStatement, FunctionType, FunctionVariadicType, GenericForStatement, GenericParameter,
    GenericTypePack, GenericTypePackDefault, GenericTypePackWithDefault, Identifier, IfBranch,
    IfExpression, IfStatement, IndexExpression, InterpolatedStringExpression, InterpolationSegment,
    IntersectionType, LastStatement, LocalAssignStatement, LocalFunctionStatement, NodeList,
    NumberExpression, NumericForStatement, OptionalType, ParentheseExpression, ParentheseType,
    Prefix, RepeatStatement, Statement, StringExpression, StringType, TableEntry, TableEntryType,
    TableExpression, TableType, Type, TypeCastExpression, TypeDeclarationStatement, TypeField,
    TypeFunctionStatement, TypeName, TypePack, TypeParameter, TypeVariableWithDefault,
    TypedIdentifier, UnaryExpression, UnionType, Variable, VariadicArgumentType, VariadicTypePack,
    WhileStatement,
};
use crate::process::node_counter::Tally;
use vstd::prelude::*;

verus! {

/// How many nodes of each counted kind a visit of a block meets.
pub open spec fn tally_block(block: Block) -> Tally
    decreases block,
{
    Tally { block_count: 1, ..Tally::zero() }.plus(tally_statements(block.statements)).plus(
        match block.last_statement {
            Some(inner) => tally_last_statement(inner),
            None => Tally::zero(),
        },
    )
}

/// How many nodes of each counted kind a visit of a statement meets.
pub open spec fn tally_statement(statement: Statement) -> Tally
    decreases statement,
{
    match statement {
        Statement::Assign(inner) => tally_assign_statement(inner),
        Statement::Do(inner) => tally_do_statement(inner),
        Statement::Call(inner) => tally_function_call(inner),
        Statement::CompoundAssign(inner) => tally_compound_assign(inner),
        Statement::Function(inner) => tally_function_statement(inner),
        Statement::GenericFor(inner) => tally_generic_for(inner),
        Statement::If(inner) => tally_if_statement(inner),
        Statement::LocalAssign(inner) => tally_local_assign(inner),
        Statement::LocalFunction(inner) => tally_local_function(inner),
        Statement::TypeFunction(inner) => tally_type_function(inner),
        Statement::ExportTypeFunction(inner) => tally_export_type_function(inner),
        Statement::NumericFor(inner) => tally_numeric_for(inner),
        Statement::Repeat(inner) => tally_repeat_statement(inner),
        Statement::While(inner) => tally_while_statement(inner),
        Statement::TypeDeclaration(inner) => tally_type_declaration(inner),
    }
}

/// How many nodes of each counted kind a visit of the statement that closes a block
/// meets.
pub open spec fn tally_last_statement(last_statement: LastStatement) -> Tally
    decreases last_statement,
{
    Tally::of_last_statement(last_statement).plus(
        match last_statement {
            LastStatement::Return(inner) => tally_expressions(inner.expressions),
            _ => Tally::zero(),
        },
    )
}

/// How many nodes of each counted kind a visit of an expression meets.
pub open spec fn tally_expression(expression: Expression) -> Tally
    decreases expression,
{
    Tally { expression_count: 1, ..Tally::zero() }.plus(
        match expression {
            Expression::Binary(inner) => tally_binary_expression(*inner),
            Expression::Call(inner) => tally_function_call(*inner),
            Expression::Field(inner) => tally_field_expression(*inner),
            Expression::Function(inner) => tally_function_expression(*inner),
            Expression::Identifier(inner) => tally_identifier(inner),
            Expression::If(inner) => tally_if_expression(*inner),
            Expression::Index(inner) => tally_index_expression(*inner),
            Expression::Number(inner) => tally_number_expression(inner),
            Expression::Parenthese(inner) => tally_parenthese_expression(*inner),
            Expression::String(inner) => tally_string_expression(inner),
            Expression::InterpolatedString(inner) => tally_interpolated_string_expression(inner),
            Expression::Table(inner) => tally_table(inner),
            Expression::Unary(inner) => tally_unary_expression(*inner),
            Expression::TypeCast(inner) => tally_type_cast_expression(inner),
            _ => Tally::zero(),
        },
    )
}

/// How many nodes of each counted kind a visit of a binary expression meets.
pub open spec fn tally_binary_expression(binary: BinaryExpression) -> Tally
    decreases binary,
{
    tally_expression(binary.left).plus(tally_expression(binary.right))
}

/// How many nodes of each counted kind a visit of a number meets.
pub open spec fn tally_number_expression(number: NumberExpression) -> Tally
{
    Tally::zero()
}

/// How many nodes of each counted kind a visit of a parenthesized expression meets.
pub open spec fn tally_parenthese_expression(parenthese: ParentheseExpression) -> Tally
    decreases parenthese,
{
    tally_expression(parenthese.expression)
}

/// How many nodes of each counted kind a visit of a string meets.
pub open spec fn tally_string_expression(string: StringExpression) -> Tally
{
    Tally::zero()
}

/// How many nodes of each counted kind a visit of an interpolated string meets.
pub open spec fn tally_interpolated_string_expression(
    interpolated_string: InterpolatedStringExpression,
) -> Tally
    decreases interpolated_string,
{
    Tally { interpolated_string_count: 1, ..Tally::zero() }
        .plus(tally_segments(interpolated_string.segments))
}

/// How many nodes of each counted kind a visit of a unary expression meets.
pub open spec fn tally_unary_expression(unary: UnaryExpression) -> Tally
    decreases unary,
{
    tally_expression(unary.expression)
}

/// How many nodes of each counted kind a visit of a type cast meets.
pub open spec fn tally_type_cast_expression(type_cast: TypeCastExpression) -> Tally
    decreases type_cast,
{
    tally_expression(*type_cast.expression).plus(tally_type(*type_cast.cast_type))
}

/// How many nodes of each counted kind a visit of an anonymous function meets.
pub open spec fn tally_function_expression(function: FunctionExpression) -> Tally
    decreases function,
{
    tally_block(function.block).plus(tally_typed_identifiers(function.parameters)).plus(
        match function.variadic_type {
            Some(inner) => tally_function_variadic_type(inner),
            None => Tally::zero(),
        },
    ).plus(
        match function.return_type {
            Some(inner) => tally_function_return_type(inner),
            None => Tally::zero(),
        },
    )
}

/// How many nodes of each counted kind a visit of an assignment meets.
pub open spec fn tally_assign_statement(statement: AssignStatement) -> Tally
    decreases statement,
{
    Tally { assign_count: 1, ..Tally::zero() }
        .plus(tally_variables(statement.variables))
        .plus(tally_expressions(statement.values))
}

/// How many nodes of each counted kind a visit of a do statement meets.
pub open spec fn tally_do_statement(statement: DoStatement) -> Tally
    decreases statement,
{
    Tally { do_count: 1, ..Tally::zero() }.plus(tally_block(statement.block))
}

/// How many nodes of each counted kind a visit of a compound assignment meets.
pub open spec fn tally_compound_assign(statement: CompoundAssignStatement) -> Tally
    decreases statement,
{
    Tally { compound_assign: 1, ..Tally::zero() }
        .plus(tally_variable(statement.variable))
        .plus(tally_expression(statement.value))
}

/// How many nodes of each counted kind a visit of a function statement meets.
pub open spec fn tally_function_statement(statement: FunctionStatement) -> Tally
    decreases statement,
{
    Tally { function_count: 1, ..Tally::zero() }
        .plus(tally_identifier(statement.name.name))
        .plus(tally_block(statement.block))
        .plus(tally_typed_identifiers(statement.parameters))
        .plus(
        match statement.variadic_type {
            Some(inner) => tally_function_variadic_type(inner),
            None => Tally::zero(),
        },
    ).plus(
        match statement.return_type {
            Some(inner) => tally_function_return_type(inner),
            None => Tally::zero(),
        },
    )
}

/// How many nodes of each counted kind a visit of a generic for loop meets.
pub open spec fn tally_generic_for(statement: GenericForStatement) -> Tally
    decreases statement,
{
    Tally { generic_for_count: 1, ..Tally::zero() }
        .plus(tally_expressions(statement.expressions))
        .plus(tally_block(statement.block))
        .plus(tally_typed_identifiers(statement.identifiers))
}

/// How many nodes of each counted kind a visit of an if statement meets.
pub open spec fn tally_if_statement(statement: IfStatement) -> Tally
    decreases statement,
{
    Tally { if_count: 1, ..Tally::zero() }.plus(tally_if_branches(statement.branches)).plus(
        match statement.else_block {
            Some(inner) => tally_block(inner),
            None => Tally::zero(),
        },
    )
}

/// How many nodes of each counted kind a visit of a local assignment meets.
pub open spec fn tally_local_assign(statement: LocalAssignStatement) -> Tally
    decreases statement,
{
    Tally { local_assign_count: 1, ..Tally::zero() }
        .plus(tally_expressions(statement.values))
        .plus(tally_typed_identifiers(statement.variables))
}

/// How many nodes of each counted kind a visit of a local function meets.
pub open spec fn tally_local_function(statement: LocalFunctionStatement) -> Tally
    decreases statement,
{
    Tally { local_function_count: 1, ..Tally::zero() }
        .plus(tally_block(statement.block))
        .plus(tally_typed_identifiers(statement.parameters))
        .plus(
        match statement.variadic_type {
            Some(inner) => tally_function_variadic_type(inner),
            None => Tally::zero(),
        },
    ).plus(
        match statement.return_type {
            Some(inner) => tally_function_return_type(inner),
            None => Tally::zero(),
        },
    )
}

/// How many nodes of each counted kind a visit of a type function meets.
pub open spec fn tally_type_function(statement: TypeFunctionStatement) -> Tally
    decreases statement,
{
    Tally { type_function_count: 1, ..Tally::zero() }
        .plus(tally_block(statement.block))
        .plus(tally_typed_identifiers(statement.parameters))
        .plus(
        match statement.variadic_type {
            Some(inner) => tally_function_variadic_type(inner),
            None => Tally::zero(),
        },
    ).plus(
        match statement.return_type {
            Some(inner) => tally_function_return_type(inner),
            None => Tally::zero(),
        },
    )
}

/// How many nodes of each counted kind a visit of an exported type function meets.
pub open spec fn tally_export_type_function(statement: ExportTypeFunctionStatement) -> Tally
    decreases statement,
{
    Tally { export_type_function_count: 1, ..Tally::zero() }
        .plus(tally_block(statement.block))
        .plus(tally_typed_identifiers(statement.parameters))
        .plus(
        match statement.variadic_type {
            Some(inner) => tally_function_variadic_type(inner),
            None => Tally::zero(),
        },
    ).plus(
        match statement.return_type {
            Some(inner) => tally_function_return_type(inner),
            None => Tally::zero(),
        },
    )
}

/// How many nodes of each counted kind a visit of the type of the variadic arguments of
/// a function meets.
pub open spec fn tally_function_variadic_type(variadic_type: FunctionVariadicType) -> Tally
    decreases variadic_type,
{
    match variadic_type {
        FunctionVariadicType::Type(inner) => tally_type(inner),
        FunctionVariadicType::GenericTypePack(inner) => tally_generic_type_pack(inner),
    }
}

/// How many nodes of each counted kind a visit of a generic type pack meets.
pub open spec fn tally_generic_type_pack(generic: GenericTypePack) -> Tally
{
    Tally::zero()
}

/// How many nodes of each counted kind a visit of a numeric for loop meets.
pub open spec fn tally_numeric_for(statement: NumericForStatement) -> Tally
    decreases statement,
{
    Tally { numeric_for_count: 1, ..Tally::zero() }
        .plus(tally_expression(statement.start))
        .plus(tally_expression(statement.end))
        .plus(
        match statement.step {
            Some(inner) => tally_expression(inner),
            None => Tally::zero(),
        },
    ).plus(tally_block(statement.block)).plus(tally_typed_identifier(statement.identifier))
}

/// How many nodes of each counted kind a visit of a repeat loop meets.
pub open spec fn tally_repeat_statement(statement: RepeatStatement) -> Tally
    decreases statement,
{
    Tally { repeat_count: 1, ..Tally::zero() }
        .plus(tally_block(statement.block))
        .plus(tally_expression(statement.condition))
}

/// How many nodes of each counted kind a visit of a while loop meets.
pub open spec fn tally_while_statement(statement: WhileStatement) -> Tally
    decreases statement,
{
    Tally { while_count: 1, ..Tally::zero() }
        .plus(tally_expression(statement.condition))
        .plus(tally_block(statement.block))
}

/// How many nodes of each counted kind a visit of a type declaration meets.
pub open spec fn tally_type_declaration(statement: TypeDeclarationStatement) -> Tally
    decreases statement,
{
    Tally { type_declaration_count: 1, ..Tally::zero() }.plus(
        match statement.generic_parameters {
            Some(inner) => tally_generic_parameters(inner.parameters),
            None => Tally::zero(),
        },
    ).plus(tally_type(statement.declared_type))
}

/// How many nodes of each counted kind a visit of a variable meets.
pub open spec fn tally_variable(variable: Variable) -> Tally
    decreases variable,
{
    match variable {
        Variable::Identifier(inner) => tally_identifier(inner),
        Variable::Field(inner) => tally_field_expression(*inner),
        Variable::Index(inner) => tally_index_expression(*inner),
    }
}

/// How many nodes of each counted kind a visit of an identifier meets.
pub open spec fn tally_identifier(identifier: Identifier) -> Tally
{
    Tally { variable_count: 1, ..Tally::zero() }
}

/// How many nodes of each counted kind a visit of an if expression meets.
pub open spec fn tally_if_expression(if_expression: IfExpression) -> Tally
    decreases if_expression,
{
    tally_expression(if_expression.condition)
        .plus(tally_expression(if_expression.result))
        .plus(tally_else_if_branches(if_expression.branches))
        .plus(tally_expression(if_expression.else_result))
}

/// How many nodes of each counted kind a visit of a field expression meets.
pub open spec fn tally_field_expression(field: FieldExpression) -> Tally
    decreases field,
{
    tally_prefix_expression(field.prefix)
}

/// How many nodes of each counted kind a visit of an index expression meets.
pub open spec fn tally_index_expression(index: IndexExpression) -> Tally
    decreases index,
{
    tally_prefix_expression(index.prefix).plus(tally_expression(index.index))
}

/// How many nodes of each counted kind a visit of a function call meets.
pub open spec fn tally_function_call(call: FunctionCall) -> Tally
    decreases call,
{
    Tally { function_call_count: 1, ..Tally::zero() }
        .plus(tally_prefix_expression(*call.prefix))
        .plus(tally_arguments(call.arguments))
}

/// How many nodes of each counted kind a visit of the arguments of a call meets.
pub open spec fn tally_arguments(arguments: Arguments) -> Tally
    decreases arguments,
{
    match arguments {
        Arguments::String(inner) => tally_string_expression(inner),
        Arguments::Table(inner) => tally_table(inner),
        Arguments::Tuple(inner) => tally_expressions(inner.values),
    }
}

/// How many nodes of each counted kind a visit of a table constructor meets.
pub open spec fn tally_table(table: TableExpression) -> Tally
    decreases table,
{
    tally_table_entries(table.entries)
}

/// How many nodes of each counted kind a visit of a prefix meets.
pub open spec fn tally_prefix_expression(prefix: Prefix) -> Tally
    decreases prefix,
{
    match prefix {
        Prefix::Call(inner) => tally_function_call(inner),
        Prefix::Field(inner) => tally_field_expression(*inner),
        Prefix::Identifier(inner) => tally_identifier(inner),
        Prefix::Index(inner) => tally_index_expression(*inner),
        Prefix::Parenthese(inner) => tally_parenthese_expression(inner),
    }
}

/// How many nodes of each counted kind a visit of a type meets.
pub open spec fn tally_type(annotation: Type) -> Tally
    decreases annotation,
{
    Tally { type_count: 1, ..Tally::zero() }.plus(
        match annotation {
            Type::Name(inner) => tally_type_name(inner),
            Type::Field(inner) => tally_type_field(*inner),
            Type::Array(inner) => tally_array_type(inner),
            Type::Table(inner) => tally_table_type(inner),
            Type::TypeOf(inner) => tally_expression_type(inner),
            Type::Parenthese(inner) => tally_parenthese_type(inner),
            Type::Function(inner) => tally_function_type(*inner),
            Type::Optional(inner) => tally_optional_type(inner),
            Type::Intersection(inner) => tally_intersection_type(inner),
            Type::Union(inner) => tally_union_type(inner),
            Type::String(inner) => tally_string_type(inner),
            _ => Tally::zero(),
        },
    )
}

/// How many nodes of each counted kind a visit of a named type meets.
pub open spec fn tally_type_name(name: TypeName) -> Tally
    decreases name,
{
    match name.type_parameters {
        Some(inner) => tally_type_parameters(inner.parameters),
        None => Tally::zero(),
    }
}

/// How many nodes of each counted kind a visit of a type read from a namespace meets.
pub open spec fn tally_type_field(type_field: TypeField) -> Tally
    decreases type_field,
{
    tally_type_name(type_field.name)
}

/// How many nodes of each counted kind a visit of an array type meets.
pub open spec fn tally_array_type(array: ArrayType) -> Tally
    decreases array,
{
    tally_type(*array.element_type)
}

/// How many nodes of each counted kind a visit of a table type meets.
pub open spec fn tally_table_type(table: TableType) -> Tally
    decreases table,
{
    tally_table_entry_types(table.entries)
}

/// How many nodes of each counted kind a visit of a `typeof` type meets.
pub open spec fn tally_expression_type(expression_type: ExpressionType) -> Tally
    decreases expression_type,
{
    tally_expression(*expression_type.expression)
}

/// How many nodes of each counted kind a visit of a parenthesized type meets.
pub open spec fn tally_parenthese_type(parenthese: ParentheseType) -> Tally
    decreases parenthese,
{
    tally_type(*parenthese.inner_type)
}

/// How many nodes of each counted kind a visit of a function type meets.
pub open spec fn tally_function_type(function: FunctionType) -> Tally
    decreases function,
{
    tally_function_argument_types(function.arguments).plus(
        match function.variadic_argument_type {
            Some(inner) => tally_variadic_argument_type(inner),
            None => Tally::zero(),
        },
    ).plus(tally_function_return_type(function.return_type))
}

/// How many nodes of each counted kind a visit of an optional type meets.
pub open spec fn tally_optional_type(optional: OptionalType) -> Tally
    decreases optional,
{
    tally_type(*optional.inner_type)
}

/// How many nodes of each counted kind a visit of an intersection type meets.
pub open spec fn tally_intersection_type(intersection: IntersectionType) -> Tally
    decreases intersection,
{
    tally_types(intersection.types)
}

/// How many nodes of each counted kind a visit of a union type meets.
pub open spec fn tally_union_type(union: UnionType) -> Tally
    decreases union,
{
    tally_types(union.types)
}

/// How many nodes of each counted kind a visit of a string type meets.
pub open spec fn tally_string_type(string: StringType) -> Tally
{
    Tally::zero()
}

/// How many nodes of each counted kind a visit of a type pack meets.
pub open spec fn tally_type_pack(type_pack: TypePack) -> Tally
    decreases type_pack,
{
    tally_types(type_pack.types).plus(
        match type_pack.variadic_type {
            Some(inner) => tally_variadic_argument_type(inner),
            None => Tally::zero(),
        },
    )
}

/// How many nodes of each counted kind a visit of a variadic type pack meets.
pub open spec fn tally_variadic_type_pack(variadic_type_pack: VariadicTypePack) -> Tally
    decreases variadic_type_pack,
{
    tally_type(*variadic_type_pack.inner_type)
}

/// How many nodes of each counted kind a visit of the variadic tail of a list of types
/// meets.
pub open spec fn tally_variadic_argument_type(variadic_type: VariadicArgumentType) -> Tally
    decreases variadic_type,
{
    match variadic_type {
        VariadicArgumentType::VariadicTypePack(inner) => tally_variadic_type_pack(inner),
        VariadicArgumentType::GenericTypePack(inner) => tally_generic_type_pack(inner),
    }
}

/// How many nodes of each counted kind a visit of what a function returns meets.
pub open spec fn tally_function_return_type(return_type: FunctionReturnType) -> Tally
    decreases return_type,
{
    match return_type {
        FunctionReturnType::Type(inner) => tally_type(*inner),
        FunctionReturnType::TypePack(inner) => tally_type_pack(inner),
        FunctionReturnType::VariadicTypePack(inner) => tally_variadic_type_pack(inner),
        FunctionReturnType::GenericTypePack(inner) => tally_generic_type_pack(inner),
    }
}

/// How many nodes of each counted kind a visit of the annotation of a typed identifier
/// meets.
pub open spec fn tally_typed_identifier(identifier: TypedIdentifier) -> Tally
    decreases identifier,
{
    match identifier.annotation {
        Some(inner) => tally_type(inner),
        None => Tally::zero(),
    }
}

/// How many nodes of each counted kind a visit of a branch of an if statement meets.
pub open spec fn tally_if_branch(branch: IfBranch) -> Tally
    decreases branch,
{
    tally_expression(branch.condition).plus(tally_block(branch.block))
}

/// How many nodes of each counted kind a visit of an `elseif` branch of an if
/// expression meets.
pub open spec fn tally_else_if_branch(branch: ElseIfExpressionBranch) -> Tally
    decreases branch,
{
    tally_expression(branch.condition).plus(tally_expression(branch.result))
}

/// How many nodes of each counted kind a visit of a piece of an interpolated string
/// meets.
pub open spec fn tally_segment(segment: InterpolationSegment) -> Tally
    decreases segment,
{
    match segment {
        InterpolationSegment::Value(inner) => tally_expression(inner.value),
        _ => Tally::zero(),
    }
}

/// How many nodes of each counted kind a visit of an entry of a table constructor
/// meets.
pub open spec fn tally_table_entry(entry: TableEntry) -> Tally
    decreases entry,
{
    match entry {
        TableEntry::Field(inner) => tally_expression(inner.value),
        TableEntry::Index(inner) => tally_expression(inner.key).plus(tally_expression(inner.value)),
        TableEntry::Value(inner) => tally_expression(inner),
    }
}

/// How many nodes of each counted kind a visit of a parameter given to a named type
/// meets.
pub open spec fn tally_type_parameter(parameter: TypeParameter) -> Tally
    decreases parameter,
{
    match parameter {
        TypeParameter::Type(inner) => tally_type(inner),
        TypeParameter::TypePack(inner) => tally_type_pack(inner),
        TypeParameter::VariadicTypePack(inner) => tally_variadic_type_pack(inner),
        TypeParameter::GenericTypePack(inner) => tally_generic_type_pack(inner),
    }
}

/// How many nodes of each counted kind a visit of an entry of a table type meets.
pub open spec fn tally_table_entry_type(entry: TableEntryType) -> Tally
    decreases entry,
{
    match entry {
        TableEntryType::Property(inner) => tally_type(inner.property_type),
        TableEntryType::Literal(inner) => tally_string_type(inner.string)
            .plus(tally_type(inner.property_type)),
        TableEntryType::Indexer(inner) => tally_type(inner.key_type)
            .plus(tally_type(inner.value_type)),
    }
}

/// How many nodes of each counted kind a visit of the type of an argument meets.
pub open spec fn tally_function_argument_type(argument: FunctionArgumentType) -> Tally
    decreases argument,
{
    tally_type(argument.argument_type)
}

/// How many nodes of each counted kind a visit of a generic parameter of a type
/// declaration meets.
pub open spec fn tally_generic_parameter(parameter: GenericParameter) -> Tally
    decreases parameter,
{
    match parameter {
        GenericParameter::TypeVariableWithDefault(inner) => tally_type(inner.default_type),
        GenericParameter::GenericTypePack(inner) => tally_generic_type_pack(inner),
        GenericParameter::GenericTypePackWithDefault(inner) => {
            tally_generic_type_pack(inner.generic_type_pack).plus(tally_generic_type_pack_default(inner.default_type))
        },
        _ => Tally::zero(),
    }
}

/// How many nodes of each counted kind a visit of what a generic type pack defaults to
/// meets.
pub open spec fn tally_generic_type_pack_default(default_type: GenericTypePackDefault) -> Tally
    decreases default_type,
{
    match default_type {
        GenericTypePackDefault::TypePack(inner) => tally_type_pack(inner),
        GenericTypePackDefault::VariadicTypePack(inner) => tally_variadic_type_pack(inner),
        GenericTypePackDefault::GenericTypePack(inner) => tally_generic_type_pack(inner),
    }
}

/// How many nodes of each counted kind a visit of a list of statements meets.
pub open spec fn tally_statements(list: NodeList<Statement>) -> Tally
    decreases list,
{
    match list {
        NodeList::Empty => Tally::zero(),
        NodeList::Cell(cell) => tally_statement(cell.head).plus(tally_statements(cell.tail)),
    }
}

/// How many nodes of each counted kind a visit of a list of expressions meets.
pub open spec fn tally_expressions(list: NodeList<Expression>) -> Tally
    decreases list,
{
    match list {
        NodeList::Empty => Tally::zero(),
        NodeList::Cell(cell) => tally_expression(cell.head).plus(tally_expressions(cell.tail)),
    }
}

/// How many nodes of each counted kind a visit of a list of variables meets.
pub open spec fn tally_variables(list: NodeList<Variable>) -> Tally
    decreases list,
{
    match list {
        NodeList::Empty => Tally::zero(),
        NodeList::Cell(cell) => tally_variable(cell.head).plus(tally_variables(cell.tail)),
    }
}

/// How many nodes of each counted kind a visit of a list of typed identifiers meets.
pub open spec fn tally_typed_identifiers(list: NodeList<TypedIdentifier>) -> Tally
    decreases list,
{
    match list {
        NodeList::Empty => Tally::zero(),
        NodeList::Cell(cell) => tally_typed_identifier(cell.head)
            .plus(tally_typed_identifiers(cell.tail)),
    }
}

/// How many nodes of each counted kind a visit of a list of if branches meets.
pub open spec fn tally_if_branches(list: NodeList<IfBranch>) -> Tally
    decreases list,
{
    match list {
        NodeList::Empty => Tally::zero(),
        NodeList::Cell(cell) => tally_if_branch(cell.head).plus(tally_if_branches(cell.tail)),
    }
}

/// How many nodes of each counted kind a visit of a list of else if branches meets.
pub open spec fn tally_else_if_branches(list: NodeList<ElseIfExpressionBranch>) -> Tally
    decreases list,
{
    match list {
        NodeList::Empty => Tally::zero(),
        NodeList::Cell(cell) => tally_else_if_branch(cell.head)
            .plus(tally_else_if_branches(cell.tail)),
    }
}

/// How many nodes of each counted kind a visit of a list of segments meets.
pub open spec fn tally_segments(list: NodeList<InterpolationSegment>) -> Tally
    decreases list,
{
    match list {
        NodeList::Empty => Tally::zero(),
        NodeList::Cell(cell) => tally_segment(cell.head).plus(tally_segments(cell.tail)),
    }
}

/// How many nodes of each counted kind a visit of a list of table entries meets.
pub open spec fn tally_table_entries(list: NodeList<TableEntry>) -> Tally
    decreases list,
{
    match list {
        NodeList::Empty => Tally::zero(),
        NodeList::Cell(cell) => tally_table_entry(cell.head).plus(tally_table_entries(cell.tail)),
    }
}

/// How many nodes of each counted kind a visit of a list of types meets.
pub open spec fn tally_types(list: NodeList<Type>) -> Tally
    decreases list,
{
    match list {
        NodeList::Empty => Tally::zero(),
        NodeList::Cell(cell) => tally_type(cell.head).plus(tally_types(cell.tail)),
    }
}

/// How many nodes of each counted kind a visit of a list of type parameters meets.
pub open spec fn tally_type_parameters(list: NodeList<TypeParameter>) -> Tally
    decreases list,
{
    match list {
        NodeList::Empty => Tally::zero(),
        NodeList::Cell(cell) => tally_type_parameter(cell.head)
            .plus(tally_type_parameters(cell.tail)),
    }
}

/// How many nodes of each counted kind a visit of a list of table entry types meets.
pub open spec fn tally_table_entry_types(list: NodeList<TableEntryType>) -> Tally
    decreases list,
{
    match list {
        NodeList::Empty => Tally::zero(),
        NodeList::Cell(cell) => tally_table_entry_type(cell.head)
            .plus(tally_table_entry_types(cell.tail)),
    }
}

/// How many nodes of each counted kind a visit of a list of function argument types
/// meets.
pub open spec fn tally_function_argument_types(list: NodeList<FunctionArgumentType>) -> Tally
    decreases list,
{
    match list {
        NodeList::Empty => Tally::zero(),
        NodeList::Cell(cell) => tally_function_argument_type(cell.head)
            .plus(tally_function_argument_types(cell.tail)),
    }
}

/// How many nodes of each counted kind a visit of a list of generic parameters meets.
pub open spec fn tally_generic_parameters(list: NodeList<GenericParameter>) -> Tally
    decreases list,
{
    match list {
        NodeList::Empty => Tally::zero(),
        NodeList::Cell(cell) => tally_generic_parameter(cell.head)
            .plus(tally_generic_parameters(cell.tail)),
    }
}

} // verus!
