use crate::nodes::{
    ArrayType, AssignStatement, BinaryExpression, Block, CompoundAssignStatement, DoStatement,
    ExportTypeFunctionStatement, Expression, ExpressionType, FieldExpression, FunctionCall,
    FunctionExpression, FunctionStatement, FunctionType, GenericForStatement, GenericTypePack,
    Identifier, IfExpression, IfStatement, IndexExpression, InterpolatedStringExpression,
    IntersectionType, LastStatement, LocalAssignStatement, LocalFunctionStatement, NumberExpression,
    NumericForStatement, OptionalType, ParentheseExpression, ParentheseType, Prefix,
    RepeatStatement, Statement, StringExpression, StringType, TableExpression, TableType, Type,
    TypeCastExpression, TypeDeclarationStatement, TypeField, TypeFunctionStatement, TypeName,
    TypePack, UnaryExpression, UnionType, Variable, VariadicTypePack, WhileStatement,
};
use vstd::prelude::*;

verus! {

/// What a pass does at each node of a tree.
///
/// The traversal hands every node to the callback of its kind, on the way down: a
/// callback sees its node before anything under the node is visited, and what it leaves
/// in the node is what the traversal goes on with. A callback may rewrite its node
/// freely, as long as the node does not get deeper: that bound is what makes a
/// traversal end on every tree.
///
/// Each callback `process_x` has a model `on_x`: the processor and the node that the
/// callback leaves, as a function of the processor and the node it was given. The
/// models default to leaving both as they are. A processor overrides the models of the
/// callbacks that do something, and proves in `callbacks_keep_depth` that none of them
/// deepens its node.
pub trait NodeProcessor: Sized {
    /// The processor and the node that `process_block` leaves.
    open spec fn on_block(self, block: Block) -> (Self, Block) {
        (self, block)
    }

    /// The processor and the node that `process_statement` leaves.
    open spec fn on_statement(self, statement: Statement) -> (Self, Statement) {
        (self, statement)
    }

    /// The processor and the node that `process_function_call` leaves.
    open spec fn on_function_call(self, call: FunctionCall) -> (Self, FunctionCall) {
        (self, call)
    }

    /// The processor and the node that `process_assign_statement` leaves.
    open spec fn on_assign_statement(self, statement: AssignStatement) -> (Self, AssignStatement) {
        (self, statement)
    }

    /// The processor and the node that `process_compound_assign_statement` leaves.
    open spec fn on_compound_assign_statement(
        self,
        statement: CompoundAssignStatement) -> (Self, CompoundAssignStatement,
    ) {
        (self, statement)
    }

    /// The processor and the node that `process_do_statement` leaves.
    open spec fn on_do_statement(self, statement: DoStatement) -> (Self, DoStatement) {
        (self, statement)
    }

    /// The processor and the node that `process_function_statement` leaves.
    open spec fn on_function_statement(
        self,
        statement: FunctionStatement) -> (Self, FunctionStatement,
    ) {
        (self, statement)
    }

    /// The processor and the node that `process_generic_for_statement` leaves.
    open spec fn on_generic_for_statement(
        self,
        statement: GenericForStatement) -> (Self, GenericForStatement,
    ) {
        (self, statement)
    }

    /// The processor and the node that `process_if_statement` leaves.
    open spec fn on_if_statement(self, statement: IfStatement) -> (Self, IfStatement) {
        (self, statement)
    }

    /// The processor and the node that `process_last_statement` leaves.
    open spec fn on_last_statement(self, last_statement: LastStatement) -> (Self, LastStatement) {
        (self, last_statement)
    }

    /// The processor and the node that `process_local_assign_statement` leaves.
    open spec fn on_local_assign_statement(
        self,
        statement: LocalAssignStatement) -> (Self, LocalAssignStatement,
    ) {
        (self, statement)
    }

    /// The processor and the node that `process_local_function_statement` leaves.
    open spec fn on_local_function_statement(
        self,
        statement: LocalFunctionStatement) -> (Self, LocalFunctionStatement,
    ) {
        (self, statement)
    }

    /// The processor and the node that `process_numeric_for_statement` leaves.
    open spec fn on_numeric_for_statement(
        self,
        statement: NumericForStatement) -> (Self, NumericForStatement,
    ) {
        (self, statement)
    }

    /// The processor and the node that `process_repeat_statement` leaves.
    open spec fn on_repeat_statement(self, statement: RepeatStatement) -> (Self, RepeatStatement) {
        (self, statement)
    }

    /// The processor and the node that `process_while_statement` leaves.
    open spec fn on_while_statement(self, statement: WhileStatement) -> (Self, WhileStatement) {
        (self, statement)
    }

    /// The processor and the node that `process_type_declaration` leaves.
    open spec fn on_type_declaration(
        self,
        statement: TypeDeclarationStatement) -> (Self, TypeDeclarationStatement,
    ) {
        (self, statement)
    }

    /// The processor and the node that `process_type_function_statement` leaves.
    open spec fn on_type_function_statement(
        self,
        statement: TypeFunctionStatement) -> (Self, TypeFunctionStatement,
    ) {
        (self, statement)
    }

    /// The processor and the node that `process_export_type_function_statement` leaves.
    open spec fn on_export_type_function_statement(
        self,
        statement: ExportTypeFunctionStatement) -> (Self, ExportTypeFunctionStatement,
    ) {
        (self, statement)
    }

    /// The processor and the node that `process_variable` leaves.
    open spec fn on_variable(self, variable: Variable) -> (Self, Variable) {
        (self, variable)
    }

    /// The processor and the node that `process_expression` leaves.
    open spec fn on_expression(self, expression: Expression) -> (Self, Expression) {
        (self, expression)
    }

    /// The processor and the node that `process_binary_expression` leaves.
    open spec fn on_binary_expression(self, binary: BinaryExpression) -> (Self, BinaryExpression) {
        (self, binary)
    }

    /// The processor and the node that `process_field_expression` leaves.
    open spec fn on_field_expression(self, field: FieldExpression) -> (Self, FieldExpression) {
        (self, field)
    }

    /// The processor and the node that `process_function_expression` leaves.
    open spec fn on_function_expression(
        self,
        function: FunctionExpression) -> (Self, FunctionExpression,
    ) {
        (self, function)
    }

    /// The processor and the node that `process_if_expression` leaves.
    open spec fn on_if_expression(self, if_expression: IfExpression) -> (Self, IfExpression) {
        (self, if_expression)
    }

    /// The processor and the node that `process_variable_expression` leaves.
    open spec fn on_variable_expression(self, identifier: Identifier) -> (Self, Identifier) {
        (self, identifier)
    }

    /// The processor and the node that `process_index_expression` leaves.
    open spec fn on_index_expression(self, index: IndexExpression) -> (Self, IndexExpression) {
        (self, index)
    }

    /// The processor and the node that `process_number_expression` leaves.
    open spec fn on_number_expression(self, number: NumberExpression) -> (Self, NumberExpression) {
        (self, number)
    }

    /// The processor and the node that `process_prefix_expression` leaves.
    open spec fn on_prefix_expression(self, prefix: Prefix) -> (Self, Prefix) {
        (self, prefix)
    }

    /// The processor and the node that `process_parenthese_expression` leaves.
    open spec fn on_parenthese_expression(
        self,
        parenthese: ParentheseExpression) -> (Self, ParentheseExpression,
    ) {
        (self, parenthese)
    }

    /// The processor and the node that `process_string_expression` leaves.
    open spec fn on_string_expression(self, string: StringExpression) -> (Self, StringExpression) {
        (self, string)
    }

    /// The processor and the node that `process_interpolated_string_expression` leaves.
    open spec fn on_interpolated_string_expression(
        self,
        interpolated_string: InterpolatedStringExpression) -> (Self, InterpolatedStringExpression,
    ) {
        (self, interpolated_string)
    }

    /// The processor and the node that `process_table_expression` leaves.
    open spec fn on_table_expression(self, table: TableExpression) -> (Self, TableExpression) {
        (self, table)
    }

    /// The processor and the node that `process_unary_expression` leaves.
    open spec fn on_unary_expression(self, unary: UnaryExpression) -> (Self, UnaryExpression) {
        (self, unary)
    }

    /// The processor and the node that `process_type_cast_expression` leaves.
    open spec fn on_type_cast_expression(
        self,
        type_cast: TypeCastExpression) -> (Self, TypeCastExpression,
    ) {
        (self, type_cast)
    }

    /// The processor and the node that `process_type` leaves.
    open spec fn on_type(self, annotation: Type) -> (Self, Type) {
        (self, annotation)
    }

    /// The processor and the node that `process_type_name` leaves.
    open spec fn on_type_name(self, name: TypeName) -> (Self, TypeName) {
        (self, name)
    }

    /// The processor and the node that `process_type_field` leaves.
    open spec fn on_type_field(self, type_field: TypeField) -> (Self, TypeField) {
        (self, type_field)
    }

    /// The processor and the node that `process_array_type` leaves.
    open spec fn on_array_type(self, array: ArrayType) -> (Self, ArrayType) {
        (self, array)
    }

    /// The processor and the node that `process_table_type` leaves.
    open spec fn on_table_type(self, table: TableType) -> (Self, TableType) {
        (self, table)
    }

    /// The processor and the node that `process_expression_type` leaves.
    open spec fn on_expression_type(
        self,
        expression_type: ExpressionType) -> (Self, ExpressionType,
    ) {
        (self, expression_type)
    }

    /// The processor and the node that `process_parenthese_type` leaves.
    open spec fn on_parenthese_type(self, parenthese: ParentheseType) -> (Self, ParentheseType) {
        (self, parenthese)
    }

    /// The processor and the node that `process_function_type` leaves.
    open spec fn on_function_type(self, function: FunctionType) -> (Self, FunctionType) {
        (self, function)
    }

    /// The processor and the node that `process_optional_type` leaves.
    open spec fn on_optional_type(self, optional: OptionalType) -> (Self, OptionalType) {
        (self, optional)
    }

    /// The processor and the node that `process_intersection_type` leaves.
    open spec fn on_intersection_type(
        self,
        intersection: IntersectionType) -> (Self, IntersectionType,
    ) {
        (self, intersection)
    }

    /// The processor and the node that `process_union_type` leaves.
    open spec fn on_union_type(self, union: UnionType) -> (Self, UnionType) {
        (self, union)
    }

    /// The processor and the node that `process_string_type` leaves.
    open spec fn on_string_type(self, string: StringType) -> (Self, StringType) {
        (self, string)
    }

    /// The processor and the node that `process_type_pack` leaves.
    open spec fn on_type_pack(self, type_pack: TypePack) -> (Self, TypePack) {
        (self, type_pack)
    }

    /// The processor and the node that `process_generic_type_pack` leaves.
    open spec fn on_generic_type_pack(self, generic: GenericTypePack) -> (Self, GenericTypePack) {
        (self, generic)
    }

    /// The processor and the node that `process_variadic_type_pack` leaves.
    open spec fn on_variadic_type_pack(
        self,
        variadic_type_pack: VariadicTypePack) -> (Self, VariadicTypePack,
    ) {
        (self, variadic_type_pack)
    }

    /// The processor and the block that `process_scope` leaves for a block that opens a
    /// scope of its own.
    open spec fn on_scope(self, block: Block) -> (Self, Block) {
        (self, block)
    }

    /// The processor, the block and the condition that `process_scope` leaves for the
    /// block of a repeat loop, whose condition reads the scope of the block.
    open spec fn on_repeat_scope(self, block: Block, condition: Expression) -> (
        Self,
        Block,
        Expression,
    ) {
        (self, block, condition)
    }

    /// No callback leaves a node deeper than it found it.
    proof fn callbacks_keep_depth()
        ensures
            forall|p: Self, node: Block| (#[trigger] p.on_block(node)).1.depth() <= node.depth(),
            forall|p: Self, node: Statement|
                (#[trigger] p.on_statement(node)).1.depth() <= node.depth(),
            forall|p: Self, node: FunctionCall|
                (#[trigger] p.on_function_call(node)).1.depth() <= node.depth(),
            forall|p: Self, node: AssignStatement|
                (#[trigger] p.on_assign_statement(node)).1.depth() <= node.depth(),
            forall|p: Self, node: CompoundAssignStatement|
                (#[trigger] p.on_compound_assign_statement(node)).1.depth() <= node.depth(),
            forall|p: Self, node: DoStatement|
                (#[trigger] p.on_do_statement(node)).1.depth() <= node.depth(),
            forall|p: Self, node: FunctionStatement|
                (#[trigger] p.on_function_statement(node)).1.depth() <= node.depth(),
            forall|p: Self, node: GenericForStatement|
                (#[trigger] p.on_generic_for_statement(node)).1.depth() <= node.depth(),
            forall|p: Self, node: IfStatement|
                (#[trigger] p.on_if_statement(node)).1.depth() <= node.depth(),
            forall|p: Self, node: LastStatement|
                (#[trigger] p.on_last_statement(node)).1.depth() <= node.depth(),
            forall|p: Self, node: LocalAssignStatement|
                (#[trigger] p.on_local_assign_statement(node)).1.depth() <= node.depth(),
            forall|p: Self, node: LocalFunctionStatement|
                (#[trigger] p.on_local_function_statement(node)).1.depth() <= node.depth(),
            forall|p: Self, node: NumericForStatement|
                (#[trigger] p.on_numeric_for_statement(node)).1.depth() <= node.depth(),
            forall|p: Self, node: RepeatStatement|
                (#[trigger] p.on_repeat_statement(node)).1.depth() <= node.depth(),
            forall|p: Self, node: WhileStatement|
                (#[trigger] p.on_while_statement(node)).1.depth() <= node.depth(),
            forall|p: Self, node: TypeDeclarationStatement|
                (#[trigger] p.on_type_declaration(node)).1.depth() <= node.depth(),
            forall|p: Self, node: TypeFunctionStatement|
                (#[trigger] p.on_type_function_statement(node)).1.depth() <= node.depth(),
            forall|p: Self, node: ExportTypeFunctionStatement|
                (#[trigger] p.on_export_type_function_statement(node)).1.depth() <= node.depth(),
            forall|p: Self, node: Variable|
                (#[trigger] p.on_variable(node)).1.depth() <= node.depth(),
            forall|p: Self, node: Expression|
                (#[trigger] p.on_expression(node)).1.depth() <= node.depth(),
            forall|p: Self, node: BinaryExpression|
                (#[trigger] p.on_binary_expression(node)).1.depth() <= node.depth(),
            forall|p: Self, node: FieldExpression|
                (#[trigger] p.on_field_expression(node)).1.depth() <= node.depth(),
            forall|p: Self, node: FunctionExpression|
                (#[trigger] p.on_function_expression(node)).1.depth() <= node.depth(),
            forall|p: Self, node: IfExpression|
                (#[trigger] p.on_if_expression(node)).1.depth() <= node.depth(),
            forall|p: Self, node: IndexExpression|
                (#[trigger] p.on_index_expression(node)).1.depth() <= node.depth(),
            forall|p: Self, node: Prefix|
                (#[trigger] p.on_prefix_expression(node)).1.depth() <= node.depth(),
            forall|p: Self, node: ParentheseExpression|
                (#[trigger] p.on_parenthese_expression(node)).1.depth() <= node.depth(),
            forall|p: Self, node: InterpolatedStringExpression|
                (#[trigger] p.on_interpolated_string_expression(node)).1.depth() <= node.depth(),
            forall|p: Self, node: TableExpression|
                (#[trigger] p.on_table_expression(node)).1.depth() <= node.depth(),
            forall|p: Self, node: UnaryExpression|
                (#[trigger] p.on_unary_expression(node)).1.depth() <= node.depth(),
            forall|p: Self, node: TypeCastExpression|
                (#[trigger] p.on_type_cast_expression(node)).1.depth() <= node.depth(),
            forall|p: Self, node: Type| (#[trigger] p.on_type(node)).1.depth() <= node.depth(),
            forall|p: Self, node: TypeName|
                (#[trigger] p.on_type_name(node)).1.depth() <= node.depth(),
            forall|p: Self, node: TypeField|
                (#[trigger] p.on_type_field(node)).1.depth() <= node.depth(),
            forall|p: Self, node: ArrayType|
                (#[trigger] p.on_array_type(node)).1.depth() <= node.depth(),
            forall|p: Self, node: TableType|
                (#[trigger] p.on_table_type(node)).1.depth() <= node.depth(),
            forall|p: Self, node: ExpressionType|
                (#[trigger] p.on_expression_type(node)).1.depth() <= node.depth(),
            forall|p: Self, node: ParentheseType|
                (#[trigger] p.on_parenthese_type(node)).1.depth() <= node.depth(),
            forall|p: Self, node: FunctionType|
                (#[trigger] p.on_function_type(node)).1.depth() <= node.depth(),
            forall|p: Self, node: OptionalType|
                (#[trigger] p.on_optional_type(node)).1.depth() <= node.depth(),
            forall|p: Self, node: IntersectionType|
                (#[trigger] p.on_intersection_type(node)).1.depth() <= node.depth(),
            forall|p: Self, node: UnionType|
                (#[trigger] p.on_union_type(node)).1.depth() <= node.depth(),
            forall|p: Self, node: TypePack|
                (#[trigger] p.on_type_pack(node)).1.depth() <= node.depth(),
            forall|p: Self, node: VariadicTypePack|
                (#[trigger] p.on_variadic_type_pack(node)).1.depth() <= node.depth(),
            forall|p: Self, block: Block| (#[trigger] p.on_scope(block)).1.depth() <= block.depth(),
            forall|p: Self, block: Block, condition: Expression|
                {
                    &&& (#[trigger] p.on_repeat_scope(block, condition)).1.depth() <= block.depth()
                    &&& p.on_repeat_scope(block, condition).2.depth() <= condition.depth()
                },
    ;

    /// Called for a block, before anything under it is visited.
    fn process_block(&mut self, block: &mut Block)
        ensures
            (*final(self), *final(block)) == old(self).on_block(*old(block)),
    ;

    /// Called for a statement, before anything under it is visited.
    fn process_statement(&mut self, statement: &mut Statement)
        ensures
            (*final(self), *final(statement)) == old(self).on_statement(*old(statement)),
    ;

    /// Called for a function call, before anything under it is visited.
    fn process_function_call(&mut self, call: &mut FunctionCall)
        ensures
            (*final(self), *final(call)) == old(self).on_function_call(*old(call)),
    ;

    /// Called for an assignment, before anything under it is visited.
    fn process_assign_statement(&mut self, statement: &mut AssignStatement)
        ensures
            (*final(self), *final(statement)) == old(self).on_assign_statement(*old(statement)),
    ;

    /// Called for a compound assignment, before anything under it is visited.
    fn process_compound_assign_statement(&mut self, statement: &mut CompoundAssignStatement)
        ensures
            (*final(self), *final(statement))
                == old(self).on_compound_assign_statement(*old(statement)),
    ;

    /// Called for a do statement, before anything under it is visited.
    fn process_do_statement(&mut self, statement: &mut DoStatement)
        ensures
            (*final(self), *final(statement)) == old(self).on_do_statement(*old(statement)),
    ;

    /// Called for a function statement, before anything under it is visited.
    fn process_function_statement(&mut self, statement: &mut FunctionStatement)
        ensures
            (*final(self), *final(statement)) == old(self).on_function_statement(*old(statement)),
    ;

    /// Called for a generic for loop, before anything under it is visited.
    fn process_generic_for_statement(&mut self, statement: &mut GenericForStatement)
        ensures
            (*final(self), *final(statement))
                == old(self).on_generic_for_statement(*old(statement)),
    ;

    /// Called for an if statement, before anything under it is visited.
    fn process_if_statement(&mut self, statement: &mut IfStatement)
        ensures
            (*final(self), *final(statement)) == old(self).on_if_statement(*old(statement)),
    ;

    /// Called for the statement that closes a block, before anything under it is
    /// visited.
    fn process_last_statement(&mut self, last_statement: &mut LastStatement)
        ensures
            (*final(self), *final(last_statement))
                == old(self).on_last_statement(*old(last_statement)),
    ;

    /// Called for a local assignment, before anything under it is visited.
    fn process_local_assign_statement(&mut self, statement: &mut LocalAssignStatement)
        ensures
            (*final(self), *final(statement))
                == old(self).on_local_assign_statement(*old(statement)),
    ;

    /// Called for a local function, before anything under it is visited.
    fn process_local_function_statement(&mut self, statement: &mut LocalFunctionStatement)
        ensures
            (*final(self), *final(statement))
                == old(self).on_local_function_statement(*old(statement)),
    ;

    /// Called for a numeric for loop, before anything under it is visited.
    fn process_numeric_for_statement(&mut self, statement: &mut NumericForStatement)
        ensures
            (*final(self), *final(statement))
                == old(self).on_numeric_for_statement(*old(statement)),
    ;

    /// Called for a repeat loop, before anything under it is visited.
    fn process_repeat_statement(&mut self, statement: &mut RepeatStatement)
        ensures
            (*final(self), *final(statement)) == old(self).on_repeat_statement(*old(statement)),
    ;

    /// Called for a while loop, before anything under it is visited.
    fn process_while_statement(&mut self, statement: &mut WhileStatement)
        ensures
            (*final(self), *final(statement)) == old(self).on_while_statement(*old(statement)),
    ;

    /// Called for a type declaration, before anything under it is visited.
    fn process_type_declaration(&mut self, statement: &mut TypeDeclarationStatement)
        ensures
            (*final(self), *final(statement)) == old(self).on_type_declaration(*old(statement)),
    ;

    /// Called for a type function, before anything under it is visited.
    fn process_type_function_statement(&mut self, statement: &mut TypeFunctionStatement)
        ensures
            (*final(self), *final(statement))
                == old(self).on_type_function_statement(*old(statement)),
    ;

    /// Called for an exported type function, before anything under it is visited.
    fn process_export_type_function_statement(
        &mut self,
        statement: &mut ExportTypeFunctionStatement,
    )
        ensures
            (*final(self), *final(statement))
                == old(self).on_export_type_function_statement(*old(statement)),
    ;

    /// Called for a variable, before anything under it is visited.
    fn process_variable(&mut self, variable: &mut Variable)
        ensures
            (*final(self), *final(variable)) == old(self).on_variable(*old(variable)),
    ;

    /// Called for an expression, before anything under it is visited.
    fn process_expression(&mut self, expression: &mut Expression)
        ensures
            (*final(self), *final(expression)) == old(self).on_expression(*old(expression)),
    ;

    /// Called for a binary expression, before anything under it is visited.
    fn process_binary_expression(&mut self, binary: &mut BinaryExpression)
        ensures
            (*final(self), *final(binary)) == old(self).on_binary_expression(*old(binary)),
    ;

    /// Called for a field expression, before anything under it is visited.
    fn process_field_expression(&mut self, field: &mut FieldExpression)
        ensures
            (*final(self), *final(field)) == old(self).on_field_expression(*old(field)),
    ;

    /// Called for an anonymous function, before anything under it is visited.
    fn process_function_expression(&mut self, function: &mut FunctionExpression)
        ensures
            (*final(self), *final(function)) == old(self).on_function_expression(*old(function)),
    ;

    /// Called for an if expression, before anything under it is visited.
    fn process_if_expression(&mut self, if_expression: &mut IfExpression)
        ensures
            (*final(self), *final(if_expression))
                == old(self).on_if_expression(*old(if_expression)),
    ;

    /// Called for an identifier, before anything under it is visited.
    fn process_variable_expression(&mut self, identifier: &mut Identifier)
        ensures
            (*final(self), *final(identifier))
                == old(self).on_variable_expression(*old(identifier)),
    ;

    /// Called for an index expression, before anything under it is visited.
    fn process_index_expression(&mut self, index: &mut IndexExpression)
        ensures
            (*final(self), *final(index)) == old(self).on_index_expression(*old(index)),
    ;

    /// Called for a number, before anything under it is visited.
    fn process_number_expression(&mut self, number: &mut NumberExpression)
        ensures
            (*final(self), *final(number)) == old(self).on_number_expression(*old(number)),
    ;

    /// Called for a prefix, before anything under it is visited.
    fn process_prefix_expression(&mut self, prefix: &mut Prefix)
        ensures
            (*final(self), *final(prefix)) == old(self).on_prefix_expression(*old(prefix)),
    ;

    /// Called for a parenthesized expression, before anything under it is visited.
    fn process_parenthese_expression(&mut self, parenthese: &mut ParentheseExpression)
        ensures
            (*final(self), *final(parenthese))
                == old(self).on_parenthese_expression(*old(parenthese)),
    ;

    /// Called for a string, before anything under it is visited.
    fn process_string_expression(&mut self, string: &mut StringExpression)
        ensures
            (*final(self), *final(string)) == old(self).on_string_expression(*old(string)),
    ;

    /// Called for an interpolated string, before anything under it is visited.
    fn process_interpolated_string_expression(
        &mut self,
        interpolated_string: &mut InterpolatedStringExpression,
    )
        ensures
            (*final(self), *final(interpolated_string))
                == old(self).on_interpolated_string_expression(*old(interpolated_string)),
    ;

    /// Called for a table constructor, before anything under it is visited.
    fn process_table_expression(&mut self, table: &mut TableExpression)
        ensures
            (*final(self), *final(table)) == old(self).on_table_expression(*old(table)),
    ;

    /// Called for a unary expression, before anything under it is visited.
    fn process_unary_expression(&mut self, unary: &mut UnaryExpression)
        ensures
            (*final(self), *final(unary)) == old(self).on_unary_expression(*old(unary)),
    ;

    /// Called for a type cast, before anything under it is visited.
    fn process_type_cast_expression(&mut self, type_cast: &mut TypeCastExpression)
        ensures
            (*final(self), *final(type_cast)) == old(self).on_type_cast_expression(*old(type_cast)),
    ;

    /// Called for a type, before anything under it is visited.
    fn process_type(&mut self, annotation: &mut Type)
        ensures
            (*final(self), *final(annotation)) == old(self).on_type(*old(annotation)),
    ;

    /// Called for a named type, before anything under it is visited.
    fn process_type_name(&mut self, name: &mut TypeName)
        ensures
            (*final(self), *final(name)) == old(self).on_type_name(*old(name)),
    ;

    /// Called for a type read from a namespace, before anything under it is visited.
    fn process_type_field(&mut self, type_field: &mut TypeField)
        ensures
            (*final(self), *final(type_field)) == old(self).on_type_field(*old(type_field)),
    ;

    /// Called for an array type, before anything under it is visited.
    fn process_array_type(&mut self, array: &mut ArrayType)
        ensures
            (*final(self), *final(array)) == old(self).on_array_type(*old(array)),
    ;

    /// Called for a table type, before anything under it is visited.
    fn process_table_type(&mut self, table: &mut TableType)
        ensures
            (*final(self), *final(table)) == old(self).on_table_type(*old(table)),
    ;

    /// Called for a `typeof` type, before anything under it is visited.
    fn process_expression_type(&mut self, expression_type: &mut ExpressionType)
        ensures
            (*final(self), *final(expression_type))
                == old(self).on_expression_type(*old(expression_type)),
    ;

    /// Called for a parenthesized type, before anything under it is visited.
    fn process_parenthese_type(&mut self, parenthese: &mut ParentheseType)
        ensures
            (*final(self), *final(parenthese)) == old(self).on_parenthese_type(*old(parenthese)),
    ;

    /// Called for a function type, before anything under it is visited.
    fn process_function_type(&mut self, function: &mut FunctionType)
        ensures
            (*final(self), *final(function)) == old(self).on_function_type(*old(function)),
    ;

    /// Called for an optional type, before anything under it is visited.
    fn process_optional_type(&mut self, optional: &mut OptionalType)
        ensures
            (*final(self), *final(optional)) == old(self).on_optional_type(*old(optional)),
    ;

    /// Called for an intersection type, before anything under it is visited.
    fn process_intersection_type(&mut self, intersection: &mut IntersectionType)
        ensures
            (*final(self), *final(intersection))
                == old(self).on_intersection_type(*old(intersection)),
    ;

    /// Called for a union type, before anything under it is visited.
    fn process_union_type(&mut self, union: &mut UnionType)
        ensures
            (*final(self), *final(union)) == old(self).on_union_type(*old(union)),
    ;

    /// Called for a string type, before anything under it is visited.
    fn process_string_type(&mut self, string: &mut StringType)
        ensures
            (*final(self), *final(string)) == old(self).on_string_type(*old(string)),
    ;

    /// Called for a type pack, before anything under it is visited.
    fn process_type_pack(&mut self, type_pack: &mut TypePack)
        ensures
            (*final(self), *final(type_pack)) == old(self).on_type_pack(*old(type_pack)),
    ;

    /// Called for a generic type pack, before anything under it is visited.
    fn process_generic_type_pack(&mut self, generic: &mut GenericTypePack)
        ensures
            (*final(self), *final(generic)) == old(self).on_generic_type_pack(*old(generic)),
    ;

    /// Called for a variadic type pack, before anything under it is visited.
    fn process_variadic_type_pack(&mut self, variadic_type_pack: &mut VariadicTypePack)
        ensures
            (*final(self), *final(variadic_type_pack))
                == old(self).on_variadic_type_pack(*old(variadic_type_pack)),
    ;

    /// Called once for each block that opens a scope, before the block is visited. For
    /// the block of a repeat loop, and only for it, the condition of the loop comes
    /// with the block.
    fn process_scope(&mut self, block: &mut Block, extra: Option<&mut Expression>)
        ensures
            match extra {
                Some(condition) => (*final(self), *final(block), *final(condition))
                    == old(self).on_repeat_scope(*old(block), *condition),
                None => (*final(self), *final(block)) == old(self).on_scope(*old(block)),
            },
    ;
}

} // verus!
