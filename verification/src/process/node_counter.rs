use crate::nodes::{
    ArrayType, AssignStatement, BinaryExpression, Block, CompoundAssignStatement, DoStatement,
    ExportTypeFunctionStatement, Expression, ExpressionType, FieldExpression, FunctionCall,
    FunctionExpression, FunctionStatement, FunctionType, GenericForStatement, GenericTypePack,
    Identifier, IfExpression, IfStatement, IndexExpression, InterpolatedStringExpression,
    IntersectionType, LastStatement, LocalAssignStatement, LocalFunctionStatement, NumberExpression,
    NumericForStatement, OptionalType, ParentheseExpression, ParentheseType, Prefix,
    RepeatStatement, Statement, StringExpression, StringType, TableExpression, TableType, Type,
    TypeCastExpression, TypeDeclarationStatement, TypeField, TypeFunctionStatement, TypeName,
    TypePack, UnaryExpression, UnionType, Variable, VariadicTypePack, WhileStatement,
};
use crate::process::processor::NodeProcessor;
use vstd::prelude::*;

verus! {

/// A processor that counts the nodes it is called for, kind by kind, and leaves the
/// tree as it is. A counter that has reached `usize::MAX` stays there.
#[derive(Clone, Copy, Debug, PartialEq, Eq, Structural)]
pub struct NodeCounter {
    pub block_count: usize,
    pub function_call_count: usize,
    pub assign_count: usize,
    pub compound_assign: usize,
    pub do_count: usize,
    pub function_count: usize,
    pub generic_for_count: usize,
    pub if_count: usize,
    pub local_assign_count: usize,
    pub local_function_count: usize,
    pub numeric_for_count: usize,
    pub repeat_count: usize,
    pub while_count: usize,
    pub type_declaration_count: usize,
    pub type_function_count: usize,
    pub export_type_function_count: usize,
    pub break_count: usize,
    pub continue_count: usize,
    pub return_count: usize,
    pub expression_count: usize,
    pub variable_count: usize,
    pub interpolated_string_count: usize,
    pub type_count: usize,
}

/// A number of nodes for each kind that a [`NodeCounter`] counts.
pub ghost struct Tally {
    pub block_count: nat,
    pub function_call_count: nat,
    pub assign_count: nat,
    pub compound_assign: nat,
    pub do_count: nat,
    pub function_count: nat,
    pub generic_for_count: nat,
    pub if_count: nat,
    pub local_assign_count: nat,
    pub local_function_count: nat,
    pub numeric_for_count: nat,
    pub repeat_count: nat,
    pub while_count: nat,
    pub type_declaration_count: nat,
    pub type_function_count: nat,
    pub export_type_function_count: nat,
    pub break_count: nat,
    pub continue_count: nat,
    pub return_count: nat,
    pub expression_count: nat,
    pub variable_count: nat,
    pub interpolated_string_count: nat,
    pub type_count: nat,
}

/// `count` raised by `more`, or `usize::MAX` where that does not fit.
pub open spec fn raised(count: usize, more: nat) -> usize {
    if count + more <= usize::MAX {
        (count + more) as usize
    } else {
        usize::MAX
    }
}

/// `count` raised by one, or `usize::MAX` where it stands there already.
fn raise(count: usize) -> (next: usize)
    ensures
        next == raised(count, 1),
{
    if count < usize::MAX {
        count + 1
    } else {
        count
    }
}

impl Tally {
    /// No node of any kind.
    pub open spec fn zero() -> Tally {
        Tally {
            block_count: 0,
            function_call_count: 0,
            assign_count: 0,
            compound_assign: 0,
            do_count: 0,
            function_count: 0,
            generic_for_count: 0,
            if_count: 0,
            local_assign_count: 0,
            local_function_count: 0,
            numeric_for_count: 0,
            repeat_count: 0,
            while_count: 0,
            type_declaration_count: 0,
            type_function_count: 0,
            export_type_function_count: 0,
            break_count: 0,
            continue_count: 0,
            return_count: 0,
            expression_count: 0,
            variable_count: 0,
            interpolated_string_count: 0,
            type_count: 0,
        }
    }

    /// The nodes of both tallies together.
    #[verifier::opaque]
    pub open spec fn plus(self, other: Tally) -> Tally {
        Tally {
            block_count: self.block_count + other.block_count,
            function_call_count: self.function_call_count + other.function_call_count,
            assign_count: self.assign_count + other.assign_count,
            compound_assign: self.compound_assign + other.compound_assign,
            do_count: self.do_count + other.do_count,
            function_count: self.function_count + other.function_count,
            generic_for_count: self.generic_for_count + other.generic_for_count,
            if_count: self.if_count + other.if_count,
            local_assign_count: self.local_assign_count + other.local_assign_count,
            local_function_count: self.local_function_count + other.local_function_count,
            numeric_for_count: self.numeric_for_count + other.numeric_for_count,
            repeat_count: self.repeat_count + other.repeat_count,
            while_count: self.while_count + other.while_count,
            type_declaration_count: self.type_declaration_count + other.type_declaration_count,
            type_function_count: self.type_function_count + other.type_function_count,
            export_type_function_count: self.export_type_function_count
                + other.export_type_function_count,
            break_count: self.break_count + other.break_count,
            continue_count: self.continue_count + other.continue_count,
            return_count: self.return_count + other.return_count,
            expression_count: self.expression_count + other.expression_count,
            variable_count: self.variable_count + other.variable_count,
            interpolated_string_count: self.interpolated_string_count
                + other.interpolated_string_count,
            type_count: self.type_count + other.type_count,
        }
    }

    /// What the callback for the statement that closes a block counts: one `break`, one
    /// `continue` or one `return`.
    pub open spec fn of_last_statement(last_statement: LastStatement) -> Tally {
        match last_statement {
            LastStatement::Break(_) => Tally { break_count: 1, ..Tally::zero() },
            LastStatement::Continue(_) => Tally { continue_count: 1, ..Tally::zero() },
            LastStatement::Return(_) => Tally { return_count: 1, ..Tally::zero() },
        }
    }

    /// Adding no node changes nothing.
    pub proof fn plus_zero(self)
        ensures
            self.plus(Tally::zero()) == self,
    {
        reveal(Tally::plus);
    }
}

impl NodeCounter {
    /// A counter with every count at zero.
    pub fn new() -> (counter: Self)
        ensures
            counter == NodeCounter::zero(),
    {
        NodeCounter {
            block_count: 0,
            function_call_count: 0,
            assign_count: 0,
            compound_assign: 0,
            do_count: 0,
            function_count: 0,
            generic_for_count: 0,
            if_count: 0,
            local_assign_count: 0,
            local_function_count: 0,
            numeric_for_count: 0,
            repeat_count: 0,
            while_count: 0,
            type_declaration_count: 0,
            type_function_count: 0,
            export_type_function_count: 0,
            break_count: 0,
            continue_count: 0,
            return_count: 0,
            expression_count: 0,
            variable_count: 0,
            interpolated_string_count: 0,
            type_count: 0,
        }
    }

    /// The counter with every count at zero.
    pub open spec fn zero() -> NodeCounter {
        NodeCounter {
            block_count: 0,
            function_call_count: 0,
            assign_count: 0,
            compound_assign: 0,
            do_count: 0,
            function_count: 0,
            generic_for_count: 0,
            if_count: 0,
            local_assign_count: 0,
            local_function_count: 0,
            numeric_for_count: 0,
            repeat_count: 0,
            while_count: 0,
            type_declaration_count: 0,
            type_function_count: 0,
            export_type_function_count: 0,
            break_count: 0,
            continue_count: 0,
            return_count: 0,
            expression_count: 0,
            variable_count: 0,
            interpolated_string_count: 0,
            type_count: 0,
        }
    }

    /// This counter after it has counted the nodes of `tally`.
    #[verifier::opaque]
    pub open spec fn plus(self, tally: Tally) -> NodeCounter {
        NodeCounter {
            block_count: raised(self.block_count, tally.block_count),
            function_call_count: raised(self.function_call_count, tally.function_call_count),
            assign_count: raised(self.assign_count, tally.assign_count),
            compound_assign: raised(self.compound_assign, tally.compound_assign),
            do_count: raised(self.do_count, tally.do_count),
            function_count: raised(self.function_count, tally.function_count),
            generic_for_count: raised(self.generic_for_count, tally.generic_for_count),
            if_count: raised(self.if_count, tally.if_count),
            local_assign_count: raised(self.local_assign_count, tally.local_assign_count),
            local_function_count: raised(self.local_function_count, tally.local_function_count),
            numeric_for_count: raised(self.numeric_for_count, tally.numeric_for_count),
            repeat_count: raised(self.repeat_count, tally.repeat_count),
            while_count: raised(self.while_count, tally.while_count),
            type_declaration_count: raised(
                self.type_declaration_count,
                tally.type_declaration_count,
            ),
            type_function_count: raised(self.type_function_count, tally.type_function_count),
            export_type_function_count: raised(
                self.export_type_function_count,
                tally.export_type_function_count,
            ),
            break_count: raised(self.break_count, tally.break_count),
            continue_count: raised(self.continue_count, tally.continue_count),
            return_count: raised(self.return_count, tally.return_count),
            expression_count: raised(self.expression_count, tally.expression_count),
            variable_count: raised(self.variable_count, tally.variable_count),
            interpolated_string_count: raised(
                self.interpolated_string_count,
                tally.interpolated_string_count,
            ),
            type_count: raised(self.type_count, tally.type_count),
        }
    }

    /// Counting no node changes nothing.
    pub proof fn plus_zero(self)
        ensures
            self.plus(Tally::zero()) == self,
    {
        reveal(NodeCounter::plus);
    }

    /// Counting two tallies one after the other is counting them together.
    pub proof fn plus_plus(self, first: Tally, second: Tally)
        ensures
            self.plus(first).plus(second) == self.plus(first.plus(second)),
    {
        reveal(NodeCounter::plus);
        reveal(Tally::plus);
    }
}

impl Default for NodeCounter {
    fn default() -> (counter: Self)
        ensures
            counter == NodeCounter::zero(),
    {
        NodeCounter::new()
    }
}

impl NodeProcessor for NodeCounter {
    open spec fn on_block(self, block: Block) -> (Self, Block) {
        (self.plus(Tally { block_count: 1, ..Tally::zero() }), block)
    }

    open spec fn on_function_call(self, call: FunctionCall) -> (Self, FunctionCall) {
        (self.plus(Tally { function_call_count: 1, ..Tally::zero() }), call)
    }

    open spec fn on_assign_statement(self, statement: AssignStatement) -> (Self, AssignStatement) {
        (self.plus(Tally { assign_count: 1, ..Tally::zero() }), statement)
    }

    open spec fn on_compound_assign_statement(
        self,
        statement: CompoundAssignStatement) -> (Self, CompoundAssignStatement,
    ) {
        (self.plus(Tally { compound_assign: 1, ..Tally::zero() }), statement)
    }

    open spec fn on_do_statement(self, statement: DoStatement) -> (Self, DoStatement) {
        (self.plus(Tally { do_count: 1, ..Tally::zero() }), statement)
    }

    open spec fn on_function_statement(
        self,
        statement: FunctionStatement) -> (Self, FunctionStatement,
    ) {
        (self.plus(Tally { function_count: 1, ..Tally::zero() }), statement)
    }

    open spec fn on_generic_for_statement(
        self,
        statement: GenericForStatement) -> (Self, GenericForStatement,
    ) {
        (self.plus(Tally { generic_for_count: 1, ..Tally::zero() }), statement)
    }

    open spec fn on_if_statement(self, statement: IfStatement) -> (Self, IfStatement) {
        (self.plus(Tally { if_count: 1, ..Tally::zero() }), statement)
    }

    open spec fn on_last_statement(self, last_statement: LastStatement) -> (Self, LastStatement) {
        (self.plus(Tally::of_last_statement(last_statement)), last_statement)
    }

    open spec fn on_local_assign_statement(
        self,
        statement: LocalAssignStatement) -> (Self, LocalAssignStatement,
    ) {
        (self.plus(Tally { local_assign_count: 1, ..Tally::zero() }), statement)
    }

    open spec fn on_local_function_statement(
        self,
        statement: LocalFunctionStatement) -> (Self, LocalFunctionStatement,
    ) {
        (self.plus(Tally { local_function_count: 1, ..Tally::zero() }), statement)
    }

    open spec fn on_numeric_for_statement(
        self,
        statement: NumericForStatement) -> (Self, NumericForStatement,
    ) {
        (self.plus(Tally { numeric_for_count: 1, ..Tally::zero() }), statement)
    }

    open spec fn on_repeat_statement(self, statement: RepeatStatement) -> (Self, RepeatStatement) {
        (self.plus(Tally { repeat_count: 1, ..Tally::zero() }), statement)
    }

    open spec fn on_while_statement(self, statement: WhileStatement) -> (Self, WhileStatement) {
        (self.plus(Tally { while_count: 1, ..Tally::zero() }), statement)
    }

    open spec fn on_type_declaration(
        self,
        statement: TypeDeclarationStatement) -> (Self, TypeDeclarationStatement,
    ) {
        (self.plus(Tally { type_declaration_count: 1, ..Tally::zero() }), statement)
    }

    open spec fn on_type_function_statement(
        self,
        statement: TypeFunctionStatement) -> (Self, TypeFunctionStatement,
    ) {
        (self.plus(Tally { type_function_count: 1, ..Tally::zero() }), statement)
    }

    open spec fn on_export_type_function_statement(
        self,
        statement: ExportTypeFunctionStatement) -> (Self, ExportTypeFunctionStatement,
    ) {
        (self.plus(Tally { export_type_function_count: 1, ..Tally::zero() }), statement)
    }

    open spec fn on_expression(self, expression: Expression) -> (Self, Expression) {
        (self.plus(Tally { expression_count: 1, ..Tally::zero() }), expression)
    }

    open spec fn on_variable_expression(self, identifier: Identifier) -> (Self, Identifier) {
        (self.plus(Tally { variable_count: 1, ..Tally::zero() }), identifier)
    }

    open spec fn on_interpolated_string_expression(
        self,
        interpolated_string: InterpolatedStringExpression) -> (Self, InterpolatedStringExpression,
    ) {
        (self.plus(Tally { interpolated_string_count: 1, ..Tally::zero() }), interpolated_string)
    }

    open spec fn on_type(self, annotation: Type) -> (Self, Type) {
        (self.plus(Tally { type_count: 1, ..Tally::zero() }), annotation)
    }

    proof fn callbacks_keep_depth() {
    }

    fn process_block(&mut self, block: &mut Block) {
        proof {
            reveal(NodeCounter::plus);
        }
        self.block_count = raise(self.block_count);
    }

    fn process_statement(&mut self, statement: &mut Statement) {
    }

    fn process_function_call(&mut self, call: &mut FunctionCall) {
        proof {
            reveal(NodeCounter::plus);
        }
        self.function_call_count = raise(self.function_call_count);
    }

    fn process_assign_statement(&mut self, statement: &mut AssignStatement) {
        proof {
            reveal(NodeCounter::plus);
        }
        self.assign_count = raise(self.assign_count);
    }

    fn process_compound_assign_statement(&mut self, statement: &mut CompoundAssignStatement) {
        proof {
            reveal(NodeCounter::plus);
        }
        self.compound_assign = raise(self.compound_assign);
    }

    fn process_do_statement(&mut self, statement: &mut DoStatement) {
        proof {
            reveal(NodeCounter::plus);
        }
        self.do_count = raise(self.do_count);
    }

    fn process_function_statement(&mut self, statement: &mut FunctionStatement) {
        proof {
            reveal(NodeCounter::plus);
        }
        self.function_count = raise(self.function_count);
    }

    fn process_generic_for_statement(&mut self, statement: &mut GenericForStatement) {
        proof {
            reveal(NodeCounter::plus);
        }
        self.generic_for_count = raise(self.generic_for_count);
    }

    fn process_if_statement(&mut self, statement: &mut IfStatement) {
        proof {
            reveal(NodeCounter::plus);
        }
        self.if_count = raise(self.if_count);
    }

    fn process_last_statement(&mut self, last_statement: &mut LastStatement) {
        proof {
            reveal(NodeCounter::plus);
        }
        match last_statement {
            LastStatement::Break(_) => {
                self.break_count = raise(self.break_count);
            },
            LastStatement::Continue(_) => {
                self.continue_count = raise(self.continue_count);
            },
            LastStatement::Return(_) => {
                self.return_count = raise(self.return_count);
            },
        }
    }

    fn process_local_assign_statement(&mut self, statement: &mut LocalAssignStatement) {
        proof {
            reveal(NodeCounter::plus);
        }
        self.local_assign_count = raise(self.local_assign_count);
    }

    fn process_local_function_statement(&mut self, statement: &mut LocalFunctionStatement) {
        proof {
            reveal(NodeCounter::plus);
        }
        self.local_function_count = raise(self.local_function_count);
    }

    fn process_numeric_for_statement(&mut self, statement: &mut NumericForStatement) {
        proof {
            reveal(NodeCounter::plus);
        }
        self.numeric_for_count = raise(self.numeric_for_count);
    }

    fn process_repeat_statement(&mut self, statement: &mut RepeatStatement) {
        proof {
            reveal(NodeCounter::plus);
        }
        self.repeat_count = raise(self.repeat_count);
    }

    fn process_while_statement(&mut self, statement: &mut WhileStatement) {
        proof {
            reveal(NodeCounter::plus);
        }
        self.while_count = raise(self.while_count);
    }

    fn process_type_declaration(&mut self, statement: &mut TypeDeclarationStatement) {
        proof {
            reveal(NodeCounter::plus);
        }
        self.type_declaration_count = raise(self.type_declaration_count);
    }

    fn process_type_function_statement(&mut self, statement: &mut TypeFunctionStatement) {
        proof {
            reveal(NodeCounter::plus);
        }
        self.type_function_count = raise(self.type_function_count);
    }

    fn process_export_type_function_statement(
        &mut self,
        statement: &mut ExportTypeFunctionStatement,
    ) {
        proof {
            reveal(NodeCounter::plus);
        }
        self.export_type_function_count = raise(self.export_type_function_count);
    }

    fn process_variable(&mut self, variable: &mut Variable) {
    }

    fn process_expression(&mut self, expression: &mut Expression) {
        proof {
            reveal(NodeCounter::plus);
        }
        self.expression_count = raise(self.expression_count);
    }

    fn process_binary_expression(&mut self, binary: &mut BinaryExpression) {
    }

    fn process_field_expression(&mut self, field: &mut FieldExpression) {
    }

    fn process_function_expression(&mut self, function: &mut FunctionExpression) {
    }

    fn process_if_expression(&mut self, if_expression: &mut IfExpression) {
    }

    fn process_variable_expression(&mut self, identifier: &mut Identifier) {
        proof {
            reveal(NodeCounter::plus);
        }
        self.variable_count = raise(self.variable_count);
    }

    fn process_index_expression(&mut self, index: &mut IndexExpression) {
    }

    fn process_number_expression(&mut self, number: &mut NumberExpression) {
    }

    fn process_prefix_expression(&mut self, prefix: &mut Prefix) {
    }

    fn process_parenthese_expression(&mut self, parenthese: &mut ParentheseExpression) {
    }

    fn process_string_expression(&mut self, string: &mut StringExpression) {
    }

    fn process_interpolated_string_expression(
        &mut self,
        interpolated_string: &mut InterpolatedStringExpression,
    ) {
        proof {
            reveal(NodeCounter::plus);
        }
        self.interpolated_string_count = raise(self.interpolated_string_count);
    }

    fn process_table_expression(&mut self, table: &mut TableExpression) {
    }

    fn process_unary_expression(&mut self, unary: &mut UnaryExpression) {
    }

    fn process_type_cast_expression(&mut self, type_cast: &mut TypeCastExpression) {
    }

    fn process_type(&mut self, annotation: &mut Type) {
        proof {
            reveal(NodeCounter::plus);
        }
        self.type_count = raise(self.type_count);
    }

    fn process_type_name(&mut self, name: &mut TypeName) {
    }

    fn process_type_field(&mut self, type_field: &mut TypeField) {
    }

    fn process_array_type(&mut self, array: &mut ArrayType) {
    }

    fn process_table_type(&mut self, table: &mut TableType) {
    }

    fn process_expression_type(&mut self, expression_type: &mut ExpressionType) {
    }

    fn process_parenthese_type(&mut self, parenthese: &mut ParentheseType) {
    }

    fn process_function_type(&mut self, function: &mut FunctionType) {
    }

    fn process_optional_type(&mut self, optional: &mut OptionalType) {
    }

    fn process_intersection_type(&mut self, intersection: &mut IntersectionType) {
    }

    fn process_union_type(&mut self, union: &mut UnionType) {
    }

    fn process_string_type(&mut self, string: &mut StringType) {
    }

    fn process_type_pack(&mut self, type_pack: &mut TypePack) {
    }

    fn process_generic_type_pack(&mut self, generic: &mut GenericTypePack) {
    }

    fn process_variadic_type_pack(&mut self, variadic_type_pack: &mut VariadicTypePack) {
    }

    fn process_scope(&mut self, block: &mut Block, extra: Option<&mut Expression>) {
    }
}

} // verus!
