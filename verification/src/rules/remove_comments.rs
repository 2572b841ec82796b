use crate::nodes::{
    ArrayType, AssignStatement, BinaryExpression, Block, CompoundAssignStatement, DoStatement,
    ExportTypeFunctionStatement, Expression, ExpressionType, FieldExpression, FunctionCall,
    FunctionExpression, FunctionStatement, FunctionType, GenericForStatement, GenericTypePack,
    Identifier, IfExpression, IfStatement, IndexExpression, InterpolatedStringExpression,
    IntersectionType, LastStatement, LocalAssignStatement, LocalFunctionStatement, NumberExpression,
    NumericForStatement, OptionalType, ParentheseExpression, ParentheseType, Prefix,
    RepeatStatement, Statement, StringExpression, StringType, TableExpression, TableType, Type,
    TypeCastExpression, TypeDeclarationStatement, TypeField, TypeFunctionStatement, TypeName,
    TypePack, UnaryExpression, UnionType, Variable, VariadicTypePack, WhileStatement,
};
use crate::process::processor::NodeProcessor;
use crate::process::visitors::{DefaultVisitor, NodeVisitor};
use crate::rules::configuration::{
    PropertyValueView, RuleConfigurationError, RuleProperties, verify_no_rule_properties,
};
use crate::rules::rule::{Context, FlawlessRule, RuleConfiguration};
use crate::rules::stripping::statements::visit_strips_block;
use vstd::prelude::*;

verus! {

/// The processor of [`RemoveComments`]: at every node that holds tokens, it takes the
/// comments out of them. It keeps nothing between two nodes.
#[derive(Debug, PartialEq, Eq, Structural)]
pub struct RemoveCommentProcessor {}

/// The processor holds nothing, so any two are the same.
pub proof fn processors_are_equal(a: RemoveCommentProcessor, b: RemoveCommentProcessor)
    ensures
        a == b,
{
}

impl Default for RemoveCommentProcessor {
    fn default() -> (processor: Self)
        ensures
            processor == (RemoveCommentProcessor {}),
    {
        RemoveCommentProcessor {}
    }
}

impl NodeProcessor for RemoveCommentProcessor {
    open spec fn on_block(self, block: Block) -> (Self, Block) {
        (self, block.without_comments())
    }

    open spec fn on_function_call(self, call: FunctionCall) -> (Self, FunctionCall) {
        (self, call.without_comments())
    }

    open spec fn on_assign_statement(self, statement: AssignStatement) -> (Self, AssignStatement) {
        (self, statement.without_comments())
    }

    open spec fn on_compound_assign_statement(
        self,
        statement: CompoundAssignStatement) -> (Self, CompoundAssignStatement,
    ) {
        (self, statement.without_comments())
    }

    open spec fn on_do_statement(self, statement: DoStatement) -> (Self, DoStatement) {
        (self, statement.without_comments())
    }

    open spec fn on_function_statement(
        self,
        statement: FunctionStatement) -> (Self, FunctionStatement,
    ) {
        (self, statement.without_comments())
    }

    open spec fn on_generic_for_statement(
        self,
        statement: GenericForStatement) -> (Self, GenericForStatement,
    ) {
        (self, statement.without_comments())
    }

    open spec fn on_if_statement(self, statement: IfStatement) -> (Self, IfStatement) {
        (self, statement.without_comments())
    }

    open spec fn on_last_statement(self, last_statement: LastStatement) -> (Self, LastStatement) {
        (self, last_statement.without_comments())
    }

    open spec fn on_local_assign_statement(
        self,
        statement: LocalAssignStatement) -> (Self, LocalAssignStatement,
    ) {
        (self, statement.without_comments())
    }

    open spec fn on_local_function_statement(
        self,
        statement: LocalFunctionStatement) -> (Self, LocalFunctionStatement,
    ) {
        (self, statement.without_comments())
    }

    open spec fn on_numeric_for_statement(
        self,
        statement: NumericForStatement) -> (Self, NumericForStatement,
    ) {
        (self, statement.without_comments())
    }

    open spec fn on_repeat_statement(self, statement: RepeatStatement) -> (Self, RepeatStatement) {
        (self, statement.without_comments())
    }

    open spec fn on_while_statement(self, statement: WhileStatement) -> (Self, WhileStatement) {
        (self, statement.without_comments())
    }

    open spec fn on_type_declaration(
        self,
        statement: TypeDeclarationStatement) -> (Self, TypeDeclarationStatement,
    ) {
        (self, statement.without_comments())
    }

    open spec fn on_type_function_statement(
        self,
        statement: TypeFunctionStatement) -> (Self, TypeFunctionStatement,
    ) {
        (self, statement.without_comments())
    }

    open spec fn on_export_type_function_statement(
        self,
        statement: ExportTypeFunctionStatement) -> (Self, ExportTypeFunctionStatement,
    ) {
        (self, statement.without_comments())
    }

    open spec fn on_expression(self, expression: Expression) -> (Self, Expression) {
        (self, expression.without_comments())
    }

    open spec fn on_binary_expression(self, binary: BinaryExpression) -> (Self, BinaryExpression) {
        (self, binary.without_comments())
    }

    open spec fn on_field_expression(self, field: FieldExpression) -> (Self, FieldExpression) {
        (self, field.without_comments())
    }

    open spec fn on_function_expression(
        self,
        function: FunctionExpression) -> (Self, FunctionExpression,
    ) {
        (self, function.without_comments())
    }

    open spec fn on_if_expression(self, if_expression: IfExpression) -> (Self, IfExpression) {
        (self, if_expression.without_comments())
    }

    open spec fn on_variable_expression(self, identifier: Identifier) -> (Self, Identifier) {
        (self, identifier.without_comments())
    }

    open spec fn on_index_expression(self, index: IndexExpression) -> (Self, IndexExpression) {
        (self, index.without_comments())
    }

    open spec fn on_number_expression(self, number: NumberExpression) -> (Self, NumberExpression) {
        (self, number.without_comments())
    }

    open spec fn on_parenthese_expression(
        self,
        parenthese: ParentheseExpression) -> (Self, ParentheseExpression,
    ) {
        (self, parenthese.without_comments())
    }

    open spec fn on_string_expression(self, string: StringExpression) -> (Self, StringExpression) {
        (self, string.without_comments())
    }

    open spec fn on_interpolated_string_expression(
        self,
        interpolated_string: InterpolatedStringExpression) -> (Self, InterpolatedStringExpression,
    ) {
        (self, interpolated_string.without_comments())
    }

    open spec fn on_table_expression(self, table: TableExpression) -> (Self, TableExpression) {
        (self, table.without_comments())
    }

    open spec fn on_unary_expression(self, unary: UnaryExpression) -> (Self, UnaryExpression) {
        (self, unary.without_comments())
    }

    open spec fn on_type_cast_expression(
        self,
        type_cast: TypeCastExpression) -> (Self, TypeCastExpression,
    ) {
        (self, type_cast.without_comments())
    }

    open spec fn on_type(self, annotation: Type) -> (Self, Type) {
        (self, annotation.without_comments())
    }

    open spec fn on_type_name(self, name: TypeName) -> (Self, TypeName) {
        (self, name.without_comments())
    }

    open spec fn on_type_field(self, type_field: TypeField) -> (Self, TypeField) {
        (self, type_field.without_comments())
    }

    open spec fn on_array_type(self, array: ArrayType) -> (Self, ArrayType) {
        (self, array.without_comments())
    }

    open spec fn on_table_type(self, table: TableType) -> (Self, TableType) {
        (self, table.without_comments())
    }

    open spec fn on_expression_type(
        self,
        expression_type: ExpressionType) -> (Self, ExpressionType,
    ) {
        (self, expression_type.without_comments())
    }

    open spec fn on_parenthese_type(self, parenthese: ParentheseType) -> (Self, ParentheseType) {
        (self, parenthese.without_comments())
    }

    open spec fn on_function_type(self, function: FunctionType) -> (Self, FunctionType) {
        (self, function.without_comments())
    }

    open spec fn on_optional_type(self, optional: OptionalType) -> (Self, OptionalType) {
        (self, optional.without_comments())
    }

    open spec fn on_intersection_type(
        self,
        intersection: IntersectionType) -> (Self, IntersectionType,
    ) {
        (self, intersection.without_comments())
    }

    open spec fn on_union_type(self, union: UnionType) -> (Self, UnionType) {
        (self, union.without_comments())
    }

    open spec fn on_string_type(self, string: StringType) -> (Self, StringType) {
        (self, string.without_comments())
    }

    open spec fn on_type_pack(self, type_pack: TypePack) -> (Self, TypePack) {
        (self, type_pack.without_comments())
    }

    open spec fn on_generic_type_pack(self, generic: GenericTypePack) -> (Self, GenericTypePack) {
        (self, generic.without_comments())
    }

    open spec fn on_variadic_type_pack(
        self,
        variadic_type_pack: VariadicTypePack) -> (Self, VariadicTypePack,
    ) {
        (self, variadic_type_pack.without_comments())
    }

    proof fn callbacks_keep_depth() {
        assert forall|p: Self, node: Block|
            (#[trigger] p.on_block(node)).1.depth() <= node.depth() by {
            node.without_comments_keeps_depth();
        }
        assert forall|p: Self, node: FunctionCall|
            (#[trigger] p.on_function_call(node)).1.depth() <= node.depth() by {
            node.without_comments_keeps_depth();
        }
        assert forall|p: Self, node: AssignStatement|
            (#[trigger] p.on_assign_statement(node)).1.depth() <= node.depth() by {
            node.without_comments_keeps_depth();
        }
        assert forall|p: Self, node: CompoundAssignStatement|
            (#[trigger] p.on_compound_assign_statement(node)).1.depth() <= node.depth() by {
            node.without_comments_keeps_depth();
        }
        assert forall|p: Self, node: DoStatement|
            (#[trigger] p.on_do_statement(node)).1.depth() <= node.depth() by {
            node.without_comments_keeps_depth();
        }
        assert forall|p: Self, node: FunctionStatement|
            (#[trigger] p.on_function_statement(node)).1.depth() <= node.depth() by {
            node.without_comments_keeps_depth();
        }
        assert forall|p: Self, node: GenericForStatement|
            (#[trigger] p.on_generic_for_statement(node)).1.depth() <= node.depth() by {
            node.without_comments_keeps_depth();
        }
        assert forall|p: Self, node: IfStatement|
            (#[trigger] p.on_if_statement(node)).1.depth() <= node.depth() by {
            node.without_comments_keeps_depth();
        }
        assert forall|p: Self, node: LastStatement|
            (#[trigger] p.on_last_statement(node)).1.depth() <= node.depth() by {
            node.without_comments_keeps_depth();
        }
        assert forall|p: Self, node: LocalAssignStatement|
            (#[trigger] p.on_local_assign_statement(node)).1.depth() <= node.depth() by {
            node.without_comments_keeps_depth();
        }
        assert forall|p: Self, node: LocalFunctionStatement|
            (#[trigger] p.on_local_function_statement(node)).1.depth() <= node.depth() by {
            node.without_comments_keeps_depth();
        }
        assert forall|p: Self, node: NumericForStatement|
            (#[trigger] p.on_numeric_for_statement(node)).1.depth() <= node.depth() by {
            node.without_comments_keeps_depth();
        }
        assert forall|p: Self, node: RepeatStatement|
            (#[trigger] p.on_repeat_statement(node)).1.depth() <= node.depth() by {
            node.without_comments_keeps_depth();
        }
        assert forall|p: Self, node: WhileStatement|
            (#[trigger] p.on_while_statement(node)).1.depth() <= node.depth() by {
            node.without_comments_keeps_depth();
        }
        assert forall|p: Self, node: TypeDeclarationStatement|
            (#[trigger] p.on_type_declaration(node)).1.depth() <= node.depth() by {
            node.without_comments_keeps_depth();
        }
        assert forall|p: Self, node: TypeFunctionStatement|
            (#[trigger] p.on_type_function_statement(node)).1.depth() <= node.depth() by {
            node.without_comments_keeps_depth();
        }
        assert forall|p: Self, node: ExportTypeFunctionStatement|
            (#[trigger] p.on_export_type_function_statement(node)).1.depth() <= node.depth() by {
            node.without_comments_keeps_depth();
        }
        assert forall|p: Self, node: Expression|
            (#[trigger] p.on_expression(node)).1.depth() <= node.depth() by {
            node.without_comments_keeps_depth();
        }
        assert forall|p: Self, node: BinaryExpression|
            (#[trigger] p.on_binary_expression(node)).1.depth() <= node.depth() by {
            node.without_comments_keeps_depth();
        }
        assert forall|p: Self, node: FieldExpression|
            (#[trigger] p.on_field_expression(node)).1.depth() <= node.depth() by {
            node.without_comments_keeps_depth();
        }
        assert forall|p: Self, node: FunctionExpression|
            (#[trigger] p.on_function_expression(node)).1.depth() <= node.depth() by {
            node.without_comments_keeps_depth();
        }
        assert forall|p: Self, node: IfExpression|
            (#[trigger] p.on_if_expression(node)).1.depth() <= node.depth() by {
            node.without_comments_keeps_depth();
        }
        assert forall|p: Self, node: IndexExpression|
            (#[trigger] p.on_index_expression(node)).1.depth() <= node.depth() by {
            node.without_comments_keeps_depth();
        }
        assert forall|p: Self, node: ParentheseExpression|
            (#[trigger] p.on_parenthese_expression(node)).1.depth() <= node.depth() by {
            node.without_comments_keeps_depth();
        }
        assert forall|p: Self, node: InterpolatedStringExpression|
            (#[trigger] p.on_interpolated_string_expression(node)).1.depth() <= node.depth() by {
            node.without_comments_keeps_depth();
        }
        assert forall|p: Self, node: TableExpression|
            (#[trigger] p.on_table_expression(node)).1.depth() <= node.depth() by {
            node.without_comments_keeps_depth();
        }
        assert forall|p: Self, node: UnaryExpression|
            (#[trigger] p.on_unary_expression(node)).1.depth() <= node.depth() by {
            node.without_comments_keeps_depth();
        }
        assert forall|p: Self, node: TypeCastExpression|
            (#[trigger] p.on_type_cast_expression(node)).1.depth() <= node.depth() by {
            node.without_comments_keeps_depth();
        }
        assert forall|p: Self, node: Type|
            (#[trigger] p.on_type(node)).1.depth() <= node.depth() by {
            node.without_comments_keeps_depth();
        }
        assert forall|p: Self, node: TypeName|
            (#[trigger] p.on_type_name(node)).1.depth() <= node.depth() by {
            node.without_comments_keeps_depth();
        }
        assert forall|p: Self, node: TypeField|
            (#[trigger] p.on_type_field(node)).1.depth() <= node.depth() by {
            node.without_comments_keeps_depth();
        }
        assert forall|p: Self, node: ArrayType|
            (#[trigger] p.on_array_type(node)).1.depth() <= node.depth() by {
            node.without_comments_keeps_depth();
        }
        assert forall|p: Self, node: TableType|
            (#[trigger] p.on_table_type(node)).1.depth() <= node.depth() by {
            node.without_comments_keeps_depth();
        }
        assert forall|p: Self, node: ExpressionType|
            (#[trigger] p.on_expression_type(node)).1.depth() <= node.depth() by {
            node.without_comments_keeps_depth();
        }
        assert forall|p: Self, node: ParentheseType|
            (#[trigger] p.on_parenthese_type(node)).1.depth() <= node.depth() by {
            node.without_comments_keeps_depth();
        }
        assert forall|p: Self, node: FunctionType|
            (#[trigger] p.on_function_type(node)).1.depth() <= node.depth() by {
            node.without_comments_keeps_depth();
        }
        assert forall|p: Self, node: OptionalType|
            (#[trigger] p.on_optional_type(node)).1.depth() <= node.depth() by {
            node.without_comments_keeps_depth();
        }
        assert forall|p: Self, node: IntersectionType|
            (#[trigger] p.on_intersection_type(node)).1.depth() <= node.depth() by {
            node.without_comments_keeps_depth();
        }
        assert forall|p: Self, node: UnionType|
            (#[trigger] p.on_union_type(node)).1.depth() <= node.depth() by {
            node.without_comments_keeps_depth();
        }
        assert forall|p: Self, node: TypePack|
            (#[trigger] p.on_type_pack(node)).1.depth() <= node.depth() by {
            node.without_comments_keeps_depth();
        }
        assert forall|p: Self, node: VariadicTypePack|
            (#[trigger] p.on_variadic_type_pack(node)).1.depth() <= node.depth() by {
            node.without_comments_keeps_depth();
        }
    }

    fn process_block(&mut self, block: &mut Block) {
        block.clear_comments();
    }

    fn process_statement(&mut self, statement: &mut Statement) {
    }

    fn process_function_call(&mut self, call: &mut FunctionCall) {
        call.clear_comments();
    }

    fn process_assign_statement(&mut self, statement: &mut AssignStatement) {
        statement.clear_comments();
    }

    fn process_compound_assign_statement(&mut self, statement: &mut CompoundAssignStatement) {
        statement.clear_comments();
    }

    fn process_do_statement(&mut self, statement: &mut DoStatement) {
        statement.clear_comments();
    }

    fn process_function_statement(&mut self, statement: &mut FunctionStatement) {
        statement.clear_comments();
    }

    fn process_generic_for_statement(&mut self, statement: &mut GenericForStatement) {
        statement.clear_comments();
    }

    fn process_if_statement(&mut self, statement: &mut IfStatement) {
        statement.clear_comments();
    }

    fn process_last_statement(&mut self, last_statement: &mut LastStatement) {
        last_statement.clear_comments();
    }

    fn process_local_assign_statement(&mut self, statement: &mut LocalAssignStatement) {
        statement.clear_comments();
    }

    fn process_local_function_statement(&mut self, statement: &mut LocalFunctionStatement) {
        statement.clear_comments();
    }

    fn process_numeric_for_statement(&mut self, statement: &mut NumericForStatement) {
        statement.clear_comments();
    }

    fn process_repeat_statement(&mut self, statement: &mut RepeatStatement) {
        statement.clear_comments();
    }

    fn process_while_statement(&mut self, statement: &mut WhileStatement) {
        statement.clear_comments();
    }

    fn process_type_declaration(&mut self, statement: &mut TypeDeclarationStatement) {
        statement.clear_comments();
    }

    fn process_type_function_statement(&mut self, statement: &mut TypeFunctionStatement) {
        statement.clear_comments();
    }

    fn process_export_type_function_statement(
        &mut self,
        statement: &mut ExportTypeFunctionStatement,
    ) {
        statement.clear_comments();
    }

    fn process_variable(&mut self, variable: &mut Variable) {
    }

    fn process_expression(&mut self, expression: &mut Expression) {
        expression.clear_comments();
    }

    fn process_binary_expression(&mut self, binary: &mut BinaryExpression) {
        binary.clear_comments();
    }

    fn process_field_expression(&mut self, field: &mut FieldExpression) {
        field.clear_comments();
    }

    fn process_function_expression(&mut self, function: &mut FunctionExpression) {
        function.clear_comments();
    }

    fn process_if_expression(&mut self, if_expression: &mut IfExpression) {
        if_expression.clear_comments();
    }

    fn process_variable_expression(&mut self, identifier: &mut Identifier) {
        identifier.clear_comments();
    }

    fn process_index_expression(&mut self, index: &mut IndexExpression) {
        index.clear_comments();
    }

    fn process_number_expression(&mut self, number: &mut NumberExpression) {
        number.clear_comments();
    }

    fn process_prefix_expression(&mut self, prefix: &mut Prefix) {
    }

    fn process_parenthese_expression(&mut self, parenthese: &mut ParentheseExpression) {
        parenthese.clear_comments();
    }

    fn process_string_expression(&mut self, string: &mut StringExpression) {
        string.clear_comments();
    }

    fn process_interpolated_string_expression(
        &mut self,
        interpolated_string: &mut InterpolatedStringExpression,
    ) {
        interpolated_string.clear_comments();
    }

    fn process_table_expression(&mut self, table: &mut TableExpression) {
        table.clear_comments();
    }

    fn process_unary_expression(&mut self, unary: &mut UnaryExpression) {
        unary.clear_comments();
    }

    fn process_type_cast_expression(&mut self, type_cast: &mut TypeCastExpression) {
        type_cast.clear_comments();
    }

    fn process_type(&mut self, annotation: &mut Type) {
        annotation.clear_comments();
    }

    fn process_type_name(&mut self, name: &mut TypeName) {
        name.clear_comments();
    }

    fn process_type_field(&mut self, type_field: &mut TypeField) {
        type_field.clear_comments();
    }

    fn process_array_type(&mut self, array: &mut ArrayType) {
        array.clear_comments();
    }

    fn process_table_type(&mut self, table: &mut TableType) {
        table.clear_comments();
    }

    fn process_expression_type(&mut self, expression_type: &mut ExpressionType) {
        expression_type.clear_comments();
    }

    fn process_parenthese_type(&mut self, parenthese: &mut ParentheseType) {
        parenthese.clear_comments();
    }

    fn process_function_type(&mut self, function: &mut FunctionType) {
        function.clear_comments();
    }

    fn process_optional_type(&mut self, optional: &mut OptionalType) {
        optional.clear_comments();
    }

    fn process_intersection_type(&mut self, intersection: &mut IntersectionType) {
        intersection.clear_comments();
    }

    fn process_union_type(&mut self, union: &mut UnionType) {
        union.clear_comments();
    }

    fn process_string_type(&mut self, string: &mut StringType) {
        string.clear_comments();
    }

    fn process_type_pack(&mut self, type_pack: &mut TypePack) {
        type_pack.clear_comments();
    }

    fn process_generic_type_pack(&mut self, generic: &mut GenericTypePack) {
        generic.clear_comments();
    }

    fn process_variadic_type_pack(&mut self, variadic_type_pack: &mut VariadicTypePack) {
        variadic_type_pack.clear_comments();
    }

    fn process_scope(&mut self, block: &mut Block, extra: Option<&mut Expression>) {
    }
}

/// The name of the rule that removes comments.
pub const REMOVE_COMMENTS_RULE_NAME: &'static str = "remove_comments";

/// A rule that removes the comments held by the tokens of a tree. It takes no option.
#[derive(Debug, PartialEq, Eq, Structural)]
pub struct RemoveComments {}

impl Default for RemoveComments {
    fn default() -> (rule: Self)
        ensures
            rule == (RemoveComments {}),
    {
        RemoveComments {}
    }
}

impl FlawlessRule for RemoveComments {
    /// The block with the comments taken out of every token of it and of everything
    /// under it, and nothing else changed.
    open spec fn processed(self, block: Block) -> Block {
        block.stripped()
    }

    fn flawless_process(&self, block: &mut Block, context: &mut Context)
        ensures
            *final(context) == *old(context),
    {
        let mut processor = RemoveCommentProcessor::default();
        DefaultVisitor::<RemoveCommentProcessor>::visit_block(block, &mut processor);
        proof {
            visit_strips_block(*old(block));
        }
    }
}

impl RuleConfiguration for RemoveComments {
    /// The rule takes no option: it accepts no option at all, and nothing else.
    open spec fn accepts(self, properties: Seq<(Seq<char>, PropertyValueView)>) -> bool {
        properties.len() == 0
    }

    open spec fn configured(self, properties: Seq<(Seq<char>, PropertyValueView)>) -> Self {
        self
    }

    open spec fn properties(self) -> Seq<(Seq<char>, PropertyValueView)> {
        Seq::empty()
    }

    proof fn configuration_round_trip(self) {
    }

    fn configure(&mut self, properties: RuleProperties) -> (result: Result<
        (),
        RuleConfigurationError,
    >)
        ensures
            result matches Err(error) ==> error matches RuleConfigurationError::UnexpectedProperty(
                name,
            ) && name@ == properties@[0].0,
    {
        match verify_no_rule_properties(&properties) {
            Ok(()) => Ok(()),
            Err(error) => {
                assert(properties@[0].0 == error.property());
                Err(error)
            },
        }
    }

    fn get_name(&self) -> (name: &'static str)
        ensures
            name == REMOVE_COMMENTS_RULE_NAME,
    {
        REMOVE_COMMENTS_RULE_NAME
    }

    fn serialize_to_properties(&self) -> (properties: RuleProperties) {
        RuleProperties::new()
    }
}

/// Running the rule on a block that it has already gone over changes nothing.
pub proof fn remove_comments_is_idempotent(rule: RemoveComments, block: Block)
    ensures
        rule.processed(rule.processed(block)) == rule.processed(block),
{
    block.stripped_is_idempotent();
}

/// The rule leaves no comment behind: after it has run, no token of the block, nor of
/// anything under it, holds a comment.
pub proof fn remove_comments_leaves_no_comment(rule: RemoveComments, block: Block)
    ensures
        rule.processed(block).is_comment_free(),
{
    block.stripped_is_comment_free();
}

} // verus!
