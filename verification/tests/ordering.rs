use darklua_core::nodes::{
    ArrayType,
    AssignStatement,
    BinaryExpression,
    Block,
    CompoundAssignStatement,
    DoStatement,
    ExportTypeFunctionStatement,
    Expression,
    ExpressionType,
    FieldExpression,
    FunctionCall,
    FunctionExpression,
    FunctionStatement,
    FunctionType,
    GenericForStatement,
    GenericTypePack,
    Identifier,
    IfExpression,
    IfStatement,
    IndexExpression,
    InterpolatedStringExpression,
    IntersectionType,
    LastStatement,
    LocalAssignStatement,
    LocalFunctionStatement,
    NumberExpression,
    NumericForStatement,
    OptionalType,
    ParentheseExpression,
    ParentheseType,
    Prefix,
    RepeatStatement,
    Statement,
    StringExpression,
    StringType,
    TableExpression,
    TableType,
    Type,
    TypeCastExpression,
    TypeDeclarationStatement,
    TypeField,
    TypeFunctionStatement,
    TypeName,
    TypePack,
    UnaryExpression,
    UnionType,
    Variable,
    VariadicTypePack,
    WhileStatement,
};
use darklua_core::process::{DefaultVisitor, NodeProcessor, NodeVisitor};

struct Recorder {
    events: Vec<String>,
    prune: bool,
}

impl Recorder {
    fn new() -> Self {
        Recorder { events: Vec::new(), prune: false }
    }

    fn position(&self, event: &str) -> usize {
        match self.events.iter().position(|seen| seen == event) {
            Some(index) => index,
            None => panic!("no event {} in {:?}", event, self.events),
        }
    }

    fn count(&self, event: &str) -> usize {
        self.events.iter().filter(|seen| seen.as_str() == event).count()
    }
}

impl NodeProcessor for Recorder {
    fn callbacks_keep_depth() {}

    fn process_block(&mut self, _: &mut Block) {
        self.events.push("block".to_owned());
    }

    fn process_statement(&mut self, _: &mut Statement) {
        self.events.push("statement".to_owned());
    }

    fn process_function_call(&mut self, _: &mut FunctionCall) {
        self.events.push("function call".to_owned());
    }

    fn process_assign_statement(&mut self, _: &mut AssignStatement) {
        self.events.push("assign statement".to_owned());
    }

    fn process_compound_assign_statement(&mut self, _: &mut CompoundAssignStatement) {
        self.events.push("compound assign statement".to_owned());
    }

    fn process_do_statement(&mut self, statement: &mut DoStatement) {
        self.events.push("do statement".to_owned());
        if self.prune {
            statement.block = Block::default();
        }
    }

    fn process_function_statement(&mut self, _: &mut FunctionStatement) {
        self.events.push("function statement".to_owned());
    }

    fn process_generic_for_statement(&mut self, _: &mut GenericForStatement) {
        self.events.push("generic for statement".to_owned());
    }

    fn process_if_statement(&mut self, _: &mut IfStatement) {
        self.events.push("if statement".to_owned());
    }

    fn process_last_statement(&mut self, _: &mut LastStatement) {
        self.events.push("last statement".to_owned());
    }

    fn process_local_assign_statement(&mut self, _: &mut LocalAssignStatement) {
        self.events.push("local assign statement".to_owned());
    }

    fn process_local_function_statement(&mut self, _: &mut LocalFunctionStatement) {
        self.events.push("local function statement".to_owned());
    }

    fn process_numeric_for_statement(&mut self, _: &mut NumericForStatement) {
        self.events.push("numeric for statement".to_owned());
    }

    fn process_repeat_statement(&mut self, _: &mut RepeatStatement) {
        self.events.push("repeat statement".to_owned());
    }

    fn process_while_statement(&mut self, _: &mut WhileStatement) {
        self.events.push("while statement".to_owned());
    }

    fn process_type_declaration(&mut self, _: &mut TypeDeclarationStatement) {
        self.events.push("type declaration".to_owned());
    }

    fn process_type_function_statement(&mut self, _: &mut TypeFunctionStatement) {
        self.events.push("type function statement".to_owned());
    }

    fn process_export_type_function_statement(&mut self, _: &mut ExportTypeFunctionStatement) {
        self.events.push("export type function statement".to_owned());
    }

    fn process_variable(&mut self, _: &mut Variable) {
        self.events.push("variable".to_owned());
    }

    fn process_expression(&mut self, expression: &mut Expression) {
        let kind = match expression {
            Expression::True(_) => "expression true",
            Expression::False(_) => "expression false",
            Expression::Nil(_) => "expression nil",
            _ => "expression",
        };
        self.events.push(kind.to_owned());
    }

    fn process_binary_expression(&mut self, _: &mut BinaryExpression) {
        self.events.push("binary expression".to_owned());
    }

    fn process_field_expression(&mut self, _: &mut FieldExpression) {
        self.events.push("field expression".to_owned());
    }

    fn process_function_expression(&mut self, _: &mut FunctionExpression) {
        self.events.push("function expression".to_owned());
    }

    fn process_if_expression(&mut self, _: &mut IfExpression) {
        self.events.push("if expression".to_owned());
    }

    fn process_variable_expression(&mut self, identifier: &mut Identifier) {
        self.events.push(format!("identifier {}", identifier.name));
    }

    fn process_index_expression(&mut self, _: &mut IndexExpression) {
        self.events.push("index expression".to_owned());
    }

    fn process_number_expression(&mut self, _: &mut NumberExpression) {
        self.events.push("number expression".to_owned());
    }

    fn process_prefix_expression(&mut self, _: &mut Prefix) {
        self.events.push("prefix expression".to_owned());
    }

    fn process_parenthese_expression(&mut self, _: &mut ParentheseExpression) {
        self.events.push("parenthese expression".to_owned());
    }

    fn process_string_expression(&mut self, _: &mut StringExpression) {
        self.events.push("string expression".to_owned());
    }

    fn process_interpolated_string_expression(&mut self, _: &mut InterpolatedStringExpression) {
        self.events.push("interpolated string expression".to_owned());
    }

    fn process_table_expression(&mut self, _: &mut TableExpression) {
        self.events.push("table expression".to_owned());
    }

    fn process_unary_expression(&mut self, _: &mut UnaryExpression) {
        self.events.push("unary expression".to_owned());
    }

    fn process_type_cast_expression(&mut self, _: &mut TypeCastExpression) {
        self.events.push("type cast expression".to_owned());
    }

    fn process_type(&mut self, _: &mut Type) {
        self.events.push("type".to_owned());
    }

    fn process_type_name(&mut self, _: &mut TypeName) {
        self.events.push("type name".to_owned());
    }

    fn process_type_field(&mut self, _: &mut TypeField) {
        self.events.push("type field".to_owned());
    }

    fn process_array_type(&mut self, _: &mut ArrayType) {
        self.events.push("array type".to_owned());
    }

    fn process_table_type(&mut self, _: &mut TableType) {
        self.events.push("table type".to_owned());
    }

    fn process_expression_type(&mut self, _: &mut ExpressionType) {
        self.events.push("expression type".to_owned());
    }

    fn process_parenthese_type(&mut self, _: &mut ParentheseType) {
        self.events.push("parenthese type".to_owned());
    }

    fn process_function_type(&mut self, _: &mut FunctionType) {
        self.events.push("function type".to_owned());
    }

    fn process_optional_type(&mut self, _: &mut OptionalType) {
        self.events.push("optional type".to_owned());
    }

    fn process_intersection_type(&mut self, _: &mut IntersectionType) {
        self.events.push("intersection type".to_owned());
    }

    fn process_union_type(&mut self, _: &mut UnionType) {
        self.events.push("union type".to_owned());
    }

    fn process_string_type(&mut self, _: &mut StringType) {
        self.events.push("string type".to_owned());
    }

    fn process_type_pack(&mut self, _: &mut TypePack) {
        self.events.push("type pack".to_owned());
    }

    fn process_generic_type_pack(&mut self, _: &mut GenericTypePack) {
        self.events.push("generic type pack".to_owned());
    }

    fn process_variadic_type_pack(&mut self, _: &mut VariadicTypePack) {
        self.events.push("variadic type pack".to_owned());
    }

    fn process_scope(&mut self, block: &mut Block, extra: Option<&mut Expression>) {
        let statements = block.statements.len();
        match extra {
            Some(_) => self.events.push(format!("scope of {} with condition", statements)),
            None => self.events.push(format!("scope of {}", statements)),
        }
    }
}

#[test]
fn condition_of_if_comes_before_its_block() {
    let inner = Block::default().with_statement(LocalAssignStatement::from_variable("inside"));
    let mut block = Block::default().with_statement(IfStatement::create(true, inner));
    let mut recorder = Recorder::new();

    DefaultVisitor::visit_block(&mut block, &mut recorder);

    let condition = recorder.position("expression true");
    let scope = recorder.position("scope of 1");
    let nested = recorder.position("local assign statement");
    assert!(recorder.position("if statement") < condition);
    assert!(condition < scope);
    assert!(scope < nested);
    assert_eq!(
        recorder.events,
        vec![
            "block",
            "statement",
            "if statement",
            "expression true",
            "scope of 1",
            "block",
            "statement",
            "local assign statement",
        ]
    );
}

#[test]
fn repeat_scope_comes_once_with_the_condition() {
    let body = Block::default()
        .with_statement(DoStatement::default())
        .with_statement(DoStatement::default())
        .with_statement(DoStatement::default());
    let mut block = Block::default().with_statement(RepeatStatement::new(body, false));
    let mut recorder = Recorder::new();

    DefaultVisitor::visit_block(&mut block, &mut recorder);

    assert_eq!(recorder.count("scope of 3 with condition"), 1);
    assert_eq!(recorder.count("scope of 3"), 0);
    assert_eq!(recorder.count("expression false"), 1);
    assert_eq!(recorder.count("do statement"), 3);
    let scope = recorder.position("scope of 3 with condition");
    assert!(recorder.position("repeat statement") < scope);
    assert!(scope < recorder.position("do statement"));
    // the block is visited before the condition, as the loop is written
    let condition = recorder.position("expression false");
    let last_of_block = recorder.events.len() - 2;
    assert_eq!(condition, recorder.events.len() - 1);
    assert_eq!(recorder.events[last_of_block], "block");
    assert!(recorder.position("do statement") < condition);
    // every do statement opens a scope of its own, after the scope of the loop
    assert_eq!(recorder.count("scope of 0"), 3);
    assert!(scope < recorder.position("scope of 0"));
}

#[test]
fn repeat_visits_its_block_before_its_condition() {
    let body = Block::default().with_statement(LocalAssignStatement::from_variable("inside"));
    let mut block = Block::default().with_statement(RepeatStatement::new(body, true));
    let mut recorder = Recorder::new();

    DefaultVisitor::visit_block(&mut block, &mut recorder);

    assert_eq!(
        recorder.events,
        vec![
            "block",
            "statement",
            "repeat statement",
            "scope of 1 with condition",
            "block",
            "statement",
            "local assign statement",
            "expression true",
        ]
    );
}

#[test]
fn scope_comes_before_the_block_callback() {
    let mut block = Block::default().with_statement(DoStatement::default());
    let mut recorder = Recorder::new();

    DefaultVisitor::visit_block(&mut block, &mut recorder);

    assert_eq!(
        recorder.events,
        vec!["block", "statement", "do statement", "scope of 0", "block"]
    );
}

#[test]
fn a_callback_decides_what_is_visited_under_its_node() {
    let inner = Block::default().with_statement(LocalAssignStatement::from_variable("inside"));
    let mut block = Block::default().with_statement(DoStatement::new(inner));
    let mut recorder = Recorder::new();
    recorder.prune = true;

    DefaultVisitor::visit_block(&mut block, &mut recorder);

    assert_eq!(recorder.count("local assign statement"), 0);
    assert_eq!(
        recorder.events,
        vec!["block", "statement", "do statement", "scope of 0", "block"]
    );
    assert_eq!(block, Block::default().with_statement(DoStatement::default()));
}
