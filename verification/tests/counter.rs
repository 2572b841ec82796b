use darklua_core::nodes::{
    ArrayType, AssignStatement, BinaryExpression, BinaryOperator, Block, DoStatement, Expression,
    FieldExpression, FunctionCall, FunctionExpression, FunctionName, FunctionStatement, Identifier,
    IfExpression, IndexExpression, LastStatement, LocalAssignStatement, LocalFunctionStatement,
    NodeList, NumericForStatement, ParentheseExpression, Prefix, ReturnStatement, Statement,
    StringExpression, TableEntry, TableExpression, TupleArguments, Type, TypeCastExpression,
    TypeDeclarationStatement, TypeName, TypedIdentifier, UnaryExpression, UnaryOperator, Variable,
};
use darklua_core::nodes::Arguments;
use darklua_core::process::{DefaultVisitor, NodeCounter, NodeVisitor};

fn count(block: &mut Block) -> NodeCounter {
    let mut counter = NodeCounter::new();
    DefaultVisitor::visit_block(block, &mut counter);
    counter
}

fn single(statement: impl Into<Statement>) -> Block {
    Block::default().with_statement(statement)
}

#[test]
fn new_counter_starts_at_zero() {
    assert_eq!(NodeCounter::new(), NodeCounter::default());
    assert_eq!(NodeCounter::new().block_count, 0);
    assert_eq!(NodeCounter::new().type_count, 0);
}

#[test]
fn empty_block_counts_one_block_and_nothing_else() {
    let counter = count(&mut Block::default());
    let mut expected = NodeCounter::new();
    expected.block_count = 1;
    assert_eq!(counter, expected);
}

#[test]
fn do_with_numeric_for_counts_blocks_expressions_and_loops() {
    let numeric_for = NumericForStatement::new(
        "i",
        Expression::from(true),
        Expression::from(true),
        None,
        Block::default(),
    );
    let mut block = Block::default().with_statement(numeric_for);
    // one `do ... end` around one numeric for, walked from the do statement
    let mut statement = DoStatement::new(Block::default().with_statement(
        NumericForStatement::new(
            "i",
            Expression::from(true),
            Expression::from(true),
            None,
            Block::default(),
        ),
    ));
    let mut counter = NodeCounter::new();
    DefaultVisitor::visit_do_statement(&mut statement, &mut counter);

    assert_eq!(counter.block_count, 2);
    assert_eq!(counter.expression_count, 2);
    assert_eq!(counter.numeric_for_count, 1);
    assert_eq!(counter.generic_for_count, 0);
    assert_eq!(counter.do_count, 1);

    let top = count(&mut block);
    assert_eq!(top.block_count, 2);
    assert_eq!(top.do_count, 0);

    // walked from a block around the do statement, that block counts as well
    let mut around = Block::default().with_statement(statement);
    let all = count(&mut around);
    assert_eq!(all.block_count, 3);
    assert_eq!(all.expression_count, 2);
    assert_eq!(all.numeric_for_count, 1);
    assert_eq!(all.generic_for_count, 0);
    assert_eq!(all.do_count, 1);
}

#[test]
fn the_tree_is_left_as_it_was() {
    let mut block = single(IfStatementFixture::build());
    count(&mut block);
    assert_eq!(block, single(IfStatementFixture::build()));
}

struct IfStatementFixture;

impl IfStatementFixture {
    fn build() -> darklua_core::nodes::IfStatement {
        darklua_core::nodes::IfStatement::create(true, single(DoStatement::default()))
            .with_new_branch(Expression::nil(), Block::default())
            .with_else_block(Block::default().with_last_statement(LastStatement::new_break()))
    }
}

#[test]
fn last_statements_are_counted_by_kind() {
    let mut block = Block::default().with_last_statement(LastStatement::new_break());
    let counter = count(&mut block);
    assert_eq!(counter.break_count, 1);
    assert_eq!(counter.continue_count, 0);
    assert_eq!(counter.return_count, 0);

    let mut block = Block::default().with_last_statement(LastStatement::new_continue());
    let counter = count(&mut block);
    assert_eq!(counter.break_count, 0);
    assert_eq!(counter.continue_count, 1);

    let mut block = Block::default().with_last_statement(LastStatement::Return(
        ReturnStatement::new(vec![Expression::from(true), Expression::from(false)]),
    ));
    let counter = count(&mut block);
    assert_eq!(counter.return_count, 1);
    assert_eq!(counter.expression_count, 2);
    assert_eq!(counter.block_count, 1);
}

#[test]
fn assignment_counts_variables_then_values() {
    let statement = AssignStatement::new(
        vec![Variable::new("a"), Variable::new("b")],
        vec![Expression::from(true)],
    );
    let counter = count(&mut single(statement));
    assert_eq!(counter.assign_count, 1);
    assert_eq!(counter.variable_count, 2);
    assert_eq!(counter.expression_count, 1);
    assert_eq!(counter.block_count, 1);
}

#[test]
fn every_kind_of_expression_is_counted_as_an_expression() {
    let call = FunctionCall::new(
        Prefix::Identifier(Identifier::new("f")),
        Arguments::Tuple(TupleArguments::new(vec![Expression::from(true)])),
        None,
    );
    let expressions = vec![
        // 3: the binary and its two operands
        Expression::from(BinaryExpression::new(
            BinaryOperator::And,
            Expression::from(true),
            Expression::from(false),
        )),
        // 2: the call and its argument; the prefix is one identifier
        Expression::from(call),
        // 1, and one identifier for the prefix
        Expression::from(FieldExpression::new(
            Prefix::Identifier(Identifier::new("t")),
            Identifier::new("field"),
        )),
        // 1
        Expression::from(FunctionExpression::default()),
        // 1, and one identifier
        Expression::identifier("x"),
        // 4
        Expression::from(IfExpression::new(
            Expression::from(true),
            Expression::from(true),
            Expression::from(false),
            vec![],
        )),
        // 2, and one identifier for the prefix
        Expression::from(IndexExpression::new(
            Prefix::Identifier(Identifier::new("t")),
            Expression::from(true),
        )),
        // 2
        Expression::from(ParentheseExpression::new(Expression::nil())),
        // 1
        Expression::from(StringExpression::from_value("text")),
        // 2
        Expression::from(TableExpression::new(vec![TableEntry::Value(Expression::from(true))])),
        // 2
        Expression::from(UnaryExpression::new(UnaryOperator::Not, Expression::from(true))),
        // 1
        Expression::variable_arguments(),
        // 2, and one type
        Expression::from(TypeCastExpression::new(
            Expression::from(true),
            Type::from(TypeName::new("boolean")),
        )),
    ];
    let mut block = Block::default()
        .with_last_statement(LastStatement::Return(ReturnStatement::new(expressions)));
    let counter = count(&mut block);
    assert_eq!(counter.expression_count, 24);
    assert_eq!(counter.variable_count, 4);
    assert_eq!(counter.function_call_count, 1);
    assert_eq!(counter.type_count, 1);
    // the block itself and the body of the anonymous function
    assert_eq!(counter.block_count, 2);
    assert_eq!(counter.return_count, 1);
    assert_eq!(counter.function_count, 0);
}

#[test]
fn functions_count_their_body_and_the_types_of_their_parameters() {
    let parameter = || TypedIdentifier::new("a").with_type(Type::from(TypeName::new("number")));
    let statement = FunctionStatement::new(
        FunctionName::from_name("f"),
        Block::default(),
        vec![parameter(), TypedIdentifier::new("b")],
        false,
        None,
        None,
        None,
    );
    let counter = count(&mut single(statement));
    assert_eq!(counter.function_count, 1);
    assert_eq!(counter.local_function_count, 0);
    assert_eq!(counter.block_count, 2);
    assert_eq!(counter.variable_count, 1);
    assert_eq!(counter.type_count, 1);

    let local = LocalFunctionStatement::new(
        Identifier::new("g"),
        Block::default(),
        vec![parameter()],
        false,
        None,
        None,
        None,
    );
    let counter = count(&mut single(local));
    assert_eq!(counter.function_count, 0);
    assert_eq!(counter.local_function_count, 1);
    assert_eq!(counter.variable_count, 0);
    assert_eq!(counter.type_count, 1);
}

#[test]
fn type_declaration_counts_the_types_under_it() {
    let array = Type::Array(ArrayType::new(Type::Nil(None)));
    let statement =
        TypeDeclarationStatement::new(Identifier::new("T"), array, false, None);
    let counter = count(&mut single(statement));
    assert_eq!(counter.type_declaration_count, 1);
    assert_eq!(counter.type_count, 2);
    assert_eq!(counter.expression_count, 0);
    assert_eq!(counter.block_count, 1);
}

#[test]
fn local_assignment_visits_values_before_annotations() {
    let statement = LocalAssignStatement::new(
        vec![TypedIdentifier::new("a").with_type(Type::True(None))],
        vec![Expression::from(true)],
    );
    let counter = count(&mut single(statement));
    assert_eq!(counter.local_assign_count, 1);
    assert_eq!(counter.expression_count, 1);
    assert_eq!(counter.type_count, 1);
}

#[test]
fn a_full_counter_stays_full() {
    let mut counter = NodeCounter::new();
    counter.block_count = usize::MAX;
    counter.do_count = usize::MAX - 1;
    let mut block = Block::default()
        .with_statement(DoStatement::default())
        .with_statement(DoStatement::default());

    DefaultVisitor::visit_block(&mut block, &mut counter);

    assert_eq!(counter.block_count, usize::MAX);
    assert_eq!(counter.do_count, usize::MAX);
}

#[test]
fn statements_are_visited_in_order_of_a_long_block() {
    let mut statements = Vec::new();
    for _ in 0..200 {
        statements.push(Statement::from(DoStatement::default()));
    }
    let mut block = Block::new(statements, None);
    assert_eq!(block.statements.len(), 200);
    let counter = count(&mut block);
    assert_eq!(counter.do_count, 200);
    assert_eq!(counter.block_count, 201);
    assert_eq!(NodeList::<Statement>::new().len(), 0);
}
