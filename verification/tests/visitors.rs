use darklua_core::nodes::{
    Block, CompoundAssignStatement, CompoundOperator, DecimalNumber, DoStatement, Expression,
    GenericForStatement, IfStatement, InterpolatedStringExpression, LocalAssignStatement,
    NumericForStatement, RepeatStatement, Variable, WhileStatement,
};
use darklua_core::process::{DefaultVisitor, NodeCounter, NodeVisitor};

#[test]
fn visit_do_statement() {
    let mut counter = NodeCounter::new();
    let mut block = Block::default().with_statement(DoStatement::default());

    DefaultVisitor::visit_block(&mut block, &mut counter);

    assert_eq!(counter.block_count, 2);
    assert_eq!(counter.do_count, 1);
}

#[test]
fn visit_numeric_for_statement() {
    let mut counter = NodeCounter::new();
    let mut block = Block::default().with_statement(NumericForStatement::new(
        "i".to_owned(),
        Expression::from(true),
        Expression::from(true),
        None,
        Block::default(),
    ));

    DefaultVisitor::visit_block(&mut block, &mut counter);

    assert_eq!(counter.block_count, 2);
    assert_eq!(counter.expression_count, 2);
    assert_eq!(counter.numeric_for_count, 1);
}

#[test]
fn visit_generic_for_statement() {
    let mut counter = NodeCounter::new();
    let mut block = Block::default().with_statement(GenericForStatement::new(
        vec!["k".into()],
        vec![Expression::from(true)],
        Block::default(),
    ));

    DefaultVisitor::visit_block(&mut block, &mut counter);

    assert_eq!(counter.block_count, 2);
    assert_eq!(counter.expression_count, 1);
    assert_eq!(counter.generic_for_count, 1);
}

#[test]
fn visit_repeat_statement() {
    let mut counter = NodeCounter::new();
    let mut block = Block::default().with_statement(RepeatStatement::new(Block::default(), true));

    DefaultVisitor::visit_block(&mut block, &mut counter);

    assert_eq!(counter.block_count, 2);
    assert_eq!(counter.expression_count, 1);
    assert_eq!(counter.repeat_count, 1);
}

#[test]
fn visit_while_statement() {
    let mut counter = NodeCounter::new();
    let mut block = Block::default().with_statement(WhileStatement::new(Block::default(), true));

    DefaultVisitor::visit_block(&mut block, &mut counter);

    assert_eq!(counter.block_count, 2);
    assert_eq!(counter.expression_count, 1);
    assert_eq!(counter.while_count, 1);
}

#[test]
fn visit_if_statement() {
    let mut counter = NodeCounter::new();
    let mut block = Block::default().with_statement(IfStatement::create(true, Block::default()));

    DefaultVisitor::visit_block(&mut block, &mut counter);

    assert_eq!(counter.block_count, 2);
    assert_eq!(counter.expression_count, 1);
    assert_eq!(counter.if_count, 1);
}

#[test]
fn visit_if_statement_with_else() {
    let mut counter = NodeCounter::new();
    let if_statement =
        IfStatement::create(true, Block::default()).with_else_block(Block::default());

    let mut block = Block::default().with_statement(if_statement);

    DefaultVisitor::visit_block(&mut block, &mut counter);

    assert_eq!(counter.block_count, 3);
    assert_eq!(counter.expression_count, 1);
    assert_eq!(counter.if_count, 1);
}

#[test]
fn visit_if_statement_with_elseif_and_else() {
    let mut counter = NodeCounter::new();
    let if_statement = IfStatement::create(true, Block::default())
        .with_new_branch(false, Block::default())
        .with_else_block(Block::default());

    let mut block = Block::default().with_statement(if_statement);

    DefaultVisitor::visit_block(&mut block, &mut counter);

    assert_eq!(counter.block_count, 4);
    assert_eq!(counter.expression_count, 2);
    assert_eq!(counter.if_count, 1);
}

#[test]
fn visit_compound_assign_statement() {
    let mut counter = NodeCounter::new();
    let statement = CompoundAssignStatement::new(
        CompoundOperator::Plus,
        Variable::new("var"),
        DecimalNumber::from_bits(1_f64.to_bits()),
    );

    let mut block: Block = statement.into();

    DefaultVisitor::visit_block(&mut block, &mut counter);

    assert_eq!(counter.compound_assign, 1);
    assert_eq!(counter.expression_count, 1);
    assert_eq!(counter.variable_count, 1);
}

#[test]
fn visit_interpolated_string() {
    let mut counter = NodeCounter::new();
    let statement = LocalAssignStatement::from_variable("value")
        .with_value(InterpolatedStringExpression::empty().with_segment(Expression::from(true)));

    let mut block: Block = statement.into();

    DefaultVisitor::visit_block(&mut block, &mut counter);

    assert_eq!(counter.interpolated_string_count, 1);
    assert_eq!(counter.expression_count, 2);
}
