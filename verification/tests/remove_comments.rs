use darklua_core::nodes::{
    Arguments, Block, BlockTokens, DoStatement, DoTokens, Expression, FunctionCall,
    FunctionCallTokens, Identifier, IfBranch, IfBranchTokens, IfStatement, LastStatement,
    LocalAssignStatement, NodeList, Prefix, Statement, Token, TriviaKind, TupleArguments,
    TupleArgumentsTokens, Type, TypedIdentifier, TypedIdentifierTokens,
};
use darklua_core::rules::{
    Context, FlawlessRule, RemoveComments, Rule, RuleConfiguration, RuleConfigurationError,
    RuleProperties, RulePropertyValue, REMOVE_COMMENTS_RULE_NAME,
};

fn new_rule() -> RemoveComments {
    RemoveComments::default()
}

fn noisy(content: &str) -> Token {
    Token::from_content(content)
        .with_leading_trivia(TriviaKind::Comment.with_content("-- before"))
        .with_leading_trivia(TriviaKind::Whitespace.with_content(" "))
        .with_trailing_trivia(TriviaKind::Comment.with_content("--[[ after ]]"))
}

fn clean(content: &str) -> Token {
    Token::from_content(content).with_leading_trivia(TriviaKind::Whitespace.with_content(" "))
}

fn tree(token: fn(&str) -> Token) -> Block {
    let call = FunctionCall::new(
        Prefix::Identifier(Identifier::new("print").with_token(token("print"))),
        Arguments::Tuple(
            TupleArguments::new(vec![Expression::True(Some(token("true"))), Expression::nil()])
                .with_tokens(TupleArgumentsTokens {
                    opening_parenthese: token("("),
                    closing_parenthese: token(")"),
                    commas: NodeList::from_vec(vec![token(",")]),
                }),
        ),
        Some(Identifier::new("method").with_token(token("method"))),
    )
    .with_tokens(FunctionCallTokens { colon: Some(token(":")) });
    let local = LocalAssignStatement::new(
        vec![TypedIdentifier::new("a")
            .with_type(Type::Nil(Some(token("nil"))))
            .with_tokens(TypedIdentifierTokens { name: token("a"), colon: Some(token(":")) })],
        vec![],
    );
    let branch = IfBranch::new(Expression::False(Some(token("false"))), Block::default())
        .with_tokens(IfBranchTokens { elseif: token("elseif"), then_token: token("then") });
    let inner = Block::default()
        .with_statement(call)
        .with_statement(local)
        .with_statement(IfStatement::new(vec![branch], None))
        .with_last_statement(LastStatement::Break(Some(token("break"))));
    Block::default()
        .with_statement(
            DoStatement::new(inner)
                .with_tokens(DoTokens { do_token: token("do"), end: token("end") }),
        )
        .with_tokens(BlockTokens {
            semicolons: NodeList::from_vec(vec![token(";")]),
            last_semicolon: None,
            final_token: Some(token("")),
        })
}

#[test]
fn serialize_default_rule() {
    let rule = new_rule();

    assert_eq!(rule.get_name(), "remove_comments");
    assert_eq!(rule.get_name(), REMOVE_COMMENTS_RULE_NAME);
    assert_eq!(rule.serialize_to_properties(), RuleProperties::new());
    assert!(rule.serialize_to_properties().is_empty());
}

#[test]
fn configure_with_its_own_properties_leaves_the_rule_as_it_is() {
    let mut rule = new_rule();
    let properties = rule.serialize_to_properties();
    assert_eq!(rule.configure(properties), Ok(()));
    assert_eq!(rule, new_rule());
}

#[test]
fn configure_with_any_property_fails() {
    let mut rule = new_rule();
    let mut properties = RuleProperties::new();
    properties.insert("keep".to_owned(), RulePropertyValue::Boolean(true));

    assert_eq!(
        rule.configure(properties),
        Err(RuleConfigurationError::UnexpectedProperty("keep".to_owned()))
    );
    assert_eq!(rule, new_rule());
}

#[test]
fn comments_are_removed_from_every_token() {
    let mut block = tree(noisy);
    let mut context = Context::new("do print:method(true, nil) end".to_owned());

    new_rule().flawless_process(&mut block, &mut context);

    assert_eq!(block, tree(clean));
    assert_eq!(context, Context::new("do print:method(true, nil) end".to_owned()));
}

#[test]
fn removing_comments_twice_is_removing_them_once() {
    let mut once = tree(noisy);
    let mut context = Context::new(String::new());
    new_rule().flawless_process(&mut once, &mut context);

    let mut twice = tree(noisy);
    new_rule().flawless_process(&mut twice, &mut context);
    new_rule().flawless_process(&mut twice, &mut context);

    assert_eq!(twice, once);
}

#[test]
fn a_tree_without_tokens_is_left_as_it_is() {
    let bare = || {
        Block::default()
            .with_statement(DoStatement::default())
            .with_statement(Statement::from(IfStatement::create(true, Block::default())))
    };
    let mut block = bare();
    let mut context = Context::new(String::new());

    new_rule().flawless_process(&mut block, &mut context);

    assert_eq!(block, bare());
}

#[test]
fn a_flawless_rule_is_a_rule_that_succeeds() {
    let mut block = tree(noisy);
    let mut context = Context::new(String::new());

    assert_eq!(new_rule().process(&mut block, &mut context), Ok(()));
    assert_eq!(block, tree(clean));
}
