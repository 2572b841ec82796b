use darklua_core::nodes::{
    Arguments, Expression, NodeList, StringExpression, TableEntry, TableExpression, Token,
    TriviaKind,
    TupleArguments, TupleArgumentsTokens,
};

fn tokens(commas: usize) -> TupleArgumentsTokens {
    let mut list = Vec::new();
    for _ in 0..commas {
        list.push(Token::from_content(","));
    }
    TupleArgumentsTokens {
        opening_parenthese: Token::from_content("("),
        closing_parenthese: Token::from_content(")"),
        commas: NodeList::from_vec(list),
    }
}

fn tuple_is_well_formed(tuple: &TupleArguments) -> bool {
    match tuple.get_tokens() {
        Some(tokens) => tokens.commas.len() == tuple.len().saturating_sub(1),
        None => true,
    }
}

#[test]
fn string_arguments_become_a_tuple_of_the_string() {
    let string = || StringExpression::from_value("hello");
    let tuple = TupleArguments::from(Arguments::String(string()));
    assert_eq!(tuple.len(), 1);
    assert!(tuple.get_tokens().is_none());
    assert_eq!(tuple.to_expressions(), vec![Expression::String(string())]);
}

#[test]
fn table_arguments_become_a_tuple_of_the_table() {
    let table = || TableExpression::new(vec![TableEntry::Value(Expression::from(true))]);
    let tuple = TupleArguments::from(Arguments::Table(table()));
    assert_eq!(tuple.len(), 1);
    assert_eq!(tuple.to_expressions(), vec![Expression::Table(table())]);
}

#[test]
fn tuple_arguments_stay_as_they_are() {
    let tuple = || TupleArguments::new(vec![Expression::from(true)]).with_tokens(tokens(0));
    assert_eq!(TupleArguments::from(Arguments::Tuple(tuple())), tuple());
}

#[test]
fn argument_added_to_a_string_gives_two_values() {
    let string = StringExpression::from_value("hello");
    let arguments = Arguments::String(StringExpression::from_value("hello"))
        .with_argument(Expression::from(true));
    match arguments {
        Arguments::Tuple(tuple) => {
            assert_eq!(tuple.len(), 2);
            assert_eq!(
                tuple.to_expressions(),
                vec![Expression::String(string), Expression::from(true)]
            );
        }
        other => panic!("expected a tuple, got {:?}", other),
    }
}

#[test]
fn argument_added_to_a_table_gives_two_values() {
    let arguments = Arguments::Table(TableExpression::default()).with_argument(false);
    assert_eq!(
        arguments.to_expressions(),
        vec![Expression::Table(TableExpression::default()), Expression::False(None)]
    );
}

#[test]
fn to_expressions_of_each_kind() {
    assert_eq!(Arguments::default().to_expressions(), vec![]);
    assert_eq!(
        Arguments::from(StringExpression::from_value("s")).to_expressions(),
        vec![Expression::String(StringExpression::from_value("s"))]
    );
    let tuple = TupleArguments::new(vec![Expression::nil(), Expression::from(true)]);
    assert_eq!(
        Arguments::from(tuple).to_expressions(),
        vec![Expression::Nil(None), Expression::True(None)]
    );
}

#[test]
fn new_tuple_has_no_tokens() {
    let tuple = TupleArguments::new(vec![Expression::from(true), Expression::from(false)]);
    assert_eq!(tuple.len(), 2);
    assert!(!tuple.is_empty());
    assert!(tuple.get_tokens().is_none());
    assert!(TupleArguments::default().is_empty());
    assert_eq!(TupleArguments::default().len(), 0);
}

#[test]
fn set_tokens_replaces_the_tokens() {
    let mut tuple = TupleArguments::new(vec![Expression::from(true), Expression::from(false)]);
    tuple.set_tokens(tokens(1));
    assert_eq!(tuple.get_tokens(), Some(&tokens(1)));
    tuple.set_tokens(tokens(3));
    assert_eq!(tuple.get_tokens(), Some(&tokens(3)));
    assert_eq!(tuple.len(), 2);
}

#[test]
fn with_argument_keeps_one_comma_between_two_values() {
    let tuple = TupleArguments::default().with_tokens(tokens(0));
    assert!(tuple_is_well_formed(&tuple));

    let one = tuple.with_argument(true);
    assert_eq!(one.len(), 1);
    assert_eq!(one.get_tokens(), Some(&tokens(0)));
    assert!(tuple_is_well_formed(&one));

    let two = one.with_argument(false);
    assert_eq!(two.len(), 2);
    assert_eq!(two.get_tokens(), Some(&tokens(1)));
    assert!(tuple_is_well_formed(&two));

    let three = two.with_argument(true);
    assert_eq!(three.get_tokens(), Some(&tokens(2)));
    assert_eq!(
        three.to_expressions(),
        vec![Expression::True(None), Expression::False(None), Expression::True(None)]
    );
}

#[test]
fn with_argument_leaves_other_commas_alone() {
    let tuple = TupleArguments::new(vec![Expression::from(true)]).with_tokens(tokens(4));
    let more = tuple.with_argument(true);
    assert_eq!(more.len(), 2);
    assert_eq!(more.get_tokens(), Some(&tokens(4)));

    let bare = TupleArguments::new(vec![Expression::from(true)]).with_argument(true);
    assert!(bare.get_tokens().is_none());
}

#[test]
fn values_can_be_read_and_changed_in_place() {
    let mut tuple = TupleArguments::new(vec![Expression::from(true), Expression::from(false)])
        .with_tokens(tokens(1));
    assert_eq!(tuple.iter_values().get(1), Some(&Expression::False(None)));
    assert_eq!(tuple.iter_values().get(2), None);

    let values = tuple.iter_mut_values();
    values.push(Expression::nil());
    if let NodeList::Cell(cell) = values {
        cell.head = Expression::nil();
    }
    assert_eq!(tuple.get_tokens(), Some(&tokens(1)));
    assert_eq!(
        tuple.to_expressions(),
        vec![Expression::Nil(None), Expression::False(None), Expression::Nil(None)]
    );
}

fn comment() -> darklua_core::nodes::Trivia {
    TriviaKind::Comment.with_content("-- note")
}

fn space() -> darklua_core::nodes::Trivia {
    TriviaKind::Whitespace.with_content(" ")
}

fn noisy() -> TupleArgumentsTokens {
    TupleArgumentsTokens {
        opening_parenthese: Token::from_content("(")
            .with_leading_trivia(comment())
            .with_trailing_trivia(space()),
        closing_parenthese: Token::from_content(")").with_trailing_trivia(comment()),
        commas: NodeList::from_vec(vec![Token::from_content(",")
            .with_leading_trivia(space())
            .with_leading_trivia(comment())
            .with_leading_trivia(space())]),
    }
}

fn clean() -> TupleArgumentsTokens {
    TupleArgumentsTokens {
        opening_parenthese: Token::from_content("(").with_trailing_trivia(space()),
        closing_parenthese: Token::from_content(")"),
        commas: NodeList::from_vec(vec![Token::from_content(",")
            .with_leading_trivia(space())
            .with_leading_trivia(space())]),
    }
}

fn values() -> Vec<Expression> {
    vec![Expression::from(true), Expression::from(false)]
}

#[test]
fn clear_comments_keeps_values_and_whitespace() {
    let mut tokens = noisy();
    tokens.clear_comments();
    assert_eq!(tokens, clean());
    tokens.clear_comments();
    assert_eq!(tokens, clean());

    let mut tuple = TupleArguments::new(values()).with_tokens(noisy());
    tuple.clear_comments();
    assert_eq!(tuple, TupleArguments::new(values()).with_tokens(clean()));

    let mut arguments = Arguments::Tuple(TupleArguments::new(values()).with_tokens(noisy()));
    arguments.clear_comments();
    assert_eq!(arguments, Arguments::Tuple(TupleArguments::new(values()).with_tokens(clean())));

    let string = || {
        Arguments::String(
            StringExpression::from_value("s")
                .with_token(Token::from_content("s").with_leading_trivia(comment())),
        )
    };
    let mut arguments = string();
    arguments.clear_comments();
    assert_eq!(arguments, string());
}
