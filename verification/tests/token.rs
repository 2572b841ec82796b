use darklua_core::nodes::{NodeList, Position, Token, Trivia, TriviaKind};

#[test]
fn list_keeps_the_order_of_a_vector() {
    let list = NodeList::from_vec(vec![1, 2, 3]);
    assert_eq!(list.len(), 3);
    assert!(!list.is_empty());
    assert_eq!(list.get(0), Some(&1));
    assert_eq!(list.get(2), Some(&3));
    assert_eq!(list.get(3), None);
    assert_eq!(list.into_vec(), vec![1, 2, 3]);
    assert!(NodeList::<u8>::from_vec(vec![]).is_empty());
    assert_eq!(NodeList::<u8>::new().into_vec(), Vec::<u8>::new());
}

#[test]
fn list_grows_at_both_ends() {
    let mut list = NodeList::new().prepend(2).prepend(1);
    list.push(3);
    assert_eq!(list, NodeList::from_vec(vec![1, 2, 3]));
    let taken = list.take();
    assert!(list.is_empty());
    assert_eq!(taken.into_vec(), vec![1, 2, 3]);
}

#[test]
fn list_compares_lengths_exactly() {
    let two = NodeList::from_vec(vec![1, 2]);
    let three = NodeList::from_vec(vec!["a", "b", "c"]);
    assert!(two.is_one_shorter_than(&three));
    assert!(!three.is_one_shorter_than(&two));
    assert!(!two.is_one_shorter_than(&two));
    assert!(NodeList::<u8>::new().is_one_shorter_than(&NodeList::from_vec(vec![1])));
    assert!(!NodeList::<u8>::new().is_one_shorter_than(&NodeList::<u8>::new()));
}

#[test]
fn trivia_know_their_kind() {
    let comment = TriviaKind::Comment.at(0, 4, 1);
    assert!(comment.is_comment());
    assert_eq!(
        comment,
        Trivia {
            position: Position::LineNumberReference { start: 0, end: 4, line_number: 1 },
            kind: TriviaKind::Comment,
        }
    );
    let space = TriviaKind::Whitespace.with_content("  ");
    assert!(!space.is_comment());
    assert_eq!(space.position, Position::Any { content: "  ".to_owned() });
}

#[test]
fn clearing_a_token_takes_comments_out_and_keeps_the_rest() {
    let mut token = Token::new_with_line(3, 8, 2)
        .with_leading_trivia(TriviaKind::Comment.with_content("-- a"))
        .with_leading_trivia(TriviaKind::Whitespace.with_content("\n"))
        .with_leading_trivia(TriviaKind::Comment.with_content("-- b"))
        .with_trailing_trivia(TriviaKind::Whitespace.with_content(" "))
        .with_trailing_trivia(TriviaKind::Comment.with_content("-- c"));

    token.clear_comments();

    let expected = Token::new_with_line(3, 8, 2)
        .with_leading_trivia(TriviaKind::Whitespace.with_content("\n"))
        .with_trailing_trivia(TriviaKind::Whitespace.with_content(" "));
    assert_eq!(token, expected);

    token.clear_comments();
    assert_eq!(token, expected);
}

#[test]
fn clearing_a_token_without_comments_changes_nothing() {
    let mut token = Token::from_content("end");
    token.clear_comments();
    assert_eq!(token, Token::from_content("end"));
    assert_eq!(token.position, Position::Any { content: "end".to_owned() });
    assert!(token.leading_trivia.is_empty());
}
