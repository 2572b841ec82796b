use crate::nodes::list::{ListCell, NodeList};
use vstd::prelude::*;

verus! {

/// Where a piece of source text stands, or what it says.
#[derive(Debug, PartialEq, Eq)]
pub enum Position {
    /// A range of the source, with the line it starts on.
    LineNumberReference { start: usize, end: usize, line_number: usize },
    /// Text that belongs on a given line.
    LineNumber { content: String, line_number: usize },
    /// Text that can stand anywhere.
    Any { content: String },
}

/// The two kinds of trivia.
#[derive(Debug, PartialEq, Eq)]
pub enum TriviaKind {
    Comment,
    Whitespace,
}

/// A piece of source text that carries no meaning: a comment or whitespace.
#[derive(Debug, PartialEq, Eq)]
pub struct Trivia {
    pub position: Position,
    pub kind: TriviaKind,
}

/// A piece of source text with the trivia around it.
#[derive(Debug, PartialEq, Eq)]
pub struct Token {
    pub position: Position,
    pub leading_trivia: NodeList<Trivia>,
    pub trailing_trivia: NodeList<Trivia>,
}

impl TriviaKind {
    /// A trivia of this kind over a range of the source.
    pub fn at(self, start: usize, end: usize, line_number: usize) -> (trivia: Trivia)
        ensures
            trivia.kind == self,
            trivia.position == (Position::LineNumberReference { start, end, line_number }),
    {
        Trivia { position: Position::LineNumberReference { start, end, line_number }, kind: self }
    }

    /// A trivia of this kind that holds `content`.
    pub fn with_content(self, content: &str) -> (trivia: Trivia)
        ensures
            trivia.kind == self,
            trivia.position matches Position::Any { content: held } && held@ == content@,
    {
        Trivia { position: Position::Any { content: content.to_owned() }, kind: self }
    }
}

impl Trivia {
    /// Whether this trivia is a comment.
    pub open spec fn is_comment_spec(&self) -> bool {
        self.kind is Comment
    }

    /// Whether this trivia is a comment.
    #[verifier::when_used_as_spec(is_comment_spec)]
    pub fn is_comment(&self) -> (comment: bool)
        ensures
            comment == self.is_comment_spec(),
    {
        match self.kind {
            TriviaKind::Comment => true,
            TriviaKind::Whitespace => false,
        }
    }
}

/// Whether some trivia of `list` is a comment.
pub open spec fn trivia_hold_comment(list: NodeList<Trivia>) -> bool
    decreases list,
{
    match list {
        NodeList::Empty => false,
        NodeList::Cell(cell) => cell.head.is_comment() || trivia_hold_comment(cell.tail),
    }
}

/// The trivia of `list` that are not comments, in the same order.
pub open spec fn trivia_without_comments(list: NodeList<Trivia>) -> NodeList<Trivia>
    decreases list,
{
    match list {
        NodeList::Empty => NodeList::Empty,
        NodeList::Cell(cell) => if cell.head.is_comment() {
            trivia_without_comments(cell.tail)
        } else {
            NodeList::cons(cell.head, trivia_without_comments(cell.tail))
        },
    }
}

/// What is left of a list of trivia is what a filter on the comments leaves.
pub proof fn trivia_without_comments_is_filter(list: NodeList<Trivia>)
    ensures
        trivia_without_comments(list)@ == list@.filter(|trivia: Trivia| !trivia.is_comment()),
    decreases list,
{
    let keep = |trivia: Trivia| !trivia.is_comment();
    match list {
        NodeList::Empty => {
            assert(list@.filter(keep) =~= Seq::<Trivia>::empty());
        },
        NodeList::Cell(cell) => {
            trivia_without_comments_is_filter(cell.tail);
            cell.tail@.lemma_filter_prepend(cell.head, keep);
            assert(trivia_without_comments(list)@ =~= list@.filter(keep));
        },
    }
}

/// No comment is left in a list whose comments were taken out.
pub proof fn cleared_trivia_hold_no_comment(list: NodeList<Trivia>)
    ensures
        !trivia_hold_comment(trivia_without_comments(list)),
    decreases list,
{
    match list {
        NodeList::Empty => {},
        NodeList::Cell(cell) => {
            cleared_trivia_hold_no_comment(cell.tail);
        },
    }
}

/// Taking comments out never makes a list longer.
pub proof fn trivia_without_comments_is_no_longer(list: NodeList<Trivia>)
    ensures
        trivia_without_comments(list).count() <= list.count(),
    decreases list,
{
    match list {
        NodeList::Empty => {},
        NodeList::Cell(cell) => {
            trivia_without_comments_is_no_longer(cell.tail);
        },
    }
}

/// A list holds a comment exactly when taking the comments out changes it.
pub proof fn trivia_hold_comment_iff_clearing_changes(list: NodeList<Trivia>)
    ensures
        trivia_hold_comment(list) <==> trivia_without_comments(list) != list,
    decreases list,
{
    match list {
        NodeList::Empty => {},
        NodeList::Cell(cell) => {
            trivia_hold_comment_iff_clearing_changes(cell.tail);
            trivia_without_comments_is_no_longer(cell.tail);
        },
    }
}

/// A list without comments loses nothing when its comments are taken out.
pub proof fn trivia_without_comments_is_idempotent(list: NodeList<Trivia>)
    ensures
        trivia_without_comments(trivia_without_comments(list)) == trivia_without_comments(list),
    decreases list,
{
    match list {
        NodeList::Empty => {},
        NodeList::Cell(cell) => {
            trivia_without_comments_is_idempotent(cell.tail);
        },
    }
}

/// Takes the comments out of a list of trivia and keeps the rest in order.
pub fn clear_trivia_comments(list: &mut NodeList<Trivia>)
    ensures
        *final(list) == trivia_without_comments(*old(list)),
    decreases *old(list),
{
    match list.take() {
        NodeList::Empty => {},
        NodeList::Cell(cell) => {
            let cell = *cell;
            let mut tail = cell.tail;
            clear_trivia_comments(&mut tail);
            if cell.head.is_comment() {
                *list = tail;
            } else {
                *list = NodeList::Cell(Box::new(ListCell { head: cell.head, tail }));
            }
        },
    }
}

impl Token {
    /// A token over a range of the source, without trivia.
    pub fn new_with_line(start: usize, end: usize, line_number: usize) -> (token: Self)
        ensures
            token.position == (Position::LineNumberReference { start, end, line_number }),
            token.leading_trivia == NodeList::<Trivia>::Empty,
            token.trailing_trivia == NodeList::<Trivia>::Empty,
    {
        Token {
            position: Position::LineNumberReference { start, end, line_number },
            leading_trivia: NodeList::Empty,
            trailing_trivia: NodeList::Empty,
        }
    }

    /// A token that holds `content`, without trivia.
    pub fn from_content(content: &str) -> (token: Self)
        ensures
            token.position matches Position::Any { content: held } && held@ == content@,
            token.leading_trivia == NodeList::<Trivia>::Empty,
            token.trailing_trivia == NodeList::<Trivia>::Empty,
    {
        Token {
            position: Position::Any { content: content.to_owned() },
            leading_trivia: NodeList::Empty,
            trailing_trivia: NodeList::Empty,
        }
    }

    /// This token with `trivia` added after its leading trivia.
    pub fn with_leading_trivia(self, trivia: Trivia) -> (token: Self)
        ensures
            token.position == self.position,
            token.leading_trivia@ == self.leading_trivia@.push(trivia),
            token.trailing_trivia == self.trailing_trivia,
    {
        let mut token = self;
        token.leading_trivia.push(trivia);
        token
    }

    /// This token with `trivia` added after its trailing trivia.
    pub fn with_trailing_trivia(self, trivia: Trivia) -> (token: Self)
        ensures
            token.position == self.position,
            token.leading_trivia == self.leading_trivia,
            token.trailing_trivia@ == self.trailing_trivia@.push(trivia),
    {
        let mut token = self;
        token.trailing_trivia.push(trivia);
        token
    }

    /// Whether this token holds no comment: clearing its comments would leave it as it
    /// is.
    pub open spec fn is_comment_free(self) -> bool {
        !self.has_comments()
    }

    /// Whether a comment stands before or after this token.
    pub open spec fn has_comments(self) -> bool {
        trivia_hold_comment(self.leading_trivia) || trivia_hold_comment(self.trailing_trivia)
    }

    /// This token with every comment taken out of its trivia.
    pub open spec fn without_comments(self) -> Token {
        Token {
            position: self.position,
            leading_trivia: trivia_without_comments(self.leading_trivia),
            trailing_trivia: trivia_without_comments(self.trailing_trivia),
        }
    }

    /// Takes every comment out of the trivia; position and whitespace stay.
    pub fn clear_comments(&mut self)
        ensures
            *final(self) == old(self).without_comments(),
    {
        clear_trivia_comments(&mut self.leading_trivia);
        clear_trivia_comments(&mut self.trailing_trivia);
    }

    /// Clearing comments a second time changes nothing, and a cleared token holds no
    /// comment.
    pub proof fn without_comments_is_idempotent(self)
        ensures
            self.without_comments().without_comments() == self.without_comments(),
            !self.without_comments().has_comments(),
    {
        trivia_without_comments_is_idempotent(self.leading_trivia);
        trivia_without_comments_is_idempotent(self.trailing_trivia);
        cleared_trivia_hold_no_comment(self.leading_trivia);
        cleared_trivia_hold_no_comment(self.trailing_trivia);
    }

    /// A token holds a comment exactly when clearing its comments changes it.
    pub proof fn has_comments_iff_clearing_changes(self)
        ensures
            self.has_comments() <==> self.without_comments() != self,
    {
        trivia_hold_comment_iff_clearing_changes(self.leading_trivia);
        trivia_hold_comment_iff_clearing_changes(self.trailing_trivia);
    }

    /// A token that clearing leaves as it is holds no comment.
    pub proof fn cleared_is_comment_free(self)
        requires
            self.without_comments() == self,
        ensures
            self.is_comment_free(),
    {
        self.has_comments_iff_clearing_changes();
    }
}

/// Whether a token that may be absent holds no comment.
pub open spec fn optional_token_is_comment_free(token: Option<Token>) -> bool {
    match token {
        Some(token) => !token.has_comments(),
        None => true,
    }
}

/// An optional token that clearing leaves as it is holds no comment.
pub proof fn cleared_optional_token_is_comment_free(token: Option<Token>)
    requires
        optional_token_without_comments(token) == token,
    ensures
        optional_token_is_comment_free(token),
{
    match token {
        Some(token) => token.cleared_is_comment_free(),
        None => {},
    }
}

/// Whether no token of a list holds a comment.
pub open spec fn tokens_are_comment_free(list: NodeList<Token>) -> bool
    decreases list,
{
    match list {
        NodeList::Empty => true,
        NodeList::Cell(cell) => !cell.head.has_comments() && tokens_are_comment_free(cell.tail),
    }
}

/// A list of tokens that clearing leaves as it is holds no comment.
pub proof fn cleared_tokens_are_comment_free(list: NodeList<Token>)
    requires
        tokens_without_comments(list) == list,
    ensures
        tokens_are_comment_free(list),
    decreases list,
{
    match list {
        NodeList::Empty => {},
        NodeList::Cell(cell) => {
            cell.head.cleared_is_comment_free();
            cleared_tokens_are_comment_free(cell.tail);
        },
    }
}

/// An optional token with its comments taken out.
pub open spec fn optional_token_without_comments(token: Option<Token>) -> Option<Token> {
    match token {
        Some(token) => Some(token.without_comments()),
        None => None,
    }
}

/// Takes the comments out of a token that may be absent.
pub fn clear_optional_token_comments(token: &mut Option<Token>)
    ensures
        *final(token) == optional_token_without_comments(*old(token)),
{
    match token {
        Some(token) => token.clear_comments(),
        None => {},
    }
}

/// Clearing an optional token a second time changes nothing.
pub proof fn optional_token_without_comments_is_idempotent(token: Option<Token>)
    ensures
        optional_token_without_comments(optional_token_without_comments(token))
            == optional_token_without_comments(token),
{
    match token {
        Some(token) => token.without_comments_is_idempotent(),
        None => {},
    }
}

/// The tokens of `list`, each with its comments taken out.
pub open spec fn tokens_without_comments(list: NodeList<Token>) -> NodeList<Token>
    decreases list,
{
    match list {
        NodeList::Empty => NodeList::Empty,
        NodeList::Cell(cell) => NodeList::cons(
            cell.head.without_comments(),
            tokens_without_comments(cell.tail),
        ),
    }
}

/// Takes the comments out of every token of a list.
pub fn clear_tokens_comments(list: &mut NodeList<Token>)
    ensures
        *final(list) == tokens_without_comments(*old(list)),
    decreases *old(list),
{
    match list {
        NodeList::Empty => {},
        NodeList::Cell(cell) => {
            cell.head.clear_comments();
            clear_tokens_comments(&mut cell.tail);
        },
    }
}

/// Clearing a list of tokens keeps its length and clears each token in place.
pub proof fn tokens_without_comments_is_pointwise(list: NodeList<Token>)
    ensures
        tokens_without_comments(list)@.len() == list@.len(),
        forall|i: int|
            0 <= i < list@.len() ==> (#[trigger] tokens_without_comments(list)@[i])
                == list@[i].without_comments(),
    decreases list,
{
    match list {
        NodeList::Empty => {},
        NodeList::Cell(cell) => {
            tokens_without_comments_is_pointwise(cell.tail);
            assert forall|i: int| 0 <= i < list@.len() implies (#[trigger] tokens_without_comments(
                list,
            )@[i]) == list@[i].without_comments() by {
                if i > 0 {
                    assert(list@[i] == cell.tail@[i - 1]);
                    assert(tokens_without_comments(list)@[i] == tokens_without_comments(
                        cell.tail,
                    )@[i - 1]);
                }
            }
        },
    }
}

/// Clearing a list of tokens a second time changes nothing.
pub proof fn tokens_without_comments_is_idempotent(list: NodeList<Token>)
    ensures
        tokens_without_comments(tokens_without_comments(list)) == tokens_without_comments(list),
    decreases list,
{
    match list {
        NodeList::Empty => {},
        NodeList::Cell(cell) => {
            cell.head.without_comments_is_idempotent();
            tokens_without_comments_is_idempotent(cell.tail);
        },
    }
}

} // verus!
