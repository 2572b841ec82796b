use crate::nodes::expression::Expression;
use crate::nodes::list::{NodeList, deeper};
use crate::nodes::token::{
    Token, clear_optional_token_comments, cleared_optional_token_is_comment_free,
    optional_token_is_comment_free, optional_token_without_comments,
    optional_token_without_comments_is_idempotent,
};
use vstd::std_specs::convert::IntoSpec;
use vstd::prelude::*;

verus! {

/// A string that embeds expressions between its text.
#[derive(Debug, PartialEq, Eq)]
pub struct InterpolatedStringExpression {
    pub segments: NodeList<InterpolationSegment>,
    pub tokens: Option<InterpolatedStringTokens>,
}

impl InterpolatedStringExpression {
    /// This node with the tokens it was read from.
    pub fn with_tokens(self, tokens: InterpolatedStringTokens) -> (node: Self)
        ensures
            node == (InterpolatedStringExpression { tokens: Some(tokens), ..self }),
    {
        let mut node = self;
        node.tokens = Some(tokens);
        node
    }

    /// How deep the tree under this node goes.
    pub open spec fn depth(self) -> nat
        decreases self,
    {
        1 + segments_depth(self.segments)
    }

    /// This node with every comment taken out of its own tokens and of the parts that
    /// are cleared with it.
    pub open spec fn without_comments(self) -> Self {
        InterpolatedStringExpression {
            segments: segments_without_comments(self.segments),
            tokens: match self.tokens {
                Some(tokens) => Some(tokens.without_comments()),
                None => None,
            },
        }
    }

    /// Takes the comments out of the tokens of this node and of the parts that are
    /// cleared with it. What the node means stays as it is.
    pub fn clear_comments(&mut self)
        ensures
            *final(self) == old(self).without_comments(),
    {
        clear_segments_comments(&mut self.segments);
        match &mut self.tokens {
            Some(tokens) => tokens.clear_comments(),
            None => {},
        }
    }

    /// Clearing comments a second time changes nothing.
    pub proof fn without_comments_is_idempotent(self)
        ensures
            self.without_comments().without_comments() == self.without_comments(),
    {
        segments_without_comments_is_idempotent(self.segments);
        match self.tokens {
            Some(tokens) => tokens.without_comments_is_idempotent(),
            None => {},
        }
    }

    /// Clearing comments leaves the depth as it is.
    pub proof fn without_comments_keeps_depth(self)
        ensures
            self.without_comments().depth() == self.depth(),
    {
        segments_without_comments_keeps_depth(self.segments);
    }

    /// Whether no token of this node, nor of anything under it, holds a comment.
    pub open spec fn is_comment_free(self) -> bool
        decreases self,
    {
        &&& segments_are_comment_free(self.segments)
        &&& match self.tokens {
            Some(tokens) => tokens.is_comment_free(),
            None => true,
        }
    }

    /// This node with the comments taken out of every token of it and of everything
    /// under it.
    pub open spec fn stripped(self) -> Self
        decreases self,
    {
        InterpolatedStringExpression {
            segments: segments_stripped(self.segments),
            tokens: match self.tokens {
                Some(tokens) => Some(tokens.without_comments()),
                None => None,
            },
        }
    }

    /// Taking the comments out of everything makes no difference between a node and the
    /// node cleared.
    pub proof fn stripped_absorbs_clearing(self)
        ensures
            self.without_comments().stripped() == self.stripped(),
    {
        self.without_comments_is_idempotent();
        segments_stripped_absorbs_clearing(self.segments);
    }

    /// Once the comments are taken out of everything, no token holds a comment.
    pub proof fn stripped_is_comment_free(self)
        ensures
            self.stripped().is_comment_free(),
        decreases self.depth(), 0nat,
    {
        segments_stripped_are_comment_free(self.segments);
        match self.tokens {
            Some(tokens) => {
                tokens.without_comments_is_idempotent();
                tokens.without_comments().cleared_is_comment_free();
            },
            None => {},
        }
    }

    /// Taking the comments out of everything a second time changes nothing.
    pub proof fn stripped_is_idempotent(self)
        ensures
            self.stripped().stripped() == self.stripped(),
        decreases self.depth(), 0nat,
    {
        segments_stripped_is_idempotent(self.segments);
        match self.tokens {
            Some(tokens) => tokens.without_comments_is_idempotent(),
            None => {},
        }
    }
}

/// The tokens of an interpolated string.
#[derive(Debug, PartialEq, Eq)]
pub struct InterpolatedStringTokens {
    pub opening_tick: Token,
    pub closing_tick: Token,
}

impl InterpolatedStringTokens {
    /// These tokens with every comment taken out of their trivia.
    pub open spec fn without_comments(self) -> Self {
        InterpolatedStringTokens {
            opening_tick: self.opening_tick.without_comments(),
            closing_tick: self.closing_tick.without_comments(),
        }
    }

    /// Takes the comments out of the trivia of every token.
    pub fn clear_comments(&mut self)
        ensures
            *final(self) == old(self).without_comments(),
    {
        self.opening_tick.clear_comments();
        self.closing_tick.clear_comments();
    }

    /// Clearing comments a second time changes nothing.
    pub proof fn without_comments_is_idempotent(self)
        ensures
            self.without_comments().without_comments() == self.without_comments(),
    {
        self.opening_tick.without_comments_is_idempotent();
        self.closing_tick.without_comments_is_idempotent();
    }

    /// Whether none of these tokens holds a comment.
    pub open spec fn is_comment_free(self) -> bool {
        &&& self.opening_tick.is_comment_free()
        &&& self.closing_tick.is_comment_free()
    }

    /// Tokens that clearing leaves as they are hold no comment.
    pub proof fn cleared_is_comment_free(self)
        requires
            self.without_comments() == self,
        ensures
            self.is_comment_free(),
    {
        self.opening_tick.cleared_is_comment_free();
        self.closing_tick.cleared_is_comment_free();
    }
}

/// A piece of an interpolated string: text or a value.
#[derive(Debug, PartialEq, Eq)]
pub enum InterpolationSegment {
    String(StringSegment),
    Value(ValueSegment),
}

impl InterpolationSegment {
    /// How deep the tree under this node goes.
    pub open spec fn depth(self) -> nat
        decreases self,
    {
        match self {
            InterpolationSegment::Value(inner) => 1 + inner.depth(),
            _ => 0,
        }
    }

    /// This node with every comment taken out of the tokens it holds itself.
    pub open spec fn without_comments(self) -> Self {
        match self {
            InterpolationSegment::String(inner) => {
                InterpolationSegment::String(inner.without_comments())
            },
            InterpolationSegment::Value(inner) => {
                InterpolationSegment::Value(inner.without_comments())
            },
        }
    }

    /// Takes the comments out of the tokens this node holds itself. What the node means
    /// stays as it is.
    pub fn clear_comments(&mut self)
        ensures
            *final(self) == old(self).without_comments(),
    {
        match self {
            InterpolationSegment::String(inner) => inner.clear_comments(),
            InterpolationSegment::Value(inner) => inner.clear_comments(),
        }
    }

    /// Clearing comments a second time changes nothing.
    pub proof fn without_comments_is_idempotent(self)
        ensures
            self.without_comments().without_comments() == self.without_comments(),
    {
        match self {
            InterpolationSegment::String(inner) => inner.without_comments_is_idempotent(),
            InterpolationSegment::Value(inner) => inner.without_comments_is_idempotent(),
        }
    }

    /// Clearing comments leaves the depth as it is.
    pub proof fn without_comments_keeps_depth(self)
        ensures
            self.without_comments().depth() == self.depth(),
    {
        match self {
            InterpolationSegment::Value(inner) => inner.without_comments_keeps_depth(),
            _ => {},
        }
    }

    /// Whether no token of this node, nor of anything under it, holds a comment.
    pub open spec fn is_comment_free(self) -> bool
        decreases self,
    {
        match self {
            InterpolationSegment::String(inner) => inner.is_comment_free(),
            InterpolationSegment::Value(inner) => inner.is_comment_free(),
        }
    }

    /// This node with the comments taken out of every token of it and of everything
    /// under it.
    pub open spec fn stripped(self) -> Self
        decreases self,
    {
        match self {
            InterpolationSegment::String(inner) => InterpolationSegment::String(inner.stripped()),
            InterpolationSegment::Value(inner) => InterpolationSegment::Value(inner.stripped()),
        }
    }

    /// Taking the comments out of everything makes no difference between a node and the
    /// node cleared.
    pub proof fn stripped_absorbs_clearing(self)
        ensures
            self.without_comments().stripped() == self.stripped(),
    {
        self.without_comments_is_idempotent();
        match self {
            InterpolationSegment::String(inner) => inner.without_comments_is_idempotent(),
            InterpolationSegment::Value(inner) => inner.stripped_absorbs_clearing(),
        }
    }

    /// Once the comments are taken out of everything, no token holds a comment.
    pub proof fn stripped_is_comment_free(self)
        ensures
            self.stripped().is_comment_free(),
        decreases self.depth(), 0nat,
    {
        match self {
            InterpolationSegment::String(inner) => inner.stripped_is_comment_free(),
            InterpolationSegment::Value(inner) => inner.stripped_is_comment_free(),
        }
    }

    /// Taking the comments out of everything a second time changes nothing.
    pub proof fn stripped_is_idempotent(self)
        ensures
            self.stripped().stripped() == self.stripped(),
        decreases self.depth(), 0nat,
    {
        match self {
            InterpolationSegment::String(inner) => inner.stripped_is_idempotent(),
            InterpolationSegment::Value(inner) => inner.stripped_is_idempotent(),
        }
    }
}

/// Whether none of a list of segments holds a comment.
pub open spec fn segments_are_comment_free(list: NodeList<InterpolationSegment>) -> bool
    decreases list,
{
    match list {
        NodeList::Empty => true,
        NodeList::Cell(cell) => cell.head.is_comment_free() && segments_are_comment_free(cell.tail),
    }
}

/// A list of segments with the comments taken out of every token of them.
pub open spec fn segments_stripped(
    list: NodeList<InterpolationSegment>,
) -> NodeList<InterpolationSegment>
    decreases list,
{
    match list {
        NodeList::Empty => NodeList::Empty,
        NodeList::Cell(cell) => NodeList::cons(cell.head.stripped(), segments_stripped(cell.tail)),
    }
}

/// Once the comments are taken out of a list of segments, no token of them holds a
/// comment.
pub proof fn segments_stripped_are_comment_free(list: NodeList<InterpolationSegment>)
    ensures
        segments_are_comment_free(segments_stripped(list)),
    decreases segments_depth(list), 1 + list.count(),
{
    match list {
        NodeList::Empty => {},
        NodeList::Cell(cell) => {
            cell.head.stripped_is_comment_free();
            segments_stripped_are_comment_free(cell.tail);
        },
    }
}

/// Taking the comments out of a list of segments a second time changes nothing.
pub proof fn segments_stripped_is_idempotent(list: NodeList<InterpolationSegment>)
    ensures
        segments_stripped(segments_stripped(list)) == segments_stripped(list),
    decreases segments_depth(list), 1 + list.count(),
{
    match list {
        NodeList::Empty => {},
        NodeList::Cell(cell) => {
            cell.head.stripped_is_idempotent();
            segments_stripped_is_idempotent(cell.tail);
        },
    }
}

/// Taking the comments out of everything makes no difference between a list of segments
/// and the list cleared.
pub proof fn segments_stripped_absorbs_clearing(list: NodeList<InterpolationSegment>)
    ensures
        segments_stripped(segments_without_comments(list)) == segments_stripped(list),
    decreases list,
{
    match list {
        NodeList::Empty => {},
        NodeList::Cell(cell) => {
            cell.head.stripped_absorbs_clearing();
            segments_stripped_absorbs_clearing(cell.tail);
        },
    }
}

/// The depth of the deepest of a list of segments.
pub open spec fn segments_depth(list: NodeList<InterpolationSegment>) -> nat
    decreases list,
{
    match list {
        NodeList::Empty => 0,
        NodeList::Cell(cell) => deeper(cell.head.depth(), segments_depth(cell.tail)),
    }
}

/// A list of segments, each with its comments taken out.
pub open spec fn segments_without_comments(
    list: NodeList<InterpolationSegment>,
) -> NodeList<InterpolationSegment>
    decreases list,
{
    match list {
        NodeList::Empty => NodeList::Empty,
        NodeList::Cell(cell) => NodeList::cons(
            cell.head.without_comments(),
            segments_without_comments(cell.tail),
        ),
    }
}

/// Takes the comments out of each of a list of segments.
pub fn clear_segments_comments(list: &mut NodeList<InterpolationSegment>)
    ensures
        *final(list) == segments_without_comments(*old(list)),
    decreases *old(list),
{
    match list {
        NodeList::Empty => {},
        NodeList::Cell(cell) => {
            cell.head.clear_comments();
            clear_segments_comments(&mut cell.tail);
        },
    }
}

/// Clearing a list of segments a second time changes nothing.
pub proof fn segments_without_comments_is_idempotent(list: NodeList<InterpolationSegment>)
    ensures
        segments_without_comments(segments_without_comments(list))
            == segments_without_comments(list),
    decreases list,
{
    match list {
        NodeList::Empty => {},
        NodeList::Cell(cell) => {
            cell.head.without_comments_is_idempotent();
            segments_without_comments_is_idempotent(cell.tail);
        },
    }
}

/// Clearing a list of segments leaves its depth as it is.
pub proof fn segments_without_comments_keeps_depth(list: NodeList<InterpolationSegment>)
    ensures
        segments_depth(segments_without_comments(list)) == segments_depth(list),
    decreases list,
{
    match list {
        NodeList::Empty => {},
        NodeList::Cell(cell) => {
            cell.head.without_comments_keeps_depth();
            segments_without_comments_keeps_depth(cell.tail);
        },
    }
}

/// The text of a piece of an interpolated string.
#[derive(Debug, PartialEq, Eq)]
pub struct StringSegment {
    pub value: String,
    pub token: Option<Token>,
}

impl StringSegment {
    /// This node with the token it was read from.
    pub fn with_token(self, token: Token) -> (node: Self)
        ensures
            node == (StringSegment { token: Some(token), ..self }),
    {
        let mut node = self;
        node.token = Some(token);
        node
    }

    /// This node with every comment taken out of its own tokens.
    pub open spec fn without_comments(self) -> Self {
        StringSegment {
            token: optional_token_without_comments(self.token),
            ..self
        }
    }

    /// Takes the comments out of the tokens of this node. What the node means stays as
    /// it is.
    pub fn clear_comments(&mut self)
        ensures
            *final(self) == old(self).without_comments(),
    {
        clear_optional_token_comments(&mut self.token);
    }

    /// Clearing comments a second time changes nothing.
    pub proof fn without_comments_is_idempotent(self)
        ensures
            self.without_comments().without_comments() == self.without_comments(),
    {
        optional_token_without_comments_is_idempotent(self.token);
    }

    /// Whether no token of this node, nor of anything under it, holds a comment.
    pub open spec fn is_comment_free(self) -> bool
    {
        &&& optional_token_is_comment_free(self.token)
    }

    /// A node that clearing leaves as it is holds no comment.
    pub proof fn cleared_is_comment_free(self)
        requires
            self.without_comments() == self,
        ensures
            self.is_comment_free(),
    {
        cleared_optional_token_is_comment_free(self.token);
    }

    /// This node with the comments taken out of every token of it and of everything
    /// under it.
    pub open spec fn stripped(self) -> Self
    {
        self.without_comments()
    }

    /// Once the comments are taken out of everything, no token holds a comment.
    pub proof fn stripped_is_comment_free(self)
        ensures
            self.stripped().is_comment_free(),
    {
        self.without_comments_is_idempotent();
        self.without_comments().cleared_is_comment_free();
    }

    /// Taking the comments out of everything a second time changes nothing.
    pub proof fn stripped_is_idempotent(self)
        ensures
            self.stripped().stripped() == self.stripped(),
    {
        self.without_comments_is_idempotent();
    }
}

/// An expression embedded in an interpolated string.
#[derive(Debug, PartialEq, Eq)]
pub struct ValueSegment {
    pub value: Expression,
    pub tokens: Option<ValueSegmentTokens>,
}

impl ValueSegment {
    /// A node built from its parts, without tokens.
    pub fn new(value: Expression) -> (node: Self)
        ensures
            node.value == value,
            node.tokens is None,
    {
        ValueSegment { value, tokens: None }
    }

    /// This node with the tokens it was read from.
    pub fn with_tokens(self, tokens: ValueSegmentTokens) -> (node: Self)
        ensures
            node == (ValueSegment { tokens: Some(tokens), ..self }),
    {
        let mut node = self;
        node.tokens = Some(tokens);
        node
    }

    /// How deep the tree under this node goes.
    pub open spec fn depth(self) -> nat
        decreases self,
    {
        1 + self.value.depth()
    }

    /// This node with every comment taken out of its own tokens.
    pub open spec fn without_comments(self) -> Self {
        ValueSegment {
            tokens: match self.tokens {
                Some(tokens) => Some(tokens.without_comments()),
                None => None,
            },
            ..self
        }
    }

    /// Takes the comments out of the tokens of this node. What the node means stays as
    /// it is.
    pub fn clear_comments(&mut self)
        ensures
            *final(self) == old(self).without_comments(),
    {
        match &mut self.tokens {
            Some(tokens) => tokens.clear_comments(),
            None => {},
        }
    }

    /// Clearing comments a second time changes nothing.
    pub proof fn without_comments_is_idempotent(self)
        ensures
            self.without_comments().without_comments() == self.without_comments(),
    {
        match self.tokens {
            Some(tokens) => tokens.without_comments_is_idempotent(),
            None => {},
        }
    }

    /// Clearing comments leaves the depth as it is.
    pub proof fn without_comments_keeps_depth(self)
        ensures
            self.without_comments().depth() == self.depth(),
    {
    }

    /// Whether no token of this node, nor of anything under it, holds a comment.
    pub open spec fn is_comment_free(self) -> bool
        decreases self,
    {
        &&& self.value.is_comment_free()
        &&& match self.tokens {
            Some(tokens) => tokens.is_comment_free(),
            None => true,
        }
    }

    /// This node with the comments taken out of every token of it and of everything
    /// under it.
    pub open spec fn stripped(self) -> Self
        decreases self,
    {
        ValueSegment {
            value: self.value.stripped(),
            tokens: match self.tokens {
                Some(tokens) => Some(tokens.without_comments()),
                None => None,
            },
        }
    }

    /// Taking the comments out of everything makes no difference between a node and the
    /// node cleared.
    pub proof fn stripped_absorbs_clearing(self)
        ensures
            self.without_comments().stripped() == self.stripped(),
    {
        self.without_comments_is_idempotent();
    }

    /// Once the comments are taken out of everything, no token holds a comment.
    pub proof fn stripped_is_comment_free(self)
        ensures
            self.stripped().is_comment_free(),
        decreases self.depth(), 0nat,
    {
        self.value.stripped_is_comment_free();
        match self.tokens {
            Some(tokens) => {
                tokens.without_comments_is_idempotent();
                tokens.without_comments().cleared_is_comment_free();
            },
            None => {},
        }
    }

    /// Taking the comments out of everything a second time changes nothing.
    pub proof fn stripped_is_idempotent(self)
        ensures
            self.stripped().stripped() == self.stripped(),
        decreases self.depth(), 0nat,
    {
        self.value.stripped_is_idempotent();
        match self.tokens {
            Some(tokens) => tokens.without_comments_is_idempotent(),
            None => {},
        }
    }
}

/// The tokens of an embedded value.
#[derive(Debug, PartialEq, Eq)]
pub struct ValueSegmentTokens {
    pub opening_brace: Token,
    pub closing_brace: Token,
}

impl ValueSegmentTokens {
    /// These tokens with every comment taken out of their trivia.
    pub open spec fn without_comments(self) -> Self {
        ValueSegmentTokens {
            opening_brace: self.opening_brace.without_comments(),
            closing_brace: self.closing_brace.without_comments(),
        }
    }

    /// Takes the comments out of the trivia of every token.
    pub fn clear_comments(&mut self)
        ensures
            *final(self) == old(self).without_comments(),
    {
        self.opening_brace.clear_comments();
        self.closing_brace.clear_comments();
    }

    /// Clearing comments a second time changes nothing.
    pub proof fn without_comments_is_idempotent(self)
        ensures
            self.without_comments().without_comments() == self.without_comments(),
    {
        self.opening_brace.without_comments_is_idempotent();
        self.closing_brace.without_comments_is_idempotent();
    }

    /// Whether none of these tokens holds a comment.
    pub open spec fn is_comment_free(self) -> bool {
        &&& self.opening_brace.is_comment_free()
        &&& self.closing_brace.is_comment_free()
    }

    /// Tokens that clearing leaves as they are hold no comment.
    pub proof fn cleared_is_comment_free(self)
        requires
            self.without_comments() == self,
        ensures
            self.is_comment_free(),
    {
        self.opening_brace.cleared_is_comment_free();
        self.closing_brace.cleared_is_comment_free();
    }
}

impl InterpolatedStringExpression {
    /// An interpolated string without any piece.
    pub fn empty() -> (string: Self)
        ensures
            string.segments == NodeList::<InterpolationSegment>::Empty,
            string.tokens is None,
    {
        InterpolatedStringExpression { segments: NodeList::Empty, tokens: None }
    }

    /// A node built from its parts, without tokens.
    pub fn new(segments: Vec<InterpolationSegment>) -> (string: Self)
        ensures
            string.segments@ == segments@,
            string.tokens is None,
    {
        InterpolatedStringExpression { segments: NodeList::from_vec(segments), tokens: None }
    }

    /// This string with one more piece after the others.
    pub fn with_segment<S: Into<InterpolationSegment>>(self, segment: S) -> (string: Self)
        ensures
            string.segments@.len() == self.segments@.len() + 1,
            string.segments@.subrange(0, self.segments@.len() as int) == self.segments@,
            call_ensures(
                <S as Into<InterpolationSegment>>::into,
                (segment,),
                string.segments@.last(),
            ),
            <S as IntoSpec<InterpolationSegment>>::obeys_into_spec() ==> string.segments@
                == self.segments@.push(<S as IntoSpec<InterpolationSegment>>::into_spec(segment)),
            string.tokens == self.tokens,
    {
        let mut string = self;
        string.segments.push(segment.into());
        assert(string.segments@.subrange(0, self.segments@.len() as int) =~= self.segments@);
        string
    }
}

impl StringSegment {
    /// The piece of a text, without token.
    pub fn from_value(value: &str) -> (segment: Self)
        ensures
            segment.value@ == value@,
            segment.token is None,
    {
        StringSegment { value: value.to_owned(), token: None }
    }
}

impl From<Expression> for InterpolationSegment {
    fn from(value: Expression) -> (segment: InterpolationSegment) {
        InterpolationSegment::Value(ValueSegment { value, tokens: None })
    }
}

impl vstd::std_specs::convert::FromSpecImpl<Expression> for InterpolationSegment {
    open spec fn obeys_from_spec() -> bool {
        true
    }

    open spec fn from_spec(value: Expression) -> InterpolationSegment {
        InterpolationSegment::Value(ValueSegment { value, tokens: None })
    }
}

impl From<StringSegment> for InterpolationSegment {
    fn from(segment: StringSegment) -> (wrapped: InterpolationSegment) {
        InterpolationSegment::String(segment)
    }
}

impl vstd::std_specs::convert::FromSpecImpl<StringSegment> for InterpolationSegment {
    open spec fn obeys_from_spec() -> bool {
        true
    }

    open spec fn from_spec(segment: StringSegment) -> InterpolationSegment {
        InterpolationSegment::String(segment)
    }
}

} // verus!
