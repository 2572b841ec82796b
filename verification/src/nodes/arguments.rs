use crate::nodes::expression::{
    Expression, expressions_are_comment_free, expressions_depth, expressions_stripped,
    expressions_stripped_are_comment_free, expressions_stripped_is_idempotent,
};
use crate::nodes::list::NodeList;
use crate::nodes::string::StringExpression;
use crate::nodes::table::TableExpression;
use crate::nodes::token::{
    Position, Token, Trivia, clear_tokens_comments, cleared_tokens_are_comment_free,
    tokens_are_comment_free, tokens_without_comments, tokens_without_comments_is_idempotent,
};
use vstd::std_specs::convert::{FromSpecImpl, IntoSpec};
use vstd::prelude::*;

verus! {

/// Arguments written between parentheses.
#[derive(Debug, PartialEq, Eq)]
pub struct TupleArguments {
    pub values: NodeList<Expression>,
    pub tokens: Option<TupleArgumentsTokens>,
}

impl TupleArguments {
    /// This node with the tokens it was read from.
    pub fn with_tokens(self, tokens: TupleArgumentsTokens) -> (node: Self)
        ensures
            node == (TupleArguments { tokens: Some(tokens), ..self }),
    {
        let mut node = self;
        node.tokens = Some(tokens);
        node
    }

    /// How deep the tree under this node goes.
    pub open spec fn depth(self) -> nat
        decreases self,
    {
        1 + expressions_depth(self.values)
    }

    /// This node with every comment taken out of its own tokens.
    pub open spec fn without_comments(self) -> Self {
        TupleArguments {
            tokens: match self.tokens {
                Some(tokens) => Some(tokens.without_comments()),
                None => None,
            },
            ..self
        }
    }

    /// Takes the comments out of the tokens of this node. What the node means stays as
    /// it is.
    pub fn clear_comments(&mut self)
        ensures
            *final(self) == old(self).without_comments(),
    {
        match &mut self.tokens {
            Some(tokens) => tokens.clear_comments(),
            None => {},
        }
    }

    /// Clearing comments a second time changes nothing.
    pub proof fn without_comments_is_idempotent(self)
        ensures
            self.without_comments().without_comments() == self.without_comments(),
    {
        match self.tokens {
            Some(tokens) => tokens.without_comments_is_idempotent(),
            None => {},
        }
    }

    /// Clearing comments leaves the depth as it is.
    pub proof fn without_comments_keeps_depth(self)
        ensures
            self.without_comments().depth() == self.depth(),
    {
    }

    /// Whether no token of this node, nor of anything under it, holds a comment.
    pub open spec fn is_comment_free(self) -> bool
        decreases self,
    {
        &&& expressions_are_comment_free(self.values)
        &&& match self.tokens {
            Some(tokens) => tokens.is_comment_free(),
            None => true,
        }
    }

    /// This node with the comments taken out of every token of it and of everything
    /// under it.
    pub open spec fn stripped(self) -> Self
        decreases self,
    {
        TupleArguments {
            values: expressions_stripped(self.values),
            tokens: match self.tokens {
                Some(tokens) => Some(tokens.without_comments()),
                None => None,
            },
        }
    }

    /// Taking the comments out of everything makes no difference between a node and the
    /// node cleared.
    pub proof fn stripped_absorbs_clearing(self)
        ensures
            self.without_comments().stripped() == self.stripped(),
    {
        self.without_comments_is_idempotent();
    }

    /// Once the comments are taken out of everything, no token holds a comment.
    pub proof fn stripped_is_comment_free(self)
        ensures
            self.stripped().is_comment_free(),
        decreases self.depth(), 0nat,
    {
        expressions_stripped_are_comment_free(self.values);
        match self.tokens {
            Some(tokens) => {
                tokens.without_comments_is_idempotent();
                tokens.without_comments().cleared_is_comment_free();
            },
            None => {},
        }
    }

    /// Taking the comments out of everything a second time changes nothing.
    pub proof fn stripped_is_idempotent(self)
        ensures
            self.stripped().stripped() == self.stripped(),
        decreases self.depth(), 0nat,
    {
        expressions_stripped_is_idempotent(self.values);
        match self.tokens {
            Some(tokens) => tokens.without_comments_is_idempotent(),
            None => {},
        }
    }
}

impl Default for TupleArguments {
    fn default() -> (node: Self)
        ensures
            node == (TupleArguments { values: NodeList::Empty, tokens: None }),
    {
        TupleArguments { values: NodeList::Empty, tokens: None }
    }
}

/// The tokens of a list of arguments between parentheses.
#[derive(Debug, PartialEq, Eq)]
pub struct TupleArgumentsTokens {
    pub opening_parenthese: Token,
    pub closing_parenthese: Token,
    pub commas: NodeList<Token>,
}

impl TupleArgumentsTokens {
    /// These tokens with every comment taken out of their trivia.
    pub open spec fn without_comments(self) -> Self {
        TupleArgumentsTokens {
            opening_parenthese: self.opening_parenthese.without_comments(),
            closing_parenthese: self.closing_parenthese.without_comments(),
            commas: tokens_without_comments(self.commas),
        }
    }

    /// Takes the comments out of the trivia of every token.
    pub fn clear_comments(&mut self)
        ensures
            *final(self) == old(self).without_comments(),
    {
        self.opening_parenthese.clear_comments();
        self.closing_parenthese.clear_comments();
        clear_tokens_comments(&mut self.commas);
    }

    /// Clearing comments a second time changes nothing.
    pub proof fn without_comments_is_idempotent(self)
        ensures
            self.without_comments().without_comments() == self.without_comments(),
    {
        self.opening_parenthese.without_comments_is_idempotent();
        self.closing_parenthese.without_comments_is_idempotent();
        tokens_without_comments_is_idempotent(self.commas);
    }

    /// Whether none of these tokens holds a comment.
    pub open spec fn is_comment_free(self) -> bool {
        &&& self.opening_parenthese.is_comment_free()
        &&& self.closing_parenthese.is_comment_free()
        &&& tokens_are_comment_free(self.commas)
    }

    /// Tokens that clearing leaves as they are hold no comment.
    pub proof fn cleared_is_comment_free(self)
        requires
            self.without_comments() == self,
        ensures
            self.is_comment_free(),
    {
        self.opening_parenthese.cleared_is_comment_free();
        self.closing_parenthese.cleared_is_comment_free();
        cleared_tokens_are_comment_free(self.commas);
    }
}

/// The arguments of a call: a list between parentheses, or a lone string or table.
#[derive(Debug, PartialEq, Eq)]
pub enum Arguments {
    Tuple(TupleArguments),
    String(StringExpression),
    Table(TableExpression),
}

impl Arguments {
    /// How deep the tree under this node goes.
    pub open spec fn depth(self) -> nat
        decreases self,
    {
        match self {
            Arguments::Tuple(inner) => 1 + inner.depth(),
            Arguments::Table(inner) => 1 + inner.depth(),
            _ => 0,
        }
    }

    /// This node with every comment taken out of the tokens it holds itself.
    pub open spec fn without_comments(self) -> Self {
        match self {
            Arguments::Tuple(inner) => Arguments::Tuple(inner.without_comments()),
            _ => self,
        }
    }

    /// Takes the comments out of the tokens this node holds itself. What the node means
    /// stays as it is.
    pub fn clear_comments(&mut self)
        ensures
            *final(self) == old(self).without_comments(),
    {
        match self {
            Arguments::Tuple(inner) => inner.clear_comments(),
            _ => {},
        }
    }

    /// Clearing comments a second time changes nothing.
    pub proof fn without_comments_is_idempotent(self)
        ensures
            self.without_comments().without_comments() == self.without_comments(),
    {
        match self {
            Arguments::Tuple(inner) => inner.without_comments_is_idempotent(),
            _ => {},
        }
    }

    /// Clearing comments leaves the depth as it is.
    pub proof fn without_comments_keeps_depth(self)
        ensures
            self.without_comments().depth() == self.depth(),
    {
        match self {
            Arguments::Tuple(inner) => inner.without_comments_keeps_depth(),
            _ => {},
        }
    }

    /// Whether no token of this node, nor of anything under it, holds a comment.
    pub open spec fn is_comment_free(self) -> bool
        decreases self,
    {
        match self {
            Arguments::Tuple(inner) => inner.is_comment_free(),
            Arguments::String(inner) => inner.is_comment_free(),
            Arguments::Table(inner) => inner.is_comment_free(),
        }
    }

    /// This node with the comments taken out of every token of it and of everything
    /// under it.
    pub open spec fn stripped(self) -> Self
        decreases self,
    {
        match self {
            Arguments::Tuple(inner) => Arguments::Tuple(inner.stripped()),
            Arguments::String(inner) => Arguments::String(inner.stripped()),
            Arguments::Table(inner) => Arguments::Table(inner.stripped()),
        }
    }

    /// Taking the comments out of everything makes no difference between a node and the
    /// node cleared.
    pub proof fn stripped_absorbs_clearing(self)
        ensures
            self.without_comments().stripped() == self.stripped(),
    {
        self.without_comments_is_idempotent();
        match self {
            Arguments::Tuple(inner) => inner.stripped_absorbs_clearing(),
            _ => {},
        }
    }

    /// Once the comments are taken out of everything, no token holds a comment.
    pub proof fn stripped_is_comment_free(self)
        ensures
            self.stripped().is_comment_free(),
        decreases self.depth(), 0nat,
    {
        match self {
            Arguments::Tuple(inner) => inner.stripped_is_comment_free(),
            Arguments::String(inner) => inner.stripped_is_comment_free(),
            Arguments::Table(inner) => inner.stripped_is_comment_free(),
        }
    }

    /// Taking the comments out of everything a second time changes nothing.
    pub proof fn stripped_is_idempotent(self)
        ensures
            self.stripped().stripped() == self.stripped(),
        decreases self.depth(), 0nat,
    {
        match self {
            Arguments::Tuple(inner) => inner.stripped_is_idempotent(),
            Arguments::String(inner) => inner.stripped_is_idempotent(),
            Arguments::Table(inner) => inner.stripped_is_idempotent(),
        }
    }
}

/// Whether `token` is a comma as [`TupleArguments::with_argument`] writes it: the text
/// `,` without trivia.
pub open spec fn is_plain_comma(token: Token) -> bool {
    &&& token.position matches Position::Any { content }
    &&& content@ == seq![',']
    &&& token.leading_trivia == NodeList::<Trivia>::Empty
    &&& token.trailing_trivia == NodeList::<Trivia>::Empty
}

impl TupleArguments {
    /// Whether the tokens, if there are any, hold one comma between each two values.
    pub open spec fn well_formed(self) -> bool {
        self.tokens matches Some(tokens) ==> tokens.commas@.len() == if self.values@.len() == 0 {
            0
        } else {
            self.values@.len() - 1
        }
    }

    /// The arguments `values`, without tokens.
    pub fn new(values: Vec<Expression>) -> (arguments: Self)
        ensures
            arguments.values@ == values@,
            arguments.tokens is None,
            arguments.well_formed(),
    {
        TupleArguments { values: NodeList::from_vec(values), tokens: None }
    }

    /// The values, in order.
    #[inline]
    pub fn to_expressions(self) -> (values: Vec<Expression>)
        ensures
            values@ == self.values@,
    {
        self.values.into_vec()
    }

    /// Gives the arguments the tokens they were read from.
    #[inline]
    pub fn set_tokens(&mut self, tokens: TupleArgumentsTokens)
        ensures
            *final(self) == (TupleArguments { tokens: Some(tokens), ..*old(self) }),
    {
        self.tokens = Some(tokens);
    }

    /// The tokens, if the arguments have any.
    #[inline]
    pub fn get_tokens(&self) -> (tokens: Option<&TupleArgumentsTokens>)
        ensures
            match tokens {
                Some(held) => self.tokens == Some(*held),
                None => self.tokens is None,
            },
    {
        self.tokens.as_ref()
    }

    /// These arguments with one more value after the others. Where the arguments hold
    /// tokens with one comma between each two values, a plain comma is added before the
    /// new value, so that they still do.
    pub fn with_argument<T: Into<Expression>>(self, argument: T) -> (arguments: Self)
        ensures
            arguments.values@.len() == self.values@.len() + 1,
            arguments.values@.subrange(0, self.values@.len() as int) == self.values@,
            call_ensures(
                <T as Into<Expression>>::into,
                (argument,),
                arguments.values@.last(),
            ),
            <T as IntoSpec<Expression>>::obeys_into_spec() ==> arguments.values@
                == self.values@.push(<T as IntoSpec<Expression>>::into_spec(argument)),
            match self.tokens {
                None => arguments.tokens is None,
                Some(before) => {
                    &&& arguments.tokens matches Some(after)
                    &&& after.opening_parenthese == before.opening_parenthese
                    &&& after.closing_parenthese == before.closing_parenthese
                    &&& if self.values@.len() > 0 && before.commas@.len() == self.values@.len()
                        - 1 {
                        &&& after.commas@.len() == before.commas@.len() + 1
                        &&& after.commas@.subrange(0, before.commas@.len() as int)
                            == before.commas@
                        &&& is_plain_comma(after.commas@.last())
                    } else {
                        after.commas == before.commas
                    }
                },
            },
            self.well_formed() ==> arguments.well_formed(),
    {
        let mut arguments = self;
        let fits = match &arguments.tokens {
            Some(tokens) => tokens.commas.is_one_shorter_than(&arguments.values),
            None => false,
        };
        arguments.values.push(argument.into());
        assert(arguments.values@.subrange(0, self.values@.len() as int) =~= self.values@);
        if fits {
            match arguments.tokens.take() {
                Some(tokens) => {
                    let mut tokens = tokens;
                    let ghost before = tokens.commas@;
                    tokens.commas.push(Token::from_content(","));
                    proof {
                        reveal_strlit(",");
                        assert(","@ =~= seq![',']);
                        assert(tokens.commas@.subrange(0, before.len() as int) =~= before);
                    }
                    arguments.tokens = Some(tokens);
                },
                None => {},
            }
        }
        arguments
    }

    /// The number of values; a number that does not fit in `usize` is given as
    /// `usize::MAX`.
    #[inline]
    pub fn len(&self) -> (count: usize)
        ensures
            self.values@.len() <= usize::MAX ==> count == self.values@.len(),
            self.values@.len() > usize::MAX ==> count == usize::MAX,
    {
        self.values.len()
    }

    /// Whether there is no value.
    #[inline]
    pub fn is_empty(&self) -> (empty: bool)
        ensures
            empty == (self.values@.len() == 0),
    {
        self.values.is_empty()
    }

    /// The values, to be read in order.
    #[inline]
    pub fn iter_values(&self) -> (values: &NodeList<Expression>)
        ensures
            *values == self.values,
    {
        &self.values
    }

    /// The values, to be changed in place: what the caller leaves in the list is what
    /// the arguments hold afterwards, and the tokens stay as they are.
    #[inline]
    pub fn iter_mut_values(&mut self) -> (values: &mut NodeList<Expression>)
        ensures
            *values == old(self).values,
            *final(self) == (TupleArguments { values: *final(values), ..*old(self) }),
    {
        &mut self.values
    }
}

impl Arguments {
    /// The arguments as a list between parentheses: a list as it is, a lone string or
    /// table as the one value of a list without tokens.
    pub open spec fn into_tuple(self) -> TupleArguments {
        match self {
            Arguments::Tuple(tuple) => tuple,
            Arguments::String(string) => TupleArguments {
                values: NodeList::cons(Expression::String(string), NodeList::Empty),
                tokens: None,
            },
            Arguments::Table(table) => TupleArguments {
                values: NodeList::cons(Expression::Table(table), NodeList::Empty),
                tokens: None,
            },
        }
    }

    /// The values of the arguments, in order: those of a list, or the lone string or
    /// table.
    pub fn to_expressions(self) -> (values: Vec<Expression>)
        ensures
            values@ == self.into_tuple().values@,
    {
        match self {
            Arguments::Tuple(tuple) => tuple.to_expressions(),
            Arguments::String(string) => {
                proof {
                    NodeList::view_of_one(Expression::String(string));
                }
                vec![Expression::String(string)]
            },
            Arguments::Table(table) => {
                proof {
                    NodeList::view_of_one(Expression::Table(table));
                }
                vec![Expression::Table(table)]
            },
        }
    }

    /// These arguments as a list between parentheses, with one more value after the
    /// others.
    pub fn with_argument<T: Into<Expression>>(self, argument: T) -> (arguments: Self)
        ensures
            arguments matches Arguments::Tuple(tuple) && {
                &&& tuple.values@.len() == self.into_tuple().values@.len() + 1
                &&& tuple.values@.subrange(0, self.into_tuple().values@.len() as int)
                    == self.into_tuple().values@
                &&& call_ensures(
                    <T as Into<Expression>>::into,
                    (argument,),
                    tuple.values@.last(),
                )
                &&& <T as IntoSpec<Expression>>::obeys_into_spec() ==> tuple.values@
                    == self.into_tuple().values@.push(
                    <T as IntoSpec<Expression>>::into_spec(argument),
                )
                &&& self.into_tuple().tokens is None ==> tuple.tokens is None
                &&& self.into_tuple().well_formed() ==> tuple.well_formed()
            },
    {
        let argument: Expression = argument.into();
        Arguments::Tuple(TupleArguments::from(self).with_argument(argument))
    }
}

/// A lone string or table becomes a list of exactly one value, the string or the table
/// itself; a list stays as it is.
pub proof fn coercion_keeps_the_payload(arguments: Arguments)
    ensures
        arguments matches Arguments::String(string) ==> arguments.into_tuple().values@
            == seq![Expression::String(string)],
        arguments matches Arguments::Table(table) ==> arguments.into_tuple().values@
            == seq![Expression::Table(table)],
        arguments matches Arguments::Tuple(tuple) ==> arguments.into_tuple() == tuple,
        !(arguments is Tuple) ==> arguments.into_tuple().tokens is None
            && arguments.into_tuple().well_formed(),
{
    match arguments {
        Arguments::String(string) => {
            NodeList::view_of_one(Expression::String(string));
        },
        Arguments::Table(table) => {
            NodeList::view_of_one(Expression::Table(table));
        },
        Arguments::Tuple(_) => {},
    }
}

impl From<Arguments> for TupleArguments {
    fn from(arguments: Arguments) -> (tuple: TupleArguments) {
        match arguments {
            Arguments::Tuple(tuple) => tuple,
            Arguments::String(string) => TupleArguments {
                values: NodeList::Empty.prepend(Expression::String(string)),
                tokens: None,
            },
            Arguments::Table(table) => TupleArguments {
                values: NodeList::Empty.prepend(Expression::Table(table)),
                tokens: None,
            },
        }
    }
}

impl FromSpecImpl<Arguments> for TupleArguments {
    open spec fn obeys_from_spec() -> bool {
        true
    }

    open spec fn from_spec(arguments: Arguments) -> TupleArguments {
        arguments.into_tuple()
    }
}

impl Default for Arguments {
    fn default() -> (arguments: Self)
        ensures
            arguments == Arguments::Tuple(
                TupleArguments { values: NodeList::Empty, tokens: None },
            ),
    {
        Arguments::Tuple(TupleArguments::default())
    }
}

impl From<TupleArguments> for Arguments {
    fn from(tuple: TupleArguments) -> (arguments: Arguments) {
        Arguments::Tuple(tuple)
    }
}

impl FromSpecImpl<TupleArguments> for Arguments {
    open spec fn obeys_from_spec() -> bool {
        true
    }

    open spec fn from_spec(tuple: TupleArguments) -> Arguments {
        Arguments::Tuple(tuple)
    }
}

impl From<TableExpression> for Arguments {
    fn from(table: TableExpression) -> (arguments: Arguments) {
        Arguments::Table(table)
    }
}

impl FromSpecImpl<TableExpression> for Arguments {
    open spec fn obeys_from_spec() -> bool {
        true
    }

    open spec fn from_spec(table: TableExpression) -> Arguments {
        Arguments::Table(table)
    }
}

impl From<StringExpression> for Arguments {
    fn from(string: StringExpression) -> (arguments: Arguments) {
        Arguments::String(string)
    }
}

impl FromSpecImpl<StringExpression> for Arguments {
    open spec fn obeys_from_spec() -> bool {
        true
    }

    open spec fn from_spec(string: StringExpression) -> Arguments {
        Arguments::String(string)
    }
}

} // verus!
