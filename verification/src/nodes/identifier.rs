use crate::nodes::list::{NodeList, deeper};
use crate::nodes::token::{
    Token, clear_optional_token_comments, cleared_optional_token_is_comment_free,
    optional_token_is_comment_free, optional_token_without_comments,
    optional_token_without_comments_is_idempotent,
};
use crate::nodes::types::Type;
use vstd::std_specs::convert::FromSpecImpl;
use vstd::prelude::*;

verus! {

/// A name as it is written in the source.
#[derive(Debug, PartialEq, Eq)]
pub struct Identifier {
    pub name: String,
    pub token: Option<Token>,
}

impl Identifier {
    /// This node with the token it was read from.
    pub fn with_token(self, token: Token) -> (node: Self)
        ensures
            node == (Identifier { token: Some(token), ..self }),
    {
        let mut node = self;
        node.token = Some(token);
        node
    }

    /// This node with every comment taken out of its own tokens.
    pub open spec fn without_comments(self) -> Self {
        Identifier {
            token: optional_token_without_comments(self.token),
            ..self
        }
    }

    /// Takes the comments out of the tokens of this node. What the node means stays as
    /// it is.
    pub fn clear_comments(&mut self)
        ensures
            *final(self) == old(self).without_comments(),
    {
        clear_optional_token_comments(&mut self.token);
    }

    /// Clearing comments a second time changes nothing.
    pub proof fn without_comments_is_idempotent(self)
        ensures
            self.without_comments().without_comments() == self.without_comments(),
    {
        optional_token_without_comments_is_idempotent(self.token);
    }

    /// Whether no token of this node, nor of anything under it, holds a comment.
    pub open spec fn is_comment_free(self) -> bool
    {
        &&& optional_token_is_comment_free(self.token)
    }

    /// A node that clearing leaves as it is holds no comment.
    pub proof fn cleared_is_comment_free(self)
        requires
            self.without_comments() == self,
        ensures
            self.is_comment_free(),
    {
        cleared_optional_token_is_comment_free(self.token);
    }

    /// This node with the comments taken out of every token of it and of everything
    /// under it.
    pub open spec fn stripped(self) -> Self
    {
        self.without_comments()
    }

    /// Once the comments are taken out of everything, no token holds a comment.
    pub proof fn stripped_is_comment_free(self)
        ensures
            self.stripped().is_comment_free(),
    {
        self.without_comments_is_idempotent();
        self.without_comments().cleared_is_comment_free();
    }

    /// Taking the comments out of everything a second time changes nothing.
    pub proof fn stripped_is_idempotent(self)
        ensures
            self.stripped().stripped() == self.stripped(),
    {
        self.without_comments_is_idempotent();
    }
}

/// Whether none of a list of identifiers holds a comment.
pub open spec fn identifiers_are_comment_free(list: NodeList<Identifier>) -> bool
    decreases list,
{
    match list {
        NodeList::Empty => true,
        NodeList::Cell(cell) => {
            cell.head.is_comment_free() && identifiers_are_comment_free(cell.tail)
        },
    }
}

/// A list of identifiers with the comments taken out of every token of them.
pub open spec fn identifiers_stripped(list: NodeList<Identifier>) -> NodeList<Identifier>
    decreases list,
{
    match list {
        NodeList::Empty => NodeList::Empty,
        NodeList::Cell(cell) => {
            NodeList::cons(cell.head.stripped(), identifiers_stripped(cell.tail))
        },
    }
}

/// Once the comments are taken out of a list of identifiers, no token of them holds a
/// comment.
pub proof fn identifiers_stripped_are_comment_free(list: NodeList<Identifier>)
    ensures
        identifiers_are_comment_free(identifiers_stripped(list)),
    decreases list,
{
    match list {
        NodeList::Empty => {},
        NodeList::Cell(cell) => {
            cell.head.stripped_is_comment_free();
            identifiers_stripped_are_comment_free(cell.tail);
        },
    }
}

/// Taking the comments out of a list of identifiers a second time changes nothing.
pub proof fn identifiers_stripped_is_idempotent(list: NodeList<Identifier>)
    ensures
        identifiers_stripped(identifiers_stripped(list)) == identifiers_stripped(list),
    decreases list,
{
    match list {
        NodeList::Empty => {},
        NodeList::Cell(cell) => {
            cell.head.stripped_is_idempotent();
            identifiers_stripped_is_idempotent(cell.tail);
        },
    }
}

/// Taking the comments out of everything makes no difference between a list of
/// identifiers and the list cleared.
pub proof fn identifiers_stripped_absorbs_clearing(list: NodeList<Identifier>)
    ensures
        identifiers_stripped(identifiers_without_comments(list)) == identifiers_stripped(list),
    decreases list,
{
    match list {
        NodeList::Empty => {},
        NodeList::Cell(cell) => {
            cell.head.without_comments_is_idempotent();
            identifiers_stripped_absorbs_clearing(cell.tail);
        },
    }
}

/// A list of identifiers that clearing leaves as it is holds no comment.
pub proof fn cleared_identifiers_are_comment_free(list: NodeList<Identifier>)
    requires
        identifiers_without_comments(list) == list,
    ensures
        identifiers_are_comment_free(list),
    decreases list,
{
    match list {
        NodeList::Empty => {},
        NodeList::Cell(cell) => {
            cell.head.cleared_is_comment_free();
            cleared_identifiers_are_comment_free(cell.tail);
        },
    }
}

/// A list of identifiers, each with its comments taken out.
pub open spec fn identifiers_without_comments(list: NodeList<Identifier>) -> NodeList<Identifier>
    decreases list,
{
    match list {
        NodeList::Empty => NodeList::Empty,
        NodeList::Cell(cell) => NodeList::cons(
            cell.head.without_comments(),
            identifiers_without_comments(cell.tail),
        ),
    }
}

/// Takes the comments out of each of a list of identifiers.
pub fn clear_identifiers_comments(list: &mut NodeList<Identifier>)
    ensures
        *final(list) == identifiers_without_comments(*old(list)),
    decreases *old(list),
{
    match list {
        NodeList::Empty => {},
        NodeList::Cell(cell) => {
            cell.head.clear_comments();
            clear_identifiers_comments(&mut cell.tail);
        },
    }
}

/// Clearing a list of identifiers a second time changes nothing.
pub proof fn identifiers_without_comments_is_idempotent(list: NodeList<Identifier>)
    ensures
        identifiers_without_comments(identifiers_without_comments(list))
            == identifiers_without_comments(list),
    decreases list,
{
    match list {
        NodeList::Empty => {},
        NodeList::Cell(cell) => {
            cell.head.without_comments_is_idempotent();
            identifiers_without_comments_is_idempotent(cell.tail);
        },
    }
}

/// A name with an optional type annotation.
#[derive(Debug, PartialEq, Eq)]
pub struct TypedIdentifier {
    pub name: String,
    pub annotation: Option<Type>,
    pub tokens: Option<TypedIdentifierTokens>,
}

impl TypedIdentifier {
    /// This node with the tokens it was read from.
    pub fn with_tokens(self, tokens: TypedIdentifierTokens) -> (node: Self)
        ensures
            node == (TypedIdentifier { tokens: Some(tokens), ..self }),
    {
        let mut node = self;
        node.tokens = Some(tokens);
        node
    }

    /// How deep the tree under this node goes.
    pub open spec fn depth(self) -> nat
        decreases self,
    {
        1 + match self.annotation {
            Some(inner) => inner.depth(),
            None => 0,
        }
    }

    /// This node with every comment taken out of its own tokens.
    pub open spec fn without_comments(self) -> Self {
        TypedIdentifier {
            tokens: match self.tokens {
                Some(tokens) => Some(tokens.without_comments()),
                None => None,
            },
            ..self
        }
    }

    /// Takes the comments out of the tokens of this node. What the node means stays as
    /// it is.
    pub fn clear_comments(&mut self)
        ensures
            *final(self) == old(self).without_comments(),
    {
        match &mut self.tokens {
            Some(tokens) => tokens.clear_comments(),
            None => {},
        }
    }

    /// Clearing comments a second time changes nothing.
    pub proof fn without_comments_is_idempotent(self)
        ensures
            self.without_comments().without_comments() == self.without_comments(),
    {
        match self.tokens {
            Some(tokens) => tokens.without_comments_is_idempotent(),
            None => {},
        }
    }

    /// Clearing comments leaves the depth as it is.
    pub proof fn without_comments_keeps_depth(self)
        ensures
            self.without_comments().depth() == self.depth(),
    {
    }

    /// Whether no token of this node, nor of anything under it, holds a comment.
    pub open spec fn is_comment_free(self) -> bool
        decreases self,
    {
        &&& match self.annotation {
            Some(inner) => inner.is_comment_free(),
            None => true,
        }
        &&& match self.tokens {
            Some(tokens) => tokens.is_comment_free(),
            None => true,
        }
    }

    /// This node with the comments taken out of every token of it and of everything
    /// under it.
    pub open spec fn stripped(self) -> Self
        decreases self,
    {
        TypedIdentifier {
            annotation: match self.annotation {
                Some(inner) => Some(inner.stripped()),
                None => None,
            },
            tokens: match self.tokens {
                Some(tokens) => Some(tokens.without_comments()),
                None => None,
            },
            ..self
        }
    }

    /// Taking the comments out of everything makes no difference between a node and the
    /// node cleared.
    pub proof fn stripped_absorbs_clearing(self)
        ensures
            self.without_comments().stripped() == self.stripped(),
    {
        self.without_comments_is_idempotent();
    }

    /// Once the comments are taken out of everything, no token holds a comment.
    pub proof fn stripped_is_comment_free(self)
        ensures
            self.stripped().is_comment_free(),
        decreases self.depth(), 0nat,
    {
        match self.annotation {
            Some(inner) => inner.stripped_is_comment_free(),
            None => {},
        }
        match self.tokens {
            Some(tokens) => {
                tokens.without_comments_is_idempotent();
                tokens.without_comments().cleared_is_comment_free();
            },
            None => {},
        }
    }

    /// Taking the comments out of everything a second time changes nothing.
    pub proof fn stripped_is_idempotent(self)
        ensures
            self.stripped().stripped() == self.stripped(),
        decreases self.depth(), 0nat,
    {
        match self.annotation {
            Some(inner) => inner.stripped_is_idempotent(),
            None => {},
        }
        match self.tokens {
            Some(tokens) => tokens.without_comments_is_idempotent(),
            None => {},
        }
    }
}

/// The tokens of a typed identifier.
#[derive(Debug, PartialEq, Eq)]
pub struct TypedIdentifierTokens {
    pub name: Token,
    pub colon: Option<Token>,
}

impl TypedIdentifierTokens {
    /// These tokens with every comment taken out of their trivia.
    pub open spec fn without_comments(self) -> Self {
        TypedIdentifierTokens {
            name: self.name.without_comments(),
            colon: optional_token_without_comments(self.colon),
        }
    }

    /// Takes the comments out of the trivia of every token.
    pub fn clear_comments(&mut self)
        ensures
            *final(self) == old(self).without_comments(),
    {
        self.name.clear_comments();
        clear_optional_token_comments(&mut self.colon);
    }

    /// Clearing comments a second time changes nothing.
    pub proof fn without_comments_is_idempotent(self)
        ensures
            self.without_comments().without_comments() == self.without_comments(),
    {
        self.name.without_comments_is_idempotent();
        optional_token_without_comments_is_idempotent(self.colon);
    }

    /// Whether none of these tokens holds a comment.
    pub open spec fn is_comment_free(self) -> bool {
        &&& self.name.is_comment_free()
        &&& optional_token_is_comment_free(self.colon)
    }

    /// Tokens that clearing leaves as they are hold no comment.
    pub proof fn cleared_is_comment_free(self)
        requires
            self.without_comments() == self,
        ensures
            self.is_comment_free(),
    {
        self.name.cleared_is_comment_free();
        cleared_optional_token_is_comment_free(self.colon);
    }
}

/// Whether none of a list of typed identifiers holds a comment.
pub open spec fn typed_identifiers_are_comment_free(list: NodeList<TypedIdentifier>) -> bool
    decreases list,
{
    match list {
        NodeList::Empty => true,
        NodeList::Cell(cell) => {
            cell.head.is_comment_free() && typed_identifiers_are_comment_free(cell.tail)
        },
    }
}

/// A list of typed identifiers with the comments taken out of every token of them.
pub open spec fn typed_identifiers_stripped(
    list: NodeList<TypedIdentifier>,
) -> NodeList<TypedIdentifier>
    decreases list,
{
    match list {
        NodeList::Empty => NodeList::Empty,
        NodeList::Cell(cell) => {
            NodeList::cons(cell.head.stripped(), typed_identifiers_stripped(cell.tail))
        },
    }
}

/// Once the comments are taken out of a list of typed identifiers, no token of them
/// holds a comment.
pub proof fn typed_identifiers_stripped_are_comment_free(list: NodeList<TypedIdentifier>)
    ensures
        typed_identifiers_are_comment_free(typed_identifiers_stripped(list)),
    decreases typed_identifiers_depth(list), 1 + list.count(),
{
    match list {
        NodeList::Empty => {},
        NodeList::Cell(cell) => {
            cell.head.stripped_is_comment_free();
            typed_identifiers_stripped_are_comment_free(cell.tail);
        },
    }
}

/// Taking the comments out of a list of typed identifiers a second time changes
/// nothing.
pub proof fn typed_identifiers_stripped_is_idempotent(list: NodeList<TypedIdentifier>)
    ensures
        typed_identifiers_stripped(typed_identifiers_stripped(list))
            == typed_identifiers_stripped(list),
    decreases typed_identifiers_depth(list), 1 + list.count(),
{
    match list {
        NodeList::Empty => {},
        NodeList::Cell(cell) => {
            cell.head.stripped_is_idempotent();
            typed_identifiers_stripped_is_idempotent(cell.tail);
        },
    }
}

/// Taking the comments out of everything makes no difference between a list of typed
/// identifiers and the list cleared.
pub proof fn typed_identifiers_stripped_absorbs_clearing(list: NodeList<TypedIdentifier>)
    ensures
        typed_identifiers_stripped(typed_identifiers_without_comments(list))
            == typed_identifiers_stripped(list),
    decreases list,
{
    match list {
        NodeList::Empty => {},
        NodeList::Cell(cell) => {
            cell.head.stripped_absorbs_clearing();
            typed_identifiers_stripped_absorbs_clearing(cell.tail);
        },
    }
}

/// The depth of the deepest of a list of typed identifiers.
pub open spec fn typed_identifiers_depth(list: NodeList<TypedIdentifier>) -> nat
    decreases list,
{
    match list {
        NodeList::Empty => 0,
        NodeList::Cell(cell) => deeper(cell.head.depth(), typed_identifiers_depth(cell.tail)),
    }
}

/// A list of typed identifiers, each with its comments taken out.
pub open spec fn typed_identifiers_without_comments(
    list: NodeList<TypedIdentifier>,
) -> NodeList<TypedIdentifier>
    decreases list,
{
    match list {
        NodeList::Empty => NodeList::Empty,
        NodeList::Cell(cell) => NodeList::cons(
            cell.head.without_comments(),
            typed_identifiers_without_comments(cell.tail),
        ),
    }
}

/// Takes the comments out of each of a list of typed identifiers.
pub fn clear_typed_identifiers_comments(list: &mut NodeList<TypedIdentifier>)
    ensures
        *final(list) == typed_identifiers_without_comments(*old(list)),
    decreases *old(list),
{
    match list {
        NodeList::Empty => {},
        NodeList::Cell(cell) => {
            cell.head.clear_comments();
            clear_typed_identifiers_comments(&mut cell.tail);
        },
    }
}

/// Clearing a list of typed identifiers a second time changes nothing.
pub proof fn typed_identifiers_without_comments_is_idempotent(list: NodeList<TypedIdentifier>)
    ensures
        typed_identifiers_without_comments(typed_identifiers_without_comments(list))
            == typed_identifiers_without_comments(list),
    decreases list,
{
    match list {
        NodeList::Empty => {},
        NodeList::Cell(cell) => {
            cell.head.without_comments_is_idempotent();
            typed_identifiers_without_comments_is_idempotent(cell.tail);
        },
    }
}

/// Clearing a list of typed identifiers leaves its depth as it is.
pub proof fn typed_identifiers_without_comments_keeps_depth(list: NodeList<TypedIdentifier>)
    ensures
        typed_identifiers_depth(typed_identifiers_without_comments(list))
            == typed_identifiers_depth(list),
    decreases list,
{
    match list {
        NodeList::Empty => {},
        NodeList::Cell(cell) => {
            cell.head.without_comments_keeps_depth();
            typed_identifiers_without_comments_keeps_depth(cell.tail);
        },
    }
}

impl Identifier {
    /// The identifier of a name, without token.
    pub fn new(name: &str) -> (identifier: Self)
        ensures
            identifier.name@ == name@,
            identifier.token is None,
    {
        Identifier { name: name.to_owned(), token: None }
    }

    /// The name, as it is written.
    pub fn get_name(&self) -> (name: &String)
        ensures
            name == self.name,
    {
        &self.name
    }

    /// Gives the identifier another name and keeps its token.
    pub fn set_name(&mut self, name: &str)
        ensures
            final(self).name@ == name@,
            final(self).token == old(self).token,
    {
        self.name = name.to_owned();
    }
}

impl From<String> for Identifier {
    fn from(name: String) -> (identifier: Identifier) {
        Identifier { name, token: None }
    }
}

impl FromSpecImpl<String> for Identifier {
    open spec fn obeys_from_spec() -> bool {
        true
    }

    open spec fn from_spec(name: String) -> Identifier {
        Identifier { name, token: None }
    }
}

impl<'a> From<&'a str> for Identifier {
    fn from(name: &'a str) -> (identifier: Identifier)
        ensures
            identifier.name@ == name@,
            identifier.token is None,
    {
        Identifier::new(name)
    }
}

/// The conversion makes a new string of the characters of the name: its result is
/// stated by the characters it holds, not as a value.
impl<'a> FromSpecImpl<&'a str> for Identifier {
    open spec fn obeys_from_spec() -> bool {
        false
    }

    open spec fn from_spec(name: &'a str) -> Identifier {
        Identifier { name: choose|held: String| held@ == name@, token: None }
    }
}

impl TypedIdentifier {
    /// The identifier of a name, without annotation or tokens.
    pub fn new(name: &str) -> (identifier: Self)
        ensures
            identifier.name@ == name@,
            identifier.annotation is None,
            identifier.tokens is None,
    {
        TypedIdentifier { name: name.to_owned(), annotation: None, tokens: None }
    }

    /// This identifier with a type annotation.
    pub fn with_type(self, annotation: Type) -> (identifier: Self)
        ensures
            identifier == (TypedIdentifier { annotation: Some(annotation), ..self }),
    {
        let mut identifier = self;
        identifier.annotation = Some(annotation);
        identifier
    }

    /// Whether the identifier has a type annotation.
    pub fn has_type(&self) -> (annotated: bool)
        ensures
            annotated == self.annotation is Some,
    {
        self.annotation.is_some()
    }
}

impl From<String> for TypedIdentifier {
    fn from(name: String) -> (identifier: TypedIdentifier) {
        TypedIdentifier { name, annotation: None, tokens: None }
    }
}

impl FromSpecImpl<String> for TypedIdentifier {
    open spec fn obeys_from_spec() -> bool {
        true
    }

    open spec fn from_spec(name: String) -> TypedIdentifier {
        TypedIdentifier { name, annotation: None, tokens: None }
    }
}

impl<'a> From<&'a str> for TypedIdentifier {
    fn from(name: &'a str) -> (identifier: TypedIdentifier)
        ensures
            identifier.name@ == name@,
            identifier.annotation is None,
            identifier.tokens is None,
    {
        TypedIdentifier::new(name)
    }
}

/// The conversion makes a new string of the characters of the name: its result is
/// stated by the characters it holds, not as a value.
impl<'a> FromSpecImpl<&'a str> for TypedIdentifier {
    open spec fn obeys_from_spec() -> bool {
        false
    }

    open spec fn from_spec(name: &'a str) -> TypedIdentifier {
        TypedIdentifier {
            name: choose|held: String| held@ == name@,
            annotation: None,
            tokens: None,
        }
    }
}

} // verus!
