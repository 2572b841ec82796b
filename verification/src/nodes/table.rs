use crate::nodes::expression::Expression;
use crate::nodes::identifier::Identifier;
use crate::nodes::list::{NodeList, deeper};
use crate::nodes::token::{
    Token, clear_optional_token_comments, clear_tokens_comments,
    cleared_optional_token_is_comment_free, cleared_tokens_are_comment_free,
    optional_token_is_comment_free, optional_token_without_comments,
    optional_token_without_comments_is_idempotent, tokens_are_comment_free, tokens_without_comments,
    tokens_without_comments_is_idempotent,
};
use vstd::prelude::*;

verus! {

/// A table constructor.
#[derive(Debug, PartialEq, Eq)]
pub struct TableExpression {
    pub entries: NodeList<TableEntry>,
    pub tokens: Option<TableTokens>,
}

impl TableExpression {
    /// A node built from its parts, without tokens.
    pub fn new(entries: Vec<TableEntry>) -> (node: Self)
        ensures
            node.entries@ == entries@,
            node.tokens is None,
    {
        TableExpression { entries: NodeList::from_vec(entries), tokens: None }
    }

    /// This node with the tokens it was read from.
    pub fn with_tokens(self, tokens: TableTokens) -> (node: Self)
        ensures
            node == (TableExpression { tokens: Some(tokens), ..self }),
    {
        let mut node = self;
        node.tokens = Some(tokens);
        node
    }

    /// How deep the tree under this node goes.
    pub open spec fn depth(self) -> nat
        decreases self,
    {
        1 + table_entries_depth(self.entries)
    }

    /// This node with every comment taken out of its own tokens and of the parts that
    /// are cleared with it.
    pub open spec fn without_comments(self) -> Self {
        TableExpression {
            entries: table_entries_without_comments(self.entries),
            tokens: match self.tokens {
                Some(tokens) => Some(tokens.without_comments()),
                None => None,
            },
        }
    }

    /// Takes the comments out of the tokens of this node and of the parts that are
    /// cleared with it. What the node means stays as it is.
    pub fn clear_comments(&mut self)
        ensures
            *final(self) == old(self).without_comments(),
    {
        clear_table_entries_comments(&mut self.entries);
        match &mut self.tokens {
            Some(tokens) => tokens.clear_comments(),
            None => {},
        }
    }

    /// Clearing comments a second time changes nothing.
    pub proof fn without_comments_is_idempotent(self)
        ensures
            self.without_comments().without_comments() == self.without_comments(),
    {
        table_entries_without_comments_is_idempotent(self.entries);
        match self.tokens {
            Some(tokens) => tokens.without_comments_is_idempotent(),
            None => {},
        }
    }

    /// Clearing comments leaves the depth as it is.
    pub proof fn without_comments_keeps_depth(self)
        ensures
            self.without_comments().depth() == self.depth(),
    {
        table_entries_without_comments_keeps_depth(self.entries);
    }

    /// Whether no token of this node, nor of anything under it, holds a comment.
    pub open spec fn is_comment_free(self) -> bool
        decreases self,
    {
        &&& table_entries_are_comment_free(self.entries)
        &&& match self.tokens {
            Some(tokens) => tokens.is_comment_free(),
            None => true,
        }
    }

    /// This node with the comments taken out of every token of it and of everything
    /// under it.
    pub open spec fn stripped(self) -> Self
        decreases self,
    {
        TableExpression {
            entries: table_entries_stripped(self.entries),
            tokens: match self.tokens {
                Some(tokens) => Some(tokens.without_comments()),
                None => None,
            },
        }
    }

    /// Taking the comments out of everything makes no difference between a node and the
    /// node cleared.
    pub proof fn stripped_absorbs_clearing(self)
        ensures
            self.without_comments().stripped() == self.stripped(),
    {
        self.without_comments_is_idempotent();
        table_entries_stripped_absorbs_clearing(self.entries);
    }

    /// Once the comments are taken out of everything, no token holds a comment.
    pub proof fn stripped_is_comment_free(self)
        ensures
            self.stripped().is_comment_free(),
        decreases self.depth(), 0nat,
    {
        table_entries_stripped_are_comment_free(self.entries);
        match self.tokens {
            Some(tokens) => {
                tokens.without_comments_is_idempotent();
                tokens.without_comments().cleared_is_comment_free();
            },
            None => {},
        }
    }

    /// Taking the comments out of everything a second time changes nothing.
    pub proof fn stripped_is_idempotent(self)
        ensures
            self.stripped().stripped() == self.stripped(),
        decreases self.depth(), 0nat,
    {
        table_entries_stripped_is_idempotent(self.entries);
        match self.tokens {
            Some(tokens) => tokens.without_comments_is_idempotent(),
            None => {},
        }
    }
}

impl Default for TableExpression {
    fn default() -> (node: Self)
        ensures
            node == (TableExpression { entries: NodeList::Empty, tokens: None }),
    {
        TableExpression { entries: NodeList::Empty, tokens: None }
    }
}

/// The tokens of a table constructor.
#[derive(Debug, PartialEq, Eq)]
pub struct TableTokens {
    pub opening_brace: Token,
    pub closing_brace: Token,
    pub separators: NodeList<Token>,
}

impl TableTokens {
    /// These tokens with every comment taken out of their trivia.
    pub open spec fn without_comments(self) -> Self {
        TableTokens {
            opening_brace: self.opening_brace.without_comments(),
            closing_brace: self.closing_brace.without_comments(),
            separators: tokens_without_comments(self.separators),
        }
    }

    /// Takes the comments out of the trivia of every token.
    pub fn clear_comments(&mut self)
        ensures
            *final(self) == old(self).without_comments(),
    {
        self.opening_brace.clear_comments();
        self.closing_brace.clear_comments();
        clear_tokens_comments(&mut self.separators);
    }

    /// Clearing comments a second time changes nothing.
    pub proof fn without_comments_is_idempotent(self)
        ensures
            self.without_comments().without_comments() == self.without_comments(),
    {
        self.opening_brace.without_comments_is_idempotent();
        self.closing_brace.without_comments_is_idempotent();
        tokens_without_comments_is_idempotent(self.separators);
    }

    /// Whether none of these tokens holds a comment.
    pub open spec fn is_comment_free(self) -> bool {
        &&& self.opening_brace.is_comment_free()
        &&& self.closing_brace.is_comment_free()
        &&& tokens_are_comment_free(self.separators)
    }

    /// Tokens that clearing leaves as they are hold no comment.
    pub proof fn cleared_is_comment_free(self)
        requires
            self.without_comments() == self,
        ensures
            self.is_comment_free(),
    {
        self.opening_brace.cleared_is_comment_free();
        self.closing_brace.cleared_is_comment_free();
        cleared_tokens_are_comment_free(self.separators);
    }
}

/// An entry of a table constructor.
#[derive(Debug, PartialEq, Eq)]
pub enum TableEntry {
    Field(TableFieldEntry),
    Index(TableIndexEntry),
    Value(Expression),
}

impl TableEntry {
    /// How deep the tree under this node goes.
    pub open spec fn depth(self) -> nat
        decreases self,
    {
        match self {
            TableEntry::Field(inner) => 1 + inner.depth(),
            TableEntry::Index(inner) => 1 + inner.depth(),
            TableEntry::Value(inner) => 1 + inner.depth(),
        }
    }

    /// This node with every comment taken out of the tokens it holds itself.
    pub open spec fn without_comments(self) -> Self {
        match self {
            TableEntry::Field(inner) => TableEntry::Field(inner.without_comments()),
            TableEntry::Index(inner) => TableEntry::Index(inner.without_comments()),
            _ => self,
        }
    }

    /// Takes the comments out of the tokens this node holds itself. What the node means
    /// stays as it is.
    pub fn clear_comments(&mut self)
        ensures
            *final(self) == old(self).without_comments(),
    {
        match self {
            TableEntry::Field(inner) => inner.clear_comments(),
            TableEntry::Index(inner) => inner.clear_comments(),
            _ => {},
        }
    }

    /// Clearing comments a second time changes nothing.
    pub proof fn without_comments_is_idempotent(self)
        ensures
            self.without_comments().without_comments() == self.without_comments(),
    {
        match self {
            TableEntry::Field(inner) => inner.without_comments_is_idempotent(),
            TableEntry::Index(inner) => inner.without_comments_is_idempotent(),
            _ => {},
        }
    }

    /// Clearing comments leaves the depth as it is.
    pub proof fn without_comments_keeps_depth(self)
        ensures
            self.without_comments().depth() == self.depth(),
    {
        match self {
            TableEntry::Field(inner) => inner.without_comments_keeps_depth(),
            TableEntry::Index(inner) => inner.without_comments_keeps_depth(),
            _ => {},
        }
    }

    /// Whether no token of this node, nor of anything under it, holds a comment.
    pub open spec fn is_comment_free(self) -> bool
        decreases self,
    {
        match self {
            TableEntry::Field(inner) => inner.is_comment_free(),
            TableEntry::Index(inner) => inner.is_comment_free(),
            TableEntry::Value(inner) => inner.is_comment_free(),
        }
    }

    /// This node with the comments taken out of every token of it and of everything
    /// under it.
    pub open spec fn stripped(self) -> Self
        decreases self,
    {
        match self {
            TableEntry::Field(inner) => TableEntry::Field(inner.stripped()),
            TableEntry::Index(inner) => TableEntry::Index(inner.stripped()),
            TableEntry::Value(inner) => TableEntry::Value(inner.stripped()),
        }
    }

    /// Taking the comments out of everything makes no difference between a node and the
    /// node cleared.
    pub proof fn stripped_absorbs_clearing(self)
        ensures
            self.without_comments().stripped() == self.stripped(),
    {
        self.without_comments_is_idempotent();
        match self {
            TableEntry::Field(inner) => inner.stripped_absorbs_clearing(),
            TableEntry::Index(inner) => inner.stripped_absorbs_clearing(),
            _ => {},
        }
    }

    /// Once the comments are taken out of everything, no token holds a comment.
    pub proof fn stripped_is_comment_free(self)
        ensures
            self.stripped().is_comment_free(),
        decreases self.depth(), 0nat,
    {
        match self {
            TableEntry::Field(inner) => inner.stripped_is_comment_free(),
            TableEntry::Index(inner) => inner.stripped_is_comment_free(),
            TableEntry::Value(inner) => inner.stripped_is_comment_free(),
        }
    }

    /// Taking the comments out of everything a second time changes nothing.
    pub proof fn stripped_is_idempotent(self)
        ensures
            self.stripped().stripped() == self.stripped(),
        decreases self.depth(), 0nat,
    {
        match self {
            TableEntry::Field(inner) => inner.stripped_is_idempotent(),
            TableEntry::Index(inner) => inner.stripped_is_idempotent(),
            TableEntry::Value(inner) => inner.stripped_is_idempotent(),
        }
    }
}

/// Whether none of a list of table entries holds a comment.
pub open spec fn table_entries_are_comment_free(list: NodeList<TableEntry>) -> bool
    decreases list,
{
    match list {
        NodeList::Empty => true,
        NodeList::Cell(cell) => {
            cell.head.is_comment_free() && table_entries_are_comment_free(cell.tail)
        },
    }
}

/// A list of table entries with the comments taken out of every token of them.
pub open spec fn table_entries_stripped(list: NodeList<TableEntry>) -> NodeList<TableEntry>
    decreases list,
{
    match list {
        NodeList::Empty => NodeList::Empty,
        NodeList::Cell(cell) => {
            NodeList::cons(cell.head.stripped(), table_entries_stripped(cell.tail))
        },
    }
}

/// Once the comments are taken out of a list of table entries, no token of them holds a
/// comment.
pub proof fn table_entries_stripped_are_comment_free(list: NodeList<TableEntry>)
    ensures
        table_entries_are_comment_free(table_entries_stripped(list)),
    decreases table_entries_depth(list), 1 + list.count(),
{
    match list {
        NodeList::Empty => {},
        NodeList::Cell(cell) => {
            cell.head.stripped_is_comment_free();
            table_entries_stripped_are_comment_free(cell.tail);
        },
    }
}

/// Taking the comments out of a list of table entries a second time changes nothing.
pub proof fn table_entries_stripped_is_idempotent(list: NodeList<TableEntry>)
    ensures
        table_entries_stripped(table_entries_stripped(list)) == table_entries_stripped(list),
    decreases table_entries_depth(list), 1 + list.count(),
{
    match list {
        NodeList::Empty => {},
        NodeList::Cell(cell) => {
            cell.head.stripped_is_idempotent();
            table_entries_stripped_is_idempotent(cell.tail);
        },
    }
}

/// Taking the comments out of everything makes no difference between a list of table
/// entries and the list cleared.
pub proof fn table_entries_stripped_absorbs_clearing(list: NodeList<TableEntry>)
    ensures
        table_entries_stripped(table_entries_without_comments(list))
            == table_entries_stripped(list),
    decreases list,
{
    match list {
        NodeList::Empty => {},
        NodeList::Cell(cell) => {
            cell.head.stripped_absorbs_clearing();
            table_entries_stripped_absorbs_clearing(cell.tail);
        },
    }
}

/// The depth of the deepest of a list of table entries.
pub open spec fn table_entries_depth(list: NodeList<TableEntry>) -> nat
    decreases list,
{
    match list {
        NodeList::Empty => 0,
        NodeList::Cell(cell) => deeper(cell.head.depth(), table_entries_depth(cell.tail)),
    }
}

/// A list of table entries, each with its comments taken out.
pub open spec fn table_entries_without_comments(list: NodeList<TableEntry>) -> NodeList<TableEntry>
    decreases list,
{
    match list {
        NodeList::Empty => NodeList::Empty,
        NodeList::Cell(cell) => NodeList::cons(
            cell.head.without_comments(),
            table_entries_without_comments(cell.tail),
        ),
    }
}

/// Takes the comments out of each of a list of table entries.
pub fn clear_table_entries_comments(list: &mut NodeList<TableEntry>)
    ensures
        *final(list) == table_entries_without_comments(*old(list)),
    decreases *old(list),
{
    match list {
        NodeList::Empty => {},
        NodeList::Cell(cell) => {
            cell.head.clear_comments();
            clear_table_entries_comments(&mut cell.tail);
        },
    }
}

/// Clearing a list of table entries a second time changes nothing.
pub proof fn table_entries_without_comments_is_idempotent(list: NodeList<TableEntry>)
    ensures
        table_entries_without_comments(table_entries_without_comments(list))
            == table_entries_without_comments(list),
    decreases list,
{
    match list {
        NodeList::Empty => {},
        NodeList::Cell(cell) => {
            cell.head.without_comments_is_idempotent();
            table_entries_without_comments_is_idempotent(cell.tail);
        },
    }
}

/// Clearing a list of table entries leaves its depth as it is.
pub proof fn table_entries_without_comments_keeps_depth(list: NodeList<TableEntry>)
    ensures
        table_entries_depth(table_entries_without_comments(list)) == table_entries_depth(list),
    decreases list,
{
    match list {
        NodeList::Empty => {},
        NodeList::Cell(cell) => {
            cell.head.without_comments_keeps_depth();
            table_entries_without_comments_keeps_depth(cell.tail);
        },
    }
}

/// An entry stored under a name.
#[derive(Debug, PartialEq, Eq)]
pub struct TableFieldEntry {
    pub field: Identifier,
    pub value: Expression,
    pub token: Option<Token>,
}

impl TableFieldEntry {
    /// A node built from its parts, without tokens.
    pub fn new(field: Identifier, value: Expression) -> (node: Self)
        ensures
            node.field == field,
            node.value == value,
            node.token is None,
    {
        TableFieldEntry { field, value, token: None }
    }

    /// This node with the token it was read from.
    pub fn with_token(self, token: Token) -> (node: Self)
        ensures
            node == (TableFieldEntry { token: Some(token), ..self }),
    {
        let mut node = self;
        node.token = Some(token);
        node
    }

    /// How deep the tree under this node goes.
    pub open spec fn depth(self) -> nat
        decreases self,
    {
        1 + self.value.depth()
    }

    /// This node with every comment taken out of its own tokens and of the parts that
    /// are cleared with it.
    pub open spec fn without_comments(self) -> Self {
        TableFieldEntry {
            field: self.field.without_comments(),
            token: optional_token_without_comments(self.token),
            ..self
        }
    }

    /// Takes the comments out of the tokens of this node and of the parts that are
    /// cleared with it. What the node means stays as it is.
    pub fn clear_comments(&mut self)
        ensures
            *final(self) == old(self).without_comments(),
    {
        self.field.clear_comments();
        clear_optional_token_comments(&mut self.token);
    }

    /// Clearing comments a second time changes nothing.
    pub proof fn without_comments_is_idempotent(self)
        ensures
            self.without_comments().without_comments() == self.without_comments(),
    {
        self.field.without_comments_is_idempotent();
        optional_token_without_comments_is_idempotent(self.token);
    }

    /// Clearing comments leaves the depth as it is.
    pub proof fn without_comments_keeps_depth(self)
        ensures
            self.without_comments().depth() == self.depth(),
    {
    }

    /// Whether no token of this node, nor of anything under it, holds a comment.
    pub open spec fn is_comment_free(self) -> bool
        decreases self,
    {
        &&& self.field.is_comment_free()
        &&& self.value.is_comment_free()
        &&& optional_token_is_comment_free(self.token)
    }

    /// This node with the comments taken out of every token of it and of everything
    /// under it.
    pub open spec fn stripped(self) -> Self
        decreases self,
    {
        TableFieldEntry {
            field: self.field.stripped(),
            value: self.value.stripped(),
            token: optional_token_without_comments(self.token),
        }
    }

    /// Taking the comments out of everything makes no difference between a node and the
    /// node cleared.
    pub proof fn stripped_absorbs_clearing(self)
        ensures
            self.without_comments().stripped() == self.stripped(),
    {
        self.without_comments_is_idempotent();
        self.field.without_comments_is_idempotent();
    }

    /// Once the comments are taken out of everything, no token holds a comment.
    pub proof fn stripped_is_comment_free(self)
        ensures
            self.stripped().is_comment_free(),
        decreases self.depth(), 0nat,
    {
        self.field.stripped_is_comment_free();
        self.value.stripped_is_comment_free();
        optional_token_without_comments_is_idempotent(self.token);
        cleared_optional_token_is_comment_free(
            optional_token_without_comments(self.token),
        );
    }

    /// Taking the comments out of everything a second time changes nothing.
    pub proof fn stripped_is_idempotent(self)
        ensures
            self.stripped().stripped() == self.stripped(),
        decreases self.depth(), 0nat,
    {
        self.field.stripped_is_idempotent();
        self.value.stripped_is_idempotent();
        optional_token_without_comments_is_idempotent(self.token);
    }
}

/// An entry stored under a computed key.
#[derive(Debug, PartialEq, Eq)]
pub struct TableIndexEntry {
    pub key: Expression,
    pub value: Expression,
    pub tokens: Option<TableIndexEntryTokens>,
}

impl TableIndexEntry {
    /// A node built from its parts, without tokens.
    pub fn new(key: Expression, value: Expression) -> (node: Self)
        ensures
            node.key == key,
            node.value == value,
            node.tokens is None,
    {
        TableIndexEntry { key, value, tokens: None }
    }

    /// This node with the tokens it was read from.
    pub fn with_tokens(self, tokens: TableIndexEntryTokens) -> (node: Self)
        ensures
            node == (TableIndexEntry { tokens: Some(tokens), ..self }),
    {
        let mut node = self;
        node.tokens = Some(tokens);
        node
    }

    /// How deep the tree under this node goes.
    pub open spec fn depth(self) -> nat
        decreases self,
    {
        1 + deeper(
            self.key.depth(),
            self.value.depth(),
        )
    }

    /// This node with every comment taken out of its own tokens.
    pub open spec fn without_comments(self) -> Self {
        TableIndexEntry {
            tokens: match self.tokens {
                Some(tokens) => Some(tokens.without_comments()),
                None => None,
            },
            ..self
        }
    }

    /// Takes the comments out of the tokens of this node. What the node means stays as
    /// it is.
    pub fn clear_comments(&mut self)
        ensures
            *final(self) == old(self).without_comments(),
    {
        match &mut self.tokens {
            Some(tokens) => tokens.clear_comments(),
            None => {},
        }
    }

    /// Clearing comments a second time changes nothing.
    pub proof fn without_comments_is_idempotent(self)
        ensures
            self.without_comments().without_comments() == self.without_comments(),
    {
        match self.tokens {
            Some(tokens) => tokens.without_comments_is_idempotent(),
            None => {},
        }
    }

    /// Clearing comments leaves the depth as it is.
    pub proof fn without_comments_keeps_depth(self)
        ensures
            self.without_comments().depth() == self.depth(),
    {
    }

    /// Whether no token of this node, nor of anything under it, holds a comment.
    pub open spec fn is_comment_free(self) -> bool
        decreases self,
    {
        &&& self.key.is_comment_free()
        &&& self.value.is_comment_free()
        &&& match self.tokens {
            Some(tokens) => tokens.is_comment_free(),
            None => true,
        }
    }

    /// This node with the comments taken out of every token of it and of everything
    /// under it.
    pub open spec fn stripped(self) -> Self
        decreases self,
    {
        TableIndexEntry {
            key: self.key.stripped(),
            value: self.value.stripped(),
            tokens: match self.tokens {
                Some(tokens) => Some(tokens.without_comments()),
                None => None,
            },
        }
    }

    /// Taking the comments out of everything makes no difference between a node and the
    /// node cleared.
    pub proof fn stripped_absorbs_clearing(self)
        ensures
            self.without_comments().stripped() == self.stripped(),
    {
        self.without_comments_is_idempotent();
    }

    /// Once the comments are taken out of everything, no token holds a comment.
    pub proof fn stripped_is_comment_free(self)
        ensures
            self.stripped().is_comment_free(),
        decreases self.depth(), 0nat,
    {
        self.key.stripped_is_comment_free();
        self.value.stripped_is_comment_free();
        match self.tokens {
            Some(tokens) => {
                tokens.without_comments_is_idempotent();
                tokens.without_comments().cleared_is_comment_free();
            },
            None => {},
        }
    }

    /// Taking the comments out of everything a second time changes nothing.
    pub proof fn stripped_is_idempotent(self)
        ensures
            self.stripped().stripped() == self.stripped(),
        decreases self.depth(), 0nat,
    {
        self.key.stripped_is_idempotent();
        self.value.stripped_is_idempotent();
        match self.tokens {
            Some(tokens) => tokens.without_comments_is_idempotent(),
            None => {},
        }
    }
}

/// The tokens of an entry with a computed key.
#[derive(Debug, PartialEq, Eq)]
pub struct TableIndexEntryTokens {
    pub opening_bracket: Token,
    pub closing_bracket: Token,
    pub equal: Token,
}

impl TableIndexEntryTokens {
    /// These tokens with every comment taken out of their trivia.
    pub open spec fn without_comments(self) -> Self {
        TableIndexEntryTokens {
            opening_bracket: self.opening_bracket.without_comments(),
            closing_bracket: self.closing_bracket.without_comments(),
            equal: self.equal.without_comments(),
        }
    }

    /// Takes the comments out of the trivia of every token.
    pub fn clear_comments(&mut self)
        ensures
            *final(self) == old(self).without_comments(),
    {
        self.opening_bracket.clear_comments();
        self.closing_bracket.clear_comments();
        self.equal.clear_comments();
    }

    /// Clearing comments a second time changes nothing.
    pub proof fn without_comments_is_idempotent(self)
        ensures
            self.without_comments().without_comments() == self.without_comments(),
    {
        self.opening_bracket.without_comments_is_idempotent();
        self.closing_bracket.without_comments_is_idempotent();
        self.equal.without_comments_is_idempotent();
    }

    /// Whether none of these tokens holds a comment.
    pub open spec fn is_comment_free(self) -> bool {
        &&& self.opening_bracket.is_comment_free()
        &&& self.closing_bracket.is_comment_free()
        &&& self.equal.is_comment_free()
    }

    /// Tokens that clearing leaves as they are hold no comment.
    pub proof fn cleared_is_comment_free(self)
        requires
            self.without_comments() == self,
        ensures
            self.is_comment_free(),
    {
        self.opening_bracket.cleared_is_comment_free();
        self.closing_bracket.cleared_is_comment_free();
        self.equal.cleared_is_comment_free();
    }
}

} // verus!
