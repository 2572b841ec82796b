use crate::nodes::identifier::Identifier;
use crate::nodes::list::{NodeList, deeper};
use crate::nodes::string_type::StringType;
use crate::nodes::token::{
    Token, clear_optional_token_comments, clear_tokens_comments,
    cleared_optional_token_is_comment_free, cleared_tokens_are_comment_free,
    optional_token_is_comment_free, optional_token_without_comments,
    optional_token_without_comments_is_idempotent, tokens_are_comment_free, tokens_without_comments,
    tokens_without_comments_is_idempotent,
};
use crate::nodes::types::Type;
use vstd::prelude::*;

verus! {

/// The type of a table, entry by entry.
#[derive(Debug, PartialEq, Eq)]
pub struct TableType {
    pub entries: NodeList<TableEntryType>,
    pub tokens: Option<TableTypeTokens>,
}

impl TableType {
    /// A node built from its parts, without tokens.
    pub fn new(entries: Vec<TableEntryType>) -> (node: Self)
        ensures
            node.entries@ == entries@,
            node.tokens is None,
    {
        TableType { entries: NodeList::from_vec(entries), tokens: None }
    }

    /// This node with the tokens it was read from.
    pub fn with_tokens(self, tokens: TableTypeTokens) -> (node: Self)
        ensures
            node == (TableType { tokens: Some(tokens), ..self }),
    {
        let mut node = self;
        node.tokens = Some(tokens);
        node
    }

    /// How deep the tree under this node goes.
    pub open spec fn depth(self) -> nat
        decreases self,
    {
        1 + table_entry_types_depth(self.entries)
    }

    /// This node with every comment taken out of its own tokens and of the parts that
    /// are cleared with it.
    pub open spec fn without_comments(self) -> Self {
        TableType {
            entries: table_entry_types_without_comments(self.entries),
            tokens: match self.tokens {
                Some(tokens) => Some(tokens.without_comments()),
                None => None,
            },
        }
    }

    /// Takes the comments out of the tokens of this node and of the parts that are
    /// cleared with it. What the node means stays as it is.
    pub fn clear_comments(&mut self)
        ensures
            *final(self) == old(self).without_comments(),
    {
        clear_table_entry_types_comments(&mut self.entries);
        match &mut self.tokens {
            Some(tokens) => tokens.clear_comments(),
            None => {},
        }
    }

    /// Clearing comments a second time changes nothing.
    pub proof fn without_comments_is_idempotent(self)
        ensures
            self.without_comments().without_comments() == self.without_comments(),
    {
        table_entry_types_without_comments_is_idempotent(self.entries);
        match self.tokens {
            Some(tokens) => tokens.without_comments_is_idempotent(),
            None => {},
        }
    }

    /// Clearing comments leaves the depth as it is.
    pub proof fn without_comments_keeps_depth(self)
        ensures
            self.without_comments().depth() == self.depth(),
    {
        table_entry_types_without_comments_keeps_depth(self.entries);
    }

    /// Whether no token of this node, nor of anything under it, holds a comment.
    pub open spec fn is_comment_free(self) -> bool
        decreases self,
    {
        &&& table_entry_types_are_comment_free(self.entries)
        &&& match self.tokens {
            Some(tokens) => tokens.is_comment_free(),
            None => true,
        }
    }

    /// This node with the comments taken out of every token of it and of everything
    /// under it.
    pub open spec fn stripped(self) -> Self
        decreases self,
    {
        TableType {
            entries: table_entry_types_stripped(self.entries),
            tokens: match self.tokens {
                Some(tokens) => Some(tokens.without_comments()),
                None => None,
            },
        }
    }

    /// Taking the comments out of everything makes no difference between a node and the
    /// node cleared.
    pub proof fn stripped_absorbs_clearing(self)
        ensures
            self.without_comments().stripped() == self.stripped(),
    {
        self.without_comments_is_idempotent();
        table_entry_types_stripped_absorbs_clearing(self.entries);
    }

    /// Once the comments are taken out of everything, no token holds a comment.
    pub proof fn stripped_is_comment_free(self)
        ensures
            self.stripped().is_comment_free(),
        decreases self.depth(), 0nat,
    {
        table_entry_types_stripped_are_comment_free(self.entries);
        match self.tokens {
            Some(tokens) => {
                tokens.without_comments_is_idempotent();
                tokens.without_comments().cleared_is_comment_free();
            },
            None => {},
        }
    }

    /// Taking the comments out of everything a second time changes nothing.
    pub proof fn stripped_is_idempotent(self)
        ensures
            self.stripped().stripped() == self.stripped(),
        decreases self.depth(), 0nat,
    {
        table_entry_types_stripped_is_idempotent(self.entries);
        match self.tokens {
            Some(tokens) => tokens.without_comments_is_idempotent(),
            None => {},
        }
    }
}

impl Default for TableType {
    fn default() -> (node: Self)
        ensures
            node == (TableType { entries: NodeList::Empty, tokens: None }),
    {
        TableType { entries: NodeList::Empty, tokens: None }
    }
}

/// The tokens of a table type.
#[derive(Debug, PartialEq, Eq)]
pub struct TableTypeTokens {
    pub opening_brace: Token,
    pub closing_brace: Token,
    pub separators: NodeList<Token>,
}

impl TableTypeTokens {
    /// These tokens with every comment taken out of their trivia.
    pub open spec fn without_comments(self) -> Self {
        TableTypeTokens {
            opening_brace: self.opening_brace.without_comments(),
            closing_brace: self.closing_brace.without_comments(),
            separators: tokens_without_comments(self.separators),
        }
    }

    /// Takes the comments out of the trivia of every token.
    pub fn clear_comments(&mut self)
        ensures
            *final(self) == old(self).without_comments(),
    {
        self.opening_brace.clear_comments();
        self.closing_brace.clear_comments();
        clear_tokens_comments(&mut self.separators);
    }

    /// Clearing comments a second time changes nothing.
    pub proof fn without_comments_is_idempotent(self)
        ensures
            self.without_comments().without_comments() == self.without_comments(),
    {
        self.opening_brace.without_comments_is_idempotent();
        self.closing_brace.without_comments_is_idempotent();
        tokens_without_comments_is_idempotent(self.separators);
    }

    /// Whether none of these tokens holds a comment.
    pub open spec fn is_comment_free(self) -> bool {
        &&& self.opening_brace.is_comment_free()
        &&& self.closing_brace.is_comment_free()
        &&& tokens_are_comment_free(self.separators)
    }

    /// Tokens that clearing leaves as they are hold no comment.
    pub proof fn cleared_is_comment_free(self)
        requires
            self.without_comments() == self,
        ensures
            self.is_comment_free(),
    {
        self.opening_brace.cleared_is_comment_free();
        self.closing_brace.cleared_is_comment_free();
        cleared_tokens_are_comment_free(self.separators);
    }
}

/// An entry of a table type.
#[derive(Debug, PartialEq, Eq)]
pub enum TableEntryType {
    Property(TablePropertyType),
    Literal(TableLiteralPropertyType),
    Indexer(TableIndexerType),
}

impl TableEntryType {
    /// How deep the tree under this node goes.
    pub open spec fn depth(self) -> nat
        decreases self,
    {
        match self {
            TableEntryType::Property(inner) => 1 + inner.depth(),
            TableEntryType::Literal(inner) => 1 + inner.depth(),
            TableEntryType::Indexer(inner) => 1 + inner.depth(),
        }
    }

    /// This node with every comment taken out of the tokens it holds itself.
    pub open spec fn without_comments(self) -> Self {
        match self {
            TableEntryType::Property(inner) => TableEntryType::Property(inner.without_comments()),
            TableEntryType::Literal(inner) => TableEntryType::Literal(inner.without_comments()),
            TableEntryType::Indexer(inner) => TableEntryType::Indexer(inner.without_comments()),
        }
    }

    /// Takes the comments out of the tokens this node holds itself. What the node means
    /// stays as it is.
    pub fn clear_comments(&mut self)
        ensures
            *final(self) == old(self).without_comments(),
    {
        match self {
            TableEntryType::Property(inner) => inner.clear_comments(),
            TableEntryType::Literal(inner) => inner.clear_comments(),
            TableEntryType::Indexer(inner) => inner.clear_comments(),
        }
    }

    /// Clearing comments a second time changes nothing.
    pub proof fn without_comments_is_idempotent(self)
        ensures
            self.without_comments().without_comments() == self.without_comments(),
    {
        match self {
            TableEntryType::Property(inner) => inner.without_comments_is_idempotent(),
            TableEntryType::Literal(inner) => inner.without_comments_is_idempotent(),
            TableEntryType::Indexer(inner) => inner.without_comments_is_idempotent(),
        }
    }

    /// Clearing comments leaves the depth as it is.
    pub proof fn without_comments_keeps_depth(self)
        ensures
            self.without_comments().depth() == self.depth(),
    {
        match self {
            TableEntryType::Property(inner) => inner.without_comments_keeps_depth(),
            TableEntryType::Literal(inner) => inner.without_comments_keeps_depth(),
            TableEntryType::Indexer(inner) => inner.without_comments_keeps_depth(),
        }
    }

    /// Whether no token of this node, nor of anything under it, holds a comment.
    pub open spec fn is_comment_free(self) -> bool
        decreases self,
    {
        match self {
            TableEntryType::Property(inner) => inner.is_comment_free(),
            TableEntryType::Literal(inner) => inner.is_comment_free(),
            TableEntryType::Indexer(inner) => inner.is_comment_free(),
        }
    }

    /// This node with the comments taken out of every token of it and of everything
    /// under it.
    pub open spec fn stripped(self) -> Self
        decreases self,
    {
        match self {
            TableEntryType::Property(inner) => TableEntryType::Property(inner.stripped()),
            TableEntryType::Literal(inner) => TableEntryType::Literal(inner.stripped()),
            TableEntryType::Indexer(inner) => TableEntryType::Indexer(inner.stripped()),
        }
    }

    /// Taking the comments out of everything makes no difference between a node and the
    /// node cleared.
    pub proof fn stripped_absorbs_clearing(self)
        ensures
            self.without_comments().stripped() == self.stripped(),
    {
        self.without_comments_is_idempotent();
        match self {
            TableEntryType::Property(inner) => inner.stripped_absorbs_clearing(),
            TableEntryType::Literal(inner) => inner.stripped_absorbs_clearing(),
            TableEntryType::Indexer(inner) => inner.stripped_absorbs_clearing(),
        }
    }

    /// Once the comments are taken out of everything, no token holds a comment.
    pub proof fn stripped_is_comment_free(self)
        ensures
            self.stripped().is_comment_free(),
        decreases self.depth(), 0nat,
    {
        match self {
            TableEntryType::Property(inner) => inner.stripped_is_comment_free(),
            TableEntryType::Literal(inner) => inner.stripped_is_comment_free(),
            TableEntryType::Indexer(inner) => inner.stripped_is_comment_free(),
        }
    }

    /// Taking the comments out of everything a second time changes nothing.
    pub proof fn stripped_is_idempotent(self)
        ensures
            self.stripped().stripped() == self.stripped(),
        decreases self.depth(), 0nat,
    {
        match self {
            TableEntryType::Property(inner) => inner.stripped_is_idempotent(),
            TableEntryType::Literal(inner) => inner.stripped_is_idempotent(),
            TableEntryType::Indexer(inner) => inner.stripped_is_idempotent(),
        }
    }
}

/// Whether none of a list of table entry types holds a comment.
pub open spec fn table_entry_types_are_comment_free(list: NodeList<TableEntryType>) -> bool
    decreases list,
{
    match list {
        NodeList::Empty => true,
        NodeList::Cell(cell) => {
            cell.head.is_comment_free() && table_entry_types_are_comment_free(cell.tail)
        },
    }
}

/// A list of table entry types with the comments taken out of every token of them.
pub open spec fn table_entry_types_stripped(
    list: NodeList<TableEntryType>,
) -> NodeList<TableEntryType>
    decreases list,
{
    match list {
        NodeList::Empty => NodeList::Empty,
        NodeList::Cell(cell) => {
            NodeList::cons(cell.head.stripped(), table_entry_types_stripped(cell.tail))
        },
    }
}

/// Once the comments are taken out of a list of table entry types, no token of them
/// holds a comment.
pub proof fn table_entry_types_stripped_are_comment_free(list: NodeList<TableEntryType>)
    ensures
        table_entry_types_are_comment_free(table_entry_types_stripped(list)),
    decreases table_entry_types_depth(list), 1 + list.count(),
{
    match list {
        NodeList::Empty => {},
        NodeList::Cell(cell) => {
            cell.head.stripped_is_comment_free();
            table_entry_types_stripped_are_comment_free(cell.tail);
        },
    }
}

/// Taking the comments out of a list of table entry types a second time changes
/// nothing.
pub proof fn table_entry_types_stripped_is_idempotent(list: NodeList<TableEntryType>)
    ensures
        table_entry_types_stripped(table_entry_types_stripped(list))
            == table_entry_types_stripped(list),
    decreases table_entry_types_depth(list), 1 + list.count(),
{
    match list {
        NodeList::Empty => {},
        NodeList::Cell(cell) => {
            cell.head.stripped_is_idempotent();
            table_entry_types_stripped_is_idempotent(cell.tail);
        },
    }
}

/// Taking the comments out of everything makes no difference between a list of table
/// entry types and the list cleared.
pub proof fn table_entry_types_stripped_absorbs_clearing(list: NodeList<TableEntryType>)
    ensures
        table_entry_types_stripped(table_entry_types_without_comments(list))
            == table_entry_types_stripped(list),
    decreases list,
{
    match list {
        NodeList::Empty => {},
        NodeList::Cell(cell) => {
            cell.head.stripped_absorbs_clearing();
            table_entry_types_stripped_absorbs_clearing(cell.tail);
        },
    }
}

/// The depth of the deepest of a list of table entry types.
pub open spec fn table_entry_types_depth(list: NodeList<TableEntryType>) -> nat
    decreases list,
{
    match list {
        NodeList::Empty => 0,
        NodeList::Cell(cell) => deeper(cell.head.depth(), table_entry_types_depth(cell.tail)),
    }
}

/// A list of table entry types, each with its comments taken out.
pub open spec fn table_entry_types_without_comments(
    list: NodeList<TableEntryType>,
) -> NodeList<TableEntryType>
    decreases list,
{
    match list {
        NodeList::Empty => NodeList::Empty,
        NodeList::Cell(cell) => NodeList::cons(
            cell.head.without_comments(),
            table_entry_types_without_comments(cell.tail),
        ),
    }
}

/// Takes the comments out of each of a list of table entry types.
pub fn clear_table_entry_types_comments(list: &mut NodeList<TableEntryType>)
    ensures
        *final(list) == table_entry_types_without_comments(*old(list)),
    decreases *old(list),
{
    match list {
        NodeList::Empty => {},
        NodeList::Cell(cell) => {
            cell.head.clear_comments();
            clear_table_entry_types_comments(&mut cell.tail);
        },
    }
}

/// Clearing a list of table entry types a second time changes nothing.
pub proof fn table_entry_types_without_comments_is_idempotent(list: NodeList<TableEntryType>)
    ensures
        table_entry_types_without_comments(table_entry_types_without_comments(list))
            == table_entry_types_without_comments(list),
    decreases list,
{
    match list {
        NodeList::Empty => {},
        NodeList::Cell(cell) => {
            cell.head.without_comments_is_idempotent();
            table_entry_types_without_comments_is_idempotent(cell.tail);
        },
    }
}

/// Clearing a list of table entry types leaves its depth as it is.
pub proof fn table_entry_types_without_comments_keeps_depth(list: NodeList<TableEntryType>)
    ensures
        table_entry_types_depth(table_entry_types_without_comments(list))
            == table_entry_types_depth(list),
    decreases list,
{
    match list {
        NodeList::Empty => {},
        NodeList::Cell(cell) => {
            cell.head.without_comments_keeps_depth();
            table_entry_types_without_comments_keeps_depth(cell.tail);
        },
    }
}

/// The type of a property given by name.
#[derive(Debug, PartialEq, Eq)]
pub struct TablePropertyType {
    pub property: Identifier,
    pub property_type: Type,
    pub token: Option<Token>,
}

impl TablePropertyType {
    /// A node built from its parts, without tokens.
    pub fn new(property: Identifier, property_type: Type) -> (node: Self)
        ensures
            node.property == property,
            node.property_type == property_type,
            node.token is None,
    {
        TablePropertyType { property, property_type, token: None }
    }

    /// This node with the token it was read from.
    pub fn with_token(self, token: Token) -> (node: Self)
        ensures
            node == (TablePropertyType { token: Some(token), ..self }),
    {
        let mut node = self;
        node.token = Some(token);
        node
    }

    /// How deep the tree under this node goes.
    pub open spec fn depth(self) -> nat
        decreases self,
    {
        1 + self.property_type.depth()
    }

    /// This node with every comment taken out of its own tokens and of the parts that
    /// are cleared with it.
    pub open spec fn without_comments(self) -> Self {
        TablePropertyType {
            property: self.property.without_comments(),
            token: optional_token_without_comments(self.token),
            ..self
        }
    }

    /// Takes the comments out of the tokens of this node and of the parts that are
    /// cleared with it. What the node means stays as it is.
    pub fn clear_comments(&mut self)
        ensures
            *final(self) == old(self).without_comments(),
    {
        self.property.clear_comments();
        clear_optional_token_comments(&mut self.token);
    }

    /// Clearing comments a second time changes nothing.
    pub proof fn without_comments_is_idempotent(self)
        ensures
            self.without_comments().without_comments() == self.without_comments(),
    {
        self.property.without_comments_is_idempotent();
        optional_token_without_comments_is_idempotent(self.token);
    }

    /// Clearing comments leaves the depth as it is.
    pub proof fn without_comments_keeps_depth(self)
        ensures
            self.without_comments().depth() == self.depth(),
    {
    }

    /// Whether no token of this node, nor of anything under it, holds a comment.
    pub open spec fn is_comment_free(self) -> bool
        decreases self,
    {
        &&& self.property.is_comment_free()
        &&& self.property_type.is_comment_free()
        &&& optional_token_is_comment_free(self.token)
    }

    /// This node with the comments taken out of every token of it and of everything
    /// under it.
    pub open spec fn stripped(self) -> Self
        decreases self,
    {
        TablePropertyType {
            property: self.property.stripped(),
            property_type: self.property_type.stripped(),
            token: optional_token_without_comments(self.token),
        }
    }

    /// Taking the comments out of everything makes no difference between a node and the
    /// node cleared.
    pub proof fn stripped_absorbs_clearing(self)
        ensures
            self.without_comments().stripped() == self.stripped(),
    {
        self.without_comments_is_idempotent();
        self.property.without_comments_is_idempotent();
    }

    /// Once the comments are taken out of everything, no token holds a comment.
    pub proof fn stripped_is_comment_free(self)
        ensures
            self.stripped().is_comment_free(),
        decreases self.depth(), 0nat,
    {
        self.property.stripped_is_comment_free();
        self.property_type.stripped_is_comment_free();
        optional_token_without_comments_is_idempotent(self.token);
        cleared_optional_token_is_comment_free(
            optional_token_without_comments(self.token),
        );
    }

    /// Taking the comments out of everything a second time changes nothing.
    pub proof fn stripped_is_idempotent(self)
        ensures
            self.stripped().stripped() == self.stripped(),
        decreases self.depth(), 0nat,
    {
        self.property.stripped_is_idempotent();
        self.property_type.stripped_is_idempotent();
        optional_token_without_comments_is_idempotent(self.token);
    }
}

/// The type of a property given by a string.
#[derive(Debug, PartialEq, Eq)]
pub struct TableLiteralPropertyType {
    pub string: StringType,
    pub property_type: Type,
    pub tokens: Option<TableIndexTypeTokens>,
}

impl TableLiteralPropertyType {
    /// A node built from its parts, without tokens.
    pub fn new(string: StringType, property_type: Type) -> (node: Self)
        ensures
            node.string == string,
            node.property_type == property_type,
            node.tokens is None,
    {
        TableLiteralPropertyType { string, property_type, tokens: None }
    }

    /// This node with the tokens it was read from.
    pub fn with_tokens(self, tokens: TableIndexTypeTokens) -> (node: Self)
        ensures
            node == (TableLiteralPropertyType { tokens: Some(tokens), ..self }),
    {
        let mut node = self;
        node.tokens = Some(tokens);
        node
    }

    /// How deep the tree under this node goes.
    pub open spec fn depth(self) -> nat
        decreases self,
    {
        1 + self.property_type.depth()
    }

    /// This node with every comment taken out of its own tokens.
    pub open spec fn without_comments(self) -> Self {
        TableLiteralPropertyType {
            tokens: match self.tokens {
                Some(tokens) => Some(tokens.without_comments()),
                None => None,
            },
            ..self
        }
    }

    /// Takes the comments out of the tokens of this node. What the node means stays as
    /// it is.
    pub fn clear_comments(&mut self)
        ensures
            *final(self) == old(self).without_comments(),
    {
        match &mut self.tokens {
            Some(tokens) => tokens.clear_comments(),
            None => {},
        }
    }

    /// Clearing comments a second time changes nothing.
    pub proof fn without_comments_is_idempotent(self)
        ensures
            self.without_comments().without_comments() == self.without_comments(),
    {
        match self.tokens {
            Some(tokens) => tokens.without_comments_is_idempotent(),
            None => {},
        }
    }

    /// Clearing comments leaves the depth as it is.
    pub proof fn without_comments_keeps_depth(self)
        ensures
            self.without_comments().depth() == self.depth(),
    {
    }

    /// Whether no token of this node, nor of anything under it, holds a comment.
    pub open spec fn is_comment_free(self) -> bool
        decreases self,
    {
        &&& self.string.is_comment_free()
        &&& self.property_type.is_comment_free()
        &&& match self.tokens {
            Some(tokens) => tokens.is_comment_free(),
            None => true,
        }
    }

    /// This node with the comments taken out of every token of it and of everything
    /// under it.
    pub open spec fn stripped(self) -> Self
        decreases self,
    {
        TableLiteralPropertyType {
            string: self.string.stripped(),
            property_type: self.property_type.stripped(),
            tokens: match self.tokens {
                Some(tokens) => Some(tokens.without_comments()),
                None => None,
            },
        }
    }

    /// Taking the comments out of everything makes no difference between a node and the
    /// node cleared.
    pub proof fn stripped_absorbs_clearing(self)
        ensures
            self.without_comments().stripped() == self.stripped(),
    {
        self.without_comments_is_idempotent();
    }

    /// Once the comments are taken out of everything, no token holds a comment.
    pub proof fn stripped_is_comment_free(self)
        ensures
            self.stripped().is_comment_free(),
        decreases self.depth(), 0nat,
    {
        self.string.stripped_is_comment_free();
        self.property_type.stripped_is_comment_free();
        match self.tokens {
            Some(tokens) => {
                tokens.without_comments_is_idempotent();
                tokens.without_comments().cleared_is_comment_free();
            },
            None => {},
        }
    }

    /// Taking the comments out of everything a second time changes nothing.
    pub proof fn stripped_is_idempotent(self)
        ensures
            self.stripped().stripped() == self.stripped(),
        decreases self.depth(), 0nat,
    {
        self.string.stripped_is_idempotent();
        self.property_type.stripped_is_idempotent();
        match self.tokens {
            Some(tokens) => tokens.without_comments_is_idempotent(),
            None => {},
        }
    }
}

/// The tokens of a bracketed entry of a table type.
#[derive(Debug, PartialEq, Eq)]
pub struct TableIndexTypeTokens {
    pub opening_bracket: Token,
    pub closing_bracket: Token,
    pub colon: Token,
}

impl TableIndexTypeTokens {
    /// These tokens with every comment taken out of their trivia.
    pub open spec fn without_comments(self) -> Self {
        TableIndexTypeTokens {
            opening_bracket: self.opening_bracket.without_comments(),
            closing_bracket: self.closing_bracket.without_comments(),
            colon: self.colon.without_comments(),
        }
    }

    /// Takes the comments out of the trivia of every token.
    pub fn clear_comments(&mut self)
        ensures
            *final(self) == old(self).without_comments(),
    {
        self.opening_bracket.clear_comments();
        self.closing_bracket.clear_comments();
        self.colon.clear_comments();
    }

    /// Clearing comments a second time changes nothing.
    pub proof fn without_comments_is_idempotent(self)
        ensures
            self.without_comments().without_comments() == self.without_comments(),
    {
        self.opening_bracket.without_comments_is_idempotent();
        self.closing_bracket.without_comments_is_idempotent();
        self.colon.without_comments_is_idempotent();
    }

    /// Whether none of these tokens holds a comment.
    pub open spec fn is_comment_free(self) -> bool {
        &&& self.opening_bracket.is_comment_free()
        &&& self.closing_bracket.is_comment_free()
        &&& self.colon.is_comment_free()
    }

    /// Tokens that clearing leaves as they are hold no comment.
    pub proof fn cleared_is_comment_free(self)
        requires
            self.without_comments() == self,
        ensures
            self.is_comment_free(),
    {
        self.opening_bracket.cleared_is_comment_free();
        self.closing_bracket.cleared_is_comment_free();
        self.colon.cleared_is_comment_free();
    }
}

/// The type of the values found under keys of a type.
#[derive(Debug, PartialEq, Eq)]
pub struct TableIndexerType {
    pub key_type: Type,
    pub value_type: Type,
    pub tokens: Option<TableIndexTypeTokens>,
}

impl TableIndexerType {
    /// A node built from its parts, without tokens.
    pub fn new(key_type: Type, value_type: Type) -> (node: Self)
        ensures
            node.key_type == key_type,
            node.value_type == value_type,
            node.tokens is None,
    {
        TableIndexerType { key_type, value_type, tokens: None }
    }

    /// This node with the tokens it was read from.
    pub fn with_tokens(self, tokens: TableIndexTypeTokens) -> (node: Self)
        ensures
            node == (TableIndexerType { tokens: Some(tokens), ..self }),
    {
        let mut node = self;
        node.tokens = Some(tokens);
        node
    }

    /// How deep the tree under this node goes.
    pub open spec fn depth(self) -> nat
        decreases self,
    {
        1 + deeper(
            self.key_type.depth(),
            self.value_type.depth(),
        )
    }

    /// This node with every comment taken out of its own tokens.
    pub open spec fn without_comments(self) -> Self {
        TableIndexerType {
            tokens: match self.tokens {
                Some(tokens) => Some(tokens.without_comments()),
                None => None,
            },
            ..self
        }
    }

    /// Takes the comments out of the tokens of this node. What the node means stays as
    /// it is.
    pub fn clear_comments(&mut self)
        ensures
            *final(self) == old(self).without_comments(),
    {
        match &mut self.tokens {
            Some(tokens) => tokens.clear_comments(),
            None => {},
        }
    }

    /// Clearing comments a second time changes nothing.
    pub proof fn without_comments_is_idempotent(self)
        ensures
            self.without_comments().without_comments() == self.without_comments(),
    {
        match self.tokens {
            Some(tokens) => tokens.without_comments_is_idempotent(),
            None => {},
        }
    }

    /// Clearing comments leaves the depth as it is.
    pub proof fn without_comments_keeps_depth(self)
        ensures
            self.without_comments().depth() == self.depth(),
    {
    }

    /// Whether no token of this node, nor of anything under it, holds a comment.
    pub open spec fn is_comment_free(self) -> bool
        decreases self,
    {
        &&& self.key_type.is_comment_free()
        &&& self.value_type.is_comment_free()
        &&& match self.tokens {
            Some(tokens) => tokens.is_comment_free(),
            None => true,
        }
    }

    /// This node with the comments taken out of every token of it and of everything
    /// under it.
    pub open spec fn stripped(self) -> Self
        decreases self,
    {
        TableIndexerType {
            key_type: self.key_type.stripped(),
            value_type: self.value_type.stripped(),
            tokens: match self.tokens {
                Some(tokens) => Some(tokens.without_comments()),
                None => None,
            },
        }
    }

    /// Taking the comments out of everything makes no difference between a node and the
    /// node cleared.
    pub proof fn stripped_absorbs_clearing(self)
        ensures
            self.without_comments().stripped() == self.stripped(),
    {
        self.without_comments_is_idempotent();
    }

    /// Once the comments are taken out of everything, no token holds a comment.
    pub proof fn stripped_is_comment_free(self)
        ensures
            self.stripped().is_comment_free(),
        decreases self.depth(), 0nat,
    {
        self.key_type.stripped_is_comment_free();
        self.value_type.stripped_is_comment_free();
        match self.tokens {
            Some(tokens) => {
                tokens.without_comments_is_idempotent();
                tokens.without_comments().cleared_is_comment_free();
            },
            None => {},
        }
    }

    /// Taking the comments out of everything a second time changes nothing.
    pub proof fn stripped_is_idempotent(self)
        ensures
            self.stripped().stripped() == self.stripped(),
        decreases self.depth(), 0nat,
    {
        self.key_type.stripped_is_idempotent();
        self.value_type.stripped_is_idempotent();
        match self.tokens {
            Some(tokens) => tokens.without_comments_is_idempotent(),
            None => {},
        }
    }
}

} // verus!
