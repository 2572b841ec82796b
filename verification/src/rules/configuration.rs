use crate::nodes::list::{ListCell, NodeList};
use vstd::prelude::*;

verus! {

/// The value of an option of a rule.
#[derive(Debug, PartialEq, Eq)]
pub enum RulePropertyValue {
    Boolean(bool),
    String(String),
    Usize(usize),
    StringList(Vec<String>),
    /// No value.
    Null,
}

/// What a [`RulePropertyValue`] holds, with every string as its characters.
pub ghost enum PropertyValueView {
    Boolean(bool),
    String(Seq<char>),
    Usize(usize),
    StringList(Seq<Seq<char>>),
    Null,
}

impl View for RulePropertyValue {
    type V = PropertyValueView;

    open spec fn view(&self) -> PropertyValueView {
        match self {
            RulePropertyValue::Boolean(value) => PropertyValueView::Boolean(*value),
            RulePropertyValue::String(value) => PropertyValueView::String(value@),
            RulePropertyValue::Usize(value) => PropertyValueView::Usize(*value),
            RulePropertyValue::StringList(values) => PropertyValueView::StringList(
                Seq::new(values@.len(), |i: int| values@[i]@),
            ),
            RulePropertyValue::Null => PropertyValueView::Null,
        }
    }
}

/// Why a rule could not be configured. Every error names the option at fault.
#[derive(Debug, PartialEq, Eq)]
pub enum RuleConfigurationError {
    /// The rule has no option of this name.
    UnexpectedProperty(String),
    /// The option of this name takes a boolean.
    BooleanExpected(String),
    /// The option of this name takes a string.
    StringExpected(String),
    /// The option of this name takes an unsigned number.
    UsizeExpected(String),
    /// The option of this name takes a list of strings.
    StringListExpected(String),
}

impl RuleConfigurationError {
    /// The name of the option at fault.
    pub open spec fn property(self) -> Seq<char> {
        match self {
            RuleConfigurationError::UnexpectedProperty(name) => name@,
            RuleConfigurationError::BooleanExpected(name) => name@,
            RuleConfigurationError::StringExpected(name) => name@,
            RuleConfigurationError::UsizeExpected(name) => name@,
            RuleConfigurationError::StringListExpected(name) => name@,
        }
    }
}

impl RulePropertyValue {
    /// The boolean this value holds; for any other value, the error that names `key`.
    pub fn expect_bool(self, key: &str) -> (result: Result<bool, RuleConfigurationError>)
        ensures
            match self {
                RulePropertyValue::Boolean(value) => result == Ok::<bool, RuleConfigurationError>(
                    value,
                ),
                _ => result matches Err(RuleConfigurationError::BooleanExpected(name)) && name@
                    == key@,
            },
    {
        match self {
            RulePropertyValue::Boolean(value) => Ok(value),
            _ => Err(RuleConfigurationError::BooleanExpected(key.to_owned())),
        }
    }

    /// The string this value holds; for any other value, the error that names `key`.
    pub fn expect_string(self, key: &str) -> (result: Result<String, RuleConfigurationError>)
        ensures
            match self {
                RulePropertyValue::String(value) => result == Ok::<String, RuleConfigurationError>(
                    value,
                ),
                _ => result matches Err(RuleConfigurationError::StringExpected(name)) && name@
                    == key@,
            },
    {
        match self {
            RulePropertyValue::String(value) => Ok(value),
            _ => Err(RuleConfigurationError::StringExpected(key.to_owned())),
        }
    }

    /// The number this value holds; for any other value, the error that names `key`.
    pub fn expect_usize(self, key: &str) -> (result: Result<usize, RuleConfigurationError>)
        ensures
            match self {
                RulePropertyValue::Usize(value) => result == Ok::<usize, RuleConfigurationError>(
                    value,
                ),
                _ => result matches Err(RuleConfigurationError::UsizeExpected(name)) && name@
                    == key@,
            },
    {
        match self {
            RulePropertyValue::Usize(value) => Ok(value),
            _ => Err(RuleConfigurationError::UsizeExpected(key.to_owned())),
        }
    }

    /// The list of strings this value holds; for any other value, the error that names
    /// `key`.
    pub fn expect_string_list(self, key: &str) -> (result: Result<
        Vec<String>,
        RuleConfigurationError,
    >)
        ensures
            match self {
                RulePropertyValue::StringList(values) => result == Ok::<
                    Vec<String>,
                    RuleConfigurationError,
                >(values),
                _ => result matches Err(RuleConfigurationError::StringListExpected(name)) && name@
                    == key@,
            },
    {
        match self {
            RulePropertyValue::StringList(values) => Ok(values),
            _ => Err(RuleConfigurationError::StringListExpected(key.to_owned())),
        }
    }
}

/// An option of a rule: a name and a value.
#[derive(Debug, PartialEq, Eq)]
pub struct RuleProperty {
    pub name: String,
    pub value: RulePropertyValue,
}

/// The options a rule is configured with, in the order they were given. Its view is
/// the sequence of names and values.
#[derive(Debug, PartialEq, Eq)]
pub struct RuleProperties {
    pub entries: NodeList<RuleProperty>,
}

/// The names and values of a list of options.
pub open spec fn entries_view(entries: NodeList<RuleProperty>) -> Seq<
    (Seq<char>, PropertyValueView),
>
    decreases entries,
{
    match entries {
        NodeList::Empty => Seq::empty(),
        NodeList::Cell(cell) => seq![(cell.head.name@, cell.head.value@)] + entries_view(
            cell.tail,
        ),
    }
}

/// The value given to the first option of a name, if there is one.
pub open spec fn value_of(
    properties: Seq<(Seq<char>, PropertyValueView)>,
    name: Seq<char>,
) -> Option<PropertyValueView>
    decreases properties.len(),
{
    if properties.len() == 0 {
        None
    } else if properties[0].0 == name {
        Some(properties[0].1)
    } else {
        value_of(properties.skip(1), name)
    }
}

/// The options with the value of `name` set: in place where the name is there already,
/// at the end where it is not.
pub open spec fn with_value(
    properties: Seq<(Seq<char>, PropertyValueView)>,
    name: Seq<char>,
    value: PropertyValueView,
) -> Seq<(Seq<char>, PropertyValueView)>
    decreases properties.len(),
{
    if properties.len() == 0 {
        seq![(name, value)]
    } else if properties[0].0 == name {
        seq![(name, value)] + properties.skip(1)
    } else {
        seq![properties[0]] + with_value(properties.skip(1), name, value)
    }
}

impl View for RuleProperties {
    type V = Seq<(Seq<char>, PropertyValueView)>;

    open spec fn view(&self) -> Seq<(Seq<char>, PropertyValueView)> {
        entries_view(self.entries)
    }
}

fn find<'a>(entries: &'a NodeList<RuleProperty>, name: &String) -> (found: Option<
    &'a RulePropertyValue,
>)
    ensures
        match found {
            Some(value) => value_of(entries_view(*entries), name@) == Some(value@),
            None => value_of(entries_view(*entries), name@) is None,
        },
    decreases entries,
{
    match entries {
        NodeList::Empty => None,
        NodeList::Cell(cell) => {
            assert(entries_view(*entries).skip(1) =~= entries_view(cell.tail));
            assert(entries_view(*entries)[0].0 == cell.head.name@);
            if cell.head.name == *name {
                Some(&cell.head.value)
            } else {
                find(&cell.tail, name)
            }
        },
    }
}

fn set(entries: &mut NodeList<RuleProperty>, name: String, value: RulePropertyValue)
    ensures
        entries_view(*final(entries)) == with_value(entries_view(*old(entries)), name@, value@),
    decreases *old(entries),
{
    match entries {
        NodeList::Empty => {
            *entries = NodeList::Cell(
                Box::new(ListCell { head: RuleProperty { name, value }, tail: NodeList::Empty }),
            );
            assert(entries_view(*entries) =~= seq![(name@, value@)]);
        },
        NodeList::Cell(cell) => {
            assert(entries_view(*old(entries)).skip(1) =~= entries_view(cell.tail));
            if cell.head.name == name {
                cell.head = RuleProperty { name, value };
            } else {
                set(&mut cell.tail, name, value);
            }
        },
    }
}

impl RuleProperties {
    /// No option at all.
    pub fn new() -> (properties: Self)
        ensures
            properties@ == Seq::<(Seq<char>, PropertyValueView)>::empty(),
            properties.entries == NodeList::<RuleProperty>::Empty,
    {
        RuleProperties { entries: NodeList::Empty }
    }

    /// Whether no option is given.
    pub fn is_empty(&self) -> (empty: bool)
        ensures
            empty == (self@.len() == 0),
    {
        match &self.entries {
            NodeList::Empty => true,
            NodeList::Cell(cell) => {
                assert(self@.len() == 1 + entries_view(cell.tail).len());
                false
            },
        }
    }

    /// The value given to the option `name`, if it is given.
    pub fn get(&self, name: &str) -> (found: Option<&RulePropertyValue>)
        ensures
            match found {
                Some(value) => value_of(self@, name@) == Some(value@),
                None => value_of(self@, name@) is None,
            },
    {
        let name = name.to_owned();
        find(&self.entries, &name)
    }

    /// Gives the option `name` the value `value`: in place of the value it had, or as a
    /// new option after the others.
    pub fn insert(&mut self, name: String, value: RulePropertyValue)
        ensures
            final(self)@ == with_value(old(self)@, name@, value@),
    {
        set(&mut self.entries, name, value);
    }
}

impl Default for RuleProperties {
    fn default() -> (properties: Self)
        ensures
            properties@ == Seq::<(Seq<char>, PropertyValueView)>::empty(),
    {
        RuleProperties::new()
    }
}

/// Accepts the options of a rule that takes none: no option at all. The first option
/// given is the one the error names.
pub fn verify_no_rule_properties(properties: &RuleProperties) -> (result: Result<
    (),
    RuleConfigurationError,
>)
    ensures
        properties@.len() == 0 ==> result is Ok,
        properties@.len() > 0 ==> (result matches Err(
            RuleConfigurationError::UnexpectedProperty(name),
        ) && name@ == properties@[0].0),
{
    match &properties.entries {
        NodeList::Empty => Ok(()),
        NodeList::Cell(cell) => {
            assert(properties@ == seq![(cell.head.name@, cell.head.value@)] + entries_view(
                cell.tail,
            ));
            Err(RuleConfigurationError::UnexpectedProperty(cell.head.name.clone()))
        },
    }
}

} // verus!
