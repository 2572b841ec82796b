use darklua_core::rules::{
    verify_no_rule_properties, RuleConfigurationError, RuleProperties, RulePropertyValue,
};

#[test]
fn no_property_is_accepted_by_a_rule_without_options() {
    assert_eq!(verify_no_rule_properties(&RuleProperties::new()), Ok(()));
    assert_eq!(verify_no_rule_properties(&RuleProperties::default()), Ok(()));
}

#[test]
fn first_property_is_named_by_the_error() {
    let mut properties = RuleProperties::new();
    properties.insert("first".to_owned(), RulePropertyValue::Boolean(true));
    properties.insert("second".to_owned(), RulePropertyValue::Usize(2));
    assert_eq!(
        verify_no_rule_properties(&properties),
        Err(RuleConfigurationError::UnexpectedProperty("first".to_owned()))
    );
}

#[test]
fn properties_keep_one_value_for_each_name() {
    let mut properties = RuleProperties::new();
    assert!(properties.is_empty());
    assert_eq!(properties.get("a"), None);

    properties.insert("a".to_owned(), RulePropertyValue::Usize(1));
    properties.insert("b".to_owned(), RulePropertyValue::String("text".to_owned()));
    assert!(!properties.is_empty());
    assert_eq!(properties.get("a"), Some(&RulePropertyValue::Usize(1)));
    assert_eq!(properties.get("b"), Some(&RulePropertyValue::String("text".to_owned())));
    assert_eq!(properties.get("c"), None);

    properties.insert("a".to_owned(), RulePropertyValue::Null);
    assert_eq!(properties.get("a"), Some(&RulePropertyValue::Null));
    assert_eq!(properties.entries.len(), 2);
    assert_eq!(
        properties.entries.get(0).map(|property| property.name.as_str()),
        Some("a")
    );
}

#[test]
fn expected_kinds_of_values() {
    assert_eq!(RulePropertyValue::Boolean(true).expect_bool("key"), Ok(true));
    assert_eq!(RulePropertyValue::String("s".to_owned()).expect_string("key"), Ok("s".to_owned()));
    assert_eq!(RulePropertyValue::Usize(7).expect_usize("key"), Ok(7));
    assert_eq!(
        RulePropertyValue::StringList(vec!["a".to_owned()]).expect_string_list("key"),
        Ok(vec!["a".to_owned()])
    );
}

#[test]
fn other_kinds_of_values_name_the_property() {
    assert_eq!(
        RulePropertyValue::Usize(1).expect_bool("flag"),
        Err(RuleConfigurationError::BooleanExpected("flag".to_owned()))
    );
    assert_eq!(
        RulePropertyValue::Boolean(true).expect_string("name"),
        Err(RuleConfigurationError::StringExpected("name".to_owned()))
    );
    assert_eq!(
        RulePropertyValue::Null.expect_usize("size"),
        Err(RuleConfigurationError::UsizeExpected("size".to_owned()))
    );
    assert_eq!(
        RulePropertyValue::String("a".to_owned()).expect_string_list("names"),
        Err(RuleConfigurationError::StringListExpected("names".to_owned()))
    );
}
