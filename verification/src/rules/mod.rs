pub mod configuration;
pub mod remove_comments;
pub mod rule;
pub mod stripping;

pub use configuration::{
    verify_no_rule_properties, PropertyValueView, RuleConfigurationError, RuleProperties,
    RuleProperty, RulePropertyValue,
};
pub use remove_comments::{RemoveCommentProcessor, RemoveComments, REMOVE_COMMENTS_RULE_NAME};
pub use rule::{Context, FlawlessRule, Rule, RuleConfiguration};
