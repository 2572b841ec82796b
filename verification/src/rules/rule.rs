use crate::nodes::Block;
use crate::rules::configuration::{PropertyValueView, RuleConfigurationError, RuleProperties};
use vstd::prelude::*;

verus! {

/// What a pass is told about the source it works on. The rules hand it on and never
/// look inside.
#[derive(Debug, PartialEq, Eq)]
pub struct Context {
    pub original_code: String,
}

impl Context {
    /// The context of a source text.
    pub fn new(original_code: String) -> (context: Self)
        ensures
            context.original_code == original_code,
    {
        Context { original_code }
    }
}

/// How a rule takes its options and gives them back.
pub trait RuleConfiguration: Sized {
    /// Whether the rule can be configured with these options.
    spec fn accepts(self, properties: Seq<(Seq<char>, PropertyValueView)>) -> bool;

    /// The rule once it has been configured with options that it accepts.
    spec fn configured(self, properties: Seq<(Seq<char>, PropertyValueView)>) -> Self;

    /// The options that give the configuration the rule has now.
    spec fn properties(self) -> Seq<(Seq<char>, PropertyValueView)>;

    /// A rule accepts the options it gives back, and configuring it with them leaves it
    /// as it is.
    proof fn configuration_round_trip(self)
        ensures
            self.accepts(self.properties()),
            self.configured(self.properties()) == self,
    ;

    /// Takes the options of the rule. Options that the rule does not accept leave it as
    /// it was, and the error names one of the options given.
    fn configure(&mut self, properties: RuleProperties) -> (result: Result<
        (),
        RuleConfigurationError,
    >)
        ensures
            result is Ok <==> old(self).accepts(properties@),
            result is Ok ==> *final(self) == old(self).configured(properties@),
            result matches Err(error) ==> {
                &&& *final(self) == *old(self)
                &&& exists|i: int|
                    0 <= i < properties@.len() && properties@[i].0 == error.property()
            },
    ;

    /// The name of the rule.
    fn get_name(&self) -> &'static str;

    /// The options that give the configuration the rule has now.
    fn serialize_to_properties(&self) -> (properties: RuleProperties)
        ensures
            properties@ == self.properties(),
    ;
}

/// A rule that rewrites a block and cannot fail.
pub trait FlawlessRule: Sized {
    /// The block that the rule makes of a block.
    spec fn processed(self, block: Block) -> Block;

    /// Rewrites the block in place.
    fn flawless_process(&self, block: &mut Block, context: &mut Context)
        ensures
            *final(block) == self.processed(*old(block)),
    ;
}

/// A rule that rewrites a block, or fails and says why.
pub trait Rule: RuleConfiguration {
    /// Rewrites the block in place, or gives the reason why it could not.
    fn process(&self, block: &mut Block, context: &mut Context) -> (result: Result<(), String>);
}

impl<T: FlawlessRule + RuleConfiguration> Rule for T {
    fn process(&self, block: &mut Block, context: &mut Context) -> (result: Result<(), String>)
        ensures
            result is Ok,
            *final(block) == self.processed(*old(block)),
    {
        self.flawless_process(block, context);
        Ok(())
    }
}

} // verus!
