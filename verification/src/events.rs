//! Events the front end listens for, with their wire names.

use vstd::prelude::*;

verus! {

/// The events the assistant emits toward the user interface.
#[derive(Debug, Clone, Copy, PartialEq, Eq, Structural)]
pub enum EventTypes {
    AssistantGreet,
    AssistantWaiting,
    CommandExecuted,
}

impl EventTypes {
    /// The wire name of each event.
    pub open spec fn spec_name(&self) -> Seq<char> {
        match self {
            EventTypes::AssistantGreet => "assistant-greet"@,
            EventTypes::AssistantWaiting => "assistant-waiting"@,
            EventTypes::CommandExecuted => "command-executed"@,
        }
    }

    /// The wire name of the event.
    pub fn get(&self) -> (r: &str)
        ensures
            r@ == self.spec_name(),
    {
        match self {
            EventTypes::AssistantGreet => "assistant-greet",
            EventTypes::AssistantWaiting => "assistant-waiting",
            EventTypes::CommandExecuted => "command-executed",
        }
    }
}

/// Event plumbing needs nothing set up in this build.
pub fn init() {
}

} // verus!
