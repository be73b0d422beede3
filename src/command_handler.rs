use vstd::prelude::*;
use vstd::string::StringExecFns;

verus! {

/// The commands the bot understands.
#[derive(Clone, Copy, Debug, PartialEq, Eq, Structural)]
pub enum EnhancerCommands {
    Start,
}

/// The text the bot answers a command with.
pub fn command_reply(cmd: EnhancerCommands) -> (r: String)
    ensures
        match cmd {
            EnhancerCommands::Start => r@ == "Hello!"@,
        },
{
    match cmd {
        EnhancerCommands::Start => String::from_str("Hello!"),
    }
}

} // verus!
