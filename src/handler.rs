//! The chat commands' replies.
use vstd::prelude::*;

verus! {

/// Answers the chat commands that users send to the bot.
pub struct Handler;

impl Handler {
    /// The reply to `ping`.
    pub fn ping_reply(&self) -> (r: String)
        ensures
            r@ == "pong"@,
    {
        String::from_str("pong")
    }
}

} // verus!
