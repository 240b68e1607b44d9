use vstd::prelude::*;

verus! {

/// The one message that the bot answers.
pub const PING_COMMAND: &'static str = "!ping";

/// The bot's answer to [`PING_COMMAND`].
pub const PING_REPLY: &'static str = "Pong!";

/// The reply that a message with text `content` gets: [`PING_REPLY`] where the
/// text is exactly [`PING_COMMAND`], and none for any other text.
pub fn reply_to(content: &str) -> (r: Option<String>)
    ensures
        match r {
            Some(reply) => content@ == PING_COMMAND@ && reply@ == PING_REPLY@,
            None => content@ != PING_COMMAND@,
        },
{
    if content.to_owned() == PING_COMMAND.to_owned() {
        Some(PING_REPLY.to_owned())
    } else {
        None
    }
}

} // verus!
