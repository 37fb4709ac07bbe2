//! A chat message as the bot sees it.

use vstd::prelude::*;

verus! {

/// What the bot reads of a message that was said in a channel.
#[derive(Debug, PartialEq, Eq)]
pub struct ChatMessage {
    /// The channel it was said in, by login.
    pub channel_login: String,
    /// What was said.
    pub message_text: String,
    /// The sender's numeric identifier.
    pub sender_id: String,
    /// The sender's login.
    pub sender_login: String,
    /// The sender's name as it is displayed.
    pub sender_name: String,
    /// The message's own identifier.
    pub message_id: String,
    /// When it arrived, in seconds on the bot's clock.
    pub received_at: u64,
}

pub struct ChatMessageView {
    pub channel_login: Seq<char>,
    pub message_text: Seq<char>,
    pub sender_id: Seq<char>,
    pub sender_login: Seq<char>,
    pub sender_name: Seq<char>,
    pub message_id: Seq<char>,
    pub received_at: u64,
}

impl View for ChatMessage {
    type V = ChatMessageView;

    open spec fn view(&self) -> ChatMessageView {
        ChatMessageView {
            channel_login: self.channel_login@,
            message_text: self.message_text@,
            sender_id: self.sender_id@,
            sender_login: self.sender_login@,
            sender_name: self.sender_name@,
            message_id: self.message_id@,
            received_at: self.received_at,
        }
    }
}

} // verus!
