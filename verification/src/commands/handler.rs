//! From a chat message to the answer of the command that it calls.
//!
//! The handler reads the call out of the message, lets the command answer, and
//! gets the answer out: as a reply to the message, and as a plain message if the
//! reply fails.

use crate::commands::{Command, CommandError, CommandRegistry};
use crate::message::{ChatMessage, ChatMessageView};
use crate::text::{lowercase_of, starts_with_text, trim_text, words_of};
use crate::twitch::client::{
    message_step, reply_step, ClientEvent, ClientEventView, ClientStep, ClientStepView,
    ClientView, SendState, TwitchClient,
};
use crate::twitch::helix::CallPhase;
use vstd::prelude::*;

verus! {

/// The call that a message makes: the command's name in lowercase and the
/// arguments. A message calls a command if, without the white space around it, it
/// begins with the prefix and has a word after it; the first word is the name, the
/// other words are the arguments.
pub open spec fn command_call(prefix: Seq<char>, text: Seq<char>) -> Option<
    (Seq<char>, Seq<Seq<char>>),
> {
    let content = trim_text(text);
    if !starts_with_text(content, prefix) {
        None
    } else {
        let parts = words_of(content.subrange(prefix.len() as int, content.len() as int));
        if parts.len() == 0 {
            None
        } else {
            Some((lowercase_of(parts[0]), parts.subrange(1, parts.len() as int)))
        }
    }
}

/// Where the handling of a message stands.
#[derive(Debug, PartialEq, Eq)]
pub enum HandlerState {
    /// The message has not been looked at.
    Start,
    /// The answer is on its way as a reply.
    Replying { response: String, phase: CallPhase },
    /// The answer is on its way as a plain message.
    Sending { response: String, state: SendState },
}

pub enum HandlerStateView {
    Start,
    Replying { response: Seq<char>, phase: CallPhase },
    Sending { response: Seq<char>, state: SendState },
}

impl View for HandlerState {
    type V = HandlerStateView;

    open spec fn view(&self) -> HandlerStateView {
        match self {
            HandlerState::Start => HandlerStateView::Start,
            HandlerState::Replying { response, phase } => HandlerStateView::Replying {
                response: response@,
                phase: *phase,
            },
            HandlerState::Sending { response, state } => HandlerStateView::Sending {
                response: response@,
                state: *state,
            },
        }
    }
}

/// What a command gave, seen through its texts.
pub open spec fn outcome_view(outcome: Result<Option<String>, CommandError>) -> Result<
    Option<Seq<char>>,
    Seq<char>,
> {
    match outcome {
        Ok(Some(text)) => Ok(Some(text@)),
        Ok(None) => Ok(None),
        Err(error) => Err(error@),
    }
}

/// The handler of chat commands: what a command begins with, and the name under
/// which the bot speaks.
pub struct CommandHandler {
    prefix: String,
    bot_username: String,
}

pub struct HandlerView {
    pub prefix: Seq<char>,
    pub bot_username: Seq<char>,
}

impl View for CommandHandler {
    type V = HandlerView;

    closed spec fn view(&self) -> HandlerView {
        HandlerView { prefix: self.prefix@, bot_username: self.bot_username@ }
    }
}

/// One step of sending the answer as a plain message, in the channel of the
/// message that called: the delivery client's sending, until it is done.
pub open spec fn send_stage(
    handler: HandlerView,
    client: ClientView,
    response: Seq<char>,
    state: SendState,
    msg: ChatMessageView,
    event: ClientEventView,
    now: u64,
) -> (ClientView, HandlerStateView, ClientStepView) {
    let (after, next, step) = message_step(
        client,
        state,
        msg.channel_login,
        response,
        handler.bot_username,
        event,
        now,
    );
    match step {
        ClientStepView::Done(result) => (after, HandlerStateView::Start, ClientStepView::Done(result)),
        other => (after, HandlerStateView::Sending { response, state: next }, other),
    }
}

/// One step of sending the answer as a reply to the message that called. A reply
/// that goes through ends the handling; one that fails has the answer sent as a
/// plain message instead.
pub open spec fn reply_stage(
    handler: HandlerView,
    client: ClientView,
    response: Seq<char>,
    phase: CallPhase,
    msg: ChatMessageView,
    event: ClientEventView,
    now: u64,
) -> (ClientView, HandlerStateView, ClientStepView) {
    let (after, next, step) = reply_step(
        client,
        phase,
        msg.channel_login,
        response,
        msg.message_id,
        event,
        now,
    );
    match step {
        ClientStepView::Done(Ok(_)) => (after, HandlerStateView::Start, ClientStepView::Done(Ok(()))),
        ClientStepView::Done(Err(_)) => send_stage(
            handler,
            after,
            response,
            SendState::Start,
            msg,
            ClientEventView::Proceed,
            now,
        ),
        other => (after, HandlerStateView::Replying { response, phase: next }, other),
    }
}

/// What the handler does with what a command gave: an answer is sent as a reply,
/// and anything else, a failure too, ends the handling with nothing said.
pub open spec fn respond_step(
    handler: HandlerView,
    client: ClientView,
    outcome: Result<Option<Seq<char>>, Seq<char>>,
    msg: ChatMessageView,
    now: u64,
) -> (ClientView, HandlerStateView, ClientStepView) {
    match outcome {
        Ok(Some(response)) => reply_stage(
            handler,
            client,
            response,
            CallPhase::Start,
            msg,
            ClientEventView::Proceed,
            now,
        ),
        _ => (client, HandlerStateView::Start, ClientStepView::Done(Ok(()))),
    }
}

impl CommandHandler {
    /// A handler for commands that begin with `prefix`, for a bot that speaks as
    /// `bot_username`.
    pub fn new(prefix: String, bot_username: String) -> (r: Self)
        ensures
            r@ == (HandlerView { prefix: prefix@, bot_username: bot_username@ }),
    {
        CommandHandler { prefix, bot_username }
    }

    /// Reads the call out of the text of a message: see `command_call`.
    pub fn parse(&self, text: &str) -> (r: Option<(String, Vec<String>)>)
        ensures
            r.deep_view() == command_call(self@.prefix, text@),
    {
        let content = crate::text::trim(text);
        if !crate::text::starts_with(content.as_str(), self.prefix.as_str()) {
            return None;
        }
        let prefix_len = self.prefix.as_str().unicode_len();
        let content_len = content.as_str().unicode_len();
        let rest = content.as_str().substring_char(prefix_len, content_len);
        let mut parts = crate::text::split_whitespace(rest);
        if parts.len() == 0 {
            return None;
        }
        let ghost all = parts.deep_view();
        let args = parts.split_off(1);
        let name = crate::text::to_lowercase(parts[0].as_str());
        proof {
            assert(parts[0]@ == all[0]);
            assert(args.deep_view() =~= all.subrange(1, all.len() as int));
        }
        Some((name, args))
    }

    fn send_answer(
        &self,
        client: &mut TwitchClient,
        response: String,
        state: SendState,
        msg: &ChatMessage,
        event: ClientEvent,
        now: u64,
    ) -> (r: (HandlerState, ClientStep))
        ensures
            (final(client)@, r.0@, r.1@) == send_stage(
                self@,
                old(client)@,
                response@,
                state,
                msg@,
                event@,
                now,
            ),
    {
        let sent = client.send_message(
            state,
            msg.channel_login.as_str(),
            response.as_str(),
            self.bot_username.as_str(),
            event,
            now,
        );
        match sent.1 {
            ClientStep::Done(result) => (HandlerState::Start, ClientStep::Done(result)),
            other => (HandlerState::Sending { response, state: sent.0 }, other),
        }
    }

    fn reply_answer(
        &self,
        client: &mut TwitchClient,
        response: String,
        phase: CallPhase,
        msg: &ChatMessage,
        event: ClientEvent,
        now: u64,
    ) -> (r: (HandlerState, ClientStep))
        ensures
            (final(client)@, r.0@, r.1@) == reply_stage(
                self@,
                old(client)@,
                response@,
                phase,
                msg@,
                event@,
                now,
            ),
    {
        let replied = client.send_reply(
            phase,
            msg.channel_login.as_str(),
            response.as_str(),
            msg.message_id.as_str(),
            event,
            now,
        );
        match replied.1 {
            ClientStep::Done(Ok(_)) => (HandlerState::Start, ClientStep::Done(Ok(()))),
            ClientStep::Done(Err(_)) => self.send_answer(
                client,
                response,
                SendState::Start,
                msg,
                ClientEvent::Proceed,
                now,
            ),
            other => (HandlerState::Replying { response, phase: replied.0 }, other),
        }
    }

    /// Gets out what a command gave: see `respond_step`.
    pub fn respond(
        &self,
        client: &mut TwitchClient,
        outcome: Result<Option<String>, CommandError>,
        msg: &ChatMessage,
        now: u64,
    ) -> (r: (HandlerState, ClientStep))
        ensures
            (final(client)@, r.0@, r.1@) == respond_step(
                self@,
                old(client)@,
                outcome_view(outcome),
                msg@,
                now,
            ),
    {
        match outcome {
            Ok(Some(response)) => self.reply_answer(
                client,
                response,
                CallPhase::Start,
                msg,
                ClientEvent::Proceed,
                now,
            ),
            _ => (HandlerState::Start, ClientStep::Done(Ok(()))),
        }
    }

    /// One step of handling the message `msg`. At the start the message is read:
    /// if it calls a command of the registry, the command answers once, and the
    /// answer is sent as `respond_step` says; a message that calls none ends the
    /// handling at once. After that the step goes on with the sending, as
    /// `reply_stage` and `send_stage` say.
    pub fn handle_message<C: Command>(
        &self,
        registry: &CommandRegistry<C>,
        client: &mut TwitchClient,
        state: HandlerState,
        msg: &ChatMessage,
        event: ClientEvent,
        now: u64,
    ) -> (r: (HandlerState, ClientStep))
        ensures
            match state@ {
                HandlerStateView::Replying { response, phase } => (final(client)@, r.0@, r.1@)
                    == reply_stage(self@, old(client)@, response, phase, msg@, event@, now),
                HandlerStateView::Sending { response, state } => (final(client)@, r.0@, r.1@)
                    == send_stage(self@, old(client)@, response, state, msg@, event@, now),
                HandlerStateView::Start => match command_call(self@.prefix, msg@.message_text) {
                    Some((name, _)) if registry@.has(name) => exists|
                        outcome: Result<Option<Seq<char>>, Seq<char>>,
                    |
                        (final(client)@, r.0@, r.1@) == respond_step(
                            self@,
                            old(client)@,
                            outcome,
                            msg@,
                            now,
                        ),
                    _ => (final(client)@, r.0@, r.1@) == (
                        old(client)@,
                        HandlerStateView::Start,
                        ClientStepView::Done(Ok::<(), crate::twitch::client::DeliveryErrorView>(())),
                    ),
                },
            },
    {
        match state {
            HandlerState::Replying { response, phase } => self.reply_answer(
                client,
                response,
                phase,
                msg,
                event,
                now,
            ),
            HandlerState::Sending { response, state } => self.send_answer(
                client,
                response,
                state,
                msg,
                event,
                now,
            ),
            HandlerState::Start => {
                let (name, args) = match self.parse(msg.message_text.as_str()) {
                    Some(call) => call,
                    None => {
                        return (HandlerState::Start, ClientStep::Done(Ok(())));
                    },
                };
                let command = match registry.get_command(name.as_str()) {
                    Some(command) => command,
                    None => {
                        return (HandlerState::Start, ClientStep::Done(Ok(())));
                    },
                };
                let mut borrowed: Vec<&str> = Vec::new();
                let mut i: usize = 0;
                while i < args.len()
                    invariant
                        i <= args.len(),
                        borrowed.len() == i,
                        forall|k: int| 0 <= k < i ==> borrowed[k]@ == args[k]@,
                    decreases args.len() - i,
                {
                    borrowed.push(args[i].as_str());
                    i += 1;
                }
                assert(borrowed.deep_view() =~= command_call(self@.prefix, msg@.message_text)->Some_0.1);
                let outcome = command.execute(msg, borrowed);
                let ghost given = outcome_view(outcome);
                let r = self.respond(client, outcome, msg, now);
                assert((client@, r.0@, r.1@) == respond_step(self@, old(client)@, given, msg@, now));
                r
            },
        }
    }
}

} // verus!
