//! The plain commands: ping, help and uptime.

use crate::commands::{name_position, owned_args, Command, CommandError};
use crate::message::{ChatMessage, ChatMessageView};
use crate::text::{decimal_text, join_text, lowercase_of};
use vstd::prelude::*;

verus! {

/// A command that answers every call, to show that the bot is listening.
#[derive(Debug, Clone, Copy, PartialEq, Eq, Structural)]
pub struct PingCommand;

/// The answer to a ping: who called, and what they said.
pub open spec fn ping_reply(msg: ChatMessageView) -> Seq<char> {
    "Pong! Received from "@ + msg.sender_name + " who said: "@ + msg.message_text
}

impl PingCommand {
    /// The answer to the message `msg`.
    pub fn reply(&self, msg: &ChatMessage) -> (r: String)
        ensures
            r@ == ping_reply(msg@),
    {
        let mut out = crate::text::concat("Pong! Received from ", msg.sender_name.as_str());
        out.append(" who said: ");
        out.append(msg.message_text.as_str());
        out
    }
}

impl Command for PingCommand {
    fn execute(&self, msg: &ChatMessage, _args: Vec<&str>) -> (r: Result<
        Option<String>,
        CommandError,
    >)
        ensures
            r matches Ok(Some(text)) && text@ == ping_reply(msg@),
    {
        Ok(Some(self.reply(msg)))
    }

    fn help(&self) -> (r: &str)
        ensures
            r@ == "Responds with Pong!"@,
    {
        "Responds with Pong!"
    }
}

/// A command that lists the commands, or explains one of them.
pub struct HelpCommand {
    prefix: String,
    descriptions: Vec<(String, String)>,
}

pub struct HelpView {
    pub prefix: Seq<char>,
    pub descriptions: Seq<(Seq<char>, Seq<char>)>,
}

impl View for HelpCommand {
    type V = HelpView;

    closed spec fn view(&self) -> HelpView {
        HelpView { prefix: self.prefix@, descriptions: self.descriptions.deep_view() }
    }
}

/// The names of the described commands, each behind the prefix.
pub open spec fn prefixed_names(prefix: Seq<char>, descriptions: Seq<(Seq<char>, Seq<char>)>) -> Seq<
    Seq<char>,
> {
    Seq::new(descriptions.len(), |i: int| prefix + descriptions[i].0)
}

/// The names of the described commands, each in lowercase.
pub open spec fn lowered_names(descriptions: Seq<(Seq<char>, Seq<char>)>) -> Seq<Seq<char>> {
    Seq::new(descriptions.len(), |i: int| lowercase_of(descriptions[i].0))
}

/// The help text of the first described command whose name, in lowercase, is
/// `wanted`.
pub open spec fn help_for(descriptions: Seq<(Seq<char>, Seq<char>)>, wanted: Seq<char>) -> Option<
    Seq<char>,
> {
    let at = name_position(lowered_names(descriptions), wanted);
    if at < descriptions.len() {
        Some(descriptions[at].1)
    } else {
        None
    }
}

/// The answer to a call for help. Without arguments it lists the commands. With
/// one, it explains the command that the first argument names, whatever the case
/// it is written in, or says that there is no such command.
pub open spec fn help_reply(help: HelpView, args: Seq<Seq<char>>) -> Seq<char> {
    if args.len() == 0 {
        "Available commands: "@ + join_text(prefixed_names(help.prefix, help.descriptions), ", "@)
    } else {
        let wanted = lowercase_of(args[0]);
        match help_for(help.descriptions, wanted) {
            Some(text) => text,
            None => "Unknown command: "@ + help.prefix + wanted,
        }
    }
}

impl HelpCommand {
    /// A help command for commands that begin with `prefix` and are described by
    /// `descriptions`, each a name and its help text.
    pub fn new(prefix: String, descriptions: Vec<(String, String)>) -> (r: Self)
        ensures
            r@ == (HelpView { prefix: prefix@, descriptions: descriptions.deep_view() }),
    {
        HelpCommand { prefix, descriptions }
    }

    /// The answer to a call with `args`: see `help_reply`.
    pub fn reply(&self, args: &Vec<String>) -> (r: String)
        ensures
            r@ == help_reply(self@, args.deep_view()),
    {
        if args.len() == 0 {
            let mut names: Vec<String> = Vec::new();
            let mut i: usize = 0;
            while i < self.descriptions.len()
                invariant
                    i <= self.descriptions.len(),
                    names.len() == i,
                    forall|k: int|
                        0 <= k < i ==> names[k]@ == self.prefix@ + self.descriptions[k].0@,
                decreases self.descriptions.len() - i,
            {
                names.push(
                    crate::text::concat(self.prefix.as_str(), self.descriptions[i].0.as_str()),
                );
                i += 1;
            }
            assert(names.deep_view() =~= prefixed_names(self@.prefix, self@.descriptions));
            let listed = crate::text::join(&names, ", ");
            crate::text::concat("Available commands: ", listed.as_str())
        } else {
            let wanted = crate::text::to_lowercase(args[0].as_str());
            let mut lowered: Vec<String> = Vec::new();
            let mut i: usize = 0;
            while i < self.descriptions.len()
                invariant
                    i <= self.descriptions.len(),
                    lowered.len() == i,
                    forall|k: int|
                        0 <= k < i ==> lowered[k]@ == lowercase_of(self.descriptions[k].0@),
                decreases self.descriptions.len() - i,
            {
                lowered.push(crate::text::to_lowercase(self.descriptions[i].0.as_str()));
                i += 1;
            }
            assert(lowered.deep_view() =~= lowered_names(self@.descriptions));
            let at = crate::commands::position(&lowered, wanted.as_str());
            if at < self.descriptions.len() {
                return self.descriptions[at].1.clone();
            }
            let mut out = crate::text::concat("Unknown command: ", self.prefix.as_str());
            out.append(wanted.as_str());
            out
        }
    }
}

impl Command for HelpCommand {
    fn execute(&self, _msg: &ChatMessage, args: Vec<&str>) -> (r: Result<
        Option<String>,
        CommandError,
    >)
        ensures
            r matches Ok(Some(text)) && text@ == help_reply(self@, args.deep_view()),
    {
        let owned = owned_args(&args);
        Ok(Some(self.reply(&owned)))
    }

    fn help(&self) -> (r: &str)
        ensures
            r@ == "Shows help information for available commands"@,
    {
        "Shows help information for available commands"
    }
}

/// A command that says for how long the bot has been running.
#[derive(Debug, Clone, Copy, PartialEq, Eq, Structural)]
pub struct UptimeCommand {
    started_at: u64,
}

/// The answer for a bot that has been running for `seconds`: whole hours, the
/// minutes beyond them and the seconds beyond those.
pub open spec fn uptime_reply(seconds: u64) -> Seq<char> {
    "Bot has been running for "@ + decimal_text((seconds / 3600) as nat) + "h "@ + decimal_text(
        ((seconds % 3600) / 60) as nat,
    ) + "m "@ + decimal_text((seconds % 60) as nat) + "s"@
}

impl UptimeCommand {
    /// An uptime command for a bot that started at `started_at`, in seconds on the
    /// clock that stamps the messages.
    pub fn new(started_at: u64) -> (r: Self)
        ensures
            r.started_at() == started_at,
    {
        UptimeCommand { started_at }
    }

    /// When the bot started.
    pub closed spec fn started_at(&self) -> u64 {
        self.started_at
    }

    /// The answer for a bot that has been running for `seconds`.
    pub fn reply(seconds: u64) -> (r: String)
        ensures
            r@ == uptime_reply(seconds),
    {
        let hours = seconds / 3600;
        let minutes = (seconds % 3600) / 60;
        let rest = seconds % 60;
        let mut out = crate::text::concat(
            "Bot has been running for ",
            crate::text::decimal(hours).as_str(),
        );
        out.append("h ");
        out.append(crate::text::decimal(minutes).as_str());
        out.append("m ");
        out.append(crate::text::decimal(rest).as_str());
        out.append("s");
        out
    }
}

impl Command for UptimeCommand {
    fn execute(&self, msg: &ChatMessage, _args: Vec<&str>) -> (r: Result<
        Option<String>,
        CommandError,
    >)
        ensures
            r matches Ok(Some(text)) && text@ == uptime_reply(
                crate::twitch::oauth::elapsed_since(self.started_at(), msg@.received_at) as u64,
            ),
    {
        let seconds = crate::twitch::oauth::elapsed(self.started_at, msg.received_at);
        Ok(Some(UptimeCommand::reply(seconds)))
    }

    fn help(&self) -> (r: &str)
        ensures
            r@ == "Shows how long the bot has been running"@,
    {
        "Shows how long the bot has been running"
    }
}

} // verus!
