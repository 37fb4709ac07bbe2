//! What the program settles before the bot runs: the scopes it asks for, the
//! commands it describes, and whether a credential is at hand or has to be
//! obtained.

use crate::twitch::oauth::{load_result, OAuthManager, OAuthView};
use vstd::prelude::*;

verus! {

/// The scopes that the bot asks for: to read and to write chat, to learn its own
/// identifier, and to send messages through the REST side.
pub open spec fn bot_scopes() -> Seq<Seq<char>> {
    seq!["chat:read"@, "chat:edit"@, "user:read:email"@, "user:write:chat"@]
}

/// The scopes that the bot asks for.
pub fn default_scopes() -> (r: Vec<String>)
    ensures
        r.deep_view() == bot_scopes(),
{
    let mut r: Vec<String> = Vec::new();
    r.push(String::from_str("chat:read"));
    r.push(String::from_str("chat:edit"));
    r.push(String::from_str("user:read:email"));
    r.push(String::from_str("user:write:chat"));
    assert(r.deep_view() =~= bot_scopes());
    r
}

/// The commands that the bot offers, each with its help text.
pub open spec fn offered_commands() -> Seq<(Seq<char>, Seq<char>)> {
    seq![
        ("ping"@, "Responds with Pong!"@),
        ("uptime"@, "Shows how long the bot has been running"@),
        ("help"@, "Shows help information for available commands"@),
        ("8ball"@, "Ask the Magic 8-Ball a yes/no question. Usage: !8ball <question>"@),
    ]
}

/// The commands that the bot offers, each with its help text.
pub fn command_descriptions() -> (r: Vec<(String, String)>)
    ensures
        r.deep_view() == offered_commands(),
{
    let mut r: Vec<(String, String)> = Vec::new();
    r.push(crate::http::pair("ping", "Responds with Pong!"));
    r.push(crate::http::pair("uptime", "Shows how long the bot has been running"));
    r.push(crate::http::pair("help", "Shows help information for available commands"));
    r.push(
        crate::http::pair(
            "8ball",
            "Ask the Magic 8-Ball a yes/no question. Usage: !8ball <question>",
        ),
    );
    assert(r.deep_view() =~= offered_commands());
    r
}

/// What has to happen before the bot can use its credential.
#[derive(Debug, Clone, Copy, PartialEq, Eq, Structural)]
pub enum SessionPlan {
    /// A credential is held; nothing has to happen.
    UseHeld,
    /// The device-code flow has to run, and its token to be stored.
    RunDeviceFlow,
}

/// The plan of the `auth` task. A stored token is taken unless a new one is
/// forced; where there is none, or it cannot be read, the device-code flow runs.
pub open spec fn auth_plan(manager: OAuthView, force: bool, stored: Option<Seq<char>>, now: u64) -> (
    OAuthView,
    SessionPlan,
) {
    if force || stored is None {
        (manager, SessionPlan::RunDeviceFlow)
    } else {
        let loaded = load_result(manager, stored, now);
        (
            loaded.0,
            if loaded.1 is Ok {
                SessionPlan::UseHeld
            } else {
                SessionPlan::RunDeviceFlow
            },
        )
    }
}

/// The plan at the start of the bot. A stored token is taken if it can be read;
/// the device-code flow runs where no credential is held after that.
pub open spec fn start_plan(manager: OAuthView, stored: Option<Seq<char>>, now: u64) -> (
    OAuthView,
    SessionPlan,
) {
    let loaded = load_result(manager, stored, now).0;
    (
        loaded,
        if loaded.credential is Some {
            SessionPlan::UseHeld
        } else {
            SessionPlan::RunDeviceFlow
        },
    )
}

/// Settles how the `auth` task obtains its credential: see `auth_plan`. `stored`
/// is the text of the stored token, if there is one.
pub fn authenticate(manager: &mut OAuthManager, force: bool, stored: Option<&str>, now: u64) -> (r:
    SessionPlan)
    ensures
        (final(manager)@, r) == auth_plan(old(manager)@, force, stored.deep_view(), now),
{
    if force || stored.is_none() {
        return SessionPlan::RunDeviceFlow;
    }
    match manager.load_token(stored, now) {
        Ok(()) => SessionPlan::UseHeld,
        Err(_) => SessionPlan::RunDeviceFlow,
    }
}

/// Settles how the bot obtains its credential when it starts: see `start_plan`.
/// `stored` is the text of the stored token, if there is one.
pub fn ensure_session_ready(manager: &mut OAuthManager, stored: Option<&str>, now: u64) -> (r:
    SessionPlan)
    ensures
        (final(manager)@, r) == start_plan(old(manager)@, stored.deep_view(), now),
{
    let _ = manager.load_token(stored, now);
    if manager.is_authenticated() {
        SessionPlan::UseHeld
    } else {
        SessionPlan::RunDeviceFlow
    }
}

} // verus!
