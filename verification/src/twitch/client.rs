//! The delivery client: joining a channel and getting messages out.
//!
//! Messages go out over the streaming connection first. When that refuses one,
//! the client asks for a token, has the connection rebuilt with it and tries once
//! more if the refusal was about authentication, and hands the message to the
//! REST side otherwise or if the second try fails too. The connection itself
//! belongs to the caller: the client says what to do with it and is told how it
//! went.

use crate::http::{Event, EventView, HttpOutcome, HttpOutcomeView, HttpRequest, HttpRequestView};
use crate::text::{contains_text, lowercase_of, skip_leading};
use crate::twitch::helix::{
    CallPhase, HelixChatClient, HelixError, HelixErrorView, HelixStep, HelixStepView, HelixView,
};
use crate::twitch::oauth::{
    is_fresh, token_endpoint, token_step, OAuthError, OAuthErrorView, OAuthManager, OAuthView,
    TokenStep, TokenStepView,
};
use vstd::prelude::*;

verus! {

/// The name under which the transports know a channel: without the `#` signs that
/// it may begin with, and in lowercase.
pub open spec fn channel_name(channel: Seq<char>) -> Seq<char> {
    lowercase_of(skip_leading(channel, '#'))
}

/// Brings a channel's name into the form that the transports use.
pub fn normalize_channel(channel: &str) -> (r: String)
    ensures
        r@ == channel_name(channel@),
{
    let bare = crate::text::trim_start_matches(channel, '#');
    crate::text::to_lowercase(bare.as_str())
}

/// A failure whose text speaks of authentication.
pub open spec fn is_auth_failure(text: Seq<char>) -> bool {
    contains_text(text, "authentication"@)
}

/// Whether the text of a failure speaks of authentication.
pub fn mentions_authentication(text: &str) -> (r: bool)
    ensures
        r == is_auth_failure(text@),
{
    crate::text::contains(text, "authentication")
}

/// Why a message, or a join, did not go through.
#[derive(Debug, PartialEq, Eq)]
pub enum DeliveryError {
    /// No token could be had for a new connection.
    Auth(OAuthError),
    /// Both transports failed; this is what the REST side said.
    SendFailed(HelixError),
    /// The reply could not be sent; this is what the REST side said.
    ReplyFailed(HelixError),
    /// The client was told of something that it had not asked for.
    OutOfStep,
}

pub enum DeliveryErrorView {
    Auth(OAuthErrorView),
    SendFailed(HelixErrorView),
    ReplyFailed(HelixErrorView),
    OutOfStep,
}

impl View for DeliveryError {
    type V = DeliveryErrorView;

    open spec fn view(&self) -> DeliveryErrorView {
        match self {
            DeliveryError::Auth(error) => DeliveryErrorView::Auth(error@),
            DeliveryError::SendFailed(error) => DeliveryErrorView::SendFailed(error@),
            DeliveryError::ReplyFailed(error) => DeliveryErrorView::ReplyFailed(error@),
            DeliveryError::OutOfStep => DeliveryErrorView::OutOfStep,
        }
    }
}

impl DeepView for DeliveryError {
    type V = DeliveryErrorView;

    open spec fn deep_view(&self) -> DeliveryErrorView {
        self.view()
    }
}

/// The sentence that reports an error.
pub open spec fn delivery_error_message(error: DeliveryErrorView) -> Seq<char> {
    match error {
        DeliveryErrorView::Auth(inner) => crate::twitch::oauth::oauth_error_message(inner),
        DeliveryErrorView::SendFailed(inner) => "Failed to send message: "@
            + crate::twitch::helix::helix_error_message(inner),
        DeliveryErrorView::ReplyFailed(inner) => "Failed to send reply: "@
            + crate::twitch::helix::helix_error_message(inner),
        DeliveryErrorView::OutOfStep => "event out of step with the delivery"@,
    }
}

impl DeliveryError {
    /// The sentence that reports this error.
    pub fn message(&self) -> (r: String)
        ensures
            r@ == delivery_error_message(self@),
    {
        match self {
            DeliveryError::Auth(inner) => inner.message(),
            DeliveryError::SendFailed(inner) => crate::text::concat(
                "Failed to send message: ",
                inner.message().as_str(),
            ),
            DeliveryError::ReplyFailed(inner) => crate::text::concat(
                "Failed to send reply: ",
                inner.message().as_str(),
            ),
            DeliveryError::OutOfStep => String::from_str("event out of step with the delivery"),
        }
    }
}

/// What the caller reports to the client: nothing (the operation begins, or the
/// connection was rebuilt as asked), how the streaming connection took the last
/// join or message, or what came of the last request.
#[derive(Debug)]
pub enum ClientEvent {
    Proceed,
    Stream(Result<(), String>),
    Http(HttpOutcome),
}

pub enum ClientEventView {
    Proceed,
    Stream(Result<(), Seq<char>>),
    Http(HttpOutcomeView),
}

impl View for ClientEvent {
    type V = ClientEventView;

    open spec fn view(&self) -> ClientEventView {
        match self {
            ClientEvent::Proceed => ClientEventView::Proceed,
            ClientEvent::Stream(result) => ClientEventView::Stream(crate::http::result_view(*result)),
            ClientEvent::Http(outcome) => ClientEventView::Http(outcome@),
        }
    }
}

/// What the client asks of its caller.
#[derive(Debug)]
pub enum ClientStep {
    /// Join this channel on the streaming connection and report how it went.
    Join(String),
    /// Say this on the streaming connection and report how it went.
    Say { channel: String, message: String },
    /// Replace the streaming connection by one that logs in with this token.
    Rebuild { username: String, token: String },
    /// Send this request and come back with what it gave.
    Http(HttpRequest),
    /// The operation is over, with this result.
    Done(Result<(), DeliveryError>),
}

pub enum ClientStepView {
    Join(Seq<char>),
    Say { channel: Seq<char>, message: Seq<char> },
    Rebuild { username: Seq<char>, token: Seq<char> },
    Http(HttpRequestView),
    Done(Result<(), DeliveryErrorView>),
}

impl View for ClientStep {
    type V = ClientStepView;

    open spec fn view(&self) -> ClientStepView {
        match self {
            ClientStep::Join(channel) => ClientStepView::Join(channel@),
            ClientStep::Say { channel, message } => ClientStepView::Say {
                channel: channel@,
                message: message@,
            },
            ClientStep::Rebuild { username, token } => ClientStepView::Rebuild {
                username: username@,
                token: token@,
            },
            ClientStep::Http(request) => ClientStepView::Http(request@),
            ClientStep::Done(result) => ClientStepView::Done(crate::http::result_view(*result)),
        }
    }
}

/// Where a join stands.
#[derive(Debug, Clone, Copy, PartialEq, Eq, Structural)]
pub enum JoinState {
    /// Nothing has been asked.
    Start,
    /// The first join is on its way.
    Joining,
    /// The token is being refreshed for a new connection.
    Refreshing,
    /// The connection is being rebuilt.
    Rebuilding,
    /// The second join is on its way.
    Retrying,
}

/// Where the sending of a message stands.
#[derive(Debug, Clone, Copy, PartialEq, Eq, Structural)]
pub enum SendState {
    /// Nothing has been asked.
    Start,
    /// The message is on its way over the streaming connection.
    Saying,
    /// The token is being refreshed for a new connection.
    Refreshing,
    /// The connection is being rebuilt.
    Rebuilding,
    /// The message is on its way over the new connection.
    Retrying,
    /// The REST side has the message.
    Rest(CallPhase),
}

/// The login of a streaming connection.
#[derive(Debug, PartialEq, Eq)]
pub struct StreamLogin {
    pub username: String,
    pub token: String,
}

/// The delivery client: the credential's keeper and the REST side, each owned.
pub struct TwitchClient {
    oauth_manager: OAuthManager,
    helix: HelixChatClient,
}

pub struct ClientView {
    pub oauth: OAuthView,
    pub helix: HelixView,
}

impl View for TwitchClient {
    type V = ClientView;

    closed spec fn view(&self) -> ClientView {
        ClientView { oauth: self.oauth_manager@, helix: self.helix@ }
    }
}

/// What a request for a new connection comes to, given the keeper's step: the
/// rebuilding with the token, the refresh that has to come first, or the end of
/// the operation where no token can be had.
pub enum Renewal {
    Rebuild(Seq<char>),
    Refresh(HttpRequestView),
    Failed(OAuthErrorView),
}

/// The renewal that a step of the keeper gives.
pub open spec fn renewal_of(step: TokenStepView) -> Renewal {
    match step {
        TokenStepView::Ready(token) => Renewal::Rebuild(token),
        TokenStepView::Refresh(request) => Renewal::Refresh(request),
        TokenStepView::Failed(error) => Renewal::Failed(error),
    }
}

/// One step of a join. The channel is joined under its normalized name. A refusal
/// that speaks of authentication has the connection rebuilt with a token from the
/// keeper and the join tried once more; how that second try goes, and any other
/// refusal of the first, is of no consequence. Only a keeper that has no token to
/// give makes the join fail.
pub open spec fn join_step(
    client: ClientView,
    state: JoinState,
    channel: Seq<char>,
    username: Seq<char>,
    event: ClientEventView,
    now: u64,
) -> (ClientView, JoinState, ClientStepView) {
    match (state, event) {
        (JoinState::Start, ClientEventView::Proceed) => (
            client,
            JoinState::Joining,
            ClientStepView::Join(channel_name(channel)),
        ),
        (JoinState::Joining, ClientEventView::Stream(Ok(_))) => (
            client,
            JoinState::Start,
            ClientStepView::Done(Ok(())),
        ),
        (JoinState::Joining, ClientEventView::Stream(Err(text))) => if is_auth_failure(text) {
            join_renewal(client, username, token_step(client.oauth, now, EventView::Proceed))
        } else {
            (client, JoinState::Start, ClientStepView::Done(Ok(())))
        },
        (JoinState::Refreshing, ClientEventView::Http(outcome)) => join_renewal(
            client,
            username,
            token_step(client.oauth, now, EventView::Replied(outcome)),
        ),
        (JoinState::Rebuilding, ClientEventView::Proceed) => (
            client,
            JoinState::Retrying,
            ClientStepView::Join(channel_name(channel)),
        ),
        (JoinState::Retrying, ClientEventView::Stream(_)) => (
            client,
            JoinState::Start,
            ClientStepView::Done(Ok(())),
        ),
        _ => (client, JoinState::Start, ClientStepView::Done(Err(DeliveryErrorView::OutOfStep))),
    }
}

/// How a join goes on once the keeper has been asked for a token.
pub open spec fn join_renewal(
    client: ClientView,
    username: Seq<char>,
    step: (OAuthView, TokenStepView),
) -> (ClientView, JoinState, ClientStepView) {
    let after = ClientView { oauth: step.0, ..client };
    match renewal_of(step.1) {
        Renewal::Rebuild(token) => (
            after,
            JoinState::Rebuilding,
            ClientStepView::Rebuild { username, token },
        ),
        Renewal::Refresh(request) => (after, JoinState::Refreshing, ClientStepView::Http(request)),
        Renewal::Failed(error) => (
            after,
            JoinState::Start,
            ClientStepView::Done(Err(DeliveryErrorView::Auth(error))),
        ),
    }
}

/// What a step of the REST side means for the sending of a message.
pub open spec fn rest_delivery(rest: (HelixView, OAuthView, CallPhase, HelixStepView)) -> (
    ClientView,
    SendState,
    ClientStepView,
) {
    let after = ClientView { oauth: rest.1, helix: rest.0 };
    match rest.3 {
        HelixStepView::Send(request) => (after, SendState::Rest(rest.2), ClientStepView::Http(request)),
        HelixStepView::Done(Ok(_)) => (after, SendState::Start, ClientStepView::Done(Ok(()))),
        HelixStepView::Done(Err(error)) => (
            after,
            SendState::Start,
            ClientStepView::Done(Err(DeliveryErrorView::SendFailed(error))),
        ),
    }
}

/// The step that hands a message to the REST side, or goes on with it there.
pub open spec fn rest_step(
    client: ClientView,
    channel: Seq<char>,
    message: Seq<char>,
    phase: CallPhase,
    event: EventView,
    now: u64,
) -> (ClientView, SendState, ClientStepView) {
    rest_delivery(
        crate::twitch::helix::send_step(
            client.helix,
            client.oauth,
            channel_name(channel),
            message,
            None,
            phase,
            event,
            now,
        ),
    )
}

/// How a sending goes on once the keeper has been asked for a token for a new
/// connection: where there is none to be had, the REST side takes the message.
pub open spec fn send_renewal(
    client: ClientView,
    channel: Seq<char>,
    message: Seq<char>,
    username: Seq<char>,
    step: (OAuthView, TokenStepView),
    now: u64,
) -> (ClientView, SendState, ClientStepView) {
    let after = ClientView { oauth: step.0, ..client };
    match renewal_of(step.1) {
        Renewal::Rebuild(token) => (
            after,
            SendState::Rebuilding,
            ClientStepView::Rebuild { username, token },
        ),
        Renewal::Refresh(request) => (after, SendState::Refreshing, ClientStepView::Http(request)),
        Renewal::Failed(_) => rest_step(
            after,
            channel,
            message,
            CallPhase::Start,
            EventView::Proceed,
            now,
        ),
    }
}

/// One step of sending a message. The streaming connection is tried first, under
/// the channel's normalized name, and its success ends the sending. A refusal that
/// speaks of authentication has the connection rebuilt with a token from the keeper
/// and the message said once more. Any other refusal, a keeper without a token,
/// and a refusal of the second try hand the message to the REST side, whose result
/// is then the result of the sending.
pub open spec fn message_step(
    client: ClientView,
    state: SendState,
    channel: Seq<char>,
    message: Seq<char>,
    username: Seq<char>,
    event: ClientEventView,
    now: u64,
) -> (ClientView, SendState, ClientStepView) {
    match (state, event) {
        (SendState::Start, ClientEventView::Proceed) => (
            client,
            SendState::Saying,
            ClientStepView::Say { channel: channel_name(channel), message },
        ),
        (SendState::Saying, ClientEventView::Stream(Ok(_))) => (
            client,
            SendState::Start,
            ClientStepView::Done(Ok(())),
        ),
        (SendState::Saying, ClientEventView::Stream(Err(text))) => if is_auth_failure(text) {
            send_renewal(
                client,
                channel,
                message,
                username,
                token_step(client.oauth, now, EventView::Proceed),
                now,
            )
        } else {
            rest_step(client, channel, message, CallPhase::Start, EventView::Proceed, now)
        },
        (SendState::Refreshing, ClientEventView::Http(outcome)) => send_renewal(
            client,
            channel,
            message,
            username,
            token_step(client.oauth, now, EventView::Replied(outcome)),
            now,
        ),
        (SendState::Rebuilding, ClientEventView::Proceed) => (
            client,
            SendState::Retrying,
            ClientStepView::Say { channel: channel_name(channel), message },
        ),
        (SendState::Retrying, ClientEventView::Stream(Ok(_))) => (
            client,
            SendState::Start,
            ClientStepView::Done(Ok(())),
        ),
        (SendState::Retrying, ClientEventView::Stream(Err(_))) => rest_step(
            client,
            channel,
            message,
            CallPhase::Start,
            EventView::Proceed,
            now,
        ),
        (SendState::Rest(phase), ClientEventView::Http(outcome)) => rest_step(
            client,
            channel,
            message,
            phase,
            EventView::Replied(outcome),
            now,
        ),
        _ => (client, SendState::Start, ClientStepView::Done(Err(DeliveryErrorView::OutOfStep))),
    }
}

/// One step of sending a reply. A reply goes through the REST side alone, under
/// the channel's normalized name; what fails there fails the reply.
pub open spec fn reply_step(
    client: ClientView,
    phase: CallPhase,
    channel: Seq<char>,
    message: Seq<char>,
    reply_to: Seq<char>,
    event: ClientEventView,
    now: u64,
) -> (ClientView, CallPhase, ClientStepView) {
    match event {
        ClientEventView::Stream(_) => (
            client,
            CallPhase::Start,
            ClientStepView::Done(Err(DeliveryErrorView::OutOfStep)),
        ),
        other => {
            let rest = crate::twitch::helix::send_step(
                client.helix,
                client.oauth,
                channel_name(channel),
                message,
                Some(reply_to),
                phase,
                match other {
                    ClientEventView::Http(outcome) => EventView::Replied(outcome),
                    _ => EventView::Proceed,
                },
                now,
            );
            let after = ClientView { oauth: rest.1, helix: rest.0 };
            match rest.3 {
                HelixStepView::Send(request) => (after, rest.2, ClientStepView::Http(request)),
                HelixStepView::Done(Ok(_)) => (after, CallPhase::Start, ClientStepView::Done(Ok(()))),
                HelixStepView::Done(Err(error)) => (
                    after,
                    CallPhase::Start,
                    ClientStepView::Done(Err(DeliveryErrorView::ReplyFailed(error))),
                ),
            }
        },
    }
}

/// What the client makes of a keeper's step when it wants a new connection.
pub enum RebuildStep {
    Rebuild { username: String, token: String },
    Http(HttpRequest),
    Failed(OAuthError),
}

/// The renewal that a rebuild step stands for.
pub open spec fn rebuild_view(step: RebuildStep) -> Renewal {
    match step {
        RebuildStep::Rebuild { username, token } => Renewal::Rebuild(token@),
        RebuildStep::Http(request) => Renewal::Refresh(request@),
        RebuildStep::Failed(error) => Renewal::Failed(error@),
    }
}

impl TwitchClient {
    /// A client over a keeper, with a REST side that remembers nothing yet.
    pub fn new(oauth_manager: OAuthManager) -> (r: Self)
        ensures
            r@.oauth == oauth_manager@,
            r@.helix == (HelixView { bot_user_id: None, channels: Map::empty() }),
    {
        TwitchClient { oauth_manager, helix: HelixChatClient::new() }
    }

    /// A client for trials: the login that was given, for the streaming
    /// connection, beside a client whose keeper holds no credential.
    pub fn new_with_static_auth(username: &str, token: &str) -> (r: (StreamLogin, Self))
        ensures
            r.0.username@ == username@,
            r.0.token@ == token@,
            r.1@.oauth.credential is None,
            r.1@.oauth.client_id == "dummy"@,
            r.1@.oauth.scopes == seq!["chat:read"@, "chat:edit"@],
            r.1@.helix == (HelixView { bot_user_id: None, channels: Map::empty() }),
    {
        let mut scopes: Vec<String> = Vec::new();
        scopes.push(String::from_str("chat:read"));
        scopes.push(String::from_str("chat:edit"));
        assert(scopes.deep_view() =~= seq!["chat:read"@, "chat:edit"@]);
        let manager = OAuthManager::new(String::from_str("dummy"), scopes);
        let login = StreamLogin {
            username: String::from_str(username),
            token: String::from_str(token),
        };
        (login, TwitchClient::new(manager))
    }

    /// The keeper of the credential.
    pub fn get_oauth_manager(&self) -> (r: &OAuthManager)
        ensures
            r@ == self@.oauth,
    {
        &self.oauth_manager
    }

    /// The REST side.
    pub fn get_helix_client(&self) -> (r: &HelixChatClient)
        ensures
            r@ == self@.helix,
    {
        &self.helix
    }

    /// One step towards a new streaming connection: the keeper is asked for a
    /// token, or told of the refresh's answer, and the connection is to be rebuilt
    /// with the token that it gives.
    pub fn recreate_client(&mut self, username: &str, event: Event, now: u64) -> (r: RebuildStep)
        ensures
            final(self)@.helix == old(self)@.helix,
            final(self)@.oauth == token_step(old(self)@.oauth, now, event@).0,
            rebuild_view(r) == renewal_of(token_step(old(self)@.oauth, now, event@).1),
            r matches RebuildStep::Rebuild { username: name, .. } ==> name@ == username@,
    {
        match self.oauth_manager.get_access_token(now, event) {
            TokenStep::Ready(token) => RebuildStep::Rebuild {
                username: String::from_str(username),
                token,
            },
            TokenStep::Refresh(request) => RebuildStep::Http(request),
            TokenStep::Failed(error) => RebuildStep::Failed(error),
        }
    }

    /// One step of joining `channel`: see `join_step`.
    pub fn join_channel(
        &mut self,
        state: JoinState,
        channel: &str,
        username: &str,
        event: ClientEvent,
        now: u64,
    ) -> (r: (JoinState, ClientStep))
        ensures
            (final(self)@, r.0, r.1@) == join_step(
                old(self)@,
                state,
                channel@,
                username@,
                event@,
                now,
            ),
    {
        let renewal = match (state, event) {
            (JoinState::Start, ClientEvent::Proceed) => {
                return (JoinState::Joining, ClientStep::Join(normalize_channel(channel)));
            },
            (JoinState::Joining, ClientEvent::Stream(Ok(_))) => {
                return (JoinState::Start, ClientStep::Done(Ok(())));
            },
            (JoinState::Joining, ClientEvent::Stream(Err(text))) => {
                if mentions_authentication(text.as_str()) {
                    self.recreate_client(username, Event::Proceed, now)
                } else {
                    return (JoinState::Start, ClientStep::Done(Ok(())));
                }
            },
            (JoinState::Refreshing, ClientEvent::Http(outcome)) => self.recreate_client(
                username,
                Event::Replied(outcome),
                now,
            ),
            (JoinState::Rebuilding, ClientEvent::Proceed) => {
                return (JoinState::Retrying, ClientStep::Join(normalize_channel(channel)));
            },
            (JoinState::Retrying, ClientEvent::Stream(_)) => {
                return (JoinState::Start, ClientStep::Done(Ok(())));
            },
            _ => {
                return (JoinState::Start, ClientStep::Done(Err(DeliveryError::OutOfStep)));
            },
        };
        match renewal {
            RebuildStep::Rebuild { username, token } => (
                JoinState::Rebuilding,
                ClientStep::Rebuild { username, token },
            ),
            RebuildStep::Http(request) => (JoinState::Refreshing, ClientStep::Http(request)),
            RebuildStep::Failed(error) => (
                JoinState::Start,
                ClientStep::Done(Err(DeliveryError::Auth(error))),
            ),
        }
    }

    /// Hands a message to the REST side, or goes on with it there: see `rest_step`.
    fn send_by_rest(
        &mut self,
        channel: &str,
        message: &str,
        phase: CallPhase,
        event: Event,
        now: u64,
    ) -> (r: (SendState, ClientStep))
        ensures
            (final(self)@, r.0, r.1@) == rest_step(
                old(self)@,
                channel@,
                message@,
                phase,
                event@,
                now,
            ),
    {
        let name = normalize_channel(channel);
        let rest = self.helix.send_chat_message(
            &mut self.oauth_manager,
            name.as_str(),
            message,
            None,
            phase,
            event,
            now,
        );
        match rest.1 {
            HelixStep::Send(request) => (SendState::Rest(rest.0), ClientStep::Http(request)),
            HelixStep::Done(Ok(_)) => (SendState::Start, ClientStep::Done(Ok(()))),
            HelixStep::Done(Err(error)) => (
                SendState::Start,
                ClientStep::Done(Err(DeliveryError::SendFailed(error))),
            ),
        }
    }

    /// One step of sending `message` to `channel`: see `message_step`.
    pub fn send_message(
        &mut self,
        state: SendState,
        channel: &str,
        message: &str,
        username: &str,
        event: ClientEvent,
        now: u64,
    ) -> (r: (SendState, ClientStep))
        ensures
            (final(self)@, r.0, r.1@) == message_step(
                old(self)@,
                state,
                channel@,
                message@,
                username@,
                event@,
                now,
            ),
    {
        let renewal = match (state, event) {
            (SendState::Start, ClientEvent::Proceed) => {
                return (
                    SendState::Saying,
                    ClientStep::Say {
                        channel: normalize_channel(channel),
                        message: String::from_str(message),
                    },
                );
            },
            (SendState::Saying, ClientEvent::Stream(Ok(_))) => {
                return (SendState::Start, ClientStep::Done(Ok(())));
            },
            (SendState::Saying, ClientEvent::Stream(Err(text))) => {
                if mentions_authentication(text.as_str()) {
                    self.recreate_client(username, Event::Proceed, now)
                } else {
                    return self.send_by_rest(channel, message, CallPhase::Start, Event::Proceed, now);
                }
            },
            (SendState::Refreshing, ClientEvent::Http(outcome)) => self.recreate_client(
                username,
                Event::Replied(outcome),
                now,
            ),
            (SendState::Rebuilding, ClientEvent::Proceed) => {
                return (
                    SendState::Retrying,
                    ClientStep::Say {
                        channel: normalize_channel(channel),
                        message: String::from_str(message),
                    },
                );
            },
            (SendState::Retrying, ClientEvent::Stream(Ok(_))) => {
                return (SendState::Start, ClientStep::Done(Ok(())));
            },
            (SendState::Retrying, ClientEvent::Stream(Err(_))) => {
                return self.send_by_rest(channel, message, CallPhase::Start, Event::Proceed, now);
            },
            (SendState::Rest(phase), ClientEvent::Http(outcome)) => {
                return self.send_by_rest(channel, message, phase, Event::Replied(outcome), now);
            },
            _ => {
                return (SendState::Start, ClientStep::Done(Err(DeliveryError::OutOfStep)));
            },
        };
        match renewal {
            RebuildStep::Rebuild { username, token } => (
                SendState::Rebuilding,
                ClientStep::Rebuild { username, token },
            ),
            RebuildStep::Http(request) => (SendState::Refreshing, ClientStep::Http(request)),
            RebuildStep::Failed(_) => self.send_by_rest(
                channel,
                message,
                CallPhase::Start,
                Event::Proceed,
                now,
            ),
        }
    }

    /// One step of sending `message` to `channel` as a reply to the message
    /// `reply_to`: see `reply_step`.
    pub fn send_reply(
        &mut self,
        phase: CallPhase,
        channel: &str,
        message: &str,
        reply_to: &str,
        event: ClientEvent,
        now: u64,
    ) -> (r: (CallPhase, ClientStep))
        ensures
            (final(self)@, r.0, r.1@) == reply_step(
                old(self)@,
                phase,
                channel@,
                message@,
                reply_to@,
                event@,
                now,
            ),
    {
        let event = match event {
            ClientEvent::Stream(_) => {
                return (CallPhase::Start, ClientStep::Done(Err(DeliveryError::OutOfStep)));
            },
            ClientEvent::Http(outcome) => Event::Replied(outcome),
            ClientEvent::Proceed => Event::Proceed,
        };
        let name = normalize_channel(channel);
        let rest = self.helix.send_reply(
            &mut self.oauth_manager,
            name.as_str(),
            message,
            reply_to,
            phase,
            event,
            now,
        );
        match rest.1 {
            HelixStep::Send(request) => (rest.0, ClientStep::Http(request)),
            HelixStep::Done(Ok(_)) => (CallPhase::Start, ClientStep::Done(Ok(()))),
            HelixStep::Done(Err(error)) => (
                CallPhase::Start,
                ClientStep::Done(Err(DeliveryError::ReplyFailed(error))),
            ),
        }
    }
}

proof fn lemma_rest_endpoints_are_not_the_token_endpoint()
    ensures
        crate::twitch::helix::users_endpoint() != token_endpoint(),
        crate::twitch::helix::messages_endpoint() != token_endpoint(),
{
    reveal_strlit("https://api.twitch.tv/helix/users");
    reveal_strlit("https://api.twitch.tv/helix/chat/messages");
    reveal_strlit("https://id.twitch.tv/oauth2/token");
    assert("https://api.twitch.tv/helix/users"@[8] == 'a');
    assert("https://api.twitch.tv/helix/chat/messages"@[8] == 'a');
    assert("https://id.twitch.tv/oauth2/token"@[8] == 'i');
}

/// A refusal of the streaming connection that does not speak of authentication
/// hands the message to the REST side at once: the step that follows is the first
/// step of the REST side, no new connection is asked for, and the message is not
/// said again. With a fresh token the keeper is left as it was and nothing is sent
/// to the token endpoint.
pub proof fn plain_refusal_goes_to_rest(
    client: ClientView,
    channel: Seq<char>,
    message: Seq<char>,
    username: Seq<char>,
    refusal: Seq<char>,
    now: u64,
)
    requires
        !is_auth_failure(refusal),
    ensures
        ({
            let next = message_step(
                client,
                SendState::Saying,
                channel,
                message,
                username,
                ClientEventView::Stream(Err(refusal)),
                now,
            );
            &&& next == rest_step(client, channel, message, CallPhase::Start, EventView::Proceed, now)
            &&& !(next.2 is Rebuild)
            &&& !(next.2 is Say)
            &&& !(next.2 is Join)
            &&& (client.oauth.credential matches Some(held) && is_fresh(held, now)) ==> {
                &&& next.0.oauth == client.oauth
                &&& next.2 matches ClientStepView::Http(request) ==> request.url != token_endpoint()
            }
        }),
{
    lemma_rest_endpoints_are_not_the_token_endpoint();
}

/// Once the REST side has the message, the sending is the REST side's: every
/// answer goes to it, its result is the result of the sending, and the streaming
/// connection is not used again.
pub proof fn rest_result_is_returned(
    client: ClientView,
    phase: CallPhase,
    channel: Seq<char>,
    message: Seq<char>,
    username: Seq<char>,
    outcome: HttpOutcomeView,
    now: u64,
)
    ensures
        ({
            let next = message_step(
                client,
                SendState::Rest(phase),
                channel,
                message,
                username,
                ClientEventView::Http(outcome),
                now,
            );
            let rest = crate::twitch::helix::send_step(
                client.helix,
                client.oauth,
                channel_name(channel),
                message,
                None,
                phase,
                EventView::Replied(outcome),
                now,
            );
            &&& next.1 is Rest || next.1 is Start
            &&& !(next.2 is Rebuild) && !(next.2 is Say) && !(next.2 is Join)
            &&& rest.3 matches HelixStepView::Done(Ok(_)) ==> next.2 == ClientStepView::Done(
                Ok(()),
            )
            &&& rest.3 matches HelixStepView::Done(Err(error)) ==> next.2 == ClientStepView::Done(
                Err(DeliveryErrorView::SendFailed(error)),
            )
            &&& rest.3 matches HelixStepView::Send(request) ==> next.2 == ClientStepView::Http(
                request,
            )
        }),
{
}

/// A refusal of the streaming connection that speaks of authentication has the
/// keeper asked for a token: a fresh one is used as it is and a stale one is
/// refreshed first. The connection is rebuilt with the token and the message is
/// said once more, and only once: if the second try succeeds the sending is done,
/// and if it is refused, whatever the refusal says, the REST side takes the
/// message.
pub proof fn auth_refusal_retries_once(
    client: ClientView,
    channel: Seq<char>,
    message: Seq<char>,
    username: Seq<char>,
    refusal: Seq<char>,
    answer: HttpOutcomeView,
    second_refusal: Seq<char>,
    now: u64,
)
    requires
        is_auth_failure(refusal),
    ensures
        ({
            let next = message_step(
                client,
                SendState::Saying,
                channel,
                message,
                username,
                ClientEventView::Stream(Err(refusal)),
                now,
            );
            let asked = token_step(client.oauth, now, EventView::Proceed);
            &&& next.0.oauth == asked.0
            &&& asked.1 matches TokenStepView::Ready(token) ==> next.1 == SendState::Rebuilding
                && next.2 == (ClientStepView::Rebuild { username, token })
            &&& asked.1 matches TokenStepView::Refresh(request) ==> next.1 == SendState::Refreshing
                && next.2 == ClientStepView::Http(request)
        }),
        ({
            let next = message_step(
                client,
                SendState::Refreshing,
                channel,
                message,
                username,
                ClientEventView::Http(answer),
                now,
            );
            let refreshed = token_step(client.oauth, now, EventView::Replied(answer));
            &&& next.0.oauth == refreshed.0
            &&& refreshed.1 matches TokenStepView::Ready(token) ==> next.1 == SendState::Rebuilding
                && next.2 == (ClientStepView::Rebuild { username, token })
        }),
        message_step(
            client,
            SendState::Rebuilding,
            channel,
            message,
            username,
            ClientEventView::Proceed,
            now,
        ) == (
            client,
            SendState::Retrying,
            ClientStepView::Say { channel: channel_name(channel), message },
        ),
        message_step(
            client,
            SendState::Retrying,
            channel,
            message,
            username,
            ClientEventView::Stream(Ok(())),
            now,
        ) == (client, SendState::Start, ClientStepView::Done(Ok::<(), DeliveryErrorView>(()))),
        message_step(
            client,
            SendState::Retrying,
            channel,
            message,
            username,
            ClientEventView::Stream(Err(second_refusal)),
            now,
        ) == rest_step(client, channel, message, CallPhase::Start, EventView::Proceed, now),
{
}

/// One report to the client: what is reported, and when.
pub struct Report {
    pub event: ClientEventView,
    pub at: u64,
}

/// The steps that the sending of a message asks for, report by report, until it
/// is done or the reports end.
pub open spec fn message_steps(
    client: ClientView,
    state: SendState,
    channel: Seq<char>,
    message: Seq<char>,
    username: Seq<char>,
    reports: Seq<Report>,
) -> Seq<ClientStepView>
    decreases reports.len(),
{
    if reports.len() == 0 {
        Seq::empty()
    } else {
        let next = message_step(
            client,
            state,
            channel,
            message,
            username,
            reports[0].event,
            reports[0].at,
        );
        if next.2 is Done {
            seq![next.2]
        } else {
            seq![next.2] + message_steps(
                next.0,
                next.1,
                channel,
                message,
                username,
                reports.drop_first(),
            )
        }
    }
}

/// How many of the steps say something on the streaming connection.
pub open spec fn count_says(steps: Seq<ClientStepView>) -> nat
    decreases steps.len(),
{
    if steps.len() == 0 {
        0
    } else if steps[0] is Say {
        1 + count_says(steps.drop_first())
    } else {
        count_says(steps.drop_first())
    }
}

/// How many of the steps rebuild the streaming connection.
pub open spec fn count_rebuilds(steps: Seq<ClientStepView>) -> nat
    decreases steps.len(),
{
    if steps.len() == 0 {
        0
    } else if steps[0] is Rebuild {
        1 + count_rebuilds(steps.drop_first())
    } else {
        count_rebuilds(steps.drop_first())
    }
}

/// How often a sending in `state` may still say its message.
pub open spec fn says_left(state: SendState) -> nat {
    match state {
        SendState::Start => 2,
        SendState::Saying => 1,
        SendState::Refreshing => 1,
        SendState::Rebuilding => 1,
        SendState::Retrying => 0,
        SendState::Rest(_) => 0,
    }
}

/// How often a sending in `state` may still rebuild the connection.
pub open spec fn rebuilds_left(state: SendState) -> nat {
    match state {
        SendState::Start => 1,
        SendState::Saying => 1,
        SendState::Refreshing => 1,
        SendState::Rebuilding => 0,
        SendState::Retrying => 0,
        SendState::Rest(_) => 0,
    }
}

/// Whatever is reported to it, and whenever, a sending says its message on the
/// streaming connection no more often than its state allows, and rebuilds the
/// connection no more often either. From the start that is twice and once: the
/// first try, and one second try over one new connection. Once the REST side has
/// the message it is neither: the streaming connection is not used again.
pub proof fn sending_retries_at_most_once(
    client: ClientView,
    state: SendState,
    channel: Seq<char>,
    message: Seq<char>,
    username: Seq<char>,
    reports: Seq<Report>,
)
    ensures
        count_says(message_steps(client, state, channel, message, username, reports)) <= says_left(
            state,
        ),
        count_rebuilds(message_steps(client, state, channel, message, username, reports))
            <= rebuilds_left(state),
    decreases reports.len(),
{
    if reports.len() > 0 {
        let next = message_step(
            client,
            state,
            channel,
            message,
            username,
            reports[0].event,
            reports[0].at,
        );
        let steps = message_steps(client, state, channel, message, username, reports);
        if next.2 is Done {
            assert(steps.drop_first() =~= Seq::<ClientStepView>::empty());
            assert(count_says(steps.drop_first()) == 0);
            assert(count_rebuilds(steps.drop_first()) == 0);
        } else {
            let rest = message_steps(
                next.0,
                next.1,
                channel,
                message,
                username,
                reports.drop_first(),
            );
            sending_retries_at_most_once(
                next.0,
                next.1,
                channel,
                message,
                username,
                reports.drop_first(),
            );
            assert(steps.drop_first() =~= rest);
            assert(steps[0] == next.2);
            assert((if next.2 is Say {
                1nat
            } else {
                0nat
            }) + says_left(next.1) <= says_left(state));
            assert((if next.2 is Rebuild {
                1nat
            } else {
                0nat
            }) + rebuilds_left(next.1) <= rebuilds_left(state));
        }
    }
}

/// The steps that a join asks for, report by report, until it is done or the
/// reports end.
pub open spec fn join_steps(
    client: ClientView,
    state: JoinState,
    channel: Seq<char>,
    username: Seq<char>,
    reports: Seq<Report>,
) -> Seq<ClientStepView>
    decreases reports.len(),
{
    if reports.len() == 0 {
        Seq::empty()
    } else {
        let next = join_step(client, state, channel, username, reports[0].event, reports[0].at);
        if next.2 is Done {
            seq![next.2]
        } else {
            seq![next.2] + join_steps(next.0, next.1, channel, username, reports.drop_first())
        }
    }
}

/// How many of the steps join a channel.
pub open spec fn count_joins(steps: Seq<ClientStepView>) -> nat
    decreases steps.len(),
{
    if steps.len() == 0 {
        0
    } else if steps[0] is Join {
        1 + count_joins(steps.drop_first())
    } else {
        count_joins(steps.drop_first())
    }
}

/// How often a join in `state` may still ask to join.
pub open spec fn joins_left(state: JoinState) -> nat {
    match state {
        JoinState::Start => 2,
        JoinState::Joining => 1,
        JoinState::Refreshing => 1,
        JoinState::Rebuilding => 1,
        JoinState::Retrying => 0,
    }
}

/// Whatever is reported to it, a join asks to join no more often than its state
/// allows: from the start twice, the first try and the one second try, and it
/// never hands anything to the REST side but the refresh of its token.
pub proof fn join_retries_at_most_once(
    client: ClientView,
    state: JoinState,
    channel: Seq<char>,
    username: Seq<char>,
    reports: Seq<Report>,
)
    ensures
        count_joins(join_steps(client, state, channel, username, reports)) <= joins_left(state),
        count_says(join_steps(client, state, channel, username, reports)) == 0,
    decreases reports.len(),
{
    if reports.len() > 0 {
        let next = join_step(client, state, channel, username, reports[0].event, reports[0].at);
        let steps = join_steps(client, state, channel, username, reports);
        if next.2 is Done {
            assert(steps.drop_first() =~= Seq::<ClientStepView>::empty());
            assert(count_says(steps.drop_first()) == 0);
            assert(count_joins(steps.drop_first()) == 0);
        } else {
            let rest = join_steps(next.0, next.1, channel, username, reports.drop_first());
            join_retries_at_most_once(next.0, next.1, channel, username, reports.drop_first());
            assert(steps.drop_first() =~= rest);
            assert(steps[0] == next.2);
            assert((if next.2 is Join {
                1nat
            } else {
                0nat
            }) + joins_left(next.1) <= joins_left(state));
            assert(!(next.2 is Say));
        }
    }
}

} // verus!
