//! The REST side of chat: who is who, and the sending of messages.
//!
//! The adapter remembers the numeric identifier of the bot and of every channel
//! it has looked up, and never forgets one. Every request it describes carries a
//! token from the credential's keeper, so each of its operations is a step
//! function over both.

use crate::http::{
    is_success, pair, status_is_success, Event, EventView, HttpMethod, HttpOutcome,
    HttpOutcomeView, HttpRequest, HttpRequestView,
};
use crate::json::{json_model, json_parse, Json};
use crate::twitch::oauth::{
    token_step, OAuthError, OAuthErrorView, OAuthManager, OAuthView, TokenStep, TokenStepView,
};
use vstd::hash_map::StringHashMap;
use vstd::prelude::*;

verus! {

/// Where a request that needs a token stands.
#[derive(Debug, Clone, Copy, PartialEq, Eq, Structural)]
pub enum CallPhase {
    /// Nothing has been sent.
    Start,
    /// The token is being refreshed.
    Refreshing,
    /// The request itself is on its way.
    Requesting,
}

/// Why the REST side could not do what was asked.
#[derive(Debug, PartialEq, Eq)]
pub enum HelixError {
    /// No token could be had.
    Auth(OAuthError),
    /// The lookup of a user was refused or unreadable; the text is what came back.
    LookupFailed(String),
    /// The lookup of the bot's own user gave no match.
    NoUserData,
    /// No user has this login.
    UnknownUser(String),
    /// The sending was refused or its answer unreadable; the text is what came back.
    SendFailed(String),
    /// The answer to a sending reports on no message.
    NoMessageData,
    /// The platform took the message and did not deliver it, for this reason.
    MessageDropped { code: String, message: String },
    /// The platform took the message and did not deliver it, and gave no reason.
    DroppedWithoutReason,
}

pub enum HelixErrorView {
    Auth(OAuthErrorView),
    LookupFailed(Seq<char>),
    NoUserData,
    UnknownUser(Seq<char>),
    SendFailed(Seq<char>),
    NoMessageData,
    MessageDropped { code: Seq<char>, message: Seq<char> },
    DroppedWithoutReason,
}

impl View for HelixError {
    type V = HelixErrorView;

    open spec fn view(&self) -> HelixErrorView {
        match self {
            HelixError::Auth(error) => HelixErrorView::Auth(error@),
            HelixError::LookupFailed(text) => HelixErrorView::LookupFailed(text@),
            HelixError::NoUserData => HelixErrorView::NoUserData,
            HelixError::UnknownUser(login) => HelixErrorView::UnknownUser(login@),
            HelixError::SendFailed(text) => HelixErrorView::SendFailed(text@),
            HelixError::NoMessageData => HelixErrorView::NoMessageData,
            HelixError::MessageDropped { code, message } => HelixErrorView::MessageDropped {
                code: code@,
                message: message@,
            },
            HelixError::DroppedWithoutReason => HelixErrorView::DroppedWithoutReason,
        }
    }
}

impl DeepView for HelixError {
    type V = HelixErrorView;

    open spec fn deep_view(&self) -> HelixErrorView {
        self.view()
    }
}

/// The sentence that reports an error.
pub open spec fn helix_error_message(error: HelixErrorView) -> Seq<char> {
    match error {
        HelixErrorView::Auth(inner) => crate::twitch::oauth::oauth_error_message(inner),
        HelixErrorView::LookupFailed(text) => "Failed to get user ID: "@ + text,
        HelixErrorView::NoUserData => "No user data returned"@,
        HelixErrorView::UnknownUser(login) => "No user data found for "@ + login,
        HelixErrorView::SendFailed(text) => "Failed to send message: "@ + text,
        HelixErrorView::NoMessageData => "No data returned from send message API"@,
        HelixErrorView::MessageDropped { code, message } => "Message not sent: "@ + code + " - "@
            + message,
        HelixErrorView::DroppedWithoutReason => "Message not sent for unknown reason"@,
    }
}

impl HelixError {
    /// The sentence that reports this error.
    pub fn message(&self) -> (r: String)
        ensures
            r@ == helix_error_message(self@),
    {
        match self {
            HelixError::Auth(inner) => inner.message(),
            HelixError::LookupFailed(text) => crate::text::concat(
                "Failed to get user ID: ",
                text.as_str(),
            ),
            HelixError::NoUserData => String::from_str("No user data returned"),
            HelixError::UnknownUser(login) => crate::text::concat(
                "No user data found for ",
                login.as_str(),
            ),
            HelixError::SendFailed(text) => crate::text::concat(
                "Failed to send message: ",
                text.as_str(),
            ),
            HelixError::NoMessageData => String::from_str("No data returned from send message API"),
            HelixError::MessageDropped { code, message } => {
                let mut out = crate::text::concat("Message not sent: ", code.as_str());
                out.append(" - ");
                out.append(message.as_str());
                out
            },
            HelixError::DroppedWithoutReason => String::from_str(
                "Message not sent for unknown reason",
            ),
        }
    }
}

/// What a step of the REST side asks of its caller.
#[derive(Debug)]
pub enum HelixStep {
    /// Send this request and come back with what it gave.
    Send(HttpRequest),
    /// The operation is over: an identifier, or why there is none.
    Done(Result<String, HelixError>),
}

pub enum HelixStepView {
    Send(HttpRequestView),
    Done(Result<Seq<char>, HelixErrorView>),
}

impl View for HelixStep {
    type V = HelixStepView;

    open spec fn view(&self) -> HelixStepView {
        match self {
            HelixStep::Send(request) => HelixStepView::Send(request@),
            HelixStep::Done(result) => HelixStepView::Done(crate::http::result_view(*result)),
        }
    }
}

/// What stands between a request and its sending: the token to send it with, a
/// refresh to make first, the answer that has come to the request, or the reason
/// why no token can be had.
#[derive(Debug)]
pub enum Access {
    Token(String),
    Refresh(HttpRequest),
    Answer(HttpOutcome),
    Failed(OAuthError),
}

pub enum AccessView {
    Token(Seq<char>),
    Refresh(HttpRequestView),
    Answer(HttpOutcomeView),
    Failed(OAuthErrorView),
}

impl View for Access {
    type V = AccessView;

    open spec fn view(&self) -> AccessView {
        match self {
            Access::Token(token) => AccessView::Token(token@),
            Access::Refresh(request) => AccessView::Refresh(request@),
            Access::Answer(outcome) => AccessView::Answer(outcome@),
            Access::Failed(error) => AccessView::Failed(error@),
        }
    }
}

/// Where a request in `phase` stands on `event`. An answer belongs to the request
/// when the request is on its way, and to the refresh when that is; anything else
/// begins the request anew by asking the keeper for a token.
pub open spec fn access_of(manager: OAuthView, phase: CallPhase, event: EventView, now: u64) -> (
    OAuthView,
    AccessView,
) {
    match (phase, event) {
        (CallPhase::Requesting, EventView::Replied(outcome)) => (manager, AccessView::Answer(outcome)),
        (CallPhase::Refreshing, EventView::Replied(outcome)) => access_of_token(
            token_step(manager, now, EventView::Replied(outcome)),
        ),
        _ => access_of_token(token_step(manager, now, EventView::Proceed)),
    }
}

/// What a step of the keeper means for the request that waits on it.
pub open spec fn access_of_token(step: (OAuthView, TokenStepView)) -> (OAuthView, AccessView) {
    match step.1 {
        TokenStepView::Ready(token) => (step.0, AccessView::Token(token)),
        TokenStepView::Refresh(request) => (step.0, AccessView::Refresh(request)),
        TokenStepView::Failed(error) => (step.0, AccessView::Failed(error)),
    }
}

/// Finds where a request stands: see `access_of`.
pub fn request_access(oauth: &mut OAuthManager, phase: CallPhase, event: Event, now: u64) -> (r: Access)
    ensures
        (final(oauth)@, r@) == access_of(old(oauth)@, phase, event@, now),
{
    let step = match event {
        Event::Replied(outcome) => match phase {
            CallPhase::Requesting => {
                return Access::Answer(outcome);
            },
            CallPhase::Refreshing => oauth.get_access_token(now, Event::Replied(outcome)),
            CallPhase::Start => oauth.get_access_token(now, Event::Proceed),
        },
        Event::Proceed => oauth.get_access_token(now, Event::Proceed),
    };
    match step {
        TokenStep::Ready(token) => Access::Token(token),
        TokenStep::Refresh(request) => Access::Refresh(request),
        TokenStep::Failed(error) => Access::Failed(error),
    }
}

/// The address that tells who a user is.
pub open spec fn users_endpoint() -> Seq<char> {
    "https://api.twitch.tv/helix/users"@
}

/// How long the REST side waits for an answer, in seconds.
pub const REST_TIMEOUT_SECS: u64 = 10;

/// The address that takes chat messages.
pub open spec fn messages_endpoint() -> Seq<char> {
    "https://api.twitch.tv/helix/chat/messages"@
}

/// The headers that authorize a request: the bearer token and the client id.
pub open spec fn bearer_headers(token: Seq<char>, client_id: Seq<char>) -> Seq<
    (Seq<char>, Seq<char>),
> {
    seq![("Authorization"@, "Bearer "@ + token), ("Client-Id"@, client_id)]
}

/// The request that asks who `login` is; without a login, who the token's owner is.
pub open spec fn users_request_of(
    token: Seq<char>,
    client_id: Seq<char>,
    login: Option<Seq<char>>,
) -> HttpRequestView {
    HttpRequestView {
        method: HttpMethod::Get,
        url: users_endpoint(),
        headers: bearer_headers(token, client_id),
        query: match login {
            Some(name) => seq![("login"@, name)],
            None => Seq::empty(),
        },
        form: Seq::empty(),
        json: None,
        timeout_secs: Some(REST_TIMEOUT_SECS),
    }
}

/// The body of a request to send a message: the channel's and the sender's
/// identifiers, the text, and the message that is replied to if there is one.
pub open spec fn message_document(
    broadcaster_id: Seq<char>,
    sender_id: Seq<char>,
    message: Seq<char>,
    reply_to: Option<Seq<char>>,
) -> Json {
    let members = Map::<Seq<char>, Json>::empty().insert(
        "broadcaster_id"@,
        Json::Text(broadcaster_id),
    ).insert("sender_id"@, Json::Text(sender_id)).insert("message"@, Json::Text(message));
    match reply_to {
        Some(parent) => Json::Object(members.insert("reply_parent_message_id"@, Json::Text(parent))),
        None => Json::Object(members),
    }
}

/// The request that sends a message.
pub open spec fn message_request_of(
    token: Seq<char>,
    client_id: Seq<char>,
    broadcaster_id: Seq<char>,
    sender_id: Seq<char>,
    message: Seq<char>,
    reply_to: Option<Seq<char>>,
) -> HttpRequestView {
    HttpRequestView {
        method: HttpMethod::Post,
        url: messages_endpoint(),
        headers: bearer_headers(token, client_id).push(("Content-Type"@, "application/json"@)),
        query: Seq::empty(),
        form: Seq::empty(),
        json: Some(message_document(broadcaster_id, sender_id, message, reply_to)),
        timeout_secs: Some(REST_TIMEOUT_SECS),
    }
}

/// What a users document says: the identifier of the first user it lists, that it
/// lists none, or nothing that can be read.
pub enum UserListing {
    Found(Seq<char>),
    Empty,
    Unreadable,
}

/// What the document says of the users it lists under `data`.
pub open spec fn user_listing_of(doc: Json) -> UserListing {
    match doc.member("data"@) {
        Some(Json::Array(users)) => if users.len() == 0 {
            UserListing::Empty
        } else {
            match users[0].text_at("id"@) {
                Some(id) => UserListing::Found(id),
                None => UserListing::Unreadable,
            }
        },
        _ => UserListing::Unreadable,
    }
}

/// What the answer to a users request means: the identifier of the first user, or
/// `None` where no user matched; as an error, the body of a refusal or of an
/// unreadable answer, or the reason where no answer came.
pub open spec fn lookup_result(outcome: HttpOutcomeView) -> Result<Option<Seq<char>>, Seq<char>> {
    match outcome {
        HttpOutcomeView::Reply { status, body } => if is_success(status) {
            match json_parse(body) {
                Some(doc) => match user_listing_of(doc) {
                    UserListing::Found(id) => Ok(Some(id)),
                    UserListing::Empty => Ok(None),
                    UserListing::Unreadable => Err(body),
                },
                None => Err(body),
            }
        } else {
            Err(body)
        },
        HttpOutcomeView::Failed { reason } => Err(reason),
    }
}

/// What the platform reports of one message: its identifier, whether it was
/// delivered, and the code and text of the reason if it was dropped with one.
pub struct Delivery {
    pub message_id: Seq<char>,
    pub is_sent: bool,
    pub drop_reason: Option<(Seq<char>, Seq<char>)>,
}

/// The report that one entry of the answer holds. A reason that is missing or null
/// is no reason; one that is there has to have its code and its text.
pub open spec fn delivery_of(entry: Json) -> Option<Delivery> {
    match (entry.text_at("message_id"@), entry.boolean_at("is_sent"@)) {
        (Some(message_id), Some(is_sent)) => match entry.member("drop_reason"@) {
            None => Some(Delivery { message_id, is_sent, drop_reason: None }),
            Some(Json::Null) => Some(Delivery { message_id, is_sent, drop_reason: None }),
            Some(reason) => match (reason.text_at("code"@), reason.text_at("message"@)) {
                (Some(code), Some(text)) => Some(
                    Delivery { message_id, is_sent, drop_reason: Some((code, text)) },
                ),
                _ => None,
            },
        },
        _ => None,
    }
}

/// What a report means for the sender: the message's identifier if it was
/// delivered, and the reason, or the lack of one, if it was dropped.
pub open spec fn delivery_result(report: Delivery) -> Result<Seq<char>, HelixErrorView> {
    if report.is_sent {
        Ok(report.message_id)
    } else {
        match report.drop_reason {
            Some((code, message)) => Err(HelixErrorView::MessageDropped { code, message }),
            None => Err(HelixErrorView::DroppedWithoutReason),
        }
    }
}

/// What the document that answers a sending means: the result of the first report
/// under `data`.
pub open spec fn sent_document_result(doc: Json, body: Seq<char>) -> Result<
    Seq<char>,
    HelixErrorView,
> {
    match doc.member("data"@) {
        Some(Json::Array(reports)) => if reports.len() == 0 {
            Err(HelixErrorView::NoMessageData)
        } else {
            match delivery_of(reports[0]) {
                Some(report) => delivery_result(report),
                None => Err(HelixErrorView::SendFailed(body)),
            }
        },
        _ => Err(HelixErrorView::SendFailed(body)),
    }
}

/// What the answer to a sending means. Success of the exchange is not yet success
/// of the message: the report inside decides.
pub open spec fn send_result(outcome: HttpOutcomeView) -> Result<Seq<char>, HelixErrorView> {
    match outcome {
        HttpOutcomeView::Reply { status, body } => if is_success(status) {
            match json_parse(body) {
                Some(doc) => sent_document_result(doc, body),
                None => Err(HelixErrorView::SendFailed(body)),
            }
        } else {
            Err(HelixErrorView::SendFailed(body))
        },
        HttpOutcomeView::Failed { reason } => Err(HelixErrorView::SendFailed(reason)),
    }
}

/// The adapter's memory: the bot's identifier and the channels' identifiers.
pub struct HelixChatClient {
    bot_user_id: Option<String>,
    channel_cache: StringHashMap<String>,
}

pub struct HelixView {
    pub bot_user_id: Option<Seq<char>>,
    pub channels: Map<Seq<char>, Seq<char>>,
}

impl View for HelixChatClient {
    type V = HelixView;

    closed spec fn view(&self) -> HelixView {
        HelixView {
            bot_user_id: self.bot_user_id.deep_view(),
            channels: Map::new(
                |login: Seq<char>| self.channel_cache@.contains_key(login),
                |login: Seq<char>| self.channel_cache@[login]@,
            ),
        }
    }
}

/// One step of finding the bot's own identifier. What is remembered is given at
/// once. Otherwise the users endpoint is asked with a token from the keeper, and
/// the identifier that it gives is remembered.
pub open spec fn bot_lookup_step(
    helix: HelixView,
    manager: OAuthView,
    phase: CallPhase,
    event: EventView,
    now: u64,
) -> (HelixView, OAuthView, CallPhase, HelixStepView) {
    match helix.bot_user_id {
        Some(id) => (helix, manager, CallPhase::Start, HelixStepView::Done(Ok(id))),
        None => {
            let (keeper, access) = access_of(manager, phase, event, now);
            match access {
                AccessView::Token(token) => (
                    helix,
                    keeper,
                    CallPhase::Requesting,
                    HelixStepView::Send(users_request_of(token, keeper.client_id, None)),
                ),
                AccessView::Refresh(request) => (
                    helix,
                    keeper,
                    CallPhase::Refreshing,
                    HelixStepView::Send(request),
                ),
                AccessView::Failed(error) => (
                    helix,
                    keeper,
                    CallPhase::Start,
                    HelixStepView::Done(Err(HelixErrorView::Auth(error))),
                ),
                AccessView::Answer(outcome) => match lookup_result(outcome) {
                    Ok(Some(id)) => (
                        HelixView { bot_user_id: Some(id), ..helix },
                        keeper,
                        CallPhase::Start,
                        HelixStepView::Done(Ok(id)),
                    ),
                    Ok(None) => (
                        helix,
                        keeper,
                        CallPhase::Start,
                        HelixStepView::Done(Err(HelixErrorView::NoUserData)),
                    ),
                    Err(text) => (
                        helix,
                        keeper,
                        CallPhase::Start,
                        HelixStepView::Done(Err(HelixErrorView::LookupFailed(text))),
                    ),
                },
            }
        },
    }
}

/// One step of finding the identifier of the user `login`. What is remembered is
/// given at once. Otherwise the users endpoint is asked with a token from the
/// keeper, and the identifier that it gives is remembered under the login.
pub open spec fn broadcaster_lookup_step(
    helix: HelixView,
    manager: OAuthView,
    login: Seq<char>,
    phase: CallPhase,
    event: EventView,
    now: u64,
) -> (HelixView, OAuthView, CallPhase, HelixStepView) {
    if helix.channels.contains_key(login) {
        (helix, manager, CallPhase::Start, HelixStepView::Done(Ok(helix.channels[login])))
    } else {
        let (keeper, access) = access_of(manager, phase, event, now);
        match access {
            AccessView::Token(token) => (
                helix,
                keeper,
                CallPhase::Requesting,
                HelixStepView::Send(users_request_of(token, keeper.client_id, Some(login))),
            ),
            AccessView::Refresh(request) => (
                helix,
                keeper,
                CallPhase::Refreshing,
                HelixStepView::Send(request),
            ),
            AccessView::Failed(error) => (
                helix,
                keeper,
                CallPhase::Start,
                HelixStepView::Done(Err(HelixErrorView::Auth(error))),
            ),
            AccessView::Answer(outcome) => match lookup_result(outcome) {
                Ok(Some(id)) => (
                    HelixView { channels: helix.channels.insert(login, id), ..helix },
                    keeper,
                    CallPhase::Start,
                    HelixStepView::Done(Ok(id)),
                ),
                Ok(None) => (
                    helix,
                    keeper,
                    CallPhase::Start,
                    HelixStepView::Done(Err(HelixErrorView::UnknownUser(login))),
                ),
                Err(text) => (
                    helix,
                    keeper,
                    CallPhase::Start,
                    HelixStepView::Done(Err(HelixErrorView::LookupFailed(text))),
                ),
            },
        }
    }
}

/// The last leg of a sending, for an adapter that knows the bot and the channel:
/// the message request with a token from the keeper, and the reading of its answer.
pub open spec fn post_step(
    helix: HelixView,
    manager: OAuthView,
    channel: Seq<char>,
    message: Seq<char>,
    reply_to: Option<Seq<char>>,
    phase: CallPhase,
    event: EventView,
    now: u64,
) -> (HelixView, OAuthView, CallPhase, HelixStepView) {
    let (keeper, access) = access_of(manager, phase, event, now);
    match access {
        AccessView::Token(token) => (
            helix,
            keeper,
            CallPhase::Requesting,
            HelixStepView::Send(
                message_request_of(
                    token,
                    keeper.client_id,
                    helix.channels[channel],
                    helix.bot_user_id->Some_0,
                    message,
                    reply_to,
                ),
            ),
        ),
        AccessView::Refresh(request) => (
            helix,
            keeper,
            CallPhase::Refreshing,
            HelixStepView::Send(request),
        ),
        AccessView::Failed(error) => (
            helix,
            keeper,
            CallPhase::Start,
            HelixStepView::Done(Err(HelixErrorView::Auth(error))),
        ),
        AccessView::Answer(outcome) => (
            helix,
            keeper,
            CallPhase::Start,
            HelixStepView::Done(send_result(outcome)),
        ),
    }
}

/// The second and last legs of a sending, for an adapter that knows the bot: the
/// channel is looked up unless it is remembered, and once it is known the message
/// is posted.
pub open spec fn channel_then_post_step(
    helix: HelixView,
    manager: OAuthView,
    channel: Seq<char>,
    message: Seq<char>,
    reply_to: Option<Seq<char>>,
    phase: CallPhase,
    event: EventView,
    now: u64,
) -> (HelixView, OAuthView, CallPhase, HelixStepView) {
    if helix.channels.contains_key(channel) {
        post_step(helix, manager, channel, message, reply_to, phase, event, now)
    } else {
        let looked = broadcaster_lookup_step(helix, manager, channel, phase, event, now);
        match looked.3 {
            HelixStepView::Done(Ok(_)) => post_step(
                looked.0,
                looked.1,
                channel,
                message,
                reply_to,
                CallPhase::Start,
                EventView::Proceed,
                now,
            ),
            _ => looked,
        }
    }
}

/// One step of sending `message` to `channel`. The adapter first makes sure of the
/// bot's identifier, then of the channel's, then posts the message; what it
/// remembers it does not ask again. Whatever fails ends the sending.
pub open spec fn send_step(
    helix: HelixView,
    manager: OAuthView,
    channel: Seq<char>,
    message: Seq<char>,
    reply_to: Option<Seq<char>>,
    phase: CallPhase,
    event: EventView,
    now: u64,
) -> (HelixView, OAuthView, CallPhase, HelixStepView) {
    if helix.bot_user_id is Some {
        channel_then_post_step(helix, manager, channel, message, reply_to, phase, event, now)
    } else {
        let looked = bot_lookup_step(helix, manager, phase, event, now);
        match looked.3 {
            HelixStepView::Done(Ok(_)) => channel_then_post_step(
                looked.0,
                looked.1,
                channel,
                message,
                reply_to,
                CallPhase::Start,
                EventView::Proceed,
                now,
            ),
            _ => looked,
        }
    }
}

/// What a users document says, as a value.
pub enum UserLookup {
    Found(String),
    Empty,
    Unreadable,
}

impl View for UserLookup {
    type V = UserListing;

    open spec fn view(&self) -> UserListing {
        match self {
            UserLookup::Found(id) => UserListing::Found(id@),
            UserLookup::Empty => UserListing::Empty,
            UserLookup::Unreadable => UserListing::Unreadable,
        }
    }
}

/// Reads a users document.
pub fn read_user_listing(doc: &serde_json::Value) -> (r: UserLookup)
    ensures
        r@ == user_listing_of(json_model(*doc)),
{
    match crate::json::member(doc, "data") {
        None => UserLookup::Unreadable,
        Some(data) => match crate::json::elements(data) {
            None => UserLookup::Unreadable,
            Some(users) => {
                if users.len() == 0 {
                    UserLookup::Empty
                } else {
                    assert(crate::json::json_models(users@)[0] == json_model(users@[0]));
                    match crate::json::text_member(&users[0], "id") {
                        Some(id) => UserLookup::Found(id),
                        None => UserLookup::Unreadable,
                    }
                }
            },
        },
    }
}

/// Reads the answer to a users request: see `lookup_result`.
pub fn read_lookup(outcome: HttpOutcome) -> (r: Result<Option<String>, String>)
    ensures
        crate::http::result_view(r) == lookup_result(outcome@),
{
    match outcome {
        HttpOutcome::Reply { status, body } => {
            if !status_is_success(status) {
                return Err(body);
            }
            match crate::json::parse(body.as_str()) {
                None => Err(body),
                Some(doc) => match read_user_listing(&doc) {
                    UserLookup::Found(id) => Ok(Some(id)),
                    UserLookup::Empty => Ok(None),
                    UserLookup::Unreadable => Err(body),
                },
            }
        },
        HttpOutcome::Failed { reason } => Err(reason),
    }
}

/// Reads the document that answers a sending: see `sent_document_result`. `body`
/// is the text that the document was read from.
pub fn read_sent_document(doc: &serde_json::Value, body: String) -> (r: Result<String, HelixError>)
    ensures
        crate::http::result_view(r) == sent_document_result(json_model(*doc), body@),
{
    let reports = match crate::json::member(doc, "data") {
        None => {
            return Err(HelixError::SendFailed(body));
        },
        Some(data) => match crate::json::elements(data) {
            None => {
                return Err(HelixError::SendFailed(body));
            },
            Some(reports) => reports,
        },
    };
    if reports.len() == 0 {
        return Err(HelixError::NoMessageData);
    }
    assert(crate::json::json_models(reports@)[0] == json_model(reports@[0]));
    let entry = &reports[0];
    let message_id = crate::json::text_member(entry, "message_id");
    let is_sent = crate::json::boolean_member(entry, "is_sent");
    let (message_id, is_sent) = match (message_id, is_sent) {
        (Some(message_id), Some(is_sent)) => (message_id, is_sent),
        _ => {
            return Err(HelixError::SendFailed(body));
        },
    };
    let reason = match crate::json::member(entry, "drop_reason") {
        None => None,
        Some(reason) => {
            if crate::json::is_null(reason) {
                None
            } else {
                let code = crate::json::text_member(reason, "code");
                let text = crate::json::text_member(reason, "message");
                match (code, text) {
                    (Some(code), Some(text)) => Some((code, text)),
                    _ => {
                        return Err(HelixError::SendFailed(body));
                    },
                }
            }
        },
    };
    if is_sent {
        Ok(message_id)
    } else {
        match reason {
            Some((code, message)) => Err(HelixError::MessageDropped { code, message }),
            None => Err(HelixError::DroppedWithoutReason),
        }
    }
}

/// Reads the answer to a sending: see `send_result`.
pub fn read_send(outcome: HttpOutcome) -> (r: Result<String, HelixError>)
    ensures
        crate::http::result_view(r) == send_result(outcome@),
{
    match outcome {
        HttpOutcome::Reply { status, body } => {
            if !status_is_success(status) {
                return Err(HelixError::SendFailed(body));
            }
            match crate::json::parse(body.as_str()) {
                None => Err(HelixError::SendFailed(body)),
                Some(doc) => read_sent_document(&doc, body),
            }
        },
        HttpOutcome::Failed { reason } => Err(HelixError::SendFailed(reason)),
    }
}

fn bearer(token: &str, client_id: &str) -> (r: Vec<(String, String)>)
    ensures
        r.deep_view() == bearer_headers(token@, client_id@),
{
    let value = crate::text::concat("Bearer ", token);
    let mut headers: Vec<(String, String)> = Vec::new();
    headers.push(pair("Authorization", value.as_str()));
    headers.push(pair("Client-Id", client_id));
    assert(headers.deep_view() =~= bearer_headers(token@, client_id@));
    headers
}

/// The request that asks who `login` is; without a login, who the token's owner is.
pub fn users_request(token: &str, client_id: &str, login: Option<&str>) -> (r: HttpRequest)
    ensures
        r@ == users_request_of(token@, client_id@, login.deep_view()),
{
    let mut query: Vec<(String, String)> = Vec::new();
    match login {
        Some(name) => {
            query.push(pair("login", name));
        },
        None => {},
    }
    let r = HttpRequest {
        method: HttpMethod::Get,
        url: String::from_str("https://api.twitch.tv/helix/users"),
        headers: bearer(token, client_id),
        query,
        form: Vec::new(),
        json: None,
        timeout_secs: Some(REST_TIMEOUT_SECS),
    };
    assert(r.query.deep_view() =~= users_request_of(token@, client_id@, login.deep_view()).query);
    assert(r.form.deep_view() =~= Seq::empty());
    r
}

/// The request that sends a message.
pub fn message_request(
    token: &str,
    client_id: &str,
    broadcaster_id: &str,
    sender_id: &str,
    message: &str,
    reply_to: Option<&str>,
) -> (r: HttpRequest)
    ensures
        r@ == message_request_of(
            token@,
            client_id@,
            broadcaster_id@,
            sender_id@,
            message@,
            reply_to.deep_view(),
        ),
{
    let mut doc = crate::json::object_value();
    crate::json::set_member(&mut doc, "broadcaster_id", crate::json::text_value(broadcaster_id));
    crate::json::set_member(&mut doc, "sender_id", crate::json::text_value(sender_id));
    crate::json::set_member(&mut doc, "message", crate::json::text_value(message));
    match reply_to {
        Some(parent) => {
            crate::json::set_member(
                &mut doc,
                "reply_parent_message_id",
                crate::json::text_value(parent),
            );
        },
        None => {},
    }
    let mut headers = bearer(token, client_id);
    headers.push(pair("Content-Type", "application/json"));
    let r = HttpRequest {
        method: HttpMethod::Post,
        url: String::from_str("https://api.twitch.tv/helix/chat/messages"),
        headers,
        query: Vec::new(),
        form: Vec::new(),
        json: Some(doc),
        timeout_secs: Some(REST_TIMEOUT_SECS),
    };
    assert(r.headers.deep_view() =~= bearer_headers(token@, client_id@).push(
        ("Content-Type"@, "application/json"@),
    ));
    assert(r.query.deep_view() =~= Seq::empty());
    assert(r.form.deep_view() =~= Seq::empty());
    r
}

impl HelixChatClient {
    /// An adapter that remembers nothing yet.
    pub fn new() -> (r: Self)
        ensures
            r@ == (HelixView { bot_user_id: None, channels: Map::empty() }),
    {
        let r = HelixChatClient { bot_user_id: None, channel_cache: StringHashMap::new() };
        assert(r@.channels =~= Map::empty());
        r
    }

    /// The bot's identifier, if it is remembered.
    pub fn cached_bot_user_id(&self) -> (r: Option<String>)
        ensures
            r.deep_view() == self@.bot_user_id,
    {
        match &self.bot_user_id {
            Some(id) => Some(id.clone()),
            None => None,
        }
    }

    /// The identifier of the user `login`, if it is remembered.
    pub fn cached_broadcaster_id(&self, login: &str) -> (r: Option<String>)
        ensures
            r.deep_view() == if self@.channels.contains_key(login@) {
                Some(self@.channels[login@])
            } else {
                None
            },
    {
        match self.channel_cache.get(login) {
            Some(id) => Some(id.clone()),
            None => None,
        }
    }

    /// One step of finding the bot's own identifier: see `bot_lookup_step`.
    pub fn get_bot_user_id(
        &mut self,
        oauth: &mut OAuthManager,
        phase: CallPhase,
        event: Event,
        now: u64,
    ) -> (r: (CallPhase, HelixStep))
        ensures
            (final(self)@, final(oauth)@, r.0, r.1@) == bot_lookup_step(
                old(self)@,
                old(oauth)@,
                phase,
                event@,
                now,
            ),
    {
        match &self.bot_user_id {
            Some(id) => {
                return (CallPhase::Start, HelixStep::Done(Ok(id.clone())));
            },
            None => {},
        }
        match request_access(oauth, phase, event, now) {
            Access::Token(token) => (
                CallPhase::Requesting,
                HelixStep::Send(users_request(token.as_str(), oauth.get_client_id(), None)),
            ),
            Access::Refresh(request) => (CallPhase::Refreshing, HelixStep::Send(request)),
            Access::Failed(error) => (CallPhase::Start, HelixStep::Done(Err(HelixError::Auth(error)))),
            Access::Answer(outcome) => match read_lookup(outcome) {
                Ok(Some(id)) => {
                    self.bot_user_id = Some(id.clone());
                    (CallPhase::Start, HelixStep::Done(Ok(id)))
                },
                Ok(None) => (CallPhase::Start, HelixStep::Done(Err(HelixError::NoUserData))),
                Err(text) => (CallPhase::Start, HelixStep::Done(Err(HelixError::LookupFailed(text)))),
            },
        }
    }

    /// One step of finding the identifier of the user `username`: see
    /// `broadcaster_lookup_step`.
    pub fn get_broadcaster_id(
        &mut self,
        oauth: &mut OAuthManager,
        username: &str,
        phase: CallPhase,
        event: Event,
        now: u64,
    ) -> (r: (CallPhase, HelixStep))
        ensures
            (final(self)@, final(oauth)@, r.0, r.1@) == broadcaster_lookup_step(
                old(self)@,
                old(oauth)@,
                username@,
                phase,
                event@,
                now,
            ),
    {
        match self.channel_cache.get(username) {
            Some(id) => {
                return (CallPhase::Start, HelixStep::Done(Ok(id.clone())));
            },
            None => {},
        }
        match request_access(oauth, phase, event, now) {
            Access::Token(token) => (
                CallPhase::Requesting,
                HelixStep::Send(
                    users_request(token.as_str(), oauth.get_client_id(), Some(username)),
                ),
            ),
            Access::Refresh(request) => (CallPhase::Refreshing, HelixStep::Send(request)),
            Access::Failed(error) => (CallPhase::Start, HelixStep::Done(Err(HelixError::Auth(error)))),
            Access::Answer(outcome) => match read_lookup(outcome) {
                Ok(Some(id)) => {
                    self.channel_cache.insert(String::from_str(username), id.clone());
                    assert(self@.channels =~= old(self)@.channels.insert(username@, id@));
                    (CallPhase::Start, HelixStep::Done(Ok(id)))
                },
                Ok(None) => (
                    CallPhase::Start,
                    HelixStep::Done(Err(HelixError::UnknownUser(String::from_str(username)))),
                ),
                Err(text) => (CallPhase::Start, HelixStep::Done(Err(HelixError::LookupFailed(text)))),
            },
        }
    }

    /// The last leg of a sending: see `post_step`.
    fn post(
        &mut self,
        oauth: &mut OAuthManager,
        channel: &str,
        message: &str,
        reply_to: Option<&str>,
        phase: CallPhase,
        event: Event,
        now: u64,
    ) -> (r: (CallPhase, HelixStep))
        requires
            old(self)@.bot_user_id is Some,
            old(self)@.channels.contains_key(channel@),
        ensures
            (final(self)@, final(oauth)@, r.0, r.1@) == post_step(
                old(self)@,
                old(oauth)@,
                channel@,
                message@,
                reply_to.deep_view(),
                phase,
                event@,
                now,
            ),
    {
        match request_access(oauth, phase, event, now) {
            Access::Token(token) => {
                let sender = match &self.bot_user_id {
                    Some(id) => id.clone(),
                    None => String::new(),
                };
                let broadcaster = match self.channel_cache.get(channel) {
                    Some(id) => id.clone(),
                    None => String::new(),
                };
                (
                    CallPhase::Requesting,
                    HelixStep::Send(
                        message_request(
                            token.as_str(),
                            oauth.get_client_id(),
                            broadcaster.as_str(),
                            sender.as_str(),
                            message,
                            reply_to,
                        ),
                    ),
                )
            },
            Access::Refresh(request) => (CallPhase::Refreshing, HelixStep::Send(request)),
            Access::Failed(error) => (CallPhase::Start, HelixStep::Done(Err(HelixError::Auth(error)))),
            Access::Answer(outcome) => (CallPhase::Start, HelixStep::Done(read_send(outcome))),
        }
    }

    /// One step of sending `message` to `channel`, as a reply to `reply_to` if that
    /// is given: see `send_step`. The result of a sending that is done is the new
    /// message's identifier.
    pub fn send_chat_message(
        &mut self,
        oauth: &mut OAuthManager,
        channel: &str,
        message: &str,
        reply_to: Option<&str>,
        phase: CallPhase,
        event: Event,
        now: u64,
    ) -> (r: (CallPhase, HelixStep))
        ensures
            (final(self)@, final(oauth)@, r.0, r.1@) == send_step(
                old(self)@,
                old(oauth)@,
                channel@,
                message@,
                reply_to.deep_view(),
                phase,
                event@,
                now,
            ),
    {
        let mut phase = phase;
        let mut event = event;
        if self.bot_user_id.is_none() {
            let looked = self.get_bot_user_id(oauth, phase, event, now);
            match looked.1 {
                HelixStep::Done(Ok(_)) => {
                    phase = CallPhase::Start;
                    event = Event::Proceed;
                },
                other => {
                    return (looked.0, other);
                },
            }
        }
        if !self.channel_cache.contains_key(channel) {
            let looked = self.get_broadcaster_id(oauth, channel, phase, event, now);
            match looked.1 {
                HelixStep::Done(Ok(_)) => {
                    phase = CallPhase::Start;
                    event = Event::Proceed;
                },
                other => {
                    return (looked.0, other);
                },
            }
        }
        self.post(oauth, channel, message, reply_to, phase, event, now)
    }

    /// One step of sending `message` to `channel` as a reply to the message
    /// `reply_to`: a sending with a parent.
    pub fn send_reply(
        &mut self,
        oauth: &mut OAuthManager,
        channel: &str,
        message: &str,
        reply_to: &str,
        phase: CallPhase,
        event: Event,
        now: u64,
    ) -> (r: (CallPhase, HelixStep))
        ensures
            (final(self)@, final(oauth)@, r.0, r.1@) == send_step(
                old(self)@,
                old(oauth)@,
                channel@,
                message@,
                Some(reply_to@),
                phase,
                event@,
                now,
            ),
    {
        self.send_chat_message(oauth, channel, message, Some(reply_to), phase, event, now)
    }
}

/// `after` remembers everything that `before` does, with the same identifiers.
pub open spec fn remembers(before: HelixView, after: HelixView) -> bool {
    &&& before.bot_user_id is Some ==> after.bot_user_id == before.bot_user_id
    &&& forall|login: Seq<char>| #[trigger]
        before.channels.contains_key(login) ==> after.channels.contains_key(login)
            && after.channels[login] == before.channels[login]
}

/// The adapter's memory only grows: whatever step is taken, and whatever it is
/// told, every identifier that was remembered before is remembered after, and is
/// the same.
pub proof fn identifiers_are_never_forgotten(
    helix: HelixView,
    manager: OAuthView,
    channel: Seq<char>,
    message: Seq<char>,
    reply_to: Option<Seq<char>>,
    phase: CallPhase,
    event: EventView,
    now: u64,
)
    ensures
        remembers(helix, bot_lookup_step(helix, manager, phase, event, now).0),
        remembers(helix, broadcaster_lookup_step(helix, manager, channel, phase, event, now).0),
        remembers(
            helix,
            send_step(helix, manager, channel, message, reply_to, phase, event, now).0,
        ),
{
    let bot = bot_lookup_step(helix, manager, phase, event, now);
    let after_bot = channel_then_post_step(
        bot.0,
        bot.1,
        channel,
        message,
        reply_to,
        CallPhase::Start,
        EventView::Proceed,
        now,
    );
    assert(remembers(bot.0, after_bot.0));
    let straight = channel_then_post_step(
        helix,
        manager,
        channel,
        message,
        reply_to,
        phase,
        event,
        now,
    );
    assert(remembers(helix, straight.0));
}

/// An identifier is looked up once: after a lookup has given the identifier of a
/// login, every later lookup of that login gives the same identifier at once,
/// asks for nothing, and leaves the adapter and the keeper as they are.
pub proof fn resolved_identifier_is_served_from_memory(
    helix: HelixView,
    manager: OAuthView,
    login: Seq<char>,
    phase: CallPhase,
    event: EventView,
    now: u64,
    later_manager: OAuthView,
    later_phase: CallPhase,
    later_event: EventView,
    later: u64,
)
    ensures
        broadcaster_lookup_step(helix, manager, login, phase, event, now).3
            matches HelixStepView::Done(Ok(id)) ==> broadcaster_lookup_step(
            broadcaster_lookup_step(helix, manager, login, phase, event, now).0,
            later_manager,
            login,
            later_phase,
            later_event,
            later,
        ) == (
            broadcaster_lookup_step(helix, manager, login, phase, event, now).0,
            later_manager,
            CallPhase::Start,
            HelixStepView::Done(Ok::<Seq<char>, HelixErrorView>(id)),
        ),
        bot_lookup_step(helix, manager, phase, event, now).3 matches HelixStepView::Done(Ok(id))
            ==> bot_lookup_step(
            bot_lookup_step(helix, manager, phase, event, now).0,
            later_manager,
            later_phase,
            later_event,
            later,
        ) == (
            bot_lookup_step(helix, manager, phase, event, now).0,
            later_manager,
            CallPhase::Start,
            HelixStepView::Done(Ok::<Seq<char>, HelixErrorView>(id)),
        ),
{
}

} // verus!
