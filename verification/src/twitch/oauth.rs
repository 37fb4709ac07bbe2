//! The credential and its life: the device-code flow that obtains it, the refresh
//! that keeps it valid, and the stored form that lets it outlive the process.
//!
//! Nothing here waits or sends. Each operation that needs the identity service is
//! a step function: it is told what happened last, and answers with what to do
//! next. Time is a count of seconds on a clock of the caller's choosing that never
//! runs backwards.

use crate::http::{
    is_success, pair, status_is_success, Event, EventView, HttpMethod, HttpOutcome,
    HttpOutcomeView, HttpRequest, HttpRequestView,
};
use crate::json::{json_model, json_parse, json_pretty, Json, JsonNumber};
use crate::text::{contains_text, join_text};
use vstd::prelude::*;

verus! {

/// A token is refreshed once it is this close to its expiry, in seconds.
pub const REFRESH_MARGIN_SECS: u64 = 600;

/// What the identity service answers to a request for a device code.
#[derive(Debug, PartialEq, Eq)]
pub struct DeviceCodeResponse {
    /// The code to present in token requests.
    pub device_code: String,
    /// Seconds until the device code expires.
    pub expires_in: u64,
    /// Seconds to wait between two token requests.
    pub interval: u64,
    /// The code that the user types in.
    pub user_code: String,
    /// The address that the user visits.
    pub verification_uri: String,
}

pub struct DeviceCodeView {
    pub device_code: Seq<char>,
    pub expires_in: u64,
    pub interval: u64,
    pub user_code: Seq<char>,
    pub verification_uri: Seq<char>,
}

impl View for DeviceCodeResponse {
    type V = DeviceCodeView;

    open spec fn view(&self) -> DeviceCodeView {
        DeviceCodeView {
            device_code: self.device_code@,
            expires_in: self.expires_in,
            interval: self.interval,
            user_code: self.user_code@,
            verification_uri: self.verification_uri@,
        }
    }
}

impl DeepView for DeviceCodeResponse {
    type V = DeviceCodeView;

    open spec fn deep_view(&self) -> DeviceCodeView {
        self.view()
    }
}

impl Clone for DeviceCodeResponse {
    fn clone(&self) -> (r: Self)
        ensures
            r@ == self@,
    {
        DeviceCodeResponse {
            device_code: self.device_code.clone(),
            expires_in: self.expires_in,
            interval: self.interval,
            user_code: self.user_code.clone(),
            verification_uri: self.verification_uri.clone(),
        }
    }
}

/// The device code that a document describes: an object with the five members of
/// the service's answer, each of its own kind.
pub open spec fn device_code_of(doc: Json) -> Option<DeviceCodeView> {
    match (
        doc.text_at("device_code"@),
        doc.unsigned_at("expires_in"@),
        doc.unsigned_at("interval"@),
        doc.text_at("user_code"@),
        doc.text_at("verification_uri"@),
    ) {
        (
            Some(device_code),
            Some(expires_in),
            Some(interval),
            Some(user_code),
            Some(verification_uri),
        ) => Some(DeviceCodeView { device_code, expires_in, interval, user_code, verification_uri }),
        _ => None,
    }
}

/// The device code that a text describes, where the text is a JSON document that
/// does so.
pub open spec fn device_code_in(body: Seq<char>) -> Option<DeviceCodeView> {
    match json_parse(body) {
        Some(doc) => device_code_of(doc),
        None => None,
    }
}

impl DeviceCodeResponse {
    /// Reads a device code out of a document.
    pub fn from_document(doc: &serde_json::Value) -> (r: Option<DeviceCodeResponse>)
        ensures
            r.deep_view() == device_code_of(json_model(*doc)),
    {
        let device_code = crate::json::text_member(doc, "device_code");
        let expires_in = crate::json::unsigned_member(doc, "expires_in");
        let interval = crate::json::unsigned_member(doc, "interval");
        let user_code = crate::json::text_member(doc, "user_code");
        let verification_uri = crate::json::text_member(doc, "verification_uri");
        match (device_code, expires_in, interval, user_code, verification_uri) {
            (
                Some(device_code),
                Some(expires_in),
                Some(interval),
                Some(user_code),
                Some(verification_uri),
            ) => Some(
                DeviceCodeResponse { device_code, expires_in, interval, user_code, verification_uri },
            ),
            _ => None,
        }
    }

    /// Reads a device code out of the text of a JSON document.
    pub fn from_json(body: &str) -> (r: Option<DeviceCodeResponse>)
        ensures
            r.deep_view() == device_code_in(body@),
    {
        match crate::json::parse(body) {
            Some(doc) => DeviceCodeResponse::from_document(&doc),
            None => None,
        }
    }
}

/// A token as the identity service grants it.
#[derive(Debug, PartialEq, Eq)]
pub struct TokenResponse {
    /// The bearer token for requests.
    pub access_token: String,
    /// Seconds from the grant until the token expires.
    pub expires_in: u64,
    /// The token that buys a new access token.
    pub refresh_token: String,
    /// The scopes that were granted.
    pub scope: Vec<String>,
    /// The kind of token, as a rule "bearer".
    pub token_type: String,
}

pub struct TokenView {
    pub access_token: Seq<char>,
    pub expires_in: u64,
    pub refresh_token: Seq<char>,
    pub scope: Seq<Seq<char>>,
    pub token_type: Seq<char>,
}

impl View for TokenResponse {
    type V = TokenView;

    open spec fn view(&self) -> TokenView {
        TokenView {
            access_token: self.access_token@,
            expires_in: self.expires_in,
            refresh_token: self.refresh_token@,
            scope: self.scope.deep_view(),
            token_type: self.token_type@,
        }
    }
}

impl DeepView for TokenResponse {
    type V = TokenView;

    open spec fn deep_view(&self) -> TokenView {
        self.view()
    }
}

impl Clone for TokenResponse {
    fn clone(&self) -> (r: Self)
        ensures
            r@ == self@,
    {
        let scope = self.scope.clone();
        assert(scope.deep_view() =~= self.scope.deep_view());
        TokenResponse {
            access_token: self.access_token.clone(),
            expires_in: self.expires_in,
            refresh_token: self.refresh_token.clone(),
            scope,
            token_type: self.token_type.clone(),
        }
    }
}

/// The token that a document describes: an object with the five members of the
/// stored and of the granted form, each of its own kind.
pub open spec fn token_of(doc: Json) -> Option<TokenView> {
    match (
        doc.text_at("access_token"@),
        doc.unsigned_at("expires_in"@),
        doc.text_at("refresh_token"@),
        doc.texts_at("scope"@),
        doc.text_at("token_type"@),
    ) {
        (Some(access_token), Some(expires_in), Some(refresh_token), Some(scope), Some(token_type)) => {
            Some(TokenView { access_token, expires_in, refresh_token, scope, token_type })
        },
        _ => None,
    }
}

/// The token that a text describes, where the text is a JSON document that does so.
pub open spec fn token_in(body: Seq<char>) -> Option<TokenView> {
    match json_parse(body) {
        Some(doc) => token_of(doc),
        None => None,
    }
}

/// The document that holds a token: an object with exactly its five members.
pub open spec fn token_document(token: TokenView) -> Json {
    Json::Object(
        Map::<Seq<char>, Json>::empty().insert("access_token"@, Json::Text(token.access_token)).insert(
            "expires_in"@,
            Json::Number(JsonNumber::Unsigned(token.expires_in)),
        ).insert("refresh_token"@, Json::Text(token.refresh_token)).insert(
            "scope"@,
            crate::json::text_array(token.scope),
        ).insert("token_type"@, Json::Text(token.token_type)),
    )
}

proof fn lemma_token_keys_differ()
    ensures
        "access_token"@ != "expires_in"@,
        "access_token"@ != "refresh_token"@,
        "access_token"@ != "scope"@,
        "access_token"@ != "token_type"@,
        "expires_in"@ != "refresh_token"@,
        "expires_in"@ != "scope"@,
        "expires_in"@ != "token_type"@,
        "refresh_token"@ != "scope"@,
        "refresh_token"@ != "token_type"@,
        "scope"@ != "token_type"@,
{
    reveal_strlit("access_token");
    reveal_strlit("expires_in");
    reveal_strlit("refresh_token");
    reveal_strlit("scope");
    reveal_strlit("token_type");
    assert("access_token"@[0] == 'a');
    assert("expires_in"@[0] == 'e');
    assert("refresh_token"@[0] == 'r');
    assert("scope"@[0] == 's');
    assert("token_type"@[0] == 't');
}

/// Storing and loading lose nothing of a token: the document that holds a token
/// reads back as that token, with the same access token, refresh token, scopes,
/// lifetime and kind.
pub proof fn token_document_round_trip(token: TokenView)
    ensures
        token_of(token_document(token)) == Some(token),
{
    lemma_token_keys_differ();
    let doc = token_document(token);
    let array = crate::json::text_array(token.scope);
    assert(array.texts() == Some(token.scope)) by {
        assert(array.texts()->Some_0 =~= token.scope);
    }
    assert(doc.member("scope"@) == Some(array));
    assert(doc.texts_at("scope"@) == Some(token.scope));
}

impl TokenResponse {
    /// Reads a token out of a document.
    pub fn from_document(doc: &serde_json::Value) -> (r: Option<TokenResponse>)
        ensures
            r.deep_view() == token_of(json_model(*doc)),
    {
        let access_token = crate::json::text_member(doc, "access_token");
        let expires_in = crate::json::unsigned_member(doc, "expires_in");
        let refresh_token = crate::json::text_member(doc, "refresh_token");
        let scope = crate::json::texts_member(doc, "scope");
        let token_type = crate::json::text_member(doc, "token_type");
        match (access_token, expires_in, refresh_token, scope, token_type) {
            (
                Some(access_token),
                Some(expires_in),
                Some(refresh_token),
                Some(scope),
                Some(token_type),
            ) => Some(TokenResponse { access_token, expires_in, refresh_token, scope, token_type }),
            _ => None,
        }
    }

    /// Reads a token out of the text of a JSON document.
    pub fn from_json(body: &str) -> (r: Option<TokenResponse>)
        ensures
            r.deep_view() == token_in(body@),
    {
        match crate::json::parse(body) {
            Some(doc) => TokenResponse::from_document(&doc),
            None => None,
        }
    }

    /// The document that holds this token.
    pub fn to_document(&self) -> (doc: serde_json::Value)
        ensures
            json_model(doc) == token_document(self@),
    {
        let mut doc = crate::json::object_value();
        crate::json::set_member(
            &mut doc,
            "access_token",
            crate::json::text_value(self.access_token.as_str()),
        );
        crate::json::set_member(&mut doc, "expires_in", crate::json::unsigned_value(self.expires_in));
        crate::json::set_member(
            &mut doc,
            "refresh_token",
            crate::json::text_value(self.refresh_token.as_str()),
        );
        crate::json::set_member(&mut doc, "scope", crate::json::texts_value(&self.scope));
        crate::json::set_member(
            &mut doc,
            "token_type",
            crate::json::text_value(self.token_type.as_str()),
        );
        doc
    }

    /// The indented JSON text of this token, or `None` where the document cannot
    /// be printed.
    pub fn to_json(&self) -> (r: Option<String>)
        ensures
            r.deep_view() == json_pretty(token_document(self@)),
    {
        let doc = self.to_document();
        crate::json::pretty(&doc)
    }
}

/// The error body that the identity service sends with a refusal.
#[derive(Debug, PartialEq, Eq)]
pub struct ErrorResponse {
    /// The HTTP status, repeated in the body.
    pub status: u16,
    /// What went wrong, in words.
    pub message: String,
}

pub struct ErrorResponseView {
    pub status: u16,
    pub message: Seq<char>,
}

impl View for ErrorResponse {
    type V = ErrorResponseView;

    open spec fn view(&self) -> ErrorResponseView {
        ErrorResponseView { status: self.status, message: self.message@ }
    }
}

impl DeepView for ErrorResponse {
    type V = ErrorResponseView;

    open spec fn deep_view(&self) -> ErrorResponseView {
        self.view()
    }
}

/// The error that a document describes: an object with a status that fits
/// sixteen bits and a message.
pub open spec fn error_response_of(doc: Json) -> Option<ErrorResponseView> {
    match (doc.unsigned_at("status"@), doc.text_at("message"@)) {
        (Some(status), Some(message)) => if status <= u16::MAX {
            Some(ErrorResponseView { status: status as u16, message })
        } else {
            None
        },
        _ => None,
    }
}

/// The error that a text describes, where the text is a JSON document that does so.
pub open spec fn error_response_in(body: Seq<char>) -> Option<ErrorResponseView> {
    match json_parse(body) {
        Some(doc) => error_response_of(doc),
        None => None,
    }
}

impl ErrorResponse {
    /// Reads an error out of a document.
    pub fn from_document(doc: &serde_json::Value) -> (r: Option<ErrorResponse>)
        ensures
            r.deep_view() == error_response_of(json_model(*doc)),
    {
        let status = crate::json::unsigned_member(doc, "status");
        let message = crate::json::text_member(doc, "message");
        match (status, message) {
            (Some(status), Some(message)) => {
                if status <= 65535 {
                    Some(ErrorResponse { status: status as u16, message })
                } else {
                    None
                }
            },
            _ => None,
        }
    }

    /// Reads an error out of the text of a JSON document.
    pub fn from_json(body: &str) -> (r: Option<ErrorResponse>)
        ensures
            r.deep_view() == error_response_in(body@),
    {
        match crate::json::parse(body) {
            Some(doc) => ErrorResponse::from_document(&doc),
            None => None,
        }
    }
}

/// Why an operation on the credential did not succeed.
#[derive(Debug, PartialEq, Eq)]
pub enum OAuthError {
    /// No credential is held: the device-code flow has to run first.
    Unauthenticated,
    /// The device-code flow ended in a refusal; the text is what came back.
    AuthFlowFailed(String),
    /// The device code expired before the user approved it.
    AuthFlowTimedOut,
    /// The refresh did not yield a token; the text is what came back.
    RefreshFailed(String),
    /// The stored token is not a token document.
    CorruptToken,
    /// There is no token to store.
    NothingToSave,
    /// The token document could not be printed.
    Unprintable,
}

pub enum OAuthErrorView {
    Unauthenticated,
    AuthFlowFailed(Seq<char>),
    AuthFlowTimedOut,
    RefreshFailed(Seq<char>),
    CorruptToken,
    NothingToSave,
    Unprintable,
}

impl View for OAuthError {
    type V = OAuthErrorView;

    open spec fn view(&self) -> OAuthErrorView {
        match self {
            OAuthError::Unauthenticated => OAuthErrorView::Unauthenticated,
            OAuthError::AuthFlowFailed(text) => OAuthErrorView::AuthFlowFailed(text@),
            OAuthError::AuthFlowTimedOut => OAuthErrorView::AuthFlowTimedOut,
            OAuthError::RefreshFailed(text) => OAuthErrorView::RefreshFailed(text@),
            OAuthError::CorruptToken => OAuthErrorView::CorruptToken,
            OAuthError::NothingToSave => OAuthErrorView::NothingToSave,
            OAuthError::Unprintable => OAuthErrorView::Unprintable,
        }
    }
}

impl DeepView for OAuthError {
    type V = OAuthErrorView;

    open spec fn deep_view(&self) -> OAuthErrorView {
        self.view()
    }
}

impl Clone for OAuthError {
    fn clone(&self) -> (r: Self)
        ensures
            r@ == self@,
    {
        match self {
            OAuthError::Unauthenticated => OAuthError::Unauthenticated,
            OAuthError::AuthFlowFailed(text) => OAuthError::AuthFlowFailed(text.clone()),
            OAuthError::AuthFlowTimedOut => OAuthError::AuthFlowTimedOut,
            OAuthError::RefreshFailed(text) => OAuthError::RefreshFailed(text.clone()),
            OAuthError::CorruptToken => OAuthError::CorruptToken,
            OAuthError::NothingToSave => OAuthError::NothingToSave,
            OAuthError::Unprintable => OAuthError::Unprintable,
        }
    }
}

/// The sentence that reports an error.
pub open spec fn oauth_error_message(error: OAuthErrorView) -> Seq<char> {
    match error {
        OAuthErrorView::Unauthenticated => "Not authenticated"@,
        OAuthErrorView::AuthFlowFailed(text) => "Device code flow failed: "@ + text,
        OAuthErrorView::AuthFlowTimedOut => "Device code flow timed out"@,
        OAuthErrorView::RefreshFailed(text) => "Failed to refresh token: "@ + text,
        OAuthErrorView::CorruptToken => "Stored token is not readable"@,
        OAuthErrorView::NothingToSave => "No token to save"@,
        OAuthErrorView::Unprintable => "Token could not be written as JSON"@,
    }
}

impl OAuthError {
    /// The sentence that reports this error.
    pub fn message(&self) -> (r: String)
        ensures
            r@ == oauth_error_message(self@),
    {
        match self {
            OAuthError::Unauthenticated => String::from_str("Not authenticated"),
            OAuthError::AuthFlowFailed(text) => crate::text::concat(
                "Device code flow failed: ",
                text.as_str(),
            ),
            OAuthError::AuthFlowTimedOut => String::from_str("Device code flow timed out"),
            OAuthError::RefreshFailed(text) => crate::text::concat(
                "Failed to refresh token: ",
                text.as_str(),
            ),
            OAuthError::CorruptToken => String::from_str("Stored token is not readable"),
            OAuthError::NothingToSave => String::from_str("No token to save"),
            OAuthError::Unprintable => String::from_str("Token could not be written as JSON"),
        }
    }
}

/// A token together with the time at which it was obtained.
#[derive(Debug, PartialEq, Eq)]
pub struct Credential {
    pub token: TokenResponse,
    pub obtained_at: u64,
}

pub struct CredentialView {
    pub token: TokenView,
    pub obtained_at: u64,
}

impl View for Credential {
    type V = CredentialView;

    open spec fn view(&self) -> CredentialView {
        CredentialView { token: self.token@, obtained_at: self.obtained_at }
    }
}

impl DeepView for Credential {
    type V = CredentialView;

    open spec fn deep_view(&self) -> CredentialView {
        self.view()
    }
}

/// Seconds from `since` to `now`; none where the clock reads earlier than `since`.
pub open spec fn elapsed_since(since: u64, now: u64) -> int {
    if now >= since {
        now - since
    } else {
        0
    }
}

/// A credential is fresh while its age is more than the refresh margin short of
/// the token's lifetime.
pub open spec fn is_fresh(credential: CredentialView, now: u64) -> bool {
    elapsed_since(credential.obtained_at, now) + REFRESH_MARGIN_SECS < credential.token.expires_in
}

/// Seconds from `since` to `now`; none where the clock reads earlier than `since`.
pub fn elapsed(since: u64, now: u64) -> (r: u64)
    ensures
        r == elapsed_since(since, now),
{
    if now >= since {
        now - since
    } else {
        0
    }
}

impl Credential {
    /// Whether the token is still more than the refresh margin away from expiry.
    pub fn is_fresh(&self, now: u64) -> (r: bool)
        ensures
            r == is_fresh(self@, now),
    {
        let age = elapsed(self.obtained_at, now);
        self.token.expires_in >= REFRESH_MARGIN_SECS && age < self.token.expires_in
            - REFRESH_MARGIN_SECS
    }
}

/// What `get_access_token` asks of its caller.
#[derive(Debug)]
pub enum TokenStep {
    /// The bearer token; the operation is over.
    Ready(String),
    /// Send this refresh request and come back with what it gave.
    Refresh(HttpRequest),
    /// No token can be had; the operation is over.
    Failed(OAuthError),
}

pub enum TokenStepView {
    Ready(Seq<char>),
    Refresh(HttpRequestView),
    Failed(OAuthErrorView),
}

impl View for TokenStep {
    type V = TokenStepView;

    open spec fn view(&self) -> TokenStepView {
        match self {
            TokenStep::Ready(token) => TokenStepView::Ready(token@),
            TokenStep::Refresh(request) => TokenStepView::Refresh(request@),
            TokenStep::Failed(error) => TokenStepView::Failed(error@),
        }
    }
}

/// What `poll_for_token` asks of its caller.
#[derive(Debug)]
pub enum PollStep {
    /// Send this token request and come back with what it gave.
    Send(HttpRequest),
    /// Pause for this many seconds and come back.
    Wait(u64),
    /// The credential is held; the operation is over.
    Authenticated,
    /// The flow ended without a credential; the operation is over.
    Failed(OAuthError),
}

pub enum PollStepView {
    Send(HttpRequestView),
    Wait(u64),
    Authenticated,
    Failed(OAuthErrorView),
}

impl View for PollStep {
    type V = PollStepView;

    open spec fn view(&self) -> PollStepView {
        match self {
            PollStep::Send(request) => PollStepView::Send(request@),
            PollStep::Wait(seconds) => PollStepView::Wait(*seconds),
            PollStep::Authenticated => PollStepView::Authenticated,
            PollStep::Failed(error) => PollStepView::Failed(error@),
        }
    }
}

/// Where a device-code flow stands.
#[derive(Debug, PartialEq, Eq)]
pub enum AuthFlow {
    /// Nothing has been asked yet.
    Idle,
    /// The request for a device code is on its way.
    CodeRequested,
    /// The user has been shown the code; the token endpoint is being asked.
    Polling { device_code: DeviceCodeResponse, started_at: u64 },
    /// The credential is held.
    Authenticated,
    /// The device code expired first.
    TimedOut,
    /// The flow was refused; the text is what came back.
    Failed(String),
}

pub enum AuthFlowView {
    Idle,
    CodeRequested,
    Polling { device_code: DeviceCodeView, started_at: u64 },
    Authenticated,
    TimedOut,
    Failed(Seq<char>),
}

impl View for AuthFlow {
    type V = AuthFlowView;

    open spec fn view(&self) -> AuthFlowView {
        match self {
            AuthFlow::Idle => AuthFlowView::Idle,
            AuthFlow::CodeRequested => AuthFlowView::CodeRequested,
            AuthFlow::Polling { device_code, started_at } => AuthFlowView::Polling {
                device_code: device_code@,
                started_at: *started_at,
            },
            AuthFlow::Authenticated => AuthFlowView::Authenticated,
            AuthFlow::TimedOut => AuthFlowView::TimedOut,
            AuthFlow::Failed(text) => AuthFlowView::Failed(text@),
        }
    }
}

/// What `authenticate` asks of its caller.
#[derive(Debug)]
pub enum AuthStep {
    /// Send this request and come back with what it gave.
    Send(HttpRequest),
    /// Show the user where to go and what to type, and come back.
    Display { verification_uri: String, user_code: String },
    /// Pause for this many seconds and come back.
    Wait(u64),
    /// The flow is over, with this result.
    Done(Result<(), OAuthError>),
}

pub enum AuthStepView {
    Send(HttpRequestView),
    Display { verification_uri: Seq<char>, user_code: Seq<char> },
    Wait(u64),
    Done(Result<(), OAuthErrorView>),
}

impl View for AuthStep {
    type V = AuthStepView;

    open spec fn view(&self) -> AuthStepView {
        match self {
            AuthStep::Send(request) => AuthStepView::Send(request@),
            AuthStep::Display { verification_uri, user_code } => AuthStepView::Display {
                verification_uri: verification_uri@,
                user_code: user_code@,
            },
            AuthStep::Wait(seconds) => AuthStepView::Wait(*seconds),
            AuthStep::Done(result) => AuthStepView::Done(crate::http::result_view(*result)),
        }
    }
}

/// The credential's keeper: the application's identity and the credential, if one
/// is held.
pub struct OAuthManager {
    client_id: String,
    scopes: Vec<String>,
    credential: Option<Credential>,
}

pub struct OAuthView {
    pub client_id: Seq<char>,
    pub scopes: Seq<Seq<char>>,
    pub credential: Option<CredentialView>,
}

impl OAuthView {
    /// The same keeper holding `token`, obtained at `now`.
    pub open spec fn holding(self, token: TokenView, now: u64) -> OAuthView {
        OAuthView { credential: Some(CredentialView { token, obtained_at: now }), ..self }
    }

    /// The same keeper without a credential.
    pub open spec fn emptied(self) -> OAuthView {
        OAuthView { credential: None, ..self }
    }
}

impl View for OAuthManager {
    type V = OAuthView;

    closed spec fn view(&self) -> OAuthView {
        OAuthView {
            client_id: self.client_id@,
            scopes: self.scopes.deep_view(),
            credential: self.credential.deep_view(),
        }
    }
}

/// The address that grants device codes.
pub open spec fn device_endpoint() -> Seq<char> {
    "https://id.twitch.tv/oauth2/device"@
}

/// The address that grants and refreshes tokens.
pub open spec fn token_endpoint() -> Seq<char> {
    "https://id.twitch.tv/oauth2/token"@
}

/// A POST of form parts to `url`, with nothing else set and no limit on the wait.
pub open spec fn form_post(url: Seq<char>, form: Seq<(Seq<char>, Seq<char>)>) -> HttpRequestView {
    HttpRequestView {
        method: HttpMethod::Post,
        url,
        headers: Seq::empty(),
        query: Seq::empty(),
        form,
        json: None,
        timeout_secs: None,
    }
}

/// The request for a device code: the client id and the scopes, joined by spaces.
pub open spec fn device_code_request_of(manager: OAuthView) -> HttpRequestView {
    form_post(
        device_endpoint(),
        seq![
            ("client_id"@, manager.client_id),
            ("scopes"@, join_text(manager.scopes, " "@)),
        ],
    )
}

/// The request that asks whether the user has approved a device code.
pub open spec fn token_request_of(manager: OAuthView, device_code: DeviceCodeView) -> HttpRequestView {
    form_post(
        token_endpoint(),
        seq![
            ("client_id"@, manager.client_id),
            ("scopes"@, join_text(manager.scopes, " "@)),
            ("device_code"@, device_code.device_code),
            ("grant_type"@, "urn:ietf:params:oauth:grant-type:device_code"@),
        ],
    )
}

/// The request that trades a refresh token for a new access token.
pub open spec fn refresh_request_of(client_id: Seq<char>, refresh_token: Seq<char>) -> HttpRequestView {
    form_post(
        token_endpoint(),
        seq![
            ("client_id"@, client_id),
            ("refresh_token"@, refresh_token),
            ("grant_type"@, "refresh_token"@),
        ],
    )
}

/// What the answer to a device-code request means: the device code on success;
/// on a refusal the message of its error body, or the whole body where that is
/// no error body; the reason where no answer came.
pub open spec fn device_code_result(outcome: HttpOutcomeView) -> Result<
    DeviceCodeView,
    OAuthErrorView,
> {
    match outcome {
        HttpOutcomeView::Reply { status, body } => if is_success(status) {
            match device_code_in(body) {
                Some(device_code) => Ok(device_code),
                None => Err(OAuthErrorView::AuthFlowFailed(body)),
            }
        } else {
            match error_response_in(body) {
                Some(error) => Err(OAuthErrorView::AuthFlowFailed(error.message)),
                None => Err(OAuthErrorView::AuthFlowFailed(body)),
            }
        },
        HttpOutcomeView::Failed { reason } => Err(OAuthErrorView::AuthFlowFailed(reason)),
    }
}

/// What the answer to a refresh request means: the new token on success, and
/// otherwise a failure that carries the body, or the reason where no answer came.
pub open spec fn refresh_result(outcome: HttpOutcomeView) -> Result<TokenView, OAuthErrorView> {
    match outcome {
        HttpOutcomeView::Reply { status, body } => if is_success(status) {
            match token_in(body) {
                Some(token) => Ok(token),
                None => Err(OAuthErrorView::RefreshFailed(body)),
            }
        } else {
            Err(OAuthErrorView::RefreshFailed(body))
        },
        HttpOutcomeView::Failed { reason } => Err(OAuthErrorView::RefreshFailed(reason)),
    }
}

/// One step of `get_access_token`. Without a credential there is nothing to give.
/// With one, a caller that proceeds gets the token if it is fresh and a refresh
/// request if it is not; a caller that brings the answer to a refresh gets the new
/// token, which replaces the old one, or the failure, which leaves no credential.
pub open spec fn token_step(manager: OAuthView, now: u64, event: EventView) -> (
    OAuthView,
    TokenStepView,
) {
    match manager.credential {
        None => (manager, TokenStepView::Failed(OAuthErrorView::Unauthenticated)),
        Some(credential) => match event {
            EventView::Proceed => if is_fresh(credential, now) {
                (manager, TokenStepView::Ready(credential.token.access_token))
            } else {
                (
                    manager,
                    TokenStepView::Refresh(
                        refresh_request_of(manager.client_id, credential.token.refresh_token),
                    ),
                )
            },
            EventView::Replied(outcome) => match refresh_result(outcome) {
                Ok(token) => (manager.holding(token, now), TokenStepView::Ready(token.access_token)),
                Err(error) => (manager.emptied(), TokenStepView::Failed(error)),
            },
        },
    }
}

/// One step of `poll_for_token`. A caller that proceeds is told to ask the token
/// endpoint while the device code is valid, and is failed once it is not. An
/// answer that grants a token ends the flow with the credential held; a refusal
/// that says the authorization is pending asks for a pause of the interval that the
/// service set; any other answer, and no answer, fails the flow.
pub open spec fn poll_step(
    manager: OAuthView,
    device_code: DeviceCodeView,
    started_at: u64,
    now: u64,
    event: EventView,
) -> (OAuthView, PollStepView) {
    match event {
        EventView::Proceed => if elapsed_since(started_at, now) < device_code.expires_in {
            (manager, PollStepView::Send(token_request_of(manager, device_code)))
        } else {
            (manager, PollStepView::Failed(OAuthErrorView::AuthFlowTimedOut))
        },
        EventView::Replied(HttpOutcomeView::Reply { status, body }) => if is_success(status) {
            match token_in(body) {
                Some(token) => (manager.holding(token, now), PollStepView::Authenticated),
                None => (manager, PollStepView::Failed(OAuthErrorView::AuthFlowFailed(body))),
            }
        } else if contains_text(body, "authorization_pending"@) {
            (manager, PollStepView::Wait(device_code.interval))
        } else {
            (manager, PollStepView::Failed(OAuthErrorView::AuthFlowFailed(body)))
        },
        EventView::Replied(HttpOutcomeView::Failed { reason }) => (
            manager,
            PollStepView::Failed(OAuthErrorView::AuthFlowFailed(reason)),
        ),
    }
}

/// What is said of an event that the flow's state has no use for.
pub open spec fn out_of_step() -> Seq<char> {
    "event out of step with the flow"@
}

/// The state in which a failed flow rests.
pub open spec fn flow_after_failure(error: OAuthErrorView) -> AuthFlowView {
    match error {
        OAuthErrorView::AuthFlowTimedOut => AuthFlowView::TimedOut,
        OAuthErrorView::AuthFlowFailed(text) => AuthFlowView::Failed(text),
        other => AuthFlowView::Failed(oauth_error_message(other)),
    }
}

/// One step of `authenticate`: the device-code flow from its first request to the
/// credential. An idle flow asks for a device code. The answer to that either
/// fails the flow or has the code shown to the user, and polling begins at that
/// moment. While polling, the flow does what `poll_step` says. A flow that has
/// ended repeats its result whatever it is told.
pub open spec fn auth_step(manager: OAuthView, flow: AuthFlowView, event: EventView, now: u64) -> (
    OAuthView,
    AuthFlowView,
    AuthStepView,
) {
    match flow {
        AuthFlowView::Idle => match event {
            EventView::Proceed => (
                manager,
                AuthFlowView::CodeRequested,
                AuthStepView::Send(device_code_request_of(manager)),
            ),
            EventView::Replied(_) => (
                manager,
                AuthFlowView::Failed(out_of_step()),
                AuthStepView::Done(Err(OAuthErrorView::AuthFlowFailed(out_of_step()))),
            ),
        },
        AuthFlowView::CodeRequested => match event {
            EventView::Replied(outcome) => match device_code_result(outcome) {
                Ok(device_code) => (
                    manager,
                    AuthFlowView::Polling { device_code, started_at: now },
                    AuthStepView::Display {
                        verification_uri: device_code.verification_uri,
                        user_code: device_code.user_code,
                    },
                ),
                Err(error) => (manager, flow_after_failure(error), AuthStepView::Done(Err(error))),
            },
            EventView::Proceed => (
                manager,
                AuthFlowView::Failed(out_of_step()),
                AuthStepView::Done(Err(OAuthErrorView::AuthFlowFailed(out_of_step()))),
            ),
        },
        AuthFlowView::Polling { device_code, started_at } => {
            let (after, step) = poll_step(manager, device_code, started_at, now, event);
            match step {
                PollStepView::Send(request) => (after, flow, AuthStepView::Send(request)),
                PollStepView::Wait(seconds) => (after, flow, AuthStepView::Wait(seconds)),
                PollStepView::Authenticated => (
                    after,
                    AuthFlowView::Authenticated,
                    AuthStepView::Done(Ok(())),
                ),
                PollStepView::Failed(error) => (
                    after,
                    flow_after_failure(error),
                    AuthStepView::Done(Err(error)),
                ),
            }
        },
        AuthFlowView::Authenticated => (manager, flow, AuthStepView::Done(Ok(()))),
        AuthFlowView::TimedOut => (
            manager,
            flow,
            AuthStepView::Done(Err(OAuthErrorView::AuthFlowTimedOut)),
        ),
        AuthFlowView::Failed(text) => (
            manager,
            flow,
            AuthStepView::Done(Err(OAuthErrorView::AuthFlowFailed(text))),
        ),
    }
}

/// What loading a stored token does: nothing where there is no stored text, the
/// token held from `now` on where the text is a token document, and a refusal that
/// changes nothing where it is not.
pub open spec fn load_result(manager: OAuthView, contents: Option<Seq<char>>, now: u64) -> (
    OAuthView,
    Result<(), OAuthErrorView>,
) {
    match contents {
        None => (manager, Ok(())),
        Some(text) => match token_in(text) {
            Some(token) => (manager.holding(token, now), Ok(())),
            None => (manager, Err(OAuthErrorView::CorruptToken)),
        },
    }
}

/// The text to store for the credential that is held.
pub open spec fn save_result(manager: OAuthView) -> Result<Seq<char>, OAuthErrorView> {
    match manager.credential {
        None => Err(OAuthErrorView::NothingToSave),
        Some(credential) => match json_pretty(token_document(credential.token)) {
            Some(text) => Ok(text),
            None => Err(OAuthErrorView::Unprintable),
        },
    }
}

fn form_request(url: &str, form: Vec<(String, String)>) -> (r: HttpRequest)
    ensures
        r@ == form_post(url@, form.deep_view()),
{
    let r = HttpRequest {
        method: HttpMethod::Post,
        url: String::from_str(url),
        headers: Vec::new(),
        query: Vec::new(),
        form,
        json: None,
        timeout_secs: None,
    };
    assert(r.headers.deep_view() =~= Seq::empty());
    assert(r.query.deep_view() =~= Seq::empty());
    r
}

impl OAuthManager {
    /// A keeper for the application `client_id` that will ask for `scopes`. It
    /// holds no credential.
    pub fn new(client_id: String, scopes: Vec<String>) -> (r: Self)
        ensures
            r@ == (OAuthView {
                client_id: client_id@,
                scopes: scopes.deep_view(),
                credential: None,
            }),
    {
        OAuthManager { client_id, scopes, credential: None }
    }

    /// The application's client id.
    pub fn get_client_id(&self) -> (r: &str)
        ensures
            r@ == self@.client_id,
    {
        self.client_id.as_str()
    }

    /// Whether a credential is held. It may have expired.
    pub fn is_authenticated(&self) -> (r: bool)
        ensures
            r == self@.credential is Some,
    {
        self.credential.is_some()
    }

    /// A copy of the token that is held.
    pub fn get_token(&self) -> (r: Option<TokenResponse>)
        ensures
            r.deep_view() == match self@.credential {
                Some(credential) => Some(credential.token),
                None => None,
            },
    {
        match &self.credential {
            Some(credential) => Some(credential.token.clone()),
            None => None,
        }
    }

    /// The time at which the token that is held was obtained.
    pub fn obtained_at(&self) -> (r: Option<u64>)
        ensures
            r == match self@.credential {
                Some(credential) => Some(credential.obtained_at),
                None => None,
            },
    {
        match &self.credential {
            Some(credential) => Some(credential.obtained_at),
            None => None,
        }
    }

    /// The text to store so that the credential can be loaded again.
    pub fn save_token(&self) -> (r: Result<String, OAuthError>)
        ensures
            crate::http::result_view(r) == save_result(self@),
    {
        match &self.credential {
            None => Err(OAuthError::NothingToSave),
            Some(credential) => match credential.token.to_json() {
                Some(text) => Ok(text),
                None => Err(OAuthError::Unprintable),
            },
        }
    }

    /// Takes the credential from stored text; `None` stands for a store that does
    /// not exist, which is no error.
    pub fn load_token(&mut self, contents: Option<&str>, now: u64) -> (r: Result<(), OAuthError>)
        ensures
            (final(self)@, crate::http::result_view(r)) == load_result(
                old(self)@,
                contents.deep_view(),
                now,
            ),
    {
        match contents {
            None => Ok(()),
            Some(text) => match TokenResponse::from_json(text) {
                Some(token) => {
                    self.credential = Some(Credential { token, obtained_at: now });
                    Ok(())
                },
                None => Err(OAuthError::CorruptToken),
            },
        }
    }

    /// The request that opens the device-code flow.
    pub fn device_code_request(&self) -> (r: HttpRequest)
        ensures
            r@ == device_code_request_of(self@),
    {
        let scopes = crate::text::join(&self.scopes, " ");
        let mut form: Vec<(String, String)> = Vec::new();
        form.push(pair("client_id", self.client_id.as_str()));
        form.push(pair("scopes", scopes.as_str()));
        assert(form.deep_view() =~= device_code_request_of(self@).form);
        form_request("https://id.twitch.tv/oauth2/device", form)
    }

    /// Reads the answer to the request that opens the device-code flow.
    pub fn start_device_code_flow(&self, outcome: HttpOutcome) -> (r: Result<
        DeviceCodeResponse,
        OAuthError,
    >)
        ensures
            crate::http::result_view(r) == device_code_result(outcome@),
    {
        match outcome {
            HttpOutcome::Reply { status, body } => {
                if status_is_success(status) {
                    match DeviceCodeResponse::from_json(body.as_str()) {
                        Some(device_code) => Ok(device_code),
                        None => Err(OAuthError::AuthFlowFailed(body)),
                    }
                } else {
                    match ErrorResponse::from_json(body.as_str()) {
                        Some(error) => Err(OAuthError::AuthFlowFailed(error.message)),
                        None => Err(OAuthError::AuthFlowFailed(body)),
                    }
                }
            },
            HttpOutcome::Failed { reason } => Err(OAuthError::AuthFlowFailed(reason)),
        }
    }

    /// The request that asks whether the user has approved `device_code`.
    pub fn token_request(&self, device_code: &DeviceCodeResponse) -> (r: HttpRequest)
        ensures
            r@ == token_request_of(self@, device_code@),
    {
        let scopes = crate::text::join(&self.scopes, " ");
        let mut form: Vec<(String, String)> = Vec::new();
        form.push(pair("client_id", self.client_id.as_str()));
        form.push(pair("scopes", scopes.as_str()));
        form.push(pair("device_code", device_code.device_code.as_str()));
        form.push(pair("grant_type", "urn:ietf:params:oauth:grant-type:device_code"));
        assert(form.deep_view() =~= token_request_of(self@, device_code@).form);
        form_request("https://id.twitch.tv/oauth2/token", form)
    }

    /// One step of the wait for the user's approval: see `poll_step`. `started_at`
    /// is the time at which polling began.
    pub fn poll_for_token(
        &mut self,
        device_code: &DeviceCodeResponse,
        started_at: u64,
        now: u64,
        event: Event,
    ) -> (r: PollStep)
        ensures
            (final(self)@, r@) == poll_step(old(self)@, device_code@, started_at, now, event@),
    {
        match event {
            Event::Proceed => {
                if elapsed(started_at, now) < device_code.expires_in {
                    PollStep::Send(self.token_request(device_code))
                } else {
                    PollStep::Failed(OAuthError::AuthFlowTimedOut)
                }
            },
            Event::Replied(HttpOutcome::Reply { status, body }) => {
                if status_is_success(status) {
                    match TokenResponse::from_json(body.as_str()) {
                        Some(token) => {
                            self.credential = Some(Credential { token, obtained_at: now });
                            PollStep::Authenticated
                        },
                        None => PollStep::Failed(OAuthError::AuthFlowFailed(body)),
                    }
                } else if crate::text::contains(body.as_str(), "authorization_pending") {
                    PollStep::Wait(device_code.interval)
                } else {
                    PollStep::Failed(OAuthError::AuthFlowFailed(body))
                }
            },
            Event::Replied(HttpOutcome::Failed { reason }) => PollStep::Failed(
                OAuthError::AuthFlowFailed(reason),
            ),
        }
    }

    /// The request that refreshes the token that is held, if one is.
    pub fn refresh_request(&self) -> (r: Option<HttpRequest>)
        ensures
            r.deep_view() == match self@.credential {
                Some(credential) => Some(
                    refresh_request_of(self@.client_id, credential.token.refresh_token),
                ),
                None => None,
            },
    {
        match &self.credential {
            None => None,
            Some(credential) => {
                let mut form: Vec<(String, String)> = Vec::new();
                form.push(pair("client_id", self.client_id.as_str()));
                form.push(pair("refresh_token", credential.token.refresh_token.as_str()));
                form.push(pair("grant_type", "refresh_token"));
                assert(form.deep_view() =~= refresh_request_of(
                    self@.client_id,
                    credential@.token.refresh_token,
                ).form);
                Some(form_request("https://id.twitch.tv/oauth2/token", form))
            },
        }
    }

    /// Takes the answer to a refresh request: the new token replaces the old one,
    /// and a failure leaves no credential.
    pub fn refresh_token(&mut self, outcome: HttpOutcome, now: u64) -> (r: Result<(), OAuthError>)
        ensures
            match refresh_result(outcome@) {
                Ok(token) => r is Ok && final(self)@ == old(self)@.holding(token, now),
                Err(error) => crate::http::result_view(r) == Err::<(), OAuthErrorView>(error)
                    && final(self)@ == old(self)@.emptied(),
            },
    {
        let reading = match outcome {
            HttpOutcome::Reply { status, body } => {
                if status_is_success(status) {
                    match TokenResponse::from_json(body.as_str()) {
                        Some(token) => Ok(token),
                        None => Err(OAuthError::RefreshFailed(body)),
                    }
                } else {
                    Err(OAuthError::RefreshFailed(body))
                }
            },
            HttpOutcome::Failed { reason } => Err(OAuthError::RefreshFailed(reason)),
        };
        match reading {
            Ok(token) => {
                self.credential = Some(Credential { token, obtained_at: now });
                Ok(())
            },
            Err(error) => {
                self.credential = None;
                Err(error)
            },
        }
    }

    /// One step towards a token that is valid for a while yet: see `token_step`.
    pub fn get_access_token(&mut self, now: u64, event: Event) -> (r: TokenStep)
        ensures
            (final(self)@, r@) == token_step(old(self)@, now, event@),
    {
        let fresh = match &self.credential {
            None => {
                return TokenStep::Failed(OAuthError::Unauthenticated);
            },
            Some(credential) => credential.is_fresh(now),
        };
        match event {
            Event::Proceed => {
                if fresh {
                    match &self.credential {
                        Some(credential) => TokenStep::Ready(credential.token.access_token.clone()),
                        None => TokenStep::Failed(OAuthError::Unauthenticated),
                    }
                } else {
                    match self.refresh_request() {
                        Some(request) => TokenStep::Refresh(request),
                        None => TokenStep::Failed(OAuthError::Unauthenticated),
                    }
                }
            },
            Event::Replied(outcome) => {
                match self.refresh_token(outcome, now) {
                    Ok(()) => match &self.credential {
                        Some(credential) => TokenStep::Ready(credential.token.access_token.clone()),
                        None => TokenStep::Failed(OAuthError::Unauthenticated),
                    },
                    Err(error) => TokenStep::Failed(error),
                }
            },
        }
    }

    /// One step of the device-code flow: see `auth_step`.
    pub fn authenticate(&mut self, flow: AuthFlow, event: Event, now: u64) -> (r: (
        AuthFlow,
        AuthStep,
    ))
        ensures
            (final(self)@, r.0@, r.1@) == auth_step(old(self)@, flow@, event@, now),
    {
        match flow {
            AuthFlow::Idle => match event {
                Event::Proceed => (AuthFlow::CodeRequested, AuthStep::Send(self.device_code_request())),
                Event::Replied(_) => out_of_step_end(),
            },
            AuthFlow::CodeRequested => match event {
                Event::Replied(outcome) => match self.start_device_code_flow(outcome) {
                    Ok(device_code) => {
                        let verification_uri = device_code.verification_uri.clone();
                        let user_code = device_code.user_code.clone();
                        (
                            AuthFlow::Polling { device_code, started_at: now },
                            AuthStep::Display { verification_uri, user_code },
                        )
                    },
                    Err(error) => failed_end(error),
                },
                Event::Proceed => out_of_step_end(),
            },
            AuthFlow::Polling { device_code, started_at } => {
                match self.poll_for_token(&device_code, started_at, now, event) {
                    PollStep::Send(request) => (
                        AuthFlow::Polling { device_code, started_at },
                        AuthStep::Send(request),
                    ),
                    PollStep::Wait(seconds) => (
                        AuthFlow::Polling { device_code, started_at },
                        AuthStep::Wait(seconds),
                    ),
                    PollStep::Authenticated => (AuthFlow::Authenticated, AuthStep::Done(Ok(()))),
                    PollStep::Failed(error) => failed_end(error),
                }
            },
            AuthFlow::Authenticated => (AuthFlow::Authenticated, AuthStep::Done(Ok(()))),
            AuthFlow::TimedOut => (
                AuthFlow::TimedOut,
                AuthStep::Done(Err(OAuthError::AuthFlowTimedOut)),
            ),
            AuthFlow::Failed(text) => {
                let copy = text.clone();
                (AuthFlow::Failed(text), AuthStep::Done(Err(OAuthError::AuthFlowFailed(copy))))
            },
        }
    }
}

fn out_of_step_end() -> (r: (AuthFlow, AuthStep))
    ensures
        r.0@ == AuthFlowView::Failed(out_of_step()),
        r.1@ == AuthStepView::Done(Err(OAuthErrorView::AuthFlowFailed(out_of_step()))),
{
    (
        AuthFlow::Failed(String::from_str("event out of step with the flow")),
        AuthStep::Done(
            Err(OAuthError::AuthFlowFailed(String::from_str("event out of step with the flow"))),
        ),
    )
}

fn failed_end(error: OAuthError) -> (r: (AuthFlow, AuthStep))
    ensures
        r.0@ == flow_after_failure(error@),
        r.1@ == AuthStepView::Done(Err(error@)),
{
    let flow = match &error {
        OAuthError::AuthFlowTimedOut => AuthFlow::TimedOut,
        OAuthError::AuthFlowFailed(text) => AuthFlow::Failed(text.clone()),
        other => AuthFlow::Failed(other.message()),
    };
    (flow, AuthStep::Done(Err(error)))
}

/// A whole call for a token, told in one piece: what it returns, how it leaves the
/// keeper, and how many refresh requests it sent. `answer` is what the identity
/// service answers if it is asked to refresh.
pub struct TokenCall {
    pub manager: OAuthView,
    pub result: Result<Seq<char>, OAuthErrorView>,
    pub refreshes: nat,
}

/// The call that begins at `now`: the first step, and the step that takes the
/// answer if the first one asked for a refresh.
pub open spec fn token_call(manager: OAuthView, now: u64, answer: HttpOutcomeView) -> TokenCall {
    let (first, step) = token_step(manager, now, EventView::Proceed);
    match step {
        TokenStepView::Ready(token) => TokenCall { manager: first, result: Ok(token), refreshes: 0 },
        TokenStepView::Failed(error) => TokenCall {
            manager: first,
            result: Err(error),
            refreshes: 0,
        },
        TokenStepView::Refresh(_) => {
            let (second, answered) = token_step(first, now, EventView::Replied(answer));
            match answered {
                TokenStepView::Ready(token) => TokenCall {
                    manager: second,
                    result: Ok(token),
                    refreshes: 1,
                },
                TokenStepView::Failed(error) => TokenCall {
                    manager: second,
                    result: Err(error),
                    refreshes: 1,
                },
                TokenStepView::Refresh(_) => TokenCall {
                    manager: second,
                    result: Err(OAuthErrorView::Unauthenticated),
                    refreshes: 2,
                },
            }
        },
    }
}

/// A call never hands out a token that expires within the refresh margin: the
/// token it returns is the one that the keeper then holds, and that one is valid
/// for the margin at least, counted from the moment of the call. A token that is
/// closer to its expiry is refreshed first. The one thing the keeper cannot mend
/// is a service that grants a token shorter-lived than the margin, which is left
/// out here.
pub proof fn returned_token_outlasts_margin(manager: OAuthView, now: u64, answer: HttpOutcomeView)
    requires
        refresh_result(answer) matches Ok(granted) ==> granted.expires_in >= REFRESH_MARGIN_SECS,
    ensures
        token_call(manager, now, answer).result matches Ok(token) ==> {
            &&& token_call(manager, now, answer).manager.credential matches Some(held)
            &&& held.token.access_token == token
            &&& held.obtained_at + held.token.expires_in >= now + REFRESH_MARGIN_SECS
        },
        token_call(manager, now, answer).refreshes == 0 ==> token_call(
            manager,
            now,
            answer,
        ).manager == manager,
{
}

/// Of two calls in a row, at most one refreshes: if the token that the first call
/// leaves behind is still fresh when the second call comes, the second call sends
/// nothing and returns that token.
pub proof fn second_call_sends_no_refresh(
    manager: OAuthView,
    first_at: u64,
    first_answer: HttpOutcomeView,
    second_at: u64,
    second_answer: HttpOutcomeView,
)
    requires
        token_call(manager, first_at, first_answer).manager.credential matches Some(held)
            && is_fresh(held, second_at),
    ensures
        ({
            let first = token_call(manager, first_at, first_answer);
            let second = token_call(first.manager, second_at, second_answer);
            &&& first.refreshes <= 1
            &&& second.refreshes == 0
            &&& second.manager == first.manager
            &&& second.result == Ok::<Seq<char>, OAuthErrorView>(
                first.manager.credential->Some_0.token.access_token,
            )
        }),
{
}

/// One round of polling: the caller proceeds at `asked_at`, and brings `answer`
/// back at `answered_at` if it was told to send a request.
pub struct PollRound {
    pub asked_at: u64,
    pub answer: HttpOutcomeView,
    pub answered_at: u64,
}

/// What a run of rounds came to: the requests that were sent, the pauses that were
/// asked for between them, how the flow ended if it did, and the keeper after it.
pub struct PollRun {
    pub manager: OAuthView,
    pub requests: Seq<HttpRequestView>,
    pub waits: Seq<u64>,
    pub end: Option<Result<(), OAuthErrorView>>,
}

/// The run that `rounds` give, round by round, until the flow ends or the rounds
/// do.
pub open spec fn poll_run(
    manager: OAuthView,
    device_code: DeviceCodeView,
    started_at: u64,
    rounds: Seq<PollRound>,
) -> PollRun
    decreases rounds.len(),
{
    if rounds.len() == 0 {
        PollRun { manager, requests: Seq::empty(), waits: Seq::empty(), end: None }
    } else {
        let round = rounds[0];
        let (asked, step) = poll_step(
            manager,
            device_code,
            started_at,
            round.asked_at,
            EventView::Proceed,
        );
        match step {
            PollStepView::Send(request) => {
                let (answered, next) = poll_step(
                    asked,
                    device_code,
                    started_at,
                    round.answered_at,
                    EventView::Replied(round.answer),
                );
                match next {
                    PollStepView::Wait(seconds) => {
                        let rest = poll_run(answered, device_code, started_at, rounds.drop_first());
                        PollRun {
                            manager: rest.manager,
                            requests: seq![request] + rest.requests,
                            waits: seq![seconds] + rest.waits,
                            end: rest.end,
                        }
                    },
                    PollStepView::Authenticated => PollRun {
                        manager: answered,
                        requests: seq![request],
                        waits: Seq::empty(),
                        end: Some(Ok(())),
                    },
                    PollStepView::Failed(error) => PollRun {
                        manager: answered,
                        requests: seq![request],
                        waits: Seq::empty(),
                        end: Some(Err(error)),
                    },
                    PollStepView::Send(_) => PollRun {
                        manager: answered,
                        requests: seq![request],
                        waits: Seq::empty(),
                        end: None,
                    },
                }
            },
            PollStepView::Failed(error) => PollRun {
                manager: asked,
                requests: Seq::empty(),
                waits: Seq::empty(),
                end: Some(Err(error)),
            },
            _ => PollRun { manager: asked, requests: Seq::empty(), waits: Seq::empty(), end: None },
        }
    }
}

/// An answer that says the authorization is still pending.
pub open spec fn is_pending(answer: HttpOutcomeView) -> bool {
    answer matches HttpOutcomeView::Reply { status, body } && !is_success(status) && contains_text(
        body,
        "authorization_pending"@,
    )
}

/// An answer that grants `token`.
pub open spec fn grants(answer: HttpOutcomeView, token: TokenView) -> bool {
    answer matches HttpOutcomeView::Reply { status, body } && is_success(status) && token_in(body)
        == Some(token)
}

/// Polling sends one request per answer and pauses between them: when every round
/// but the last is answered with a pending authorization and the last one grants a
/// token, all within the device code's validity, the flow ends with that token
/// held from the moment it came, after as many requests as there are rounds (the
/// pending answers and one more), every one the token request, and after one
/// pause of the service's interval for each pending answer.
pub proof fn polling_asks_once_per_answer(
    manager: OAuthView,
    device_code: DeviceCodeView,
    started_at: u64,
    rounds: Seq<PollRound>,
    token: TokenView,
)
    requires
        rounds.len() > 0,
        forall|i: int|
            0 <= i < rounds.len() ==> elapsed_since(started_at, (#[trigger] rounds[i]).asked_at)
                < device_code.expires_in,
        forall|i: int| 0 <= i < rounds.len() - 1 ==> is_pending((#[trigger] rounds[i]).answer),
        grants(rounds.last().answer, token),
    ensures
        ({
            let run = poll_run(manager, device_code, started_at, rounds);
            &&& run.end == Some(Ok::<(), OAuthErrorView>(()))
            &&& run.manager == manager.holding(token, rounds.last().answered_at)
            &&& run.requests.len() == rounds.len()
            &&& forall|i: int|
                0 <= i < run.requests.len() ==> run.requests[i] == token_request_of(
                    manager,
                    device_code,
                )
            &&& run.waits.len() == rounds.len() - 1
            &&& forall|i: int| 0 <= i < run.waits.len() ==> run.waits[i] == device_code.interval
        }),
    decreases rounds.len(),
{
    let round = rounds[0];
    if rounds.len() == 1 {
        assert(rounds.last() == round);
    } else {
        let rest = rounds.drop_first();
        assert(is_pending(round.answer));
        assert(rest.last() == rounds.last());
        assert forall|i: int| 0 <= i < rest.len() implies elapsed_since(
            started_at,
            (#[trigger] rest[i]).asked_at,
        ) < device_code.expires_in by {
            assert(rest[i] == rounds[i + 1]);
        }
        assert forall|i: int| 0 <= i < rest.len() - 1 implies is_pending(
            (#[trigger] rest[i]).answer,
        ) by {
            assert(rest[i] == rounds[i + 1]);
        }
        polling_asks_once_per_answer(manager, device_code, started_at, rest, token);
    }
}

/// How far a flow has come.
pub open spec fn flow_rank(flow: AuthFlowView) -> nat {
    match flow {
        AuthFlowView::Idle => 0,
        AuthFlowView::CodeRequested => 1,
        AuthFlowView::Polling { .. } => 2,
        AuthFlowView::Authenticated => 3,
        AuthFlowView::TimedOut => 3,
        AuthFlowView::Failed(_) => 3,
    }
}

/// A flow that has ended.
pub open spec fn flow_is_over(flow: AuthFlowView) -> bool {
    flow_rank(flow) == 3
}

/// The device-code flow only moves forward: from idle to the request for a code,
/// from there to polling, and from polling to one of its three ends. A flow that
/// has ended stays as it is and says so. A step ends an operation exactly when the
/// flow is over after it, a credential is taken only by the step that ends the
/// flow in success, and every other step leaves the keeper as it was.
pub proof fn device_flow_moves_forward(
    manager: OAuthView,
    flow: AuthFlowView,
    event: EventView,
    now: u64,
)
    ensures
        ({
            let (after, next, step) = auth_step(manager, flow, event, now);
            &&& flow_rank(next) >= flow_rank(flow)
            &&& flow_is_over(flow) ==> next == flow && after == manager
            &&& step is Done <==> flow_is_over(next)
            &&& step == AuthStepView::Done(Ok::<(), OAuthErrorView>(())) <==> next
                is Authenticated
            &&& after != manager ==> !flow_is_over(flow) && next is Authenticated
            &&& next is Authenticated && !flow_is_over(flow) ==> (after.credential
                matches Some(held) && held.obtained_at == now)
        }),
{
}

/// Storing and loading give the token back, as far as that is this library's
/// doing: if the text that was stored reads back as the document that was
/// printed, then a keeper that loads the text holds the token that was stored,
/// from the moment of loading. Whether `serde_json` reads back what it printed is
/// not proved here.
pub proof fn stored_token_loads_back(
    manager: OAuthView,
    other: OAuthView,
    text: Seq<char>,
    now: u64,
)
    requires
        save_result(manager) == Ok::<Seq<char>, OAuthErrorView>(text),
        json_parse(text) == Some(token_document(manager.credential->Some_0.token)),
    ensures
        load_result(other, Some(text), now) == (
            other.holding(manager.credential->Some_0.token, now),
            Ok::<(), OAuthErrorView>(()),
        ),
{
    token_document_round_trip(manager.credential->Some_0.token);
}

} // verus!
