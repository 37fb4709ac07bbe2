use som_chatbot::http::{Event, HttpMethod, HttpOutcome, HttpRequest};
use som_chatbot::twitch::helix::{
    message_request, read_lookup, read_send, read_sent_document, read_user_listing,
    request_access, users_request, Access, CallPhase, HelixChatClient, HelixError, HelixStep,
    UserLookup,
};
use som_chatbot::twitch::oauth::{OAuthError, OAuthManager};

fn token_body(access: &str, expires_in: u64) -> String {
    format!(
        "{{\"access_token\":\"{}\",\"expires_in\":{},\"refresh_token\":\"r\",\"scope\":[],\"token_type\":\"bearer\"}}",
        access, expires_in
    )
}

fn manager_holding(access: &str, expires_in: u64) -> OAuthManager {
    let mut manager = OAuthManager::new("client-id".to_string(), vec![]);
    assert_eq!(manager.load_token(Some(token_body(access, expires_in).as_str()), 0), Ok(()));
    manager
}

fn replied(status: u16, body: &str) -> Event {
    Event::Replied(HttpOutcome::Reply { status, body: body.to_string() })
}

fn outcome(status: u16, body: &str) -> HttpOutcome {
    HttpOutcome::Reply { status, body: body.to_string() }
}

fn pairs(list: &[(String, String)]) -> Vec<(&str, &str)> {
    list.iter().map(|(k, v)| (k.as_str(), v.as_str())).collect()
}

fn sent(step: HelixStep) -> HttpRequest {
    match step {
        HelixStep::Send(request) => request,
        other => panic!("expected a request, got {:?}", other),
    }
}

fn done(step: HelixStep) -> Result<String, HelixError> {
    match step {
        HelixStep::Done(result) => result,
        other => panic!("expected the end, got {:?}", other),
    }
}

#[test]
fn identifier_is_looked_up_once() {
    let mut oauth = manager_holding("tok", 14000);
    let mut helix = HelixChatClient::new();
    let mut lookups = 0;

    let (phase, step) = helix.get_broadcaster_id(&mut oauth, "alice", CallPhase::Start, Event::Proceed, 1);
    assert_eq!(phase, CallPhase::Requesting);
    let request = sent(step);
    lookups += 1;
    assert_eq!(request.method, HttpMethod::Get);
    assert_eq!(request.url, "https://api.twitch.tv/helix/users");
    assert_eq!(pairs(&request.headers), vec![("Authorization", "Bearer tok"), ("Client-Id", "client-id")]);
    assert_eq!(pairs(&request.query), vec![("login", "alice")]);
    assert!(request.form.is_empty() && request.json.is_none());
    assert_eq!(request.timeout_secs, Some(10));
    assert_eq!(helix.cached_broadcaster_id("alice"), None);

    let answer = "{\"data\":[{\"id\":\"4711\",\"login\":\"alice\",\"display_name\":\"Alice\"}]}";
    let (phase, step) = helix.get_broadcaster_id(&mut oauth, "alice", phase, replied(200, answer), 2);
    assert_eq!(phase, CallPhase::Start);
    assert_eq!(done(step), Ok("4711".to_string()));
    assert_eq!(helix.cached_broadcaster_id("alice"), Some("4711".to_string()));

    // The second call is served from memory and asks nothing.
    let (phase, step) = helix.get_broadcaster_id(&mut oauth, "alice", CallPhase::Start, Event::Proceed, 3);
    assert_eq!(phase, CallPhase::Start);
    assert_eq!(done(step), Ok("4711".to_string()));
    assert_eq!(lookups, 1);

    // Another login is not in memory.
    let (_, step) = helix.get_broadcaster_id(&mut oauth, "Alice", CallPhase::Start, Event::Proceed, 3);
    assert_eq!(pairs(&sent(step).query), vec![("login", "Alice")]);
}

#[test]
fn unknown_user_and_failed_lookups_are_told_apart() {
    let mut oauth = manager_holding("tok", 14000);
    let mut helix = HelixChatClient::new();
    let mut ask = |event: Event| {
        let (phase, _) = helix.get_broadcaster_id(&mut oauth, "nobody", CallPhase::Start, Event::Proceed, 1);
        let (phase, step) = helix.get_broadcaster_id(&mut oauth, "nobody", phase, event, 1);
        assert_eq!(phase, CallPhase::Start);
        done(step)
    };
    let error = ask(replied(200, "{\"data\":[]}")).unwrap_err();
    assert_eq!(error, HelixError::UnknownUser("nobody".to_string()));
    assert_eq!(error.message(), "No user data found for nobody");
    let error = ask(replied(401, "{\"message\":\"Invalid OAuth token\"}")).unwrap_err();
    assert_eq!(error, HelixError::LookupFailed("{\"message\":\"Invalid OAuth token\"}".to_string()));
    assert_eq!(error.message(), "Failed to get user ID: {\"message\":\"Invalid OAuth token\"}");
    assert_eq!(ask(replied(200, "{\"data\":7}")), Err(HelixError::LookupFailed("{\"data\":7}".to_string())));
    assert_eq!(ask(replied(200, "{\"data\":[{\"id\":7}]}")), Err(HelixError::LookupFailed("{\"data\":[{\"id\":7}]}".to_string())));
    assert_eq!(ask(replied(200, "nonsense")), Err(HelixError::LookupFailed("nonsense".to_string())));
    assert_eq!(
        ask(Event::Replied(HttpOutcome::Failed { reason: "dns".to_string() })),
        Err(HelixError::LookupFailed("dns".to_string()))
    );
    assert_eq!(helix.cached_broadcaster_id("nobody"), None);
}

#[test]
fn bot_identifier_is_looked_up_once() {
    let mut oauth = manager_holding("tok", 14000);
    let mut helix = HelixChatClient::new();
    assert_eq!(helix.cached_bot_user_id(), None);
    let (phase, step) = helix.get_bot_user_id(&mut oauth, CallPhase::Start, Event::Proceed, 1);
    let request = sent(step);
    assert_eq!(request.url, "https://api.twitch.tv/helix/users");
    assert!(request.query.is_empty());
    let (_, step) = helix.get_bot_user_id(&mut oauth, phase, replied(200, "{\"data\":[]}"), 1);
    let error = done(step).unwrap_err();
    assert_eq!(error, HelixError::NoUserData);
    assert_eq!(error.message(), "No user data returned");
    assert_eq!(helix.cached_bot_user_id(), None);

    let (phase, _) = helix.get_bot_user_id(&mut oauth, CallPhase::Start, Event::Proceed, 1);
    let (_, step) =
        helix.get_bot_user_id(&mut oauth, phase, replied(200, "{\"data\":[{\"id\":\"99\"},{\"id\":\"100\"}]}"), 1);
    assert_eq!(done(step), Ok("99".to_string()));
    assert_eq!(helix.cached_bot_user_id(), Some("99".to_string()));
    let (phase, step) = helix.get_bot_user_id(&mut oauth, CallPhase::Start, Event::Proceed, 2);
    assert_eq!(phase, CallPhase::Start);
    assert_eq!(done(step), Ok("99".to_string()));
}

#[test]
fn dropped_message_surfaces_with_its_reason() {
    let body = "{\"data\":[{\"message_id\":\"\",\"is_sent\":false,\"drop_reason\":{\"code\":\"channel_banned\",\"message\":\"bot is banned\"}}]}";
    let error = read_send(outcome(200, body)).unwrap_err();
    assert_eq!(
        error,
        HelixError::MessageDropped {
            code: "channel_banned".to_string(),
            message: "bot is banned".to_string(),
        }
    );
    assert_eq!(error.message(), "Message not sent: channel_banned - bot is banned");
}

#[test]
fn sending_answers_are_read_in_full() {
    assert_eq!(
        read_send(outcome(200, "{\"data\":[{\"message_id\":\"m-1\",\"is_sent\":true}]}")),
        Ok("m-1".to_string())
    );
    assert_eq!(
        read_send(outcome(200, "{\"data\":[{\"message_id\":\"m-1\",\"is_sent\":true,\"drop_reason\":null}]}")),
        Ok("m-1".to_string())
    );
    assert_eq!(
        read_send(outcome(
            200,
            "{\"data\":[{\"message_id\":\"m-1\",\"is_sent\":true,\"drop_reason\":{\"code\":\"c\",\"message\":\"m\"}}]}"
        )),
        Ok("m-1".to_string())
    );
    let error = read_send(outcome(200, "{\"data\":[{\"message_id\":\"m-1\",\"is_sent\":false}]}")).unwrap_err();
    assert_eq!(error, HelixError::DroppedWithoutReason);
    assert_eq!(error.message(), "Message not sent for unknown reason");
    let error = read_send(outcome(200, "{\"data\":[]}")).unwrap_err();
    assert_eq!(error, HelixError::NoMessageData);
    assert_eq!(error.message(), "No data returned from send message API");
    for body in [
        "{}",
        "[]",
        "{\"data\":{}}",
        "{\"data\":[{\"is_sent\":true}]}",
        "{\"data\":[{\"message_id\":\"m\"}]}",
        "{\"data\":[{\"message_id\":\"m\",\"is_sent\":\"yes\"}]}",
        "{\"data\":[{\"message_id\":\"m\",\"is_sent\":false,\"drop_reason\":{\"code\":\"c\"}}]}",
        "{\"data\":[{\"message_id\":\"m\",\"is_sent\":false,\"drop_reason\":\"banned\"}]}",
        "not json",
    ] {
        assert_eq!(read_send(outcome(200, body)), Err(HelixError::SendFailed(body.to_string())), "{}", body);
    }
    let error = read_send(outcome(429, "slow down")).unwrap_err();
    assert_eq!(error, HelixError::SendFailed("slow down".to_string()));
    assert_eq!(error.message(), "Failed to send message: slow down");
    assert_eq!(
        read_send(outcome(300, "{\"data\":[{\"message_id\":\"m-1\",\"is_sent\":true}]}")),
        Err(HelixError::SendFailed("{\"data\":[{\"message_id\":\"m-1\",\"is_sent\":true}]}".to_string()))
    );
    assert_eq!(
        read_send(HttpOutcome::Failed { reason: "broken pipe".to_string() }),
        Err(HelixError::SendFailed("broken pipe".to_string()))
    );

    let doc: serde_json::Value = serde_json::from_str("{\"data\":[{\"message_id\":\"z\",\"is_sent\":true}]}").unwrap();
    assert_eq!(read_sent_document(&doc, "ignored".to_string()), Ok("z".to_string()));
    let listing: serde_json::Value = serde_json::from_str("{\"data\":[{\"id\":\"5\"}]}").unwrap();
    assert!(matches!(read_user_listing(&listing), UserLookup::Found(id) if id == "5"));
    assert!(matches!(read_user_listing(&doc), UserLookup::Unreadable));
    assert_eq!(read_lookup(outcome(200, "{\"data\":[]}")), Ok(None));
    assert_eq!(read_lookup(outcome(204, "{\"data\":[{\"id\":\"8\"}]}")), Ok(Some("8".to_string())));
    assert_eq!(read_lookup(outcome(404, "x")), Err("x".to_string()));
}

#[test]
fn requests_carry_what_the_platform_asks_for() {
    let request = users_request("tok", "cid", None);
    assert!(request.query.is_empty());
    let request = message_request("tok", "cid", "b-1", "s-2", "hello \"there\"", None);
    assert_eq!(request.method, HttpMethod::Post);
    assert_eq!(request.url, "https://api.twitch.tv/helix/chat/messages");
    assert_eq!(
        pairs(&request.headers),
        vec![
            ("Authorization", "Bearer tok"),
            ("Client-Id", "cid"),
            ("Content-Type", "application/json"),
        ]
    );
    assert!(request.query.is_empty() && request.form.is_empty());
    assert_eq!(request.timeout_secs, Some(10));
    let body = request.json.unwrap();
    assert_eq!(
        serde_json::to_string(&body).unwrap(),
        "{\"broadcaster_id\":\"b-1\",\"message\":\"hello \\\"there\\\"\",\"sender_id\":\"s-2\"}"
    );
    let request = message_request("tok", "cid", "b-1", "s-2", "hi", Some("parent-9"));
    let body = request.json.unwrap();
    assert_eq!(body.as_object().unwrap().len(), 4);
    assert_eq!(body["reply_parent_message_id"], "parent-9");
    assert_eq!(body["broadcaster_id"], "b-1");
    assert_eq!(body["sender_id"], "s-2");
    assert_eq!(body["message"], "hi");
}

#[test]
fn sending_resolves_both_identifiers_then_posts() {
    let mut oauth = manager_holding("tok", 14000);
    let mut helix = HelixChatClient::new();
    let (phase, step) =
        helix.send_chat_message(&mut oauth, "chan", "hello", None, CallPhase::Start, Event::Proceed, 1);
    assert!(sent(step).query.is_empty());
    let (phase, step) = helix.send_chat_message(
        &mut oauth,
        "chan",
        "hello",
        None,
        phase,
        replied(200, "{\"data\":[{\"id\":\"bot-1\"}]}"),
        1,
    );
    assert_eq!(pairs(&sent(step).query), vec![("login", "chan")]);
    let (phase, step) = helix.send_chat_message(
        &mut oauth,
        "chan",
        "hello",
        None,
        phase,
        replied(200, "{\"data\":[{\"id\":\"chan-2\"}]}"),
        1,
    );
    assert_eq!(phase, CallPhase::Requesting);
    let body = sent(step).json.unwrap();
    assert_eq!(body["broadcaster_id"], "chan-2");
    assert_eq!(body["sender_id"], "bot-1");
    assert_eq!(body["message"], "hello");
    assert!(body.get("reply_parent_message_id").is_none());
    let (phase, step) = helix.send_chat_message(
        &mut oauth,
        "chan",
        "hello",
        None,
        phase,
        replied(200, "{\"data\":[{\"message_id\":\"m-7\",\"is_sent\":true}]}"),
        1,
    );
    assert_eq!(phase, CallPhase::Start);
    assert_eq!(done(step), Ok("m-7".to_string()));

    // With both identifiers in memory the next sending posts at once.
    let (phase, step) =
        helix.send_reply(&mut oauth, "chan", "again", "m-7", CallPhase::Start, Event::Proceed, 2);
    assert_eq!(phase, CallPhase::Requesting);
    let request = sent(step);
    assert_eq!(request.url, "https://api.twitch.tv/helix/chat/messages");
    assert_eq!(request.json.unwrap()["reply_parent_message_id"], "m-7");
    let (_, step) = helix.send_reply(&mut oauth, "chan", "again", "m-7", phase, replied(500, "boom"), 2);
    assert_eq!(done(step), Err(HelixError::SendFailed("boom".to_string())));
}

#[test]
fn sending_stops_at_the_first_failure() {
    let mut oauth = manager_holding("tok", 14000);
    let mut helix = HelixChatClient::new();
    let (phase, _) =
        helix.send_chat_message(&mut oauth, "chan", "hello", None, CallPhase::Start, Event::Proceed, 1);
    let (phase, step) =
        helix.send_chat_message(&mut oauth, "chan", "hello", None, phase, replied(200, "{\"data\":[]}"), 1);
    assert_eq!(phase, CallPhase::Start);
    assert_eq!(done(step), Err(HelixError::NoUserData));

    let (phase, _) =
        helix.send_chat_message(&mut oauth, "chan", "hello", None, CallPhase::Start, Event::Proceed, 1);
    let (phase, _) = helix.send_chat_message(
        &mut oauth,
        "chan",
        "hello",
        None,
        phase,
        replied(200, "{\"data\":[{\"id\":\"bot-1\"}]}"),
        1,
    );
    let (_, step) =
        helix.send_chat_message(&mut oauth, "chan", "hello", None, phase, replied(200, "{\"data\":[]}"), 1);
    assert_eq!(done(step), Err(HelixError::UnknownUser("chan".to_string())));
    assert_eq!(helix.cached_bot_user_id(), Some("bot-1".to_string()));

    let mut nobody = OAuthManager::new("cid".to_string(), vec![]);
    let (phase, step) =
        helix.send_chat_message(&mut nobody, "chan", "hello", None, CallPhase::Start, Event::Proceed, 1);
    assert_eq!(phase, CallPhase::Start);
    let error = done(step).unwrap_err();
    assert_eq!(error, HelixError::Auth(OAuthError::Unauthenticated));
    assert_eq!(error.message(), "Not authenticated");
}

#[test]
fn stale_token_is_refreshed_before_a_request() {
    let mut oauth = manager_holding("old", 1000);
    let mut helix = HelixChatClient::new();
    let (phase, step) = helix.get_broadcaster_id(&mut oauth, "alice", CallPhase::Start, Event::Proceed, 5000);
    assert_eq!(phase, CallPhase::Refreshing);
    assert_eq!(sent(step).url, "https://id.twitch.tv/oauth2/token");
    let (phase, step) =
        helix.get_broadcaster_id(&mut oauth, "alice", phase, replied(200, &token_body("new", 9000)), 5001);
    assert_eq!(phase, CallPhase::Requesting);
    let request = sent(step);
    assert_eq!(request.url, "https://api.twitch.tv/helix/users");
    assert_eq!(request.headers[0].1, "Bearer new");
    let (_, step) =
        helix.get_broadcaster_id(&mut oauth, "alice", phase, replied(200, "{\"data\":[{\"id\":\"1\"}]}"), 5002);
    assert_eq!(done(step), Ok("1".to_string()));

    let mut oauth = manager_holding("old", 1000);
    let (phase, _) = helix.get_broadcaster_id(&mut oauth, "bob", CallPhase::Start, Event::Proceed, 5000);
    let (phase, step) = helix.get_broadcaster_id(&mut oauth, "bob", phase, replied(400, "revoked"), 5001);
    assert_eq!(phase, CallPhase::Start);
    assert_eq!(
        done(step),
        Err(HelixError::Auth(OAuthError::RefreshFailed("revoked".to_string())))
    );
    assert!(!oauth.is_authenticated());
}

#[test]
fn access_follows_the_phase_of_the_request() {
    let mut oauth = manager_holding("tok", 14000);
    match request_access(&mut oauth, CallPhase::Start, Event::Proceed, 1) {
        Access::Token(token) => assert_eq!(token, "tok"),
        other => panic!("unexpected access: {:?}", other),
    }
    match request_access(&mut oauth, CallPhase::Requesting, replied(200, "body"), 1) {
        Access::Answer(HttpOutcome::Reply { status, body }) => {
            assert_eq!(status, 200);
            assert_eq!(body, "body");
        }
        other => panic!("unexpected access: {:?}", other),
    }
    // An answer that nothing waits for begins the request anew.
    match request_access(&mut oauth, CallPhase::Start, replied(200, "body"), 1) {
        Access::Token(token) => assert_eq!(token, "tok"),
        other => panic!("unexpected access: {:?}", other),
    }
    assert!(matches!(
        request_access(&mut oauth, CallPhase::Requesting, Event::Proceed, 99999),
        Access::Refresh(_)
    ));
    let mut nobody = OAuthManager::new("cid".to_string(), vec![]);
    assert!(matches!(
        request_access(&mut nobody, CallPhase::Start, Event::Proceed, 1),
        Access::Failed(OAuthError::Unauthenticated)
    ));
}
