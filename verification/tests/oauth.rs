use som_chatbot::http::{Event, HttpMethod, HttpOutcome, HttpRequest};
use som_chatbot::session::{authenticate, default_scopes, ensure_session_ready, SessionPlan};
use som_chatbot::twitch::oauth::{
    elapsed, AuthFlow, AuthStep, Credential, DeviceCodeResponse, ErrorResponse, OAuthError,
    OAuthManager, PollStep, TokenResponse, TokenStep, REFRESH_MARGIN_SECS,
};

fn sample_token(access: &str, expires_in: u64) -> TokenResponse {
    TokenResponse {
        access_token: access.to_string(),
        expires_in,
        refresh_token: format!("refresh-of-{}", access),
        scope: vec!["chat:read".to_string(), "chat:edit".to_string()],
        token_type: "bearer".to_string(),
    }
}

fn token_body(access: &str, expires_in: u64) -> String {
    format!(
        "{{\"access_token\":\"{}\",\"expires_in\":{},\"refresh_token\":\"refresh-of-{}\",\"scope\":[\"chat:read\",\"chat:edit\"],\"token_type\":\"bearer\"}}",
        access, expires_in, access
    )
}

fn manager_holding(access: &str, expires_in: u64, obtained_at: u64) -> OAuthManager {
    let mut manager =
        OAuthManager::new("test_client_id".to_string(), vec!["chat:read".to_string(), "chat:edit".to_string()]);
    let stored = token_body(access, expires_in);
    assert_eq!(manager.load_token(Some(stored.as_str()), obtained_at), Ok(()));
    manager
}

fn replied(status: u16, body: &str) -> Event {
    Event::Replied(HttpOutcome::Reply { status, body: body.to_string() })
}

fn form_of(request: &HttpRequest) -> Vec<(&str, &str)> {
    request.form.iter().map(|(k, v)| (k.as_str(), v.as_str())).collect()
}

fn device_code(expires_in: u64, interval: u64) -> DeviceCodeResponse {
    DeviceCodeResponse {
        device_code: "test_device_code".to_string(),
        expires_in,
        interval,
        user_code: "ABCDEFGH".to_string(),
        verification_uri: "https://www.twitch.tv/activate".to_string(),
    }
}

#[test]
fn test_start_device_code_flow() {
    let oauth = OAuthManager::new(
        "test_client_id".to_string(),
        vec!["chat:read".to_string(), "chat:edit".to_string()],
    );
    let request = oauth.device_code_request();
    assert_eq!(request.method, HttpMethod::Post);
    assert_eq!(request.url, "https://id.twitch.tv/oauth2/device");
    assert_eq!(form_of(&request), vec![("client_id", "test_client_id"), ("scopes", "chat:read chat:edit")]);
    assert!(request.headers.is_empty() && request.query.is_empty() && request.json.is_none());
    assert_eq!(request.timeout_secs, None);

    let body = r#"{
                "device_code": "test_device_code",
                "expires_in": 1800,
                "interval": 5,
                "user_code": "ABCDEFGH",
                "verification_uri": "https://www.twitch.tv/activate"
            }"#;
    let answer = oauth.start_device_code_flow(HttpOutcome::Reply { status: 200, body: body.to_string() });
    assert_eq!(answer, Ok(device_code(1800, 5)));
}

#[test]
fn device_code_request_can_be_refused() {
    let oauth = OAuthManager::new("id".to_string(), vec![]);
    let refused = |status: u16, body: &str| {
        oauth.start_device_code_flow(HttpOutcome::Reply { status, body: body.to_string() })
    };
    assert_eq!(
        refused(400, "{\"status\":400,\"message\":\"invalid client\"}"),
        Err(OAuthError::AuthFlowFailed("invalid client".to_string()))
    );
    assert_eq!(
        refused(500, "<html>oops</html>"),
        Err(OAuthError::AuthFlowFailed("<html>oops</html>".to_string()))
    );
    assert_eq!(
        refused(400, "{\"status\":70000,\"message\":\"m\"}"),
        Err(OAuthError::AuthFlowFailed("{\"status\":70000,\"message\":\"m\"}".to_string()))
    );
    assert_eq!(
        refused(200, "{\"device_code\":\"d\"}"),
        Err(OAuthError::AuthFlowFailed("{\"device_code\":\"d\"}".to_string()))
    );
    assert_eq!(
        oauth.start_device_code_flow(HttpOutcome::Failed { reason: "no route".to_string() }),
        Err(OAuthError::AuthFlowFailed("no route".to_string()))
    );
    assert_eq!(
        ErrorResponse::from_json("{\"status\":404,\"message\":\"gone\",\"more\":1}"),
        Some(ErrorResponse { status: 404, message: "gone".to_string() })
    );
    assert_eq!(ErrorResponse::from_json("{\"status\":-1,\"message\":\"gone\"}"), None);
}

#[test]
fn token_is_read_from_json() {
    assert_eq!(TokenResponse::from_json(&token_body("a", 10)), Some(sample_token("a", 10)));
    let with_extras = "{\"token_type\":\"bearer\",\"scope\":[],\"refresh_token\":\"r\",\"expires_in\":0,\"access_token\":\"a\",\"extra\":null}";
    assert_eq!(
        TokenResponse::from_json(with_extras),
        Some(TokenResponse {
            access_token: "a".to_string(),
            expires_in: 0,
            refresh_token: "r".to_string(),
            scope: vec![],
            token_type: "bearer".to_string(),
        })
    );
    for broken in [
        "",
        "not json",
        "[]",
        "{}",
        "{\"access_token\":\"a\",\"expires_in\":10,\"refresh_token\":\"r\",\"scope\":[],\"token_type\":7}",
        "{\"access_token\":\"a\",\"expires_in\":-10,\"refresh_token\":\"r\",\"scope\":[],\"token_type\":\"b\"}",
        "{\"access_token\":\"a\",\"expires_in\":1.5,\"refresh_token\":\"r\",\"scope\":[],\"token_type\":\"b\"}",
        "{\"access_token\":\"a\",\"expires_in\":\"10\",\"refresh_token\":\"r\",\"scope\":[],\"token_type\":\"b\"}",
        "{\"access_token\":\"a\",\"expires_in\":10,\"refresh_token\":\"r\",\"scope\":[\"x\",1],\"token_type\":\"b\"}",
        "{\"access_token\":\"a\",\"expires_in\":10,\"refresh_token\":\"r\",\"scope\":\"x\",\"token_type\":\"b\"}",
        "{\"access_token\":\"a\",\"expires_in\":10,\"refresh_token\":\"r\",\"token_type\":\"b\"}",
        "{\"access_token\":null,\"expires_in\":10,\"refresh_token\":\"r\",\"scope\":[],\"token_type\":\"b\"}",
    ] {
        assert_eq!(TokenResponse::from_json(broken), None, "{}", broken);
    }
}

#[test]
fn token_document_has_exactly_the_five_members() {
    let token = sample_token("a\"quoted\"", 3600);
    let doc = token.to_document();
    let members = doc.as_object().unwrap();
    assert_eq!(members.len(), 5);
    assert_eq!(doc["access_token"], "a\"quoted\"");
    assert_eq!(doc["expires_in"], 3600);
    assert_eq!(doc["refresh_token"], "refresh-of-a\"quoted\"");
    assert_eq!(doc["scope"][0], "chat:read");
    assert_eq!(doc["scope"][1], "chat:edit");
    assert_eq!(doc["scope"].as_array().unwrap().len(), 2);
    assert_eq!(doc["token_type"], "bearer");
    assert_eq!(TokenResponse::from_document(&doc), Some(token.clone()));
    assert_eq!(token.to_json().unwrap(), serde_json::to_string_pretty(&doc).unwrap());
    assert!(token.to_json().unwrap().contains('\n'));
}

#[test]
fn token_survives_save_and_load() {
    for token in [
        sample_token("access-1", 14000),
        sample_token("", 0),
        sample_token("line\nbreak \u{e9} \u{1f3b1} \\ \"", u64::MAX),
        TokenResponse { scope: vec![], ..sample_token("x", 1) },
    ] {
        let mut first = OAuthManager::new("client".to_string(), vec![]);
        let text = token.to_json().unwrap();
        assert_eq!(first.load_token(Some(text.as_str()), 50), Ok(()));
        let saved = first.save_token().unwrap();
        let mut second = OAuthManager::new("client".to_string(), vec![]);
        assert_eq!(second.load_token(Some(saved.as_str()), 70), Ok(()));
        assert_eq!(second.get_token(), Some(token.clone()));
        assert_eq!(second.get_token().unwrap().access_token, token.access_token);
        assert_eq!(second.get_token().unwrap().refresh_token, token.refresh_token);
        assert_eq!(second.get_token().unwrap().scope, token.scope);
        assert_eq!(second.obtained_at(), Some(70));
        assert_eq!(second.save_token(), Ok(saved));
    }
}

#[test]
fn loading_a_corrupt_token_changes_nothing() {
    let mut manager = OAuthManager::new("client".to_string(), vec![]);
    assert_eq!(manager.load_token(Some("{\"access_token\":"), 5), Err(OAuthError::CorruptToken));
    assert!(!manager.is_authenticated());
    assert_eq!(manager.save_token(), Err(OAuthError::NothingToSave));
    assert_eq!(manager.load_token(None, 5), Ok(()));
    assert!(!manager.is_authenticated());

    let mut manager = manager_holding("kept", 5000, 1);
    assert_eq!(manager.load_token(Some("[1,2,3]"), 9), Err(OAuthError::CorruptToken));
    assert_eq!(manager.get_token(), Some(sample_token("kept", 5000)));
    assert_eq!(manager.obtained_at(), Some(1));
    assert_eq!(manager.load_token(None, 9), Ok(()));
    assert_eq!(manager.obtained_at(), Some(1));
    assert_eq!(manager.get_client_id(), "test_client_id");
}

#[test]
fn unauthenticated_manager_gives_no_token() {
    let mut manager = OAuthManager::new("client".to_string(), vec![]);
    assert!(!manager.is_authenticated());
    assert_eq!(manager.get_token(), None);
    assert!(manager.refresh_request().is_none());
    match manager.get_access_token(0, Event::Proceed) {
        TokenStep::Failed(error) => assert_eq!(error, OAuthError::Unauthenticated),
        other => panic!("unexpected step: {:?}", other),
    }
    match manager.get_access_token(0, replied(200, &token_body("new", 9000))) {
        TokenStep::Failed(error) => assert_eq!(error, OAuthError::Unauthenticated),
        other => panic!("unexpected step: {:?}", other),
    }
    assert!(!manager.is_authenticated());
}

#[test]
fn fresh_token_is_handed_out_as_it_is() {
    let mut manager = manager_holding("fresh", 1000, 100);
    // Fresh while the age is less than the lifetime minus the margin: 1000 - 600 = 400.
    for now in [0, 100, 101, 499] {
        match manager.get_access_token(now, Event::Proceed) {
            TokenStep::Ready(token) => assert_eq!(token, "fresh"),
            other => panic!("unexpected step at {}: {:?}", now, other),
        }
    }
    assert_eq!(manager.obtained_at(), Some(100));
    for now in [500, 501, 1100, u64::MAX] {
        match manager.get_access_token(now, Event::Proceed) {
            TokenStep::Refresh(_) => {}
            other => panic!("unexpected step at {}: {:?}", now, other),
        }
    }
    assert_eq!(REFRESH_MARGIN_SECS, 600);
    assert_eq!(elapsed(100, 499), 399);
    assert_eq!(elapsed(100, 99), 0);
    let credential = Credential { token: sample_token("t", 1000), obtained_at: 100 };
    assert!(credential.is_fresh(499));
    assert!(!credential.is_fresh(500));
    let short = Credential { token: sample_token("t", 600), obtained_at: 100 };
    assert!(!short.is_fresh(100));
    let barely = Credential { token: sample_token("t", 601), obtained_at: 100 };
    assert!(barely.is_fresh(100));
    assert!(!barely.is_fresh(101));
}

#[test]
fn stale_token_is_refreshed_first() {
    let mut manager = manager_holding("old", 1000, 100);
    let request = match manager.get_access_token(700, Event::Proceed) {
        TokenStep::Refresh(request) => request,
        other => panic!("unexpected step: {:?}", other),
    };
    assert_eq!(request.method, HttpMethod::Post);
    assert_eq!(request.url, "https://id.twitch.tv/oauth2/token");
    assert_eq!(
        form_of(&request),
        vec![
            ("client_id", "test_client_id"),
            ("refresh_token", "refresh-of-old"),
            ("grant_type", "refresh_token"),
        ]
    );
    let same = manager.refresh_request().unwrap();
    assert_eq!(form_of(&same), form_of(&request));
    assert_eq!(manager.get_token(), Some(sample_token("old", 1000)));

    match manager.get_access_token(705, replied(200, &token_body("new", 2000))) {
        TokenStep::Ready(token) => assert_eq!(token, "new"),
        other => panic!("unexpected step: {:?}", other),
    }
    assert_eq!(manager.get_token(), Some(sample_token("new", 2000)));
    assert_eq!(manager.obtained_at(), Some(705));
    // The returned token is valid for the margin at least.
    assert!(705 + 2000 >= 705 + REFRESH_MARGIN_SECS);
}

#[test]
fn second_call_needs_no_second_refresh() {
    let mut manager = manager_holding("old", 1000, 0);
    let mut refreshes = 0;
    let mut tokens = Vec::new();
    for now in [900u64, 950] {
        let mut event = Event::Proceed;
        loop {
            match manager.get_access_token(now, event) {
                TokenStep::Ready(token) => {
                    tokens.push(token);
                    break;
                }
                TokenStep::Refresh(_) => {
                    refreshes += 1;
                    event = replied(200, &token_body("new", 3600));
                }
                TokenStep::Failed(error) => panic!("unexpected failure: {:?}", error),
            }
        }
    }
    assert_eq!(refreshes, 1);
    assert_eq!(tokens, vec!["new", "new"]);
}

#[test]
fn failed_refresh_leaves_no_credential() {
    for (event, text) in [
        (replied(400, "{\"status\":400,\"message\":\"Invalid refresh token\"}"), "{\"status\":400,\"message\":\"Invalid refresh token\"}"),
        (replied(200, "no token here"), "no token here"),
        (Event::Replied(HttpOutcome::Failed { reason: "timed out".to_string() }), "timed out"),
    ] {
        let mut manager = manager_holding("old", 1000, 0);
        assert!(matches!(manager.get_access_token(2000, Event::Proceed), TokenStep::Refresh(_)));
        match manager.get_access_token(2000, event) {
            TokenStep::Failed(error) => {
                assert_eq!(error, OAuthError::RefreshFailed(text.to_string()));
                assert_eq!(error.message(), format!("Failed to refresh token: {}", text));
            }
            other => panic!("unexpected step: {:?}", other),
        }
        assert!(!manager.is_authenticated());
        match manager.get_access_token(2001, Event::Proceed) {
            TokenStep::Failed(error) => assert_eq!(error, OAuthError::Unauthenticated),
            other => panic!("unexpected step: {:?}", other),
        }
    }

    let mut manager = manager_holding("old", 1000, 0);
    assert_eq!(
        manager.refresh_token(HttpOutcome::Reply { status: 401, body: "denied".to_string() }, 7),
        Err(OAuthError::RefreshFailed("denied".to_string()))
    );
    assert!(!manager.is_authenticated());
    let mut manager = manager_holding("old", 1000, 0);
    assert_eq!(
        manager.refresh_token(HttpOutcome::Reply { status: 299, body: token_body("n", 1) }, 7),
        Ok(())
    );
    assert_eq!(manager.get_token(), Some(sample_token("n", 1)));
    assert_eq!(manager.obtained_at(), Some(7));
}

#[test]
fn short_lived_refresh_is_handed_out_all_the_same() {
    let mut manager = manager_holding("old", 1000, 0);
    assert!(matches!(manager.get_access_token(2000, Event::Proceed), TokenStep::Refresh(_)));
    match manager.get_access_token(2000, replied(200, &token_body("brief", 300))) {
        TokenStep::Ready(token) => assert_eq!(token, "brief"),
        other => panic!("unexpected step: {:?}", other),
    }
    assert!(matches!(manager.get_access_token(2000, Event::Proceed), TokenStep::Refresh(_)));
}

#[test]
fn polling_asks_once_for_each_answer() {
    for pending in [0usize, 1, 3, 7] {
        let mut manager = OAuthManager::new("cid".to_string(), vec!["a".to_string(), "b".to_string()]);
        let device = device_code(1800, 5);
        let started_at = 1000;
        let mut now = started_at;
        let mut sent = 0;
        let mut waits = Vec::new();
        let mut event = Event::Proceed;
        loop {
            match manager.poll_for_token(&device, started_at, now, event) {
                PollStep::Send(request) => {
                    assert_eq!(request.url, "https://id.twitch.tv/oauth2/token");
                    assert_eq!(
                        form_of(&request),
                        vec![
                            ("client_id", "cid"),
                            ("scopes", "a b"),
                            ("device_code", "test_device_code"),
                            ("grant_type", "urn:ietf:params:oauth:grant-type:device_code"),
                        ]
                    );
                    sent += 1;
                    now += 1;
                    event = if sent <= pending {
                        replied(400, "{\"status\":400,\"message\":\"authorization_pending\"}")
                    } else {
                        replied(200, &token_body("granted", 14000))
                    };
                }
                PollStep::Wait(seconds) => {
                    waits.push(seconds);
                    now += seconds;
                    event = Event::Proceed;
                }
                PollStep::Authenticated => break,
                PollStep::Failed(error) => panic!("unexpected failure: {:?}", error),
            }
        }
        assert_eq!(sent, pending + 1);
        assert_eq!(waits, vec![5; pending]);
        assert_eq!(manager.get_token(), Some(sample_token("granted", 14000)));
        assert_eq!(manager.obtained_at(), Some(now));
    }
}

#[test]
fn polling_times_out_with_the_device_code() {
    let mut manager = OAuthManager::new("cid".to_string(), vec![]);
    let device = device_code(10, 4);
    assert!(matches!(manager.poll_for_token(&device, 100, 100, Event::Proceed), PollStep::Send(_)));
    assert!(matches!(manager.poll_for_token(&device, 100, 109, Event::Proceed), PollStep::Send(_)));
    assert!(matches!(manager.poll_for_token(&device, 100, 50, Event::Proceed), PollStep::Send(_)));
    for now in [110, 111, 5000] {
        match manager.poll_for_token(&device, 100, now, Event::Proceed) {
            PollStep::Failed(error) => {
                assert_eq!(error, OAuthError::AuthFlowTimedOut);
                assert_eq!(error.message(), "Device code flow timed out");
            }
            other => panic!("unexpected step: {:?}", other),
        }
    }
    let expired = device_code(0, 4);
    assert!(matches!(
        manager.poll_for_token(&expired, 100, 100, Event::Proceed),
        PollStep::Failed(OAuthError::AuthFlowTimedOut)
    ));
    assert!(!manager.is_authenticated());
}

#[test]
fn polling_fails_on_any_other_answer() {
    let mut manager = OAuthManager::new("cid".to_string(), vec![]);
    let device = device_code(100, 4);
    for (event, text) in [
        (replied(400, "{\"message\":\"invalid device code\"}"), "{\"message\":\"invalid device code\"}"),
        (replied(200, "{}"), "{}"),
        (replied(199, "authorization_pendin"), "authorization_pendin"),
        (Event::Replied(HttpOutcome::Failed { reason: "reset".to_string() }), "reset"),
    ] {
        match manager.poll_for_token(&device, 0, 1, event) {
            PollStep::Failed(error) => {
                assert_eq!(error, OAuthError::AuthFlowFailed(text.to_string()));
                assert_eq!(error.message(), format!("Device code flow failed: {}", text));
            }
            other => panic!("unexpected step: {:?}", other),
        }
    }
    // A pending answer is recognised anywhere in the body, but never in a success.
    assert!(matches!(
        manager.poll_for_token(&device, 0, 1, replied(400, "xx authorization_pending xx")),
        PollStep::Wait(4)
    ));
    assert!(matches!(
        manager.poll_for_token(&device, 0, 1, replied(200, "authorization_pending")),
        PollStep::Failed(_)
    ));
    assert!(!manager.is_authenticated());
}

#[test]
fn device_code_flow_runs_from_idle_to_authenticated() {
    let mut manager = OAuthManager::new("cid".to_string(), default_scopes());
    let (flow, step) = manager.authenticate(AuthFlow::Idle, Event::Proceed, 10);
    assert_eq!(flow, AuthFlow::CodeRequested);
    match step {
        AuthStep::Send(request) => {
            assert_eq!(request.url, "https://id.twitch.tv/oauth2/device");
            assert_eq!(
                form_of(&request),
                vec![
                    ("client_id", "cid"),
                    ("scopes", "chat:read chat:edit user:read:email user:write:chat"),
                ]
            );
        }
        other => panic!("unexpected step: {:?}", other),
    }
    let body = "{\"device_code\":\"test_device_code\",\"expires_in\":60,\"interval\":5,\"user_code\":\"ABCDEFGH\",\"verification_uri\":\"https://www.twitch.tv/activate\"}";
    let (flow, step) = manager.authenticate(flow, replied(200, body), 11);
    assert_eq!(flow, AuthFlow::Polling { device_code: device_code(60, 5), started_at: 11 });
    match step {
        AuthStep::Display { verification_uri, user_code } => {
            assert_eq!(verification_uri, "https://www.twitch.tv/activate");
            assert_eq!(user_code, "ABCDEFGH");
        }
        other => panic!("unexpected step: {:?}", other),
    }
    let (flow, step) = manager.authenticate(flow, Event::Proceed, 12);
    assert!(matches!(step, AuthStep::Send(_)));
    let (flow, step) = manager.authenticate(flow, replied(400, "authorization_pending"), 13);
    assert!(matches!(step, AuthStep::Wait(5)));
    let (flow, step) = manager.authenticate(flow, Event::Proceed, 18);
    assert!(matches!(step, AuthStep::Send(_)));
    assert!(!manager.is_authenticated());
    let (flow, step) = manager.authenticate(flow, replied(200, &token_body("granted", 9000)), 19);
    assert_eq!(flow, AuthFlow::Authenticated);
    assert!(matches!(step, AuthStep::Done(Ok(()))));
    assert_eq!(manager.get_token(), Some(sample_token("granted", 9000)));
    assert_eq!(manager.obtained_at(), Some(19));
    let (flow, step) = manager.authenticate(flow, Event::Proceed, 20);
    assert_eq!(flow, AuthFlow::Authenticated);
    assert!(matches!(step, AuthStep::Done(Ok(()))));
}

#[test]
fn device_code_flow_can_time_out_or_fail() {
    let mut manager = OAuthManager::new("cid".to_string(), vec![]);
    let polling = || AuthFlow::Polling { device_code: device_code(60, 5), started_at: 100 };
    let (flow, step) = manager.authenticate(polling(), Event::Proceed, 160);
    assert_eq!(flow, AuthFlow::TimedOut);
    assert!(matches!(step, AuthStep::Done(Err(OAuthError::AuthFlowTimedOut))));
    let (flow, step) = manager.authenticate(flow, Event::Proceed, 161);
    assert_eq!(flow, AuthFlow::TimedOut);
    assert!(matches!(step, AuthStep::Done(Err(OAuthError::AuthFlowTimedOut))));

    let (flow, step) = manager.authenticate(polling(), replied(403, "access_denied"), 120);
    assert_eq!(flow, AuthFlow::Failed("access_denied".to_string()));
    match step {
        AuthStep::Done(Err(error)) => assert_eq!(error, OAuthError::AuthFlowFailed("access_denied".to_string())),
        other => panic!("unexpected step: {:?}", other),
    }
    let (flow, step) = manager.authenticate(flow, Event::Proceed, 121);
    assert_eq!(flow, AuthFlow::Failed("access_denied".to_string()));
    match step {
        AuthStep::Done(Err(error)) => assert_eq!(error, OAuthError::AuthFlowFailed("access_denied".to_string())),
        other => panic!("unexpected step: {:?}", other),
    }

    let (flow, step) = manager.authenticate(
        AuthFlow::CodeRequested,
        replied(400, "{\"status\":400,\"message\":\"bad client\"}"),
        5,
    );
    assert_eq!(flow, AuthFlow::Failed("bad client".to_string()));
    assert!(matches!(step, AuthStep::Done(Err(OAuthError::AuthFlowFailed(_)))));

    for (flow, event) in [
        (AuthFlow::Idle, replied(200, "{}")),
        (AuthFlow::CodeRequested, Event::Proceed),
    ] {
        let (flow, step) = manager.authenticate(flow, event, 5);
        assert_eq!(flow, AuthFlow::Failed("event out of step with the flow".to_string()));
        match step {
            AuthStep::Done(Err(error)) => assert_eq!(
                error,
                OAuthError::AuthFlowFailed("event out of step with the flow".to_string())
            ),
            other => panic!("unexpected step: {:?}", other),
        }
    }
    assert!(!manager.is_authenticated());
}

#[test]
fn errors_are_reported_in_words() {
    assert_eq!(OAuthError::Unauthenticated.message(), "Not authenticated");
    assert_eq!(OAuthError::CorruptToken.message(), "Stored token is not readable");
    assert_eq!(OAuthError::NothingToSave.message(), "No token to save");
    assert_eq!(OAuthError::Unprintable.message(), "Token could not be written as JSON");
    assert_eq!(OAuthError::AuthFlowFailed("x".to_string()).clone(), OAuthError::AuthFlowFailed("x".to_string()));
    assert_eq!(device_code(1, 2).clone(), device_code(1, 2));
}

#[test]
fn session_plans_follow_the_stored_token() {
    let stored = token_body("stored", 14000);
    let fresh_manager = || OAuthManager::new("cid".to_string(), default_scopes());

    let mut manager = fresh_manager();
    assert_eq!(authenticate(&mut manager, false, Some(stored.as_str()), 3), SessionPlan::UseHeld);
    assert_eq!(manager.get_token(), Some(sample_token("stored", 14000)));
    assert_eq!(manager.obtained_at(), Some(3));

    let mut manager = fresh_manager();
    assert_eq!(authenticate(&mut manager, true, Some(stored.as_str()), 3), SessionPlan::RunDeviceFlow);
    assert!(!manager.is_authenticated());
    assert_eq!(authenticate(&mut manager, false, None, 3), SessionPlan::RunDeviceFlow);
    assert_eq!(authenticate(&mut manager, false, Some("garbage"), 3), SessionPlan::RunDeviceFlow);
    assert!(!manager.is_authenticated());

    let mut manager = fresh_manager();
    assert_eq!(ensure_session_ready(&mut manager, None, 3), SessionPlan::RunDeviceFlow);
    assert_eq!(ensure_session_ready(&mut manager, Some("garbage"), 3), SessionPlan::RunDeviceFlow);
    assert_eq!(ensure_session_ready(&mut manager, Some(stored.as_str()), 4), SessionPlan::UseHeld);
    assert_eq!(manager.obtained_at(), Some(4));
    assert_eq!(ensure_session_ready(&mut manager, Some("garbage"), 5), SessionPlan::UseHeld);
    assert_eq!(ensure_session_ready(&mut manager, None, 6), SessionPlan::UseHeld);
    assert_eq!(manager.obtained_at(), Some(4));
    assert_eq!(
        default_scopes(),
        vec!["chat:read", "chat:edit", "user:read:email", "user:write:chat"]
    );
}
