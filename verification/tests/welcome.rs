use som_chatbot::message::ChatMessage;
use som_chatbot::users::welcome::{welcome_from, MockTwitchClient, Welcome};
use som_chatbot::users::{UserManager, WelcomeService};

fn create_test_message(user_id: &str, username: &str) -> ChatMessage {
    ChatMessage {
        channel_login: "test_channel".to_string(),
        message_text: "Hello!".to_string(),
        sender_id: user_id.to_string(),
        sender_login: username.to_lowercase(),
        sender_name: username.to_string(),
        message_id: "abc".to_string(),
        received_at: 0,
    }
}

#[test]
fn test_welcome_service_random() {
    let mut client = MockTwitchClient {};
    let user_manager = UserManager::new("users.txt");

    let custom_messages = vec!["Welcome, {username}!".to_string(), "Hello, {username}!".to_string()];

    let mut welcome_service = WelcomeService::new(user_manager, Some(custom_messages));

    // Process first message from user1 (should be welcomed)
    let msg1 = create_test_message("user1", "User1");
    let first = welcome_service.process_message(&msg1).unwrap();
    assert_eq!(first.channel, "test_channel");
    assert!(first.message == "Welcome, User1!" || first.message == "Hello, User1!");
    assert!(client.send_message(&first.channel, &first.message, &first.channel).is_ok());

    // Process second message from user1 (should not be welcomed again)
    let msg2 = create_test_message("user1", "User1");
    assert_eq!(welcome_service.process_message(&msg2), None);

    // Process message from user2 (should be welcomed)
    let msg3 = create_test_message("user2", "User2");
    assert!(welcome_service.process_message(&msg3).is_some());

    // Verify users are saved
    assert!(welcome_service.user_manager().is_known("user1"));
    assert!(welcome_service.user_manager().is_known("user2"));
    assert!(!welcome_service.user_manager().is_known("user3"));
}

#[test]
fn test_welcome_service_ai() {
    let user_manager = UserManager::new("users.txt");
    let mut welcome_service = WelcomeService::new(user_manager, None);

    welcome_service.set_use_ai(true);

    let msg = create_test_message("user3", "User3");
    let welcome = welcome_service.process_message(&msg);
    assert_eq!(
        welcome,
        Some(Welcome {
            channel: "test_channel".to_string(),
            message:
                "AI welcomes you to the channel, User3! This message would normally be AI-generated."
                    .to_string(),
        })
    );

    assert!(welcome_service.user_manager().is_known("user3"));
}

#[test]
fn test_random_welcome_message() {
    let user_manager = UserManager::new("test.txt");

    let messages = vec!["Welcome, {username}!".to_string(), "Hello, {username}!".to_string()];

    let service = WelcomeService::new(user_manager, Some(messages));

    let message = service.get_random_welcome_message("TestUser");

    assert!(message == "Welcome, TestUser!" || message == "Hello, TestUser!");
}

#[test]
fn default_templates_welcome_by_name() {
    let service = WelcomeService::new(UserManager::new("u"), None);
    let defaults = [
        "Welcome to the channel, Ann! Thanks for dropping by!",
        "Hey Ann! Great to see you here for the first time!",
        "Welcome aboard, Ann! Hope you enjoy the stream!",
        "A wild Ann appears! Welcome to the stream!",
        "Welcome, Ann! Make yourself at home!",
        "Thanks for joining us, Ann! Glad to have you here!",
        "First time here, Ann? Welcome to the community!",
        "Ann has entered the chat! Welcome!",
        "Welcome to the stream, Ann! Don't forget to follow if you enjoy the content!",
        "Hello, Ann! Welcome to the channel!",
    ];
    for _ in 0..50 {
        let message = service.get_random_welcome_message("Ann");
        assert!(defaults.contains(&message.as_str()), "unexpected welcome: {}", message);
    }
}

#[test]
fn empty_templates_fall_back() {
    let mut service = WelcomeService::new(UserManager::new("u"), Some(vec![]));
    assert_eq!(service.get_random_welcome_message("Bo"), "Welcome, Bo!");
    service.add_welcome_message("Hi {username}, {username}!".to_string());
    assert_eq!(service.get_random_welcome_message("Bo"), "Hi Bo, Bo!");
    service.set_welcome_messages(vec!["plain".to_string()]);
    assert_eq!(service.get_random_welcome_message("Bo"), "plain");
}

#[test]
fn template_is_filled_like_replace() {
    for template in ["{username}", "a{username}b{username}", "{user{username}name}", "{username", ""] {
        let owned = template.to_string();
        assert_eq!(welcome_from(Some(&owned), "X{username}"), template.replace("{username}", "X{username}"));
    }
    assert_eq!(welcome_from(None, "Kim"), "Welcome, Kim!");
}

#[test]
fn disabled_service_sees_nobody() {
    let mut service = WelcomeService::new(UserManager::new("u"), None);
    service.set_enabled(false);
    assert_eq!(service.process_message(&create_test_message("id1", "One")), None);
    assert!(!service.user_manager().is_known("id1"));
    service.set_enabled(true);
    assert!(service.process_message(&create_test_message("id1", "One")).is_some());
    assert!(service.user_manager().is_known("id1"));
}

#[test]
fn service_loads_known_users() {
    let mut service = WelcomeService::new(UserManager::new("u"), None);
    service.load_users(Some("id1\nid2\n"));
    assert_eq!(service.process_message(&create_test_message("id1", "One")), None);
    assert!(service.process_message(&create_test_message("id3", "Three")).is_some());
    assert_eq!(service.user_manager().save(), "id1\nid2\nid3");
}
