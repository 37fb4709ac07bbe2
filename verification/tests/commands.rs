use som_chatbot::commands::basic::{HelpCommand, PingCommand, UptimeCommand};
use som_chatbot::commands::eight_ball::{response_from, EightBallCommand};
use som_chatbot::commands::handler::{CommandHandler, HandlerState};
use som_chatbot::commands::{owned_args, position, Command, CommandError, CommandRegistry};
use som_chatbot::http::{HttpMethod, HttpOutcome};
use som_chatbot::message::ChatMessage;
use som_chatbot::session::command_descriptions;
use som_chatbot::twitch::client::{ClientEvent, ClientStep, DeliveryError, SendState, TwitchClient};
use som_chatbot::twitch::helix::{CallPhase, HelixError};
use som_chatbot::twitch::oauth::OAuthManager;
use std::sync::Arc;

fn create_dummy_privmsg() -> ChatMessage {
    ChatMessage {
        channel_login: "test_channel".to_string(),
        message_text: "!test".to_string(),
        sender_id: "123".to_string(),
        sender_login: "test_user".to_string(),
        sender_name: "Test_User".to_string(),
        message_id: "abc".to_string(),
        received_at: 0,
    }
}

fn message_saying(text: &str) -> ChatMessage {
    ChatMessage { message_text: text.to_string(), ..create_dummy_privmsg() }
}

struct TestCommand;

impl Command for TestCommand {
    fn execute(&self, _msg: &ChatMessage, args: Vec<&str>) -> Result<Option<String>, CommandError> {
        Ok(Some(format!("Test command executed with {} args", args.len())))
    }

    fn help(&self) -> &str {
        "A test command"
    }
}

struct EchoCommand;

impl Command for EchoCommand {
    fn execute(&self, _msg: &ChatMessage, args: Vec<&str>) -> Result<Option<String>, CommandError> {
        Ok(Some(args.join("|")))
    }

    fn help(&self) -> &str {
        "Repeats its arguments"
    }
}

struct SilentCommand;

impl Command for SilentCommand {
    fn execute(&self, _msg: &ChatMessage, _args: Vec<&str>) -> Result<Option<String>, CommandError> {
        Ok(None)
    }

    fn help(&self) -> &str {
        "Says nothing"
    }
}

struct BrokenCommand;

impl Command for BrokenCommand {
    fn execute(&self, _msg: &ChatMessage, _args: Vec<&str>) -> Result<Option<String>, CommandError> {
        Err(CommandError { reason: "broken".to_string() })
    }

    fn help(&self) -> &str {
        "Fails"
    }
}

fn ready_client() -> TwitchClient {
    let mut manager = OAuthManager::new("client-id".to_string(), vec!["chat:read".to_string()]);
    let stored = "{\"access_token\":\"tok\",\"expires_in\":14000,\"refresh_token\":\"ref\",\"scope\":[],\"token_type\":\"bearer\"}";
    assert_eq!(manager.load_token(Some(stored), 0), Ok(()));
    TwitchClient::new(manager)
}

fn reply(status: u16, body: &str) -> ClientEvent {
    ClientEvent::Http(HttpOutcome::Reply { status, body: body.to_string() })
}

#[test]
fn test_ping_command() {
    let command = PingCommand;

    let msg = create_dummy_privmsg();

    let result = command.execute(&msg, Vec::new()).unwrap();

    assert!(result.unwrap().contains("Pong!"));
}

#[test]
fn ping_names_sender_and_text() {
    let msg = create_dummy_privmsg();
    assert_eq!(
        PingCommand.execute(&msg, vec!["ignored"]),
        Ok(Some("Pong! Received from Test_User who said: !test".to_string()))
    );
    assert_eq!(PingCommand.reply(&msg), "Pong! Received from Test_User who said: !test");
    assert_eq!(PingCommand.help(), "Responds with Pong!");
}

#[test]
fn test_help_command() {
    let descriptions = vec![
        ("ping".to_string(), "Responds with Pong!".to_string()),
        ("help".to_string(), "Shows help information".to_string()),
    ];

    let command = HelpCommand::new("!".to_string(), descriptions);

    let msg = create_dummy_privmsg();

    let result = command.execute(&msg, Vec::new()).unwrap();
    assert_eq!(result, Some("Available commands: !ping, !help".to_string()));

    let result = command.execute(&msg, vec!["ping"]).unwrap();
    assert_eq!(result, Some("Responds with Pong!".to_string()));
}

#[test]
fn help_ignores_case_and_reports_unknown_commands() {
    let command = HelpCommand::new(
        "?".to_string(),
        vec![
            ("Ping".to_string(), "first".to_string()),
            ("ping".to_string(), "second".to_string()),
            ("8ball".to_string(), "third".to_string()),
        ],
    );
    let msg = create_dummy_privmsg();
    assert_eq!(command.execute(&msg, vec!["PING", "extra"]), Ok(Some("first".to_string())));
    assert_eq!(command.execute(&msg, vec!["8Ball"]), Ok(Some("third".to_string())));
    assert_eq!(
        command.execute(&msg, vec!["Dance"]),
        Ok(Some("Unknown command: ?dance".to_string()))
    );
    assert_eq!(
        command.execute(&msg, vec![]),
        Ok(Some("Available commands: ?Ping, ?ping, ?8ball".to_string()))
    );
    assert_eq!(command.help(), "Shows help information for available commands");
    let empty = HelpCommand::new("!".to_string(), vec![]);
    assert_eq!(empty.execute(&msg, vec![]), Ok(Some("Available commands: ".to_string())));
}

#[test]
fn help_describes_the_offered_commands() {
    let command = HelpCommand::new("!".to_string(), command_descriptions());
    let msg = create_dummy_privmsg();
    assert_eq!(
        command.execute(&msg, vec![]),
        Ok(Some("Available commands: !ping, !uptime, !help, !8ball".to_string()))
    );
    assert_eq!(
        command.execute(&msg, vec!["uptime"]),
        Ok(Some("Shows how long the bot has been running".to_string()))
    );
}

#[test]
fn uptime_counts_hours_minutes_and_seconds() {
    assert_eq!(UptimeCommand::reply(0), "Bot has been running for 0h 0m 0s");
    assert_eq!(UptimeCommand::reply(59), "Bot has been running for 0h 0m 59s");
    assert_eq!(UptimeCommand::reply(3600), "Bot has been running for 1h 0m 0s");
    assert_eq!(UptimeCommand::reply(3725), "Bot has been running for 1h 2m 5s");
    assert_eq!(UptimeCommand::reply(360_000 + 59 * 60 + 59), "Bot has been running for 100h 59m 59s");
    assert_eq!(
        UptimeCommand::reply(u64::MAX),
        format!("Bot has been running for {}h 0m 15s", u64::MAX / 3600)
    );

    let command = UptimeCommand::new(100);
    let msg = ChatMessage { received_at: 100 + 7384, ..create_dummy_privmsg() };
    assert_eq!(command.execute(&msg, vec![]), Ok(Some("Bot has been running for 2h 3m 4s".to_string())));
    let early = ChatMessage { received_at: 5, ..create_dummy_privmsg() };
    assert_eq!(command.execute(&early, vec![]), Ok(Some("Bot has been running for 0h 0m 0s".to_string())));
    assert_eq!(command.help(), "Shows how long the bot has been running");
}

#[test]
fn test_eight_ball_command_no_args() {
    let command = EightBallCommand::new();
    let msg = create_dummy_privmsg();

    let result = command.execute(&msg, Vec::new()).unwrap();
    assert_eq!(result, Some("Ask me a question and I shall reveal your fate!".to_string()));
}

#[test]
fn test_eight_ball_command_with_question() {
    let command = EightBallCommand::new();
    let msg = create_dummy_privmsg();

    let result = command.execute(&msg, vec!["Will", "I", "win?"]).unwrap();

    let result = result.unwrap();
    assert!(result.starts_with("@Test_User asked: Will I win? ðŸŽ± "));
    assert!(result.len() > 30);
}

#[test]
fn eight_ball_answers_from_its_table() {
    let answers = [
        "It is certain.",
        "It is decidedly so.",
        "Without a doubt.",
        "Yes definitely.",
        "You may rely on it.",
        "As I see it, yes.",
        "Most likely.",
        "Outlook good.",
        "Yes.",
        "Signs point to yes.",
        "Don't count on it.",
        "My reply is no.",
        "My sources say no.",
        "Outlook not so good.",
        "Very doubtful.",
        "Reply hazy, try again.",
        "Ask again later.",
        "Better not tell you now.",
        "Cannot predict now.",
        "Concentrate and ask again.",
        "Maybe...",
        "I'm not sure about that.",
        "The answer is unclear.",
        "Could go either way.",
        "The future is uncertain on this.",
    ];
    let command = EightBallCommand::default();
    let mut seen = std::collections::HashSet::new();
    for _ in 0..400 {
        let answer = command.get_response("anything");
        assert!(answers.contains(&answer.as_str()), "unexpected answer: {}", answer);
        seen.insert(answer);
    }
    assert!(seen.len() > 1);
    assert_eq!(
        command.help(),
        "Ask the Magic 8-Ball a yes/no question. Usage: !8ball <question>"
    );
}

#[test]
fn eight_ball_reply_is_spelled_out() {
    let msg = create_dummy_privmsg();
    let args = owned_args(&vec!["Will", "it", "rain?"]);
    assert_eq!(args, vec!["Will".to_string(), "it".to_string(), "rain?".to_string()]);
    assert_eq!(
        EightBallCommand::reply(&msg, &args, "Maybe..."),
        "@Test_User asked: Will it rain? ðŸŽ± Maybe..."
    );
    let drawn = "Yes.".to_string();
    assert_eq!(response_from(Some(&drawn)), "Yes.");
    assert_eq!(response_from(None), "The magic 8-ball is cloudy right now.");
}

#[test]
fn position_is_that_of_the_first_match() {
    let names = vec!["b".to_string(), "a".to_string(), "b".to_string()];
    assert_eq!(position(&names, "b"), 0);
    assert_eq!(position(&names, "a"), 1);
    assert_eq!(position(&names, "c"), 3);
    assert_eq!(position(&names, "B"), 3);
    assert_eq!(position(&vec![], "a"), 0);
}

#[test]
fn shared_command_answers_as_its_command() {
    let msg = create_dummy_privmsg();
    let shared = Arc::new(PingCommand);
    assert_eq!(shared.execute(&msg, vec!["a"]), PingCommand.execute(&msg, vec!["a"]));
    assert_eq!(shared.help(), PingCommand.help());
    let echo: Arc<dyn Command> = Arc::new(EchoCommand);
    assert_eq!(echo.execute(&msg, vec!["x", "y"]), Ok(Some("x|y".to_string())));
    assert_eq!(echo.help(), "Repeats its arguments");
    let twice = Arc::new(Arc::new(BrokenCommand));
    assert_eq!(
        twice.execute(&msg, vec![]),
        Err(CommandError { reason: "broken".to_string() })
    );
    assert_eq!(twice.help(), "Fails");
}

#[test]
fn test_command_registry() {
    let mut registry = CommandRegistry::new();
    let cmd = Arc::new(TestCommand);

    registry.register("test", cmd);

    assert!(registry.has_command("test"));
    assert!(!registry.has_command("unknown"));

    assert!(registry.get_command("test").is_some());
    assert!(registry.get_command("unknown").is_none());
}

#[test]
fn registry_finds_commands_of_many_kinds_by_name() {
    let mut registry: CommandRegistry<Arc<dyn Command>> = CommandRegistry::new();
    assert_eq!(registry.get_command_names(), Vec::<String>::new());
    registry.register("ping", Arc::new(PingCommand));
    registry.register("test", Arc::new(TestCommand));
    registry.register("8ball", Arc::new(EightBallCommand::new()));
    assert_eq!(registry.get_command_names(), vec!["ping", "test", "8ball"]);
    assert_eq!(registry.get_command("test").unwrap().help(), "A test command");
    assert_eq!(registry.get_command("ping").unwrap().help(), "Responds with Pong!");
    assert!(!registry.has_command("Ping"));
    assert!(!registry.has_command(""));

    registry.register("ping", Arc::new(EchoCommand));
    assert_eq!(registry.get_command_names(), vec!["ping", "test", "8ball"]);
    assert_eq!(registry.get_command("ping").unwrap().help(), "Repeats its arguments");
    let msg = create_dummy_privmsg();
    assert_eq!(
        registry.get_command("test").unwrap().execute(&msg, vec!["a", "b"]),
        Ok(Some("Test command executed with 2 args".to_string()))
    );
}

#[test]
fn handler_reads_the_call_out_of_a_message() {
    let handler = CommandHandler::new("!".to_string(), "bot".to_string());
    assert_eq!(handler.parse("!ping"), Some(("ping".to_string(), vec![])));
    assert_eq!(
        handler.parse("  !8Ball   Will I\twin?  "),
        Some(("8ball".to_string(), vec!["Will".to_string(), "I".to_string(), "win?".to_string()]))
    );
    assert_eq!(handler.parse("! spaced out"), Some(("spaced".to_string(), vec!["out".to_string()])));
    assert_eq!(handler.parse("hello"), None);
    assert_eq!(handler.parse("hello !ping"), None);
    assert_eq!(handler.parse("!"), None);
    assert_eq!(handler.parse("   !   "), None);
    assert_eq!(handler.parse(""), None);

    let long = CommandHandler::new("bot:".to_string(), "bot".to_string());
    assert_eq!(long.parse("bot:HELP me"), Some(("help".to_string(), vec!["me".to_string()])));
    assert_eq!(long.parse("bot"), None);
    let none = CommandHandler::new(String::new(), "bot".to_string());
    assert_eq!(none.parse("Ping now"), Some(("ping".to_string(), vec!["now".to_string()])));
}

#[test]
fn handler_ends_at_once_without_an_answer() {
    let handler = CommandHandler::new("!".to_string(), "bot".to_string());
    let mut registry: CommandRegistry<Arc<dyn Command>> = CommandRegistry::new();
    registry.register("silent", Arc::new(SilentCommand));
    registry.register("broken", Arc::new(BrokenCommand));
    let mut client = ready_client();
    for text in ["just talking", "!unknown", "!silent", "!broken now"] {
        let (state, step) = handler.handle_message(
            &registry,
            &mut client,
            HandlerState::Start,
            &message_saying(text),
            ClientEvent::Proceed,
            10,
        );
        assert_eq!(state, HandlerState::Start);
        match step {
            ClientStep::Done(Ok(())) => {}
            other => panic!("unexpected step for {:?}: {:?}", text, other),
        }
    }
}

#[test]
fn handler_replies_and_falls_back_to_a_plain_message() {
    let handler = CommandHandler::new("!".to_string(), "bot".to_string());
    let mut registry: CommandRegistry<Arc<dyn Command>> = CommandRegistry::new();
    registry.register("echo", Arc::new(EchoCommand));
    let mut client = ready_client();
    let msg = ChatMessage {
        channel_login: "#Test_Channel".to_string(),
        ..message_saying("!ECHO one two")
    };

    // The answer goes out as a reply: first the bot is looked up.
    let (state, step) =
        handler.handle_message(&registry, &mut client, HandlerState::Start, &msg, ClientEvent::Proceed, 10);
    assert_eq!(
        state,
        HandlerState::Replying { response: "one|two".to_string(), phase: CallPhase::Requesting }
    );
    match step {
        ClientStep::Http(request) => {
            assert_eq!(request.url, "https://api.twitch.tv/helix/users");
            assert!(request.query.is_empty());
        }
        other => panic!("unexpected step: {:?}", other),
    }
    let (state, step) = handler.handle_message(
        &registry,
        &mut client,
        state,
        &msg,
        reply(200, "{\"data\":[{\"id\":\"1\"}]}"),
        10,
    );
    match step {
        ClientStep::Http(request) => {
            assert_eq!(request.query, vec![("login".to_string(), "test_channel".to_string())]);
        }
        other => panic!("unexpected step: {:?}", other),
    }
    let (state, step) = handler.handle_message(
        &registry,
        &mut client,
        state,
        &msg,
        reply(200, "{\"data\":[{\"id\":\"2\"}]}"),
        10,
    );
    match step {
        ClientStep::Http(request) => {
            assert_eq!(request.method, HttpMethod::Post);
            let body = request.json.unwrap();
            assert_eq!(body["message"], "one|two");
            assert_eq!(body["reply_parent_message_id"], "abc");
            assert_eq!(body["broadcaster_id"], "2");
            assert_eq!(body["sender_id"], "1");
        }
        other => panic!("unexpected step: {:?}", other),
    }
    assert_eq!(
        state,
        HandlerState::Replying { response: "one|two".to_string(), phase: CallPhase::Requesting }
    );

    // The reply is refused: the answer is said as a plain message instead.
    let (state, step) =
        handler.handle_message(&registry, &mut client, state, &msg, reply(500, "no replies today"), 10);
    assert_eq!(
        state,
        HandlerState::Sending { response: "one|two".to_string(), state: SendState::Saying }
    );
    match step {
        ClientStep::Say { channel, message } => {
            assert_eq!(channel, "test_channel");
            assert_eq!(message, "one|two");
        }
        other => panic!("unexpected step: {:?}", other),
    }
    let (state, step) =
        handler.handle_message(&registry, &mut client, state, &msg, ClientEvent::Stream(Ok(())), 10);
    assert_eq!(state, HandlerState::Start);
    match step {
        ClientStep::Done(Ok(())) => {}
        other => panic!("unexpected step: {:?}", other),
    }
}

#[test]
fn handler_reports_when_both_ways_fail() {
    let handler = CommandHandler::new("!".to_string(), "bot".to_string());
    let mut client = ready_client();
    let msg = message_saying("!anything");
    let (state, step) = handler.respond(&mut client, Ok(Some("answer".to_string())), &msg, 10);
    match step {
        ClientStep::Http(_) => {}
        other => panic!("unexpected step: {:?}", other),
    }
    let registry: CommandRegistry<Arc<dyn Command>> = CommandRegistry::new();
    let (state, step) =
        handler.handle_message(&registry, &mut client, state, &msg, reply(401, "denied"), 10);
    match step {
        ClientStep::Say { .. } => {}
        other => panic!("unexpected step: {:?}", other),
    }
    let (state, step) = handler.handle_message(
        &registry,
        &mut client,
        state,
        &msg,
        ClientEvent::Stream(Err("connection closed".to_string())),
        10,
    );
    match step {
        ClientStep::Http(_) => {}
        other => panic!("unexpected step: {:?}", other),
    }
    let (state, step) =
        handler.handle_message(&registry, &mut client, state, &msg, reply(503, "down"), 10);
    assert_eq!(state, HandlerState::Start);
    match step {
        ClientStep::Done(Err(error)) => {
            assert_eq!(
                error,
                DeliveryError::SendFailed(HelixError::LookupFailed("down".to_string()))
            );
            assert_eq!(error.message(), "Failed to send message: Failed to get user ID: down");
        }
        other => panic!("unexpected step: {:?}", other),
    }

    let (state, step) = handler.respond(&mut client, Ok(None), &msg, 10);
    assert_eq!(state, HandlerState::Start);
    assert!(matches!(step, ClientStep::Done(Ok(()))));
    let (_, step) =
        handler.respond(&mut client, Err(CommandError { reason: "no".to_string() }), &msg, 10);
    assert!(matches!(step, ClientStep::Done(Ok(()))));
}
