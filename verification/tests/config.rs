use som_chatbot::cli::{generate_env_file, Cli, Commands, Task};
use som_chatbot::config::{Config, ConfigError};

#[test]
fn test_config_from_env() {
    let config = Config::new(
        "test_client_id".to_string(),
        "test_channel".to_string(),
        "test_bot".to_string(),
        "./test_data".to_string(),
    );

    assert_eq!(config.client_id, "test_client_id");
    assert_eq!(config.channel_name, "test_channel");
    assert_eq!(config.bot_username, "test_bot");
    assert_eq!(config.data_dir, "./test_data");
    assert_eq!(config.get_token_path(), "./test_data/oauth_token.json");
}

#[test]
fn test_config_missing_env_vars() {
    let some = |s: &str| Some(s.to_string());
    assert_eq!(
        Config::from_env(None, some("c"), some("b"), None),
        Err(ConfigError::MissingClientId)
    );
    assert_eq!(Config::from_env(None, None, None, None), Err(ConfigError::MissingClientId));
    assert_eq!(Config::from_env(some("i"), None, None, None), Err(ConfigError::MissingChannel));
    assert_eq!(
        Config::from_env(some("i"), some("c"), None, some("d")),
        Err(ConfigError::MissingBotUsername)
    );
    assert_eq!(
        ConfigError::MissingClientId.message(),
        "TWITCH_CLIENT_ID environment variable not set"
    );
    assert_eq!(
        ConfigError::MissingChannel.message(),
        "TWITCH_CHANNEL environment variable not set"
    );
    assert_eq!(
        ConfigError::MissingBotUsername.message(),
        "TWITCH_BOT_USERNAME environment variable not set"
    );
}

#[test]
fn config_from_settings_defaults_the_data_directory() {
    let some = |s: &str| Some(s.to_string());
    let config = Config::from_env(some("id"), some("chan"), some("bot"), None).unwrap();
    assert_eq!(config.client_id, "id");
    assert_eq!(config.channel_name, "chan");
    assert_eq!(config.bot_username, "bot");
    assert_eq!(config.data_dir, "./data");
    assert_eq!(config.get_token_path(), "./data/oauth_token.json");
    assert_eq!(config.get_users_path(), "./data/known_users.txt");

    let config = Config::from_env(some("id"), some("chan"), some("bot"), some("/var/bot")).unwrap();
    assert_eq!(config.data_dir, "/var/bot");
    assert_eq!(config.get_users_path(), "/var/bot/known_users.txt");
}

#[test]
fn channel_override_replaces_only_the_channel() {
    let mut config = Config::new("i".into(), "configured".into(), "b".into(), "d".into());
    config.override_channel(None);
    assert_eq!(config.channel_name, "configured");
    config.override_channel(Some("other".to_string()));
    assert_eq!(config, Config::new("i".into(), "other".into(), "b".into(), "d".into()));
}

#[test]
fn command_line_names_its_task() {
    let cli = |command| Cli { config: None, debug: true, prefix: "!".to_string(), command };
    assert_eq!(
        cli(None).task(),
        Task::Start { debug: true, prefix: "!".to_string(), channel: None }
    );
    assert_eq!(
        cli(Some(Commands::Start { channel: Some("somewhere".to_string()) })).task(),
        Task::Start { debug: true, prefix: "!".to_string(), channel: Some("somewhere".to_string()) }
    );
    assert_eq!(
        cli(Some(Commands::GenEnv { path: ".env.example".to_string() })).task(),
        Task::GenEnv { path: ".env.example".to_string() }
    );
    assert_eq!(cli(Some(Commands::Auth { force: true })).task(), Task::Auth { force: true });
}

#[test]
fn sample_environment_file_names_every_setting() {
    let text = generate_env_file();
    assert!(text.starts_with("# Your Twitch client ID"));
    assert!(text.contains("\nTWITCH_CLIENT_ID=your_client_id_here\n"));
    assert!(text.contains("\nTWITCH_CHANNEL=channel_name\n"));
    assert!(text.contains("\nTWITCH_BOT_USERNAME=your_bot_username\n"));
    assert!(text.ends_with("# DATA_DIR=./data\n"));
    assert_eq!(text.lines().count(), 8);
}
