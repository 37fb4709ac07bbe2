//! The command line as plain values, and what it asks the program to do.

use vstd::prelude::*;

verus! {

/// The subcommands.
#[derive(Debug, PartialEq, Eq)]
pub enum Commands {
    /// Start the bot, in `channel` if one is given.
    Start { channel: Option<String> },
    /// Write a sample environment file to `path`.
    GenEnv { path: String },
    /// Obtain a credential, anew if `force` is set.
    Auth { force: bool },
}

/// The arguments of the command line.
#[derive(Debug, PartialEq, Eq)]
pub struct Cli {
    /// A configuration file to use.
    pub config: Option<String>,
    /// Whether to log in detail.
    pub debug: bool,
    /// What a chat command begins with.
    pub prefix: String,
    /// The subcommand, if one was given.
    pub command: Option<Commands>,
}

/// What a run of the program is for.
#[derive(Debug, PartialEq, Eq)]
pub enum Task {
    Start { debug: bool, prefix: String, channel: Option<String> },
    GenEnv { path: String },
    Auth { force: bool },
}

pub enum TaskView {
    Start { debug: bool, prefix: Seq<char>, channel: Option<Seq<char>> },
    GenEnv { path: Seq<char> },
    Auth { force: bool },
}

impl View for Task {
    type V = TaskView;

    open spec fn view(&self) -> TaskView {
        match self {
            Task::Start { debug, prefix, channel } => TaskView::Start {
                debug: *debug,
                prefix: prefix@,
                channel: channel.deep_view(),
            },
            Task::GenEnv { path } => TaskView::GenEnv { path: path@ },
            Task::Auth { force } => TaskView::Auth { force: *force },
        }
    }
}

/// The task that a command line names. Without a subcommand the bot starts in
/// the configured channel.
pub open spec fn task_of(cli: Cli) -> TaskView {
    match cli.command {
        Some(Commands::Start { channel }) => TaskView::Start {
            debug: cli.debug,
            prefix: cli.prefix@,
            channel: channel.deep_view(),
        },
        Some(Commands::GenEnv { path }) => TaskView::GenEnv { path: path@ },
        Some(Commands::Auth { force }) => TaskView::Auth { force },
        None => TaskView::Start { debug: cli.debug, prefix: cli.prefix@, channel: None },
    }
}

/// The sample environment file.
pub open spec fn env_file_template() -> Seq<char> {
    "# Your Twitch client ID (get one from Twitch Developer Dashboard)\nTWITCH_CLIENT_ID=your_client_id_here\n# The channel to join\nTWITCH_CHANNEL=channel_name\n# The bot's username\nTWITCH_BOT_USERNAME=your_bot_username\n# Optional: Data directory for storing tokens and user data\n# DATA_DIR=./data\n"@
}

/// The text of the sample environment file.
pub fn generate_env_file() -> (r: String)
    ensures
        r@ == env_file_template(),
{
    String::from_str(
        "# Your Twitch client ID (get one from Twitch Developer Dashboard)\nTWITCH_CLIENT_ID=your_client_id_here\n# The channel to join\nTWITCH_CHANNEL=channel_name\n# The bot's username\nTWITCH_BOT_USERNAME=your_bot_username\n# Optional: Data directory for storing tokens and user data\n# DATA_DIR=./data\n",
    )
}

impl Cli {
    /// What this command line asks for.
    pub fn task(&self) -> (r: Task)
        ensures
            r@ == task_of(*self),
    {
        match &self.command {
            Some(Commands::Start { channel }) => Task::Start {
                debug: self.debug,
                prefix: self.prefix.clone(),
                channel: match channel {
                    Some(name) => Some(name.clone()),
                    None => None,
                },
            },
            Some(Commands::GenEnv { path }) => Task::GenEnv { path: path.clone() },
            Some(Commands::Auth { force }) => Task::Auth { force: *force },
            None => Task::Start { debug: self.debug, prefix: self.prefix.clone(), channel: None },
        }
    }
}

} // verus!
