//! The welcome for those who speak in chat for the first time.

use crate::message::{ChatMessage, ChatMessageView};
use crate::text::replace_text;
use crate::twitch::client::DeliveryError;
use crate::users::{insert_sorted, UserManager, UserManagerView};
use vstd::prelude::*;

verus! {

/// A stand-in for the delivery client that sends nothing.
#[derive(Debug, Clone, Copy, PartialEq, Eq, Structural)]
pub struct MockTwitchClient {}

impl MockTwitchClient {
    /// Takes a message and reports success without sending it.
    pub fn send_message(&mut self, _channel: &str, _message: &str, _username: &str) -> (r: Result<
        (),
        DeliveryError,
    >)
        ensures
            r is Ok,
    {
        Ok(())
    }
}

/// A welcome to be sent: the channel and the text.
#[derive(Debug, PartialEq, Eq)]
pub struct Welcome {
    pub channel: String,
    pub message: String,
}

/// The templates that are used where none are given. `{username}` stands for the
/// name of the one who is welcomed.
pub open spec fn default_welcome_messages() -> Seq<Seq<char>> {
    seq![
        "Welcome to the channel, {username}! Thanks for dropping by!"@,
        "Hey {username}! Great to see you here for the first time!"@,
        "Welcome aboard, {username}! Hope you enjoy the stream!"@,
        "A wild {username} appears! Welcome to the stream!"@,
        "Welcome, {username}! Make yourself at home!"@,
        "Thanks for joining us, {username}! Glad to have you here!"@,
        "First time here, {username}? Welcome to the community!"@,
        "{username} has entered the chat! Welcome!"@,
        "Welcome to the stream, {username}! Don't forget to follow if you enjoy the content!"@,
        "Hello, {username}! Welcome to the channel!"@,
    ]
}

/// The template that is used where the list of templates is empty.
pub open spec fn fallback_template() -> Seq<char> {
    "Welcome, {username}!"@
}

/// A template with the name in every place that is held for it.
pub open spec fn fill_username(template: Seq<char>, username: Seq<char>) -> Seq<char> {
    replace_text(template, "{username}"@, username)
}

/// The welcome that is not drawn from the templates.
pub open spec fn ai_welcome(username: Seq<char>) -> Seq<char> {
    "AI welcomes you to the channel, "@ + username
        + "! This message would normally be AI-generated."@
}

/// `text` is a welcome that the templates can give: one of them filled in, or
/// the fallback filled in where there are none.
pub open spec fn is_welcome_from(
    templates: Seq<Seq<char>>,
    username: Seq<char>,
    text: Seq<char>,
) -> bool {
    if templates.len() == 0 {
        text == fill_username(fallback_template(), username)
    } else {
        exists|i: int| 0 <= i < templates.len() && text == fill_username(templates[i], username)
    }
}

/// The welcome that a drawn template gives; without one, the fallback's.
pub fn welcome_from(template: Option<&String>, username: &str) -> (r: String)
    ensures
        r@ == fill_username(
            match template {
                Some(text) => text@,
                None => fallback_template(),
            },
            username@,
        ),
{
    match template {
        Some(text) => crate::text::replace(text.as_str(), "{username}", username),
        None => crate::text::replace("Welcome, {username}!", "{username}", username),
    }
}

/// The service that welcomes first-time chatters.
pub struct WelcomeService {
    user_manager: UserManager,
    enabled: bool,
    welcome_messages: Vec<String>,
    use_ai: bool,
}

pub struct WelcomeView {
    pub users: UserManagerView,
    pub enabled: bool,
    pub welcome_messages: Seq<Seq<char>>,
    pub use_ai: bool,
}

impl View for WelcomeService {
    type V = WelcomeView;

    closed spec fn view(&self) -> WelcomeView {
        WelcomeView {
            users: self.user_manager@,
            enabled: self.enabled,
            welcome_messages: self.welcome_messages.deep_view(),
            use_ai: self.use_ai,
        }
    }
}

/// What the service does with a message. A service that is switched off does
/// nothing. Otherwise the sender becomes known, and is welcomed in the channel of
/// the message if that was not so before.
pub open spec fn welcome_step(service: WelcomeView, msg: ChatMessageView) -> (WelcomeView, bool) {
    if !service.enabled {
        (service, false)
    } else {
        (
            WelcomeView {
                users: UserManagerView {
                    known_users: insert_sorted(service.users.known_users, msg.sender_id),
                    ..service.users
                },
                ..service
            },
            !service.users.known_users.contains(msg.sender_id),
        )
    }
}

fn default_messages() -> (r: Vec<String>)
    ensures
        r.deep_view() == default_welcome_messages(),
{
    let mut r: Vec<String> = Vec::new();
    r.push(String::from_str("Welcome to the channel, {username}! Thanks for dropping by!"));
    r.push(String::from_str("Hey {username}! Great to see you here for the first time!"));
    r.push(String::from_str("Welcome aboard, {username}! Hope you enjoy the stream!"));
    r.push(String::from_str("A wild {username} appears! Welcome to the stream!"));
    r.push(String::from_str("Welcome, {username}! Make yourself at home!"));
    r.push(String::from_str("Thanks for joining us, {username}! Glad to have you here!"));
    r.push(String::from_str("First time here, {username}? Welcome to the community!"));
    r.push(String::from_str("{username} has entered the chat! Welcome!"));
    r.push(
        String::from_str(
            "Welcome to the stream, {username}! Don't forget to follow if you enjoy the content!",
        ),
    );
    r.push(String::from_str("Hello, {username}! Welcome to the channel!"));
    assert(r.deep_view() =~= default_welcome_messages());
    r
}

impl WelcomeService {
    /// A service over `user_manager` that is switched on and draws from
    /// `custom_messages`, or from the default templates where none are given.
    pub fn new(user_manager: UserManager, custom_messages: Option<Vec<String>>) -> (r: Self)
        ensures
            r@ == (WelcomeView {
                users: user_manager@,
                enabled: true,
                welcome_messages: match custom_messages {
                    Some(messages) => messages.deep_view(),
                    None => default_welcome_messages(),
                },
                use_ai: false,
            }),
    {
        let welcome_messages = match custom_messages {
            Some(messages) => messages,
            None => default_messages(),
        };
        WelcomeService { user_manager, enabled: true, welcome_messages, use_ai: false }
    }

    /// Switches the service on or off.
    pub fn set_enabled(&mut self, enabled: bool)
        ensures
            final(self)@ == (WelcomeView { enabled, ..old(self)@ }),
    {
        self.enabled = enabled;
    }

    /// Adds a template to draw from.
    pub fn add_welcome_message(&mut self, message: String)
        ensures
            final(self)@ == (WelcomeView {
                welcome_messages: old(self)@.welcome_messages.push(message@),
                ..old(self)@
            }),
    {
        let ghost before = self.welcome_messages.deep_view();
        self.welcome_messages.push(message);
        assert(self.welcome_messages.deep_view() =~= before.push(message@));
    }

    /// Replaces the templates to draw from.
    pub fn set_welcome_messages(&mut self, messages: Vec<String>)
        ensures
            final(self)@ == (WelcomeView {
                welcome_messages: messages.deep_view(),
                ..old(self)@
            }),
    {
        self.welcome_messages = messages;
    }

    /// Chooses between the drawn welcome and the other one.
    pub fn set_use_ai(&mut self, use_ai: bool)
        ensures
            final(self)@ == (WelcomeView { use_ai, ..old(self)@ }),
    {
        self.use_ai = use_ai;
    }

    /// The users that the service keeps track of.
    pub fn user_manager(&self) -> (r: &UserManager)
        ensures
            r@ == self@.users,
    {
        &self.user_manager
    }

    /// Takes the known users from a stored text, as `UserManager::load` does.
    pub fn load_users(&mut self, content: Option<&str>)
        ensures
            final(self)@ == (WelcomeView {
                users: UserManagerView {
                    known_users: match content {
                        Some(text) => crate::users::names_in(text@),
                        None => old(self)@.users.known_users,
                    },
                    ..old(self)@.users
                },
                ..old(self)@
            }),
    {
        self.user_manager.load(content);
    }

    /// A welcome for `username` from a template drawn at random.
    pub fn get_random_welcome_message(&self, username: &str) -> (r: String)
        ensures
            is_welcome_from(self@.welcome_messages, username@, r@),
    {
        let drawn = crate::random::pick(&self.welcome_messages);
        let r = welcome_from(drawn, username);
        proof {
            match drawn {
                Some(template) => {
                    let i = choose|i: int|
                        0 <= i < self.welcome_messages@.len() && self.welcome_messages@[i]
                            == *template;
                    assert(self@.welcome_messages[i] == template@);
                },
                None => {},
            }
        }
        r
    }

    /// The welcome for `username` that is not drawn from the templates.
    pub fn get_ai_welcome_message(&self, username: &str) -> (r: String)
        ensures
            r@ == ai_welcome(username@),
    {
        let mut out = crate::text::concat("AI welcomes you to the channel, ", username);
        out.append("! This message would normally be AI-generated.");
        out
    }

    /// Looks at a message and says whether its sender is to be welcomed, and how:
    /// see `welcome_step`. The welcome goes to the channel of the message.
    pub fn process_message(&mut self, msg: &ChatMessage) -> (r: Option<Welcome>)
        ensures
            final(self)@ == welcome_step(old(self)@, msg@).0,
            r is Some == welcome_step(old(self)@, msg@).1,
            r matches Some(welcome) ==> {
                &&& welcome.channel@ == msg@.channel_login
                &&& if old(self)@.use_ai {
                    welcome.message@ == ai_welcome(msg@.sender_name)
                } else {
                    is_welcome_from(
                        old(self)@.welcome_messages,
                        msg@.sender_name,
                        welcome.message@,
                    )
                }
            },
    {
        if !self.enabled {
            return None;
        }
        if !self.user_manager.is_first_time_chatter(msg.sender_id.as_str()) {
            return None;
        }
        let message = if self.use_ai {
            self.get_ai_welcome_message(msg.sender_name.as_str())
        } else {
            self.get_random_welcome_message(msg.sender_name.as_str())
        };
        Some(Welcome { channel: msg.channel_login.clone(), message })
    }
}

} // verus!
