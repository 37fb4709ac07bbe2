//! The chat service: the credential, the REST interface and the delivery client.

pub mod client;
pub mod helix;
pub mod oauth;

pub use client::TwitchClient;
pub use helix::HelixChatClient;
pub use oauth::OAuthManager;
