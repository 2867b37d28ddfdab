//! A client for the Twitter (X) HTTP API and for a mail account's web
//! interface: the requests it sends, and what it makes of the replies.
pub mod account;
pub mod auth;
pub mod callback;
pub mod config;
pub mod helper;
pub mod http;
pub mod interact;
pub mod manager;
pub mod post;
pub mod text;
pub mod tweet;
pub mod userinfo;

pub use callback::get_callback_url;
