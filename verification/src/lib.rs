pub mod dialogue;
pub mod error;
pub mod handlers;
pub mod jsontext;
pub mod keyboards;
pub mod messages;
pub mod presentation;
pub mod provision;
pub mod router;
pub mod strutil;
pub mod types;
pub mod xui_api;
