//! Verified core of the Bent control service: access tokens, one-time
//! submission links, refresh-token sessions, request authorisation and the
//! decisions of the HTTP handlers and the Telegram bot.
pub mod encoding;
pub mod crypto;
pub mod jwt_codec;
pub mod ids;
pub mod clock;
pub mod auth;
pub mod models;
pub mod error;
pub mod tokens;
pub mod sessions;
pub mod submissions;
pub mod handlers;
pub mod extractors;
pub mod bot;
