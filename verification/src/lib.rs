//! GitHub App integration helpers: credential configuration, webhook
//! signature verification, and typed decoding of webhook event payloads.
//!
//! The crate is organised around three pieces: [`config::OctoAppConfig`]
//! holds the App identity and secrets and verifies webhook signatures;
//! [`events`] parses webhook bodies into a typed event taxonomy wrapped in a
//! [`events::WebHook`] envelope; and [`pipeline`] drives the per-request
//! authentication state machine that HTTP adapters build on.

pub mod config;
pub mod crypto;
pub mod error;
pub mod events;
pub mod json;
pub mod jwt;
pub mod octo;
pub mod payloads;
pub mod pipeline;
pub mod strutil;

pub use config::OctoAppConfig;
pub use error::OctoAppError;
pub use events::WebHook;
pub use pipeline::OctoAppState;
