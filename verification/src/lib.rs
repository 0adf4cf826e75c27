//! Core logic of a desktop usage HUD for an AI assistant subscription: the persisted store of settings and
//! usage samples, the poll schedule with its back-off rules, the decisions
//! taken on HTTP responses and on window placement, and the status reported
//! to the user interface.

pub mod commands;
pub mod credentials;
pub mod error;
pub mod poller;
pub mod store;
pub mod text;
pub mod tray;
pub mod usage_client;
