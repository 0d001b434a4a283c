//! Real-time backbone of a driver and vehicle attendance tracker: the registry
//! of connected agent sessions, the routing and enrichment of inbound events,
//! the fan-out of relayed events, and the two-phase card registration protocol.

pub mod client;
pub mod client_state;
pub mod clock;
pub mod config;
pub mod encoding;
pub mod error;
pub mod http_api;
pub mod hub;
pub mod ic_non_reg;
pub mod json;
pub mod models;
pub mod notification;
pub mod registration;
pub mod registration_model;
pub mod socketio_server;
pub mod store;
pub mod stream;
pub mod text;
pub mod vapid_key;
pub mod version;
