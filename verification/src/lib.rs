//! Fan-out relay for camera detection alerts.
//!
//! One inbound event stream (a broker topic carrying JSON payloads) is
//! decoded into canonical alert records and broadcast to one queue per
//! enabled chat destination; each destination renders and delivers the
//! alert with its own protocol, in its own failure domain.

pub mod alert;
pub mod codec;
pub mod config;
pub mod discord;
pub mod dispatch;
pub mod ingest;
pub mod matrix;
pub mod render;
pub mod slack;
pub mod templates;
pub mod text;

pub use alert::BvrChirpMessage;
pub use config::{BvrChirpConfig, DiscordConfig, MatrixConfig, MqttConfig, SlackConfig};
