//! Client-side logic for a session-based download-management service:
//! a task model, query-string construction for the vendor's REST endpoints,
//! envelope and response decoding, and the interactive selection and
//! controller state machine that drives the calls.

pub mod client;
pub mod config;
pub mod error;
pub mod query;
pub mod state;
pub mod text;
pub mod task;

pub use client::Session;
pub use config::Config;
pub use config::ConfigError;
pub use config::TrustMode;
pub use error::ClientError;
pub use error::TransportError;
pub use state::Activity;
pub use state::App;
pub use state::Key;
pub use state::TickAction;
pub use state::UI;
pub use task::Task;
pub use text::size_text;
pub use text::speed_text;
pub use text::status_color;
pub use text::status_text;
pub use text::status_traffic;
pub use text::StatusColor;
pub use text::Summary;
