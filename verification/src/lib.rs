//! Decision logic of a small service process: a health-check API and a
//! WebSocket echo gateway, started in a fixed order and shut down on a
//! termination signal.
//!
//! Everything here is a function of plain values. The program around this
//! library performs the network and environment access, hands each outcome
//! to the state machines below as an event, and carries out the action that
//! they answer with.

pub mod address;
pub mod config;
pub mod coordinator;
pub mod endpoint;
pub mod resources;
pub mod routes;
pub mod text;
pub mod websocket;

pub use config::load_env;
pub use resources::{create_db_pool, create_solana_client};
pub use routes::routes;
pub use websocket::start_websocket_server;
