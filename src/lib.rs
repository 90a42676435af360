//! Coordination logic for a locally managed inference server: the shared
//! state document and its liveness rules, the server manager's decisions,
//! the framed messaging protocol, the resumable download session and the
//! settings that drive them.
pub mod state;
pub mod text;
pub mod server;
pub mod framing;
pub mod host;
pub mod download;
pub mod settings;
pub mod system;
pub mod types;
pub mod launch;
