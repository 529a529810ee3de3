//! Supervision of a sidecar backend process for a desktop shell: port
//! discovery, health interpretation, the lifecycle state store and the
//! decisions of the process supervisor, each with a proved contract.

pub mod sidecar;
pub mod state;
pub mod system;
pub mod utils;
