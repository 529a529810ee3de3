//! The sidecar process supervisor: health interpretation and the lifecycle
//! decisions around starting, monitoring, stopping and restarting.

pub mod health;
pub mod manager;
