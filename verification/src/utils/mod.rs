//! Small helpers shared by the supervisor: port discovery and number text.

pub mod port;
pub mod text;
