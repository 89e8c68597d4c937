//! Launch supervisor for a desktop shell paired with a separately packaged
//! backend service: run-mode decisions, path layout, the backend's
//! environment, and the relay of its console output.

pub mod paths;
pub mod environment;
pub mod relay;
pub mod setup;
pub mod runs;
