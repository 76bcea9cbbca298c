pub mod client;
pub mod events;
pub mod json;
pub mod metrics;
pub mod transport;
