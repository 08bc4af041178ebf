//! Decoding of biosignal headset telemetry and a decaying device-state aggregate.

pub mod model;
pub mod muse_packet;
pub mod queue;
pub mod wire;
