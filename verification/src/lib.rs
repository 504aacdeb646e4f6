//! Verified core of a bridge between an eNet home-automation gateway and an
//! MQTT broker (Home Assistant conventions).

pub mod args;
pub mod bridge;
pub mod decimal;
pub mod messages;
pub mod topic;
