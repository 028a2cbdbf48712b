//! Presence detection for an HC-SR501 motion sensor: configuration,
//! pin-name parsing, MQTT message construction and change tracking.

pub mod text;
pub mod decimal;
pub mod config;
pub mod json;
pub mod mqtt;
pub mod pins;
pub mod presence;
