//! The stages of an SLO probe.

pub mod cluster;
pub mod json;
pub mod laws;
pub mod outside;
pub mod probes;
pub mod quantity;
pub mod reply;
pub mod run;
pub mod stages;
pub mod text;
pub mod turn;
pub mod wait;
pub mod want;
pub mod wire;
