//! Chess-move service core: a verified model of an engine-process pool,
//! request orchestration, strength mapping, and the text protocol spoken
//! to a strength-tunable analysis engine.

pub mod commands;
pub mod config;
pub mod digits;
pub mod manager;
pub mod orchestrator;
pub mod pool;
pub mod protocol;
pub mod rules;
pub mod search;
pub mod strength;
pub mod uci;
