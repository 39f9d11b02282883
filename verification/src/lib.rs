//! Avu cockpit core: the verified decision logic behind the terminal cockpit
//! for Hermes/OpenClaw agent backends.

pub mod backend;
pub mod backend_events;
pub mod cli;
pub mod clock;
pub mod config;
pub mod doctor;
pub mod domain;
pub mod engine;
pub mod gateway;
pub mod hud;
pub mod install;
pub mod intent;
pub mod json;
pub mod runtime;
pub mod setup;
pub mod text;
pub mod tui;
pub mod voice;
pub mod voice_activation;
