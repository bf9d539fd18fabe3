//! Rufin Connect: devices that share one profile.

pub mod actions;
pub mod adoption;
pub mod events;
pub mod exchange;
pub mod faithful_laws;
pub mod media;
pub mod opening_laws;
pub mod owner;
pub mod plan_laws;
pub mod plan_model;
pub mod portable;
pub mod profile;
pub mod refusal_laws;
pub mod resolve;
pub mod resolve_laws;
pub mod secrets;
pub mod settings;
pub mod status;
