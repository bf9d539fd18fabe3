//! Access over HTTP: who may ask, what may be asked, and how it is answered.

pub mod authorization;
pub mod browser;
pub mod catalog;
pub mod command_laws;
pub mod commands;
pub mod controller;
pub mod form;
pub mod listing;
pub mod listing_laws;
pub mod media;
pub mod parameters;
pub mod pins;
pub mod playlists;
pub mod queue;
pub mod session;
pub mod source;
pub mod transport;
pub mod web;
