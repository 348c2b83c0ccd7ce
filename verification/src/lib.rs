//! vvDOOM: Doom played in a terminal, its image and its sound carried by a Vivid presenter.
pub mod cli;
pub mod client;
pub mod error;
pub mod fields;
pub mod geometry;
pub mod input;
pub mod keys;
pub mod media;
pub mod presentation;
pub mod queue;
pub mod runtime;
pub mod terminal;
pub mod text;
pub mod windows_input;
pub mod workers;
