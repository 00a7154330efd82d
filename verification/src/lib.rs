//! The composition and selection engine of a terminal launcher: an ordered
//! list of module tokens and a handful of entry groups become one navigable
//! selection sequence and one sequence of display lines, kept in step.

pub mod text;
pub mod config;
pub mod defaults;
pub mod selection;
pub mod app;
pub mod render;
pub mod events;
pub mod paths;
pub mod encode;
pub mod ascii_image;
pub mod quote;
pub mod stats;
pub mod logo;
pub mod session;
pub mod keyed;
