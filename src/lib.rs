//! Backend of a distribution control panel: the catalog of privileged
//! tweaks, the subsystem probe, the settings store and the theme resolver.
//! Each operation decides here from plain values; the caller performs the
//! file and process work that a decision asks for.

pub mod config;
pub mod paths;
pub mod programs;
pub mod stylesheet;
pub mod text;
pub mod theme;
pub mod tweak;
