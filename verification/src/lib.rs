//! Device enumeration, formatting and image flashing rules for a terminal
//! disk tool: the device model, the per-platform command planning and output
//! parsing, the aligned write buffer of the flashing pipeline, and the
//! operation controller that gates every destructive action.

pub mod controller;
pub mod disk_ops;
pub mod flasher;
pub mod model;
pub mod platform;
pub mod tasks;
pub mod text;
pub mod ui;
pub mod utils;
