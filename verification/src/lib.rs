//! The frame-construction core of a real-time renderer: a handle registry,
//! a double-buffered instruction queue, texture upload layout, pass
//! scheduling and the render list recorders, each with a machine-checked
//! contract.

pub mod datatypes;
pub mod instruction;
pub mod registry;
pub mod renderer;

pub use datatypes::RendererMode;
