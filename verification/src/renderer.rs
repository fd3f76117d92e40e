//! What a frame is built from: the render list, the layout of texture
//! uploads, and the frame's own planning.

pub mod list;
pub mod render;
pub mod upload;
