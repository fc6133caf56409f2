//! Camera input state, GPU uniform records and the equirectangular-to-cube
//! conversion plan of a small real-time terrain renderer.

pub mod controller;
pub mod cubemap;
pub mod matrix;
pub mod uniform;
