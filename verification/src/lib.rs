//! The state and the decisions of an interactive ray-marching renderer:
//! camera and controller, scene presets, the uniform blocks that mirror them
//! on the GPU, the surface configuration and what one frame is made of.
//!
//! Nothing here touches a window or a device. A front end owns those; it asks
//! this crate what to do and carries it out.

pub mod camera;
pub mod controller;
pub mod frame;
pub mod keymap;
pub mod mesh;
pub mod raymarcher;
pub mod scalar;
pub mod settings;
pub mod surface;
pub mod touch;
pub mod uniform;

pub use crate::camera::Camera;
pub use crate::controller::Controller;
pub use crate::raymarcher::RayMarcher;
