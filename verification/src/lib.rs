//! The verified core of a small Vulkan scene viewer: window settings, the
//! keyboard and event-loop decisions, the choice of GPU and queue family, and
//! the cube mesh that is drawn.

pub mod window_config;
pub mod controls;
pub mod main_loop;
pub mod vertex;
pub mod mesh;
pub mod device;
