//! Verified logic of a small glium scene viewer: the input controls that
//! decide how the viewer reacts to window events, the cycle of
//! post-processing effects, and the screen quad on which the off-screen
//! framebuffer is drawn.

pub mod controls;
pub mod draw_order;
pub mod effects;
pub mod screen_quad;
