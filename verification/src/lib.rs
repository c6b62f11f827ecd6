//! The frame orchestration and deferred-shading core of a small real-time renderer, over
//! plain values: which device to use, what the swapchain's attachments and framebuffers
//! are, which commands make up a frame, and what each redraw tick does.
//!
//! The library decides and describes; it does not touch a window or a GPU. Whoever drives
//! them hands the library what the machine reports (devices, surfaces, acquired images,
//! outcomes of submissions), creates what the library describes (swapchain, render pass,
//! pipelines, images, framebuffers, buffers), and performs the actions and commands that it
//! returns. Numbers in floating point cross the library as their IEEE 754 bits.

pub mod application;
pub mod commands;
pub mod device;
pub mod frame_loop;
pub mod framebuffer;
pub mod model;
pub mod render_pass;
pub mod render_system;
pub mod resources;
pub mod uniform;
