//! Logic of a windowed GPU renderer, kept apart from the device it drives.
//!
//! The crate decides; the caller performs. Every type here is made of plain
//! values: the surface configuration and depth buffer that must follow the
//! window, the per-frame acquire / record / present protocol, and the
//! descriptors from which pipelines, buffers and bind groups are created.

pub mod size;
pub mod format;
pub mod usage;
pub mod context;
pub mod frame;
pub mod camera;
pub mod vertex;
pub mod shader;
pub mod buffer;
pub mod binding;
pub mod pipeline;
pub mod error;
pub mod setup;
pub mod controller;
pub mod pass;
pub mod triangle;
pub mod game;
pub mod uniform;
