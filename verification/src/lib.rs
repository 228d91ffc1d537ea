//! The decisions of a voxel renderer, verified.
//!
//! The library never touches a device. Operations that need one are tasks: an operation
//! returns a [`exchange::Step`] that either holds its result or asks for something that
//! only a backend can do, and is resumed with the backend's answer. Draw calls and clears
//! are returned as plain values, to be recorded by the encoder that they name. Textures,
//! buffers, views and pipelines are known by the numbers that the backend gave them.
//!
//! What an operation does is stated as a function of the replies that it was given, such as
//! [`create_pipelines::create_pipelines_next`]; [`laws`] states what holds of the renderer
//! as a whole, [`history`] what holds of it from its making on, and [`device`] what its
//! commands do. [`shader_laws`], [`pipeline_laws`], [`target_laws`], [`render_laws`],
//! [`operation_laws`] and [`exchange_laws`] state what holds of the single parts.
#![allow(unused_imports)]
pub mod capture;
pub mod create_pipelines;
pub mod device;
pub mod draw;
pub mod error;
pub mod exchange;
pub mod exchange_laws;
pub mod expansion;
pub mod geometry;
pub mod history;
pub mod laws;
pub mod modes;
pub mod operation_laws;
pub mod operations;
pub mod pipeline_laws;
pub mod pipelines;
pub mod render;
pub mod render_laws;
pub mod renderer;
pub mod resources;
pub mod screenshot;
pub mod setup;
pub mod shader_laws;
pub mod shaders;
pub mod state;
pub mod target_laws;
pub mod targets;
pub mod texture;
pub mod uploads;
