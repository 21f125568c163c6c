//! A deferred-shading renderer's host-side logic: the per-frame render-stage
//! sequencer, the entity/component world it draws from, mesh limits and sphere
//! topology, the log, and frame timing.

pub mod mesh_data;
pub mod render;
pub mod entity;
pub mod world;
pub mod logger;
pub mod engine;
pub mod gui;
pub mod device;
