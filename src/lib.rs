//! Double-buffered GPU simulation core: the ping-pong discipline between a
//! compute pass and a render pass, the fixed-timestep frame clock that decides
//! how many simulation steps each frame advances, and the per-frame
//! `prepare` / `paint` plans that a host executes against a GPU device.
//!
//! Resources are named by integer handles handed out by a [`ResourcePool`];
//! the host keeps the GPU objects and carries out the [`ResourceCommand`]s,
//! [`BufferWrite`]s, [`Dispatch`]es and [`DrawPlan`]s in the order given.

mod automaton;
mod bindings;
mod dispatch;
mod layout;
mod particles;
mod resources;
mod swap;
mod timing;

pub use automaton::{
    camera_block_slots, cell_texture_slots, initial_camera, SceneRenderer, CAMERA_GROUP, CELLS_GROUP,
    CELL_WORKGROUP_X, CELL_WORKGROUP_Y, QUAD_VERTICES,
};
pub use bindings::{
    build_bind_group, check_admits, BindError, BindGroupDesc, BindLayout, BindingEntry,
    BindingKind, BindingSlot, BufferDesc, Resource, TexelFormat, TextureDesc, Usages,
};
pub use dispatch::{clamp_count, workgroup_count, workgroups_2d};
pub use layout::{encode_words, CameraParams, SimParams, CAMERA_SIZE, SIM_PARAMS_SIZE};
pub use particles::{
    boids_compute_slots, ParticleSystem, RenderCallback, BOIDS_WORKGROUP_SIZE, MAX_PARTICLES,
    PARTICLE_SEED, PARTICLE_STRIDE, PARTICLE_VERTICES,
};
pub use resources::{
    BufferWrite, Dispatch, DrawPlan, GroupBinding, InitialContents, PreparePlan, ResourceCommand,
    ResourcePool,
};
pub use swap::{current_pair, DoubleBuffer};
pub use timing::{FrameClock, MAX_TIMESTEP_MICROS, MIN_TIMESTEP_MICROS};
