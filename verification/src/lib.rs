//! Frame orchestration for a compute shader toy.
//!
//! Each presented frame is a fixed sequence of GPU work: one upload of the
//! uniform parameters, a number of inner steps that update the feedback
//! channels and compute the output image, and one presentation pass. This
//! crate decides that sequence, the resources and binding layouts it needs,
//! and the reaction of the frame loop to window events. Everything is stated
//! over plain values; a host program turns them into device calls.

pub mod bindings;
pub mod driver;
pub mod error;
pub mod geometry;
pub mod layout;
pub mod order;
pub mod present;
pub mod registry;
pub mod resources;
pub mod sequencer;
pub mod stager;
