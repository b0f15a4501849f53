//! Hierarchical depth pyramids, planned and scheduled on the host.
//!
//! A depth pyramid is a chain of images over the depth buffer of a view, each
//! half as wide and half as high as the one before it, each pixel holding the
//! farthest (or nearest) depth of the two by two pixels under it. An
//! occlusion test reads it to throw out what cannot be seen. The images are
//! filled by compute kernels on the GPU; this library is the host's side of
//! that work, and touches no GPU itself:
//!
//! * [`planner`] gives the size of every level;
//! * [`layout`] gives the slots that a kernel is bound through;
//! * [`pipeline`] describes the kernels that have to be compiled;
//! * [`pyramid`] pairs the levels of a view with the images that show them;
//! * [`bindings`] wires the images of a view to the slots, step by step;
//! * [`dispatch`] issues the commands of a view in the order that keeps
//!   every read behind the write it depends on;
//! * [`prepare`] goes over the views of a frame and passes over those that
//!   are not ready;
//! * [`replay`] says what a stream of commands leaves in the images, and
//!   shows that the commands issued build the pyramid while a stream with a
//!   barrier missing does not.
//!
//! Whoever drives the GPU hands the library plain values (sizes, handles of
//! images, what the device allows) and carries out what it gets back.

pub mod bindings;
pub mod dispatch;
pub mod layout;
pub mod pipeline;
pub mod planner;
pub mod prepare;
pub mod pyramid;
pub mod replay;
