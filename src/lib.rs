//! Lifecycle of a GPU rendering surface bound to an application window: a
//! state machine that takes platform signals and the outcomes of GPU work,
//! and answers with the GPU work to do next.
pub mod frame;
pub mod lifecycle;
pub mod surface;
