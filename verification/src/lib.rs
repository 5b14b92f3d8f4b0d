//! A verified engine for hosting an immediate-update UI inside a single
//! native window: surface configuration, input tracking, the pending
//! event queue and the lifecycle state machine that sequences them.

pub mod bridge;
pub mod controls;
pub mod geometry;
pub mod input;
pub mod laws;
pub mod lifecycle;
pub mod queue;
pub mod surface;
