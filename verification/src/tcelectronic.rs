//! Protocol shared by TC Electronic Konnekt-family devices.
//!
//! The device exposes a memory space partitioned into fixed segments; the
//! modules below define the reusable composite states, the per-model segment
//! layouts, and the notification-driven refresh planning.

pub mod ch_strip;
pub mod desktop;
pub mod itwin;
pub mod k8;
pub mod klive;
pub mod shell;
pub mod reverb;
pub mod segment;
