//! Core logic of a terminal dashboard for cluster workloads: a filterable,
//! cyclically navigable list primitive, the focus-based view state machine,
//! the port-forward supervisor's readiness/timeout decisions, and the
//! snapshot state that survives restarts.
//!
//! Everything here is pure state and decision logic, verified with Verus.
//! Terminal rendering, the event channel, process spawning and file access
//! live outside this crate and only feed plain values in and out.

pub mod app;
pub mod cache;
pub mod error;
pub mod events;
pub mod filterable_list;
pub mod forward;
pub mod keys;
pub mod namespaces_list;
pub mod pods;
pub mod pods_list;
pub mod port_forward_popup;
pub mod side_bar;
pub mod text;
