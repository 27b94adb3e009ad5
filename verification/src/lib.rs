//! Render-tree traversal and reconciliation core of a declarative UI runtime.
//!
//! Nodes live in a [`registry::InstanceRegistry`] and refer to each other by
//! instance id. Every frame ([`engine::tick`]) the property pass
//! re-evaluates expression-bound properties and resolves control flow, the
//! draw plan lists the nodes to paint with control-flow nodes flattened
//! away, and the draw pass turns recomputed geometry into the smallest set
//! of host updates.
//!
//! Numbers that would be floating point are carried as their 64-bit
//! patterns ([`scalar`]); their arithmetic is handed in by the caller
//! ([`geometry`]).

pub mod conditional;
pub mod draw;
pub mod engine;
pub mod frame;
pub mod geometry;
pub mod message;
pub mod pass;
pub mod patch;
pub mod plan;
pub mod registry;
pub mod rendering;
pub mod repeat;
pub mod runtime;
pub mod scalar;
pub mod scope;
pub mod value;
