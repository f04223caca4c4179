//! Frame pipeline orchestration for a fixed chain of GPU compute stages
//! followed by one render stage: resource bookkeeping, validated binding
//! sets, a dependency-ordered stage graph and the per-frame scheduler.

pub mod binding;
pub mod dispatch;
pub mod graph;
pub mod resources;
pub mod scheduler;
pub mod chain;
