//! Decision logic of a two-region disaster-recovery control plane: consistency
//! validation, health-gated failover, health reporting and backup bookkeeping.
//! Network and storage access stay with the caller: apart from reading the
//! clock, every function here is a step from plain values to plain values.

pub mod text;
pub mod clock;
pub mod region;
pub mod validation;
pub mod freshness;
pub mod probe;
pub mod sampling;
pub mod metrics;
pub mod health;
pub mod backup;
pub mod advice;
pub mod report;
pub mod failover;
