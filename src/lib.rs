//! Control-plane registry of a digital audio mixer: the store of inputs, outputs,
//! plugins, channel strips, loopers and output stages, the snapshots it queues for
//! persistence, and the rule by which a writer coalesces them.

pub mod coalesce;
pub mod entities;
pub mod laws;
pub mod pmx;
pub mod registry;
pub mod seed;
pub mod service;
