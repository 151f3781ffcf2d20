//! The workers of the agent, as decision logic over plain values.

pub mod remote;
pub mod wifi;
