//! Pools of sessions

pub mod session;
