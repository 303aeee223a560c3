//! Core logic of a user-space tunnel-to-IP-stack bridge.
//!
//! Raw IP packets move between a tunnel device and an embedded IP stack
//! through a two-loop packet pump; the stack's accepted TCP connections and
//! inbound UDP datagrams are dispatched to per-flow handler tasks; a session
//! registry tracks every live flow's identity and last activity, and a
//! background reaper evicts flows idle past their configured timeout.
//!
//! This crate holds the decisions those loops take — packet admission,
//! duplicate-connection rejection, datagram-to-session routing, idle
//! eviction — each with a verified contract. The surrounding program owns
//! the devices, the stack and the task scheduler, and drives these
//! decisions.

pub mod config;
pub mod dispatch;
pub mod flow;
pub mod pump;
pub mod reaper;
pub mod registry;
pub mod router;
pub mod session;
