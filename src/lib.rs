//! Supervision core of a live-chat scraping service: the agent state machine,
//! the orchestrator's registry and scheduling rules, the browser-instance pool's
//! bookkeeping, and the configuration rules they share; with the message records
//! the agents publish and the text rules around them (styles, CSV fields,
//! browser stealth scripts).
use vstd::prelude::*;

pub mod error;
pub mod text;
mod random;
pub mod agent;
pub mod monitor;
pub mod config;
pub mod orchestrator;
pub mod distribution;
pub mod pool;
pub mod stealth;
pub mod storage;
pub mod api;
pub mod parser;
pub mod message;

verus! {

} // verus!
