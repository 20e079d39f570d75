//! The verified core of the democracy simulator: configuration, the
//! bookkeeping of the world state (bounded histories, cooldowns, reforms,
//! protest fatigue), the government's term and policy lag, voter selection,
//! and the decisions of the terminal interface.

pub mod config;
pub mod history;
pub mod government;
pub mod social;
pub mod events;
pub mod election;
pub mod view;
