//! A minimal governance engine: members hold a fixed voting weight, submit
//! proposals that name an external action, vote on them within a deadline and
//! trigger their execution.
//!
//! The engine is a state machine over plain values. Whoever embeds it reads
//! the clock, verifies signatures, moves tokens and dispatches the external
//! action; the engine decides, and says in its contracts what it decided.
//!
//! [`MiniDao`] is the executable engine, [`model`] the state machine its
//! contracts are stated in, and [`laws`] what is proved of that machine.

pub mod address;
pub mod dao;
pub mod error;
pub mod history;
pub mod invocation;
pub mod laws;
pub mod member;
pub mod model;
pub mod proposal;

pub use crate::address::Address;
pub use crate::dao::{DataKey, MiniDao};
pub use crate::error::DaoError;
pub use crate::invocation::{CallOutcome, Invocation};
pub use crate::member::{Member, MEMBER_ALLOTMENT};
pub use crate::proposal::{Dispatch, ExecutionWindow, Proposal, ProposalStatus, TokenTransfer};
