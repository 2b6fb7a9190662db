//! Lifecycle of a bond issued against a fungible currency: the bond ledger
//! with its phase machine, the escrow that pools subscriptions, and the
//! orchestrator that sequences distribution, coupons and redemption.
//!
//! Every operation is a pure function of the component's state and the
//! values handed in; the calls it asks the environment to make are returned
//! as `OutMsg` values, in the order in which they must run.
use vstd::prelude::*;

pub mod phase;
pub mod fee;
pub mod book;
pub mod factory;
pub mod outbox;
pub mod bond_token;
pub mod placeholder;
pub mod roles;
pub mod router;
