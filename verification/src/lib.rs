//! A pipeline that builds, funds, signs, broadcasts and confirms transactions
//! against a ledger node that keeps unspent outputs, and that chains two such
//! runs: the second spends an output of the first.
//!
//! The library decides; it never talks to the node. Each decision is a
//! function from plain values to plain values, stated over a mathematical
//! model of the data. A caller performs the remote operations that the
//! library asks for and hands the replies back.

pub mod builder;
pub mod failure;
pub mod laws;
pub mod ledger;
pub mod node;
pub mod orchestrator;
pub mod pipeline;
pub mod selector;
pub mod stages;
pub mod transaction;
