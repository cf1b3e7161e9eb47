//! Session orchestration and block-signature aggregation for a BFT finality
//! gadget: the decisions of each component are verified state machines, and
//! the asynchronous drivers around them only perform the actions they return.
pub mod aggregator;
pub mod button;
pub mod bytes;
pub mod client;
pub mod config;
pub mod delay;
pub mod elections;
pub mod party;
pub mod session;
pub mod supervisor;
