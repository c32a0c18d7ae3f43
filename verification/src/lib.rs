//! A token faucet: it checks a request for a fixed amount of a fungible asset,
//! has the ledger's client mint it, and hands the resulting note back.
//!
//! The library decides; the program around it talks to the ledger's client and
//! to the network, and reports back what happened. [`validator`] turns a
//! request down or accepts it, [`orchestrator`] leads an accepted request call
//! by call to its note, [`history`] states what holds of every such course,
//! and [`handlers`] ties the two to what a client asks and is answered.
//! [`test_utils`] makes accounts up for tests.

pub mod account;
pub mod asset;
pub mod digest;
pub mod errors;
pub mod handlers;
pub mod history;
pub mod note;
pub mod orchestrator;
pub mod policy;
pub mod test_utils;
pub mod validator;
