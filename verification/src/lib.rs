//! Discovery of unused declared dependencies in a multi-module workspace.
//!
//! The library holds the decision core: dependency-group identifiers, the
//! ignore policy, the usage-oracle pattern, the manifest reader, the staged
//! verification pipeline, the confirmed-removal ledger, and the session
//! driver, written as a state machine that an unverified runner drives by
//! executing the machine's actions and feeding back events.

pub mod commands;
pub mod groups;
pub mod ledger;
pub mod manifest;
pub mod oracle;
pub mod outcome;
pub mod pipeline;
pub mod policy;
pub mod laws;
pub mod session;
pub mod workspace;
