//! A supply-chain tracker for a Soroban contract.
//!
//! A product is registered once, moved through any number of supply steps and
//! finally marked as delivered. Products and steps live in the instance
//! storage of the running contract, each under a key made from its own
//! sequential identifier.
//!
//! * [`record`] holds the two records, their storage keys and their views.
//! * [`store`] is the mathematical model of what the storage holds, with one
//!   transition per operation.
//! * [`host`] is the boundary to the Soroban SDK: every item there is believed,
//!   not proved.
//! * [`history`] describes sequences of operations on the model.
//! * [`contract`] holds the four operations, proved against the model.
//! * [`laws`] states and proves what the operations guarantee together.

pub mod contract;
pub mod history;
pub mod host;
pub mod laws;
pub mod record;
pub mod store;

pub use contract::{SupplyChainContract, SupplyChainError};
pub use record::{Product, ProductBook, StepBook, SupplyStep};
