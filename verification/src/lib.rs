//! An authorization registry for content-addressed records.
//!
//! Providers may access records of patients once a relationship between the
//! two is registered and the record is granted. The registry keeps, in the
//! instance storage of a Soroban contract, the flag of each relationship, the
//! providers of each patient, the patients of each provider, the flag of each
//! grant and the records of each relationship, and keeps them in agreement.
//!
//! `model` says what the storage holds and what each operation does to it,
//! `host` is the boundary to the Soroban SDK, `keys` encodes the composite
//! keys, `relationship` and `agent` hold the operations, and `laws` proves
//! what holds of them in every state.

pub mod agent;
pub mod host;
pub mod keys;
pub mod laws;
pub mod model;
pub mod relationship;

pub use agent::AgentContract;
pub use relationship::{RegistryError, RelationshipContract};
