//! A device-registry ledger: it tracks ownership of uniquely identified
//! devices, records a per-device boolean state, and enforces that only the
//! recorded owner may change that state.
//!
//! The registry is pure state-transition logic: every mutating operation is
//! invoked with an explicit caller principal supplied by the hosting
//! environment, validates its inputs, and either commits all of its effects
//! or commits nothing.

pub mod laws;
pub mod model;
pub mod registry;

pub use model::AccountId;
pub use model::Dev;
pub use model::DevId;
pub use model::Error;
pub use model::Owner;
pub use model::RegistryView;
pub use model::StateChange;
pub use registry::Smarthome;
