//! A persistent greeter: one string kept in a stable cell, set by the
//! initialization entry points and read by the greeting query.

pub mod argument;
pub mod error;
pub mod greeter;
pub mod greeting;
pub mod policy;
pub mod store;

pub use error::GreeterError;
pub use greeter::{Greeter, Phase};
pub use policy::UpgradePolicy;
pub use store::Store;
