//! Flavor quotas.
pub mod flavor_quota;
