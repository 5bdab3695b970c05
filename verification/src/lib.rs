//! Read-only snapshot of device-management-issued configuration.
//!
//! The library models the application-scoped settings container that a
//! device-management agent populates, coerces each entry's typed value into
//! its canonical string form, and assembles the resulting string-to-string
//! mapping. The platform boundary hands in plain values; every failure mode
//! collapses to an empty mapping at the facade.

pub mod container;
pub mod decimal;
pub mod facade;
pub mod value;

pub use container::{coerce_all, Entry, ResultMap, SettingsContainer};
pub use decimal::{i64_to_decimal, u64_to_decimal};
pub use facade::{get_mdm_settings_impl, get_settings, SettingsSource};
pub use value::{coerce_one, TypedValue};
