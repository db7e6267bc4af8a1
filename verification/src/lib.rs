//! A small library of tagged-value models: closed sums with associated data,
//! exhaustive derivations over them, and greeting capabilities dispatched both
//! statically and dynamically.

pub mod addresses;
pub mod coins;
pub mod greetings;
pub mod messages;
pub mod optional;
pub mod patterns;
