//! Parsing and display of JVM type-signature strings.

pub mod class;
