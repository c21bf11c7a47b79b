//! Builder synthesis for records with named fields.
//!
//! `synthesis` turns a record declaration into the source text of a companion
//! builder type; `slots` models how such a builder behaves at run time (one
//! optional slot per field, setters that overwrite, a fail-fast and
//! destructive `build`), and `laws` proves the properties of that behaviour.

pub mod laws;
pub mod slots;
pub mod synthesis;
