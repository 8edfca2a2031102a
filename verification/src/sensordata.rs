//! Per-version wire-format decoders.

pub mod v3;
