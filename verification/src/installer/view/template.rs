//! Descriptor templates.

pub mod custom;
