//! The installer: what its screens show and what they send.

pub mod context;
pub mod message;
pub mod view;
