//! The two kinds of credentials that an app can be backed by.

pub mod emulator;
pub mod error;
pub mod gcp;
