//! The content store: where it lives and the statements sent to it.

pub mod surreal;
