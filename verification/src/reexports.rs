//! The outside crate whose types stand in the signatures of this library.

pub use ciborium;
