//! Capture coordinator of a camera viewer.

pub mod connection;
pub mod convert;
pub mod coordinator;
pub mod laws;
pub mod models;
pub mod text;
