//! The prompt providers that come with the library.

pub mod filesystem;
