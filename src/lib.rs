//! A read-only virtual filesystem with one directory and one file whose
//! transfers fail on purpose once a read reaches far enough into the file.
pub mod attr;
pub mod config;
pub mod engine;
pub mod fs;
pub mod lemmas;
