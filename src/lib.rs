//! A storage access layer: one contract over heterogeneous object stores.
//!
//! The library is free of I/O. It decides what each operation sends and how
//! each response is read; a host program performs the sends.

pub mod accessor;
pub mod capability;
pub mod cos;
pub mod credential;
pub mod error;
pub mod ghac;
pub mod metadata;
pub mod pager;
pub mod path;
pub mod range;
pub mod uri;
pub mod writer;
