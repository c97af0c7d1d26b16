//! A dotfile synchronizer: the decisions that keep the files of a home
//! directory and their mirror in a storage directory consistent.

pub mod digest;
pub mod paths;
pub mod process;
pub mod registry;
pub mod storage;
pub mod laws;
