//! A user-space filesystem relay: answers metadata, directory-listing,
//! extended-attribute and filesystem-statistics requests against a real
//! directory tree, translating between the native OS records and the
//! portable records a filesystem protocol layer consumes.

pub mod attr;
pub mod config;
pub mod filesystem;
pub mod paths;
mod sys;
