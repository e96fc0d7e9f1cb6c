//! A contact store that decides and never touches the disk.
//!
//! The collection of contacts is one JSON document kept in a file under the
//! application's data directory. This crate holds every decision made around
//! that file (what a load returns, what a save writes and in which order,
//! what an import or an export of CSV text does when the user picks a file or
//! cancels) and leaves each effect to the host: the host reads, writes and opens
//! dialogs, and reports what happened.

pub mod csv;
pub mod error;
pub mod json;
pub mod location;
pub mod store;
