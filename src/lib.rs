//! A flat file-drop store: naming policy, upload form handling, listing and
//! retrieval decisions, all stated over a map model of the storage directory.

pub mod text;
pub mod naming;
pub mod upload;
pub mod retrieve;
pub mod listing;
pub mod store;
pub mod player;
