//! Validation and naming rules for archiving a log file into a destination
//! folder under a name derived from session metadata.

pub mod error;
pub mod naming;
pub mod transfer;
