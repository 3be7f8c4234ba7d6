//! Backend of a desktop application shell.
//!
//! The crate holds what the backend decides and computes: the error taxonomy
//! and its text form, the handlers' input checks and results, the connection
//! settings of the embedded database, and the order of the startup steps.
//! Everything here is verified; the code that touches the disk, the database
//! and the user interface calls into it.

pub mod commands;
pub mod db;
pub mod error;
