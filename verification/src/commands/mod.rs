//! Command handlers.
//!
//! Each handler checks its input before anything else and answers with a
//! value or an [`AppError`](crate::error::AppError).

pub mod greet;
