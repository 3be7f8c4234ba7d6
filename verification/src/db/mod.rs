//! Database layer: how the pool is opened, the order of the startup
//! steps, the records the tables hold and what a handler answers after a
//! query.

pub mod connection;
pub mod models;
pub mod queries;
pub mod settings;
