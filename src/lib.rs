//! An admission-controlled streaming gateway: a read-mostly video catalog, a
//! session store shared between request handlers, and the decisions that turn
//! an admitted request into an outcome.

pub mod catalog;
pub mod error;
pub mod session;
pub mod service;
pub mod gateway;
