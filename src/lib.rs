//! A small todo service: the records it keeps, a reference model of the
//! table its statements act on, and the decisions each HTTP handler makes.

pub mod table;
pub mod service;
pub mod todo;
