//! The core of a small todo service: the records it manages, the statements
//! it sends to its store, the responses it gives, and a reference table
//! against which the request cycle is proved end to end.

pub mod handlers;
pub mod laws;
pub mod response;
pub mod service;
pub mod statement;
pub mod table;
pub mod todo;
