//! Request handling for a small service that stores and lists file records.
//!
//! The library holds the record types, the routing decision that picks a
//! handler for a request, and the replies that handlers give for a missing
//! route or a failed database step. Serving HTTP, the connection pool and the
//! database itself stand outside it.
pub mod models;
pub mod reply;
pub mod routes;
