//! A small web-service core: a per-session counter, a decimal renderer,
//! an HTML page template, a route table and a timer-event builder.
//!
//! Everything here is pure computation with a contract; the surrounding
//! HTTP server hands in plain values and sends the results out.

pub mod counter;
pub mod decimal;
pub mod page;
pub mod routes;
pub mod session;
pub mod timer;
