//! A small, verified core for a read-only supply REST service.
//!
//! The library holds the service's logic: converting raw nanounit amounts
//! into display units, the closed error taxonomy with its stable JSON wire
//! bodies, route matching, the permissive read-only CORS policy, the
//! once-only cancellation signal, and the graceful-drain server lifecycle.
//! The surrounding binary does the actual network I/O and hands plain
//! values in and out.

pub mod cancel;
pub mod cors;
pub mod errors;
pub mod handlers;
pub mod lifecycle;
pub mod response;
pub mod routes;
pub mod supply;
pub mod text;
