//! A liveness service, as a library.
//!
//! The service answers `GET /` with `200` and the body `ok`, and every other
//! request with `404`. This crate holds what the service decides: how a
//! request is answered, what the server does when its listener is bound or
//! fails, and the line it announces itself with. Sockets and the accept loop
//! belong to the program that links it.

pub mod address;
pub mod lifecycle;
pub mod route;
mod text;

pub use address::{banner, bind_address, BindAddress};
pub use lifecycle::{step, Action, Event, ServerError, ServerState};
pub use route::{healthz, is_probe_request, respond, Response};
