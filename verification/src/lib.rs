//! Message passing between a service's server and its clients, with the code that connects
//! them generated from the service's methods: the `export` attribute turns methods into
//! requests and responses, and the `service` attribute builds the message enum, the
//! server's dispatch loop and the client.
use vstd::prelude::*;

pub mod serial;
pub mod refusal;
pub mod text;
pub mod casing;
pub mod naming;
pub mod path;
pub mod item;
pub mod tokens;
pub mod syntax;
pub mod export_macro;
pub mod export;
pub mod service;
pub mod laws;

pub use export_macro::export;

verus! {

/// Implemented by the marker type of each exported method: the types of the method's
/// request and of its response.
pub trait ServifyExport {
    type Request;
    type Response;
}

} // verus!
