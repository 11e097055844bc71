//! A local stand-in for a secrets-management service: the rules that decide
//! what each request is answered with, stated and proved.
//!
//! The crate holds no listener and no wire format. A caller reads a request,
//! hands its plain parts to these functions, and writes out what they return.

pub mod text;
pub mod interpreter;
pub mod routes;
pub mod handlers;
pub mod laws;
