//! A verified core for a small command-line translation client.
//!
//! The library resolves command-line arguments and environment defaults into
//! a translation request, validates language codes against a fixed
//! allow-list, builds the JSON body and headers of the provider call, and
//! parses the provider's JSON response envelope.  All I/O (reading the
//! environment, printing, the HTTP exchange itself) lives outside the
//! library.

pub mod languages;
pub mod laws;
pub mod request;
pub mod resolve;
pub mod response;
pub mod text;
