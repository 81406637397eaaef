//! A typed client library for the Genius web API.
//!
//! The library models the API's JSON wire format as a value tree ([`json::Json`]),
//! decodes every endpoint's response body into strongly typed records, and
//! discriminates the three-way response envelope (success / structured error /
//! unstructured error) by body shape. Request construction (paths and query
//! parameter lists) is a pure function of the typed arguments. The HTTP
//! transport itself is an external collaborator; callers hand response bodies
//! to [`client::decode_response`] as plain bytes.

pub mod client;
pub mod codec;
pub mod decimal;
pub mod json;
pub mod models;
pub mod wire;

pub use client::{
    decode_response, Client, ClientBuilder, ClientBuilderError, ClientError, ReferentAssociation,
    Request, BASE_URL,
};
pub use json::Json;
