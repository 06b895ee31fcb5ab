//! Session authentication for the matching service's HTTP API: credential
//! checks, bearer-token issuance, the durable session store, and the
//! mandatory and optional extraction of a request's identity.

pub mod auth;
pub mod json;
pub mod neo4j;
pub mod requests;
pub mod session;
pub mod store;
pub mod text;
pub mod time;
