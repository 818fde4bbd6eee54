//! Core logic of a local development HTTPS server for static files: request
//! path resolution, response and header composition, HTML script injection,
//! PEM certificate/key loading, and self-signed certificate provisioning.

pub mod certgen;
pub mod errors;
pub mod handler;
pub mod rewrite;
pub mod tls;
