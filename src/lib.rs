//! Pulls the layer blobs of a container image out of an OCI registry and onto the local
//! file system: image references, registry credentials, the output location, and the
//! fan-out / join of layer downloads.
pub mod auth;
pub mod fetch;
pub mod output;
pub mod reference;
pub mod text;
