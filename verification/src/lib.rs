//! The write-ingress path of an indexing service: request bodies are
//! decompressed under a size cap, and uploaded splits are published to the
//! metastore by a message-driven publisher.

pub mod decoder;
pub mod decompress;
pub mod delivery;
pub mod encoding;
pub mod metastore;
pub mod publisher;
pub mod retry;
pub mod split;
