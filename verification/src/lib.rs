//! A small content-serving core for a desktop application shell: it resolves
//! MIME types from file extensions, maps custom-scheme URIs to resource paths
//! confined under a fixed base directory, builds HTTP-like responses with the
//! cross-origin-isolation headers a Wasm game needs, and answers one trivial
//! greeting command. The host framework (windowing, IPC, the actual file
//! read) lives outside this crate and hands plain values in and out.

pub mod greet;
pub mod mime;
pub mod response;
pub mod uri;
