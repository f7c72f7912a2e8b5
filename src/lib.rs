//! Protocol-normalizing client core for local language-model and
//! image-synthesis servers: endpoint rules, request assembly, stream
//! decoding into uniform text deltas, and the job state machines that a
//! non-blocking redraw loop drives.

mod text;

pub mod decode;
pub mod endpoint;
pub mod error;
pub mod framing;
pub mod image;
pub mod producer;
pub mod progress;
pub mod session;
pub mod settings;
pub mod wire;

pub use endpoint::EndpointType;
