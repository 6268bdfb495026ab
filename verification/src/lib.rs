//! Client-side logic for the HTTP/XML control protocol of network audio
//! receivers: the node table, the decoder of response frames, the four verbs
//! and the decisions of the radio facade, each with its contract.

pub mod cli;
pub mod client;
pub mod decode;
pub mod error;
pub mod grammar;
pub mod node;
pub mod number;
pub mod radio;
pub mod text;
pub mod value;
pub mod xml;

pub use client::FsApi;
pub use error::Error;
pub use node::Node;
