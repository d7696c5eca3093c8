//! A small gateway in front of the Moralis blockchain-data API.
//!
//! A caller names an address and, optionally, how the query is tuned. The
//! library turns that into the one outbound call that answers it: the target
//! URL, the API key that goes with it and a fully populated set of query
//! parameters. Once the upstream has answered, the library decides what the
//! caller gets: the JSON body, passed through untouched, or a fixed error.
//!
//! Nothing here performs I/O. Sending the call and serving the response belong
//! to the program around the library.

pub mod body;
pub mod config;
pub mod error;
pub mod moralis;
pub mod quoting;
pub mod relay;
