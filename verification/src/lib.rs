//! The core of a command-line client for a Directus content API.
//!
//! The client issues one create, read, update or delete against a resource of
//! the API, as far as its configuration allows the operation. This library
//! holds everything of that but the input and output: it validates a command
//! line against the configuration ([`cli`], [`config`]), builds the request
//! and reads the server's answer ([`sdk`], [`http`]). The one thing it leaves
//! to its caller is the function that carries a request over the network.
//!
//! JSON is parsed by `serde_json`, and header values are judged by `reqwest`;
//! [`json`] and [`http`] hold the few functions whose contracts rest on those
//! crates. Everything else is proved against its contract.

pub mod cli;
pub mod config;
pub mod http;
pub mod json;
pub mod sdk;
pub mod text;
