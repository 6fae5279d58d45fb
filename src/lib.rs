//! Turns G-code lines into motion requests for a motor-control device and
//! carries them over a length-prefixed byte stream.
pub mod client;
pub mod config;
pub mod decimal;
pub mod error;
pub mod framing;
pub mod json_codec;
pub mod json_request;
pub mod lines;
pub mod movement;
pub mod parser;
pub mod processor;
pub mod proto_codec;
pub mod size_encoding;
pub mod text;
