//! Client-side implementation of a JSON-framed multiplayer session protocol.
//!
//! The library models the wire format (JSON arrays of tagged message objects),
//! decodes and encodes the closed message families of both directions, keeps
//! the residual queue of a multi-message frame, and drives the handshake from
//! the anonymous phase to the authenticated one. All I/O stays outside: the
//! caller feeds transport frames in and sends rendered frames out.

pub mod codec;
pub mod codec_arrays;
pub mod codec_client;
pub mod codec_composite;
pub mod codec_family;
pub mod codec_print;
pub mod codec_server;
pub mod codec_values;
pub mod demux;
pub mod json;
pub mod protocol;
pub mod session;
pub mod wire;
