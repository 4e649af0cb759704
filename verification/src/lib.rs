//! Byte-range delivery of video files over HTTP: the decisions, from the
//! `Range` header of a request to the status, headers and body of the
//! answer.
//!
//! A request is answered in four steps. The value of the `Range` header is
//! read (`header`). The range that it asks for is held against the length of
//! the resource, and the outcome is the whole body, a part of it, a refusal
//! or a missing resource (`range`, and `request` for the headers as the
//! `http` crate holds them). The bytes that the outcome needs are read
//! (`source`, for a resource in memory). The answer is built from the
//! outcome and the bytes (`response`). `video` puts the steps together and
//! states what holds of the answers. `frame` answers requests for still
//! frames, and `config` holds the settings of a server.
//!
//! The library opens no file, runs no program and listens on no socket: a
//! server does that, and hands over what it found.

pub mod config;
pub mod decimal;
pub mod frame;
pub mod header;
pub mod range;
pub mod request;
pub mod response;
pub mod source;
pub mod video;
