//! Protocol layer of a client for a music player daemon: command encoding,
//! response tokenizing, record grouping, typed decoding and the idle session.

pub mod text;
pub mod cmd;
pub mod cmdline;
pub mod error;
pub mod response;
pub mod group;
pub mod fields;
pub mod entity;
pub mod handlers;
pub mod session;
