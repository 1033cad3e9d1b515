//! Core logic of a daemon that lets remote clients drive one shared assistant CLI
//! session: the message protocol, pairing and authentication, the file-path
//! guard, the session state machine, signaling decisions and media buffering.

pub mod auth;
pub mod fs;
pub mod media;
pub mod protocol;
pub mod session;
pub mod signaling;
pub mod text;
pub mod webrtc;
