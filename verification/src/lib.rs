//! Signalling and stream-registry logic of a WebRTC-to-RTSP relay.
//!
//! A browser publishes audio and video over WebRTC; the signalling server
//! negotiates the session over a WebSocket with small JSON messages, and the
//! media of each published endpoint is fanned out to RTSP clients through a
//! registry of broadcast buses keyed by the endpoint's path.

pub mod common;
pub mod json;
pub mod json_text;
pub mod caps;
pub mod webrtc;
pub mod rtsp;
pub mod signalling;
pub mod error;
pub mod laws;
pub mod message_laws;
