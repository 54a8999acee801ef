//! Verified core of a desktop tool that mirrors the media player's
//! "now playing" state into a VRChat-style OSC chatbox.

pub mod chatbox;
pub mod media;
pub mod osc;
pub mod wire;
pub mod window;
