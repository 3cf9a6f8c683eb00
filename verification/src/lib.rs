//! Verified core of a microphone recorder: sample conversion, container
//! framing, the capture session and the recording controller.

pub mod container;
pub mod controller;
pub mod float32;
pub mod greeting;
pub mod sample;
pub mod session;
