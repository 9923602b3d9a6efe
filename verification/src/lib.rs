//! Configuration, encoder selection and GStreamer pipeline description
//! logic of a screen capture and streaming daemon.

pub mod config;
pub mod engine;
pub mod gdi_capture;
pub mod input;
pub mod ipc;
pub mod pipeline;
pub mod platform;
pub mod stream;
pub mod text;
