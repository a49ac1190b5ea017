//! Decision core of a GStreamer plugin for Rockchip MPP hardware video coding.
//!
//! The plugin has three elements: an H.265 encoder (`enc`), an H.264/H.265 decoder (`dec`) and a
//! JPEG decoder (`jpegdec`). The hardware library and GStreamer are outside; this crate decides
//! what is asked of them and what follows from each answer. Every sequence of outside calls is a
//! `script::Script`: a state machine that hands out the calls to make and takes the answer to the
//! last of them.

pub mod mpp_ffi;
pub mod call;
pub mod script;
pub mod trace;
pub mod resources;
pub mod planes;
pub mod allocator;
pub mod allocator_laws;
pub mod output;
pub mod enc;
pub mod dec;
pub mod jpegdec;
