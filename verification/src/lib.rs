//! Verified core of a button-panel controller for Elgato Stream Deck
//! hardware: the HID wire-protocol codec (button-state decoding and image
//! packetization), the image preparation pipeline, the device session state,
//! the polling step that turns state snapshots into dispatched actions, and
//! the action registry.
//!
//! All hardware, file and network I/O lives outside this crate; the functions
//! here work on plain values (byte buffers, pixel buffers, descriptors) and
//! carry contracts that pin down exactly what they compute.

pub mod actions;
pub mod codec;
pub mod config;
pub mod constants;
pub mod errors;
pub mod image_prep;
pub mod polling;
pub mod session;
pub mod strutil;
pub mod visuals;
pub mod weather;
