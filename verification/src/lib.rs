//! Verified core of a Linux kernel-ABI helper library: alignment and sizing
//! arithmetic for ancillary-data (control-message) records, bounds-checked
//! traversal of control-message buffers, fixed-capacity descriptor-set bitmap
//! operations, and the signal-handler sentinel values.
//!
//! Raw pointer arithmetic of the native macros is reframed here as arithmetic
//! over explicit address and length values, and the descriptor set as an owned
//! byte array behind an exclusive reference, so every bounds decision is
//! stated and proved rather than left to the caller's care.
#![allow(non_snake_case)]

pub mod cmsg;
pub mod select;
pub mod signal;
