//! Monitor enumeration and screen capture for hosts that reach the library
//! through a flat, C-compatible interface.
//!
//! The verified part decides which monitor a query refers to, which failure
//! occurred, what message describes it, and the shape of a captured frame.
//! The screen itself is read through `xcap`.
pub mod error;
pub mod error_slot;
pub mod image;
pub mod monitors;
