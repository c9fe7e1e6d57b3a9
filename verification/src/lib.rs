//! Encode-capability discovery for a hardware video-acceleration device.
//!
//! The crate holds the decisions of the capability traversal and the decoding
//! of what the device answers; talking to the device is left to the caller.
//!
//! - [`traversal`] is the traversal itself: it names the next native query
//!   and takes the answer, profile by profile and entry point by entry point.
//! - [`probe`] says what the answer to each query means, and [`session`] what
//!   the answer to the initialization means.
//! - [`attrib`], [`fourcc`], [`names`] and [`text`] decode attribute values
//!   and codes, and [`report`] puts the lines of the report together.
//! - [`device`] models a device, and [`laws`] states what holds of the report
//!   of every device.

pub mod attrib;
pub mod codes;
pub mod device;
pub mod fourcc;
pub mod laws;
pub mod names;
pub mod probe;
pub mod report;
pub mod session;
pub mod text;
pub mod traversal;
