//! Session core of a camera control layer.
//!
//! The native device layer is driven by the embedding program; this crate
//! decides what each native reply means. Every operation of a session is a
//! function from the values the native layer handed back to a typed
//! result, and the two protocols that take more than one native call,
//! opening a session and waiting for a file, are state machines whose
//! transitions name the native resources to release.

pub mod camera;
pub mod error;
pub mod event;
pub mod file;
pub mod open;
pub mod storage;
pub mod text;
pub mod wait;

pub use camera::Camera;
pub use error::{Error, ErrorKind};
pub use file::CameraFile;
