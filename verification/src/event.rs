//! Events of the device's event stream, as one poll of the native layer
//! reports them.

use crate::file::CameraFile;
use vstd::prelude::*;

verus! {

/// The kinds of event that the native layer tells apart.
#[derive(Clone, Copy, Debug, PartialEq, Eq, Structural)]
pub enum EventType {
    Unknown,
    Timeout,
    FileAdded,
    FolderAdded,
    CaptureComplete,
}

/// What an event means to a caller that waits for a file.
#[derive(Clone, Copy, Debug, PartialEq, Eq, Structural)]
pub enum EventClass {
    /// The device produced a new file.
    FileAdded,
    /// Nothing happened within the time allowed.
    Timeout,
    /// Anything else: noise while a capture runs.
    Other,
}

/// The allocation that the native layer handed over with an event.
///
/// `token` stands for the allocation and is what must be given back for
/// release. `path` is the file path read out of it, where it held one.
#[derive(Clone, Copy, Debug, PartialEq, Eq)]
pub struct Payload {
    pub token: usize,
    pub path: Option<CameraFile>,
}

/// What one poll of the native layer returned: its status, the kind of
/// event, and the payload, `None` where the native pointer was null.
#[derive(Clone, Copy, Debug, PartialEq, Eq)]
pub struct EventReply {
    pub status: i32,
    pub kind: EventType,
    pub payload: Option<Payload>,
}

/// File-added and timeout are the two events of interest; every other
/// kind is noise.
pub open spec fn class_of(kind: EventType) -> EventClass {
    match kind {
        EventType::FileAdded => EventClass::FileAdded,
        EventType::Timeout => EventClass::Timeout,
        _ => EventClass::Other,
    }
}

/// The allocation that came with `reply` and has to be released, if any.
pub open spec fn released(reply: EventReply) -> Option<usize> {
    match reply.payload {
        Some(payload) => Some(payload.token),
        None => None,
    }
}

/// The file path that came with `reply`, if its payload held one.
pub open spec fn path_of(reply: EventReply) -> Option<CameraFile> {
    match reply.payload {
        Some(payload) => payload.path,
        None => None,
    }
}

/// Classifies an event kind.
pub fn classify(kind: EventType) -> (class: EventClass)
    ensures
        class == class_of(kind),
{
    match kind {
        EventType::FileAdded => EventClass::FileAdded,
        EventType::Timeout => EventClass::Timeout,
        _ => EventClass::Other,
    }
}

impl EventReply {
    /// The token of the payload to release, `None` where there is none.
    pub fn release(&self) -> (token: Option<usize>)
        ensures
            token == released(*self),
    {
        match self.payload {
            Some(payload) => Some(payload.token),
            None => None,
        }
    }

    /// The file path in the payload, `None` where it holds none.
    pub fn path(&self) -> (path: Option<CameraFile>)
        ensures
            path == path_of(*self),
    {
        match self.payload {
            Some(payload) => payload.path,
            None => None,
        }
    }
}

} // verus!
