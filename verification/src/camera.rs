//! An open session with a camera.

use crate::error::{outcome, translate, Error, GP_OK};
use crate::file::CameraFile;
use crate::open::{initialization, Allocated, Rejected};
use crate::storage::{adopt, adopted, Storage, StorageInfo};
use crate::text::{camera_text_to_string, text_of, text_view};
use crate::wait::{native_timeout, Wait};
use vstd::prelude::*;

verus! {

/// A camera connected to the system: one open, initialised session.
///
/// The session owns its native handle. The handle is never null, no
/// operation changes it, and it leaves the session only through `close`,
/// which ends the session. The operations take `&mut self`, so one
/// session serves one caller at a time.
///
/// Each operation takes what the native call returned and says what that
/// means. A failed call is an error for that call alone: the session
/// stays as it was.
#[derive(Debug)]
pub struct Camera {
    handle: usize,
}

/// The result of a native call that returned `status` and, on success,
/// delivered `value`.
pub open spec fn delivered<T>(status: int, value: T) -> Result<T, Error> {
    match outcome(status) {
        Ok(_) => Ok(value),
        Err(e) => Err(e),
    }
}

/// The result of a text query that returned `status` and filled `text`.
pub open spec fn text_reply(status: int, text: Seq<u8>) -> Result<Seq<char>, Error> {
    match outcome(status) {
        Ok(_) => text_of(text),
        Err(e) => Err(e),
    }
}

impl Camera {
    #[verifier::type_invariant]
    spec fn nonnull(self) -> bool {
        self.handle != 0
    }

    /// The native handle that the session owns.
    pub closed spec fn handle(self) -> usize {
        self.handle
    }

    /// Opens the session on an allocated handle, given the status of its
    /// initialisation.
    ///
    /// On success the session owns the handle. On failure the handle comes
    /// back in the rejection, to be released, with the translated status.
    pub fn autodetect(allocated: Allocated, status: i32) -> (r: Result<Camera, Rejected>)
        ensures
            match r {
                Ok(camera) => initialization(allocated.handle(), status as int) == Ok::<
                    usize,
                    Rejected,
                >(camera.handle()),
                Err(rejected) => initialization(allocated.handle(), status as int) == Err::<
                    usize,
                    Rejected,
                >(rejected),
            },
            r is Ok <==> status == GP_OK,
    {
        let handle = allocated.into_handle();
        match translate(status) {
            Ok(_) => Ok(Camera { handle }),
            Err(error) => Err(Rejected { error, release: handle }),
        }
    }

    /// The handle to hand to the native layer. It is never null.
    pub fn raw_handle(&self) -> (handle: usize)
        ensures
            handle == self.handle(),
            handle != 0,
    {
        proof {
            use_type_invariant(self);
        }
        self.handle
    }

    /// Ends the session and returns the handle to release.
    pub fn close(self) -> (handle: usize)
        ensures
            handle == self.handle(),
            handle != 0,
    {
        proof {
            use_type_invariant(&self);
        }
        self.handle
    }

    /// Captures an image: given the status of the capture and the path it
    /// filled in, returns where the image now lies on the device.
    pub fn capture_image(&mut self, status: i32, file_path: CameraFile) -> (r: Result<
        CameraFile,
        Error,
    >)
        ensures
            r == delivered(status as int, file_path),
            r is Ok <==> status == GP_OK,
            final(self).handle() == old(self).handle(),
    {
        match translate(status) {
            Ok(_) => Ok(file_path),
            Err(e) => Err(e),
        }
    }

    /// Starts a capture without waiting for it: given the status of the
    /// request. The file is found later by waiting for it.
    pub fn trigger_capture(&mut self, status: i32) -> (r: Result<(), Error>)
        ensures
            r == outcome(status as int),
            r is Ok <==> status == GP_OK,
            final(self).handle() == old(self).handle(),
    {
        translate(status)
    }

    /// Starts a wait for the next file, polling with `timeout`
    /// milliseconds each time.
    pub fn wait_for_file(&mut self, timeout: u32) -> (wait: Wait)
        ensures
            wait.state() is Waiting,
            wait.timeout() == native_timeout(timeout),
            final(self).handle() == old(self).handle(),
    {
        Wait::new(timeout)
    }

    /// Downloads a file: given the status of the transfer into the
    /// caller's destination.
    pub fn download(&mut self, status: i32) -> (r: Result<(), Error>)
        ensures
            r == outcome(status as int),
            r is Ok <==> status == GP_OK,
            final(self).handle() == old(self).handle(),
    {
        translate(status)
    }

    /// Information about the port the camera is connected to.
    ///
    /// An open session always has it, so the query must have succeeded.
    pub fn port<P>(&self, status: i32, port_info: P) -> (port: P)
        requires
            status == GP_OK,
        ensures
            port == port_info,
    {
        port_info
    }

    /// The camera's abilities.
    ///
    /// An open session always has them, so the query must have succeeded.
    pub fn abilities<A>(&self, status: i32, abilities: A) -> (copy: A)
        requires
            status == GP_OK,
        ensures
            copy == abilities,
    {
        abilities
    }

    /// Information about the camera's storage: one entry for each
    /// filesystem on the device, given the status of the query and the
    /// native array it filled.
    pub fn storage(&mut self, status: i32, native: Vec<StorageInfo>) -> (r: Result<
        Vec<Storage>,
        Error,
    >)
        ensures
            match r {
                Ok(list) => status == GP_OK && adopted(native@, list@),
                Err(e) => Err::<(), Error>(e) == outcome(status as int),
            },
            r is Ok <==> status == GP_OK,
            final(self).handle() == old(self).handle(),
    {
        match translate(status) {
            Ok(_) => Ok(adopt(native)),
            Err(e) => Err(e),
        }
    }

    /// The camera's summary: what it is, not what can be set on it.
    ///
    /// `NotSupported` where the camera has none, `CorruptedData` where it
    /// is not valid UTF-8.
    pub fn summary(&mut self, status: i32, summary: Vec<u8>) -> (r: Result<String, Error>)
        ensures
            text_view(r) == text_reply(status as int, summary@),
            final(self).handle() == old(self).handle(),
    {
        text_query(status, summary)
    }

    /// The camera's manual.
    ///
    /// `NotSupported` where the camera has none, `CorruptedData` where it
    /// is not valid UTF-8.
    pub fn manual(&mut self, status: i32, manual: Vec<u8>) -> (r: Result<String, Error>)
        ensures
            text_view(r) == text_reply(status as int, manual@),
            final(self).handle() == old(self).handle(),
    {
        text_query(status, manual)
    }

    /// The text about the camera's driver.
    ///
    /// `NotSupported` where the driver has none, `CorruptedData` where it
    /// is not valid UTF-8.
    pub fn about_driver(&mut self, status: i32, about: Vec<u8>) -> (r: Result<String, Error>)
        ensures
            text_view(r) == text_reply(status as int, about@),
            final(self).handle() == old(self).handle(),
    {
        text_query(status, about)
    }
}

/// The reply of a text query: the status decides first, then the text.
fn text_query(status: i32, text: Vec<u8>) -> (r: Result<String, Error>)
    ensures
        text_view(r) == text_reply(status as int, text@),
{
    match translate(status) {
        Ok(_) => camera_text_to_string(text),
        Err(e) => Err(e),
    }
}

} // verus!
