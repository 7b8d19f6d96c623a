//! Files on a camera's storage, named by directory and base name.

use crate::text::{terminated_text, text_to_string_lossy, used_len, used_text, utf8_lossy};
use vstd::prelude::*;
use vstd::utf8::{decode_utf8, valid_utf8};

verus! {

/// Capacity of the base-name field, terminator included.
pub const NAME_CAPACITY: usize = 128;

/// Capacity of the directory field, terminator included.
pub const FOLDER_CAPACITY: usize = 1024;

/// The place of a file on a camera's storage.
///
/// The two fields are the fixed-capacity text fields of the native path
/// record, kept byte for byte. The value names a file; it owns nothing on
/// the device.
#[derive(Clone, Copy, Debug, PartialEq, Eq)]
pub struct CameraFile {
    name: [u8; 128],
    folder: [u8; 1024],
}

impl CameraFile {
    /// The base-name field as it came from the native layer.
    pub closed spec fn name_field(self) -> Seq<u8> {
        self.name@
    }

    /// The directory field as it came from the native layer.
    pub closed spec fn folder_field(self) -> Seq<u8> {
        self.folder@
    }

    /// A file's place from the two fields of a native path record.
    pub fn new(name: [u8; 128], folder: [u8; 1024]) -> (file: CameraFile)
        ensures
            file.name_field() == name@,
            file.folder_field() == folder@,
    {
        CameraFile { name, folder }
    }

    /// The directory that the file is stored in.
    pub fn directory(&self) -> (s: String)
        ensures
            s@ == utf8_lossy(used_text(self.folder_field())),
            valid_utf8(used_text(self.folder_field())) ==> s@ == decode_utf8(
                used_text(self.folder_field()),
            ),
    {
        text_to_string_lossy(self.folder.as_slice())
    }

    /// The name of the file without the directory.
    pub fn basename(&self) -> (s: String)
        ensures
            s@ == utf8_lossy(used_text(self.name_field())),
            valid_utf8(used_text(self.name_field())) ==> s@ == decode_utf8(
                used_text(self.name_field()),
            ),
    {
        text_to_string_lossy(self.name.as_slice())
    }

    /// The directory as the native layer takes it: the used bytes and one
    /// terminator.
    pub fn native_directory(&self) -> (out: Vec<u8>)
        ensures
            out@ == used_text(self.folder_field()).push(0u8),
            used_len(out@) == out@.len() - 1,
            out@.len() <= FOLDER_CAPACITY + 1,
    {
        terminated_text(self.folder.as_slice())
    }

    /// The base name as the native layer takes it: the used bytes and one
    /// terminator.
    pub fn native_basename(&self) -> (out: Vec<u8>)
        ensures
            out@ == used_text(self.name_field()).push(0u8),
            used_len(out@) == out@.len() - 1,
            out@.len() <= NAME_CAPACITY + 1,
    {
        terminated_text(self.name.as_slice())
    }
}

} // verus!
