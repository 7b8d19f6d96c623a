//! Storage descriptors: one per filesystem on the device.

use vstd::prelude::*;

verus! {

/// The kind of medium behind a storage.
#[derive(Clone, Copy, Debug, PartialEq, Eq, Structural)]
pub enum StorageType {
    Unknown,
    FixedRom,
    RemovableRom,
    FixedRam,
    RemovableRam,
}

/// The layout of the filesystem on a storage.
#[derive(Clone, Copy, Debug, PartialEq, Eq, Structural)]
pub enum FilesystemType {
    Undefined,
    GenericFlat,
    GenericHierarchical,
    Dcf,
}

/// What a host may do with a storage.
#[derive(Clone, Copy, Debug, PartialEq, Eq, Structural)]
pub enum AccessType {
    ReadWrite,
    ReadOnly,
    ReadOnlyWithDelete,
}

/// One element of the native storage array, field for field.
///
/// `fields` is the native mask that says which of the other fields the
/// device filled in.
#[derive(Clone, Copy, Debug, PartialEq, Eq)]
pub struct StorageInfo {
    pub fields: i32,
    pub basedir: [u8; 256],
    pub label: [u8; 256],
    pub description: [u8; 256],
    pub storage_type: StorageType,
    pub fstype: FilesystemType,
    pub access: AccessType,
    pub capacitykbytes: u64,
    pub freekbytes: u64,
    pub freeimages: u64,
}

/// A storage of the device, owned by the caller.
#[derive(Clone, Copy, Debug, PartialEq, Eq)]
pub struct Storage {
    inner: StorageInfo,
}

impl Storage {
    /// The descriptor that this storage was made from.
    pub closed spec fn info(self) -> StorageInfo {
        self.inner
    }

    /// Takes over one native descriptor.
    pub fn new(info: StorageInfo) -> (storage: Storage)
        ensures
            storage.info() == info,
    {
        Storage { inner: info }
    }

    /// The descriptor, field for field.
    pub fn descriptor(&self) -> (info: StorageInfo)
        ensures
            info == self.info(),
    {
        self.inner
    }
}

/// The list that taking over `native` gives: as long as `native`, and
/// each entry made from the descriptor at its place.
pub open spec fn adopted(native: Seq<StorageInfo>, list: Seq<Storage>) -> bool {
    &&& list.len() == native.len()
    &&& forall|i: int| 0 <= i < native.len() ==> (#[trigger] list[i]).info() == native[i]
}

/// Takes over a native storage array, element by element.
///
/// The list has the length of the array and keeps its order. An array of
/// length zero gives an empty list.
pub fn adopt(native: Vec<StorageInfo>) -> (list: Vec<Storage>)
    ensures
        adopted(native@, list@),
        native@.len() == 0 ==> list@ == Seq::<Storage>::empty(),
{
    let mut list: Vec<Storage> = Vec::new();
    let mut i: usize = 0;
    while i < native.len()
        invariant
            i <= native@.len(),
            list@.len() == i,
            forall|j: int| 0 <= j < i ==> (#[trigger] list@[j]).info() == native@[j],
        decreases native@.len() - i,
    {
        list.push(Storage::new(native[i]));
        i += 1;
    }
    list
}

} // verus!
