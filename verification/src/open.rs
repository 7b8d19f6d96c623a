//! Opening a session: allocate a native handle, then initialise it.
//!
//! The two phases are two transitions. The first yields an `Allocated`
//! handle or an error with nothing to release. The second consumes the
//! `Allocated` and yields either the session, which then owns the handle,
//! or a `Rejected` that names the handle to release. No path drops a
//! handle, and none hands it to two owners.

use crate::error::{outcome, translate, Error, ErrorKind, GP_ERROR_BAD_PARAMETERS, GP_OK};
use vstd::prelude::*;

verus! {

/// A native handle that was allocated and is not initialised yet.
#[derive(Debug)]
pub struct Allocated {
    handle: usize,
}

/// A failed initialisation: why it failed, and the handle that the native
/// layer has to release.
#[derive(Clone, Copy, Debug, PartialEq, Eq, Structural)]
pub struct Rejected {
    pub error: Error,
    pub release: usize,
}

/// What an allocation that returned `status` and `handle` gives: the
/// handle on success, the translated status otherwise.
///
/// A null handle is no handle: reported with success, it is the failure
/// that the native layer answers a null handle with.
pub open spec fn allocation(status: int, handle: usize) -> Result<usize, Error> {
    match outcome(status) {
        Err(e) => Err(e),
        Ok(_) => if handle == 0 {
            Err(Error { kind: ErrorKind::DeviceError, code: GP_ERROR_BAD_PARAMETERS })
        } else {
            Ok(handle)
        },
    }
}

/// What initialising `handle` with result `status` gives: the handle of
/// the open session, or the rejection that releases it.
pub open spec fn initialization(handle: usize, status: int) -> Result<usize, Rejected> {
    match outcome(status) {
        Ok(_) => Ok(handle),
        Err(error) => Err(Rejected { error, release: handle }),
    }
}

/// The handles that opening a session releases, given the replies of the
/// two native calls: the allocated handle where initialisation failed,
/// none otherwise.
pub open spec fn open_releases(new_status: int, handle: usize, init_status: int) -> Seq<usize> {
    match allocation(new_status, handle) {
        Err(_) => Seq::empty(),
        Ok(h) => match initialization(h, init_status) {
            Ok(_) => Seq::empty(),
            Err(rejected) => seq![rejected.release],
        },
    }
}

/// The handle that the opened session owns, `None` where opening failed.
pub open spec fn open_owns(new_status: int, handle: usize, init_status: int) -> Option<usize> {
    match allocation(new_status, handle) {
        Err(_) => None,
        Ok(h) => match initialization(h, init_status) {
            Ok(owned) => Some(owned),
            Err(_) => None,
        },
    }
}

/// Opening a session never leaks and never shares: a handle that was
/// allocated is either owned by the session or released, exactly once,
/// and not both; where allocation failed there is nothing to own or
/// release. The session is opened exactly when both calls succeed on a
/// handle that is not null.
pub proof fn open_owns_or_releases(new_status: int, handle: usize, init_status: int)
    ensures
        allocation(new_status, handle) is Err ==> open_owns(new_status, handle, init_status)
            is None && open_releases(new_status, handle, init_status).len() == 0,
        allocation(new_status, handle) is Ok ==> (open_owns(new_status, handle, init_status)
            == Some(handle)) != (open_releases(new_status, handle, init_status) == seq![handle]),
        allocation(new_status, handle) is Ok ==> (open_owns(new_status, handle, init_status)
            is None) != (open_releases(new_status, handle, init_status).len() == 0),
        open_owns(new_status, handle, init_status) is Some <==> new_status == GP_OK && handle != 0
            && init_status == GP_OK,
{
    if allocation(new_status, handle) is Ok {
        if initialization(handle, init_status) is Err {
            assert(open_releases(new_status, handle, init_status) == seq![handle]);
            assert(open_releases(new_status, handle, init_status).len() == 1);
        }
    }
}

impl Allocated {
    #[verifier::type_invariant]
    spec fn nonnull(self) -> bool {
        self.handle != 0
    }

    /// The native handle.
    pub closed spec fn handle(self) -> usize {
        self.handle
    }

    /// Takes the reply of the native allocation.
    ///
    /// On failure there is no handle and nothing to release, whatever the
    /// handle slot holds.
    pub fn new(status: i32, handle: usize) -> (r: Result<Allocated, Error>)
        ensures
            match r {
                Ok(allocated) => allocation(status as int, handle) == Ok::<usize, Error>(
                    allocated.handle(),
                ),
                Err(e) => allocation(status as int, handle) == Err::<usize, Error>(e),
            },
            r is Ok <==> status == GP_OK && handle != 0,
    {
        match translate(status) {
            Err(e) => Err(e),
            Ok(_) => if handle == 0 {
                Err(Error { kind: ErrorKind::DeviceError, code: GP_ERROR_BAD_PARAMETERS })
            } else {
                Ok(Allocated { handle })
            },
        }
    }

    /// The handle to initialise. It is never null.
    pub fn raw_handle(&self) -> (handle: usize)
        ensures
            handle == self.handle(),
            handle != 0,
    {
        proof {
            use_type_invariant(self);
        }
        self.handle
    }

    /// Gives the handle up, to whoever owns it next.
    pub(crate) fn into_handle(self) -> (handle: usize)
        ensures
            handle == self.handle(),
            handle != 0,
    {
        proof {
            use_type_invariant(&self);
        }
        self.handle
    }
}

} // verus!
