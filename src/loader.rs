//! SOLID Loader API: what the loader's statuses mean.
//!
//! All calls to the loader must be externally synchronized; the loader is
//! not thread-safe. The calls themselves are made by the owner of the
//! loader, which hands the statuses to the functions here.
use vstd::prelude::*;

use crate::abi::{SOLID_ERR_NOMEM, SOLID_ERR_NOTFOUND, SOLID_ERR_OK, SOLID_ERR_PAR};
use crate::error::Error;

verus! {

/// Represents the loader instance.
pub struct Loader(());

/// A reference to a loader instance, with its lifetime.
pub struct LoaderRef {
    _loader: (),
}

impl Loader {
    /// Get the global instance of the loader. All API calls to the loader
    /// must be externally synchronized.
    pub fn global_unchecked() -> LoaderRef {
        LoaderRef { _loader: () }
    }
}

/// An error type indicating that a specified object name was not found in a
/// loader database.
#[derive(PartialEq, Eq, Structural, Clone, Copy, Debug)]
pub struct NotFoundError;

/// The error type for loading an object.
#[derive(PartialEq, Eq, Structural, Clone, Copy, Debug)]
pub enum LoadError {
    /// The specified object name is already in use.
    ObjectNameInUse,
    Other(Error),
}

/// The error type for registering a symbol.
#[derive(PartialEq, Eq, Structural, Clone, Copy, Debug)]
pub enum RegisterSymbolError {
    OutOfMemory,
}

impl LoaderRef {
    /// The value of a symbol, from the status of the loader's global lookup
    /// and the address it wrote.
    pub fn symbol_value(&self, status: i32, addr: usize) -> (r: Result<usize, NotFoundError>)
        requires
            status == SOLID_ERR_OK || status == SOLID_ERR_NOTFOUND,
        ensures
            status == SOLID_ERR_OK ==> r == Ok::<usize, NotFoundError>(addr),
            status == SOLID_ERR_NOTFOUND ==> r == Err::<usize, NotFoundError>(NotFoundError),
    {
        if status == SOLID_ERR_OK {
            Ok(addr)
        } else {
            Err(NotFoundError)
        }
    }

    /// The value of a symbol in a loaded object, from the status of the
    /// loader's lookup and the address it wrote. An unknown object is
    /// reported as a parameter error.
    pub fn symbol_value_in_object(&self, status: i32, addr: usize) -> (r: Result<
        usize,
        NotFoundError,
    >)
        requires
            status == SOLID_ERR_OK || status == SOLID_ERR_NOTFOUND || status == SOLID_ERR_PAR,
        ensures
            status == SOLID_ERR_OK ==> r == Ok::<usize, NotFoundError>(addr),
            status != SOLID_ERR_OK ==> r == Err::<usize, NotFoundError>(NotFoundError),
    {
        if status == SOLID_ERR_OK {
            Ok(addr)
        } else {
            Err(NotFoundError)
        }
    }

    /// The entry point of a loaded object, from the loader's executability
    /// check (non-negative when the object exists) and the address it wrote.
    pub fn object_entry_addr(&self, can_exec: i32, addr: usize) -> (r: Result<usize, NotFoundError>)
        requires
            can_exec >= 0 || can_exec == SOLID_ERR_NOTFOUND,
        ensures
            can_exec >= 0 ==> r == Ok::<usize, NotFoundError>(addr),
            can_exec < 0 ==> r == Err::<usize, NotFoundError>(NotFoundError),
    {
        if can_exec >= 0 {
            Ok(addr)
        } else {
            Err(NotFoundError)
        }
    }

    /// Whether a loaded object is fully linked and executable, from the
    /// loader's executability check. The memory sections of a loaded object
    /// are non-executable until all relocations are resolved.
    pub fn is_object_ready(&self, can_exec: i32) -> (r: Result<bool, NotFoundError>)
        requires
            can_exec >= 0 || can_exec == SOLID_ERR_NOTFOUND,
        ensures
            can_exec >= 0 ==> r == Ok::<bool, NotFoundError>(can_exec != 0),
            can_exec < 0 ==> r == Err::<bool, NotFoundError>(NotFoundError),
    {
        if can_exec >= 0 {
            Ok(can_exec != 0)
        } else {
            Err(NotFoundError)
        }
    }

    /// The outcome of unloading an object, from the loader's status.
    pub fn unload_object(&self, status: i32) -> (r: Result<(), NotFoundError>)
        requires
            status == SOLID_ERR_OK || status == SOLID_ERR_NOTFOUND,
        ensures
            status == SOLID_ERR_OK <==> r is Ok,
    {
        if status == SOLID_ERR_OK {
            Ok(())
        } else {
            Err(NotFoundError)
        }
    }

    /// The outcome of registering a symbol, from the loader's status.
    pub fn register_symbol(&self, status: i32) -> (r: Result<(), RegisterSymbolError>)
        requires
            status == SOLID_ERR_OK || status == SOLID_ERR_NOMEM,
        ensures
            status == SOLID_ERR_OK ==> r is Ok,
            status == SOLID_ERR_NOMEM ==> r == Err::<(), RegisterSymbolError>(
                RegisterSymbolError::OutOfMemory,
            ),
    {
        if status == SOLID_ERR_OK {
            Ok(())
        } else {
            Err(RegisterSymbolError::OutOfMemory)
        }
    }
}

} // verus!
