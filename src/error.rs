//! Error codes of SOLID-OS
use vstd::prelude::*;

verus! {

/// An unprocessed SOLID error code: always negative.
#[derive(Clone, Copy, PartialEq, Eq, Structural, Debug, Hash)]
pub struct Error {
    code: i32,
}

impl View for Error {
    type V = i32;

    closed spec fn view(&self) -> i32 {
        self.code
    }
}

impl Error {
    /// Construct `Self` from a raw error code. Only negative codes are errors.
    pub fn from_raw(code: i32) -> (r: Option<Self>)
        ensures
            r.is_some() <==> code < 0,
            r matches Some(e) ==> e@ == code,
    {
        if code < 0 {
            Some(Error { code })
        } else {
            None
        }
    }

    /// The raw error code.
    pub fn get(&self) -> (r: i32)
        ensures
            r == self@,
    {
        self.code
    }

    /// Turn a status or count returned by the OS into a `Result`: negative
    /// values are errors, the others are returned as they are.
    pub fn err_if_negative(x: i32) -> (r: Result<i32, Self>)
        ensures
            x >= 0 ==> r == Ok::<i32, Self>(x),
            x < 0 ==> (r matches Err(e) && e@ == x),
    {
        match Error::from_raw(x) {
            Some(e) => Err(e),
            None => Ok(x),
        }
    }
}

} // verus!
