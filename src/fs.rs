//! SOLID filesystem paths
//!
//! The SOLID filesystem API is not inherently thread-safe. File operations
//! done by safe code are routed through the thread-safety wrapper by
//! prefixing the paths with `\TS`; [`RawPath`] bypasses it.
use vstd::prelude::*;

verus! {

/// The byte `\`.
pub const BACKSLASH: u8 = 0x5c;

/// The path of `path` in the thread-safety wrapper, as a nul-terminated
/// string: `\TS` + `path` + nul, for an absolute path (one that starts with
/// `\`) that holds no nul byte. Other paths have none.
pub open spec fn solid_path_of(path: Seq<u8>) -> Option<Seq<u8>> {
    if path.len() > 0 && path[0] == BACKSLASH && !path.contains(0u8) {
        Some(seq![BACKSLASH, 0x54u8, 0x53u8] + path + seq![0u8])
    } else {
        None
    }
}

/// Convert a path to a SOLID filesystem path in the thread-safety wrapper.
/// Relative paths are not supported.
pub fn to_solid_path(path: &[u8]) -> (r: Option<Vec<u8>>)
    ensures
        r is Some <==> solid_path_of(path@) is Some,
        r matches Some(v) ==> v@ == solid_path_of(path@).unwrap(),
{
    if path.len() == 0 || path[0] != BACKSLASH {
        return None;
    }
    let mut out: Vec<u8> = Vec::new();
    out.push(BACKSLASH);
    out.push(0x54u8);
    out.push(0x53u8);
    let mut i: usize = 0;
    while i < path.len()
        invariant
            i <= path.len(),
            out@ == seq![BACKSLASH, 0x54u8, 0x53u8] + path@.take(i as int),
            forall|j: int| 0 <= j < i ==> path@[j] != 0u8,
        decreases path.len() - i,
    {
        if path[i] == 0u8 {
            assert(path@.contains(0u8)) by {
                assert(path@[i as int] == 0u8);
            }
            return None;
        }
        out.push(path[i]);
        assert(path@.take(i as int + 1) =~= path@.take(i as int).push(path@[i as int]));
        i = i + 1;
    }
    assert(path@.take(i as int) =~= path@);
    assert(!path@.contains(0u8));
    out.push(0u8);
    assert(out@ =~= seq![BACKSLASH, 0x54u8, 0x53u8] + path@ + seq![0u8]);
    Some(out)
}

/// Wraps a value to use it as a SOLID filesystem path unmodified, without
/// the thread-safety wrapper. Some filesystem drivers are unsafe against
/// multi-threaded uses.
pub struct RawPath<T>(T);

impl<T> RawPath<T> {
    /// The wrapped value.
    pub closed spec fn inner(&self) -> T {
        self.0
    }

    /// Construct a `RawPath`.
    pub fn new(raw_path: T) -> (r: Self)
        ensures
            r.inner() == raw_path,
    {
        RawPath(raw_path)
    }

    /// Borrow the contained `T`.
    pub fn as_inner(&self) -> (r: &T)
        ensures
            *r == self.inner(),
    {
        &self.0
    }

    /// Consume a `RawPath<T>` and extract the contained `T`.
    pub fn into_inner(self) -> (r: T)
        ensures
            r == self.inner(),
    {
        self.0
    }
}

} // verus!
