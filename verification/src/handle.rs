use vstd::prelude::*;

verus! {

/// An exclusively-owned reference to a spawned companion process.
///
/// A handle is obtained only from a successful spawn and identifies the
/// child process to the embedding program. The type has no `Clone` or
/// `Copy`: at most one handle to a given process exists, so whoever
/// takes it out of the registry is the only party that can terminate
/// the process.
pub struct ProcessHandle {
    raw: u64,
}

impl View for ProcessHandle {
    type V = u64;

    closed spec fn view(&self) -> u64 {
        self.raw
    }
}

impl ProcessHandle {
    /// Wraps the identifier under which the embedding program knows a
    /// freshly spawned process.
    pub fn from_raw(raw: u64) -> (h: ProcessHandle)
        ensures
            h@ == raw,
    {
        ProcessHandle { raw }
    }

    /// The identifier of the underlying process.
    pub fn raw(&self) -> (r: u64)
        ensures
            r == self@,
    {
        self.raw
    }
}

/// The identifier inside an optional handle, if any.
pub open spec fn opt_handle_id(h: Option<ProcessHandle>) -> Option<u64> {
    match h {
        Some(ph) => Some(ph@),
        None => None,
    }
}

} // verus!
