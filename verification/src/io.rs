//! Readiness polling over host resources: the checks made before the host
//! is asked to wait.
use vstd::prelude::*;
use crate::error::{SysError, api_error_str};

verus! {

/// Maximum number of handles accepted by one [`poll`] call.
pub const MAX_POLLABLES_PER_CALL: usize = 256;

/// An opaque readiness signal, named by the host handle it stands for.
#[derive(Debug)]
pub struct Pollable {
    handle: u32,
}

impl View for Pollable {
    type V = u32;

    closed spec fn view(&self) -> u32 {
        self.handle
    }
}

impl Pollable {
    /// The signal for host handle `handle`.
    pub fn new(handle: u32) -> (p: Pollable)
        ensures
            p@ == handle,
    {
        Pollable { handle }
    }

    /// The host handle.
    pub fn handle(&self) -> (h: u32)
        ensures
            h == self@,
    {
        self.handle
    }
}

/// The handles to wait on, in input order, once the set is checked: it
/// must hold between 1 and [`MAX_POLLABLES_PER_CALL`] signals.
pub fn poll(pollables: &[&Pollable]) -> (r: Result<Vec<u32>, SysError>)
    ensures
        pollables@.len() == 0 ==> (r matches Err(SysError::ApiError(m)) && m@
            == "poll requires at least one pollable"@),
        pollables@.len() > MAX_POLLABLES_PER_CALL ==> (r matches Err(SysError::ApiError(m)) && m@
            == "poll accepts at most 256 pollables"@),
        0 < pollables@.len() <= MAX_POLLABLES_PER_CALL ==> (r matches Ok(hs) && hs@.len()
            == pollables@.len() && forall|i: int| 0 <= i < hs@.len() ==> hs@[i] == pollables@[i]@),
{
    if pollables.len() == 0 {
        return Err(api_error_str("poll requires at least one pollable"));
    }
    if pollables.len() > MAX_POLLABLES_PER_CALL {
        return Err(api_error_str("poll accepts at most 256 pollables"));
    }
    let mut handles: Vec<u32> = Vec::new();
    let mut i: usize = 0;
    while i < pollables.len()
        invariant
            i <= pollables@.len(),
            handles@.len() == i,
            forall|j: int| 0 <= j < i ==> handles@[j] == pollables@[j]@,
        decreases pollables.len() - i,
    {
        handles.push(pollables[i].handle());
        i = i + 1;
    }
    Ok(handles)
}

/// The host's ready indices as positions in the polled set, in order.
pub fn ready_indices(indices: Vec<u32>) -> (r: Vec<usize>)
    ensures
        r@.len() == indices@.len(),
        forall|i: int| 0 <= i < r@.len() ==> r@[i] == indices@[i],
{
    let mut out: Vec<usize> = Vec::new();
    let mut i: usize = 0;
    while i < indices.len()
        invariant
            i <= indices@.len(),
            out@.len() == i,
            forall|j: int| 0 <= j < i ==> out@[j] == indices@[j],
        decreases indices.len() - i,
    {
        out.push(indices[i] as usize);
        i = i + 1;
    }
    out
}

} // verus!
