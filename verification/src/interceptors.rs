//! Interceptor bindings of run-loop capsules: the runtime-managed
//! subscriptions behind each interceptor action, and which of them have
//! events to dispatch.
use vstd::prelude::*;
use crate::ipc::{PollResult, SubscriptionHandle};
use crate::text::{decimal, decimal_chars, str_bytes, string_from_chars};

verus! {

/// A single interceptor subscription binding.
#[derive(Debug)]
pub struct InterceptorBinding {
    /// The IPC subscription handle ID.
    pub handle_id: u64,
    /// The interceptor action name from the manifest.
    pub action: String,
    /// The event topic this interceptor subscribes to.
    pub topic: String,
}

impl InterceptorBinding {
    /// The subscription handle to poll for this binding.
    pub fn subscription_handle(&self) -> (h: SubscriptionHandle)
        ensures
            h.0 == self.handle_id,
    {
        SubscriptionHandle(self.handle_id)
    }

    /// The handle id as decimal text in UTF-8 bytes, for lower-level
    /// interop.
    pub fn handle_bytes(&self) -> (b: Vec<u8>)
        ensures
            b@ == vstd::utf8::encode_utf8(decimal(self.handle_id as nat)),
    {
        let digits = decimal_chars(self.handle_id);
        let text = string_from_chars(digits.as_slice());
        str_bytes(text.as_str())
    }
}

/// The bindings to dispatch, given each binding's poll result (`results[i]`
/// belongs to `bindings[i]`): those with pending messages, in order. The
/// handler is called once for each, with the binding's action.
pub fn poll(bindings: &[InterceptorBinding], results: &[PollResult]) -> (r: Vec<usize>)
    requires
        bindings@.len() == results@.len(),
    ensures
        forall|k: int| 0 <= k < r@.len() ==> r@[k] < results@.len() && results@[r@[k] as int].messages@.len() > 0,
        forall|k: int, l: int| 0 <= k < l < r@.len() ==> r@[k] < r@[l],
        forall|i: int| 0 <= i < results@.len() && results@[i].messages@.len() > 0 ==> r@.contains(i as usize),
{
    let mut out: Vec<usize> = Vec::new();
    let mut i: usize = 0;
    while i < results.len()
        invariant
            i <= results@.len(),
            forall|k: int| 0 <= k < out@.len() ==> out@[k] < i && results@[out@[k] as int].messages@.len() > 0,
            forall|k: int, l: int| 0 <= k < l < out@.len() ==> out@[k] < out@[l],
            forall|j: int| 0 <= j < i && results@[j].messages@.len() > 0 ==> out@.contains(j as usize),
        decreases results.len() - i,
    {
        if results[i].messages.len() > 0 {
            let ghost before = out@;
            out.push(i);
            proof {
                assert forall|j: int| 0 <= j < i + 1 && results@[j].messages@.len() > 0 implies out@.contains(j as usize) by {
                    if j < i {
                        let w = choose|w: int| 0 <= w < before.len() && before[w] == j as usize;
                        assert(out@[w] == j as usize);
                    } else {
                        assert(out@[before.len() as int] == i);
                    }
                }
            }
        }
        i = i + 1;
    }
    out
}

} // verus!
