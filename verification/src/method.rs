//! The fixed cycle of HTTP methods a request can use.

use vstd::prelude::*;

verus! {

/// The HTTP method of a saved request.
#[derive(Clone, Copy, Debug, PartialEq, Eq, Structural)]
pub enum Method {
    Get,
    Post,
    Put,
    Patch,
    Delete,
    Head,
    Options,
}

/// Number of methods in the cycle.
pub const METHOD_CYCLE_LEN: usize = 7;

/// The successor of `method` in the cycle; the last method wraps to the first.
pub open spec fn spec_next_method(method: Method) -> Method {
    match method {
        Method::Get => Method::Post,
        Method::Post => Method::Put,
        Method::Put => Method::Patch,
        Method::Patch => Method::Delete,
        Method::Delete => Method::Head,
        Method::Head => Method::Options,
        Method::Options => Method::Get,
    }
}

/// `spec_next_method` applied `times` times to `method`.
pub open spec fn spec_advance(method: Method, times: nat) -> Method
    decreases times,
{
    if times == 0 {
        method
    } else {
        spec_next_method(spec_advance(method, (times - 1) as nat))
    }
}

/// Advances `method` by one step of the cycle.
pub fn next_method(method: &Method) -> (next: Method)
    ensures
        next == spec_next_method(*method),
{
    match method {
        Method::Get => Method::Post,
        Method::Post => Method::Put,
        Method::Put => Method::Patch,
        Method::Patch => Method::Delete,
        Method::Delete => Method::Head,
        Method::Head => Method::Options,
        Method::Options => Method::Get,
    }
}

/// Going once round the whole cycle returns to the starting method,
/// whichever method that is, and no shorter way does.
pub proof fn lemma_method_cycle_returns(method: Method)
    ensures
        spec_advance(method, METHOD_CYCLE_LEN as nat) == method,
        forall|times: nat|
            0 < times < METHOD_CYCLE_LEN ==> #[trigger] spec_advance(method, times) != method,
{
    reveal_with_fuel(spec_advance, 8);
}

} // verus!
