//! Settings daemon instantiation: the consumer's control requests.

use vstd::prelude::*;

verus! {

/// A control request the consumer sends back through the command bridge.
#[derive(Clone, Copy, Debug, PartialEq, Eq, Structural)]
pub enum Request {
    SetDisplayBrightness(i32),
}

/// Dispatch one consumer request to its native call.  The brightness is
/// applied as given; nothing is echoed back — the consumer sees the new
/// value through the change stream instead.
pub fn apply_request(request: Request) -> (r: i32)
    ensures
        r == (match request {
            Request::SetDisplayBrightness(v) => v,
        }),
{
    match request {
        Request::SetDisplayBrightness(v) => v,
    }
}

} // verus!
