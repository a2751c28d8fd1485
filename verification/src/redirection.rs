//! Replies of the 3xx class: the client has to go on elsewhere, or already
//! holds what it asked for. They stand on the success side.

use vstd::prelude::*;
use crate::reply::Reply;

verus! {

/// 300 Multiple Choices: the resource has several representations, which `data`
/// lists.
pub fn multiple_choices<T>(data: T) -> (r: Reply<T, ()>)
    ensures
        r == (Reply::<T, ()>::Success { status: 300, body: data }),
        r.well_formed(),
{
    Reply::Success { status: 300, body: data }
}

/// 301 Moved Permanently: the resource lives at `location` from now on.
pub fn moved_permanently(location: &str) -> (r: Reply<String, ()>)
    ensures
        r matches Reply::Success { status, body } && status == 301 && body@ == location@,
        r.well_formed(),
{
    Reply::Success { status: 301, body: location.to_string() }
}

/// 302 Found: the resource is at `location` for the time being.
pub fn found(location: &str) -> (r: Reply<String, ()>)
    ensures
        r matches Reply::Success { status, body } && status == 302 && body@ == location@,
        r.well_formed(),
{
    Reply::Success { status: 302, body: location.to_string() }
}

/// 303 See Other: the answer is to be read from `location` with a GET.
pub fn see_other(location: &str) -> (r: Reply<String, ()>)
    ensures
        r matches Reply::Success { status, body } && status == 303 && body@ == location@,
        r.well_formed(),
{
    Reply::Success { status: 303, body: location.to_string() }
}

/// 304 Not Modified: the copy that the client holds is still good; nothing is
/// sent back.
pub fn not_modified() -> (r: Reply<(), ()>)
    ensures
        r == (Reply::<(), ()>::Success { status: 304, body: () }),
        r.well_formed(),
{
    Reply::Success { status: 304, body: () }
}

/// 305 Use Proxy (deprecated): the resource must be reached through the proxy
/// at `location`.
pub fn use_proxy(location: &str) -> (r: Reply<String, ()>)
    ensures
        r matches Reply::Success { status, body } && status == 305 && body@ == location@,
        r.well_formed(),
{
    Reply::Success { status: 305, body: location.to_string() }
}

/// 307 Temporary Redirect: the request is to be repeated, method unchanged, at
/// `location`.
pub fn temporary_redirect(location: &str) -> (r: Reply<String, ()>)
    ensures
        r matches Reply::Success { status, body } && status == 307 && body@ == location@,
        r.well_formed(),
{
    Reply::Success { status: 307, body: location.to_string() }
}

/// 308 Permanent Redirect: this and later requests are to go, method unchanged,
/// to `location`.
pub fn permanent_redirect(location: &str) -> (r: Reply<String, ()>)
    ensures
        r matches Reply::Success { status, body } && status == 308 && body@ == location@,
        r.well_formed(),
{
    Reply::Success { status: 308, body: location.to_string() }
}

} // verus!
