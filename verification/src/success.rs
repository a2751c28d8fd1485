//! Replies of the 2xx class: the request was received, understood and served.

use vstd::prelude::*;
use crate::reply::Reply;

verus! {

/// 200 OK: the request succeeded and `data` is its result.
pub fn ok<T>(data: T) -> (r: Reply<T, ()>)
    ensures
        r == (Reply::<T, ()>::Success { status: 200, body: data }),
        r.well_formed(),
{
    Reply::Success { status: 200, body: data }
}

/// 201 Created: the request led to a new resource, which `data` describes.
pub fn created<T>(data: T) -> (r: Reply<T, ()>)
    ensures
        r == (Reply::<T, ()>::Success { status: 201, body: data }),
        r.well_formed(),
{
    Reply::Success { status: 201, body: data }
}

/// 202 Accepted: the request was taken on and is not finished yet; `data` says
/// what is known so far.
pub fn accepted<T>(data: T) -> (r: Reply<T, ()>)
    ensures
        r == (Reply::<T, ()>::Success { status: 202, body: data }),
        r.well_formed(),
{
    Reply::Success { status: 202, body: data }
}

/// 203 Non-Authoritative Information: the request succeeded, and `data` was
/// changed on the way by a proxy.
pub fn non_authoritative<T>(data: T) -> (r: Reply<T, ()>)
    ensures
        r == (Reply::<T, ()>::Success { status: 203, body: data }),
        r.well_formed(),
{
    Reply::Success { status: 203, body: data }
}

/// 204 No Content: the request succeeded and there is nothing to send back.
pub fn no_content() -> (r: Reply<(), ()>)
    ensures
        r == (Reply::<(), ()>::Success { status: 204, body: () }),
        r.well_formed(),
{
    Reply::Success { status: 204, body: () }
}

/// 205 Reset Content: the request succeeded and the client should clear the
/// view that sent it; nothing is sent back.
pub fn reset_content() -> (r: Reply<(), ()>)
    ensures
        r == (Reply::<(), ()>::Success { status: 205, body: () }),
        r.well_formed(),
{
    Reply::Success { status: 205, body: () }
}

/// 206 Partial Content: `data` is the range of the resource that the request
/// asked for.
pub fn partial_content<T>(data: T) -> (r: Reply<T, ()>)
    ensures
        r == (Reply::<T, ()>::Success { status: 206, body: data }),
        r.well_formed(),
{
    Reply::Success { status: 206, body: data }
}

/// 207 Multi-Status (WebDAV): `data` reports the outcome of each of several
/// operations.
pub fn multi_status<T>(data: T) -> (r: Reply<T, ()>)
    ensures
        r == (Reply::<T, ()>::Success { status: 207, body: data }),
        r.well_formed(),
{
    Reply::Success { status: 207, body: data }
}

/// 208 Already Reported (WebDAV): the members of a binding were listed earlier
/// in the same answer; `data` holds the rest.
pub fn already_reported<T>(data: T) -> (r: Reply<T, ()>)
    ensures
        r == (Reply::<T, ()>::Success { status: 208, body: data }),
        r.well_formed(),
{
    Reply::Success { status: 208, body: data }
}

/// 226 IM Used: `data` is the result of instance manipulations applied to the
/// resource.
pub fn im_used<T>(data: T) -> (r: Reply<T, ()>)
    ensures
        r == (Reply::<T, ()>::Success { status: 226, body: data }),
        r.well_formed(),
{
    Reply::Success { status: 226, body: data }
}

} // verus!
