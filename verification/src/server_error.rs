//! Replies of the 5xx class: the server could not serve a request that may
//! well have been valid.

use vstd::prelude::*;
use crate::reply::Reply;

verus! {

/// 500 Internal Server Error: the server met a condition it had not foreseen.
pub fn internal_server_error<T>(data: T) -> (r: Reply<(), T>)
    ensures
        r == (Reply::<(), T>::Error { status: 500, body: data }),
        r.well_formed(),
{
    Reply::Error { status: 500, body: data }
}

/// 501 Not Implemented: the server lacks what the request needs.
pub fn not_implemented<T>(data: T) -> (r: Reply<(), T>)
    ensures
        r == (Reply::<(), T>::Error { status: 501, body: data }),
        r.well_formed(),
{
    Reply::Error { status: 501, body: data }
}

/// 502 Bad Gateway: the server, acting as a gateway, got an invalid answer from
/// upstream.
pub fn bad_gateway<T>(data: T) -> (r: Reply<(), T>)
    ensures
        r == (Reply::<(), T>::Error { status: 502, body: data }),
        r.well_formed(),
{
    Reply::Error { status: 502, body: data }
}

/// 503 Service Unavailable: the server is overloaded or down for maintenance.
pub fn service_unavailable<T>(data: T) -> (r: Reply<(), T>)
    ensures
        r == (Reply::<(), T>::Error { status: 503, body: data }),
        r.well_formed(),
{
    Reply::Error { status: 503, body: data }
}

/// 504 Gateway Timeout: the server, acting as a gateway, got no answer from
/// upstream in time.
pub fn gateway_timeout<T>(data: T) -> (r: Reply<(), T>)
    ensures
        r == (Reply::<(), T>::Error { status: 504, body: data }),
        r.well_formed(),
{
    Reply::Error { status: 504, body: data }
}

/// 505 HTTP Version Not Supported: the server does not speak the request's HTTP
/// version.
pub fn http_version_not_supported<T>(data: T) -> (r: Reply<(), T>)
    ensures
        r == (Reply::<(), T>::Error { status: 505, body: data }),
        r.well_formed(),
{
    Reply::Error { status: 505, body: data }
}

/// 506 Variant Also Negotiates: the chosen variant is itself set up to
/// negotiate content.
pub fn variant_also_negotiates<T>(data: T) -> (r: Reply<(), T>)
    ensures
        r == (Reply::<(), T>::Error { status: 506, body: data }),
        r.well_formed(),
{
    Reply::Error { status: 506, body: data }
}

/// 507 Insufficient Storage (WebDAV): the server cannot store what the request
/// needs stored.
pub fn insufficient_storage<T>(data: T) -> (r: Reply<(), T>)
    ensures
        r == (Reply::<(), T>::Error { status: 507, body: data }),
        r.well_formed(),
{
    Reply::Error { status: 507, body: data }
}

/// 508 Loop Detected (WebDAV): the server found an endless loop while serving
/// the request.
pub fn loop_detected<T>(data: T) -> (r: Reply<(), T>)
    ensures
        r == (Reply::<(), T>::Error { status: 508, body: data }),
        r.well_formed(),
{
    Reply::Error { status: 508, body: data }
}

/// 510 Not Extended: the request lacks an extension that the server demands.
pub fn not_extended<T>(data: T) -> (r: Reply<(), T>)
    ensures
        r == (Reply::<(), T>::Error { status: 510, body: data }),
        r.well_formed(),
{
    Reply::Error { status: 510, body: data }
}

/// 511 Network Authentication Required: the client must authenticate to get
/// onto the network.
pub fn network_auth_required<T>(data: T) -> (r: Reply<(), T>)
    ensures
        r == (Reply::<(), T>::Error { status: 511, body: data }),
        r.well_formed(),
{
    Reply::Error { status: 511, body: data }
}

} // verus!
