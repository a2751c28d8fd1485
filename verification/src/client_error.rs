//! Replies of the 4xx class: the request cannot be served as it was sent.

use vstd::prelude::*;
use crate::reply::Reply;

verus! {

/// 400 Bad Request: the request is malformed; `data` says how.
pub fn bad_request<T>(data: T) -> (r: Reply<(), T>)
    ensures
        r == (Reply::<(), T>::Error { status: 400, body: data }),
        r.well_formed(),
{
    Reply::Error { status: 400, body: data }
}

/// 401 Unauthorized: the request carries no valid credentials.
pub fn unauthorized<T>(data: T) -> (r: Reply<(), T>)
    ensures
        r == (Reply::<(), T>::Error { status: 401, body: data }),
        r.well_formed(),
{
    Reply::Error { status: 401, body: data }
}

/// 402 Payment Required: reserved for requests that have to be paid for.
pub fn payment_required<T>(data: T) -> (r: Reply<(), T>)
    ensures
        r == (Reply::<(), T>::Error { status: 402, body: data }),
        r.well_formed(),
{
    Reply::Error { status: 402, body: data }
}

/// 403 Forbidden: the request was understood and is refused.
pub fn forbidden<T>(data: T) -> (r: Reply<(), T>)
    ensures
        r == (Reply::<(), T>::Error { status: 403, body: data }),
        r.well_formed(),
{
    Reply::Error { status: 403, body: data }
}

/// 404 Not Found: nothing is known under the requested address.
pub fn not_found<T>(data: T) -> (r: Reply<(), T>)
    ensures
        r == (Reply::<(), T>::Error { status: 404, body: data }),
        r.well_formed(),
{
    Reply::Error { status: 404, body: data }
}

/// 405 Method Not Allowed: the resource does not support the request's method.
pub fn method_not_allowed<T>(data: T) -> (r: Reply<(), T>)
    ensures
        r == (Reply::<(), T>::Error { status: 405, body: data }),
        r.well_formed(),
{
    Reply::Error { status: 405, body: data }
}

/// 406 Not Acceptable: no representation meets the request's Accept headers.
pub fn not_acceptable<T>(data: T) -> (r: Reply<(), T>)
    ensures
        r == (Reply::<(), T>::Error { status: 406, body: data }),
        r.well_formed(),
{
    Reply::Error { status: 406, body: data }
}

/// 407 Proxy Authentication Required: the client must first authenticate with
/// the proxy.
pub fn proxy_auth_required<T>(data: T) -> (r: Reply<(), T>)
    ensures
        r == (Reply::<(), T>::Error { status: 407, body: data }),
        r.well_formed(),
{
    Reply::Error { status: 407, body: data }
}

/// 408 Request Timeout: the client took too long to send the request.
pub fn request_timeout<T>(data: T) -> (r: Reply<(), T>)
    ensures
        r == (Reply::<(), T>::Error { status: 408, body: data }),
        r.well_formed(),
{
    Reply::Error { status: 408, body: data }
}

/// 409 Conflict: the request contradicts the present state of the resource.
pub fn conflict<T>(data: T) -> (r: Reply<(), T>)
    ensures
        r == (Reply::<(), T>::Error { status: 409, body: data }),
        r.well_formed(),
{
    Reply::Error { status: 409, body: data }
}

/// 410 Gone: the resource was here once and will not come back.
pub fn gone<T>(data: T) -> (r: Reply<(), T>)
    ensures
        r == (Reply::<(), T>::Error { status: 410, body: data }),
        r.well_formed(),
{
    Reply::Error { status: 410, body: data }
}

/// 411 Length Required: the request must state its Content-Length.
pub fn length_required<T>(data: T) -> (r: Reply<(), T>)
    ensures
        r == (Reply::<(), T>::Error { status: 411, body: data }),
        r.well_formed(),
{
    Reply::Error { status: 411, body: data }
}

/// 412 Precondition Failed: a condition in the request's headers does not hold.
pub fn precondition_failed<T>(data: T) -> (r: Reply<(), T>)
    ensures
        r == (Reply::<(), T>::Error { status: 412, body: data }),
        r.well_formed(),
{
    Reply::Error { status: 412, body: data }
}

/// 413 Payload Too Large: the request's body is larger than the server accepts.
pub fn payload_too_large<T>(data: T) -> (r: Reply<(), T>)
    ensures
        r == (Reply::<(), T>::Error { status: 413, body: data }),
        r.well_formed(),
{
    Reply::Error { status: 413, body: data }
}

/// 414 URI Too Long: the requested address is longer than the server accepts.
pub fn uri_too_long<T>(data: T) -> (r: Reply<(), T>)
    ensures
        r == (Reply::<(), T>::Error { status: 414, body: data }),
        r.well_formed(),
{
    Reply::Error { status: 414, body: data }
}

/// 415 Unsupported Media Type: the body's format is not one the resource takes.
pub fn unsupported_media_type<T>(data: T) -> (r: Reply<(), T>)
    ensures
        r == (Reply::<(), T>::Error { status: 415, body: data }),
        r.well_formed(),
{
    Reply::Error { status: 415, body: data }
}

/// 416 Range Not Satisfiable: the requested range lies outside the resource.
pub fn range_not_satisfiable<T>(data: T) -> (r: Reply<(), T>)
    ensures
        r == (Reply::<(), T>::Error { status: 416, body: data }),
        r.well_formed(),
{
    Reply::Error { status: 416, body: data }
}

/// 417 Expectation Failed: the server cannot meet the request's Expect header.
pub fn expectation_failed<T>(data: T) -> (r: Reply<(), T>)
    ensures
        r == (Reply::<(), T>::Error { status: 417, body: data }),
        r.well_formed(),
{
    Reply::Error { status: 417, body: data }
}

/// 418 I'm a teapot: the server declines to brew coffee.
pub fn im_a_teapot<T>(data: T) -> (r: Reply<(), T>)
    ensures
        r == (Reply::<(), T>::Error { status: 418, body: data }),
        r.well_formed(),
{
    Reply::Error { status: 418, body: data }
}

/// 421 Misdirected Request: the request reached a server that cannot answer for
/// its address.
pub fn misdirected_request<T>(data: T) -> (r: Reply<(), T>)
    ensures
        r == (Reply::<(), T>::Error { status: 421, body: data }),
        r.well_formed(),
{
    Reply::Error { status: 421, body: data }
}

/// 422 Unprocessable Entity (WebDAV): the body is well formed and its content
/// cannot be acted on.
pub fn unprocessable_entity<T>(data: T) -> (r: Reply<(), T>)
    ensures
        r == (Reply::<(), T>::Error { status: 422, body: data }),
        r.well_formed(),
{
    Reply::Error { status: 422, body: data }
}

/// 423 Locked (WebDAV): the resource is locked.
pub fn locked<T>(data: T) -> (r: Reply<(), T>)
    ensures
        r == (Reply::<(), T>::Error { status: 423, body: data }),
        r.well_formed(),
{
    Reply::Error { status: 423, body: data }
}

/// 424 Failed Dependency (WebDAV): an operation that this one depends on has
/// failed.
pub fn failed_dependency<T>(data: T) -> (r: Reply<(), T>)
    ensures
        r == (Reply::<(), T>::Error { status: 424, body: data }),
        r.well_formed(),
{
    Reply::Error { status: 424, body: data }
}

/// 426 Upgrade Required: the client must switch to another protocol.
pub fn upgrade_required<T>(data: T) -> (r: Reply<(), T>)
    ensures
        r == (Reply::<(), T>::Error { status: 426, body: data }),
        r.well_formed(),
{
    Reply::Error { status: 426, body: data }
}

/// 428 Precondition Required: the request must be made conditional.
pub fn precondition_required<T>(data: T) -> (r: Reply<(), T>)
    ensures
        r == (Reply::<(), T>::Error { status: 428, body: data }),
        r.well_formed(),
{
    Reply::Error { status: 428, body: data }
}

/// 429 Too Many Requests: the client has sent more requests than it may in the
/// time given.
pub fn too_many_requests<T>(data: T) -> (r: Reply<(), T>)
    ensures
        r == (Reply::<(), T>::Error { status: 429, body: data }),
        r.well_formed(),
{
    Reply::Error { status: 429, body: data }
}

/// 431 Request Header Fields Too Large: the request's headers are larger than
/// the server accepts.
pub fn request_header_fields_too_large<T>(data: T) -> (r: Reply<(), T>)
    ensures
        r == (Reply::<(), T>::Error { status: 431, body: data }),
        r.well_formed(),
{
    Reply::Error { status: 431, body: data }
}

/// 451 Unavailable For Legal Reasons: the resource is withheld on legal demand.
pub fn unavailable_for_legal_reasons<T>(data: T) -> (r: Reply<(), T>)
    ensures
        r == (Reply::<(), T>::Error { status: 451, body: data }),
        r.well_formed(),
{
    Reply::Error { status: 451, body: data }
}

} // verus!
