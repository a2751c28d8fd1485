//! The reply type and what can be asked of it.

use vstd::pervasive::cloned;
use vstd::prelude::*;

verus! {

/// What a handler hands to the web framework: a status code and a payload, on
/// the success side or on the error side.
///
/// `S` is the payload type of a success, `E` that of an error. A constructor
/// that can only succeed has `E = ()`, one that can only fail has `S = ()`.
#[derive(Debug, PartialEq, Eq)]
#[allow(inconsistent_fields)]
pub enum Reply<S, E> {
    /// The request was served; `body` goes out under `status`.
    Success { status: u16, body: S },
    /// The request was turned down; `body` says why and goes out under `status`.
    Error { status: u16, body: E },
}

/// The reply of a handler that answers with a `T` and fails with an `E`.
pub type ApiResult<T, E> = Reply<T, E>;

impl<S, E> Reply<S, E> {
    /// The status code that the reply carries, whichever side it is on.
    pub open spec fn code(self) -> u16 {
        match self {
            Reply::Success { status, .. } => status,
            Reply::Error { status, .. } => status,
        }
    }

    /// The side agrees with the class of the code: a success carries a 2xx or
    /// 3xx code, an error a 4xx or 5xx code.
    pub open spec fn well_formed(self) -> bool {
        match self {
            Reply::Success { status, .. } => 200 <= status < 400,
            Reply::Error { status, .. } => 400 <= status < 600,
        }
    }

    /// The status code of the reply.
    pub fn status(&self) -> (code: u16)
        ensures
            code == self.code(),
    {
        match self {
            Reply::Success { status, .. } => *status,
            Reply::Error { status, .. } => *status,
        }
    }

    /// Whether the reply is on the success side.
    pub fn is_success(&self) -> (yes: bool)
        ensures
            yes == (*self is Success),
    {
        match self {
            Reply::Success { .. } => true,
            Reply::Error { .. } => false,
        }
    }

    /// Whether the reply is on the error side.
    pub fn is_error(&self) -> (yes: bool)
        ensures
            yes == (*self is Error),
    {
        match self {
            Reply::Success { .. } => false,
            Reply::Error { .. } => true,
        }
    }
}

impl<S: Clone, E: Clone> Reply<S, E> {
    /// `copy` is what cloning this reply may give: the same side, the same
    /// code, and a payload cloned from this one's.
    pub open spec fn clones_to(self, copy: Self) -> bool {
        match (self, copy) {
            (Reply::Success { status: s, body: b }, Reply::Success { status: t, body: c }) => {
                s == t && cloned(b, c)
            },
            (Reply::Error { status: s, body: b }, Reply::Error { status: t, body: c }) => {
                s == t && cloned(b, c)
            },
            _ => false,
        }
    }
}

impl<S: Clone, E: Clone> Clone for Reply<S, E> {
    fn clone(&self) -> (copy: Self)
        ensures
            self.clones_to(copy),
    {
        match self {
            Reply::Success { status, body } => Reply::Success { status: *status, body: body.clone() },
            Reply::Error { status, body } => Reply::Error { status: *status, body: body.clone() },
        }
    }
}

/// In a well-formed reply the code alone tells the side: below 400 it is a
/// success, from 400 on an error, and the code lies between 200 and 599.
pub proof fn lemma_code_tells_side<S, E>(r: Reply<S, E>)
    requires
        r.well_formed(),
    ensures
        200 <= r.code() < 600,
        r is Success <==> r.code() < 400,
        r is Error <==> r.code() >= 400,
{
}

} // verus!
