use crate::error::TokenError;
use crate::router::{InternalRouter, Router, STATUS_INTERNAL_SERVER_ERROR, STATUS_OK};
use vstd::prelude::*;

verus! {

/// Asks to revoke the token with identifier `token`.
#[derive(Debug, PartialEq, Eq)]
pub struct RemoveReq {
    pub token: String,
}

/// The answer to a [`RemoveReq`].
#[derive(Debug, PartialEq, Eq)]
pub enum RemoveRes {
    Removed,
    Error { reason: String },
}

/// What a [`RemoveRes`] is, as plain values.
pub ghost enum RemoveResView {
    Removed,
    Error { reason: Seq<char> },
}

impl View for RemoveRes {
    type V = RemoveResView;

    open spec fn view(&self) -> RemoveResView {
        match self {
            RemoveRes::Removed => RemoveResView::Removed,
            RemoveRes::Error { reason } => RemoveResView::Error { reason: reason@ },
        }
    }
}

impl RemoveResView {
    /// The HTTP status that goes with this response.
    pub open spec fn status(self) -> u16 {
        match self {
            RemoveResView::Removed => STATUS_OK,
            RemoveResView::Error { .. } => STATUS_INTERNAL_SERVER_ERROR,
        }
    }
}

impl RemoveRes {
    /// The response to a revoked token.
    pub fn success(_done: ()) -> (response: RemoveRes)
        ensures
            response@ == RemoveResView::Removed,
    {
        RemoveRes::Removed
    }

    /// The response to an error: it carries the error's reason.
    pub fn failure(error: TokenError) -> (response: RemoveRes)
        ensures
            response@ == (RemoveResView::Error { reason: error@.reason() }),
    {
        RemoveRes::Error { reason: error.reason() }
    }

    /// The HTTP status that goes with this response.
    pub fn status(&self) -> (code: u16)
        ensures
            code == self@.status(),
    {
        match self {
            RemoveRes::Removed => STATUS_OK,
            RemoveRes::Error { .. } => STATUS_INTERNAL_SERVER_ERROR,
        }
    }
}

impl InternalRouter {
    /// The response to what a revocation ended with.
    pub fn remove(outcome: Result<(), TokenError>) -> (response: RemoveRes)
        ensures
            response@ == match outcome {
                Ok(_) => RemoveResView::Removed,
                Err(error) => RemoveResView::Error { reason: error@.reason() },
            },
    {
        match outcome {
            Ok(done) => RemoveRes::success(done),
            Err(error) => RemoveRes::failure(error),
        }
    }
}

impl Router {
    /// The status and body sent for `response`.
    pub fn remove(response: RemoveRes) -> (reply: (u16, RemoveRes))
        ensures
            reply.0 == response@.status(),
            reply.1@ == response@,
    {
        (response.status(), response)
    }
}

} // verus!
