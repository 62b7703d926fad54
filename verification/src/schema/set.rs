use crate::error::TokenError;
use crate::router::{InternalRouter, Router, STATUS_INTERNAL_SERVER_ERROR, STATUS_OK};
use vstd::prelude::*;

verus! {

/// Asks to set the label of the token with identifier `token` to `label`.
#[derive(Debug, PartialEq, Eq)]
pub struct SetReq {
    pub token: String,
    pub label: String,
}

/// The answer to a [`SetReq`].
#[derive(Debug, PartialEq, Eq)]
pub enum SetRes {
    Relabelled,
    Error { reason: String },
}

/// What a [`SetRes`] is, as plain values.
pub ghost enum SetResView {
    Relabelled,
    Error { reason: Seq<char> },
}

impl View for SetRes {
    type V = SetResView;

    open spec fn view(&self) -> SetResView {
        match self {
            SetRes::Relabelled => SetResView::Relabelled,
            SetRes::Error { reason } => SetResView::Error { reason: reason@ },
        }
    }
}

impl SetResView {
    /// The HTTP status that goes with this response.
    pub open spec fn status(self) -> u16 {
        match self {
            SetResView::Relabelled => STATUS_OK,
            SetResView::Error { .. } => STATUS_INTERNAL_SERVER_ERROR,
        }
    }
}

impl SetRes {
    /// The response to a changed label.
    pub fn success(_done: ()) -> (response: SetRes)
        ensures
            response@ == SetResView::Relabelled,
    {
        SetRes::Relabelled
    }

    /// The response to an error: it carries the error's reason.
    pub fn failure(error: TokenError) -> (response: SetRes)
        ensures
            response@ == (SetResView::Error { reason: error@.reason() }),
    {
        SetRes::Error { reason: error.reason() }
    }

    /// The HTTP status that goes with this response.
    pub fn status(&self) -> (code: u16)
        ensures
            code == self@.status(),
    {
        match self {
            SetRes::Relabelled => STATUS_OK,
            SetRes::Error { .. } => STATUS_INTERNAL_SERVER_ERROR,
        }
    }
}

impl InternalRouter {
    /// The response to what a relabelling ended with.
    pub fn set(outcome: Result<(), TokenError>) -> (response: SetRes)
        ensures
            response@ == match outcome {
                Ok(_) => SetResView::Relabelled,
                Err(error) => SetResView::Error { reason: error@.reason() },
            },
    {
        match outcome {
            Ok(done) => SetRes::success(done),
            Err(error) => SetRes::failure(error),
        }
    }
}

impl Router {
    /// The status and body sent for `response`.
    pub fn set(response: SetRes) -> (reply: (u16, SetRes))
        ensures
            reply.0 == response@.status(),
            reply.1@ == response@,
    {
        (response.status(), response)
    }
}

} // verus!
