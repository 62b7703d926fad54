use crate::error::TokenError;
use crate::router::{InternalRouter, Router, STATUS_INTERNAL_SERVER_ERROR, STATUS_OK};
use vstd::prelude::*;

verus! {

/// Asks for a new token for `user_id`, labelled `label`.
#[derive(Debug, PartialEq, Eq)]
pub struct CreateReq {
    pub user_id: u64,
    pub label: String,
}

/// The answer to a [`CreateReq`].
#[derive(Debug, PartialEq, Eq)]
pub enum CreateRes {
    /// The token was issued; `token` is its identifier.
    Created { token: String },
    Error { reason: String },
}

/// What a [`CreateRes`] is, as plain values.
pub ghost enum CreateResView {
    Created { token: Seq<char> },
    Error { reason: Seq<char> },
}

impl View for CreateRes {
    type V = CreateResView;

    open spec fn view(&self) -> CreateResView {
        match self {
            CreateRes::Created { token } => CreateResView::Created { token: token@ },
            CreateRes::Error { reason } => CreateResView::Error { reason: reason@ },
        }
    }
}

impl CreateResView {
    /// The HTTP status that goes with this response.
    pub open spec fn status(self) -> u16 {
        match self {
            CreateResView::Created { .. } => STATUS_OK,
            CreateResView::Error { .. } => STATUS_INTERNAL_SERVER_ERROR,
        }
    }
}

impl CreateRes {
    /// The response to an issued token.
    pub fn success(token: String) -> (response: CreateRes)
        ensures
            response@ == (CreateResView::Created { token: token@ }),
    {
        CreateRes::Created { token }
    }

    /// The response to an error: it carries the error's reason.
    pub fn failure(error: TokenError) -> (response: CreateRes)
        ensures
            response@ == (CreateResView::Error { reason: error@.reason() }),
    {
        CreateRes::Error { reason: error.reason() }
    }

    /// The HTTP status that goes with this response.
    pub fn status(&self) -> (code: u16)
        ensures
            code == self@.status(),
    {
        match self {
            CreateRes::Created { .. } => STATUS_OK,
            CreateRes::Error { .. } => STATUS_INTERNAL_SERVER_ERROR,
        }
    }
}

impl InternalRouter {
    /// The response to what issuing a token ended with.
    pub fn create(outcome: Result<String, TokenError>) -> (response: CreateRes)
        ensures
            response@ == match outcome {
                Ok(token) => CreateResView::Created { token: token@ },
                Err(error) => CreateResView::Error { reason: error@.reason() },
            },
    {
        match outcome {
            Ok(token) => CreateRes::success(token),
            Err(error) => CreateRes::failure(error),
        }
    }
}

impl Router {
    /// The status and body sent for `response`.
    pub fn create(response: CreateRes) -> (reply: (u16, CreateRes))
        ensures
            reply.0 == response@.status(),
            reply.1@ == response@,
    {
        (response.status(), response)
    }
}

} // verus!
