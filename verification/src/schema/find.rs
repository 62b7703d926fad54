use crate::error::TokenError;
use crate::router::{InternalRouter, Router, STATUS_INTERNAL_SERVER_ERROR, STATUS_OK};
use crate::token::Token;
use vstd::prelude::*;

verus! {

/// Asks for the record of the token with identifier `token`.
#[derive(Debug, PartialEq, Eq)]
pub struct FindReq {
    pub token: String,
}

/// The answer to a [`FindReq`].
#[derive(Debug, PartialEq, Eq)]
pub enum FindRes {
    /// The record, without the identifier that the request named.
    Found { user_id: u64, label: String, created: u64 },
    Error { reason: String },
}

/// What a [`FindRes`] is, as plain values.
pub ghost enum FindResView {
    Found { user_id: u64, label: Seq<char>, created: u64 },
    Error { reason: Seq<char> },
}

impl View for FindRes {
    type V = FindResView;

    open spec fn view(&self) -> FindResView {
        match self {
            FindRes::Found { user_id, label, created } => FindResView::Found {
                user_id: *user_id,
                label: label@,
                created: *created,
            },
            FindRes::Error { reason } => FindResView::Error { reason: reason@ },
        }
    }
}

impl FindResView {
    /// The HTTP status that goes with this response.
    pub open spec fn status(self) -> u16 {
        match self {
            FindResView::Found { .. } => STATUS_OK,
            FindResView::Error { .. } => STATUS_INTERNAL_SERVER_ERROR,
        }
    }
}

impl FindRes {
    /// The response to a record that was found.
    pub fn success(token: Token) -> (response: FindRes)
        ensures
            response@ == (FindResView::Found {
                user_id: token@.user_id,
                label: token@.label,
                created: token@.created,
            }),
    {
        FindRes::Found { user_id: token.user_id, label: token.label, created: token.created }
    }

    /// The response to an error: it carries the error's reason.
    pub fn failure(error: TokenError) -> (response: FindRes)
        ensures
            response@ == (FindResView::Error { reason: error@.reason() }),
    {
        FindRes::Error { reason: error.reason() }
    }

    /// The HTTP status that goes with this response.
    pub fn status(&self) -> (code: u16)
        ensures
            code == self@.status(),
    {
        match self {
            FindRes::Found { .. } => STATUS_OK,
            FindRes::Error { .. } => STATUS_INTERNAL_SERVER_ERROR,
        }
    }
}

impl InternalRouter {
    /// The response to what a lookup ended with.
    pub fn find(outcome: Result<Token, TokenError>) -> (response: FindRes)
        ensures
            response@ == match outcome {
                Ok(token) => FindResView::Found {
                    user_id: token@.user_id,
                    label: token@.label,
                    created: token@.created,
                },
                Err(error) => FindResView::Error { reason: error@.reason() },
            },
    {
        match outcome {
            Ok(token) => FindRes::success(token),
            Err(error) => FindRes::failure(error),
        }
    }
}

impl Router {
    /// The status and body sent for `response`.
    pub fn find(response: FindRes) -> (reply: (u16, FindRes))
        ensures
            reply.0 == response@.status(),
            reply.1@ == response@,
    {
        (response.status(), response)
    }
}

} // verus!
