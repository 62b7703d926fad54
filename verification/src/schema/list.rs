use crate::error::TokenError;
use crate::router::{InternalRouter, Router, STATUS_INTERNAL_SERVER_ERROR, STATUS_OK};
use crate::token::{Token, TokenView};
use vstd::prelude::*;
use vstd::std_specs::convert::FromSpecImpl;

verus! {

/// The page asked for where a [`ListReq`] names none.
pub const DEFAULT_PAGE: u64 = 0;

/// Asks for page `page`, counted from zero, of the tokens of `user_id`.
#[derive(Debug, PartialEq, Eq)]
pub struct ListReq {
    pub user_id: u64,
    pub page: u64,
}

/// One token of a listing: all of the record but its owner, whom the
/// request named.
#[derive(Debug, PartialEq, Eq)]
pub struct ListedToken {
    pub token: String,
    pub created: u64,
    pub label: String,
}

/// What a [`ListedToken`] is, as plain values.
pub ghost struct ListedTokenView {
    pub token: Seq<char>,
    pub created: u64,
    pub label: Seq<char>,
}

impl View for ListedToken {
    type V = ListedTokenView;

    open spec fn view(&self) -> ListedTokenView {
        ListedTokenView { token: self.token@, created: self.created, label: self.label@ }
    }
}

impl DeepView for ListedToken {
    type V = ListedTokenView;

    open spec fn deep_view(&self) -> ListedTokenView {
        self@
    }
}

impl ListedTokenView {
    /// How `record` is listed.
    pub open spec fn of(record: TokenView) -> ListedTokenView {
        ListedTokenView { token: record.id, created: record.created, label: record.label }
    }
}

impl From<Token> for ListedToken {
    fn from(value: Token) -> (listed: ListedToken) {
        ListedToken { token: value.id, created: value.created, label: value.label }
    }
}

impl FromSpecImpl<Token> for ListedToken {
    open spec fn obeys_from_spec() -> bool {
        true
    }

    open spec fn from_spec(value: Token) -> ListedToken {
        ListedToken { token: value.id, created: value.created, label: value.label }
    }
}

/// The answer to a [`ListReq`].
#[derive(Debug, PartialEq, Eq)]
pub enum ListRes {
    /// The tokens of the page, in the store's order. The page may be empty.
    List { tokens: Vec<ListedToken> },
    Error { reason: String },
}

/// What a [`ListRes`] is, as plain values.
pub ghost enum ListResView {
    List { tokens: Seq<ListedTokenView> },
    Error { reason: Seq<char> },
}

impl View for ListRes {
    type V = ListResView;

    open spec fn view(&self) -> ListResView {
        match self {
            ListRes::List { tokens } => ListResView::List { tokens: tokens.deep_view() },
            ListRes::Error { reason } => ListResView::Error { reason: reason@ },
        }
    }
}

impl ListResView {
    /// The response that lists `records`: one entry for each, in their order.
    pub open spec fn of(records: Seq<TokenView>) -> ListResView {
        ListResView::List { tokens: records.map_values(|record: TokenView| ListedTokenView::of(record)) }
    }

    /// The HTTP status that goes with this response.
    pub open spec fn status(self) -> u16 {
        match self {
            ListResView::List { .. } => STATUS_OK,
            ListResView::Error { .. } => STATUS_INTERNAL_SERVER_ERROR,
        }
    }
}

impl ListRes {
    /// The response to a page of tokens.
    pub fn success(tokens: Vec<Token>) -> (response: ListRes)
        ensures
            response@ == ListResView::of(tokens.deep_view()),
    {
        let ghost records = tokens.deep_view();
        let mut listed: Vec<ListedToken> = Vec::new();
        for token in iter: tokens
            invariant
                iter.seq().len() == records.len(),
                forall|i: int| 0 <= i < records.len() ==> (#[trigger] iter.seq()[i])@ == records[i],
                listed.len() == iter.index(),
                forall|i: int|
                    0 <= i < listed.len() ==> (#[trigger] listed[i])@ == ListedTokenView::of(
                        records[i],
                    ),
        {
            let ghost done = listed@;
            listed.push(ListedToken::from(token));
            assert(forall|i: int| 0 <= i < done.len() ==> listed[i] == done[i]);
        }
        let response = ListRes::List { tokens: listed };
        assert(response@->List_tokens =~= ListResView::of(records)->List_tokens);
        response
    }

    /// The response to an error: it carries the error's reason.
    pub fn failure(error: TokenError) -> (response: ListRes)
        ensures
            response@ == (ListResView::Error { reason: error@.reason() }),
    {
        ListRes::Error { reason: error.reason() }
    }

    /// The HTTP status that goes with this response.
    pub fn status(&self) -> (code: u16)
        ensures
            code == self@.status(),
    {
        match self {
            ListRes::List { .. } => STATUS_OK,
            ListRes::Error { .. } => STATUS_INTERNAL_SERVER_ERROR,
        }
    }
}

impl InternalRouter {
    /// The response to what a listing ended with.
    pub fn list(outcome: Result<Vec<Token>, TokenError>) -> (response: ListRes)
        ensures
            response@ == match outcome {
                Ok(tokens) => ListResView::of(tokens.deep_view()),
                Err(error) => ListResView::Error { reason: error@.reason() },
            },
    {
        match outcome {
            Ok(tokens) => ListRes::success(tokens),
            Err(error) => ListRes::failure(error),
        }
    }
}

impl Router {
    /// The status and body sent for `response`.
    pub fn list(response: ListRes) -> (reply: (u16, ListRes))
        ensures
            reply.0 == response@.status(),
            reply.1@ == response@,
    {
        (response.status(), response)
    }
}

} // verus!
