use crate::error::{StoreFailure, StoreFailureView};
use crate::token::{result_view, Token, TokenView};
use vstd::prelude::*;

verus! {

/// One page of tokens in the making: what the cursor of a range query has
/// yielded so far. The first failure closes it, and what was read before
/// that failure no longer counts.
pub struct Listing {
    tokens: Vec<Token>,
    failure: Option<StoreFailure>,
}

/// What a [`Listing`] is, as plain values.
pub ghost struct ListingView {
    /// The tokens read, in the order in which they came.
    pub tokens: Seq<TokenView>,
    /// The failure that closed the listing, if one did.
    pub failure: Option<StoreFailureView>,
}

impl View for Listing {
    type V = ListingView;

    closed spec fn view(&self) -> ListingView {
        ListingView { tokens: self.tokens.deep_view(), failure: self.failure.deep_view() }
    }
}

impl ListingView {
    /// The listing before the cursor has yielded anything.
    pub open spec fn empty() -> ListingView {
        ListingView { tokens: Seq::empty(), failure: None }
    }

    /// Whether the cursor is to be read further.
    pub open spec fn is_open(self) -> bool {
        self.failure is None
    }

    /// The listing after the cursor has yielded `item`. An open listing
    /// appends a token and is closed by a failure; a closed one stays as it
    /// is.
    pub open spec fn accept(self, item: Result<TokenView, StoreFailureView>) -> ListingView {
        if self.is_open() {
            match item {
                Ok(token) => ListingView { tokens: self.tokens.push(token), ..self },
                Err(failure) => ListingView { failure: Some(failure), ..self },
            }
        } else {
            self
        }
    }

    /// The listing after the cursor has yielded `items`, one after the other.
    pub open spec fn accept_all(self, items: Seq<Result<TokenView, StoreFailureView>>) -> ListingView
        decreases items.len(),
    {
        if items.len() == 0 {
            self
        } else {
            self.accept_all(items.drop_last()).accept(items.last())
        }
    }

    /// What the range query returns: the failure that closed the listing, or
    /// else the tokens read.
    pub open spec fn outcome(self) -> Result<Seq<TokenView>, StoreFailureView> {
        match self.failure {
            Some(failure) => Err(failure),
            None => Ok(self.tokens),
        }
    }
}

impl Listing {
    /// Starts a page: nothing read, open.
    pub fn new() -> (listing: Listing)
        ensures
            listing@ == ListingView::empty(),
    {
        let listing = Listing { tokens: Vec::new(), failure: None };
        assert(listing@.tokens =~= Seq::empty());
        listing
    }

    /// Takes what the cursor yielded next, and says whether the cursor is to
    /// be read further: not after a failure.
    pub fn accept(&mut self, item: Result<Token, StoreFailure>) -> (more: bool)
        ensures
            final(self)@ == old(self)@.accept(result_view(item)),
            more == final(self)@.is_open(),
    {
        if self.failure.is_some() {
            return false;
        }
        match item {
            Ok(token) => {
                let ghost before = self.tokens.deep_view();
                let ghost record = token@;
                self.tokens.push(token);
                assert(self.tokens.deep_view() =~= before.push(record));
                true
            },
            Err(failure) => {
                self.failure = Some(failure);
                false
            },
        }
    }

    /// Ends the page once the cursor is exhausted or the listing is closed.
    pub fn finish(self) -> (result: Result<Vec<Token>, StoreFailure>)
        ensures
            result_view(result) == self@.outcome(),
    {
        match self.failure {
            Some(failure) => Err(failure),
            None => Ok(self.tokens),
        }
    }
}

/// A cursor that yields only tokens gives all of them, in its order.
pub proof fn lemma_accept_tokens(tokens: Seq<TokenView>)
    ensures
        ListingView::empty().accept_all(tokens.map_values(|token: TokenView| Ok(token))).outcome()
            == Ok::<Seq<TokenView>, StoreFailureView>(tokens),
{
    lemma_accept_tokens_state(tokens);
}

proof fn lemma_accept_tokens_state(tokens: Seq<TokenView>)
    ensures
        ListingView::empty().accept_all(tokens.map_values(|token: TokenView| Ok(token)))
            == (ListingView { tokens, failure: None }),
    decreases tokens.len(),
{
    let items = tokens.map_values(|token: TokenView| Ok::<TokenView, StoreFailureView>(token));
    if tokens.len() == 0 {
        assert(tokens =~= Seq::empty());
    } else {
        lemma_accept_tokens_state(tokens.drop_last());
        assert(items.drop_last() =~= tokens.drop_last().map_values(
            |token: TokenView| Ok::<TokenView, StoreFailureView>(token),
        ));
        assert(tokens.drop_last().push(tokens.last()) =~= tokens);
    }
}

/// The first failure that a cursor yields is what the range query returns,
/// whatever came before it and whatever comes after.
pub proof fn lemma_accept_failure(
    tokens: Seq<TokenView>,
    failure: StoreFailureView,
    rest: Seq<Result<TokenView, StoreFailureView>>,
)
    ensures
        ListingView::empty().accept_all(
            tokens.map_values(|token: TokenView| Ok(token)).push(Err(failure)) + rest,
        ).outcome() == Err::<Seq<TokenView>, StoreFailureView>(failure),
    decreases rest.len(),
{
    let head = tokens.map_values(|token: TokenView| Ok::<TokenView, StoreFailureView>(token));
    let items = head.push(Err(failure)) + rest;
    if rest.len() == 0 {
        lemma_accept_tokens_state(tokens);
        assert(items.drop_last() =~= head);
    } else {
        lemma_accept_failure(tokens, failure, rest.drop_last());
        assert(items.drop_last() =~= head.push(Err(failure)) + rest.drop_last());
    }
}

} // verus!
