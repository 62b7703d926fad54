use crate::clock::unix_timestamp;
use crate::config::{MasterConfig, MasterConfigView};
use crate::error::{
    InsertOutcome, InsertOutcomeView, StoreFailure, StoreFailureView, TokenError, TokenErrorView,
};
use crate::ident::{is_identifier, random_identifier};
use vstd::prelude::*;

verus! {

/// A bearer token as the collection holds it.
#[derive(Debug, PartialEq, Eq)]
pub struct Token {
    /// Opaque, unique over the whole collection; the primary key.
    pub id: String,
    /// The owner. One user may own many tokens.
    pub user_id: u64,
    /// Seconds since the Unix epoch (UTC) at which the token was issued.
    pub created: u64,
    /// Free text, the only field that changes after issue.
    pub label: String,
}

/// What a [`Token`] is, as plain values.
pub ghost struct TokenView {
    pub id: Seq<char>,
    pub user_id: u64,
    pub created: u64,
    pub label: Seq<char>,
}

impl View for Token {
    type V = TokenView;

    open spec fn view(&self) -> TokenView {
        TokenView { id: self.id@, user_id: self.user_id, created: self.created, label: self.label@ }
    }
}

impl DeepView for Token {
    type V = TokenView;

    open spec fn deep_view(&self) -> TokenView {
        self@
    }
}

impl Clone for Token {
    fn clone(&self) -> (copy: Token)
        ensures
            copy@ == self@,
    {
        Token {
            id: self.id.clone(),
            user_id: self.user_id,
            created: self.created,
            label: self.label.clone(),
        }
    }
}

impl TokenView {
    /// Whether this is a token that may be offered to the store for
    /// `user_id` under `label`: it belongs to that user, carries that label,
    /// and its identifier has the configured length and alphabet.
    pub open spec fn is_candidate(self, config: MasterConfigView, user_id: u64, label: Seq<char>)
        -> bool {
        &&& self.user_id == user_id
        &&& self.label == label
        &&& is_identifier(self.id, config.token_length as nat)
    }
}

/// The arguments of the range query that fetches one page of a user's tokens.
#[derive(Debug, PartialEq, Eq)]
pub struct PageQuery {
    /// Only tokens of this user are wanted.
    pub user_id: u64,
    /// The number of that user's tokens to pass over.
    pub skip: u64,
    /// The largest number of tokens to return.
    pub limit: u64,
}

/// The limit that a store with signed 64-bit limits is given for `limit`:
/// the limit itself, or the largest signed number where it lies above that.
pub open spec fn signed_limit(limit: u64) -> i64 {
    if limit <= i64::MAX {
        limit as i64
    } else {
        i64::MAX
    }
}

/// How a listing begins.
#[derive(Debug, PartialEq, Eq)]
pub enum ListStep {
    /// The store is to be asked `query`; what it returns goes to
    /// [`Token::show`].
    Ask { query: PageQuery },
    /// The page is known without the store; `tokens` goes to the caller.
    Done { tokens: Vec<Token> },
}

/// What a [`ListStep`] is, as plain values.
pub ghost enum ListStepView {
    Ask { query: PageQuery },
    Done { tokens: Seq<TokenView> },
}

impl View for ListStep {
    type V = ListStepView;

    open spec fn view(&self) -> ListStepView {
        match self {
            ListStep::Ask { query } => ListStepView::Ask { query: *query },
            ListStep::Done { tokens } => ListStepView::Done { tokens: tokens.deep_view() },
        }
    }
}

/// How the listing of page `page` (counted from zero) of the tokens of
/// `user_id` begins. The store is asked to pass over `page * page_size`
/// tokens and to return at most `page_size`. It is not asked where no token
/// can be on the page: where a page holds none, and where the tokens to pass
/// over are more than 64 bits count, which is more than a store holds.
pub open spec fn list_step(config: MasterConfigView, user_id: u64, page: u64) -> ListStepView {
    if config.page_size == 0 || page * config.page_size > u64::MAX {
        ListStepView::Done { tokens: Seq::empty() }
    } else {
        ListStepView::Ask {
            query: PageQuery {
                user_id,
                skip: (page * config.page_size) as u64,
                limit: config.page_size,
            },
        }
    }
}

/// What is to be done after one attempt to insert a candidate.
#[derive(Debug, PartialEq, Eq)]
pub enum CreateStep {
    /// The token is issued; `id` goes to the caller.
    Done { id: String },
    /// The identifier was taken. `candidate` is to be inserted next.
    Retry { candidate: Token },
    /// The store failed; `error` goes to the caller.
    Failed { error: TokenError },
}

/// What a [`CreateStep`] is, as plain values.
pub ghost enum CreateStepView {
    Done { id: Seq<char> },
    Retry { candidate: TokenView },
    Failed { error: TokenErrorView },
}

impl View for CreateStep {
    type V = CreateStepView;

    open spec fn view(&self) -> CreateStepView {
        match self {
            CreateStep::Done { id } => CreateStepView::Done { id: id@ },
            CreateStep::Retry { candidate } => CreateStepView::Retry { candidate: candidate@ },
            CreateStep::Failed { error } => CreateStepView::Failed { error: error@ },
        }
    }
}

impl CreateStepView {
    /// Whether this step may follow `outcome`, the end of the attempt to
    /// insert `candidate`. Success ends with the candidate's identifier. A
    /// duplicate key is answered by a fresh candidate for the same user and
    /// label, and by nothing else. Any other failure ends with its reason.
    pub open spec fn follows(
        self,
        config: MasterConfigView,
        candidate: TokenView,
        outcome: InsertOutcomeView,
    ) -> bool {
        match outcome {
            InsertOutcomeView::Inserted => self == CreateStepView::Done { id: candidate.id },
            InsertOutcomeView::DuplicateKey => {
                &&& self matches CreateStepView::Retry { candidate: next }
                &&& next.is_candidate(config, candidate.user_id, candidate.label)
            },
            InsertOutcomeView::Failed(failure) => self == CreateStepView::Failed {
                error: TokenErrorView::of_failure(failure),
            },
        }
    }
}

/// The plain values of a result: those of its value, or those of its error.
pub open spec fn result_view<T: DeepView, E: DeepView>(result: Result<T, E>) -> Result<T::V, E::V> {
    match result {
        Ok(value) => Ok(value.deep_view()),
        Err(error) => Err(error.deep_view()),
    }
}

/// The answer that the identifier resolves to no record.
pub open spec fn not_found<T>() -> Result<T, TokenErrorView> {
    Err(TokenErrorView::NotFound)
}

/// What `get` answers to the result of a point lookup.
pub open spec fn get_result(found: Result<Option<TokenView>, StoreFailureView>) -> Result<
    TokenView,
    TokenErrorView,
> {
    match found {
        Ok(Some(token)) => Ok(token),
        Ok(None) => not_found(),
        Err(failure) => Err(TokenErrorView::of_failure(failure)),
    }
}

/// What `set` and `remove` answer to the number of records that the store
/// matched.
pub open spec fn change_result(count: Result<u64, StoreFailureView>) -> Result<(), TokenErrorView> {
    match count {
        Ok(n) => if n == 0 {
            not_found()
        } else {
            Ok(())
        },
        Err(failure) => Err(TokenErrorView::of_failure(failure)),
    }
}

/// What `show` answers to the result of a range query.
pub open spec fn show_result(listed: Result<Seq<TokenView>, StoreFailureView>) -> Result<
    Seq<TokenView>,
    TokenErrorView,
> {
    match listed {
        Ok(tokens) => Ok(tokens),
        Err(failure) => Err(TokenErrorView::of_failure(failure)),
    }
}

impl Token {
    /// Puts a token together from an identifier and the clock's reading.
    /// `created` is `timestamp` read as an unsigned 64-bit number.
    pub fn assemble(id: String, user_id: u64, timestamp: i64, label: String) -> (token: Token)
        ensures
            token@ == (TokenView {
                id: id@,
                user_id,
                created: timestamp as u64,
                label: label@,
            }),
    {
        Token { id, user_id, created: timestamp as u64, label }
    }

    /// Makes a token to offer to the store: a random identifier of the
    /// configured length, stamped with the current time. Which identifier
    /// and which time is not fixed.
    pub fn candidate(config: &MasterConfig, user_id: u64, label: String) -> (token: Token)
        ensures
            token@.is_candidate(config@, user_id, label@),
    {
        let id = random_identifier(config.token_length);
        let timestamp = unix_timestamp();
        Token::assemble(id, user_id, timestamp, label)
    }

    /// Decides how issuing a token goes on once the store has answered the
    /// attempt to insert `candidate`. A duplicate key never reaches the
    /// caller: it is answered by a new candidate, as often as it occurs.
    pub fn create(config: &MasterConfig, candidate: Token, outcome: InsertOutcome) -> (step:
        CreateStep)
        ensures
            step@.follows(config@, candidate@, outcome@),
    {
        match outcome {
            InsertOutcome::Inserted => CreateStep::Done { id: candidate.id },
            InsertOutcome::DuplicateKey => CreateStep::Retry {
                candidate: Token::candidate(config, candidate.user_id, candidate.label),
            },
            InsertOutcome::Failed(failure) => CreateStep::Failed {
                error: TokenError::of_failure(failure),
            },
        }
    }

    /// Answers a relabelling from the number of records that the store
    /// matched: not found if it matched none.
    pub fn set(matched: Result<u64, StoreFailure>) -> (result: Result<(), TokenError>)
        ensures
            result_view(result) == change_result(result_view(matched)),
    {
        match matched {
            Ok(count) => if count == 0 {
                Err(TokenError::NotFound)
            } else {
                Ok(())
            },
            Err(failure) => Err(TokenError::of_failure(failure)),
        }
    }

    /// Answers a revocation from the number of records that the store
    /// deleted: not found if it deleted none.
    pub fn remove(deleted: Result<u64, StoreFailure>) -> (result: Result<(), TokenError>)
        ensures
            result_view(result) == change_result(result_view(deleted)),
    {
        match deleted {
            Ok(count) => if count == 0 {
                Err(TokenError::NotFound)
            } else {
                Ok(())
            },
            Err(failure) => Err(TokenError::of_failure(failure)),
        }
    }

    /// Answers a lookup from what the store found: the record, or not found
    /// if there is none.
    pub fn get(found: Result<Option<Token>, StoreFailure>) -> (result: Result<Token, TokenError>)
        ensures
            result_view(result) == get_result(result_view(found)),
    {
        match found {
            Ok(Some(token)) => Ok(token),
            Ok(None) => Err(TokenError::NotFound),
            Err(failure) => Err(TokenError::of_failure(failure)),
        }
    }

    /// Answers a listing from what the store returned: the tokens in the
    /// store's order. An empty page is no error.
    pub fn show(listed: Result<Vec<Token>, StoreFailure>) -> (result: Result<
        Vec<Token>,
        TokenError,
    >)
        ensures
            result_view(result) == show_result(result_view(listed)),
    {
        match listed {
            Ok(tokens) => Ok(tokens),
            Err(failure) => Err(TokenError::of_failure(failure)),
        }
    }

    /// Decides how a listing begins: with the range query of
    /// [`Token::page_query`], or, where no token can be on the page, with
    /// the empty page and without the store.
    pub fn list(config: &MasterConfig, user_id: u64, page: u64) -> (step: ListStep)
        ensures
            step@ == list_step(config@, user_id, page),
    {
        let step = match Token::page_query(config, user_id, page) {
            Some(query) => {
                if query.limit == 0 {
                    ListStep::Done { tokens: Vec::new() }
                } else {
                    ListStep::Ask { query }
                }
            },
            None => ListStep::Done { tokens: Vec::new() },
        };
        assert(step matches ListStep::Done { tokens } ==> tokens.deep_view() =~= Seq::empty());
        step
    }

    /// The range query for page `page` (counted from zero) of the tokens of
    /// `user_id`: it passes over `page * page_size` tokens and returns at
    /// most `page_size`. There is none exactly when that product does not
    /// fit in 64 bits.
    pub fn page_query(config: &MasterConfig, user_id: u64, page: u64) -> (query: Option<PageQuery>)
        ensures
            match query {
                Some(q) => {
                    &&& q.user_id == user_id
                    &&& q.skip == page * config.page_size
                    &&& q.limit == config.page_size
                },
                None => page * config.page_size > u64::MAX,
            },
    {
        match page.checked_mul(config.page_size) {
            Some(skip) => Some(PageQuery { user_id, skip, limit: config.page_size }),
            None => None,
        }
    }
}

impl PageQuery {
    /// The limit to hand to a store that takes a signed 64-bit limit: this
    /// query's limit, or the largest signed number where it lies above that.
    pub fn signed_limit(&self) -> (limit: i64)
        ensures
            limit == signed_limit(self.limit),
    {
        if self.limit <= 0x7fff_ffff_ffff_ffff {
            self.limit as i64
        } else {
            0x7fff_ffff_ffff_ffff
        }
    }

    /// The user to hand to a store that writes users as signed 64-bit
    /// numbers: this query's user, read as such a number.
    pub fn signed_user_id(&self) -> (user_id: i64)
        ensures
            user_id == self.user_id as i64,
    {
        self.user_id as i64
    }
}

} // verus!
