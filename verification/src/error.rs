use vstd::prelude::*;

verus! {

/// The write-error code by which the store reports that a document with the
/// same identifier is already in the collection.
pub const DUPLICATE_KEY_CODE: i32 = 11000;

/// The reason given to a caller whose token identifier resolves to no record.
pub open spec fn not_found_reason() -> Seq<char> {
    "token not found"@
}

/// A failure of one store round-trip, as plain values.
#[derive(Debug, PartialEq, Eq)]
pub struct StoreFailure {
    /// The code of the write error where the store refused a write; `None`
    /// for every other failure (connectivity, a malformed query, ...).
    pub code: Option<i32>,
    /// What went wrong, in words.
    pub reason: String,
}

/// What a [`StoreFailure`] is, as plain values.
pub ghost struct StoreFailureView {
    pub code: Option<i32>,
    pub reason: Seq<char>,
}

impl View for StoreFailure {
    type V = StoreFailureView;

    open spec fn view(&self) -> StoreFailureView {
        StoreFailureView { code: self.code, reason: self.reason@ }
    }
}

impl DeepView for StoreFailure {
    type V = StoreFailureView;

    open spec fn deep_view(&self) -> StoreFailureView {
        self@
    }
}

impl StoreFailureView {
    /// Whether the store refused a write because the identifier is taken.
    pub open spec fn is_duplicate_key(self) -> bool {
        self.code == Some(DUPLICATE_KEY_CODE)
    }
}

impl StoreFailure {
    /// Builds a failure from what a store error carries: the code of a write
    /// error, a text that user code attached, and the description of the
    /// error's kind. An attached text takes precedence over the description.
    pub fn new(code: Option<i32>, attached: Option<String>, description: String) -> (failure:
        StoreFailure)
        ensures
            failure@.code == code,
            failure@.reason == match attached {
                Some(text) => text@,
                None => description@,
            },
    {
        let reason = match attached {
            Some(text) => text,
            None => description,
        };
        StoreFailure { code, reason }
    }

    /// Whether the store refused a write because the identifier is taken.
    pub fn is_duplicate_key(&self) -> (duplicate: bool)
        ensures
            duplicate == self@.is_duplicate_key(),
    {
        match self.code {
            Some(code) => code == DUPLICATE_KEY_CODE,
            None => false,
        }
    }
}

/// How one attempt to insert a token ended.
#[derive(Debug, PartialEq, Eq)]
pub enum InsertOutcome {
    /// The token is now in the collection.
    Inserted,
    /// The collection already holds a token with that identifier.
    DuplicateKey,
    /// The store failed for another reason.
    Failed(StoreFailure),
}

/// What an [`InsertOutcome`] is, as plain values.
pub ghost enum InsertOutcomeView {
    Inserted,
    DuplicateKey,
    Failed(StoreFailureView),
}

impl View for InsertOutcome {
    type V = InsertOutcomeView;

    open spec fn view(&self) -> InsertOutcomeView {
        match self {
            InsertOutcome::Inserted => InsertOutcomeView::Inserted,
            InsertOutcome::DuplicateKey => InsertOutcomeView::DuplicateKey,
            InsertOutcome::Failed(failure) => InsertOutcomeView::Failed(failure@),
        }
    }
}

/// The outcome that the result of an insert stands for.
pub open spec fn classify_insert(result: Result<(), StoreFailureView>) -> InsertOutcomeView {
    match result {
        Ok(_) => InsertOutcomeView::Inserted,
        Err(failure) => if failure.is_duplicate_key() {
            InsertOutcomeView::DuplicateKey
        } else {
            InsertOutcomeView::Failed(failure)
        },
    }
}

impl InsertOutcome {
    /// Classifies the result of an insert: a failure is a duplicate key
    /// exactly when it is a write error with [`DUPLICATE_KEY_CODE`].
    pub fn classify(result: Result<(), StoreFailure>) -> (outcome: InsertOutcome)
        ensures
            outcome@ == classify_insert(
                match result {
                    Ok(_) => Ok(()),
                    Err(failure) => Err(failure@),
                },
            ),
    {
        match result {
            Ok(_) => InsertOutcome::Inserted,
            Err(failure) => {
                if failure.is_duplicate_key() {
                    InsertOutcome::DuplicateKey
                } else {
                    InsertOutcome::Failed(failure)
                }
            },
        }
    }
}

/// Why an operation of the token manager did not succeed.
#[derive(Debug, PartialEq, Eq)]
pub enum TokenError {
    /// The identifier resolves to no record.
    NotFound,
    /// The store failed; `reason` says how.
    Store { reason: String },
}

/// What a [`TokenError`] is, as plain values.
pub ghost enum TokenErrorView {
    NotFound,
    Store { reason: Seq<char> },
}

impl View for TokenError {
    type V = TokenErrorView;

    open spec fn view(&self) -> TokenErrorView {
        match self {
            TokenError::NotFound => TokenErrorView::NotFound,
            TokenError::Store { reason } => TokenErrorView::Store { reason: reason@ },
        }
    }
}

impl DeepView for TokenError {
    type V = TokenErrorView;

    open spec fn deep_view(&self) -> TokenErrorView {
        self@
    }
}

impl TokenErrorView {
    /// The error that a failed store round-trip surfaces as.
    pub open spec fn of_failure(failure: StoreFailureView) -> TokenErrorView {
        TokenErrorView::Store { reason: failure.reason }
    }

    /// The reason shown to the caller.
    pub open spec fn reason(self) -> Seq<char> {
        match self {
            TokenErrorView::NotFound => not_found_reason(),
            TokenErrorView::Store { reason } => reason,
        }
    }
}

impl TokenError {
    /// Surfaces a store failure to the caller, keeping its reason.
    pub fn of_failure(failure: StoreFailure) -> (error: TokenError)
        ensures
            error@ == TokenErrorView::of_failure(failure@),
    {
        TokenError::Store { reason: failure.reason }
    }

    /// The reason shown to the caller.
    pub fn reason(&self) -> (text: String)
        ensures
            text@ == self@.reason(),
    {
        match self {
            TokenError::NotFound => "token not found".to_string(),
            TokenError::Store { reason } => reason.clone(),
        }
    }
}

} // verus!
