use crate::collection::{
    delete, find_by_id, find_by_user, holds, insert, insert_outcome, lemma_position, match_count,
    position, tokens_of, unique_ids, update_label, window,
};
use crate::error::InsertOutcome;
use crate::laws::law_constraint_kept;
use crate::token::{Token, TokenView};
use vstd::prelude::*;

verus! {

/// A token collection held in memory. It keeps the uniqueness constraint on
/// identifiers and answers the five store operations as the persistent
/// collection is required to, in insertion order.
pub struct TokenStore {
    tokens: Vec<Token>,
}

impl View for TokenStore {
    type V = Seq<TokenView>;

    /// The records, oldest first.
    closed spec fn view(&self) -> Seq<TokenView> {
        self.tokens.deep_view()
    }
}

impl TokenStore {
    #[verifier::type_invariant]
    spec fn constraint(&self) -> bool {
        unique_ids(self.tokens.deep_view())
    }

    /// An empty collection.
    pub fn new() -> (store: TokenStore)
        ensures
            store@ == Seq::<TokenView>::empty(),
    {
        TokenStore { tokens: Vec::new() }
    }

    /// The number of records.
    pub fn len(&self) -> (count: usize)
        ensures
            count == self@.len(),
            unique_ids(self@),
    {
        proof {
            use_type_invariant(self);
        }
        self.tokens.len()
    }

    /// Takes the records out, leaving the collection empty until they are
    /// put back.
    fn detach(&mut self) -> (tokens: Vec<Token>)
        ensures
            tokens.deep_view() == old(self)@,
            unique_ids(old(self)@),
            final(self)@ == Seq::<TokenView>::empty(),
    {
        proof {
            use_type_invariant(&*self);
        }
        let mut tokens: Vec<Token> = Vec::new();
        core::mem::swap(&mut self.tokens, &mut tokens);
        tokens
    }

    fn locate(&self, id: &String) -> (at: Option<usize>)
        ensures
            unique_ids(self@),
            match at {
                Some(i) => i < self@.len() && holds(self@, id@) && position(self@, id@) == i,
                None => !holds(self@, id@),
            },
    {
        proof {
            use_type_invariant(self);
        }
        let mut i: usize = 0;
        while i < self.tokens.len()
            invariant
                i <= self.tokens.len(),
                unique_ids(self@),
                forall|j: int| 0 <= j < i ==> (#[trigger] self@[j]).id != id@,
            decreases self.tokens.len() - i,
        {
            if self.tokens[i].id == *id {
                proof {
                    assert(self@[i as int].id == id@);
                    lemma_position(self@, i as int);
                }
                return Some(i);
            }
            i += 1;
        }
        None
    }

    /// Point lookup: a copy of the record with identifier `id`, if there is
    /// one.
    pub fn find_by_id(&self, id: &String) -> (found: Option<Token>)
        ensures
            unique_ids(self@),
            found.deep_view() == find_by_id(self@, id@),
    {
        match self.locate(id) {
            Some(at) => Some(self.tokens[at].clone()),
            None => None,
        }
    }

    /// Range query: copies of the tokens of `user_id` in insertion order,
    /// without the first `skip` of them, and at most `limit`.
    pub fn find_by_user(&self, user_id: u64, skip: u64, limit: u64) -> (page: Vec<Token>)
        ensures
            unique_ids(self@),
            page.deep_view() == find_by_user(self@, user_id, skip as nat, limit as nat),
    {
        proof {
            use_type_invariant(self);
        }
        let mut page: Vec<Token> = Vec::new();
        let mut passed: u64 = 0;
        let mut i: usize = 0;
        proof {
            reveal(Seq::filter);
            assert(page.deep_view() =~= window(
                tokens_of(self@.take(0), user_id),
                skip as nat,
                limit as nat,
            ));
        }
        while i < self.tokens.len()
            invariant
                i <= self.tokens.len(),
                passed == tokens_of(self@.take(i as int), user_id).len(),
                passed <= i,
                page.deep_view() == window(
                    tokens_of(self@.take(i as int), user_id),
                    skip as nat,
                    limit as nat,
                ),
            decreases self.tokens.len() - i,
        {
            let ghost before = self@.take(i as int);
            let ghost after = self@.take(i + 1);
            proof {
                reveal(Seq::filter);
                assert(after.drop_last() =~= before);
                assert(after.last() == self@[i as int]);
            }
            let token = &self.tokens[i];
            if token.user_id == user_id {
                assert(tokens_of(after, user_id) == tokens_of(before, user_id).push(token@));
                if passed >= skip && passed - skip < limit {
                    let ghost kept = page.deep_view();
                    page.push(token.clone());
                    assert(page.deep_view() =~= kept.push(token@));
                    assert(page.deep_view() =~= window(
                        tokens_of(after, user_id),
                        skip as nat,
                        limit as nat,
                    ));
                } else {
                    assert(page.deep_view() =~= window(
                        tokens_of(after, user_id),
                        skip as nat,
                        limit as nat,
                    ));
                }
                passed += 1;
            } else {
                assert(tokens_of(after, user_id) == tokens_of(before, user_id));
            }
            i += 1;
        }
        assert(self@.take(i as int) =~= self@);
        page
    }

    /// Conditional update: sets the label of the record with identifier `id`
    /// and returns the number of records matched, one or none.
    pub fn update_label(&mut self, id: &String, label: &String) -> (matched: u64)
        ensures
            unique_ids(final(self)@),
            final(self)@ == update_label(old(self)@, id@, label@),
            matched == match_count(old(self)@, id@),
    {
        match self.locate(id) {
            Some(at) => {
                let ghost before = self@;
                let mut tokens = self.detach();
                let record = &tokens[at];
                let changed = Token {
                    id: record.id.clone(),
                    user_id: record.user_id,
                    created: record.created,
                    label: label.clone(),
                };
                tokens.set(at, changed);
                proof {
                    assert(tokens.deep_view() =~= update_label(before, id@, label@));
                    law_constraint_kept(before, before[at as int], label@);
                }
                self.tokens = tokens;
                1
            },
            None => 0,
        }
    }

    /// Conditional delete: removes the record with identifier `id` and
    /// returns the number of records deleted, one or none.
    pub fn delete(&mut self, id: &String) -> (deleted: u64)
        ensures
            unique_ids(final(self)@),
            final(self)@ == delete(old(self)@, id@),
            deleted == match_count(old(self)@, id@),
    {
        match self.locate(id) {
            Some(at) => {
                let ghost before = self@;
                let mut tokens = self.detach();
                tokens.remove(at);
                proof {
                    assert(tokens.deep_view() =~= delete(before, id@));
                    law_constraint_kept(before, before[at as int], before[at as int].label);
                }
                self.tokens = tokens;
                1
            },
            None => 0,
        }
    }

    /// Insert under the uniqueness constraint: appends `token`, or reports a
    /// duplicate key and changes nothing if its identifier is taken.
    pub fn insert(&mut self, token: Token) -> (outcome: InsertOutcome)
        ensures
            unique_ids(final(self)@),
            final(self)@ == insert(old(self)@, token@),
            outcome@ == insert_outcome(old(self)@, token@),
    {
        match self.locate(&token.id) {
            Some(_) => InsertOutcome::DuplicateKey,
            None => {
                let ghost before = self@;
                let ghost record = token@;
                let mut tokens = self.detach();
                tokens.push(token);
                proof {
                    assert(tokens.deep_view() =~= insert(before, record));
                    law_constraint_kept(before, record, record.label);
                }
                self.tokens = tokens;
                InsertOutcome::Inserted
            },
        }
    }
}

} // verus!
