use crate::error::InsertOutcomeView;
use crate::token::TokenView;
use vstd::prelude::*;

verus! {

/// The uniqueness constraint of the collection: no two records share an
/// identifier.
pub open spec fn unique_ids(records: Seq<TokenView>) -> bool {
    forall|i: int, j: int|
        0 <= i < j < records.len() ==> (#[trigger] records[i]).id != (#[trigger] records[j]).id
}

/// Whether a record with identifier `id` is in the collection.
pub open spec fn holds(records: Seq<TokenView>, id: Seq<char>) -> bool {
    exists|i: int| 0 <= i < records.len() && (#[trigger] records[i]).id == id
}

/// Where the record with identifier `id` stands, if the collection holds one.
pub open spec fn position(records: Seq<TokenView>, id: Seq<char>) -> int {
    choose|i: int| 0 <= i < records.len() && (#[trigger] records[i]).id == id
}

/// Point lookup by identifier.
pub open spec fn find_by_id(records: Seq<TokenView>, id: Seq<char>) -> Option<TokenView> {
    if holds(records, id) {
        Some(records[position(records, id)])
    } else {
        None
    }
}

/// The test that a range query applies to each record.
pub open spec fn owned_by(user_id: u64) -> spec_fn(TokenView) -> bool {
    |record: TokenView| record.user_id == user_id
}

/// The records of `user_id`, in the order of the collection.
pub open spec fn tokens_of(records: Seq<TokenView>, user_id: u64) -> Seq<TokenView> {
    records.filter(owned_by(user_id))
}

/// The part of `matches` that is left after passing over `skip` of them and
/// keeping at most `limit`.
pub open spec fn window(matches: Seq<TokenView>, skip: nat, limit: nat) -> Seq<TokenView> {
    let from = if skip <= matches.len() {
        skip
    } else {
        matches.len()
    };
    let to = if skip + limit <= matches.len() {
        skip + limit
    } else {
        matches.len()
    };
    matches.subrange(from as int, to as int)
}

/// The number of tokens on a page that passes over `skip` of `total` matches
/// and keeps at most `limit`.
pub open spec fn page_len(total: nat, skip: nat, limit: nat) -> nat {
    if total <= skip {
        0
    } else if total - skip <= limit {
        (total - skip) as nat
    } else {
        limit
    }
}

/// Range query: the records of `user_id` in the order of the collection,
/// without the first `skip` of them, and at most `limit`.
pub open spec fn find_by_user(records: Seq<TokenView>, user_id: u64, skip: nat, limit: nat) -> Seq<
    TokenView,
> {
    window(tokens_of(records, user_id), skip, limit)
}

/// The number of records that a conditional update or delete on `id`
/// matches: one if the collection holds the identifier, else none.
pub open spec fn match_count(records: Seq<TokenView>, id: Seq<char>) -> u64 {
    if holds(records, id) {
        1
    } else {
        0
    }
}

/// `record` with its label replaced.
pub open spec fn relabelled(record: TokenView, label: Seq<char>) -> TokenView {
    TokenView { label, ..record }
}

/// Conditional update: the collection after the label of the record with
/// identifier `id` is set to `label`. Nothing changes if there is none.
pub open spec fn update_label(records: Seq<TokenView>, id: Seq<char>, label: Seq<char>) -> Seq<
    TokenView,
> {
    if holds(records, id) {
        let at = position(records, id);
        records.update(at, relabelled(records[at], label))
    } else {
        records
    }
}

/// Conditional delete: the collection without the record with identifier
/// `id`. Nothing changes if there is none.
pub open spec fn delete(records: Seq<TokenView>, id: Seq<char>) -> Seq<TokenView> {
    if holds(records, id) {
        records.remove(position(records, id))
    } else {
        records
    }
}

/// Insert under the uniqueness constraint: `record` is appended unless its
/// identifier is taken, in which case nothing changes.
pub open spec fn insert(records: Seq<TokenView>, record: TokenView) -> Seq<TokenView> {
    if holds(records, record.id) {
        records
    } else {
        records.push(record)
    }
}

/// How the store answers the insert of `record`: with a duplicate key
/// exactly if its identifier is taken.
pub open spec fn insert_outcome(records: Seq<TokenView>, record: TokenView) -> InsertOutcomeView {
    if holds(records, record.id) {
        InsertOutcomeView::DuplicateKey
    } else {
        InsertOutcomeView::Inserted
    }
}

/// Under the uniqueness constraint a record stands where its identifier is
/// looked up.
pub proof fn lemma_position(records: Seq<TokenView>, at: int)
    requires
        unique_ids(records),
        0 <= at < records.len(),
    ensures
        holds(records, records[at].id),
        position(records, records[at].id) == at,
        find_by_id(records, records[at].id) == Some(records[at]),
{
    let id = records[at].id;
    let found = position(records, id);
    assert(0 <= found < records.len() && records[found].id == id);
    if found < at {
        assert(records[found].id != records[at].id);
    } else if at < found {
        assert(records[at].id != records[found].id);
    }
}

} // verus!
