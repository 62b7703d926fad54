use crate::collection::{
    delete, find_by_id, find_by_user, holds, insert, insert_outcome, lemma_position, match_count,
    owned_by, page_len, position, relabelled, tokens_of, unique_ids, update_label,
};
use crate::config::MasterConfigView;
use crate::error::{InsertOutcomeView, TokenErrorView};
use crate::ident::is_identifier;
use crate::token::{
    change_result, get_result, list_step, not_found, show_result, signed_limit, CreateStepView,
    ListStepView, TokenView,
};
use vstd::prelude::*;

verus! {

/// The collection after the store has taken the inserts of `candidates`, one
/// after the other, each under the uniqueness constraint.
pub open spec fn insert_all(records: Seq<TokenView>, candidates: Seq<TokenView>) -> Seq<TokenView>
    decreases candidates.len(),
{
    if candidates.len() == 0 {
        records
    } else {
        insert(insert_all(records, candidates.drop_last()), candidates.last())
    }
}

/// Whether the store accepted the insert of `candidates[k]`, having taken
/// those before it.
pub open spec fn accepted(records: Seq<TokenView>, candidates: Seq<TokenView>, k: int) -> bool {
    !holds(insert_all(records, candidates.take(k)), candidates[k].id)
}

/// No operation of the store breaks the uniqueness constraint.
pub proof fn law_constraint_kept(records: Seq<TokenView>, record: TokenView, label: Seq<char>)
    requires
        unique_ids(records),
    ensures
        unique_ids(insert(records, record)),
        unique_ids(update_label(records, record.id, label)),
        unique_ids(delete(records, record.id)),
{
    let inserted = insert(records, record);
    assert forall|i: int, j: int| 0 <= i < j < inserted.len() implies (#[trigger] inserted[i]).id != (
    #[trigger] inserted[j]).id by {
        if j < records.len() {
            assert(records[i].id != records[j].id);
        } else {
            assert(records[i].id != record.id);
        }
    }
    if holds(records, record.id) {
        let at = position(records, record.id);
        let updated = update_label(records, record.id, label);
        assert forall|i: int, j: int| 0 <= i < j < updated.len() implies (#[trigger] updated[i]).id
            != (#[trigger] updated[j]).id by {
            assert(updated[i].id == records[i].id);
            assert(updated[j].id == records[j].id);
        }
        let deleted = delete(records, record.id);
        assert forall|i: int, j: int| 0 <= i < j < deleted.len() implies (#[trigger] deleted[i]).id
            != (#[trigger] deleted[j]).id by {
            let from_i = if i < at { i } else { i + 1 };
            let from_j = if j < at { j } else { j + 1 };
            assert(deleted[i] == records[from_i]);
            assert(deleted[j] == records[from_j]);
        }
    }
}

/// Issuing ends with an identifier of the configured length and alphabet,
/// and a lookup of that identifier right after gives the record that was
/// inserted: the user, the label and the time of issue that it was made
/// with.
pub proof fn law_create_then_get(
    config: MasterConfigView,
    records: Seq<TokenView>,
    candidate: TokenView,
    user_id: u64,
    label: Seq<char>,
    step: CreateStepView,
)
    requires
        unique_ids(records),
        candidate.is_candidate(config, user_id, label),
        !holds(records, candidate.id),
        step.follows(config, candidate, InsertOutcomeView::Inserted),
    ensures
        step is Done,
        is_identifier(step->Done_id, config.token_length as nat),
        get_result(Ok(find_by_id(insert(records, candidate), step->Done_id))) matches Ok(found)
            && found == candidate,
        candidate.user_id == user_id,
        candidate.label == label,
{
    let after = insert(records, candidate);
    law_constraint_kept(records, candidate, label);
    assert(after[records.len() as int] == candidate);
    lemma_position(after, records.len() as int);
}

/// One attempt against a store that holds `records`. Issuing ends with the
/// candidate's identifier exactly if that identifier was free, and the store
/// then holds what it held and the candidate after it. If the identifier was
/// taken, the store is as it was and another attempt follows: a rejected
/// candidate is never the one issued, and no record is overwritten.
pub proof fn law_create_step(
    config: MasterConfigView,
    records: Seq<TokenView>,
    candidate: TokenView,
    step: CreateStepView,
)
    requires
        step.follows(config, candidate, insert_outcome(records, candidate)),
    ensures
        step is Done <==> !holds(records, candidate.id),
        step is Retry <==> holds(records, candidate.id),
        step is Done ==> step->Done_id == candidate.id && insert(records, candidate)
            == records.push(candidate),
        step is Retry ==> insert(records, candidate) == records,
{
}

/// A duplicate key never reaches the caller: the step that follows it is
/// another attempt, for the same user and label.
pub proof fn law_collision_retried(
    config: MasterConfigView,
    candidate: TokenView,
    step: CreateStepView,
)
    requires
        step.follows(config, candidate, InsertOutcomeView::DuplicateKey),
    ensures
        step is Retry,
        step->Retry_candidate.user_id == candidate.user_id,
        step->Retry_candidate.label == candidate.label,
        is_identifier(step->Retry_candidate.id, config.token_length as nat),
{
}

/// Inserts only add: a held identifier stays held.
pub proof fn lemma_insert_all_holds(
    records: Seq<TokenView>,
    candidates: Seq<TokenView>,
    id: Seq<char>,
)
    requires
        holds(records, id),
    ensures
        holds(insert_all(records, candidates), id),
    decreases candidates.len(),
{
    if candidates.len() > 0 {
        lemma_insert_all_holds(records, candidates.drop_last(), id);
        let before = insert_all(records, candidates.drop_last());
        let at = position(before, id);
        assert(insert(before, candidates.last())[at].id == id);
    }
}

/// Two inserts that the store accepted carried different identifiers, in
/// whatever order the store took them and whatever else was offered in
/// between: no identifier is issued twice.
pub proof fn law_issued_ids_distinct(
    records: Seq<TokenView>,
    candidates: Seq<TokenView>,
    j: int,
    k: int,
)
    requires
        0 <= j < k < candidates.len(),
        accepted(records, candidates, j),
        accepted(records, candidates, k),
    ensures
        candidates[j].id != candidates[k].id,
{
    let first = candidates[j];
    let until_j = insert_all(records, candidates.take(j));
    let with_j = insert_all(records, candidates.take(j + 1));
    assert(candidates.take(j + 1).drop_last() =~= candidates.take(j));
    assert(with_j == until_j.push(first));
    assert(with_j[until_j.len() as int].id == first.id);
    assert(holds(with_j, first.id));
    let between = candidates.subrange(j + 1, k);
    lemma_insert_all_append(records, candidates.take(j + 1), between);
    assert(candidates.take(j + 1) + between =~= candidates.take(k));
    lemma_insert_all_holds(with_j, between, first.id);
}

/// Taking two runs of inserts one after the other is taking their
/// concatenation.
pub proof fn lemma_insert_all_append(
    records: Seq<TokenView>,
    first: Seq<TokenView>,
    second: Seq<TokenView>,
)
    ensures
        insert_all(records, first + second) == insert_all(insert_all(records, first), second),
    decreases second.len(),
{
    if second.len() == 0 {
        assert(first + second =~= first);
    } else {
        lemma_insert_all_append(records, first, second.drop_last());
        assert((first + second).drop_last() =~= first + second.drop_last());
    }
}

/// A lookup of an identifier that the collection does not hold answers not
/// found, and nothing else.
pub proof fn law_get_missing(records: Seq<TokenView>, id: Seq<char>)
    requires
        !holds(records, id),
    ensures
        get_result(Ok(find_by_id(records, id))) == not_found::<TokenView>(),
{
}

/// Relabelling a token that exists succeeds, and a lookup right after gives
/// the same record with the new label: its owner and its time of issue are
/// as before. Relabelling one that does not exist answers not found and
/// changes nothing.
pub proof fn law_set_then_get(records: Seq<TokenView>, id: Seq<char>, label: Seq<char>)
    requires
        unique_ids(records),
    ensures
        holds(records, id) ==> {
            &&& change_result(Ok(match_count(records, id))) is Ok
            &&& find_by_id(records, id) matches Some(before)
            &&& get_result(Ok(find_by_id(update_label(records, id, label), id))) matches Ok(after)
            &&& after == relabelled(before, label)
        },
        !holds(records, id) ==> {
            &&& change_result(Ok(match_count(records, id))) == not_found::<()>()
            &&& update_label(records, id, label) == records
        },
{
    if holds(records, id) {
        let at = position(records, id);
        let updated = update_label(records, id, label);
        law_constraint_kept(records, records[at], label);
        assert(updated[at] == relabelled(records[at], label));
        lemma_position(updated, at);
    }
}

/// After a revocation a lookup of the identifier answers not found, and so
/// does a second revocation. The first one succeeded exactly if the
/// collection held the identifier.
pub proof fn law_remove_then_get(records: Seq<TokenView>, id: Seq<char>)
    requires
        unique_ids(records),
    ensures
        holds(records, id) ==> change_result(Ok(match_count(records, id))) is Ok,
        !holds(records, id) ==> change_result(Ok(match_count(records, id))) == not_found::<()>(),
        !holds(delete(records, id), id),
        get_result(Ok(find_by_id(delete(records, id), id))) == not_found::<TokenView>(),
        change_result(Ok(match_count(delete(records, id), id))) == not_found::<()>(),
        delete(delete(records, id), id) == delete(records, id),
{
    if holds(records, id) {
        let at = position(records, id);
        let deleted = delete(records, id);
        if holds(deleted, id) {
            let again = position(deleted, id);
            let from = if again < at {
                again
            } else {
                again + 1
            };
            assert(deleted[again] == records[from]);
            if from < at {
                assert(records[from].id != records[at].id);
            } else {
                assert(records[at].id != records[from].id);
            }
        }
    }
}

/// Relabelling, revoking or issuing one token leaves every other token as
/// it was: a lookup of another identifier answers the same before and after.
pub proof fn law_other_tokens_untouched(
    records: Seq<TokenView>,
    record: TokenView,
    label: Seq<char>,
    other: Seq<char>,
)
    requires
        unique_ids(records),
        other != record.id,
    ensures
        find_by_id(update_label(records, record.id, label), other) == find_by_id(records, other),
        find_by_id(delete(records, record.id), other) == find_by_id(records, other),
        find_by_id(insert(records, record), other) == find_by_id(records, other),
{
    law_constraint_kept(records, record, label);
    let updated = update_label(records, record.id, label);
    let deleted = delete(records, record.id);
    let inserted = insert(records, record);
    if holds(records, other) {
        let at = position(records, other);
        assert(updated[at] == records[at]);
        lemma_position(updated, at);
        assert(inserted[at] == records[at]);
        lemma_position(inserted, at);
        if holds(records, record.id) {
            let gone = position(records, record.id);
            let to = if at < gone { at } else { at - 1 };
            assert(deleted[to] == records[at]);
            lemma_position(deleted, to);
        }
    } else {
        if holds(updated, other) {
            let at = position(updated, other);
            assert(updated[at].id == records[at].id);
        }
        if holds(deleted, other) {
            let at = position(deleted, other);
            let gone = position(records, record.id);
            let from = if at < gone { at } else { at + 1 };
            assert(deleted[at] == records[from]);
        }
        if holds(inserted, other) {
            let at = position(inserted, other);
            if at < records.len() {
                assert(inserted[at] == records[at]);
            }
        }
    }
}

/// A page holds tokens of the user asked for and of nobody else, and
/// exactly as many as that user has left after `skip`, up to `limit`.
pub proof fn law_page(records: Seq<TokenView>, user_id: u64, skip: nat, limit: nat)
    ensures
        forall|i: int|
            0 <= i < find_by_user(records, user_id, skip, limit).len() ==> (#[trigger] find_by_user(
                records,
                user_id,
                skip,
                limit,
            )[i]).user_id == user_id,
        find_by_user(records, user_id, skip, limit).len() == page_len(
            tokens_of(records, user_id).len(),
            skip,
            limit,
        ),
        find_by_user(records, user_id, skip, limit).len() <= limit,
        tokens_of(records, user_id).len() <= skip ==> find_by_user(records, user_id, skip, limit)
            == Seq::<TokenView>::empty(),
{
    let owned = tokens_of(records, user_id);
    let page = find_by_user(records, user_id, skip, limit);
    assert forall|i: int| 0 <= i < page.len() implies (#[trigger] page[i]).user_id == user_id by {
        let from = if skip <= owned.len() {
            skip
        } else {
            owned.len()
        };
        assert(page[i] == owned[from + i]);
        records.lemma_filter_pred(owned_by(user_id), from + i);
    }
}

/// The pages of a user, one after the other, are that user's tokens in the
/// order of the collection: page `page` starts where the pages before it
/// end.
pub proof fn law_pages_in_order(
    records: Seq<TokenView>,
    user_id: u64,
    page: nat,
    page_size: nat,
    i: int,
)
    requires
        0 <= i < find_by_user(records, user_id, page * page_size, page_size).len(),
    ensures
        page * page_size + i < tokens_of(records, user_id).len(),
        find_by_user(records, user_id, page * page_size, page_size)[i] == tokens_of(
            records,
            user_id,
        )[page * page_size + i],
{
}

/// What a listing answers over a store that holds `records`: the page that
/// is known without the store, or else what the store returns to the query.
pub open spec fn list_answer(
    records: Seq<TokenView>,
    config: MasterConfigView,
    user_id: u64,
    page: u64,
) -> Result<Seq<TokenView>, TokenErrorView> {
    match list_step(config, user_id, page) {
        ListStepView::Done { tokens } => Ok(tokens),
        ListStepView::Ask { query } => show_result(
            Ok(find_by_user(records, query.user_id, query.skip as nat, query.limit as nat)),
        ),
    }
}

/// Over a store that holds no more records than 64 bits count, a listing
/// answers the page whose number it was given, for every page: the tokens of
/// the user after the first `page * page_size`, at most `page_size` of them.
/// Where the store is not asked, that page is empty.
pub proof fn law_list(records: Seq<TokenView>, config: MasterConfigView, user_id: u64, page: u64)
    requires
        records.len() <= u64::MAX,
    ensures
        list_answer(records, config, user_id, page) == Ok::<Seq<TokenView>, TokenErrorView>(
            find_by_user(
                records,
                user_id,
                (page * config.page_size) as nat,
                config.page_size as nat,
            ),
        ),
{
    records.lemma_filter_len(owned_by(user_id));
    let asked = find_by_user(
        records,
        user_id,
        (page * config.page_size) as nat,
        config.page_size as nat,
    );
    if list_step(config, user_id, page) is Done {
        assert(asked =~= Seq::<TokenView>::empty());
    }
}

/// Over a store that holds no more records than a signed 64-bit number
/// counts, the limit handed to the store gives the page that the limit of
/// the query asks for.
pub proof fn law_signed_limit(records: Seq<TokenView>, user_id: u64, skip: nat, limit: u64)
    requires
        records.len() <= i64::MAX,
    ensures
        signed_limit(limit) >= 0,
        limit > 0 ==> signed_limit(limit) > 0,
        find_by_user(records, user_id, skip, signed_limit(limit) as nat) == find_by_user(
            records,
            user_id,
            skip,
            limit as nat,
        ),
{
    records.lemma_filter_len(owned_by(user_id));
}

} // verus!
