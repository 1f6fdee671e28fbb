use vstd::prelude::*;
use crate::quote::{patched, Quote, QuoteView};
use crate::store::{count_id, distinct_ids, has_id, idx_of};

verus! {

/// Law: listing an empty store yields an empty sequence (the success of
/// the listing itself is part of its contract): records whose mapped
/// values equal the empty sequence are themselves none.
pub proof fn lemma_list_on_empty_store(listed: Seq<Quote>)
    requires
        listed.map_values(|q: Quote| q@) == Seq::<QuoteView>::empty(),
    ensures
        listed.len() == 0,
{
    assert(listed.map_values(|q: Quote| q@).len() == listed.len());
}

/// A sequence in which no record carries the identifier counts zero
/// records carrying it.
pub proof fn lemma_count_id_zero(s: Seq<QuoteView>, id: u128)
    requires
        !has_id(s, id),
    ensures
        count_id(s, id) == 0,
    decreases s.len(),
{
    if s.len() > 0 {
        assert forall|i: int| 0 <= i < s.drop_last().len() implies s.drop_last()[i].id != id by {
            assert(s.drop_last()[i] == s[i]);
        }
        lemma_count_id_zero(s.drop_last(), id);
    }
}

/// Law: creating a record whose identifier is not yet stored and then
/// listing the store shows exactly one record carrying that identifier; it
/// is the created record itself, so its content matches the request and
/// its creation and update times are equal.
pub proof fn lemma_create_then_list(before: Seq<QuoteView>, q: QuoteView)
    requires
        !has_id(before, q.id),
        q.created_at == q.updated_at,
    ensures
        count_id(before.push(q), q.id) == 1,
        forall|i: int|
            0 <= i < before.push(q).len() && (#[trigger] before.push(q)[i]).id == q.id
                ==> before.push(q)[i] == q,
{
    let after = before.push(q);
    assert(after.drop_last() =~= before);
    lemma_count_id_zero(before, q.id);
    assert(after.last() == q);
}

/// Law: an update whose payload holds neither content field leaves both
/// content fields and the creation time of the addressed record unchanged,
/// sets its update time to the captured clock value — strictly later than
/// the stored one whenever the clock has moved past it — and touches no
/// other record.
pub proof fn lemma_update_empty_payload(before: Seq<QuoteView>, id: u128, now: int)
    requires
        distinct_ids(before),
        has_id(before, id),
        now > before[idx_of(before, id)].updated_at,
    ensures
        ({
            let i = idx_of(before, id);
            let after = before.update(i, patched(before[i], Option::None, Option::None, now));
            &&& 0 <= i < after.len()
            &&& after[i].book == before[i].book
            &&& after[i].quote == before[i].quote
            &&& after[i].created_at == before[i].created_at
            &&& after[i].updated_at > before[i].updated_at
            &&& forall|j: int| 0 <= j < before.len() && j != i ==> after[j] == before[j]
        }),
{
}

/// Law: an update whose payload holds only the book field replaces the
/// book of the addressed record, leaves its quote and creation time
/// unchanged, and touches no other record.
pub proof fn lemma_update_book_only(before: Seq<QuoteView>, id: u128, b: Seq<char>, now: int)
    requires
        distinct_ids(before),
        has_id(before, id),
    ensures
        ({
            let i = idx_of(before, id);
            let after = before.update(i, patched(before[i], Option::Some(b), Option::None, now));
            &&& 0 <= i < after.len()
            &&& after[i].book == b
            &&& after[i].quote == before[i].quote
            &&& after[i].created_at == before[i].created_at
            &&& forall|j: int| 0 <= j < before.len() && j != i ==> after[j] == before[j]
        }),
{
}

} // verus!
