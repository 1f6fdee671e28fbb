use vstd::prelude::*;
use crate::quote::{coalesce, opt_view, patched, v4_id, CreateQuote, Quote, QuoteView, UpdateQuote};
use crate::store::{has_id, idx_of, QuoteStore};
use crate::sys;

verus! {

/// Status signal of a plain success.
pub const STATUS_OK: u16 = 200;

/// Status signal of a successful creation (the update operation reports it
/// too, as the service always has).
pub const STATUS_CREATED: u16 = 201;

/// The one generic failure signal: every storage failure collapses into it.
pub const STATUS_INTERNAL_SERVER_ERROR: u16 = 500;

/// Liveness probe: a fixed success, touching nothing.
pub fn health() -> (r: u16)
    ensures
        r == STATUS_OK,
{
    STATUS_OK
}

/// The create operation on a given identifier and timestamp: persists a
/// record built from the payload, with the timestamp as both creation and
/// update time. A fresh identifier yields the created signal and the full
/// record; an identifier already stored makes the insert fail, which
/// collapses into the generic failure signal with the store untouched.
pub fn create_quote_with(store: &mut QuoteStore, payload: CreateQuote, id: u128, now: i64) -> (r:
    Result<(u16, Quote), u16>)
    requires
        old(store).wf(),
    ensures
        final(store).wf(),
        !has_id(old(store)@, id) ==> (r matches Ok(p) && p.0 == STATUS_CREATED && p.1@
            == (QuoteView {
            id,
            book: payload.book@,
            quote: payload.quote@,
            created_at: now as int,
            updated_at: now as int,
        }) && final(store)@ == old(store)@.push(p.1@)),
        has_id(old(store)@, id) ==> (r matches Err(e) && e == STATUS_INTERNAL_SERVER_ERROR
            && final(store)@ == old(store)@),
{
    let rec = Quote { id, book: payload.book, quote: payload.quote, created_at: now, updated_at: now };
    let out = rec.duplicate();
    match store.insert(rec) {
        Ok(_) => Ok((STATUS_CREATED, out)),
        Err(_) => Err(STATUS_INTERNAL_SERVER_ERROR),
    }
}

/// The create operation: draws a fresh identifier, captures the current
/// time once, and persists a record built from the payload. It fails only
/// when the drawn identifier collides with a stored one — so an empty
/// store makes success owed — and whatever the draw and the clock
/// returned, a success carries the created signal and a record whose
/// content matches the payload, whose two timestamps are equal, and whose
/// identifier carries the generator's bit pattern and was not yet stored;
/// a failure carries the generic failure signal and leaves the store
/// untouched.
pub fn create_quote(store: &mut QuoteStore, payload: CreateQuote) -> (r: Result<(u16, Quote), u16>)
    requires
        old(store).wf(),
    ensures
        final(store).wf(),
        old(store)@.len() == 0 ==> r is Ok,
        r matches Ok(p) ==> (p.0 == STATUS_CREATED && p.1@.book == payload.book@ && p.1@.quote
            == payload.quote@ && p.1@.created_at == p.1@.updated_at && v4_id(p.1@.id) && !has_id(
            old(store)@,
            p.1@.id,
        ) && final(store)@ == old(store)@.push(p.1@)),
        r matches Err(e) ==> (e == STATUS_INTERNAL_SERVER_ERROR && final(store)@ == old(store)@),
{
    let id = sys::fresh_id();
    let now = sys::now_micros();
    create_quote_with(store, payload, id, now)
}

/// The update operation on a given timestamp: rewrites the record carrying
/// the identifier, replacing each content field the payload holds, keeping
/// each it omits, and setting the update time to the timestamp. A stored
/// identifier yields the full rewritten record (under the created signal,
/// as the service always has); an unknown one collapses into the generic
/// failure signal with the store untouched.
pub fn update_quote_at(store: &mut QuoteStore, id: u128, payload: UpdateQuote, now: i64) -> (r:
    Result<(u16, Quote), u16>)
    requires
        old(store).wf(),
    ensures
        final(store).wf(),
        has_id(old(store)@, id) ==> (r matches Ok(p) && p.0 == STATUS_CREATED && p.1@ == patched(
            old(store)@[idx_of(old(store)@, id)],
            opt_view(payload.book),
            opt_view(payload.quote),
            now as int,
        ) && final(store)@ == old(store)@.update(idx_of(old(store)@, id), p.1@)),
        !has_id(old(store)@, id) ==> (r matches Err(e) && e == STATUS_INTERNAL_SERVER_ERROR
            && final(store)@ == old(store)@),
{
    match store.update_record(id, payload.book, payload.quote, now) {
        Ok(q) => Ok((STATUS_CREATED, q)),
        Err(_) => Err(STATUS_INTERNAL_SERVER_ERROR),
    }
}

/// The update operation: captures the current time and rewrites the record
/// carrying the identifier. It succeeds exactly on the stored identifiers,
/// whatever the clock returned: a success carries a record whose content
/// fields are coalesced with the payload and whose identifier and creation
/// time are kept, the store holding that record in place of the old one;
/// an unknown identifier collapses into the generic failure signal with
/// the store untouched.
pub fn update_quote(store: &mut QuoteStore, id: u128, payload: UpdateQuote) -> (r: Result<
    (u16, Quote),
    u16,
>)
    requires
        old(store).wf(),
    ensures
        final(store).wf(),
        r is Ok <==> has_id(old(store)@, id),
        r matches Ok(p) ==> ({
            let q0 = old(store)@[idx_of(old(store)@, id)];
            &&& p.0 == STATUS_CREATED
            &&& p.1@.id == id
            &&& p.1@.book == coalesce(opt_view(payload.book), q0.book)
            &&& p.1@.quote == coalesce(opt_view(payload.quote), q0.quote)
            &&& p.1@.created_at == q0.created_at
            &&& final(store)@ == old(store)@.update(idx_of(old(store)@, id), p.1@)
        }),
        r matches Err(e) ==> (e == STATUS_INTERNAL_SERVER_ERROR && final(store)@ == old(store)@),
{
    let now = sys::now_micros();
    update_quote_at(store, id, payload, now)
}

/// The list operation: every stored record, in storage order, under a
/// success. Reading the backing vector cannot fail, so no input yields the
/// failure signal; an empty store yields the empty sequence.
pub fn read_quotes(store: &QuoteStore) -> (r: Result<Vec<Quote>, u16>)
    ensures
        r matches Ok(v) && v@.map_values(|q: Quote| q@) == store@,
{
    Ok(store.list())
}

} // verus!
