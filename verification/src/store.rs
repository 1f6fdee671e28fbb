use vstd::prelude::*;
use crate::quote::{patched, opt_view, Quote, QuoteView};

verus! {

/// Why a store operation was refused.
#[derive(Clone, Copy, Debug, PartialEq, Eq, Structural)]
pub enum StoreError {
    /// An insert found a record that already carries the identifier.
    DuplicateId,
    /// An update found no record carrying the identifier.
    NoSuchId,
}

/// Whether some record in the sequence carries the identifier.
pub open spec fn has_id(s: Seq<QuoteView>, id: u128) -> bool {
    exists|i: int| 0 <= i < s.len() && s[i].id == id
}

/// The position of the record carrying the identifier (any one, where
/// several would; under `distinct_ids` it is unique).
pub open spec fn idx_of(s: Seq<QuoteView>, id: u128) -> int {
    choose|i: int| 0 <= i < s.len() && s[i].id == id
}

/// No two records carry the same identifier.
pub open spec fn distinct_ids(s: Seq<QuoteView>) -> bool {
    forall|i: int, j: int| 0 <= i < j < s.len() ==> s[i].id != s[j].id
}

/// How many records carry the identifier.
pub open spec fn count_id(s: Seq<QuoteView>, id: u128) -> nat
    decreases s.len(),
{
    if s.len() == 0 {
        0
    } else {
        count_id(s.drop_last(), id) + (if s.last().id == id {
            1nat
        } else {
            0nat
        })
    }
}

/// Under `distinct_ids`, a position whose record carries the identifier is
/// the position `idx_of` picks.
pub proof fn lemma_idx_of_unique(s: Seq<QuoteView>, id: u128, i: int)
    requires
        distinct_ids(s),
        0 <= i < s.len(),
        s[i].id == id,
    ensures
        has_id(s, id),
        idx_of(s, id) == i,
{
    assert(has_id(s, id));
    let j = idx_of(s, id);
    if i < j {
        assert(s[i].id != s[j].id);
    } else if j < i {
        assert(s[j].id != s[i].id);
    }
}

/// The table of records, backed by a vector; its mathematical value is the
/// sequence of record values, in storage order.
pub struct QuoteStore {
    quotes: Vec<Quote>,
}

impl View for QuoteStore {
    type V = Seq<QuoteView>;

    closed spec fn view(&self) -> Seq<QuoteView> {
        self.quotes@.map_values(|q: Quote| q@)
    }
}

impl QuoteStore {
    /// No two stored records carry the same identifier.
    pub open spec fn wf(&self) -> bool {
        distinct_ids(self@)
    }

    /// An empty store.
    pub fn new() -> (r: QuoteStore)
        ensures
            r@ == Seq::<QuoteView>::empty(),
            r.wf(),
    {
        let r = QuoteStore { quotes: Vec::new() };
        proof {
            assert(r@ =~= Seq::<QuoteView>::empty());
        }
        r
    }

    /// How many records the store holds.
    pub fn len(&self) -> (n: usize)
        ensures
            n == self@.len(),
    {
        self.quotes.len()
    }

    /// The position of the record carrying the identifier, if one does.
    fn find_idx(&self, id: u128) -> (r: Option<usize>)
        ensures
            match r {
                Option::Some(i) => i < self@.len() && self@[i as int].id == id,
                Option::None => !has_id(self@, id),
            },
    {
        let n = self.quotes.len();
        let mut i: usize = 0;
        while i < n
            invariant
                i <= n,
                n == self@.len(),
                forall|k: int| 0 <= k < i ==> self@[k].id != id,
            decreases n - i,
        {
            if self.quotes[i].id == id {
                return Option::Some(i);
            }
            i = i + 1;
        }
        Option::None
    }

    /// Adds the record as the last row, refusing an identifier that a
    /// stored record already carries.
    pub fn insert(&mut self, q: Quote) -> (r: Result<(), StoreError>)
        requires
            old(self).wf(),
        ensures
            final(self).wf(),
            has_id(old(self)@, q@.id) ==> r == Result::<(), StoreError>::Err(
                StoreError::DuplicateId,
            ) && final(self)@ == old(self)@,
            !has_id(old(self)@, q@.id) ==> r == Result::<(), StoreError>::Ok(())
                && final(self)@ == old(self)@.push(q@),
    {
        match self.find_idx(q.id) {
            Option::Some(_) => Result::Err(StoreError::DuplicateId),
            Option::None => {
                proof {
                    let s = self@.push(q@);
                    assert forall|i: int, j: int| 0 <= i < j < s.len() implies s[i].id
                        != s[j].id by {
                        if j == s.len() - 1 {
                            assert(s[i] == self@[i]);
                        }
                    }
                }
                self.quotes.push(q);
                proof {
                    assert(self@ =~= old(self)@.push(q@));
                }
                Result::Ok(())
            },
        }
    }

    /// Rewrites the record carrying the identifier: each content field is
    /// replaced when the payload holds it, kept when it is absent, and the
    /// update time is set to `now`; a copy of the new record is returned.
    /// An identifier that no stored record carries is refused and the store
    /// is left as it was.
    pub fn update_record(
        &mut self,
        id: u128,
        book: Option<String>,
        quote: Option<String>,
        now: i64,
    ) -> (r: Result<Quote, StoreError>)
        requires
            old(self).wf(),
        ensures
            final(self).wf(),
            !has_id(old(self)@, id) ==> r == Result::<Quote, StoreError>::Err(StoreError::NoSuchId)
                && final(self)@ == old(self)@,
            has_id(old(self)@, id) ==> (r matches Result::Ok(q) && q@ == patched(
                old(self)@[idx_of(old(self)@, id)],
                opt_view(book),
                opt_view(quote),
                now as int,
            ) && final(self)@ == old(self)@.update(idx_of(old(self)@, id), q@)),
    {
        let i = match self.find_idx(id) {
            Option::Some(i) => i,
            Option::None => {
                return Result::Err(StoreError::NoSuchId);
            },
        };
        proof {
            lemma_idx_of_unique(self@, id, i as int);
        }
        let new_book = match book {
            Option::Some(b) => b,
            Option::None => self.quotes[i].book.clone(),
        };
        let new_quote = match quote {
            Option::Some(t) => t,
            Option::None => self.quotes[i].quote.clone(),
        };
        let new_rec = Quote {
            id: self.quotes[i].id,
            book: new_book,
            quote: new_quote,
            created_at: self.quotes[i].created_at,
            updated_at: now,
        };
        let out = new_rec.duplicate();
        self.quotes[i] = new_rec;
        proof {
            assert(self@ =~= old(self)@.update(i as int, out@));
            assert forall|a: int, b: int| 0 <= a < b < self@.len() implies self@[a].id
                != self@[b].id by {
                assert(old(self)@[a].id != old(self)@[b].id);
            }
        }
        Result::Ok(out)
    }

    /// A copy of every stored record, in storage order.
    pub fn list(&self) -> (r: Vec<Quote>)
        ensures
            r@.map_values(|q: Quote| q@) == self@,
    {
        let n = self.quotes.len();
        let mut out: Vec<Quote> = Vec::new();
        let mut i: usize = 0;
        while i < n
            invariant
                i <= n,
                n == self@.len(),
                out@.len() == i,
                forall|k: int| 0 <= k < i ==> out@[k]@ == self@[k],
            decreases n - i,
        {
            out.push(self.quotes[i].duplicate());
            i = i + 1;
        }
        proof {
            assert(out@.map_values(|q: Quote| q@) =~= self@);
        }
        out
    }
}

} // verus!
