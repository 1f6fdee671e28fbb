use vstd::prelude::*;
use crate::sys;

verus! {

/// Mathematical value of one stored record: the identifier as its 128-bit
/// value, the two content fields as character sequences, and the two
/// timestamps as microseconds since the Unix epoch.
pub ghost struct QuoteView {
    pub id: u128,
    pub book: Seq<char>,
    pub quote: Seq<char>,
    pub created_at: int,
    pub updated_at: int,
}

/// One quote record: an identifier, two free-text content fields, and the
/// creation and last-update timestamps.
#[derive(Debug)]
pub struct Quote {
    pub id: u128,
    pub book: String,
    pub quote: String,
    pub created_at: i64,
    pub updated_at: i64,
}

impl View for Quote {
    type V = QuoteView;

    open spec fn view(&self) -> QuoteView {
        QuoteView {
            id: self.id,
            book: self.book@,
            quote: self.quote@,
            created_at: self.created_at as int,
            updated_at: self.updated_at as int,
        }
    }
}

impl Quote {
    /// Builds a fresh record: a newly generated identifier, the given
    /// content, and the current time captured once for both timestamps.
    pub fn new(book: String, quote: String) -> (q: Quote)
        ensures
            q@.book == book@,
            q@.quote == quote@,
            q@.created_at == q@.updated_at,
            v4_id(q@.id),
    {
        let now = sys::now_micros();
        Quote { id: sys::fresh_id(), book, quote, created_at: now, updated_at: now }
    }

    /// A field-for-field copy of the record.
    pub fn duplicate(&self) -> (r: Quote)
        ensures
            r@ == self@,
    {
        Quote {
            id: self.id,
            book: self.book.clone(),
            quote: self.quote.clone(),
            created_at: self.created_at,
            updated_at: self.updated_at,
        }
    }
}

/// Payload of the create operation: both content fields are required.
#[derive(Debug)]
pub struct CreateQuote {
    pub book: String,
    pub quote: String,
}

/// Payload of the update operation: each content field is replaced when
/// present and kept when absent.
#[derive(Debug)]
pub struct UpdateQuote {
    pub book: Option<String>,
    pub quote: Option<String>,
}

/// The fixed bits every freshly generated identifier carries: the version
/// nibble (bits 76 to 79) reads 4 and the variant bits (62 and 63) read
/// the two-bit pattern 10, as the generator stamps them on every draw.
pub open spec fn v4_id(id: u128) -> bool {
    &&& id & 0xF0000000000000000000 == 0x40000000000000000000
    &&& id & 0xC000000000000000 == 0x8000000000000000
}

/// The character sequence held by a present optional field, if any.
pub open spec fn opt_view(o: Option<String>) -> Option<Seq<char>> {
    match o {
        Option::Some(s) => Option::Some(s@),
        Option::None => Option::None,
    }
}

/// The value an optional payload field leaves in the store: the new content
/// when present, the prior content when absent.
pub open spec fn coalesce(o: Option<Seq<char>>, prior: Seq<char>) -> Seq<char> {
    match o {
        Option::Some(s) => s,
        Option::None => prior,
    }
}

/// The record an update leaves behind: content fields coalesced with the
/// payload, identifier and creation time kept, update time refreshed.
pub open spec fn patched(
    q: QuoteView,
    book: Option<Seq<char>>,
    quote: Option<Seq<char>>,
    now: int,
) -> QuoteView {
    QuoteView {
        id: q.id,
        book: coalesce(book, q.book),
        quote: coalesce(quote, q.quote),
        created_at: q.created_at,
        updated_at: now,
    }
}

} // verus!
