//! The record store gateway: which statement each lookup runs, and what the
//! first row of its result means. Running the statement is the host's part.

use vstd::prelude::*;
use crate::rows::{flag_at, integer_at, read_flag, read_integer};

verus! {

/// A lookup against the `quotes` table.
#[derive(Debug, Clone, Copy, PartialEq, Eq)]
pub enum StoreQuery {
    /// How many quotes there are.
    TotalCount,
    /// The quote with this identifier.
    QuoteById { id: i64 },
    /// Whether the quote with this identifier is flagged as having an image.
    HasImage { id: i64 },
    /// The identifier of one flagged quote, chosen by the store at random.
    RandomImageId,
}

/// The statement that a lookup runs.
pub open spec fn sql_of(query: StoreQuery) -> Seq<char> {
    match query {
        StoreQuery::TotalCount => "SELECT COUNT(*) as count FROM quotes"@,
        StoreQuery::QuoteById { .. } => "SELECT id, quote, source_url, has_image FROM quotes WHERE id = ?"@,
        StoreQuery::HasImage { .. } => "SELECT has_image FROM quotes WHERE id = ?"@,
        StoreQuery::RandomImageId => "SELECT id FROM quotes WHERE has_image = 1 ORDER BY RANDOM() LIMIT 1"@,
    }
}

/// The identifier bound to the statement's one placeholder, if it has one.
pub open spec fn binding_of(query: StoreQuery) -> Option<i64> {
    match query {
        StoreQuery::TotalCount => None,
        StoreQuery::QuoteById { id } => Some(id),
        StoreQuery::HasImage { id } => Some(id),
        StoreQuery::RandomImageId => None,
    }
}

impl StoreQuery {
    /// The text of the statement to prepare.
    pub fn sql(&self) -> (text: &'static str)
        ensures
            text@ == sql_of(*self),
    {
        match self {
            StoreQuery::TotalCount => "SELECT COUNT(*) as count FROM quotes",
            StoreQuery::QuoteById { .. } => "SELECT id, quote, source_url, has_image FROM quotes WHERE id = ?",
            StoreQuery::HasImage { .. } => "SELECT has_image FROM quotes WHERE id = ?",
            StoreQuery::RandomImageId => "SELECT id FROM quotes WHERE has_image = 1 ORDER BY RANDOM() LIMIT 1",
        }
    }

    /// The identifier to bind to the statement, if it takes one.
    pub fn binding(&self) -> (id: Option<i64>)
        ensures
            id == binding_of(*self),
    {
        match self {
            StoreQuery::TotalCount => None,
            StoreQuery::QuoteById { id } => Some(*id),
            StoreQuery::HasImage { id } => Some(*id),
            StoreQuery::RandomImageId => None,
        }
    }
}

/// The count that the first row of a `TotalCount` result stands for: its
/// integer column `count`, and 0 where the row or the column is missing or
/// the column holds anything but an integer that fits an `i64`.
pub open spec fn count_of(row: Option<serde_json::Value>) -> i64 {
    match row {
        Some(r) => match integer_at(r, "count"@) {
            Some(n) => n,
            None => 0,
        },
        None => 0,
    }
}

/// What the first row of a `HasImage` result says: its boolean column
/// `has_image`, and `false` where the row or the column is missing or the
/// column holds anything but a JSON boolean. A store that delivers the flag
/// as the integer 1 is therefore read as "no image". A quote that does not
/// exist and one without an image are told apart nowhere.
pub open spec fn has_image_of(row: Option<serde_json::Value>) -> bool {
    match row {
        Some(r) => match flag_at(r, "has_image"@) {
            Some(b) => b,
            None => false,
        },
        None => false,
    }
}

/// The identifier that the first row of a `RandomImageId` result holds in
/// its integer column `id`; none where the row or the column is missing or
/// the column holds anything but an integer that fits an `i64`.
pub open spec fn image_id_of(row: Option<serde_json::Value>) -> Option<i64> {
    match row {
        Some(r) => integer_at(r, "id"@),
        None => None,
    }
}

/// Reads the total number of quotes from the first row of a `TotalCount`
/// result.
pub fn get_total_count(row: &Option<serde_json::Value>) -> (count: i64)
    ensures
        count == count_of(*row),
{
    match row {
        Some(r) => match read_integer(r, "count") {
            Some(n) => n,
            None => 0,
        },
        None => 0,
    }
}

/// Reads from the first row of a `HasImage` result whether the quote has an
/// image.
pub fn has_image(row: &Option<serde_json::Value>) -> (flagged: bool)
    ensures
        flagged == has_image_of(*row),
{
    match row {
        Some(r) => match read_flag(r, "has_image") {
            Some(b) => b,
            None => false,
        },
        None => false,
    }
}

/// Reads the chosen identifier from the first row of a `RandomImageId`
/// result.
pub fn get_random_image_id(row: &Option<serde_json::Value>) -> (id: Option<i64>)
    ensures
        id == image_id_of(*row),
{
    match row {
        Some(r) => read_integer(r, "id"),
        None => None,
    }
}

/// The lookup for the quote with the identifier `id`.
pub fn get_quote_by_id(id: i64) -> (query: StoreQuery)
    ensures
        query == (StoreQuery::QuoteById { id }),
{
    StoreQuery::QuoteById { id }
}

/// The identifier that the draw `draw` picks among `count` quotes numbered
/// from 1: position `draw mod count`, counted from 1.
pub open spec fn drawn_id(count: i64, draw: u64) -> int {
    (draw as int) % (count as int) + 1
}

/// The lookup that fetches a random quote, given the number of quotes and a
/// draw: none for an empty store, else the lookup of the drawn identifier.
pub open spec fn random_quote_of(count: i64, draw: u64) -> Option<StoreQuery> {
    if count <= 0 {
        None
    } else {
        Some(StoreQuery::QuoteById { id: drawn_id(count, draw) as i64 })
    }
}

/// A number that `rand::random::<u64>()` drew from the thread's generator.
/// Nothing is claimed of it: any `u64` may come back. The call panics where
/// the system's random source fails while the generator is seeded or
/// reseeded; no input can be blamed for that, so no `requires` excludes it.
#[verifier::external_body]
fn random_u64() -> (draw: u64) {
    rand::random::<u64>()
}

/// The lookup that fetches a random quote for a given draw. The identifier
/// lies between 1 and `count`, so with identifiers 1 to `count` in the store
/// the lookup finds a quote.
pub fn random_quote_for_draw(count: i64, draw: u64) -> (query: Option<StoreQuery>)
    ensures
        query == random_quote_of(count, draw),
        (query matches Some(StoreQuery::QuoteById { id }) ==> 1 <= id <= count),
{
    if count <= 0 {
        None
    } else {
        let position: u64 = draw % (count as u64);
        Some(get_quote_by_id((position + 1) as i64))
    }
}

/// The lookup that fetches a random quote from a store of `count` quotes:
/// none for an empty store, else the lookup of an identifier drawn between 1
/// and `count`.
pub fn get_random_quote(count: i64) -> (query: Option<StoreQuery>)
    ensures
        count <= 0 ==> query is None,
        count > 0 ==> exists|draw: u64| query == #[trigger] random_quote_of(count, draw),
        count > 0 ==> (query matches Some(StoreQuery::QuoteById { id }) && 1 <= id <= count),
{
    if count <= 0 {
        None
    } else {
        let draw = random_u64();
        random_quote_for_draw(count, draw)
    }
}

} // verus!
