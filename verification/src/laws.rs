//! What the service guarantees against any store. The store is modelled as
//! a map from identifiers to quotes and a map from keys to blobs; a host is
//! honest when its answers say what these maps hold.

use vstd::prelude::*;
use vstd::arithmetic::div_mod::lemma_small_mod;
use vstd::set_lib::{lemma_int_range, set_int_range};
use crate::blobs::image_key_of;
use crate::db::{count_of, drawn_id, has_image_of, image_id_of, random_quote_of, StoreQuery};
use crate::http::{
    api_root, error_response_of, handle_of, health_response_of, image_response_of,
    json_response_of, preflight_response_of, proceed_of, route_of, BodyModel, HeaderModel,
    Method, Route, TurnModel,
};
use crate::models::{PayloadModel, QuoteModel, QuoteResponseModel};
use crate::params::decimal_text_reads_back;
use crate::service::{AnswerModel, EffectModel, Operation, Pending};
use crate::text::decimal_text;

verus! {

/// The two stores, as the service is entitled to think of them.
pub struct World {
    /// The rows of the record store, by identifier.
    pub quotes: Map<int, QuoteModel>,
    /// The objects of the blob store, by key.
    pub blobs: Map<Seq<char>, Seq<u8>>,
}

impl World {
    /// There are finitely many rows, and each is stored under its own
    /// identifier.
    pub open spec fn well_formed(self) -> bool {
        &&& self.quotes.dom().finite()
        &&& forall|id: int| #[trigger]
            self.quotes.dom().contains(id) ==> self.quotes[id].id == id
    }

    /// The quote `id` exists and is flagged as having an image.
    pub open spec fn flagged(self, id: int) -> bool {
        self.quotes.dom().contains(id) && self.quotes[id].has_image
    }

    /// The row stored under `id`, if there is one.
    pub open spec fn quote(self, id: int) -> Option<QuoteModel> {
        if self.quotes.dom().contains(id) {
            Some(self.quotes[id])
        } else {
            None
        }
    }

    /// The blob stored under `key`, if there is one.
    pub open spec fn blob(self, key: Seq<char>) -> Option<Seq<u8>> {
        if self.blobs.dom().contains(key) {
            Some(self.blobs[key])
        } else {
            None
        }
    }

    /// `answer` is what an honest host answers to `effect`: the number of
    /// rows, the row or the flag of an identifier, the identifier of some
    /// flagged row (of none only where no row is flagged), the blob of a key.
    pub open spec fn answers(self, effect: EffectModel, answer: AnswerModel) -> bool {
        match effect {
            EffectModel::Query(StoreQuery::TotalCount) => {
                &&& answer matches AnswerModel::Row(row)
                &&& count_of(row) == self.quotes.dom().len()
            },
            EffectModel::Query(StoreQuery::QuoteById { id }) => answer == AnswerModel::Quote(
                self.quote(id as int),
            ),
            EffectModel::Query(StoreQuery::HasImage { id }) => {
                &&& answer matches AnswerModel::Row(row)
                &&& has_image_of(row) == self.flagged(id as int)
            },
            EffectModel::Query(StoreQuery::RandomImageId) => {
                &&& answer matches AnswerModel::Row(row)
                &&& match image_id_of(row) {
                    Some(id) => self.flagged(id as int),
                    None => forall|id: int| !self.flagged(id),
                }
            },
            EffectModel::Fetch { key } => answer == AnswerModel::Blob(self.blob(key)),
        }
    }
}

/// The path of the quote `id`: the service's root, then the identifier in
/// decimal.
pub open spec fn quote_path(id: i64) -> Seq<char> {
    api_root() + decimal_text(id as int)
}

/// The path of the image of the quote `id`: the service's root, `img/`,
/// then the identifier in decimal.
pub open spec fn image_path(id: i64) -> Seq<char> {
    api_root() + "img/"@ + decimal_text(id as int)
}

/// The path of a random quote: the service's root.
pub open spec fn random_quote_path() -> Seq<char> {
    api_root()
}

/// The path of a random image: the service's root, then `img`.
pub open spec fn random_image_path() -> Seq<char> {
    api_root() + "img"@
}

/// Every identifier can be asked for: a `GET` of its quote path begins the
/// lookup of that quote, and a `GET` of its image path begins with the
/// image flag of that quote.
pub proof fn identifier_paths_reach_their_operation(id: i64)
    ensures
        route_of(Method::Get, quote_path(id)) == Route::Service(Operation::QuoteById { id }),
        route_of(Method::Get, image_path(id)) == Route::Service(Operation::ImageById { id }),
        handle_of(Method::Get, quote_path(id)) == TurnModel::Ask(
            EffectModel::Query(StoreQuery::QuoteById { id }),
            Pending::QuoteById,
        ),
        handle_of(Method::Get, image_path(id)) == TurnModel::Ask(
            EffectModel::Query(StoreQuery::HasImage { id }),
            Pending::ImageFlag { id },
        ),
{
    reveal_strlit("/api/wisdom/");
    reveal_strlit("/health");
    reveal_strlit("img");
    reveal_strlit("img/");
    decimal_text_reads_back(id);
    let root = api_root();
    let text = decimal_text(id as int);

    let quote = quote_path(id);
    assert(root.is_prefix_of(quote)) by {
        assert(quote.subrange(0, root.len() as int) =~= root);
    }
    assert(quote.skip(root.len() as int) =~= text);
    assert(quote.len() > "/health"@.len());
    assert(text != "img"@) by {
        assert("img"@[0] == 'i');
    }
    assert(!"img/"@.is_prefix_of(text)) by {
        if "img/"@.is_prefix_of(text) {
            assert(text.subrange(0, 4)[0] == "img/"@[0]);
        }
    }

    let image = image_path(id);
    let rest = "img/"@ + text;
    assert(root.is_prefix_of(image)) by {
        assert(image.subrange(0, root.len() as int) =~= root);
    }
    assert(image.skip(root.len() as int) =~= rest);
    assert(image.len() > "/health"@.len());
    assert(rest != "img"@);
    assert("img/"@.is_prefix_of(rest)) by {
        assert(rest.subrange(0, 4) =~= "img/"@);
    }
    assert(rest.skip("img/"@.len() as int) =~= text);
}

/// A `GET` of the service's root begins a random quote with the count, and
/// a `GET` of `img` under it begins a random image.
pub proof fn random_paths_reach_their_operation()
    ensures
        handle_of(Method::Get, random_quote_path()) == TurnModel::Ask(
            EffectModel::Query(StoreQuery::TotalCount),
            Pending::Count,
        ),
        handle_of(Method::Get, random_image_path()) == TurnModel::Ask(
            EffectModel::Query(StoreQuery::RandomImageId),
            Pending::RandomImageId,
        ),
{
    reveal_strlit("/api/wisdom/");
    reveal_strlit("/health");
    reveal_strlit("img");
    let root = api_root();
    assert(root.is_prefix_of(root)) by {
        assert(root.subrange(0, root.len() as int) =~= root);
    }
    let image = random_image_path();
    assert(root.is_prefix_of(image)) by {
        assert(image.subrange(0, root.len() as int) =~= root);
    }
    assert(image.skip(root.len() as int) =~= "img"@);
}

/// A quote that the store holds is served by its identifier: the request
/// begins the lookup of that identifier, and the stored row is answered with
/// status 200 and a payload of exactly the stored identifier, text and
/// source. Nothing of an image is part of it.
pub proof fn quote_by_id_serves_the_stored_row(world: World, id: i64, answer: AnswerModel, draw: u64)
    requires
        world.well_formed(),
        world.quotes.dom().contains(id as int),
        world.answers(EffectModel::Query(StoreQuery::QuoteById { id }), answer),
    ensures
        handle_of(Method::Get, quote_path(id)) == TurnModel::Ask(
            EffectModel::Query(StoreQuery::QuoteById { id }),
            Pending::QuoteById,
        ),
        proceed_of(Pending::QuoteById, answer, draw) == TurnModel::Reply(
            json_response_of(
                PayloadModel::Quote(
                    QuoteResponseModel {
                        id: id as int,
                        quote: world.quotes[id as int].quote,
                        source_url: world.quotes[id as int].source_url,
                    },
                ),
                200,
            ),
        ),
{
    identifier_paths_reach_their_operation(id);
}

/// A quote that the store does not hold is answered with 404.
pub proof fn quote_by_id_of_a_missing_row_is_not_found(
    world: World,
    id: i64,
    answer: AnswerModel,
    draw: u64,
)
    requires
        !world.quotes.dom().contains(id as int),
        world.answers(EffectModel::Query(StoreQuery::QuoteById { id }), answer),
    ensures
        proceed_of(Pending::QuoteById, answer, draw) == TurnModel::Reply(
            error_response_of("Quote not found"@, 404),
        ),
{
}

/// A random quote from an empty store is none: the request begins with the
/// count, and the count of an empty store is answered with 404, without a
/// second lookup, whatever the draw.
pub proof fn random_quote_of_an_empty_store_is_absent(world: World, answer: AnswerModel, draw: u64)
    requires
        world.quotes.dom() =~= Set::<int>::empty(),
        world.answers(EffectModel::Query(StoreQuery::TotalCount), answer),
    ensures
        handle_of(Method::Get, random_quote_path()) == TurnModel::Ask(
            EffectModel::Query(StoreQuery::TotalCount),
            Pending::Count,
        ),
        proceed_of(Pending::Count, answer, draw) == TurnModel::Reply(
            error_response_of("No quotes found"@, 404),
        ),
{
    random_paths_reach_their_operation();
}

/// In a store whose identifiers are 1 to `n` without gaps, every draw picks
/// an identifier between 1 and `n`, and the quote that is then looked up is
/// found and served as it is stored.
pub proof fn random_quote_stays_within_the_store(
    world: World,
    n: i64,
    count_answer: AnswerModel,
    quote_answer: AnswerModel,
    draw: u64,
)
    requires
        world.well_formed(),
        n >= 1,
        forall|id: int| world.quotes.dom().contains(id) <==> 1 <= id <= n,
        world.answers(EffectModel::Query(StoreQuery::TotalCount), count_answer),
        world.answers(
            EffectModel::Query(StoreQuery::QuoteById { id: drawn_id(n, draw) as i64 }),
            quote_answer,
        ),
    ensures
        1 <= drawn_id(n, draw) <= n,
        proceed_of(Pending::Count, count_answer, draw) == TurnModel::Ask(
            EffectModel::Query(StoreQuery::QuoteById { id: drawn_id(n, draw) as i64 }),
            Pending::RandomQuote,
        ),
        proceed_of(Pending::RandomQuote, quote_answer, draw) == TurnModel::Reply(
            json_response_of(
                PayloadModel::Quote(
                    QuoteResponseModel {
                        id: drawn_id(n, draw),
                        quote: world.quotes[drawn_id(n, draw)].quote,
                        source_url: world.quotes[drawn_id(n, draw)].source_url,
                    },
                ),
                200,
            ),
        ),
{
    lemma_int_range(1, n + 1);
    assert(world.quotes.dom() =~= set_int_range(1, n + 1));
}

/// Every identifier between 1 and the count is picked by some draw.
pub proof fn every_quote_can_be_drawn(count: i64, id: i64)
    requires
        1 <= id <= count,
    ensures
        exists|draw: u64| #[trigger]
            random_quote_of(count, draw) == Some(StoreQuery::QuoteById { id }),
{
    let draw = (id - 1) as u64;
    lemma_small_mod(draw as nat, count as nat);
    assert(drawn_id(count, draw) == id);
    assert(random_quote_of(count, draw) == Some(StoreQuery::QuoteById { id }));
}

/// The image of a quote that does not exist, or is not flagged, is answered
/// with 404 once the flag was read, without a look at the blob store.
pub proof fn image_of_an_unflagged_quote_is_not_found(
    world: World,
    id: i64,
    answer: AnswerModel,
    draw: u64,
)
    requires
        !world.flagged(id as int),
        world.answers(EffectModel::Query(StoreQuery::HasImage { id }), answer),
    ensures
        handle_of(Method::Get, image_path(id)) == TurnModel::Ask(
            EffectModel::Query(StoreQuery::HasImage { id }),
            Pending::ImageFlag { id },
        ),
        proceed_of(Pending::ImageFlag { id }, answer, draw) == TurnModel::Reply(
            error_response_of("Quote does not have an image"@, 404),
        ),
{
    identifier_paths_reach_their_operation(id);
}

/// The image of a flagged quote is fetched under the key derived from the
/// identifier. Where the blob exists, the response is 200 with exactly the
/// stored bytes; where it is missing, the response is 404, not a failure.
pub proof fn image_of_a_flagged_quote_is_its_blob(
    world: World,
    id: i64,
    flag_answer: AnswerModel,
    blob_answer: AnswerModel,
    draw: u64,
)
    requires
        world.flagged(id as int),
        world.answers(EffectModel::Query(StoreQuery::HasImage { id }), flag_answer),
        world.answers(EffectModel::Fetch { key: image_key_of(id) }, blob_answer),
    ensures
        handle_of(Method::Get, image_path(id)) == TurnModel::Ask(
            EffectModel::Query(StoreQuery::HasImage { id }),
            Pending::ImageFlag { id },
        ),
        proceed_of(Pending::ImageFlag { id }, flag_answer, draw) == TurnModel::Ask(
            EffectModel::Fetch { key: image_key_of(id) },
            Pending::ImageBlob,
        ),
        world.blobs.dom().contains(image_key_of(id)) ==> proceed_of(
            Pending::ImageBlob,
            blob_answer,
            draw,
        ) == TurnModel::Reply(image_response_of(world.blobs[image_key_of(id)])),
        !world.blobs.dom().contains(image_key_of(id)) ==> proceed_of(
            Pending::ImageBlob,
            blob_answer,
            draw,
        ) == TurnModel::Reply(error_response_of("Image file not found"@, 404)),
        image_response_of(world.blobs[image_key_of(id)]).status == 200,
        image_response_of(world.blobs[image_key_of(id)]).body == BodyModel::Bytes(
            world.blobs[image_key_of(id)],
        ),
{
    identifier_paths_reach_their_operation(id);
}

/// A random image is the blob of a flagged quote: the request begins with
/// the store's choice among the flagged quotes, and goes on to fetch the
/// blob of a quote that is flagged. Only where no quote is flagged is the
/// choice answered with 404.
pub proof fn random_image_is_chosen_among_flagged_quotes(
    world: World,
    answer: AnswerModel,
    draw: u64,
)
    requires
        world.answers(EffectModel::Query(StoreQuery::RandomImageId), answer),
    ensures
        handle_of(Method::Get, random_image_path()) == TurnModel::Ask(
            EffectModel::Query(StoreQuery::RandomImageId),
            Pending::RandomImageId,
        ),
        match proceed_of(Pending::RandomImageId, answer, draw) {
            TurnModel::Ask(effect, pending) => exists|id: i64| #[trigger]
                world.flagged(id as int) && effect == (EffectModel::Fetch {
                    key: image_key_of(id),
                }) && pending == Pending::RandomImageBlob,
            TurnModel::Reply(response) => (forall|id: int| !world.flagged(id)) && response
                == error_response_of("No images available"@, 404),
        },
{
    random_paths_reach_their_operation();
    let row = answer->Row_0;
    if image_id_of(row) is Some {
        let id = image_id_of(row)->Some_0;
        assert(world.flagged(id as int));
    }
}

/// The blob of a random image is served as it is stored, with status 200;
/// a missing blob is answered with 404, not a failure.
pub proof fn random_image_is_its_blob(world: World, key: Seq<char>, answer: AnswerModel, draw: u64)
    requires
        world.answers(EffectModel::Fetch { key }, answer),
    ensures
        world.blobs.dom().contains(key) ==> proceed_of(Pending::RandomImageBlob, answer, draw)
            == TurnModel::Reply(image_response_of(world.blobs[key])),
        !world.blobs.dom().contains(key) ==> proceed_of(Pending::RandomImageBlob, answer, draw)
            == TurnModel::Reply(error_response_of("Image not found"@, 404)),
{
}

/// The liveness probe is answered at once with 200 and the text `OK`: no
/// lookup is asked for, so no store can keep the answer from being given.
pub proof fn health_needs_no_store()
    ensures
        handle_of(Method::Get, "/health"@) == TurnModel::Reply(health_response_of()),
        health_response_of().status == 200,
        health_response_of().body == BodyModel::Text("OK"@),
{
}

/// A preflight for any path under the service's root is answered at once
/// with 204, an empty body and the three cross-origin headers: any origin,
/// the methods `GET, OPTIONS`, the header `Content-Type`.
pub proof fn preflight_needs_no_store(path: Seq<char>)
    requires
        api_root().is_prefix_of(path),
    ensures
        handle_of(Method::Options, path) == TurnModel::Reply(preflight_response_of()),
        preflight_response_of().status == 204,
        preflight_response_of().body == BodyModel::Empty,
        preflight_response_of().headers == seq![
            HeaderModel { name: "Access-Control-Allow-Origin"@, value: "*"@ },
            HeaderModel { name: "Access-Control-Allow-Methods"@, value: "GET, OPTIONS"@ },
            HeaderModel { name: "Access-Control-Allow-Headers"@, value: "Content-Type"@ },
        ],
{
}

} // verus!
