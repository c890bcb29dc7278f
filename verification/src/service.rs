//! The quote service. Each operation is a short exchange with the host: the
//! service names a lookup, the host performs it and hands back the answer,
//! and the service either names the next lookup or ends with an outcome.

use vstd::prelude::*;
use crate::blobs::{image_key, image_key_of};
use crate::db::{
    count_of, get_quote_by_id, get_random_image_id, get_random_quote, get_total_count, has_image,
    has_image_of, image_id_of, random_quote_for_draw, random_quote_of, StoreQuery,
};
use crate::models::{Quote, QuoteModel};

verus! {

/// What a client can ask of the service.
#[derive(Debug, Clone, Copy, PartialEq, Eq)]
pub enum Operation {
    RandomQuote,
    QuoteById { id: i64 },
    RandomImage,
    ImageById { id: i64 },
}

/// A lookup that the host is asked to perform.
#[derive(Debug, Clone, PartialEq, Eq)]
pub enum Effect {
    /// Run the statement and answer with the first row of its result.
    Query(StoreQuery),
    /// Get the blob stored under the key.
    Fetch { key: String },
}

/// Mathematical value of an [`Effect`].
pub enum EffectModel {
    Query(StoreQuery),
    Fetch { key: Seq<char> },
}

/// Where an operation stands while a lookup is under way.
#[derive(Debug, Clone, Copy, PartialEq, Eq)]
pub enum Pending {
    /// A random quote: the number of quotes was asked for.
    Count,
    /// A random quote: the drawn quote was asked for.
    RandomQuote,
    /// A quote by identifier: the quote was asked for.
    QuoteById,
    /// A random image: the identifier of a flagged quote was asked for.
    RandomImageId,
    /// A random image: the blob was asked for.
    RandomImageBlob,
    /// An image by identifier: the image flag of the quote was asked for.
    ImageFlag { id: i64 },
    /// An image by identifier: the blob was asked for.
    ImageBlob,
}

/// What the host found.
#[derive(Debug, Clone, PartialEq, Eq)]
pub enum Answer {
    /// The first row of a statement's result, if it has one. Answers every
    /// `Query` but `QuoteById`.
    Row(Option<serde_json::Value>),
    /// The quote that `QuoteById` found, if any.
    Quote(Option<Quote>),
    /// The blob that `Fetch` found, if any.
    Blob(Option<Vec<u8>>),
    /// The store could not be reached or did not answer properly.
    Failed,
}

/// Mathematical value of an [`Answer`].
pub enum AnswerModel {
    Row(Option<serde_json::Value>),
    Quote(Option<QuoteModel>),
    Blob(Option<Seq<u8>>),
    Failed,
}

/// How an operation ended.
#[derive(Debug, Clone, PartialEq, Eq)]
pub enum Outcome {
    /// The quote that was asked for.
    Quote(Quote),
    /// A random quote was asked for and none was found.
    NoQuotes,
    /// No quote has the identifier.
    QuoteNotFound,
    /// The bytes of the image that was asked for.
    Image(Vec<u8>),
    /// A random image was asked for and no quote is flagged.
    NoImages,
    /// A random image was asked for and the drawn quote's blob is missing.
    ImageNotFound,
    /// The quote is not flagged as having an image, or does not exist.
    NoImageForQuote,
    /// The quote is flagged but its blob is missing.
    ImageFileNotFound,
    /// A lookup failed, or the host's answer does not fit the lookup.
    StoreFailed,
}

/// Mathematical value of an [`Outcome`].
pub enum OutcomeModel {
    Quote(QuoteModel),
    NoQuotes,
    QuoteNotFound,
    Image(Seq<u8>),
    NoImages,
    ImageNotFound,
    NoImageForQuote,
    ImageFileNotFound,
    StoreFailed,
}

/// One move of the service: a lookup for the host, with the place to resume
/// from, or the end of the operation.
#[derive(Debug, Clone, PartialEq, Eq)]
pub enum Step {
    Ask(Effect, Pending),
    Done(Outcome),
}

/// Mathematical value of a [`Step`].
pub enum StepModel {
    Ask(EffectModel, Pending),
    Done(OutcomeModel),
}

impl View for Effect {
    type V = EffectModel;

    open spec fn view(&self) -> EffectModel {
        match self {
            Effect::Query(query) => EffectModel::Query(*query),
            Effect::Fetch { key } => EffectModel::Fetch { key: key@ },
        }
    }
}

impl View for Answer {
    type V = AnswerModel;

    open spec fn view(&self) -> AnswerModel {
        match self {
            Answer::Row(row) => AnswerModel::Row(*row),
            Answer::Quote(Some(quote)) => AnswerModel::Quote(Some(quote@)),
            Answer::Quote(None) => AnswerModel::Quote(None),
            Answer::Blob(Some(bytes)) => AnswerModel::Blob(Some(bytes@)),
            Answer::Blob(None) => AnswerModel::Blob(None),
            Answer::Failed => AnswerModel::Failed,
        }
    }
}

impl View for Outcome {
    type V = OutcomeModel;

    open spec fn view(&self) -> OutcomeModel {
        match self {
            Outcome::Quote(quote) => OutcomeModel::Quote(quote@),
            Outcome::NoQuotes => OutcomeModel::NoQuotes,
            Outcome::QuoteNotFound => OutcomeModel::QuoteNotFound,
            Outcome::Image(bytes) => OutcomeModel::Image(bytes@),
            Outcome::NoImages => OutcomeModel::NoImages,
            Outcome::ImageNotFound => OutcomeModel::ImageNotFound,
            Outcome::NoImageForQuote => OutcomeModel::NoImageForQuote,
            Outcome::ImageFileNotFound => OutcomeModel::ImageFileNotFound,
            Outcome::StoreFailed => OutcomeModel::StoreFailed,
        }
    }
}

impl View for Step {
    type V = StepModel;

    open spec fn view(&self) -> StepModel {
        match self {
            Step::Ask(effect, pending) => StepModel::Ask(effect@, *pending),
            Step::Done(outcome) => StepModel::Done(outcome@),
        }
    }
}

/// The first move of each operation: the lookup it begins with.
pub open spec fn start_of(operation: Operation) -> StepModel {
    match operation {
        Operation::RandomQuote => StepModel::Ask(
            EffectModel::Query(StoreQuery::TotalCount),
            Pending::Count,
        ),
        Operation::QuoteById { id } => StepModel::Ask(
            EffectModel::Query(StoreQuery::QuoteById { id }),
            Pending::QuoteById,
        ),
        Operation::RandomImage => StepModel::Ask(
            EffectModel::Query(StoreQuery::RandomImageId),
            Pending::RandomImageId,
        ),
        Operation::ImageById { id } => StepModel::Ask(
            EffectModel::Query(StoreQuery::HasImage { id }),
            Pending::ImageFlag { id },
        ),
    }
}

/// How a found or missing quote ends an operation.
pub open spec fn quote_outcome(found: Option<QuoteModel>, missing: OutcomeModel) -> StepModel {
    match found {
        Some(quote) => StepModel::Done(OutcomeModel::Quote(quote)),
        None => StepModel::Done(missing),
    }
}

/// How a found or missing blob ends an operation.
pub open spec fn blob_outcome(found: Option<Seq<u8>>, missing: OutcomeModel) -> StepModel {
    match found {
        Some(bytes) => StepModel::Done(OutcomeModel::Image(bytes)),
        None => StepModel::Done(missing),
    }
}

/// The move that follows an answer. `draw` is the random number that picks
/// the quote when a random quote is asked for; nothing else depends on it.
///
/// A random quote is looked up by a drawn identifier between 1 and the
/// count, so where identifiers have gaps the draw can miss and the operation
/// ends with `NoQuotes` although quotes exist. A missing blob ends the
/// operation as not found, whatever the flag said. An answer that does not
/// fit the lookup ends it as a store failure.
pub open spec fn resume_of(pending: Pending, answer: AnswerModel, draw: u64) -> StepModel {
    match (pending, answer) {
        (Pending::Count, AnswerModel::Row(row)) => match random_quote_of(count_of(row), draw) {
            Some(query) => StepModel::Ask(EffectModel::Query(query), Pending::RandomQuote),
            None => StepModel::Done(OutcomeModel::NoQuotes),
        },
        (Pending::RandomQuote, AnswerModel::Quote(found)) => quote_outcome(
            found,
            OutcomeModel::NoQuotes,
        ),
        (Pending::QuoteById, AnswerModel::Quote(found)) => quote_outcome(
            found,
            OutcomeModel::QuoteNotFound,
        ),
        (Pending::RandomImageId, AnswerModel::Row(row)) => match image_id_of(row) {
            Some(id) => StepModel::Ask(
                EffectModel::Fetch { key: image_key_of(id) },
                Pending::RandomImageBlob,
            ),
            None => StepModel::Done(OutcomeModel::NoImages),
        },
        (Pending::RandomImageBlob, AnswerModel::Blob(found)) => blob_outcome(
            found,
            OutcomeModel::ImageNotFound,
        ),
        (Pending::ImageFlag { id }, AnswerModel::Row(row)) => if has_image_of(row) {
            StepModel::Ask(EffectModel::Fetch { key: image_key_of(id) }, Pending::ImageBlob)
        } else {
            StepModel::Done(OutcomeModel::NoImageForQuote)
        },
        (Pending::ImageBlob, AnswerModel::Blob(found)) => blob_outcome(
            found,
            OutcomeModel::ImageFileNotFound,
        ),
        _ => StepModel::Done(OutcomeModel::StoreFailed),
    }
}

/// Whether the move that follows depends on a draw: only the answer to the
/// count of a store that is not empty does.
pub open spec fn draws(pending: Pending, answer: AnswerModel) -> bool {
    &&& pending == Pending::Count
    &&& answer matches AnswerModel::Row(row)
    &&& count_of(row) > 0
}

/// Begins an operation.
pub fn start(operation: Operation) -> (step: Step)
    ensures
        step@ == start_of(operation),
{
    match operation {
        Operation::RandomQuote => Step::Ask(Effect::Query(StoreQuery::TotalCount), Pending::Count),
        Operation::QuoteById { id } => Step::Ask(
            Effect::Query(get_quote_by_id(id)),
            Pending::QuoteById,
        ),
        Operation::RandomImage => Step::Ask(
            Effect::Query(StoreQuery::RandomImageId),
            Pending::RandomImageId,
        ),
        Operation::ImageById { id } => Step::Ask(
            Effect::Query(StoreQuery::HasImage { id }),
            Pending::ImageFlag { id },
        ),
    }
}

/// Ends an operation with the quote that was found, or with `missing`.
fn end_with_quote(found: Option<Quote>, missing: Outcome) -> (step: Step)
    ensures
        step@ == quote_outcome(
            match found {
                Some(quote) => Some(quote@),
                None => None,
            },
            missing@,
        ),
{
    match found {
        Some(quote) => Step::Done(Outcome::Quote(quote)),
        None => Step::Done(missing),
    }
}

/// Ends an operation with the blob that was found, or with `missing`.
fn end_with_blob(found: Option<Vec<u8>>, missing: Outcome) -> (step: Step)
    ensures
        step@ == blob_outcome(
            match found {
                Some(bytes) => Some(bytes@),
                None => None,
            },
            missing@,
        ),
{
    match found {
        Some(bytes) => Step::Done(Outcome::Image(bytes)),
        None => Step::Done(missing),
    }
}

/// Continues an operation with the host's answer, for a given draw.
pub fn resume_with_draw(pending: Pending, answer: Answer, draw: u64) -> (step: Step)
    ensures
        step@ == resume_of(pending, answer@, draw),
{
    match pending {
        Pending::Count => match answer {
            Answer::Row(row) => match random_quote_for_draw(get_total_count(&row), draw) {
                Some(query) => Step::Ask(Effect::Query(query), Pending::RandomQuote),
                None => Step::Done(Outcome::NoQuotes),
            },
            _ => Step::Done(Outcome::StoreFailed),
        },
        Pending::RandomQuote => match answer {
            Answer::Quote(found) => end_with_quote(found, Outcome::NoQuotes),
            _ => Step::Done(Outcome::StoreFailed),
        },
        Pending::QuoteById => match answer {
            Answer::Quote(found) => end_with_quote(found, Outcome::QuoteNotFound),
            _ => Step::Done(Outcome::StoreFailed),
        },
        Pending::RandomImageId => match answer {
            Answer::Row(row) => match get_random_image_id(&row) {
                Some(id) => Step::Ask(Effect::Fetch { key: image_key(id) }, Pending::RandomImageBlob),
                None => Step::Done(Outcome::NoImages),
            },
            _ => Step::Done(Outcome::StoreFailed),
        },
        Pending::RandomImageBlob => match answer {
            Answer::Blob(found) => end_with_blob(found, Outcome::ImageNotFound),
            _ => Step::Done(Outcome::StoreFailed),
        },
        Pending::ImageFlag { id } => match answer {
            Answer::Row(row) => if has_image(&row) {
                Step::Ask(Effect::Fetch { key: image_key(id) }, Pending::ImageBlob)
            } else {
                Step::Done(Outcome::NoImageForQuote)
            },
            _ => Step::Done(Outcome::StoreFailed),
        },
        Pending::ImageBlob => match answer {
            Answer::Blob(found) => end_with_blob(found, Outcome::ImageFileNotFound),
            _ => Step::Done(Outcome::StoreFailed),
        },
    }
}

/// Continues an operation with the host's answer. Where the move depends on
/// a draw, a number is drawn here; the result is the move for that draw.
pub fn resume(pending: Pending, answer: Answer) -> (step: Step)
    ensures
        exists|draw: u64| step@ == #[trigger] resume_of(pending, answer@, draw),
        !draws(pending, answer@) ==> step@ == resume_of(pending, answer@, 0),
{
    match pending {
        Pending::Count => match answer {
            Answer::Row(row) => {
                let count = get_total_count(&row);
                let query = get_random_quote(count);
                proof {
                    if count > 0 {
                        let draw = choose|draw: u64| query == #[trigger] random_quote_of(count, draw);
                        assert(resume_of(pending, AnswerModel::Row(row), draw) == match query {
                            Some(q) => StepModel::Ask(EffectModel::Query(q), Pending::RandomQuote),
                            None => StepModel::Done(OutcomeModel::NoQuotes),
                        });
                    }
                }
                match query {
                    Some(query) => Step::Ask(Effect::Query(query), Pending::RandomQuote),
                    None => Step::Done(Outcome::NoQuotes),
                }
            },
            other => resume_with_draw(pending, other, 0),
        },
        _ => resume_with_draw(pending, answer, 0),
    }
}

} // verus!
