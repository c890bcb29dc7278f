//! The quote entity and the payloads that are sent to clients.

use vstd::prelude::*;

verus! {

/// A stored quote, as the record store holds it.
#[derive(Debug, Clone, PartialEq, Eq)]
pub struct Quote {
    pub id: i64,
    pub quote: String,
    pub source_url: String,
    pub has_image: bool,
}

/// What a client sees of a quote: the identifier, the text and its source.
/// An image is never part of it; clients fetch it by identifier.
#[derive(Debug, Clone, PartialEq, Eq)]
pub struct QuoteResponse {
    pub id: i64,
    pub quote: String,
    pub source_url: String,
}

/// The payload of every error reply.
#[derive(Debug, Clone, PartialEq, Eq)]
pub struct ErrorResponse {
    pub error: String,
}

/// What a JSON response carries.
#[derive(Debug, Clone, PartialEq, Eq)]
pub enum Payload {
    Quote(QuoteResponse),
    Error(ErrorResponse),
}

/// Mathematical value of a [`Quote`].
pub struct QuoteModel {
    pub id: int,
    pub quote: Seq<char>,
    pub source_url: Seq<char>,
    pub has_image: bool,
}

/// Mathematical value of a [`QuoteResponse`].
pub struct QuoteResponseModel {
    pub id: int,
    pub quote: Seq<char>,
    pub source_url: Seq<char>,
}

/// Mathematical value of an [`ErrorResponse`].
pub struct ErrorResponseModel {
    pub error: Seq<char>,
}

/// Mathematical value of a [`Payload`].
pub enum PayloadModel {
    Quote(QuoteResponseModel),
    Error(ErrorResponseModel),
}

impl View for Quote {
    type V = QuoteModel;

    open spec fn view(&self) -> QuoteModel {
        QuoteModel {
            id: self.id as int,
            quote: self.quote@,
            source_url: self.source_url@,
            has_image: self.has_image,
        }
    }
}

impl View for QuoteResponse {
    type V = QuoteResponseModel;

    open spec fn view(&self) -> QuoteResponseModel {
        QuoteResponseModel { id: self.id as int, quote: self.quote@, source_url: self.source_url@ }
    }
}

impl View for ErrorResponse {
    type V = ErrorResponseModel;

    open spec fn view(&self) -> ErrorResponseModel {
        ErrorResponseModel { error: self.error@ }
    }
}

impl View for Payload {
    type V = PayloadModel;

    open spec fn view(&self) -> PayloadModel {
        match self {
            Payload::Quote(response) => PayloadModel::Quote(response@),
            Payload::Error(response) => PayloadModel::Error(response@),
        }
    }
}

impl QuoteModel {
    /// The client-facing part of a quote: everything but the image flag.
    pub open spec fn to_response(self) -> QuoteResponseModel {
        QuoteResponseModel { id: self.id, quote: self.quote, source_url: self.source_url }
    }
}

impl Quote {
    /// Shapes the quote for a client. The identifier, text and source are
    /// copied unchanged; the image flag is left out.
    pub fn to_response(&self) -> (response: QuoteResponse)
        ensures
            response@ == self@.to_response(),
    {
        QuoteResponse {
            id: self.id,
            quote: self.quote.clone(),
            source_url: self.source_url.clone(),
        }
    }
}

} // verus!
