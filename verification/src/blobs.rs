//! The blob store gateway: under which key the image of a quote is stored.

use vstd::prelude::*;
use crate::text::{decimal_string, decimal_text};

verus! {

/// The key of the image of the quote `id`: the identifier in decimal,
/// followed by `.png`.
pub open spec fn image_key_of(id: i64) -> Seq<char> {
    decimal_text(id as int) + ".png"@
}

/// Derives the blob key of a quote's image from the quote's identifier.
pub fn image_key(id: i64) -> (key: String)
    ensures
        key@ == image_key_of(id),
{
    let mut key = decimal_string(id);
    key.append(".png");
    key
}

} // verus!
