//! Key ids and the text they are written in.

use vstd::prelude::*;
use crate::ledger::ApiKeyId;

verus! {

/// What `uuid::Uuid::try_parse` reads from `text`: the UUID's value as a
/// 128-bit integer, most significant byte first, or nothing where the text
/// is not that of a UUID.
pub uninterp spec fn uuid_of_text(text: Seq<char>) -> Option<u128>;

/// Reads `text` with `uuid::Uuid::try_parse` and converts what it gives
/// with `Uuid::as_u128`.
///
/// Taken on trust: that the result depends on the text alone, so that the
/// same text always reads as the same id. Which texts are accepted is left
/// to the `uuid` crate; it takes the simple, hyphenated, braced and URN
/// forms.
#[verifier::external_body]
fn uuid_from_text(text: &str) -> (id: Option<u128>)
    ensures
        id == uuid_of_text(text@),
{
    match uuid::Uuid::try_parse(text) {
        Ok(id) => Some(id.as_u128()),
        Err(_) => None,
    }
}

/// A text that was offered as a key id and is not that of a UUID.
#[derive(Debug, Clone)]
pub struct InvalidApiKeyId {
    /// The text as it was offered.
    pub text: String,
}

/// Whether `res` is what reading `text` comes to, given what the text
/// reads as: the id, or a refusal that carries the text.
pub open spec fn is_key_id_outcome(
    res: Result<ApiKeyId, InvalidApiKeyId>,
    text: Seq<char>,
    read: Option<u128>,
) -> bool {
    match read {
        Some(id) => res matches Ok(key) && key == id,
        None => res matches Err(refused) && refused.text@ == text,
    }
}

/// Turns what `text` was read as into a key id, or refuses the text.
pub fn key_id_from(text: &str, read: Option<u128>) -> (res: Result<ApiKeyId, InvalidApiKeyId>)
    ensures
        is_key_id_outcome(res, text@, read),
{
    match read {
        Some(id) => Ok(id),
        None => Err(InvalidApiKeyId { text: text.to_owned() }),
    }
}

/// Reads a key id from the text of its UUID. A text that is not that of a
/// UUID is refused, before anything is asked of a store.
pub fn parse_api_key_id(text: &str) -> (res: Result<ApiKeyId, InvalidApiKeyId>)
    ensures
        is_key_id_outcome(res, text@, uuid_of_text(text@)),
{
    key_id_from(text, uuid_from_text(text))
}

} // verus!
