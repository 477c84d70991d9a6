//! The beacon API's head-slot query: where it goes and how its slot reads.
use crate::bindings::{join_url, url_join_of, url_joins};
use crate::error::PreconfError;
use crate::text::{decimal_text, format_u64, parse_u64, parses_as_u64, u64_of_text};
use vstd::prelude::*;

verus! {

/// The head-header endpoint, joined onto the beacon node's URL.
pub const HEAD_HEADER_PATH: &'static str = "eth/v1/beacon/headers/head";

/// The URL with a `/` at its end, so that a relative path joined onto it goes
/// under the URL's own path instead of replacing its last segment.
pub open spec fn with_trailing_slash(url: Seq<char>) -> Seq<char> {
    if url.len() > 0 && url.last() == '/' {
        url
    } else {
        url + "/"@
    }
}

/// The URL of the head-header query for the beacon node at `base_url`:
/// `<base_url>/eth/v1/beacon/headers/head`, under the base URL's path.
pub fn head_slot_url(base_url: &str) -> (r: Result<String, PreconfError>)
    ensures
        r is Ok <==> url_joins(with_trailing_slash(base_url@), HEAD_HEADER_PATH@),
        r matches Ok(u) ==> u@ == url_join_of(with_trailing_slash(base_url@), HEAD_HEADER_PATH@),
        r matches Err(e) ==> e == PreconfError::InvalidUrl,
{
    let len = base_url.unicode_len();
    let mut base = String::from_str(base_url);
    if !(len > 0 && base_url.get_char(len - 1) == '/') {
        base.append("/");
    }
    assert(base@ == with_trailing_slash(base_url@));
    match join_url(base.as_str(), HEAD_HEADER_PATH) {
        Some(u) => Ok(u),
        None => Err(PreconfError::InvalidUrl),
    }
}

/// The text in which the beacon API quotes a slot: its decimal digits.
pub fn serialize(slot: u64) -> (r: String)
    ensures
        r@ == decimal_text(slot as nat),
{
    format_u64(slot)
}

/// Reads a slot that the beacon API quoted as decimal text.
pub fn deserialize(text: &str) -> (r: Result<u64, PreconfError>)
    ensures
        r is Ok <==> parses_as_u64(text@),
        r matches Ok(v) ==> v as nat == u64_of_text(text@),
        r matches Err(e) ==> e == PreconfError::Decode,
{
    match parse_u64(text) {
        Some(v) => Ok(v),
        None => Err(PreconfError::Decode),
    }
}

} // verus!
