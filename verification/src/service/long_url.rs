use vstd::prelude::*;

use crate::db::url::Url;
use crate::routes::spec_redirect_target;
use crate::service::short_url::is_new_record;
use crate::trusted::{murmurhash3, murmurhash3_of};

verus! {

/// The lookup key of a short identifier: the MurmurHash3 of its UTF-8 bytes,
/// widened to the `i64` the store keeps.
pub open spec fn spec_url_hash(text: Seq<char>) -> i64 {
    murmurhash3_of(vstd::utf8::encode_utf8(text)) as i64
}

/// Computes the lookup key of a short identifier.
pub fn url_hash(text: &str) -> (hash: i64)
    ensures
        hash == spec_url_hash(text@),
        hash == murmurhash3_of(vstd::utf8::encode_utf8(text@)) as i64,
        0 <= hash <= u32::MAX,
{
    let h = murmurhash3(text.as_bytes());
    h as i64
}

/// The lookup key of every text is the MurmurHash3 of its UTF-8 bytes, as a
/// non-negative `i64`.
pub proof fn lemma_url_hash_is_murmur3(text: Seq<char>)
    ensures
        spec_url_hash(text) == murmurhash3_of(vstd::utf8::encode_utf8(text)) as i64,
        0 <= spec_url_hash(text) <= u32::MAX,
{
}

/// What a lookup by hash resolves to for a short identifier: the row found,
/// but only when its short identifier is exactly the one asked for (a hash
/// can be shared by several identifiers).
pub open spec fn spec_long_url(url: Seq<char>, found: Option<Url>) -> Option<Url> {
    match found {
        Some(row) => if row.short_url@ == url {
            Some(row)
        } else {
            None
        },
        None => None,
    }
}

/// Resolves a short identifier, given the row its hash was looked up to
/// (`None` when the lookup found nothing or failed).
pub fn long_url(url: String, found: Option<Url>) -> (resolved: Option<Url>)
    ensures
        resolved == spec_long_url(url@, found),
        found matches Some(row) && row.short_url@ == url@ ==> resolved == found,
        resolved matches Some(row) ==> found == Some(row) && row.short_url@ == url@,
        found is None ==> resolved is None,
{
    match found {
        Some(row) => {
            if row.short_url == url {
                Some(row)
            } else {
                None
            }
        },
        None => None,
    }
}

/// Resolution answers only with a row stored under exactly the identifier
/// asked for, and with nothing when the row found is another's.
pub proof fn lemma_resolves_only_exact_match(url: Seq<char>, found: Option<Url>)
    ensures
        spec_long_url(url, found) matches Some(row) ==> found == Some(row) && row.short_url@ == url,
        spec_long_url(url, found) is None <==> (found is None || found.unwrap().short_url@ != url),
{
}

/// What is shortened can be followed back: the record made for an address
/// under a short identifier is stored under that identifier's lookup key,
/// resolves to itself when asked for by that identifier, and redirects to
/// the address it was made for.
pub proof fn lemma_shorten_then_resolve(record: Url, original: Seq<char>, short: Seq<char>, now: int)
    requires
        is_new_record(record, original, short, now),
    ensures
        record.hash == spec_url_hash(short),
        spec_long_url(short, Some(record)) == Some(record),
        spec_redirect_target(spec_long_url(short, Some(record))) == original,
{
}

} // verus!
