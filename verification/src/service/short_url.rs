use vstd::prelude::*;

use crate::db::url::Url;
use crate::service::long_url::{lemma_url_hash_is_murmur3, spec_url_hash, url_hash};
use crate::trusted::{
    is_safe_id_char, murmurhash3_of, nanoid_safe, utc_now_timestamp, MAX_UTC_TIMESTAMP,
};

verus! {

/// Length of a generated short identifier.
pub const SHORT_ID_LEN: usize = 6;

/// Number of taken candidates after which the search for a free short
/// identifier gives up.
pub const MAX_ID_RETRIES: u8 = 10;

/// How long a short link lives: one day, in seconds.
pub const SECONDS_PER_DAY: i64 = 86_400;

/// A well-formed generated identifier.
pub open spec fn is_short_id(id: Seq<char>) -> bool {
    &&& id.len() == SHORT_ID_LEN
    &&& forall|i: int| 0 <= i < id.len() ==> is_safe_id_char(#[trigger] id[i])
}

/// Tells whether `id` is a well-formed generated identifier: six characters
/// of the safe alphabet.
pub fn check_short_id(id: &str) -> (ok: bool)
    ensures
        ok == is_short_id(id@),
        ok <==> id@.len() == 6 && forall|i: int|
            0 <= i < 6 ==> {
                let c = #[trigger] id@[i];
                c == '_' || c == '-' || ('0' <= c && c <= '9') || ('a' <= c && c <= 'z') || ('A'
                    <= c && c <= 'Z')
            },
{
    let len = id.unicode_len();
    if len != SHORT_ID_LEN {
        return false;
    }
    let mut i: usize = 0;
    while i < len
        invariant
            len == id@.len(),
            len == SHORT_ID_LEN,
            i <= len,
            forall|k: int| 0 <= k < i ==> is_safe_id_char(#[trigger] id@[k]),
        decreases len - i,
    {
        let c = id.get_char(i);
        if !(c == '_' || c == '-' || ('0' <= c && c <= '9') || ('a' <= c && c <= 'z') || ('A' <= c
            && c <= 'Z')) {
            assert(!is_safe_id_char(id@[i as int]));
            return false;
        }
        i = i + 1;
    }
    true
}

/// The number of earlier candidates that were found taken.
pub open spec fn retries_of(retry: Option<u8>) -> u8 {
    match retry {
        Some(r) => r,
        None => 0,
    }
}

/// Whether the search gives up at this point.
pub open spec fn gives_up(retry: Option<u8>) -> bool {
    retries_of(retry) == MAX_ID_RETRIES
}

/// The next move of the search for a free short identifier.
pub enum IdAttempt {
    /// The retry limit is reached: no identifier.
    GiveUp,
    /// Look `id` up in the store; `retry` candidates were found taken before.
    Check { id: String, retry: u8 },
}

/// What the search does once the store has answered for a candidate.
pub enum IdOutcome {
    /// The candidate is free: it is the identifier.
    Accept(String),
    /// The candidate is taken: try again with this retry count.
    Retry(Option<u8>),
}

/// One step of the search for a free short identifier: draws a fresh random
/// candidate, and either asks for it to be looked up or, once the retry
/// count has reached the limit, gives up.  `None` starts the search.
pub fn next_id_attempt(retry: Option<u8>) -> (attempt: IdAttempt)
    ensures
        match attempt {
            IdAttempt::GiveUp => gives_up(retry),
            IdAttempt::Check { id, retry: r } => !gives_up(retry) && r == retries_of(retry)
                && is_short_id(id@),
        },
        attempt is GiveUp <==> (retry == Some(10u8)),
        attempt matches IdAttempt::Check { id, retry: r } ==> {
            &&& id@.len() == 6
            &&& (retry is None ==> r == 0)
            &&& (retry matches Some(x) ==> r == x)
        },
{
    let id = nanoid_safe(SHORT_ID_LEN);
    let retry = retry.unwrap_or(0);
    if retry == MAX_ID_RETRIES {
        IdAttempt::GiveUp
    } else {
        IdAttempt::Check { id, retry }
    }
}

/// The retry count after one more candidate was found taken.
pub open spec fn next_retry(retry: u8) -> Option<u8> {
    Some((retry + 1) as u8)
}

/// Takes the store's answer for a candidate: a free candidate is accepted, a
/// taken one sends the search round again with one more retry counted.
pub fn on_id_lookup(id: String, retry: u8, taken: bool) -> (outcome: IdOutcome)
    requires
        retry < u8::MAX,
    ensures
        match outcome {
            IdOutcome::Accept(accepted) => !taken && accepted@ == id@,
            IdOutcome::Retry(next) => taken && next == next_retry(retry),
        },
        taken ==> outcome == IdOutcome::Retry(Some((retry + 1) as u8)),
        outcome is Accept <==> !taken,
{
    if taken {
        IdOutcome::Retry(Some(retry + 1))
    } else {
        IdOutcome::Accept(id)
    }
}

/// The search's retry count after `k` candidates in a row were found taken,
/// starting afresh.
pub open spec fn retry_after_taken(k: nat) -> Option<u8>
    decreases k,
{
    if k == 0 {
        None
    } else {
        next_retry(retries_of(retry_after_taken((k - 1) as nat)))
    }
}

/// The retry limit: started afresh, the search counts every taken candidate,
/// keeps asking for lookups while fewer than ten were taken, and gives up once
/// ten were; so it asks the store at most ten times.
pub proof fn lemma_search_gives_up_at_limit(k: nat)
    requires
        k <= MAX_ID_RETRIES,
    ensures
        retries_of(retry_after_taken(k)) == k,
        gives_up(retry_after_taken(k)) <==> k == MAX_ID_RETRIES,
    decreases k,
{
    if k > 0 {
        lemma_search_gives_up_at_limit((k - 1) as nat);
    }
}

/// A fresh record for `original` under short identifier `short`, made at
/// UNIX time `now`: not yet stored (id 0), under a well-formed generated
/// identifier, never followed, expiring a day later, and keyed by the hash of
/// the short identifier.
pub open spec fn is_new_record(record: Url, original: Seq<char>, short: Seq<char>, now: int) -> bool {
    &&& record.id == 0
    &&& record.original_url@ == original
    &&& record.short_url@ == short
    &&& is_short_id(short)
    &&& record.created_on == now
    &&& record.expiries_at == now + SECONDS_PER_DAY
    &&& record.redirection_count == 0
    &&& record.hash == spec_url_hash(short)
}

/// Whether some row of the store is kept under short identifier `short`.
pub open spec fn is_taken(rows: Seq<Url>, short: Seq<char>) -> bool {
    exists|i: int| 0 <= i < rows.len() && #[trigger] rows[i].short_url@ == short
}

/// The store's invariant: no two rows share a short identifier, and every
/// row is keyed by the hash of its short identifier.
pub open spec fn store_inv(rows: Seq<Url>) -> bool {
    &&& forall|i: int, j: int|
        0 <= i < j < rows.len() ==> #[trigger] rows[i].short_url@ != #[trigger] rows[j].short_url@
    &&& forall|i: int| 0 <= i < rows.len() ==> #[trigger] rows[i].hash == spec_url_hash(rows[i].short_url@)
}

/// Whether `stored` is `record` as the store keeps it: every field is the
/// record's but the id, which the store assigns.
pub open spec fn stored_as(stored: Url, record: Url) -> bool {
    &&& stored.original_url@ == record.original_url@
    &&& stored.short_url@ == record.short_url@
    &&& stored.created_on == record.created_on
    &&& stored.expiries_at == record.expiries_at
    &&& stored.redirection_count == record.redirection_count
    &&& stored.hash == record.hash
}

/// Storing a new short link keeps the store sound: when the store holds no
/// row under the accepted identifier, appending the record made for it keeps
/// identifiers unique and every row keyed by the hash of its identifier, and
/// the new row is the only one under that identifier.
pub proof fn lemma_store_keeps_invariant(
    rows: Seq<Url>,
    record: Url,
    stored: Url,
    original: Seq<char>,
    short: Seq<char>,
    now: int,
)
    requires
        store_inv(rows),
        !is_taken(rows, short),
        is_new_record(record, original, short, now),
        stored_as(stored, record),
    ensures
        store_inv(rows.push(stored)),
        forall|i: int|
            0 <= i < rows.len() + 1 && #[trigger] rows.push(stored)[i].short_url@ == short ==> i
                == rows.len(),
{
    let after = rows.push(stored);
    assert forall|i: int, j: int| 0 <= i < j < after.len() implies #[trigger] after[i].short_url@
        != #[trigger] after[j].short_url@ by {
        if j == rows.len() {
            assert(rows[i].short_url@ == after[i].short_url@);
            if rows[i].short_url@ == short {
                assert(is_taken(rows, short));
            }
        }
    }
    assert forall|i: int| 0 <= i < after.len() && #[trigger] after[i].short_url@ == short implies i
        == rows.len() by {
        if i < rows.len() {
            assert(rows[i].short_url@ == short);
            assert(is_taken(rows, short));
        }
    }
    assert forall|i: int| 0 <= i < after.len() implies #[trigger] after[i].hash == spec_url_hash(
        after[i].short_url@,
    ) by {
        if i < rows.len() {
            assert(after[i] == rows[i]);
        }
    }
}

/// Builds the record that stores `url` under `random_id`, made at `now`.
/// A record cannot expire past the last second a UTC time can hold.
pub fn build_short_url(url: String, random_id: String, now: i64) -> (record: Url)
    requires
        is_short_id(random_id@),
        now <= MAX_UTC_TIMESTAMP - SECONDS_PER_DAY,
    ensures
        is_new_record(record, url@, random_id@, now as int),
        record.id == 0,
        record.original_url@ == url@,
        record.short_url@ == random_id@,
        record.created_on == now,
        record.expiries_at == now + 86_400,
        record.redirection_count == 0,
        record.hash == murmurhash3_of(vstd::utf8::encode_utf8(random_id@)) as i64,
{
    let hash = url_hash(random_id.as_str());
    Url {
        original_url: url,
        short_url: random_id,
        created_on: now,
        expiries_at: now + SECONDS_PER_DAY,
        redirection_count: 0,
        id: 0,
        hash,
    }
}

/// What building a record stamped at `now` gives: the new record made at
/// `now` when an expiry a day later can still be stamped, else nothing.
pub open spec fn short_url_outcome(
    original: Seq<char>,
    short: Seq<char>,
    now: i64,
    record: Option<Url>,
) -> bool {
    &&& (record is Some <==> now <= MAX_UTC_TIMESTAMP - SECONDS_PER_DAY)
    &&& (record matches Some(r) ==> is_new_record(r, original, short, now as int))
}

/// Builds the record that stores `url` under `random_id`, stamped at the
/// clock reading `now`: `None` exactly when `now` lies within a day of the
/// last second a UTC time can hold, where no expiry can be stamped.
pub fn short_url_at(url: String, random_id: String, now: i64) -> (record: Option<Url>)
    requires
        is_short_id(random_id@),
    ensures
        short_url_outcome(url@, random_id@, now, record),
{
    if now <= MAX_UTC_TIMESTAMP - SECONDS_PER_DAY {
        Some(build_short_url(url, random_id, now))
    } else {
        None
    }
}

/// Builds the record that stores `url` under `random_id`, stamped with the
/// current time: what `short_url_at` gives for the clock's reading.  It always
/// gives a record.  A reading within the last day a UTC time can hold (where
/// a day later is no longer a UTC time) is stamped as that day's start.
pub fn short_url(url: String, random_id: String) -> (record: Option<Url>)
    requires
        is_short_id(random_id@),
    ensures
        exists|now: i64|
            0 <= now <= MAX_UTC_TIMESTAMP && #[trigger] short_url_outcome(
                url@,
                random_id@,
                now,
                record,
            ),
        record matches Some(r) && {
            &&& r.id == 0
            &&& r.original_url@ == url@
            &&& r.short_url@ == random_id@
            &&& 0 <= r.created_on <= MAX_UTC_TIMESTAMP - 86_400
            &&& r.expiries_at == r.created_on + 86_400
            &&& r.redirection_count == 0
            &&& r.hash == murmurhash3_of(vstd::utf8::encode_utf8(random_id@)) as i64
        },
{
    let ghost original = url@;
    let ghost short = random_id@;
    let reading = utc_now_timestamp();
    let now = if reading <= MAX_UTC_TIMESTAMP - SECONDS_PER_DAY {
        reading
    } else {
        MAX_UTC_TIMESTAMP - SECONDS_PER_DAY
    };
    let record = short_url_at(url, random_id, now);
    assert(short_url_outcome(original, short, now, record));
    proof {
        lemma_short_url_outcome_fields(original, short, now, record);
    }
    record
}

/// What a record stamped at a clock reading is, field by field: for every
/// address, well-formed identifier and reading `now` no later than a day
/// before the last second a UTC time can hold, there is a record, and it is
/// unsaved, holds the address and the identifier, was made at `now`, expires
/// exactly a day later, was never followed, and is keyed by the MurmurHash3 of
/// the identifier's UTF-8 bytes; at any later reading there is none.
pub proof fn lemma_short_url_outcome_fields(
    original: Seq<char>,
    short: Seq<char>,
    now: i64,
    record: Option<Url>,
)
    requires
        short_url_outcome(original, short, now, record),
    ensures
        now <= MAX_UTC_TIMESTAMP - 86_400 ==> (record matches Some(r) && {
            &&& r.id == 0
            &&& r.original_url@ == original
            &&& r.short_url@ == short
            &&& r.created_on == now
            &&& r.expiries_at == now + 86_400
            &&& r.redirection_count == 0
            &&& r.hash == murmurhash3_of(vstd::utf8::encode_utf8(short)) as i64
        }),
        now > MAX_UTC_TIMESTAMP - 86_400 ==> record is None,
{
    if let Some(r) = record {
        lemma_url_hash_is_murmur3(short);
    }
}

} // verus!
