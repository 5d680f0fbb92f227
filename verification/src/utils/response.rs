use vstd::prelude::*;

use crate::trusted::{json_string, json_string_value, utc_now_naive};
use chrono::NaiveDateTime;
use serde_json::Value;

verus! {

/// HTTP 200 OK.
pub const STATUS_OK: u16 = 200;

/// HTTP 404 Not Found.
pub const STATUS_NOT_FOUND: u16 = 404;

/// HTTP 406 Not Acceptable.
pub const STATUS_NOT_ACCEPTABLE: u16 = 406;

/// HTTP 500 Internal Server Error.
pub const STATUS_INTERNAL_SERVER_ERROR: u16 = 500;

/// The body every answer of the service carries: the path asked for, when
/// the answer was made, whether it reports an error, its payload, and the
/// HTTP status it is sent with.
pub struct ApplicationResponse {
    pub url: String,
    pub time: NaiveDateTime,
    pub is_error: bool,
    pub data: Value,
    pub status_code: u16,
}

impl ApplicationResponse {
    /// The body sent when an answer could not be rendered, stamped at `now`:
    /// path `/`, status 500, an error, and the JSON string `"{}"` as payload.
    pub fn default_at(now: NaiveDateTime) -> (response: Self)
        ensures
            response.url@ == "/"@,
            response.status_code == STATUS_INTERNAL_SERVER_ERROR,
            response.is_error,
            response.data == json_string("{}"@),
            response.time == now,
    {
        ApplicationResponse {
            url: String::from_str("/"),
            status_code: STATUS_INTERNAL_SERVER_ERROR,
            is_error: true,
            data: json_string_value("{}"),
            time: now,
        }
    }

    /// The body sent when an answer could not be rendered, stamped with the
    /// current time: `default_at` of the clock's reading.
    pub fn default() -> (response: Self)
        ensures
            response.url@ == "/"@,
            response.status_code == STATUS_INTERNAL_SERVER_ERROR,
            response.is_error,
            response.data == json_string("{}"@),
    {
        Self::default_at(utc_now_naive())
    }
}

/// An HTTP status code: three digits, as `StatusCode` holds them.
pub open spec fn is_status_code(code: u16) -> bool {
    100 <= code <= 999
}

/// A status that is either not given or an HTTP status code.
pub open spec fn valid_status(status: Option<u16>) -> bool {
    status matches Some(code) ==> is_status_code(code)
}

/// The status an answer goes out with: the one asked for, else the default.
pub open spec fn status_or(status: Option<u16>, default: u16) -> u16 {
    match status {
        Some(code) => code,
        None => default,
    }
}

/// The time an answer is stamped with: the one given, else `now`.
pub open spec fn time_or(time: Option<NaiveDateTime>, now: NaiveDateTime) -> NaiveDateTime {
    match time {
        Some(t) => t,
        None => now,
    }
}

/// Whether `response`, sent with `status`, carries `data` for `url`, with
/// the given error flag and, where one was given, the given time.
pub open spec fn frames(
    status: u16,
    response: ApplicationResponse,
    data: Value,
    url: Seq<char>,
    time: Option<NaiveDateTime>,
    is_error: bool,
) -> bool {
    &&& response.status_code == status
    &&& response.url@ == url
    &&& response.data == data
    &&& response.is_error == is_error
    &&& (time matches Some(t) ==> response.time == t)
}

/// Frames a successful answer at clock reading `now`: status 200 unless
/// another is given, not an error, stamped with `time` or else `now`.
pub fn generate_success_response_at(
    data: Value,
    url: String,
    status: Option<u16>,
    time: Option<NaiveDateTime>,
    now: NaiveDateTime,
) -> (answer: (u16, ApplicationResponse))
    requires
        valid_status(status),
    ensures
        answer.0 == status_or(status, STATUS_OK),
        frames(answer.0, answer.1, data, url@, time, false),
        answer.1.time == time_or(time, now),
        status is None ==> answer.0 == 200,
        status matches Some(code) ==> answer.0 == code,
        answer.1.status_code == answer.0,
        answer.1.url@ == url@,
        answer.1.data == data,
        !answer.1.is_error,
        time is None ==> answer.1.time == now,
        time matches Some(t) ==> answer.1.time == t,
{
    let status_code = match status {
        Some(code) => code,
        None => STATUS_OK,
    };
    let time = match time {
        Some(t) => t,
        None => now,
    };
    (status_code, ApplicationResponse { url, time, data, status_code, is_error: false })
}

/// Frames a successful answer: `generate_success_response_at` with the
/// clock's current reading.
pub fn generate_success_response(
    data: Value,
    url: String,
    status: Option<u16>,
    time: Option<NaiveDateTime>,
) -> (answer: (u16, ApplicationResponse))
    requires
        valid_status(status),
    ensures
        answer.0 == status_or(status, STATUS_OK),
        frames(answer.0, answer.1, data, url@, time, false),
        status is None ==> answer.0 == 200,
        status matches Some(code) ==> answer.0 == code,
        answer.1.status_code == answer.0,
        answer.1.url@ == url@,
        answer.1.data == data,
        !answer.1.is_error,
        time matches Some(t) ==> answer.1.time == t,
{
    generate_success_response_at(data, url, status, time, utc_now_naive())
}

/// The error flag of a failed answer: the one given, else `true`.
pub open spec fn error_flag_or_true(is_error: Option<bool>) -> bool {
    match is_error {
        Some(flag) => flag,
        None => true,
    }
}

/// Frames a failed answer at clock reading `now`: status 500 unless another
/// is given, an error unless `is_error` says otherwise, stamped with `time`
/// or else `now`.
pub fn generate_failure_response_at(
    data: Value,
    url: String,
    status: Option<u16>,
    time: Option<NaiveDateTime>,
    is_error: Option<bool>,
    now: NaiveDateTime,
) -> (answer: (u16, ApplicationResponse))
    requires
        valid_status(status),
    ensures
        answer.0 == status_or(status, STATUS_INTERNAL_SERVER_ERROR),
        frames(answer.0, answer.1, data, url@, time, error_flag_or_true(is_error)),
        answer.1.time == time_or(time, now),
        status is None ==> answer.0 == 500,
        status matches Some(code) ==> answer.0 == code,
        answer.1.status_code == answer.0,
        answer.1.url@ == url@,
        answer.1.data == data,
        is_error is None ==> answer.1.is_error,
        is_error matches Some(flag) ==> answer.1.is_error == flag,
        time is None ==> answer.1.time == now,
        time matches Some(t) ==> answer.1.time == t,
{
    let status_code = match status {
        Some(code) => code,
        None => STATUS_INTERNAL_SERVER_ERROR,
    };
    let time = match time {
        Some(t) => t,
        None => now,
    };
    let is_error = match is_error {
        Some(flag) => flag,
        None => true,
    };
    (status_code, ApplicationResponse { url, time, data, status_code, is_error })
}

/// Frames a failed answer: `generate_failure_response_at` with the clock's
/// current reading.
pub fn generate_failure_response(
    data: Value,
    url: String,
    status: Option<u16>,
    time: Option<NaiveDateTime>,
    is_error: Option<bool>,
) -> (answer: (u16, ApplicationResponse))
    requires
        valid_status(status),
    ensures
        answer.0 == status_or(status, STATUS_INTERNAL_SERVER_ERROR),
        frames(answer.0, answer.1, data, url@, time, error_flag_or_true(is_error)),
        status is None ==> answer.0 == 500,
        status matches Some(code) ==> answer.0 == code,
        answer.1.status_code == answer.0,
        answer.1.url@ == url@,
        answer.1.data == data,
        is_error is None ==> answer.1.is_error,
        is_error matches Some(flag) ==> answer.1.is_error == flag,
        time matches Some(t) ==> answer.1.time == t,
{
    generate_failure_response_at(data, url, status, time, is_error, utc_now_naive())
}

} // verus!
