//! The decisions the HTTP handlers make around their I/O.
use vstd::prelude::*;

use crate::db::url::Url;
use crate::trusted::{
    json_object1, json_object_value, json_string, json_string_value, parses_as_url, url_parses,
};
use crate::utils::response::{
    frames, generate_failure_response, generate_success_response, ApplicationResponse,
    STATUS_INTERNAL_SERVER_ERROR, STATUS_NOT_ACCEPTABLE, STATUS_NOT_FOUND, STATUS_OK,
};
use serde_json::Value;

verus! {

/// Why a request to shorten an address is turned away.
pub enum UrlParamError {
    /// The query has no `url` parameter.
    Missing,
    /// The `url` parameter does not parse as an address.
    NotAUrl(String),
}

impl UrlParamError {
    /// The text the rejection reports.
    pub open spec fn spec_message(&self) -> Seq<char> {
        match self {
            UrlParamError::Missing => "url param not provided."@,
            UrlParamError::NotAUrl(text) => "'"@ + text@ + "' does not look like url."@,
        }
    }

    /// Renders the text the rejection reports.
    pub fn message(&self) -> (text: String)
        ensures
            text@ == self.spec_message(),
            self is Missing ==> text@ == "url param not provided."@,
            self matches UrlParamError::NotAUrl(t) ==> text@ == "'"@ + t@ + "' does not look like url."@,
    {
        match self {
            UrlParamError::Missing => String::from_str("url param not provided."),
            UrlParamError::NotAUrl(text) => {
                let mut msg = String::from_str("'");
                msg.append(text.as_str());
                msg.append("' does not look like url.");
                msg
            },
        }
    }

    /// The status a rejection is answered with: 406.
    pub fn status_code(&self) -> (code: u16)
        ensures
            code == STATUS_NOT_ACCEPTABLE,
    {
        STATUS_NOT_ACCEPTABLE
    }
}

/// The payload reporting a rejection: `{"msg": <its message>}`.
pub open spec fn rejection_payload(rejection: UrlParamError) -> Value {
    json_object1("msg"@, json_string(rejection.spec_message()))
}

/// Answers a request to shorten an address that was turned away: status 406,
/// flagged an error, carrying `{"msg": <the rejection's message>}`.
pub fn reject_reply(rejection: &UrlParamError, uri: String) -> (answer: (u16, ApplicationResponse))
    ensures
        answer.0 == STATUS_NOT_ACCEPTABLE,
        frames(answer.0, answer.1, rejection_payload(*rejection), uri@, None, true),
        answer.0 == 406 && answer.1.status_code == 406 && answer.1.is_error && answer.1.url@ == uri@,
        answer.1.data == json_object1("msg"@, json_string(rejection.spec_message())),
{
    let message = rejection.message();
    let data = json_object_value("msg", json_string_value(message.as_str()));
    let status = rejection.status_code();
    generate_failure_response(data, uri, Some(status), None, Some(true))
}

/// Checks the `url` query parameter of a request to shorten an address: it
/// must be there, and it must parse as an address.
pub fn check_url_param(param: Option<String>) -> (checked: Result<String, UrlParamError>)
    ensures
        match param {
            None => checked matches Err(UrlParamError::Missing),
            Some(text) => if parses_as_url(text@) {
                checked matches Ok(url) && url@ == text@
            } else {
                checked matches Err(UrlParamError::NotAUrl(t)) && t@ == text@
            },
        },
{
    match param {
        None => Err(UrlParamError::Missing),
        Some(text) => {
            if url_parses(text.as_str()) {
                Ok(text)
            } else {
                Err(UrlParamError::NotAUrl(text))
            }
        },
    }
}

/// Where a short link redirects: to the stored address it resolved to, or
/// to the root when it resolved to nothing.
pub open spec fn spec_redirect_target(resolved: Option<Url>) -> Seq<char> {
    match resolved {
        Some(row) => row.original_url@,
        None => "/"@,
    }
}

/// Every resolved row redirects to the address stored in it, whatever its
/// id, counts, times or hash; nothing resolved redirects to the root.
pub proof fn lemma_redirect_goes_to_stored_address(row: Url)
    ensures
        spec_redirect_target(Some(row)) == row.original_url@,
        spec_redirect_target(None) == "/"@,
{
}

/// Picks where a short link redirects.
pub fn redirect_target(resolved: Option<Url>) -> (target: String)
    ensures
        target@ == spec_redirect_target(resolved),
        resolved matches Some(row) ==> target@ == row.original_url@,
        resolved is None ==> target@ == "/"@,
{
    match resolved {
        Some(row) => row.original_url,
        None => String::from_str("/"),
    }
}

/// The payload of a health answer: `{"status": <status>}`.
pub open spec fn health_payload(status: Seq<char>) -> Value {
    json_object1("status"@, json_string(status))
}

/// Answers a database health probe: a success carrying `{"status": "Ok"}`
/// when a connection could be had, else a failure with status 404 carrying
/// `{"status": "failed"}`.
pub fn db_health_reply(connected: bool, uri: String) -> (answer: (u16, ApplicationResponse))
    ensures
        connected ==> answer.0 == STATUS_OK && frames(
            answer.0,
            answer.1,
            health_payload("Ok"@),
            uri@,
            None,
            false,
        ),
        !connected ==> answer.0 == STATUS_NOT_FOUND && frames(
            answer.0,
            answer.1,
            health_payload("failed"@),
            uri@,
            None,
            true,
        ),
        answer.1.status_code == answer.0 && answer.1.url@ == uri@,
        answer.0 == (if connected { 200u16 } else { 404u16 }),
        answer.1.is_error == !connected,
        answer.1.data == json_object1(
            "status"@,
            json_string(if connected { "Ok"@ } else { "failed"@ }),
        ),
{
    if connected {
        let data = json_object_value("status", json_string_value("Ok"));
        generate_success_response(data, uri, None, None)
    } else {
        let data = json_object_value("status", json_string_value("failed"));
        generate_failure_response(data, uri, Some(STATUS_NOT_FOUND), None, None)
    }
}

/// Answers a request to shorten an address once the store was tried: a
/// success carrying `{"data": <the stored record>}` when a record was stored
/// (`created` is the record as JSON), else a failure with status 500 and the
/// `empty` payload.
pub fn shorten_reply(created: Option<Value>, empty: Value, uri: String) -> (answer: (
    u16,
    ApplicationResponse,
))
    ensures
        match created {
            Some(record) => answer.0 == STATUS_OK && frames(
                answer.0,
                answer.1,
                json_object1("data"@, record),
                uri@,
                None,
                false,
            ),
            None => answer.0 == STATUS_INTERNAL_SERVER_ERROR && frames(
                answer.0,
                answer.1,
                empty,
                uri@,
                None,
                true,
            ),
        },
        answer.1.status_code == answer.0 && answer.1.url@ == uri@,
        answer.0 == (if created is Some { 200u16 } else { 500u16 }),
        answer.1.is_error == (created is None),
        created matches Some(record) ==> answer.1.data == json_object1("data"@, record),
        created is None ==> answer.1.data == empty,
{
    match created {
        Some(record) => {
            let data = json_object_value("data", record);
            generate_success_response(data, uri, None, None)
        },
        None => generate_failure_response(empty, uri, None, None, None),
    }
}

} // verus!
