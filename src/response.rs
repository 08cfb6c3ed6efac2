use vstd::prelude::*;

use crate::error::RequestError;
use crate::json::{parse_json, parsed_json, FromJson};
use crate::rate_limit::{
    ascii_bytes, counter_value, header_value, rate_limits, X_RATE_LIMIT_REMAINING,
    X_RATE_LIMIT_REQUESTS_LIMIT,
};

verus! {

/// A reply of the service: its raw body, the rate-limit counters sent with
/// it, and the body decoded as a `T`.
pub struct Response<T> {
    pub result: Result<T, RequestError>,
    pub response_json: String,
    pub rate_limit_remaining: usize,
    pub rate_limit_requests_limit: usize,
}

/// The record that a body describes: `None` where the body is not JSON or
/// does not have the shape of a `T`.
pub open spec fn decoded<T: FromJson>(body: Seq<char>) -> Option<T::V> {
    match parsed_json(body) {
        Some(j) => T::from_json_spec(j),
        None => None,
    }
}

/// Whether `r` is what decoding `body` as a `T` gives: the record where the
/// body describes one, the parse error otherwise.
pub open spec fn decodes_as<T: FromJson>(body: Seq<char>, r: Result<T, RequestError>) -> bool {
    match r {
        Ok(x) => decoded::<T>(body) == Some(x@),
        Err(e) => e == RequestError::ResultParseError && decoded::<T>(body) is None,
    }
}

/// The view of a decoding result.
pub open spec fn result_view<T: View>(r: Result<T, RequestError>) -> Result<T::V, RequestError> {
    match r {
        Ok(x) => Ok(x@),
        Err(e) => Err(e),
    }
}

/// Decodes a JSON body as a `T`.
pub fn try_parse<T: FromJson>(word_json: &str) -> (r: Result<T, RequestError>)
    ensures
        decodes_as(word_json@, r),
{
    match parse_json(word_json) {
        Some(j) => match T::from_json(&j) {
            Some(x) => Ok(x),
            None => Err(RequestError::ResultParseError),
        },
        None => Err(RequestError::ResultParseError),
    }
}

/// Whether an HTTP status reports success (2xx).
pub open spec fn is_success(status: u16) -> bool {
    200 <= status <= 299
}

impl<T: FromJson> Response<T> {
    /// A response for a raw body and the two counters; the body is decoded
    /// at once and also kept as it came.
    pub fn new(raw_json: String, allowed: usize, remaining: usize) -> (r: Response<T>)
        ensures
            r.response_json@ == raw_json@,
            r.rate_limit_remaining == remaining,
            r.rate_limit_requests_limit == allowed,
            decodes_as(raw_json@, r.result),
    {
        let result = try_parse::<T>(raw_json.as_str());
        Response {
            result,
            response_json: raw_json,
            rate_limit_remaining: remaining,
            rate_limit_requests_limit: allowed,
        }
    }

    /// The response for a reply with the given status, headers (pairs of
    /// name and value) and body. A status other than 2xx is a request error;
    /// otherwise the counters are read from the headers and the body is
    /// decoded.
    pub fn from_reply(status: u16, headers: &Vec<(Vec<u8>, Vec<u8>)>, body: String) -> (r: Result<
        Response<T>,
        RequestError,
    >)
        ensures
            match r {
                Err(e) => !is_success(status) && e == RequestError::RequestError,
                Ok(resp) => {
                    &&& is_success(status)
                    &&& resp.response_json@ == body@
                    &&& resp.rate_limit_remaining == counter_value(
                        header_value(headers@, ascii_bytes(X_RATE_LIMIT_REMAINING@)),
                    )
                    &&& resp.rate_limit_requests_limit == counter_value(
                        header_value(headers@, ascii_bytes(X_RATE_LIMIT_REQUESTS_LIMIT@)),
                    )
                    &&& decodes_as(body@, resp.result)
                },
            },
    {
        if status < 200 || status > 299 {
            return Err(RequestError::RequestError);
        }
        let (remaining, allowed) = rate_limits(headers);
        Ok(Response::new(body, allowed, remaining))
    }

    /// Decodes the kept body again.
    pub fn try_parse(&self) -> (r: Result<T, RequestError>)
        ensures
            decodes_as(self.response_json@, r),
    {
        try_parse::<T>(self.response_json.as_str())
    }
}

/// Decoding is repeatable: two decodings of one body give equal results,
/// both the same record or both the parse error.
pub proof fn lemma_decode_idempotent<T: FromJson>(
    body: Seq<char>,
    first: Result<T, RequestError>,
    second: Result<T, RequestError>,
)
    requires
        decodes_as(body, first),
        decodes_as(body, second),
    ensures
        result_view(first) == result_view(second),
{
}

} // verus!
