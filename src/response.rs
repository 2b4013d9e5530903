//! The response envelope: a decoded payload together with the status line and
//! the headers of the response that carried it.
use vstd::prelude::*;
use reqwest::header::HeaderMap;
use crate::error::Error;

verus! {

/// A map of response headers, carried through unchanged.
#[verifier::external_type_specification]
#[verifier::external_body]
#[verifier::reject_recursive_types(T)]
pub struct ExHeaderMap<T>(reqwest::header::HeaderMap<T>);

/// The value of one response header, carried inside a header map.
#[verifier::external_type_specification]
#[verifier::external_body]
pub struct ExHeaderValue(reqwest::header::HeaderValue);

/// Relies on the derived `Clone` of http's `HeaderMap`, which copies the map;
/// it is what cloning an envelope or an error calls.
pub assume_specification<T>[ <reqwest::header::HeaderMap<T> as Clone>::clone ](
    m: &reqwest::header::HeaderMap<T>,
) -> reqwest::header::HeaderMap<T>
    where
        T: Clone,
;

/// Response struct for API response.
#[derive(Debug, Clone)]
pub struct Response<T> {
    /// Parsed json object.
    pub json: T,
    /// Status code of the response.
    pub status: u16,
    /// Status text of the response.
    pub status_text: String,
    /// Headers of the response.
    pub header: HeaderMap,
}

impl<T> Response<T> {
    /// Creates an envelope around a payload that is already known.
    pub fn new(json: T, status: u16, status_text: String, header: HeaderMap) -> (r: Response<T>)
        ensures
            r.json == json,
            r.status == status,
            r.status_text == status_text,
            r.header == header,
    {
        Response { json, status, status_text, header }
    }

    /// Builds the envelope of a transport response whose status line and
    /// headers were taken before its body was decoded. `body` is the outcome of
    /// decoding; on failure the error keeps the status line and the headers.
    pub fn from_transport(
        status: u16,
        status_text: String,
        header: HeaderMap,
        body: Result<T, String>,
    ) -> (r: Result<Response<T>, Error>)
        ensures
            body matches Ok(v) ==> r == Ok::<Response<T>, Error>(
                Response { json: v, status, status_text, header },
            ),
            body matches Err(m) ==> r == Err::<Response<T>, Error>(
                Error::Decode { status, status_text, header, message: m },
            ),
    {
        match body {
            Ok(v) => Ok(Response::new(v, status, status_text, header)),
            Err(m) => Err(Error::Decode { status, status_text, header, message: m }),
        }
    }

    /// Whether the status code is in the success range 200 to 299.
    pub fn is_success(&self) -> (r: bool)
        ensures
            r == (200 <= self.status && self.status <= 299),
    {
        200 <= self.status && self.status <= 299
    }

    /// Get json object.
    pub fn json(&self) -> (r: T)
        where
            T: Clone,
        ensures
            cloned(self.json, r),
    {
        self.json.clone()
    }
}

} // verus!
