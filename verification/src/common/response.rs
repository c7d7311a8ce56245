//! Payloads of API responses.

use vstd::prelude::*;
use vstd::string::*;

use crate::ids::{EntityId, uuid_hyphenated, uuid_hyphenated_string};
use crate::text::{decimal, int_to_decimal};

verus! {

/// When a response was made (microseconds since the Unix epoch) and, for a
/// page of a list, which page it is.
#[derive(Debug)]
pub struct MetadataType<P> {
    pub timestamp: i64,
    pub pagination: Option<P>,
}

impl<P> MetadataType<P> {
    /// The metadata of a response made at `timestamp` (microseconds since the
    /// Unix epoch).
    pub fn new(timestamp: i64, pagination: Option<P>) -> (m: MetadataType<P>)
        ensures
            m.timestamp == timestamp,
            m.pagination == pagination,
    {
        MetadataType { timestamp, pagination }
    }
}

/// A successful response: the API's version, the data, and metadata.
#[derive(Debug)]
pub struct ResponseType<T, P> {
    pub api_version: String,
    pub data: Option<T>,
    pub error: Option<String>,
    pub meta: MetadataType<P>,
}

impl<T, P> ResponseType<T, P> {
    /// The response carrying `data`, made by version `api_version` of the API,
    /// with `meta` or, when none is given, the metadata of a response made at
    /// `now` (microseconds since the Unix epoch) that is no page of a list.
    pub fn new(data: T, meta: Option<MetadataType<P>>, api_version: String, now: i64) -> (r: ResponseType<T, P>)
        ensures
            r.api_version == api_version,
            r.data == Some(data),
            r.error is None,
            meta matches Some(m) ==> r.meta == m,
            meta is None ==> r.meta.timestamp == now && r.meta.pagination is None,
    {
        let meta = match meta {
            Some(m) => m,
            None => MetadataType::new(now, None),
        };
        ResponseType { api_version, data: Some(data), error: None, meta }
    }
}

/// The payload of a response that carries no data.
#[derive(Debug, Clone, Copy, PartialEq, Eq)]
pub struct EmptyResponseData;

/// An error as the API reports it.
#[derive(Debug, PartialEq, Eq)]
pub struct ErrorType {
    pub id: EntityId,
    pub code: i64,
    pub error_type: String,
    pub detail: String,
    pub source: String,
}

impl ErrorType {
    /// How an error is written: its fields by name, in braces.
    pub open spec fn text(self) -> Seq<char> {
        "{ id: "@ + uuid_hyphenated(self.id) + ", code: "@ + decimal(self.code as int)
            + ", error_type: "@ + self.error_type@ + ", detail: "@ + self.detail@ + ", source: "@
            + self.source@ + " }"@
    }

    /// The error as `Display` writes it.
    pub fn to_string(&self) -> (s: String)
        ensures
            s@ == self.text(),
    {
        let id = uuid_hyphenated_string(self.id);
        let code = int_to_decimal(self.code);
        let mut s = String::from_str("{ id: ");
        s.append(id.as_str());
        s.append(", code: ");
        s.append(code.as_str());
        s.append(", error_type: ");
        s.append(self.error_type.as_str());
        s.append(", detail: ");
        s.append(self.detail.as_str());
        s.append(", source: ");
        s.append(self.source.as_str());
        s.append(" }");
        s
    }
}

/// A failed response: the API's version, the error, and metadata if any.
#[derive(Debug)]
pub struct ErrorResponseType<P> {
    pub api_version: String,
    pub error: ErrorType,
    pub data: Option<String>,
    pub meta: Option<MetadataType<P>>,
}

impl<P> ErrorResponseType<P> {
    /// The response reporting `error`, made by version `api_version` of the API.
    pub fn new(error: ErrorType, meta: Option<MetadataType<P>>, api_version: String) -> (r: ErrorResponseType<P>)
        ensures
            r == (ErrorResponseType { api_version: api_version, error: error, data: None, meta: meta }),
    {
        ErrorResponseType { api_version, error, data: None, meta }
    }
}

} // verus!
