//! The values that pass through one invocation, each with its mathematical
//! model.

use vstd::prelude::*;
use crate::headers::{content_range, header_fields, requested_range, range_name, content_range_name};

verus! {

/// The bytes of an optional byte string.
pub open spec fn bytes_of(value: Option<Vec<u8>>) -> Option<Seq<u8>> {
    match value {
        Some(bytes) => Some(bytes@),
        None => None,
    }
}

/// The entry of a header map under a name, if it has one.
pub open spec fn field(fields: Map<Seq<char>, Seq<u8>>, name: Seq<char>) -> Option<Seq<u8>> {
    if fields.contains_key(name) {
        Some(fields[name])
    } else {
        None
    }
}

/// Where the answer of an invocation goes, and where its object is read.
#[derive(Debug, Clone, PartialEq, Eq)]
pub struct ObjectContext {
    /// Routing token of the write-back.
    pub output_route: String,
    /// Authorization token of the write-back.
    pub output_token: String,
    /// Pre-authorized locator of the stored object.
    pub source_url: String,
}

/// An [`ObjectContext`] as a mathematical value.
pub struct ContextModel {
    pub output_route: Seq<char>,
    pub output_token: Seq<char>,
    pub source_url: Seq<char>,
}

impl View for ObjectContext {
    type V = ContextModel;

    open spec fn view(&self) -> ContextModel {
        ContextModel {
            output_route: self.output_route@,
            output_token: self.output_token@,
            source_url: self.source_url@,
        }
    }
}

/// The inbound request of one invocation.
#[derive(Debug, Clone, PartialEq, Eq)]
pub struct InvocationEvent {
    /// Addressing metadata; absent in a malformed event.
    pub context: Option<ObjectContext>,
    /// The value of the caller's `Range` header, byte for byte.
    pub requested_range: Option<Vec<u8>>,
}

/// An [`InvocationEvent`] as a mathematical value.
pub struct InvocationModel {
    pub context: Option<ContextModel>,
    pub requested_range: Option<Seq<u8>>,
}

impl View for InvocationEvent {
    type V = InvocationModel;

    open spec fn view(&self) -> InvocationModel {
        InvocationModel {
            context: match self.context {
                Some(context) => Some(context@),
                None => None,
            },
            requested_range: bytes_of(self.requested_range),
        }
    }
}

impl InvocationEvent {
    /// The event made of the platform's addressing metadata and the headers of
    /// the caller's request: its range is the first `Range` header there.
    pub fn from_request(
        context: Option<ObjectContext>,
        headers: &http::HeaderMap<http::HeaderValue>,
    ) -> (event: InvocationEvent)
        ensures
            event.context == context,
            event@.requested_range == field(header_fields(*headers), range_name()),
    {
        InvocationEvent { context, requested_range: requested_range(headers) }
    }
}

/// The one outbound fetch of an invocation.
#[derive(Debug, Clone, PartialEq, Eq)]
pub struct FetchRequest {
    /// Where to send the GET.
    pub url: String,
    /// The value of its `Range` header.
    pub range: Vec<u8>,
}

/// A [`FetchRequest`] as a mathematical value.
pub struct FetchRequestModel {
    pub url: Seq<char>,
    pub range: Seq<u8>,
}

impl View for FetchRequest {
    type V = FetchRequestModel;

    open spec fn view(&self) -> FetchRequestModel {
        FetchRequestModel { url: self.url@, range: self.range@ }
    }
}

/// What the fetch endpoint answered.
#[derive(Debug, Clone, PartialEq, Eq)]
pub struct FetchResponse {
    /// The HTTP status of the answer.
    pub status: u16,
    /// The value of the `Content-Range` header, if the answer had one.
    pub content_range: Option<Vec<u8>>,
    /// The whole body.
    pub body: Vec<u8>,
}

/// A [`FetchResponse`] as a mathematical value.
pub struct FetchResponseModel {
    pub status: u16,
    pub content_range: Option<Seq<u8>>,
    pub body: Seq<u8>,
}

impl View for FetchResponse {
    type V = FetchResponseModel;

    open spec fn view(&self) -> FetchResponseModel {
        FetchResponseModel {
            status: self.status,
            content_range: bytes_of(self.content_range),
            body: self.body@,
        }
    }
}

impl FetchResponse {
    /// The answer made of the response's status, headers and body: its
    /// descriptor is the first `Content-Range` header there.
    pub fn from_parts(
        status: u16,
        headers: &http::HeaderMap<http::HeaderValue>,
        body: Vec<u8>,
    ) -> (response: FetchResponse)
        ensures
            response@.status == status,
            response@.content_range == field(header_fields(*headers), content_range_name()),
            response@.body == body@,
    {
        FetchResponse { status, content_range: content_range(headers), body }
    }
}

/// A fetched range of the object with its descriptor.
#[derive(Debug, Clone, PartialEq, Eq)]
pub struct FetchedContent {
    /// Which bytes of the object the body is, as the endpoint said it.
    pub content_range: Vec<u8>,
    /// The bytes of the range.
    pub body: Vec<u8>,
}

/// A [`FetchedContent`] as a mathematical value.
pub struct FetchedModel {
    pub content_range: Seq<u8>,
    pub body: Seq<u8>,
}

impl View for FetchedContent {
    type V = FetchedModel;

    open spec fn view(&self) -> FetchedModel {
        FetchedModel { content_range: self.content_range@, body: self.body@ }
    }
}

/// The one write-back of an invocation.
#[derive(Debug, Clone, PartialEq, Eq)]
pub struct ResponseSubmission {
    pub output_route: String,
    pub output_token: String,
    /// HTTP status of the answer.
    pub status_code: i32,
    /// The transformed bytes.
    pub body: Vec<u8>,
    /// The descriptor of the fetched range. It describes the bytes that were
    /// fetched, not `body`: upper case may take more or fewer bytes.
    pub content_range: Vec<u8>,
}

/// A [`ResponseSubmission`] as a mathematical value.
pub struct SubmissionModel {
    pub output_route: Seq<char>,
    pub output_token: Seq<char>,
    pub status_code: int,
    pub body: Seq<u8>,
    pub content_range: Seq<u8>,
}

impl View for ResponseSubmission {
    type V = SubmissionModel;

    open spec fn view(&self) -> SubmissionModel {
        SubmissionModel {
            output_route: self.output_route@,
            output_token: self.output_token@,
            status_code: self.status_code as int,
            body: self.body@,
            content_range: self.content_range@,
        }
    }
}

} // verus!
