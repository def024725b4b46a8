//! The three responsibilities of the handler as functions on plain values:
//! reading the event, accepting the fetch's answer, and building the
//! write-back.

use vstd::prelude::*;
use vstd::utf8::encode_utf8;
use crate::error::{ErrorModel, FetchCause, FetchCauseModel, HandlerError};
use crate::model::{
    FetchResponse, FetchResponseModel, FetchedContent, FetchedModel, InvocationEvent,
    InvocationModel, ResponseSubmission, SubmissionModel,
};
use crate::text::{encode, transform, transformed_text};

verus! {

/// The status of every write-back that this handler makes.
pub const STATUS_OK: i32 = 200;

/// What the event interpreter extracts from an event.
#[derive(Debug, Clone, PartialEq, Eq)]
pub struct Addressing {
    pub output_route: String,
    pub output_token: String,
    pub source_url: String,
    /// The caller's range expression, byte for byte.
    pub requested_range: Vec<u8>,
}

/// An [`Addressing`] as a mathematical value.
pub struct AddressingModel {
    pub output_route: Seq<char>,
    pub output_token: Seq<char>,
    pub source_url: Seq<char>,
    pub requested_range: Seq<u8>,
}

impl View for Addressing {
    type V = AddressingModel;

    open spec fn view(&self) -> AddressingModel {
        AddressingModel {
            output_route: self.output_route@,
            output_token: self.output_token@,
            source_url: self.source_url@,
            requested_range: self.requested_range@,
        }
    }
}

/// What the event interpreter makes of an event. An event without addressing
/// metadata fails for that reason, whatever else it lacks; one with metadata
/// and without a range fails for want of the range.
pub open spec fn interpreted(event: InvocationModel) -> Result<AddressingModel, ErrorModel> {
    match event.context {
        None => Err(ErrorModel::MissingContext),
        Some(context) => match event.requested_range {
            None => Err(ErrorModel::MissingRangeHeader),
            Some(range) => Ok(
                AddressingModel {
                    output_route: context.output_route,
                    output_token: context.output_token,
                    source_url: context.source_url,
                    requested_range: range,
                },
            ),
        },
    }
}

/// Event interpreter: the route, token, locator and range of an event, or the
/// reason why the event cannot be served.
pub fn interpret(event: InvocationEvent) -> (out: Result<Addressing, HandlerError>)
    ensures
        match out {
            Ok(addressing) => interpreted(event@) == Ok::<AddressingModel, ErrorModel>(
                addressing@,
            ),
            Err(error) => interpreted(event@) == Err::<AddressingModel, ErrorModel>(error@),
        },
{
    match event.context {
        None => Err(HandlerError::MissingContext),
        Some(context) => match event.requested_range {
            None => Err(HandlerError::MissingRangeHeader),
            Some(range) => Ok(
                Addressing {
                    output_route: context.output_route,
                    output_token: context.output_token,
                    source_url: context.source_url,
                    requested_range: range,
                },
            ),
        },
    }
}

/// A status that counts as success: 200 to 299.
pub open spec fn is_success(status: u16) -> bool {
    200 <= status <= 299
}

/// What the range fetcher makes of an answer: a fetch failure where the
/// status is no success; else the content with its descriptor, or a failure
/// where the descriptor is missing.
pub open spec fn accepted(response: FetchResponseModel) -> Result<FetchedModel, ErrorModel> {
    if !is_success(response.status) {
        Err(ErrorModel::Fetch { cause: FetchCauseModel::Status { code: response.status } })
    } else {
        match response.content_range {
            None => Err(ErrorModel::MissingContentRange),
            Some(descriptor) => Ok(
                FetchedModel { content_range: descriptor, body: response.body },
            ),
        }
    }
}

/// Range fetcher, after the transport: a successful answer with a descriptor
/// becomes the fetched content, unchanged; any other is a failure.
pub fn accept(response: FetchResponse) -> (out: Result<FetchedContent, HandlerError>)
    ensures
        match out {
            Ok(fetched) => accepted(response@) == Ok::<FetchedModel, ErrorModel>(fetched@),
            Err(error) => accepted(response@) == Err::<FetchedModel, ErrorModel>(error@),
        },
{
    if response.status < 200 || response.status > 299 {
        return Err(HandlerError::Fetch { cause: FetchCause::Status { code: response.status } });
    }
    match response.content_range {
        None => Err(HandlerError::MissingContentRange),
        Some(descriptor) => Ok(FetchedContent { content_range: descriptor, body: response.body }),
    }
}

/// The write-back for a transformed text: the text's bytes under the fixed
/// status, with route, token and descriptor as given.
pub open spec fn submission_of(
    output_route: Seq<char>,
    output_token: Seq<char>,
    content_range: Seq<u8>,
    text: Seq<char>,
) -> SubmissionModel {
    SubmissionModel {
        output_route,
        output_token,
        status_code: STATUS_OK as int,
        body: encode_utf8(text),
        content_range,
    }
}

/// Builds the write-back for a text that has been transformed already. The
/// descriptor is taken over as it is; it is not recomputed for the new bytes.
pub fn submission_for(
    output_route: String,
    output_token: String,
    content_range: Vec<u8>,
    text: &String,
) -> (submission: ResponseSubmission)
    ensures
        submission@ == submission_of(output_route@, output_token@, content_range@, text@),
{
    ResponseSubmission {
        output_route,
        output_token,
        status_code: STATUS_OK,
        body: encode(text),
        content_range,
    }
}

/// What transform-and-respond makes of fetched content: the write-back of its
/// text in upper case, or an encoding failure where the body is not UTF-8.
pub open spec fn responded(
    output_route: Seq<char>,
    output_token: Seq<char>,
    fetched: FetchedModel,
) -> Result<SubmissionModel, ErrorModel> {
    match transformed_text(fetched.body) {
        None => Err(ErrorModel::Encoding),
        Some(text) => Ok(submission_of(output_route, output_token, fetched.content_range, text)),
    }
}

/// Transform-and-respond, before the transport: decodes the body, puts it in
/// upper case and builds the write-back.
pub fn respond(output_route: String, output_token: String, fetched: FetchedContent) -> (out: Result<
    ResponseSubmission,
    HandlerError,
>)
    ensures
        match out {
            Ok(submission) => responded(output_route@, output_token@, fetched@) == Ok::<
                SubmissionModel,
                ErrorModel,
            >(submission@),
            Err(error) => responded(output_route@, output_token@, fetched@) == Err::<
                SubmissionModel,
                ErrorModel,
            >(error@),
        },
{
    match transform(fetched.body) {
        Err(error) => Err(error),
        Ok(text) => Ok(submission_for(output_route, output_token, fetched.content_range, &text)),
    }
}

} // verus!
