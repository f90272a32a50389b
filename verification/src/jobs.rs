//! Jobs: which one a routing key selects, and how the file-to-text job
//! runs from its request to its result.

use vstd::prelude::*;
use vstd::utf8::{decode_utf8, valid_utf8};

use crate::file_url::{is_accepted, is_refusal_of, path_of_url};
use crate::operations::{
    is_default_normalize_args, is_default_ocr_args, step_allows, Action, Event, FileToTextError,
    Stage,
};
use crate::text::same_text;

verus! {

/// `serde_json::Error`: why a payload is no request. Nothing is claimed of
/// its content; it is handed on as it came.
#[verifier::external_type_specification]
#[verifier::external_body]
pub struct ExPayloadFailure(serde_json::Error);

/// `serde_json::Value`: any JSON value. Nothing is claimed of its content;
/// it is handed on as it came.
#[verifier::external_type_specification]
#[verifier::external_body]
pub struct ExJson(serde_json::Value);

/// Why a delivery led to no result.
#[derive(Debug)]
pub enum JobError {
    /// The payload is no request.
    JSONError(serde_json::Error),
    /// The file could not be turned into text.
    FileToTextError(FileToTextError),
    /// No job goes by this routing key.
    NotFoundJobError(String),
}

impl From<serde_json::Error> for JobError {
    fn from(failure: serde_json::Error) -> (error: JobError) {
        JobError::JSONError(failure)
    }
}

impl vstd::std_specs::convert::FromSpecImpl<serde_json::Error> for JobError {
    open spec fn obeys_from_spec() -> bool {
        true
    }

    open spec fn from_spec(failure: serde_json::Error) -> JobError {
        JobError::JSONError(failure)
    }
}

impl From<FileToTextError> for JobError {
    fn from(failure: FileToTextError) -> (error: JobError) {
        JobError::FileToTextError(failure)
    }
}

impl vstd::std_specs::convert::FromSpecImpl<FileToTextError> for JobError {
    open spec fn obeys_from_spec() -> bool {
        true
    }

    open spec fn from_spec(failure: FileToTextError) -> JobError {
        JobError::FileToTextError(failure)
    }
}

impl From<String> for JobError {
    fn from(routing_key: String) -> (error: JobError) {
        JobError::NotFoundJobError(routing_key)
    }
}

impl vstd::std_specs::convert::FromSpecImpl<String> for JobError {
    open spec fn obeys_from_spec() -> bool {
        true
    }

    open spec fn from_spec(routing_key: String) -> JobError {
        JobError::NotFoundJobError(routing_key)
    }
}

/// What a file-to-text job is asked: the address of the file, and a value
/// of the sender's that the job returns untouched.
#[derive(Debug, PartialEq, Eq)]
pub struct JobRequest {
    pub file_url: String,
    pub extras: serde_json::Value,
}

/// What a file-to-text job answers: the sender's value, and the text read
/// in the file.
#[derive(Debug, PartialEq, Eq)]
pub struct JobResult {
    pub extras: serde_json::Value,
    pub text: String,
}

/// A job to run, with the text of the payload it runs on.
#[derive(Debug, Clone, PartialEq, Eq)]
pub enum Route {
    /// The file-to-text job.
    FileToText(String),
}

/// The text that `String::from_utf8_lossy` makes of bytes.
pub uninterp spec fn lossy_text(bytes: Seq<u8>) -> Seq<char>;

/// Calls `String::from_utf8_lossy` and takes the text as a `String`.
///
/// Trusted: the text is a function of the bytes alone, named
/// [`lossy_text`]; bytes that are UTF-8 give the text they encode.
#[verifier::external_body]
fn decode_lossy(payload: &Vec<u8>) -> (text: String)
    ensures
        text@ == lossy_text(payload@),
        valid_utf8(payload@) ==> text@ == decode_utf8(payload@),
{
    String::from_utf8_lossy(payload).into_owned()
}

/// Whether a routing key selects the file-to-text job.
pub open spec fn selects_file_to_text(routing_key: Seq<char>) -> bool {
    routing_key == "file_to_text"@
}

/// Selects the job for a delivery by its routing key.
///
/// The key `file_to_text` selects the file-to-text job, which runs on the
/// payload read as text. No other key selects a job: it comes back in the
/// error.
pub fn resolve_routing(routing_key: &str, payload: &Vec<u8>) -> (route: Result<Route, JobError>)
    ensures
        selects_file_to_text(routing_key@) ==> (route matches Ok(Route::FileToText(text)) && text@
            == lossy_text(payload@)),
        !selects_file_to_text(routing_key@) ==> (route matches Err(
            JobError::NotFoundJobError(key),
        ) && key@ == routing_key@),
{
    if same_text(routing_key, "file_to_text") {
        Ok(Route::FileToText(decode_lossy(payload)))
    } else {
        Err(JobError::NotFoundJobError(routing_key.to_owned()))
    }
}

/// Where a file-to-text job stands.
#[derive(Debug, PartialEq, Eq)]
pub enum JobStage {
    /// The request read from the payload is awaited.
    Parsing,
    /// The text of the file is awaited; the sender's value is kept for the
    /// result.
    Extracting(serde_json::Value),
    /// The job has ended.
    Finished,
}

/// What the outside world reports to a file-to-text job.
#[derive(Debug)]
pub enum JobEvent {
    /// How reading the payload ended: the request, or the failure.
    Parsed(Result<JobRequest, serde_json::Error>),
    /// How the file-to-text operation ended: the text, or the failure.
    Extracted(Result<String, FileToTextError>),
}

/// What a file-to-text job asks of the outside world next.
#[derive(Debug)]
pub enum JobAction {
    /// Run the file-to-text operation on this address.
    Extract(String),
    /// Nothing more: the job ended with this result.
    Finish(Result<JobResult, JobError>),
    /// Nothing: the event was not awaited and changed nothing.
    Ignore,
}

/// The stage a job goes to, and what it asks for, at `stage` when told
/// `event`.
pub open spec fn job_step(stage: JobStage, event: JobEvent) -> (JobStage, JobAction) {
    match (stage, event) {
        (JobStage::Parsing, JobEvent::Parsed(Ok(request))) => (
            JobStage::Extracting(request.extras),
            JobAction::Extract(request.file_url),
        ),
        (JobStage::Parsing, JobEvent::Parsed(Err(failure))) => (
            JobStage::Finished,
            JobAction::Finish(Err(JobError::JSONError(failure))),
        ),
        (JobStage::Extracting(extras), JobEvent::Extracted(Ok(text))) => (
            JobStage::Finished,
            JobAction::Finish(Ok(JobResult { extras, text })),
        ),
        (JobStage::Extracting(_), JobEvent::Extracted(Err(failure))) => (
            JobStage::Finished,
            JobAction::Finish(Err(JobError::FileToTextError(failure))),
        ),
        _ => (stage, JobAction::Ignore),
    }
}

/// Advances a file-to-text job by one event.
///
/// The job starts at [`JobStage::Parsing`] and is told what the payload
/// holds. A payload that is no request ends the job. For a request the
/// operation is run on its address, and the job ends with the text and the
/// sender's value, or with the operation's failure. An event that the stage
/// does not await is ignored.
pub fn file_to_text_job(stage: JobStage, event: JobEvent) -> (step: (JobStage, JobAction))
    ensures
        step == job_step(stage, event),
{
    match (stage, event) {
        (JobStage::Parsing, JobEvent::Parsed(Ok(request))) => (
            JobStage::Extracting(request.extras),
            JobAction::Extract(request.file_url),
        ),
        (JobStage::Parsing, JobEvent::Parsed(Err(failure))) => (
            JobStage::Finished,
            JobAction::Finish(Err(JobError::JSONError(failure))),
        ),
        (JobStage::Extracting(extras), JobEvent::Extracted(Ok(text))) => (
            JobStage::Finished,
            JobAction::Finish(Ok(JobResult { extras, text })),
        ),
        (JobStage::Extracting(_), JobEvent::Extracted(Err(failure))) => (
            JobStage::Finished,
            JobAction::Finish(Err(JobError::FileToTextError(failure))),
        ),
        (stage, _) => (stage, JobAction::Ignore),
    }
}

/// A request for a file of an allowed type that is fetched, decoded and
/// recognized is answered with the text that was read and with the value
/// that the request came with.
///
/// The job asks for the operation on the address of the request. The
/// operation asks for the download of that address, for the normalization
/// of the bytes that came, and for the recognition of the image that came,
/// and ends with the text. The job then ends with the text and the
/// sender's value.
pub proof fn lemma_accepted_request_is_answered(
    request: JobRequest,
    bytes: Vec<u8>,
    image: image::DynamicImage,
    text: String,
    fetching: (Stage, Action),
    normalizing: (Stage, Action),
    recognizing: (Stage, Action),
    finished: (Stage, Action),
)
    requires
        is_accepted(request.file_url@),
        step_allows(
            Stage::Validating,
            Event::Requested(request.file_url),
            fetching.0,
            fetching.1,
        ),
        step_allows(fetching.0, Event::Fetched(Ok(bytes)), normalizing.0, normalizing.1),
        step_allows(normalizing.0, Event::Normalized(Ok(image)), recognizing.0, recognizing.1),
        step_allows(recognizing.0, Event::Recognized(Ok(text)), finished.0, finished.1),
    ensures
        job_step(JobStage::Parsing, JobEvent::Parsed(Ok(request))) == (
            JobStage::Extracting(request.extras),
            JobAction::Extract(request.file_url),
        ),
        fetching.1 == Action::Fetch(request.file_url),
        normalizing.1 matches Action::Normalize(subject, args) && subject == bytes
            && is_default_normalize_args(args),
        recognizing.1 matches Action::Recognize(subject, args) && subject == image
            && is_default_ocr_args(args),
        finished == (Stage::Finished, Action::Finish(Ok(text))),
        job_step(JobStage::Extracting(request.extras), JobEvent::Extracted(Ok(text))) == (
            JobStage::Finished,
            JobAction::Finish(Ok(JobResult { extras: request.extras, text })),
        ),
{
}

/// A request whose address is an absolute URL with a path that names no
/// file of an allowed type fails for its file type, and nothing is fetched
/// for it.
///
/// The operation ends on the address at once, with one of the two reasons
/// and without asking for a download, and the job ends with that failure.
pub proof fn lemma_unaccepted_type_fails_without_fetch(
    request: JobRequest,
    refused: (Stage, Action),
)
    requires
        path_of_url(request.file_url@) is Some,
        !is_accepted(request.file_url@),
        step_allows(Stage::Validating, Event::Requested(request.file_url), refused.0, refused.1),
    ensures
        job_step(JobStage::Parsing, JobEvent::Parsed(Ok(request))).1 == JobAction::Extract(
            request.file_url,
        ),
        !(refused.1 is Fetch),
        refused.0 is Finished,
        refused.1 matches Action::Finish(Err(failure)) && is_refusal_of(failure, request.file_url@)
            && (failure matches FileToTextError::Error(reason) && (reason@
            == "incorrect extension"@ || reason@ == "incorrect file type"@)) && job_step(
            JobStage::Extracting(request.extras),
            JobEvent::Extracted(Err(failure)),
        ) == (JobStage::Finished, JobAction::Finish(Err(JobError::FileToTextError(failure)))),
{
}

/// A payload that is no request ends the job at once with that failure:
/// no operation is asked for, and nothing that is told afterwards asks for
/// one.
pub proof fn lemma_malformed_payload_ends_job(failure: serde_json::Error, later: JobEvent)
    ensures
        job_step(JobStage::Parsing, JobEvent::Parsed(Err(failure))) == (
            JobStage::Finished,
            JobAction::Finish(Err(JobError::JSONError(failure))),
        ),
        job_step(JobStage::Finished, later) == (JobStage::Finished, JobAction::Ignore),
{
}

/// An operation is asked for only at the start of a job, for the address of
/// a request that was read from the payload.
pub proof fn lemma_extract_follows_request(stage: JobStage, event: JobEvent)
    requires
        job_step(stage, event).1 is Extract,
    ensures
        stage is Parsing,
        event matches JobEvent::Parsed(Ok(request)) && job_step(stage, event) == (
            JobStage::Extracting(request.extras),
            JobAction::Extract(request.file_url),
        ),
{
}

} // verus!
