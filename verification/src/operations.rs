//! The file-to-text operation: what it asks of the outside world, in which
//! order, and what each outcome leads to.

use vstd::prelude::*;
use vstd::string::StringExecFns;

use crate::file_url::{check_file_url, is_accepted, is_refusal_of, path_of_url};

verus! {

/// `reqwest::Error`: why a download failed. Nothing is claimed of its
/// content; it is handed on as it came.
#[verifier::external_type_specification]
#[verifier::external_body]
pub struct ExRequestFailure(reqwest::Error);

/// `image::ImageError`: why bytes could not be decoded as an image. Nothing
/// is claimed of its content; it is handed on as it came.
#[verifier::external_type_specification]
#[verifier::external_body]
pub struct ExImageFailure(image::ImageError);

/// `image::DynamicImage`: a decoded raster. Nothing is claimed of its
/// content; it is handed on as it came.
#[verifier::external_type_specification]
#[verifier::external_body]
pub struct ExRaster(image::DynamicImage);

/// `url::ParseError`: why a text is no absolute URL. Nothing is claimed of
/// its content; it is handed on as it came.
#[verifier::external_type_specification]
#[verifier::external_body]
pub struct ExAddressFailure(url::ParseError);

/// `rusty_tesseract::TessError`: why the recognition engine failed. Nothing
/// is claimed of its content; it is handed on as it came.
#[verifier::external_type_specification]
#[verifier::external_body]
pub struct ExEngineFailure(rusty_tesseract::TessError);

/// Why a file could not be turned into text.
#[derive(Debug)]
pub enum FileToTextError {
    /// The download failed, or the server answered without success.
    RequestError(reqwest::Error),
    /// The downloaded bytes are no image.
    ImageError(image::ImageError),
    /// The address does not name a file of an accepted type.
    Error(String),
    /// The address is no absolute URL.
    UrlParseError(url::ParseError),
    /// The recognition engine failed.
    OcrError(rusty_tesseract::TessError),
}

impl From<reqwest::Error> for FileToTextError {
    fn from(failure: reqwest::Error) -> (error: FileToTextError) {
        FileToTextError::RequestError(failure)
    }
}

impl vstd::std_specs::convert::FromSpecImpl<reqwest::Error> for FileToTextError {
    open spec fn obeys_from_spec() -> bool {
        true
    }

    open spec fn from_spec(failure: reqwest::Error) -> FileToTextError {
        FileToTextError::RequestError(failure)
    }
}

impl From<image::ImageError> for FileToTextError {
    fn from(failure: image::ImageError) -> (error: FileToTextError) {
        FileToTextError::ImageError(failure)
    }
}

impl vstd::std_specs::convert::FromSpecImpl<image::ImageError> for FileToTextError {
    open spec fn obeys_from_spec() -> bool {
        true
    }

    open spec fn from_spec(failure: image::ImageError) -> FileToTextError {
        FileToTextError::ImageError(failure)
    }
}

impl From<String> for FileToTextError {
    fn from(reason: String) -> (error: FileToTextError) {
        FileToTextError::Error(reason)
    }
}

impl vstd::std_specs::convert::FromSpecImpl<String> for FileToTextError {
    open spec fn obeys_from_spec() -> bool {
        true
    }

    open spec fn from_spec(reason: String) -> FileToTextError {
        FileToTextError::Error(reason)
    }
}

impl From<url::ParseError> for FileToTextError {
    fn from(failure: url::ParseError) -> (error: FileToTextError) {
        FileToTextError::UrlParseError(failure)
    }
}

impl vstd::std_specs::convert::FromSpecImpl<url::ParseError> for FileToTextError {
    open spec fn obeys_from_spec() -> bool {
        true
    }

    open spec fn from_spec(failure: url::ParseError) -> FileToTextError {
        FileToTextError::UrlParseError(failure)
    }
}

impl From<rusty_tesseract::TessError> for FileToTextError {
    fn from(failure: rusty_tesseract::TessError) -> (error: FileToTextError) {
        FileToTextError::OcrError(failure)
    }
}

impl vstd::std_specs::convert::FromSpecImpl<rusty_tesseract::TessError> for FileToTextError {
    open spec fn obeys_from_spec() -> bool {
        true
    }

    open spec fn from_spec(failure: rusty_tesseract::TessError) -> FileToTextError {
        FileToTextError::OcrError(failure)
    }
}

/// What the recognition engine is run with.
#[derive(Debug, Clone, PartialEq, Eq)]
pub struct OcrArgs {
    /// The language models, joined by `+`.
    pub lang: String,
    /// Engine variables, each a name and its value.
    pub config_variables: Vec<(String, String)>,
    /// The resolution hint, in dots per inch.
    pub dpi: Option<i32>,
    /// The page segmentation mode.
    pub psm: Option<i32>,
    /// The engine mode.
    pub oem: Option<i32>,
}

/// The language models that text is recognized with: Polish and English.
pub const LANGUAGES: &'static str = "pol+eng";

/// The engine variable that names the characters the engine may report.
pub const WHITELIST_VARIABLE: &'static str = "tessedit_char_whitelist";

/// The characters the engine may report: the Latin letters, the digits, the
/// space, the Polish letters with diacritics, and some punctuation.
pub const WHITELIST: &'static str =
    "abcdefghijklmnopqrstuvwxyzABCDEFGHIJKLMNOPQRSTUVWXYZ1234567890 ęóąśłżźćńĘÓĄŚŁŻŹĆŃ?,.!();:[]-%/";

/// The resolution the engine is told to assume, in dots per inch.
pub const DPI: i32 = 150;

/// The page segmentation mode: one uniform block of text.
pub const PAGE_SEGMENTATION_MODE: i32 = 6;

/// The engine mode: the default, with the legacy and the neural recognizer.
pub const ENGINE_MODE: i32 = 3;

/// Whether these are the parameters every file is recognized with:
/// [`LANGUAGES`], [`WHITELIST`] as the one engine variable, [`DPI`],
/// [`PAGE_SEGMENTATION_MODE`] and [`ENGINE_MODE`].
pub open spec fn is_default_ocr_args(args: OcrArgs) -> bool {
    &&& args.lang@ == LANGUAGES@
    &&& args.config_variables@.len() == 1
    &&& args.config_variables@[0].0@ == WHITELIST_VARIABLE@
    &&& args.config_variables@[0].1@ == WHITELIST@
    &&& args.dpi == Some(DPI)
    &&& args.psm == Some(PAGE_SEGMENTATION_MODE)
    &&& args.oem == Some(ENGINE_MODE)
}

/// The parameters every file is recognized with.
pub fn default_ocr_args() -> (args: OcrArgs)
    ensures
        is_default_ocr_args(args),
{
    let mut config_variables: Vec<(String, String)> = Vec::new();
    config_variables.push((WHITELIST_VARIABLE.to_owned(), WHITELIST.to_owned()));
    OcrArgs {
        lang: LANGUAGES.to_owned(),
        config_variables,
        dpi: Some(DPI),
        psm: Some(PAGE_SEGMENTATION_MODE),
        oem: Some(ENGINE_MODE),
    }
}

/// The directory that the last normalized image is kept in.
pub const UPLOAD_DIR: &'static str = "./tmp";

/// The name of the file that the last normalized image is kept in.
pub const SAMPLE_NAME: &'static str = "last-sample.png";

/// The amount the contrast of every image is raised by.
pub const CONTRAST: u32 = 1000;

/// The number of pixels that no side of a normalized image exceeds.
pub const MAX_SIDE: u32 = 1200;

/// How an image is resampled when it is resized.
#[derive(Debug, Clone, Copy, PartialEq, Eq, Structural)]
pub enum ResizeFilter {
    /// Nearest neighbour.
    Nearest,
    /// Linear interpolation.
    Triangle,
    /// Cubic interpolation.
    CatmullRom,
    /// Gaussian smoothing.
    Gaussian,
    /// Lanczos with window 3.
    Lanczos3,
}

/// What a decoded image is normalized with.
#[derive(Debug, Clone, PartialEq, Eq)]
pub struct NormalizeArgs {
    /// The amount the contrast is raised by.
    pub contrast: u32,
    /// The width the image is fitted into, in pixels.
    pub max_width: u32,
    /// The height the image is fitted into, in pixels.
    pub max_height: u32,
    /// How the image is resampled.
    pub filter: ResizeFilter,
    /// Where the normalized image is written for inspection.
    pub sample_path: String,
}

/// Whether these are the parameters every image is normalized with: the
/// contrast raised by [`CONTRAST`], the image fitted into a square of
/// [`MAX_SIDE`] pixels with linear smoothing, and a sample kept as
/// [`SAMPLE_NAME`] in [`UPLOAD_DIR`].
pub open spec fn is_default_normalize_args(args: NormalizeArgs) -> bool {
    &&& args.contrast == CONTRAST
    &&& args.max_width == MAX_SIDE
    &&& args.max_height == MAX_SIDE
    &&& args.filter == ResizeFilter::Triangle
    &&& args.sample_path@ == UPLOAD_DIR@ + "/"@ + SAMPLE_NAME@
}

/// The sample of the last normalized image is kept at
/// `./tmp/last-sample.png`.
pub proof fn lemma_sample_path()
    ensures
        UPLOAD_DIR@ + "/"@ + SAMPLE_NAME@ == "./tmp/last-sample.png"@,
{
    reveal_strlit("./tmp");
    reveal_strlit("/");
    reveal_strlit("last-sample.png");
    reveal_strlit("./tmp/last-sample.png");
    assert(UPLOAD_DIR@ + "/"@ + SAMPLE_NAME@ =~= "./tmp/last-sample.png"@);
}

/// The parameters every image is normalized with.
pub fn default_normalize_args() -> (args: NormalizeArgs)
    ensures
        is_default_normalize_args(args),
{
    let mut sample_path = UPLOAD_DIR.to_owned();
    sample_path.append("/");
    sample_path.append(SAMPLE_NAME);
    NormalizeArgs {
        contrast: CONTRAST,
        max_width: MAX_SIDE,
        max_height: MAX_SIDE,
        filter: ResizeFilter::Triangle,
        sample_path,
    }
}

/// Where the operation stands. It asks for one piece of outside work at a
/// time and waits for its outcome.
#[derive(Debug, Clone, Copy, PartialEq, Eq, Structural)]
pub enum Stage {
    /// Nothing was asked for yet: the address is awaited.
    Validating,
    /// The download of the file is awaited.
    Fetching,
    /// The decoded and normalized image is awaited.
    Normalizing,
    /// The text that the engine reads is awaited.
    Recognizing,
    /// The operation has ended.
    Finished,
}

/// What the outside world reports to the operation.
#[derive(Debug)]
pub enum Event {
    /// The address of the file to turn into text.
    Requested(String),
    /// How the download ended: the bytes of the file, or the failure.
    Fetched(Result<Vec<u8>, reqwest::Error>),
    /// How decoding ended: the normalized image, or the failure.
    Normalized(Result<image::DynamicImage, image::ImageError>),
    /// How recognition ended: the text, or the failure.
    Recognized(Result<String, rusty_tesseract::TessError>),
}

/// What the operation asks of the outside world next.
#[derive(Debug)]
pub enum Action {
    /// Download the file at this address, with one GET.
    Fetch(String),
    /// Decode these bytes as an image and normalize it with these
    /// parameters.
    Normalize(Vec<u8>, NormalizeArgs),
    /// Run the recognition engine on this image with these parameters.
    Recognize(image::DynamicImage, OcrArgs),
    /// Nothing more: the operation ended with this result.
    Finish(Result<String, FileToTextError>),
    /// Nothing: the event was not awaited and changed nothing.
    Ignore,
}

/// Whether the operation, at `stage` and told `event`, goes to `next` and
/// asks for `action`.
pub open spec fn step_allows(stage: Stage, event: Event, next: Stage, action: Action) -> bool {
    match (stage, event) {
        (Stage::Validating, Event::Requested(file_url)) => if is_accepted(file_url@) {
            next == Stage::Fetching && action == Action::Fetch(file_url)
        } else {
            &&& next == Stage::Finished
            &&& action matches Action::Finish(Err(error))
            &&& is_refusal_of(error, file_url@)
        },
        (Stage::Fetching, Event::Fetched(Ok(bytes))) => {
            &&& next == Stage::Normalizing
            &&& action matches Action::Normalize(subject, args)
            &&& subject == bytes
            &&& is_default_normalize_args(args)
        },
        (Stage::Fetching, Event::Fetched(Err(failure))) => next == Stage::Finished && action
            == Action::Finish(Err(FileToTextError::RequestError(failure))),
        (Stage::Normalizing, Event::Normalized(Ok(image))) => {
            &&& next == Stage::Recognizing
            &&& action matches Action::Recognize(subject, args)
            &&& subject == image
            &&& is_default_ocr_args(args)
        },
        (Stage::Normalizing, Event::Normalized(Err(failure))) => next == Stage::Finished
            && action == Action::Finish(Err(FileToTextError::ImageError(failure))),
        (Stage::Recognizing, Event::Recognized(Ok(text))) => next == Stage::Finished && action
            == Action::Finish(Ok(text)),
        (Stage::Recognizing, Event::Recognized(Err(failure))) => next == Stage::Finished
            && action == Action::Finish(Err(FileToTextError::OcrError(failure))),
        _ => next == stage && action == Action::Ignore,
    }
}

/// Advances the operation by one event.
///
/// The operation starts at [`Stage::Validating`] and is told the address.
/// An accepted address is fetched, the bytes are normalized, the image is
/// recognized, and the text ends the operation. An address that is not
/// accepted ends it at once, and so does the failure of any piece of
/// outside work. An event that the stage does not await is ignored.
pub fn file_to_text(stage: Stage, event: Event) -> (step: (Stage, Action))
    ensures
        step_allows(stage, event, step.0, step.1),
{
    match (stage, event) {
        (Stage::Validating, Event::Requested(file_url)) => {
            match check_file_url(file_url.as_str()) {
                Ok(()) => (Stage::Fetching, Action::Fetch(file_url)),
                Err(error) => (Stage::Finished, Action::Finish(Err(error))),
            }
        },
        (Stage::Fetching, Event::Fetched(Ok(bytes))) => (
            Stage::Normalizing,
            Action::Normalize(bytes, default_normalize_args()),
        ),
        (Stage::Fetching, Event::Fetched(Err(failure))) => (
            Stage::Finished,
            Action::Finish(Err(FileToTextError::RequestError(failure))),
        ),
        (Stage::Normalizing, Event::Normalized(Ok(image))) => (
            Stage::Recognizing,
            Action::Recognize(image, default_ocr_args()),
        ),
        (Stage::Normalizing, Event::Normalized(Err(failure))) => (
            Stage::Finished,
            Action::Finish(Err(FileToTextError::ImageError(failure))),
        ),
        (Stage::Recognizing, Event::Recognized(Ok(text))) => (
            Stage::Finished,
            Action::Finish(Ok(text)),
        ),
        (Stage::Recognizing, Event::Recognized(Err(failure))) => (
            Stage::Finished,
            Action::Finish(Err(FileToTextError::OcrError(failure))),
        ),
        (stage, _) => (stage, Action::Ignore),
    }
}

/// What the operation is told once an image was normalized and the sample
/// of it was written, or could not be written.
///
/// The sample is kept for inspection only. Whether it could be written
/// changes nothing for the operation: the image was normalized, and it is
/// recognized next. A failed write comes back beside the event, to be
/// reported.
pub fn normalized_with_sample(
    image: image::DynamicImage,
    written: Result<(), image::ImageError>,
) -> (told: (Event, Option<image::ImageError>))
    ensures
        told.0 == Event::Normalized(Ok(image)),
        told.1 == match written {
            Ok(_) => None,
            Err(failure) => Some(failure),
        },
{
    match written {
        Ok(_) => (Event::Normalized(Ok(image)), None),
        Err(failure) => (Event::Normalized(Ok(image)), Some(failure)),
    }
}

/// A download is asked for only at the start, and only of an address that
/// is accepted: the very address that was told.
pub proof fn lemma_fetch_follows_acceptance(stage: Stage, event: Event, next: Stage, action: Action)
    requires
        step_allows(stage, event, next, action),
        action is Fetch,
    ensures
        stage is Validating,
        next is Fetching,
        event matches Event::Requested(file_url) && is_accepted(file_url@) && action
            == Action::Fetch(file_url),
{
}

/// An address that is not accepted ends the operation at once with its
/// refusal. Where the address is an absolute URL, it is refused for the
/// file type that its path names, with one of the two reasons.
pub proof fn lemma_refused_address_ends_operation(file_url: String, next: Stage, action: Action)
    requires
        !is_accepted(file_url@),
        step_allows(Stage::Validating, Event::Requested(file_url), next, action),
    ensures
        next is Finished,
        action matches Action::Finish(Err(error)) && is_refusal_of(error, file_url@),
        path_of_url(file_url@) is Some ==> (action matches Action::Finish(
            Err(FileToTextError::Error(reason)),
        ) && (reason@ == "incorrect extension"@ || reason@ == "incorrect file type"@)),
        path_of_url(file_url@) is None ==> (action matches Action::Finish(
            Err(FileToTextError::UrlParseError(_)),
        )),
{
}

/// Every image is normalized with the same parameters, and every image is
/// recognized with the same parameters, whatever the address and the bytes.
pub proof fn lemma_parameters_are_fixed(stage: Stage, event: Event, next: Stage, action: Action)
    requires
        step_allows(stage, event, next, action),
    ensures
        action matches Action::Normalize(_, args) ==> is_default_normalize_args(args),
        action matches Action::Recognize(_, args) ==> is_default_ocr_args(args),
{
}

/// The operation ends exactly when it asks for nothing more, and once it
/// has ended every event is ignored.
pub proof fn lemma_finish_is_final(stage: Stage, event: Event, next: Stage, action: Action)
    requires
        step_allows(stage, event, next, action),
    ensures
        action is Finish <==> next is Finished && !(stage is Finished),
        stage is Finished ==> next is Finished && action is Ignore,
        action is Ignore ==> next == stage,
{
}

} // verus!
