use ocr_worker::jobs::{
    file_to_text_job, resolve_routing, JobAction, JobError, JobEvent, JobRequest, JobResult,
    JobStage, Route,
};
use ocr_worker::operations::{file_to_text, Action, Event, FileToTextError, Stage};

fn json(text: &str) -> serde_json::Value {
    serde_json::from_str::<serde_json::Value>(text).expect("JSON")
}

fn payload_failure(text: &str) -> serde_json::Error {
    serde_json::from_str::<serde_json::Value>(text).expect_err("no JSON")
}

#[test]
fn file_to_text_key_selects_the_job() {
    let payload = b"{\"file_url\":\"https://host/img.png\",\"extras\":{}}".to_vec();
    assert_eq!(
        resolve_routing("file_to_text", &payload).expect("a route"),
        Route::FileToText("{\"file_url\":\"https://host/img.png\",\"extras\":{}}".to_string())
    );
}

#[test]
fn unknown_key_is_reported_with_the_key() {
    match resolve_routing("unknown_job", &b"{}".to_vec()) {
        Err(JobError::NotFoundJobError(key)) => assert_eq!(key, "unknown_job"),
        other => panic!("a job was found: {:?}", other),
    }
}

#[test]
fn keys_are_compared_exactly() {
    for routing_key in ["", "file_to_text ", " file_to_text", "FILE_TO_TEXT", "file_to_tex", "file-to-text"] {
        match resolve_routing(routing_key, &Vec::new()) {
            Err(JobError::NotFoundJobError(key)) => assert_eq!(key, routing_key),
            other => panic!("a job was found for {:?}: {:?}", routing_key, other),
        }
    }
}

#[test]
fn payload_is_read_as_text_with_marks_for_what_is_no_text() {
    assert_eq!(
        resolve_routing("file_to_text", &"zażółć".as_bytes().to_vec()).expect("a route"),
        Route::FileToText("zażółć".to_string())
    );
    assert_eq!(
        resolve_routing("file_to_text", &vec![b'a', 0xff, b'b']).expect("a route"),
        Route::FileToText("a\u{fffd}b".to_string())
    );
    assert_eq!(
        resolve_routing("file_to_text", &Vec::new()).expect("a route"),
        Route::FileToText(String::new())
    );
}

#[test]
fn request_starts_the_operation_on_its_address() {
    let request = JobRequest {
        file_url: "https://host/img.PNG?x=1".to_string(),
        extras: json("{\"id\":7}"),
    };
    let (stage, action) = file_to_text_job(JobStage::Parsing, JobEvent::Parsed(Ok(request)));
    assert_eq!(stage, JobStage::Extracting(json("{\"id\":7}")));
    match action {
        JobAction::Extract(file_url) => assert_eq!(file_url, "https://host/img.PNG?x=1"),
        other => panic!("no operation was asked for: {:?}", other),
    }
}

#[test]
fn malformed_payload_ends_the_job() {
    let (stage, action) =
        file_to_text_job(JobStage::Parsing, JobEvent::Parsed(Err(payload_failure("not-json"))));
    assert_eq!(stage, JobStage::Finished);
    match action {
        JobAction::Finish(Err(JobError::JSONError(failure))) => {
            assert!(failure.is_syntax());
            assert_eq!(failure.to_string(), payload_failure("not-json").to_string());
        }
        other => panic!("the payload did not end the job: {:?}", other),
    }
}

#[test]
fn text_ends_the_job_with_the_senders_value() {
    let (stage, action) = file_to_text_job(
        JobStage::Extracting(json("{\"id\":7}")),
        JobEvent::Extracted(Ok("<engine output>".to_string())),
    );
    assert_eq!(stage, JobStage::Finished);
    match action {
        JobAction::Finish(Ok(result)) => assert_eq!(
            result,
            JobResult { extras: json("{\"id\":7}"), text: "<engine output>".to_string() }
        ),
        other => panic!("the text did not end the job: {:?}", other),
    }
}

#[test]
fn failed_operation_ends_the_job() {
    let (stage, action) = file_to_text_job(
        JobStage::Extracting(json("[]")),
        JobEvent::Extracted(Err(FileToTextError::Error("incorrect file type".to_string()))),
    );
    assert_eq!(stage, JobStage::Finished);
    match action {
        JobAction::Finish(Err(JobError::FileToTextError(FileToTextError::Error(reason)))) => {
            assert_eq!(reason, "incorrect file type")
        }
        other => panic!("the failure did not end the job: {:?}", other),
    }
}

#[test]
fn job_events_out_of_turn_are_ignored() {
    let (stage, action) =
        file_to_text_job(JobStage::Parsing, JobEvent::Extracted(Ok("text".to_string())));
    assert_eq!(stage, JobStage::Parsing);
    assert!(matches!(action, JobAction::Ignore));

    let request = JobRequest { file_url: "https://host/img.png".to_string(), extras: json("1") };
    let (stage, action) =
        file_to_text_job(JobStage::Extracting(json("2")), JobEvent::Parsed(Ok(request)));
    assert_eq!(stage, JobStage::Extracting(json("2")));
    assert!(matches!(action, JobAction::Ignore));

    let (stage, action) =
        file_to_text_job(JobStage::Finished, JobEvent::Parsed(Err(payload_failure("{"))));
    assert_eq!(stage, JobStage::Finished);
    assert!(matches!(action, JobAction::Ignore));

    let (stage, action) =
        file_to_text_job(JobStage::Finished, JobEvent::Extracted(Ok("text".to_string())));
    assert_eq!(stage, JobStage::Finished);
    assert!(matches!(action, JobAction::Ignore));
}

fn run_job(
    parsed: Result<JobRequest, serde_json::Error>,
    recognized: &str,
) -> (Result<JobResult, JobError>, Vec<&'static str>) {
    let mut asked = Vec::new();
    let mut job_stage = JobStage::Parsing;
    let mut job_event = JobEvent::Parsed(parsed);
    loop {
        let (next, action) = file_to_text_job(job_stage, job_event);
        job_stage = next;
        match action {
            JobAction::Finish(result) => return (result, asked),
            JobAction::Ignore => panic!("the job ignored an event it was owed"),
            JobAction::Extract(file_url) => {
                asked.push("extract");
                let mut stage = Stage::Validating;
                let mut event = Event::Requested(file_url);
                let extracted = loop {
                    let (next, action) = file_to_text(stage, event);
                    stage = next;
                    event = match action {
                        Action::Fetch(_) => {
                            asked.push("fetch");
                            Event::Fetched(Ok(vec![137, 80, 78, 71]))
                        }
                        Action::Normalize(_, _) => {
                            asked.push("normalize");
                            Event::Normalized(Ok(image::DynamicImage::new_rgb8(2, 2)))
                        }
                        Action::Recognize(_, _) => {
                            asked.push("recognize");
                            Event::Recognized(Ok(recognized.to_string()))
                        }
                        Action::Finish(result) => break result,
                        Action::Ignore => panic!("the operation ignored an event it was owed"),
                    };
                };
                job_event = JobEvent::Extracted(extracted);
            }
        }
    }
}

#[test]
fn image_address_with_query_is_answered_with_extras_and_text() {
    let request = JobRequest {
        file_url: "https://host/img.PNG?x=1".to_string(),
        extras: json("{\"id\":7}"),
    };
    let (result, asked) = run_job(Ok(request), "<engine output>");
    assert_eq!(
        result.expect("a result"),
        JobResult { extras: json("{\"id\":7}"), text: "<engine output>".to_string() }
    );
    assert_eq!(asked, vec!["extract", "fetch", "normalize", "recognize"]);
}

#[test]
fn extras_of_any_shape_come_back_by_value() {
    for extras in ["null", "7", "\"id\"", "[1,[2,{\"a\":null}]]", "{\"b\":{\"c\":[true,1.5]},\"a\":\"x\"}"] {
        let request =
            JobRequest { file_url: "https://host/scan.jpg".to_string(), extras: json(extras) };
        let (result, _) = run_job(Ok(request), "text");
        assert_eq!(result.expect("a result").extras, json(extras));
    }
}

#[test]
fn document_address_fails_without_a_fetch() {
    let request =
        JobRequest { file_url: "https://host/doc.pdf".to_string(), extras: json("{}") };
    let (result, asked) = run_job(Ok(request), "never read");
    match result {
        Err(JobError::FileToTextError(FileToTextError::Error(reason))) => {
            assert_eq!(reason, "incorrect file type")
        }
        other => panic!("the document was not refused: {:?}", other),
    }
    assert_eq!(asked, vec!["extract"]);
}

#[test]
fn payload_that_is_no_json_fails_without_a_fetch() {
    let (result, asked) = run_job(Err(payload_failure("not-json")), "never read");
    assert!(matches!(result, Err(JobError::JSONError(_))));
    assert!(asked.is_empty());
}

#[test]
fn job_failures_convert_into_the_error_of_their_kind() {
    assert!(matches!(JobError::from(payload_failure("{")), JobError::JSONError(_)));
    match JobError::from(FileToTextError::Error("incorrect extension".to_string())) {
        JobError::FileToTextError(FileToTextError::Error(reason)) => {
            assert_eq!(reason, "incorrect extension")
        }
        other => panic!("a failed operation became {:?}", other),
    }
    match JobError::from("unknown_job".to_string()) {
        JobError::NotFoundJobError(key) => assert_eq!(key, "unknown_job"),
        other => panic!("a key became {:?}", other),
    }
}
