use ocr_worker::delivery::{
    consume_delivery, Delivery, DeliveryAction, DeliveryEvent, DeliveryState,
};
use ocr_worker::jobs::{resolve_routing, JobError};
use ocr_worker::operations::FileToTextError;

fn delivery(routing_key: &str, payload: &[u8]) -> Delivery {
    Delivery {
        routing_key: routing_key.to_string(),
        exchange: "jobs".to_string(),
        payload: payload.to_vec(),
    }
}

fn names(actions: &[DeliveryAction]) -> Vec<&'static str> {
    actions
        .iter()
        .map(|action| match action {
            DeliveryAction::Dispatch(_, _) => "dispatch",
            DeliveryAction::Publish(_) => "publish",
            DeliveryAction::Acknowledge => "acknowledge",
            DeliveryAction::Report(_) => "report",
        })
        .collect()
}

#[test]
fn received_delivery_is_dispatched_with_key_and_payload() {
    let (state, actions) = consume_delivery(
        DeliveryState::Received,
        DeliveryEvent::Taken(delivery("file_to_text", b"{\"file_url\":\"x\"}")),
    );
    assert_eq!(state, DeliveryState::Dispatched);
    assert_eq!(actions.len(), 1);
    match &actions[0] {
        DeliveryAction::Dispatch(routing_key, payload) => {
            assert_eq!(routing_key, "file_to_text");
            assert_eq!(payload, &b"{\"file_url\":\"x\"}".to_vec());
        }
        other => panic!("the delivery was not dispatched: {:?}", other),
    }
}

#[test]
fn result_is_published_then_acknowledged() {
    let (state, actions) = consume_delivery(
        DeliveryState::Dispatched,
        DeliveryEvent::Resolved(Ok("{\"extras\":{\"id\":7},\"text\":\"abc\"}".to_string())),
    );
    assert_eq!(state, DeliveryState::AcknowledgedPublished);
    assert_eq!(names(&actions), vec!["publish", "acknowledge"]);
    match &actions[0] {
        DeliveryAction::Publish(result) => {
            assert_eq!(result, "{\"extras\":{\"id\":7},\"text\":\"abc\"}")
        }
        other => panic!("the result was not published first: {:?}", other),
    }
}

#[test]
fn unknown_job_is_acknowledged_and_nothing_is_published() {
    let outcome = resolve_routing("unknown_job", &Vec::new()).map(|_| String::new());
    let (state, actions) =
        consume_delivery(DeliveryState::Dispatched, DeliveryEvent::Resolved(outcome));
    assert_eq!(state, DeliveryState::AcknowledgedUnpublished);
    assert_eq!(names(&actions), vec!["report", "acknowledge"]);
    match &actions[0] {
        DeliveryAction::Report(JobError::NotFoundJobError(key)) => assert_eq!(key, "unknown_job"),
        other => panic!("the unknown key was not reported: {:?}", other),
    }
}

#[test]
fn failed_job_is_dropped() {
    let failures = vec![
        JobError::FileToTextError(FileToTextError::Error("incorrect file type".to_string())),
        JobError::FileToTextError(FileToTextError::UrlParseError(url::ParseError::EmptyHost)),
        JobError::FileToTextError(FileToTextError::OcrError(
            rusty_tesseract::TessError::TesseractNotFoundError,
        )),
        JobError::JSONError(
            serde_json::from_str::<serde_json::Value>("not-json").expect_err("no JSON"),
        ),
    ];
    for failure in failures {
        let told = format!("{:?}", failure);
        let (state, actions) =
            consume_delivery(DeliveryState::Dispatched, DeliveryEvent::Resolved(Err(failure)));
        assert_eq!(state, DeliveryState::Dropped);
        assert_eq!(names(&actions), vec!["report"]);
        match &actions[0] {
            DeliveryAction::Report(reported) => assert_eq!(format!("{:?}", reported), told),
            other => panic!("the failure was not reported: {:?}", other),
        }
    }
}

#[test]
fn settled_deliveries_stay_as_they_are() {
    let settled = [
        DeliveryState::AcknowledgedPublished,
        DeliveryState::AcknowledgedUnpublished,
        DeliveryState::Dropped,
    ];
    for state in settled {
        let (next, actions) =
            consume_delivery(state, DeliveryEvent::Taken(delivery("file_to_text", b"{}")));
        assert_eq!(next, state);
        assert!(actions.is_empty());
        let (next, actions) =
            consume_delivery(state, DeliveryEvent::Resolved(Ok("result".to_string())));
        assert_eq!(next, state);
        assert!(actions.is_empty());
        let (next, actions) = consume_delivery(
            state,
            DeliveryEvent::Resolved(Err(JobError::NotFoundJobError("k".to_string()))),
        );
        assert_eq!(next, state);
        assert!(actions.is_empty());
    }
}

#[test]
fn delivery_events_out_of_turn_change_nothing() {
    let (state, actions) =
        consume_delivery(DeliveryState::Received, DeliveryEvent::Resolved(Ok("result".to_string())));
    assert_eq!(state, DeliveryState::Received);
    assert!(actions.is_empty());
    let (state, actions) = consume_delivery(
        DeliveryState::Dispatched,
        DeliveryEvent::Taken(delivery("file_to_text", b"{}")),
    );
    assert_eq!(state, DeliveryState::Dispatched);
    assert!(actions.is_empty());
}

#[test]
fn delivery_runs_from_queue_to_settlement() {
    let (state, actions) = consume_delivery(
        DeliveryState::Received,
        DeliveryEvent::Taken(delivery("unknown_job", b"payload")),
    );
    let outcome = match actions.into_iter().next() {
        Some(DeliveryAction::Dispatch(routing_key, payload)) => {
            resolve_routing(&routing_key, &payload).map(|_| "never published".to_string())
        }
        other => panic!("the delivery was not dispatched: {:?}", other),
    };
    let (state, actions) = consume_delivery(state, DeliveryEvent::Resolved(outcome));
    assert_eq!(state, DeliveryState::AcknowledgedUnpublished);
    assert!(!names(&actions).contains(&"publish"));
    assert_eq!(names(&actions).last(), Some(&"acknowledge"));
}
