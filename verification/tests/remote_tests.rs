use bonsai_relay::errors::RelayError;
use bonsai_relay::remote::{
    drive_poll, drive_remote, poll_step, remote_init, remote_step, upload_image_outcome,
    PollRunResult, PollStep, RemoteAction, RemoteEvent, RemoteState, StatusEvent,
    UploadImageEvent, POLL_INTERVAL_SEC,
};

fn running() -> StatusEvent {
    StatusEvent::Report {
        status: b"RUNNING".to_vec(),
        receipt_url: None,
    }
}

fn succeeded(url: &[u8]) -> StatusEvent {
    StatusEvent::Report {
        status: b"SUCCEEDED".to_vec(),
        receipt_url: Some(url.to_vec()),
    }
}

#[test]
fn poll_interval_is_four_seconds() {
    assert_eq!(POLL_INTERVAL_SEC, 4);
}

#[test]
fn upload_create_succeeds() {
    assert!(upload_image_outcome(&UploadImageEvent::Created).is_ok());
}

#[test]
fn upload_twice_succeeds_both_times() {
    // Idempotence: the first upload registers the image, the second is
    // answered with "already exists"; both count as success.
    assert!(upload_image_outcome(&UploadImageEvent::Created).is_ok());
    assert!(upload_image_outcome(&UploadImageEvent::AlreadyExists).is_ok());
}

#[test]
fn upload_transport_failure_is_upload_failed_without_retry() {
    // No built-in retry at the upload step: a transient failure surfaces
    // at once, even though a later attempt would succeed.
    let (state, action) = remote_step(
        RemoteState::Start,
        RemoteEvent::ImageUploaded {
            outcome: UploadImageEvent::TransportFailed,
        },
    );
    assert!(matches!(
        state,
        RemoteState::Failed {
            error: RelayError::UploadFailed
        }
    ));
    assert!(matches!(action, RemoteAction::Halt));
    // The machine has halted; the event that would have succeeded on a
    // retry is never consumed.
    assert_eq!(
        upload_image_outcome(&UploadImageEvent::TransportFailed),
        Err(RelayError::UploadFailed)
    );
}

#[test]
fn poll_running_retries() {
    assert!(matches!(poll_step(&running()), PollStep::Retry));
}

#[test]
fn poll_query_failure_retries() {
    assert!(matches!(poll_step(&StatusEvent::QueryFailed), PollStep::Retry));
}

#[test]
fn poll_two_running_then_succeeded_sleeps_twice() {
    let events = vec![running(), running(), succeeded(b"https://receipts/1")];
    match drive_poll(&events) {
        PollRunResult::Fetch { url, sleeps } => {
            assert_eq!(url, b"https://receipts/1".to_vec());
            assert_eq!(sleeps, 2);
        }
        other => panic!("expected fetch, got {:?}", other),
    }
}

#[test]
fn poll_succeeded_without_location_fails_without_sleep() {
    let events = vec![StatusEvent::Report {
        status: b"SUCCEEDED".to_vec(),
        receipt_url: None,
    }];
    match drive_poll(&events) {
        PollRunResult::Fail { error, sleeps } => {
            assert!(matches!(error, RelayError::MissingReceiptLocation));
            assert_eq!(sleeps, 0);
        }
        other => panic!("expected failure, got {:?}", other),
    }
}

#[test]
fn poll_bad_status_terminates_immediately() {
    let events = vec![
        StatusEvent::Report {
            status: b"FAILED".to_vec(),
            receipt_url: None,
        },
        running(),
    ];
    match drive_poll(&events) {
        PollRunResult::Fail { error, sleeps } => {
            assert_eq!(sleeps, 0);
            match error {
                RelayError::BadJobStatus { status } => assert_eq!(status, b"FAILED".to_vec()),
                other => panic!("expected BadJobStatus, got {:?}", other),
            }
        }
        other => panic!("expected failure, got {:?}", other),
    }
}

#[test]
fn poll_transient_error_then_success() {
    let events = vec![StatusEvent::QueryFailed, succeeded(b"u")];
    match drive_poll(&events) {
        PollRunResult::Fetch { url, sleeps } => {
            assert_eq!(url, b"u".to_vec());
            assert_eq!(sleeps, 1);
        }
        other => panic!("expected fetch, got {:?}", other),
    }
}

#[test]
fn poll_only_retries_leaves_job_pending() {
    let events = vec![running(), StatusEvent::QueryFailed, running()];
    match drive_poll(&events) {
        PollRunResult::Pending { sleeps } => assert_eq!(sleeps, 3),
        other => panic!("expected pending, got {:?}", other),
    }
}

#[test]
fn remote_machine_happy_path_to_receipt_fetch() {
    let (state, action) = remote_init();
    assert!(matches!(state, RemoteState::Start));
    assert!(matches!(action, RemoteAction::UploadImage));

    let (state, action) = remote_step(
        state,
        RemoteEvent::ImageUploaded {
            outcome: UploadImageEvent::AlreadyExists,
        },
    );
    assert!(matches!(state, RemoteState::ImageReady));
    assert!(matches!(action, RemoteAction::UploadInput));

    let (state, action) = remote_step(
        state,
        RemoteEvent::InputUploaded {
            input_id: Some(b"input-7".to_vec()),
        },
    );
    assert!(matches!(state, RemoteState::InputReady { .. }));
    assert!(matches!(action, RemoteAction::CreateSession));

    let (state, action) = remote_step(
        state,
        RemoteEvent::SessionCreated {
            session_id: Some(b"session-9".to_vec()),
        },
    );
    match &state {
        RemoteState::Polling { session_id } => assert_eq!(session_id, &b"session-9".to_vec()),
        other => panic!("expected polling, got {:?}", other),
    }
    assert!(matches!(action, RemoteAction::QueryStatus));

    let (state, action) = remote_step(state, RemoteEvent::StatusReported { answer: running() });
    assert!(matches!(state, RemoteState::Polling { .. }));
    assert!(matches!(action, RemoteAction::SleepThenQuery));

    let (state, action) = remote_step(
        state,
        RemoteEvent::StatusReported {
            answer: succeeded(b"https://receipts/9"),
        },
    );
    match &state {
        RemoteState::Fetching { session_id, url } => {
            assert_eq!(session_id, &b"session-9".to_vec());
            assert_eq!(url, &b"https://receipts/9".to_vec());
        }
        other => panic!("expected fetching, got {:?}", other),
    }
    match &action {
        RemoteAction::FetchReceipt { url } => assert_eq!(url, &b"https://receipts/9".to_vec()),
        other => panic!("expected fetch action, got {:?}", other),
    }
}

#[test]
fn remote_machine_undecodable_receipt_is_terminal() {
    // The downloaded bytes are not a serialized session receipt, so the
    // decode step must reject them (and must not hand them back as a
    // journal).
    let state = RemoteState::Fetching {
        session_id: b"s".to_vec(),
        url: b"u".to_vec(),
    };
    let (state, action) = remote_step(
        state,
        RemoteEvent::ReceiptFetched {
            body: Some(vec![0xde, 0xad, 0xbe, 0xef]),
        },
    );
    assert!(matches!(
        state,
        RemoteState::Failed {
            error: RelayError::ReceiptDecodeFailed
        }
    ));
    assert!(matches!(action, RemoteAction::Halt));
}

#[test]
fn remote_machine_failed_download_is_terminal() {
    let state = RemoteState::Fetching {
        session_id: b"s".to_vec(),
        url: b"u".to_vec(),
    };
    let (state, action) = remote_step(state, RemoteEvent::ReceiptFetched { body: None });
    assert!(matches!(
        state,
        RemoteState::Failed {
            error: RelayError::ReceiptDecodeFailed
        }
    ));
    assert!(matches!(action, RemoteAction::Halt));
}

#[test]
fn no_implicit_retry_at_upload() {
    // The first upload fails with a transient error and a retry would
    // succeed, but the machine surfaces UploadFailed after exactly one
    // consumed event: the successful retry event is never reached.
    let events = vec![
        RemoteEvent::ImageUploaded {
            outcome: UploadImageEvent::TransportFailed,
        },
        RemoteEvent::ImageUploaded {
            outcome: UploadImageEvent::Created,
        },
    ];
    let (state, consumed) = drive_remote(events);
    assert_eq!(consumed, 1);
    assert!(matches!(
        state,
        RemoteState::Failed {
            error: RelayError::UploadFailed
        }
    ));
}

#[test]
fn scripted_session_reaches_missing_receipt_location() {
    let events = vec![
        RemoteEvent::ImageUploaded {
            outcome: UploadImageEvent::Created,
        },
        RemoteEvent::InputUploaded {
            input_id: Some(b"i".to_vec()),
        },
        RemoteEvent::SessionCreated {
            session_id: Some(b"s".to_vec()),
        },
        RemoteEvent::StatusReported { answer: running() },
        RemoteEvent::StatusReported {
            answer: StatusEvent::Report {
                status: b"SUCCEEDED".to_vec(),
                receipt_url: None,
            },
        },
    ];
    let (state, consumed) = drive_remote(events);
    assert_eq!(consumed, 5);
    assert!(matches!(
        state,
        RemoteState::Failed {
            error: RelayError::MissingReceiptLocation
        }
    ));
}

#[test]
fn remote_machine_failed_input_upload() {
    let (state, _) = remote_step(
        RemoteState::ImageReady,
        RemoteEvent::InputUploaded { input_id: None },
    );
    assert!(matches!(
        state,
        RemoteState::Failed {
            error: RelayError::UploadFailed
        }
    ));
}

#[test]
fn remote_machine_failed_session_creation() {
    let (state, _) = remote_step(
        RemoteState::InputReady {
            input_id: b"i".to_vec(),
        },
        RemoteEvent::SessionCreated { session_id: None },
    );
    assert!(matches!(
        state,
        RemoteState::Failed {
            error: RelayError::SubmissionFailed
        }
    ));
}
