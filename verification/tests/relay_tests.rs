use bonsai_relay::errors::RelayError;
use bonsai_relay::payload::{build_callback_payload, CallbackRequest};
use bonsai_relay::registry::ImageEntry;
use bonsai_relay::exec::ExecEvent;
use bonsai_relay::relay::{relay_batch_local, relay_event_local, ScriptedEvent};

fn known_id() -> Vec<u8> {
    let mut id = vec![0u8; 32];
    id[0] = 0x12;
    id[31] = 0x34;
    id
}

fn registry() -> Vec<ImageEntry> {
    vec![ImageEntry {
        name: b"ECHO".to_vec(),
        image_id: known_id(),
        elf: vec![1, 2, 3],
    }]
}

fn request(image_id: Vec<u8>) -> CallbackRequest {
    CallbackRequest {
        requester: vec![0x01; 20],
        image_id,
        input: vec![0x05, 0x06],
        callback_contract: vec![0x02; 20],
        function_selector: vec![0xAA, 0xBB, 0xCC, 0xDD],
        gas_limit: 100_000,
    }
}

#[test]
fn payload_is_selector_output_id_in_order() {
    // 4 selector bytes, then the output, then the 32-byte identifier.
    let payload = build_callback_payload(
        &vec![0xAA, 0xBB, 0xCC, 0xDD],
        &vec![0x01, 0x02],
        &vec![0u8; 32],
    );
    assert_eq!(payload.len(), 38);
    let mut expected = vec![0xAA, 0xBB, 0xCC, 0xDD, 0x01, 0x02];
    expected.extend_from_slice(&[0u8; 32]);
    assert_eq!(payload, expected);
}

#[test]
fn known_event_produces_one_callback() {
    let list = registry();
    let req = request(known_id());
    let cb = relay_event_local(
        &list,
        &req,
        &ExecEvent::Output {
            journal: vec![0x0F, 0x0E],
        },
    )
    .unwrap();
    assert_eq!(cb.callback_contract, vec![0x02; 20]);
    assert_eq!(cb.gas_limit, 100_000);
    assert!(cb.inclusion_proof.is_empty());
    let mut expected = vec![0xAA, 0xBB, 0xCC, 0xDD, 0x0F, 0x0E];
    expected.extend_from_slice(&known_id());
    assert_eq!(cb.payload, expected);
}

#[test]
fn unknown_event_produces_no_callback() {
    let list = registry();
    let req = request(vec![0x77; 32]);
    let err = relay_event_local(
        &list,
        &req,
        &ExecEvent::Output {
            journal: vec![0x0F],
        },
    )
    .unwrap_err();
    assert!(matches!(err, RelayError::UnknownImage { .. }));
}

#[test]
fn trapped_execution_is_execution_failed() {
    let list = registry();
    let req = request(known_id());
    let err = relay_event_local(&list, &req, &ExecEvent::Trap).unwrap_err();
    assert!(matches!(err, RelayError::ExecutionFailed));
}

#[test]
fn relay_continues_after_unknown_image() {
    // One unknown request between two known ones: exactly two
    // submissions, in order, and the bad event is dropped.
    let list = registry();
    let events = vec![
        ScriptedEvent {
            request: request(known_id()),
            outcome: ExecEvent::Output {
                journal: vec![0x01],
            },
        },
        ScriptedEvent {
            request: request(vec![0x77; 32]),
            outcome: ExecEvent::Output {
                journal: vec![0x02],
            },
        },
        ScriptedEvent {
            request: request(known_id()),
            outcome: ExecEvent::Output {
                journal: vec![0x03],
            },
        },
    ];
    let (callbacks, errors) = relay_batch_local(&list, &events);
    assert_eq!(callbacks.len(), 2);
    assert_eq!(callbacks[0].payload[4], 0x01);
    assert_eq!(callbacks[1].payload[4], 0x03);
    assert_eq!(errors.len(), 1);
    match &errors[0] {
        RelayError::UnknownImage { selector, known } => {
            assert_eq!(
                selector,
                &bonsai_relay::text::hex_encode(&vec![0x77; 32])
            );
            assert_eq!(known.len(), 1);
        }
        other => panic!("expected UnknownImage, got {:?}", other),
    }
}

#[test]
fn one_known_event_one_submission() {
    let list = registry();
    let events = vec![ScriptedEvent {
        request: request(known_id()),
        outcome: ExecEvent::Output {
            journal: vec![0x0F, 0x0E],
        },
    }];
    let (callbacks, errors) = relay_batch_local(&list, &events);
    assert_eq!(callbacks.len(), 1);
    assert!(errors.is_empty());
    let mut expected = vec![0xAA, 0xBB, 0xCC, 0xDD, 0x0F, 0x0E];
    expected.extend_from_slice(&known_id());
    assert_eq!(callbacks[0].payload, expected);
}

#[test]
fn trapped_event_reports_execution_failed_and_continues() {
    let list = registry();
    let events = vec![
        ScriptedEvent {
            request: request(known_id()),
            outcome: ExecEvent::Trap,
        },
        ScriptedEvent {
            request: request(known_id()),
            outcome: ExecEvent::Output {
                journal: vec![0x09],
            },
        },
    ];
    let (callbacks, errors) = relay_batch_local(&list, &events);
    assert_eq!(callbacks.len(), 1);
    assert_eq!(callbacks[0].payload[4], 0x09);
    assert_eq!(errors.len(), 1);
    assert!(matches!(errors[0], RelayError::ExecutionFailed));
}
