use scils::codec::{decode, encode};
use scils::initiator::{InitiatorSession, InitiatorState};
use scils::responder::ResponderSession;
use scils::types::{
    station_id, Brightness, CheckResult, Content, MainAspect, ProtocolFault, Telegram,
};
use scils::version::{check_checksum, check_version, compute_checksum};

fn new_initiator_hs() -> InitiatorSession {
    InitiatorSession::new(3, station_id(b"C"), station_id(b"S"))
}

#[test]
fn version_check_compares_versions() {
    assert_eq!(check_version(3, 3), CheckResult::VersionsMatch);
    assert_eq!(check_version(3, 2), CheckResult::VersionsMismatch);
    assert_eq!(check_version(2, 3), CheckResult::VersionsMismatch);
}

#[test]
fn checksums_of_identical_fields_agree() {
    let sender = station_id(b"S");
    let receiver = station_id(b"C");
    let first = compute_checksum(&sender, &receiver, 3, CheckResult::VersionsMatch);
    let second = compute_checksum(&sender, &receiver, 3, CheckResult::VersionsMatch);
    assert_eq!(first, second);
    assert_eq!(first.len(), 16);
}

#[test]
fn checksums_differ_when_fields_differ() {
    let sender = station_id(b"S");
    let receiver = station_id(b"C");
    let base = compute_checksum(&sender, &receiver, 3, CheckResult::VersionsMatch);
    let other_version = compute_checksum(&sender, &receiver, 2, CheckResult::VersionsMatch);
    let other_result = compute_checksum(&sender, &receiver, 3, CheckResult::VersionsMismatch);
    assert_ne!(base, other_version);
    assert_ne!(base, other_result);
}

#[test]
fn flipping_any_checksum_byte_fails_verification() {
    let sender = station_id(b"S");
    let receiver = station_id(b"C");
    let checksum = compute_checksum(&sender, &receiver, 3, CheckResult::VersionsMatch);
    let telegram = Telegram {
        sender: sender.clone(),
        receiver: receiver.clone(),
        content: Content::VersionResponse {
            result: CheckResult::VersionsMatch,
            version: 3,
            checksum: checksum.clone(),
        },
    };
    assert!(check_checksum(&telegram, &checksum, 3, CheckResult::VersionsMatch));
    for i in 0..checksum.len() {
        let mut tampered = checksum.clone();
        tampered[i] ^= 0x01;
        assert!(!check_checksum(&telegram, &tampered, 3, CheckResult::VersionsMatch));
    }
    assert!(!check_checksum(&telegram, &Vec::new(), 3, CheckResult::VersionsMatch));
}

#[test]
fn matching_versions_connect_with_confirmed_status() {
    let mut initiator = new_initiator_hs();
    let mut responder = ResponderSession::new(3, false);

    let request = initiator.initial_version_request();
    let request = decode(&encode(&request)).unwrap();
    let answer = responder.handle_telegram(&request);
    assert_eq!(answer.replies.len(), 1);
    assert!(answer.fault.is_none());
    match &answer.replies[0].content {
        Content::VersionResponse { result, version, checksum } => {
            assert_eq!(*result, CheckResult::VersionsMatch);
            assert_eq!(*version, 3);
            assert_eq!(checksum.len(), 16);
        }
        other => panic!("expected a version response, got {:?}", other),
    }

    let response = decode(&encode(&answer.replies[0])).unwrap();
    let verified = initiator.handle_telegram(&response);
    assert!(verified.fault.is_none());
    assert_eq!(initiator.conn, InitiatorState::StatusRequestSent);
    let status_request = verified.reply.expect("a status request follows a verified response");
    assert_eq!(status_request.content, Content::StatusRequest);

    let status_request = decode(&encode(&status_request)).unwrap();
    let burst = responder.handle_telegram(&status_request);
    assert_eq!(burst.replies.len(), 4);
    assert_eq!(burst.replies[0].content, Content::StatusBegin);
    assert!(matches!(burst.replies[1].content, Content::SignalAspectStatus { .. }));
    assert!(matches!(burst.replies[2].content, Content::BrightnessStatus { .. }));
    assert_eq!(burst.replies[3].content, Content::StatusFinish);

    for telegram in &burst.replies {
        let telegram = decode(&encode(telegram)).unwrap();
        let out = initiator.handle_telegram(&telegram);
        assert!(out.reply.is_none());
        assert!(out.fault.is_none());
    }
    assert_eq!(initiator.conn, InitiatorState::Connected);
    assert_eq!(initiator.confirmed_aspect.as_ref().unwrap().main, MainAspect::Ks2);
    assert_eq!(initiator.confirmed_brightness, Some(Brightness::Day));
}

#[test]
fn mismatching_versions_terminate_with_release() {
    let mut initiator = new_initiator_hs();
    let mut responder = ResponderSession::new(2, false);

    let request = initiator.initial_version_request();
    let answer = responder.handle_telegram(&request);
    assert_eq!(answer.replies.len(), 1);
    match &answer.replies[0].content {
        Content::VersionResponse { result, version, checksum } => {
            assert_eq!(*result, CheckResult::VersionsMismatch);
            assert_eq!(*version, 2);
            assert_eq!(checksum.len(), 0);
        }
        other => panic!("expected a version response, got {:?}", other),
    }

    let response = decode(&encode(&answer.replies[0])).unwrap();
    let out = initiator.handle_telegram(&response);
    assert_eq!(initiator.conn, InitiatorState::Terminated);
    assert_eq!(out.fault, Some(ProtocolFault::VersionMismatch));
    let reply = out.reply.expect("the initiator answers with release for maintenance");
    assert_eq!(reply.content, Content::ReleaseForMaintenance);
}

#[test]
fn forged_checksum_terminates_handshake() {
    let mut initiator = new_initiator_hs();
    let forged = Telegram {
        sender: station_id(b"S"),
        receiver: station_id(b"C"),
        content: Content::VersionResponse {
            result: CheckResult::VersionsMatch,
            version: 3,
            checksum: vec![0xAB; 16],
        },
    };
    let out = initiator.handle_telegram(&forged);
    assert_eq!(initiator.conn, InitiatorState::Terminated);
    assert_eq!(out.fault, Some(ProtocolFault::VersionMismatch));
    assert_eq!(out.reply.unwrap().content, Content::ReleaseForMaintenance);
}
