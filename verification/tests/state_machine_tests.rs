use scils::initiator::{InitiatorSession, InitiatorState};
use scils::responder::{Action, ResponderSession, ResponderState};
use scils::types::{
    station_id, Brightness, Content, MainAspect, ProtocolFault, SignalAspect, Telegram,
};

fn new_initiator_sm() -> InitiatorSession {
    InitiatorSession::new(3, station_id(b"C"), station_id(b"S"))
}

fn from_peer_sm(content: Content) -> Telegram {
    Telegram {
        sender: station_id(b"S"),
        receiver: station_id(b"C"),
        content,
    }
}

#[test]
fn unexpected_telegram_terminates_initiator() {
    let mut initiator = new_initiator_sm();
    let out = initiator.handle_telegram(&from_peer_sm(Content::StatusFinish));
    assert_eq!(initiator.conn, InitiatorState::Terminated);
    assert_eq!(out.fault, Some(ProtocolFault::ProtocolSequenceError));
    assert_eq!(out.reply.unwrap().content, Content::ReleaseForMaintenance);
}

#[test]
fn terminated_initiator_stays_terminated() {
    let mut initiator = new_initiator_sm();
    initiator.handle_telegram(&from_peer_sm(Content::StatusBegin));
    assert_eq!(initiator.conn, InitiatorState::Terminated);
    let followers = [
        Content::StatusBegin,
        Content::StatusFinish,
        Content::VersionRequest { version: 3 },
        Content::SignalAspectStatus {
            aspect: SignalAspect { main: MainAspect::Ks1, reserved: vec![0; 9] },
        },
    ];
    for content in followers {
        let out = initiator.handle_telegram(&from_peer_sm(content));
        assert!(out.reply.is_none());
        assert!(out.fault.is_none());
        assert_eq!(initiator.conn, InitiatorState::Terminated);
    }
}

#[test]
fn unsolicited_status_updates_accepted_when_connected() {
    let mut initiator = new_initiator_sm();
    initiator.conn = InitiatorState::Connected;
    initiator.confirmed_aspect = Some(SignalAspect { main: MainAspect::Ks2, reserved: vec![0; 9] });
    initiator.confirmed_brightness = Some(Brightness::Day);
    let out = initiator.handle_telegram(&from_peer_sm(Content::SignalAspectStatus {
        aspect: SignalAspect { main: MainAspect::Ks1, reserved: vec![0; 9] },
    }));
    assert!(out.reply.is_none());
    assert!(out.fault.is_none());
    assert_eq!(initiator.conn, InitiatorState::Connected);
    assert_eq!(initiator.confirmed_aspect.as_ref().unwrap().main, MainAspect::Ks1);
    let out = initiator.handle_telegram(&from_peer_sm(Content::BrightnessStatus {
        brightness: Brightness::Night,
    }));
    assert!(out.reply.is_none());
    assert_eq!(initiator.conn, InitiatorState::Connected);
    assert_eq!(initiator.confirmed_brightness, Some(Brightness::Night));
}

#[test]
fn initiator_transport_end_terminates() {
    let mut initiator = new_initiator_sm();
    let fault = initiator.on_transport_end();
    assert_eq!(fault, Some(ProtocolFault::TransportFailure));
    assert_eq!(initiator.conn, InitiatorState::Terminated);
    assert_eq!(initiator.on_transport_end(), None);
}

#[test]
fn initiator_malformed_terminates() {
    let mut initiator = new_initiator_sm();
    let fault = initiator.on_malformed();
    assert_eq!(fault, Some(ProtocolFault::MalformedTelegram));
    assert_eq!(initiator.conn, InitiatorState::Terminated);
}

fn from_interlocking_sm(content: Content) -> Telegram {
    Telegram {
        sender: station_id(b"C"),
        receiver: station_id(b"S"),
        content,
    }
}

#[test]
fn show_signal_aspect_drives_actuator_and_replies() {
    let mut responder = ResponderSession::new(3, false);
    let aspect = SignalAspect { main: MainAspect::Ks1, reserved: vec![0; 9] };
    let out = responder.handle_telegram(&from_interlocking_sm(Content::ShowSignalAspect {
        aspect: aspect.clone(),
    }));
    assert_eq!(responder.current_main, MainAspect::Ks1);
    assert_eq!(out.actions, vec![Action::SetAspect(aspect)]);
    assert_eq!(out.replies.len(), 1);
    match &out.replies[0].content {
        Content::SignalAspectStatus { aspect } => {
            assert_eq!(aspect.main, MainAspect::Ks1);
            assert_eq!(aspect.reserved, vec![0; 9]);
        }
        other => panic!("expected a signal aspect status, got {:?}", other),
    }
    // the reply goes back to the commanding station
    assert_eq!(out.replies[0].sender, station_id(b"S"));
    assert_eq!(out.replies[0].receiver, station_id(b"C"));
}

#[test]
fn change_brightness_unsupported_is_nonfatal() {
    let mut responder = ResponderSession::new(3, false);
    let before = responder;
    let out = responder.handle_telegram(&from_interlocking_sm(Content::ChangeBrightness {
        brightness: Brightness::Night,
    }));
    assert_eq!(out.fault, Some(ProtocolFault::UnsupportedCommand));
    assert!(out.replies.is_empty());
    assert!(out.actions.is_empty());
    assert_eq!(responder, before);
}

#[test]
fn change_brightness_supported_drives_actuator() {
    let mut responder = ResponderSession::new(3, true);
    let out = responder.handle_telegram(&from_interlocking_sm(Content::ChangeBrightness {
        brightness: Brightness::Night,
    }));
    assert!(out.fault.is_none());
    assert_eq!(responder.current_brightness, Brightness::Night);
    assert_eq!(out.actions, vec![Action::SetBrightness(Brightness::Night)]);
    assert_eq!(out.replies.len(), 1);
    assert_eq!(
        out.replies[0].content,
        Content::BrightnessStatus { brightness: Brightness::Night }
    );
}

#[test]
fn unrecognized_telegram_ignored_by_responder() {
    let mut responder = ResponderSession::new(3, false);
    let before = responder;
    let out = responder.handle_telegram(&from_interlocking_sm(Content::Unknown {
        type_hi: 0x7F,
        type_lo: 0x7F,
        payload: vec![1, 2],
    }));
    assert_eq!(out.fault, Some(ProtocolFault::UnrecognizedMessage));
    assert!(out.replies.is_empty());
    assert!(out.actions.is_empty());
    assert_eq!(responder, before);
}

#[test]
fn release_for_maintenance_fails_safe() {
    let mut responder = ResponderSession::new(3, false);
    responder.conn = ResponderState::Connected;
    responder.current_main = MainAspect::Ks1;
    let out = responder.handle_telegram(&from_interlocking_sm(Content::ReleaseForMaintenance));
    assert_eq!(responder.conn, ResponderState::Terminated);
    assert!(out.replies.is_empty());
    assert_eq!(out.actions.len(), 1);
    match &out.actions[0] {
        Action::SetAspect(aspect) => assert_eq!(aspect.main, MainAspect::Ks2),
        other => panic!("expected the fail-safe aspect, got {:?}", other),
    }
}

#[test]
fn transport_end_while_connected_fails_safe_before_exit() {
    let mut responder = ResponderSession::new(3, false);
    responder.conn = ResponderState::Connected;
    responder.current_main = MainAspect::Ks2;
    let out = responder.on_transport_end();
    assert_eq!(responder.conn, ResponderState::Terminated);
    assert_eq!(out.fault, Some(ProtocolFault::TransportFailure));
    assert_eq!(out.actions.len(), 1);
    match &out.actions[0] {
        Action::SetAspect(aspect) => assert_eq!(aspect.main, MainAspect::Ks2),
        other => panic!("expected the fail-safe aspect, got {:?}", other),
    }
    // and only once: a second end-of-stream commands nothing further
    let again = responder.on_transport_end();
    assert!(again.actions.is_empty());
    assert!(again.fault.is_none());
}

#[test]
fn malformed_input_fails_safe_on_responder() {
    let mut responder = ResponderSession::new(3, false);
    responder.conn = ResponderState::Connected;
    let out = responder.on_malformed();
    assert_eq!(responder.conn, ResponderState::Terminated);
    assert_eq!(out.fault, Some(ProtocolFault::MalformedTelegram));
    assert_eq!(out.actions.len(), 1);
}

#[test]
fn terminated_responder_ignores_everything() {
    let mut responder = ResponderSession::new(3, false);
    responder.conn = ResponderState::Terminated;
    let out = responder.handle_telegram(&from_interlocking_sm(Content::StatusRequest));
    assert!(out.replies.is_empty());
    assert!(out.actions.is_empty());
    assert!(out.fault.is_none());
    assert_eq!(responder.conn, ResponderState::Terminated);
}
