use scils::initiator::{InitiatorSession, InitiatorState};
use scils::queue::{CommandScheduler, OutgoingQueue};
use scils::types::{station_id, Brightness, Content, MainAspect, SignalAspect};

fn connected_session_sched() -> InitiatorSession {
    let mut session = InitiatorSession::new(3, station_id(b"C"), station_id(b"S"));
    session.conn = InitiatorState::Connected;
    session.confirmed_aspect = Some(SignalAspect { main: MainAspect::Off, reserved: vec![0; 9] });
    session.confirmed_brightness = Some(Brightness::Day);
    session
}

#[test]
fn issuing_same_aspect_twice_enqueues_once() {
    let session = connected_session_sched();
    let mut scheduler = CommandScheduler::new();
    let mut queue = OutgoingQueue::new();
    scheduler.set_desired_aspect(MainAspect::Ks1);
    scheduler.set_desired_aspect(MainAspect::Ks1);
    scheduler.tick(&session, &mut queue);
    assert_eq!(queue.len(), 1);
    scheduler.tick(&session, &mut queue);
    assert_eq!(queue.len(), 1);
    let telegram = queue.pop().unwrap();
    match telegram.content {
        Content::ShowSignalAspect { aspect } => assert_eq!(aspect.main, MainAspect::Ks1),
        other => panic!("expected a show signal aspect telegram, got {:?}", other),
    }
    assert!(queue.pop().is_none());
}

#[test]
fn desired_aspect_equal_to_confirmed_sends_nothing() {
    let session = connected_session_sched();
    let mut scheduler = CommandScheduler::new();
    let mut queue = OutgoingQueue::new();
    scheduler.set_desired_aspect(MainAspect::Off);
    scheduler.tick(&session, &mut queue);
    assert_eq!(queue.len(), 0);
    assert_eq!(scheduler.desired_aspect, None);
}

#[test]
fn tick_outside_connected_keeps_desired_pending() {
    let mut session = connected_session_sched();
    session.conn = InitiatorState::VersionRequestSent;
    session.confirmed_aspect = None;
    session.confirmed_brightness = None;
    let mut scheduler = CommandScheduler::new();
    let mut queue = OutgoingQueue::new();
    scheduler.set_desired_aspect(MainAspect::Ks1);
    scheduler.tick(&session, &mut queue);
    assert_eq!(queue.len(), 0);
    assert_eq!(scheduler.desired_aspect, Some(MainAspect::Ks1));
}

#[test]
fn last_issued_aspect_wins() {
    let session = connected_session_sched();
    let mut scheduler = CommandScheduler::new();
    let mut queue = OutgoingQueue::new();
    scheduler.set_desired_aspect(MainAspect::Ks1);
    scheduler.set_desired_aspect(MainAspect::Ks2);
    scheduler.tick(&session, &mut queue);
    assert_eq!(queue.len(), 1);
    match queue.pop().unwrap().content {
        Content::ShowSignalAspect { aspect } => assert_eq!(aspect.main, MainAspect::Ks2),
        other => panic!("expected a show signal aspect telegram, got {:?}", other),
    }
}

#[test]
fn brightness_command_travels_independently() {
    let session = connected_session_sched();
    let mut scheduler = CommandScheduler::new();
    let mut queue = OutgoingQueue::new();
    scheduler.set_desired_aspect(MainAspect::Ks1);
    scheduler.set_desired_brightness(Brightness::Night);
    scheduler.tick(&session, &mut queue);
    assert_eq!(queue.len(), 2);
    let first = queue.pop().unwrap();
    assert!(matches!(first.content, Content::ShowSignalAspect { .. }));
    let second = queue.pop().unwrap();
    assert_eq!(second.content, Content::ChangeBrightness { brightness: Brightness::Night });
}

#[test]
fn desired_brightness_equal_to_confirmed_sends_nothing() {
    let session = connected_session_sched();
    let mut scheduler = CommandScheduler::new();
    let mut queue = OutgoingQueue::new();
    scheduler.set_desired_brightness(Brightness::Day);
    scheduler.tick(&session, &mut queue);
    assert_eq!(queue.len(), 0);
}

#[test]
fn outgoing_queue_is_fifo() {
    let mut queue = OutgoingQueue::new();
    let first = InitiatorSession::new(3, station_id(b"C"), station_id(b"S"))
        .initial_version_request();
    let second = scils::types::Telegram {
        sender: station_id(b"C"),
        receiver: station_id(b"S"),
        content: Content::StatusRequest,
    };
    queue.push(first.clone());
    queue.push(second.clone());
    assert_eq!(queue.len(), 2);
    assert_eq!(queue.pop().unwrap(), first);
    assert_eq!(queue.pop().unwrap(), second);
    assert!(queue.pop().is_none());
}
