//! Initiator (interlocking) side of a session: drives the version
//! handshake, consumes the status burst, tracks the confirmed status once
//! connected, and tears the session down on any telegram that is not the
//! one expected in the current state.

use vstd::prelude::*;
use crate::types::{
    option_view, spec_reply, reply_telegram, Brightness, CheckResult, Content, ContentView,
    ProtocolFault, SignalAspect, SignalAspectView, Telegram, TelegramView, STATION_ID_LEN,
};
use crate::version::{check_checksum, spec_version_checksum};

verus! {

/// Connection state of the initiator role.
#[derive(Clone, Copy, PartialEq, Eq, Structural, Debug)]
pub enum InitiatorState {
    /// Version request sent, awaiting the version response.
    VersionRequestSent,
    /// Version response verified, status request sent.
    StatusRequestSent,
    /// Status begin received, awaiting the signal aspect status.
    StatusBeginReceived,
    /// Signal aspect status received, awaiting the brightness status.
    SignalAspectReceived,
    /// Brightness status received, awaiting status finish.
    BrightnessReceived,
    /// Handshake and status exchange completed.
    Connected,
    /// Session ended; no further transition occurs.
    Terminated,
}

/// Initiator side of one session.
pub struct InitiatorSession {
    /// Protocol version this side speaks.
    pub version: u8,
    /// Wire identifier of this station.
    pub local_id: Vec<u8>,
    /// Wire identifier of the peer station.
    pub peer_id: Vec<u8>,
    /// Connection state.
    pub conn: InitiatorState,
    /// Last signal aspect the peer confirmed.
    pub confirmed_aspect: Option<SignalAspect>,
    /// Last brightness the peer confirmed.
    pub confirmed_brightness: Option<Brightness>,
}

/// Mathematical image of an `InitiatorSession`.
pub struct InitiatorView {
    pub version: u8,
    pub local_id: Seq<u8>,
    pub peer_id: Seq<u8>,
    pub conn: InitiatorState,
    pub confirmed_aspect: Option<SignalAspectView>,
    pub confirmed_brightness: Option<Brightness>,
}

impl View for InitiatorSession {
    type V = InitiatorView;

    open spec fn view(&self) -> InitiatorView {
        InitiatorView {
            version: self.version,
            local_id: self.local_id@,
            peer_id: self.peer_id@,
            conn: self.conn,
            confirmed_aspect: option_view(self.confirmed_aspect),
            confirmed_brightness: self.confirmed_brightness,
        }
    }
}

impl InitiatorView {
    /// Session invariant: fixed-width identifiers, and a confirmed status
    /// at least as far as the status exchange has progressed.
    pub open spec fn wf(self) -> bool {
        &&& self.local_id.len() == STATION_ID_LEN
        &&& self.peer_id.len() == STATION_ID_LEN
        &&& (match self.confirmed_aspect {
            Some(a) => a.wf(),
            None => true,
        })
        &&& ((self.conn == InitiatorState::SignalAspectReceived || self.conn
            == InitiatorState::BrightnessReceived || self.conn == InitiatorState::Connected)
            ==> self.confirmed_aspect is Some)
        &&& ((self.conn == InitiatorState::BrightnessReceived || self.conn
            == InitiatorState::Connected) ==> self.confirmed_brightness is Some)
    }
}

/// Whether a telegram of this content is the one the initiator expects in
/// the given state.
pub open spec fn spec_expected(conn: InitiatorState, c: ContentView) -> bool {
    match c {
        ContentView::VersionResponse { .. } => conn == InitiatorState::VersionRequestSent,
        ContentView::StatusBegin => conn == InitiatorState::StatusRequestSent,
        ContentView::SignalAspectStatus { .. } => conn == InitiatorState::StatusBeginReceived
            || conn == InitiatorState::Connected,
        ContentView::BrightnessStatus { .. } => conn == InitiatorState::SignalAspectReceived
            || conn == InitiatorState::Connected,
        ContentView::StatusFinish => conn == InitiatorState::BrightnessReceived,
        _ => false,
    }
}

/// One step of the initiator machine on a received telegram: the next
/// session state, the reply it emits, and the fault it logs.
pub open spec fn spec_handle(s: InitiatorView, t: TelegramView) -> (
    InitiatorView,
    Option<TelegramView>,
    Option<ProtocolFault>,
) {
    if s.conn == InitiatorState::Terminated {
        (s, None, None)
    } else if !spec_expected(s.conn, t.content) {
        (
            InitiatorView { conn: InitiatorState::Terminated, ..s },
            Some(spec_reply(t, ContentView::ReleaseForMaintenance)),
            Some(ProtocolFault::ProtocolSequenceError),
        )
    } else {
        match t.content {
            ContentView::VersionResponse { result, version, checksum } => {
                if result == CheckResult::VersionsMatch && version == s.version && checksum
                    == spec_version_checksum(t.sender, t.receiver, version, result) {
                    (
                        InitiatorView { conn: InitiatorState::StatusRequestSent, ..s },
                        Some(spec_reply(t, ContentView::StatusRequest)),
                        None,
                    )
                } else {
                    (
                        InitiatorView { conn: InitiatorState::Terminated, ..s },
                        Some(spec_reply(t, ContentView::ReleaseForMaintenance)),
                        Some(ProtocolFault::VersionMismatch),
                    )
                }
            },
            ContentView::StatusBegin => (
                InitiatorView { conn: InitiatorState::StatusBeginReceived, ..s },
                None,
                None,
            ),
            ContentView::SignalAspectStatus { aspect } => (
                InitiatorView {
                    conn: if s.conn == InitiatorState::StatusBeginReceived {
                        InitiatorState::SignalAspectReceived
                    } else {
                        s.conn
                    },
                    confirmed_aspect: Some(aspect),
                    ..s
                },
                None,
                None,
            ),
            ContentView::BrightnessStatus { brightness } => (
                InitiatorView {
                    conn: if s.conn == InitiatorState::SignalAspectReceived {
                        InitiatorState::BrightnessReceived
                    } else {
                        s.conn
                    },
                    confirmed_brightness: Some(brightness),
                    ..s
                },
                None,
                None,
            ),
            ContentView::StatusFinish => (
                InitiatorView { conn: InitiatorState::Connected, ..s },
                None,
                None,
            ),
            _ => (s, None, None),
        }
    }
}

/// What a session reports after handling one event: at most one reply to
/// transmit and the fault to log, if any.
pub struct InitiatorOutput {
    pub reply: Option<Telegram>,
    pub fault: Option<ProtocolFault>,
}

/// Whether a telegram of this content is the one expected in the given
/// state.
pub fn is_expected(conn: InitiatorState, c: &Content) -> (r: bool)
    ensures
        r == spec_expected(conn, c@),
{
    match c {
        Content::VersionResponse { .. } => conn == InitiatorState::VersionRequestSent,
        Content::StatusBegin => conn == InitiatorState::StatusRequestSent,
        Content::SignalAspectStatus { .. } => conn == InitiatorState::StatusBeginReceived || conn
            == InitiatorState::Connected,
        Content::BrightnessStatus { .. } => conn == InitiatorState::SignalAspectReceived || conn
            == InitiatorState::Connected,
        Content::StatusFinish => conn == InitiatorState::BrightnessReceived,
        _ => false,
    }
}

impl InitiatorSession {
    pub open spec fn wf(self) -> bool {
        self@.wf()
    }

    /// Opens a session in `VersionRequestSent`, as the initiator begins
    /// by sending a version request.
    pub fn new(version: u8, local_id: Vec<u8>, peer_id: Vec<u8>) -> (s: Self)
        requires
            local_id@.len() == STATION_ID_LEN,
            peer_id@.len() == STATION_ID_LEN,
        ensures
            s@ == (InitiatorView {
                version,
                local_id: local_id@,
                peer_id: peer_id@,
                conn: InitiatorState::VersionRequestSent,
                confirmed_aspect: None,
                confirmed_brightness: None,
            }),
            s.wf(),
    {
        InitiatorSession {
            version,
            local_id,
            peer_id,
            conn: InitiatorState::VersionRequestSent,
            confirmed_aspect: None,
            confirmed_brightness: None,
        }
    }

    /// The version request that opens the handshake.
    pub fn initial_version_request(&self) -> (r: Telegram)
        requires
            self.wf(),
        ensures
            r@ == (TelegramView {
                sender: self@.local_id,
                receiver: self@.peer_id,
                content: ContentView::VersionRequest { version: self.version },
            }),
            r.wf(),
    {
        Telegram {
            sender: crate::types::copy_bytes(&self.local_id),
            receiver: crate::types::copy_bytes(&self.peer_id),
            content: Content::VersionRequest { version: self.version },
        }
    }

    /// Handles one received telegram: advances the connection state,
    /// updates the confirmed status, and returns the reply to transmit
    /// and the fault to log, exactly as `spec_handle` states.
    pub fn handle_telegram(&mut self, t: &Telegram) -> (out: InitiatorOutput)
        requires
            old(self).wf(),
            t.wf(),
        ensures
            final(self).wf(),
            final(self)@ == spec_handle(old(self)@, t@).0,
            option_view(out.reply) == spec_handle(old(self)@, t@).1,
            out.fault == spec_handle(old(self)@, t@).2,
            (out.reply matches Some(r) ==> r.wf()),
    {
        if self.conn == InitiatorState::Terminated {
            return InitiatorOutput { reply: None, fault: None };
        }
        if !is_expected(self.conn, &t.content) {
            self.conn = InitiatorState::Terminated;
            let reply = reply_telegram(t, Content::ReleaseForMaintenance);
            return InitiatorOutput {
                reply: Some(reply),
                fault: Some(ProtocolFault::ProtocolSequenceError),
            };
        }
        match &t.content {
            Content::VersionResponse { result, version, checksum } => {
                let accepted = *result == CheckResult::VersionsMatch && *version == self.version
                    && check_checksum(t, checksum, *version, *result);
                if accepted {
                    self.conn = InitiatorState::StatusRequestSent;
                    let reply = reply_telegram(t, Content::StatusRequest);
                    InitiatorOutput { reply: Some(reply), fault: None }
                } else {
                    self.conn = InitiatorState::Terminated;
                    let reply = reply_telegram(t, Content::ReleaseForMaintenance);
                    InitiatorOutput {
                        reply: Some(reply),
                        fault: Some(ProtocolFault::VersionMismatch),
                    }
                }
            },
            Content::StatusBegin => {
                self.conn = InitiatorState::StatusBeginReceived;
                InitiatorOutput { reply: None, fault: None }
            },
            Content::SignalAspectStatus { aspect } => {
                if self.conn == InitiatorState::StatusBeginReceived {
                    self.conn = InitiatorState::SignalAspectReceived;
                }
                self.confirmed_aspect = Some(aspect.duplicate());
                InitiatorOutput { reply: None, fault: None }
            },
            Content::BrightnessStatus { brightness } => {
                if self.conn == InitiatorState::SignalAspectReceived {
                    self.conn = InitiatorState::BrightnessReceived;
                }
                self.confirmed_brightness = Some(*brightness);
                InitiatorOutput { reply: None, fault: None }
            },
            Content::StatusFinish => {
                self.conn = InitiatorState::Connected;
                InitiatorOutput { reply: None, fault: None }
            },
            _ => {
                proof {
                    assert(false);
                }
                InitiatorOutput { reply: None, fault: None }
            },
        }
    }

    /// The transport ended: the session terminates.
    pub fn on_transport_end(&mut self) -> (fault: Option<ProtocolFault>)
        ensures
            final(self)@ == (InitiatorView { conn: InitiatorState::Terminated, ..old(self)@ }),
            fault == (if old(self).conn == InitiatorState::Terminated {
                None::<ProtocolFault>
            } else {
                Some(ProtocolFault::TransportFailure)
            }),
    {
        if self.conn == InitiatorState::Terminated {
            None
        } else {
            self.conn = InitiatorState::Terminated;
            Some(ProtocolFault::TransportFailure)
        }
    }

    /// A received message did not decode: fail-stop, the session
    /// terminates without a reply.
    pub fn on_malformed(&mut self) -> (fault: Option<ProtocolFault>)
        ensures
            final(self)@ == (InitiatorView { conn: InitiatorState::Terminated, ..old(self)@ }),
            fault == (if old(self).conn == InitiatorState::Terminated {
                None::<ProtocolFault>
            } else {
                Some(ProtocolFault::MalformedTelegram)
            }),
    {
        if self.conn == InitiatorState::Terminated {
            None
        } else {
            self.conn = InitiatorState::Terminated;
            Some(ProtocolFault::MalformedTelegram)
        }
    }
}

/// State of the initiator machine after the first `k` telegrams of a
/// feed.
pub open spec fn spec_state_at(s: InitiatorView, feed: Seq<TelegramView>, k: int) -> InitiatorView
    decreases k,
{
    if k <= 0 {
        s
    } else {
        spec_handle(spec_state_at(s, feed, k - 1), feed[k - 1]).0
    }
}

/// Once Terminated, a received telegram changes nothing and draws no
/// reply.
pub proof fn lemma_terminated_absorbing(s: InitiatorView, t: TelegramView)
    requires
        s.conn == InitiatorState::Terminated,
    ensures
        spec_handle(s, t).0 == s,
        spec_handle(s, t).1 is None,
{
}

proof fn lemma_terminated_forward(s: InitiatorView, feed: Seq<TelegramView>, a: int, b: int)
    requires
        0 <= a <= b,
        spec_state_at(s, feed, a).conn == InitiatorState::Terminated,
    ensures
        spec_state_at(s, feed, b) == spec_state_at(s, feed, a),
    decreases b - a,
{
    if a < b {
        lemma_terminated_forward(s, feed, a, b - 1);
    }
}

/// For any feed of telegrams into a live initiator, a telegram whose
/// type is not the one expected in the current state drives the machine
/// to Terminated with a release-for-maintenance reply and a
/// sequence-error fault, leaving the confirmed status untouched, and
/// afterwards no further transition occurs and no reply is emitted.
pub proof fn lemma_first_violation_terminates(s: InitiatorView, feed: Seq<TelegramView>, i: int)
    requires
        0 <= i < feed.len(),
        spec_state_at(s, feed, i).conn != InitiatorState::Terminated,
        !spec_expected(spec_state_at(s, feed, i).conn, feed[i].content),
    ensures
        spec_state_at(s, feed, i + 1) == (InitiatorView {
            conn: InitiatorState::Terminated,
            ..spec_state_at(s, feed, i)
        }),
        spec_handle(spec_state_at(s, feed, i), feed[i]).1 == Some(
            spec_reply(feed[i], ContentView::ReleaseForMaintenance),
        ),
        spec_handle(spec_state_at(s, feed, i), feed[i]).2 == Some(
            ProtocolFault::ProtocolSequenceError,
        ),
        spec_state_at(s, feed, i + 1).conn == InitiatorState::Terminated,
        forall|k: int| i < k ==> #[trigger] spec_state_at(s, feed, k).conn
            == InitiatorState::Terminated,
        forall|k: int| i < k < feed.len() ==> spec_handle(
            #[trigger] spec_state_at(s, feed, k),
            feed[k],
        ).1 is None && spec_handle(spec_state_at(s, feed, k), feed[k]).0 == spec_state_at(
            s,
            feed,
            k,
        ),
{
    assert(spec_state_at(s, feed, i + 1).conn == InitiatorState::Terminated);
    assert forall|k: int| i < k implies #[trigger] spec_state_at(s, feed, k).conn
        == InitiatorState::Terminated by {
        lemma_terminated_forward(s, feed, i + 1, k);
    }
}

} // verus!
