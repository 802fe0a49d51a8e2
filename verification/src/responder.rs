//! Responder (object-controller) side of a session: answers version and
//! status requests, executes commands by driving the actuator, and
//! commands the fail-safe aspect when the session ends.

use vstd::prelude::*;
use crate::types::{
    most_restrictive_main, reply_telegram, seq_view, spec_reply, spec_status_aspect, Brightness,
    CheckResult, Content, ContentView, MainAspect, ProtocolFault, SignalAspect, SignalAspectView,
    Telegram, TelegramView,
};
use crate::version::{check_version, compute_checksum, spec_check_version, spec_version_checksum};

verus! {

/// Connection state of the responder role.
#[derive(Clone, Copy, PartialEq, Eq, Structural, Debug)]
pub enum ResponderState {
    /// No handshake seen yet.
    Unconnected,
    /// Version request answered, awaiting the status request.
    VersionResponseSent,
    /// Status burst sent; commands are served.
    Connected,
    /// Session ended; no further transition occurs.
    Terminated,
}

/// A command the responder issues to the actuator.
#[derive(Clone, PartialEq, Eq, Debug)]
pub enum Action {
    SetAspect(SignalAspect),
    SetBrightness(Brightness),
}

/// Mathematical image of an `Action`.
pub enum ActionView {
    SetAspect(SignalAspectView),
    SetBrightness(Brightness),
}

impl View for Action {
    type V = ActionView;

    open spec fn view(&self) -> ActionView {
        match self {
            Action::SetAspect(a) => ActionView::SetAspect(a@),
            Action::SetBrightness(b) => ActionView::SetBrightness(*b),
        }
    }
}

/// Responder side of one session.  The current aspect and brightness
/// mirror what the actuator was last commanded to show and are reported
/// in status telegrams.
#[derive(Clone, Copy, PartialEq, Eq, Structural, Debug)]
pub struct ResponderSession {
    /// Protocol version this side speaks.
    pub version: u8,
    /// Whether this controller variant has a brightness actuator.
    pub supports_brightness: bool,
    /// Connection state.
    pub conn: ResponderState,
    /// Main aspect currently shown.
    pub current_main: MainAspect,
    /// Brightness currently shown.
    pub current_brightness: Brightness,
}

/// What the responder emits for one event: replies to transmit in order,
/// actuator commands to perform, and the fault to log, if any.
pub struct ResponderOutput {
    pub replies: Vec<Telegram>,
    pub actions: Vec<Action>,
    pub fault: Option<ProtocolFault>,
}

/// One step of the responder machine on a received telegram.  Commands
/// and requests are served in every live state; Terminated is absorbing,
/// and status telegrams or unknown types draw no reply and no transition.
pub open spec fn spec_handle_responder(s: ResponderSession, t: TelegramView) -> (
    ResponderSession,
    Seq<TelegramView>,
    Seq<ActionView>,
    Option<ProtocolFault>,
) {
    if s.conn == ResponderState::Terminated {
        (s, Seq::<TelegramView>::empty(), Seq::<ActionView>::empty(), None)
    } else {
        match t.content {
            ContentView::ShowSignalAspect { aspect } => (
                ResponderSession { current_main: aspect.main, ..s },
                seq![
                    spec_reply(
                        t,
                        ContentView::SignalAspectStatus { aspect: spec_status_aspect(aspect.main) },
                    ),
                ],
                seq![ActionView::SetAspect(aspect)],
                None,
            ),
            ContentView::ChangeBrightness { brightness } => {
                if s.supports_brightness {
                    (
                        ResponderSession { current_brightness: brightness, ..s },
                        seq![spec_reply(t, ContentView::BrightnessStatus { brightness })],
                        seq![ActionView::SetBrightness(brightness)],
                        None,
                    )
                } else {
                    (
                        s,
                        Seq::<TelegramView>::empty(),
                        Seq::<ActionView>::empty(),
                        Some(ProtocolFault::UnsupportedCommand),
                    )
                }
            },
            ContentView::VersionRequest { version } => {
                let result = spec_check_version(s.version, version);
                let checksum = if result == CheckResult::VersionsMatch {
                    spec_version_checksum(t.receiver, t.sender, s.version, result)
                } else {
                    Seq::<u8>::empty()
                };
                (
                    ResponderSession { conn: ResponderState::VersionResponseSent, ..s },
                    seq![
                        spec_reply(
                            t,
                            ContentView::VersionResponse {
                                result,
                                version: s.version,
                                checksum,
                            },
                        ),
                    ],
                    Seq::<ActionView>::empty(),
                    None,
                )
            },
            ContentView::StatusRequest => (
                ResponderSession { conn: ResponderState::Connected, ..s },
                seq![
                    spec_reply(t, ContentView::StatusBegin),
                    spec_reply(
                        t,
                        ContentView::SignalAspectStatus {
                            aspect: spec_status_aspect(s.current_main),
                        },
                    ),
                    spec_reply(
                        t,
                        ContentView::BrightnessStatus { brightness: s.current_brightness },
                    ),
                    spec_reply(t, ContentView::StatusFinish),
                ],
                Seq::<ActionView>::empty(),
                None,
            ),
            ContentView::ReleaseForMaintenance => (
                ResponderSession { conn: ResponderState::Terminated, ..s },
                Seq::<TelegramView>::empty(),
                seq![ActionView::SetAspect(spec_status_aspect(most_restrictive_main()))],
                None,
            ),
            ContentView::Close { .. } => (
                ResponderSession { conn: ResponderState::Terminated, ..s },
                Seq::<TelegramView>::empty(),
                seq![ActionView::SetAspect(spec_status_aspect(most_restrictive_main()))],
                None,
            ),
            _ => (
                s,
                Seq::<TelegramView>::empty(),
                Seq::<ActionView>::empty(),
                Some(ProtocolFault::UnrecognizedMessage),
            ),
        }
    }
}

/// The session has ended for a cause outside the telegram stream: the
/// actuator is driven to the fail-safe aspect, once.
pub open spec fn spec_fail_safe(s: ResponderSession) -> (ResponderSession, Seq<ActionView>) {
    if s.conn == ResponderState::Terminated {
        (s, Seq::<ActionView>::empty())
    } else {
        (
            ResponderSession { conn: ResponderState::Terminated, ..s },
            seq![ActionView::SetAspect(spec_status_aspect(most_restrictive_main()))],
        )
    }
}

impl ResponderSession {
    /// Opens a responder session that shows the fail-safe aspect, as the
    /// controller establishes its outputs before serving a session.
    pub fn new(version: u8, supports_brightness: bool) -> (s: Self)
        ensures
            s == (ResponderSession {
                version,
                supports_brightness,
                conn: ResponderState::Unconnected,
                current_main: most_restrictive_main(),
                current_brightness: Brightness::Day,
            }),
    {
        ResponderSession {
            version,
            supports_brightness,
            conn: ResponderState::Unconnected,
            current_main: MainAspect::Ks2,
            current_brightness: Brightness::Day,
        }
    }

    /// Handles one received telegram exactly as `spec_handle_responder`
    /// states: answers version and status requests, executes commands,
    /// terminates on release or close.
    pub fn handle_telegram(&mut self, t: &Telegram) -> (out: ResponderOutput)
        requires
            t.wf(),
        ensures
            *final(self) == spec_handle_responder(*old(self), t@).0,
            seq_view(out.replies@) == spec_handle_responder(*old(self), t@).1,
            seq_view(out.actions@) == spec_handle_responder(*old(self), t@).2,
            out.fault == spec_handle_responder(*old(self), t@).3,
            forall|i: int| 0 <= i < out.replies@.len() ==> (#[trigger] out.replies@[i]).wf(),
    {
        let ghost spec_out = spec_handle_responder(*self, t@);
        if self.conn == ResponderState::Terminated {
            let out = ResponderOutput { replies: Vec::new(), actions: Vec::new(), fault: None };
            proof {
                assert(seq_view(out.replies@) =~= spec_out.1);
                assert(seq_view(out.actions@) =~= spec_out.2);
            }
            return out;
        }
        match &t.content {
            Content::ShowSignalAspect { aspect } => {
                self.current_main = aspect.main;
                let mut replies: Vec<Telegram> = Vec::new();
                replies.push(
                    reply_telegram(
                        t,
                        Content::SignalAspectStatus { aspect: SignalAspect::from_main(aspect.main) },
                    ),
                );
                let mut actions: Vec<Action> = Vec::new();
                actions.push(Action::SetAspect(aspect.duplicate()));
                let out = ResponderOutput { replies, actions, fault: None };
                proof {
                    assert(seq_view(out.replies@) =~= spec_out.1);
                    assert(seq_view(out.actions@) =~= spec_out.2);
                }
                out
            },
            Content::ChangeBrightness { brightness } => {
                if self.supports_brightness {
                    self.current_brightness = *brightness;
                    let mut replies: Vec<Telegram> = Vec::new();
                    replies.push(
                        reply_telegram(t, Content::BrightnessStatus { brightness: *brightness }),
                    );
                    let mut actions: Vec<Action> = Vec::new();
                    actions.push(Action::SetBrightness(*brightness));
                    let out = ResponderOutput { replies, actions, fault: None };
                    proof {
                        assert(seq_view(out.replies@) =~= spec_out.1);
                        assert(seq_view(out.actions@) =~= spec_out.2);
                    }
                    out
                } else {
                    let out = ResponderOutput {
                        replies: Vec::new(),
                        actions: Vec::new(),
                        fault: Some(ProtocolFault::UnsupportedCommand),
                    };
                    proof {
                        assert(seq_view(out.replies@) =~= spec_out.1);
                        assert(seq_view(out.actions@) =~= spec_out.2);
                    }
                    out
                }
            },
            Content::VersionRequest { version } => {
                self.conn = ResponderState::VersionResponseSent;
                let result = check_version(self.version, *version);
                let checksum: Vec<u8> = if result == CheckResult::VersionsMatch {
                    compute_checksum(&t.receiver, &t.sender, self.version, result)
                } else {
                    Vec::new()
                };
                let mut replies: Vec<Telegram> = Vec::new();
                replies.push(
                    reply_telegram(
                        t,
                        Content::VersionResponse { result, version: self.version, checksum },
                    ),
                );
                let out = ResponderOutput { replies, actions: Vec::new(), fault: None };
                proof {
                    assert(seq_view(out.replies@) =~= spec_out.1);
                    assert(seq_view(out.actions@) =~= spec_out.2);
                }
                out
            },
            Content::StatusRequest => {
                self.conn = ResponderState::Connected;
                let mut replies: Vec<Telegram> = Vec::new();
                replies.push(reply_telegram(t, Content::StatusBegin));
                replies.push(
                    reply_telegram(
                        t,
                        Content::SignalAspectStatus {
                            aspect: SignalAspect::from_main(self.current_main),
                        },
                    ),
                );
                replies.push(
                    reply_telegram(
                        t,
                        Content::BrightnessStatus { brightness: self.current_brightness },
                    ),
                );
                replies.push(reply_telegram(t, Content::StatusFinish));
                let out = ResponderOutput { replies, actions: Vec::new(), fault: None };
                proof {
                    assert(seq_view(out.replies@) =~= spec_out.1);
                    assert(seq_view(out.actions@) =~= spec_out.2);
                }
                out
            },
            Content::ReleaseForMaintenance => {
                self.conn = ResponderState::Terminated;
                let mut actions: Vec<Action> = Vec::new();
                actions.push(Action::SetAspect(crate::types::most_restrictive_aspect()));
                let out = ResponderOutput { replies: Vec::new(), actions, fault: None };
                proof {
                    assert(seq_view(out.replies@) =~= spec_out.1);
                    assert(seq_view(out.actions@) =~= spec_out.2);
                }
                out
            },
            Content::Close { .. } => {
                self.conn = ResponderState::Terminated;
                let mut actions: Vec<Action> = Vec::new();
                actions.push(Action::SetAspect(crate::types::most_restrictive_aspect()));
                let out = ResponderOutput { replies: Vec::new(), actions, fault: None };
                proof {
                    assert(seq_view(out.replies@) =~= spec_out.1);
                    assert(seq_view(out.actions@) =~= spec_out.2);
                }
                out
            },
            _ => {
                let out = ResponderOutput {
                    replies: Vec::new(),
                    actions: Vec::new(),
                    fault: Some(ProtocolFault::UnrecognizedMessage),
                };
                proof {
                    assert(seq_view(out.replies@) =~= spec_out.1);
                    assert(seq_view(out.actions@) =~= spec_out.2);
                }
                out
            },
        }
    }

    /// The transport ended: the session terminates and, if it was still
    /// live, the actuator is commanded to the fail-safe aspect before
    /// anything else happens.
    pub fn on_transport_end(&mut self) -> (out: ResponderOutput)
        ensures
            *final(self) == spec_fail_safe(*old(self)).0,
            seq_view(out.actions@) == spec_fail_safe(*old(self)).1,
            out.replies@.len() == 0,
            out.fault == (if old(self).conn == ResponderState::Terminated {
                None::<ProtocolFault>
            } else {
                Some(ProtocolFault::TransportFailure)
            }),
    {
        if self.conn == ResponderState::Terminated {
            let out = ResponderOutput { replies: Vec::new(), actions: Vec::new(), fault: None };
            proof {
                assert(seq_view(out.actions@) =~= spec_fail_safe(*old(self)).1);
            }
            out
        } else {
            self.conn = ResponderState::Terminated;
            let mut actions: Vec<Action> = Vec::new();
            actions.push(Action::SetAspect(crate::types::most_restrictive_aspect()));
            let out = ResponderOutput {
                replies: Vec::new(),
                actions,
                fault: Some(ProtocolFault::TransportFailure),
            };
            proof {
                assert(seq_view(out.actions@) =~= spec_fail_safe(*old(self)).1);
            }
            out
        }
    }

    /// A received message did not decode: fail-stop, the session
    /// terminates and the actuator is commanded to the fail-safe aspect.
    pub fn on_malformed(&mut self) -> (out: ResponderOutput)
        ensures
            *final(self) == spec_fail_safe(*old(self)).0,
            seq_view(out.actions@) == spec_fail_safe(*old(self)).1,
            out.replies@.len() == 0,
            out.fault == (if old(self).conn == ResponderState::Terminated {
                None::<ProtocolFault>
            } else {
                Some(ProtocolFault::MalformedTelegram)
            }),
    {
        if self.conn == ResponderState::Terminated {
            let out = ResponderOutput { replies: Vec::new(), actions: Vec::new(), fault: None };
            proof {
                assert(seq_view(out.actions@) =~= spec_fail_safe(*old(self)).1);
            }
            out
        } else {
            self.conn = ResponderState::Terminated;
            let mut actions: Vec<Action> = Vec::new();
            actions.push(Action::SetAspect(crate::types::most_restrictive_aspect()));
            let out = ResponderOutput {
                replies: Vec::new(),
                actions,
                fault: Some(ProtocolFault::MalformedTelegram),
            };
            proof {
                assert(seq_view(out.actions@) =~= spec_fail_safe(*old(self)).1);
            }
            out
        }
    }
}

/// Once Terminated, a received telegram changes nothing, draws no reply
/// and commands the actuator no further: the fail-safe command of a
/// session is issued at most once.
pub proof fn lemma_responder_terminated_absorbing(s: ResponderSession, t: TelegramView)
    requires
        s.conn == ResponderState::Terminated,
    ensures
        spec_handle_responder(s, t).0 == s,
        spec_handle_responder(s, t).1.len() == 0,
        spec_handle_responder(s, t).2.len() == 0,
        spec_fail_safe(s).0 == s,
        spec_fail_safe(s).1.len() == 0,
{
}

} // verus!
