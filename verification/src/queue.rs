//! Outbound path of the initiator: the FIFO queue of pending telegrams
//! and the command scheduler that turns operator-issued desired values
//! into outbound telegrams at the periodic tick.

use vstd::prelude::*;
use crate::initiator::{InitiatorSession, InitiatorState, InitiatorView};
use crate::types::{
    copy_bytes, seq_view, spec_status_aspect, Brightness, Content, ContentView, MainAspect,
    SignalAspect, Telegram, TelegramView,
};

verus! {

/// FIFO sequence of telegrams awaiting transmission.  Producers are the
/// command scheduler and the protocol handlers; the sole consumer is the
/// periodic transmitter, which drains at most one telegram per tick.
pub struct OutgoingQueue {
    pub items: Vec<Telegram>,
}

impl View for OutgoingQueue {
    type V = Seq<TelegramView>;

    open spec fn view(&self) -> Seq<TelegramView> {
        seq_view(self.items@)
    }
}

impl OutgoingQueue {
    /// Every queued telegram is well-formed.
    pub open spec fn wf(self) -> bool {
        forall|i: int| 0 <= i < self.items@.len() ==> (#[trigger] self.items@[i]).wf()
    }

    /// An empty queue.
    pub fn new() -> (q: Self)
        ensures
            q@ == Seq::<TelegramView>::empty(),
            q.wf(),
    {
        let q = OutgoingQueue { items: Vec::new() };
        proof {
            assert(q@ =~= Seq::<TelegramView>::empty());
        }
        q
    }

    pub fn len(&self) -> (n: usize)
        ensures
            n == self@.len(),
    {
        self.items.len()
    }

    /// Appends a telegram at the back.
    pub fn push(&mut self, t: Telegram)
        requires
            old(self).wf(),
            t.wf(),
        ensures
            final(self).wf(),
            final(self)@ == old(self)@.push(t@),
    {
        self.items.push(t);
        proof {
            assert(self@ =~= old(self)@.push(t@));
        }
    }

    /// Removes and returns the oldest telegram, if one is pending.  The
    /// transmitter calls this once per tick, so at most one telegram
    /// leaves per tick.
    pub fn pop(&mut self) -> (r: Option<Telegram>)
        requires
            old(self).wf(),
        ensures
            final(self).wf(),
            old(self)@.len() == 0 ==> r is None && final(self)@ == old(self)@,
            old(self)@.len() > 0 ==> (r matches Some(t) && t@ == old(self)@[0] && t.wf()
                && final(self)@ == old(self)@.subrange(1, old(self)@.len() as int)),
    {
        if self.items.len() == 0 {
            proof {
                assert(self@ =~= old(self)@);
            }
            None
        } else {
            let t = self.items.remove(0);
            proof {
                assert(self@ =~= old(self)@.subrange(1, old(self)@.len() as int));
            }
            Some(t)
        }
    }
}

/// Desired state issued by the operator, pending transmission.  A newly
/// issued value overwrites any not-yet-sent one: last write wins.
#[derive(Clone, Copy, PartialEq, Eq, Structural, Debug)]
pub struct CommandScheduler {
    pub desired_aspect: Option<MainAspect>,
    pub desired_brightness: Option<Brightness>,
}

/// Scheduler after the operator issues a desired main aspect.
pub open spec fn spec_set_desired_aspect(sch: CommandScheduler, m: MainAspect) -> CommandScheduler {
    CommandScheduler { desired_aspect: Some(m), ..sch }
}

/// Scheduler after the operator issues a desired brightness.
pub open spec fn spec_set_desired_brightness(
    sch: CommandScheduler,
    b: Brightness,
) -> CommandScheduler {
    CommandScheduler { desired_brightness: Some(b), ..sch }
}

/// Main aspect the peer last confirmed.
pub open spec fn spec_confirmed_main(s: InitiatorView) -> MainAspect
    recommends
        s.confirmed_aspect is Some,
{
    match s.confirmed_aspect {
        Some(a) => a.main,
        None => MainAspect::Off,
    }
}

/// Brightness the peer last confirmed.
pub open spec fn spec_confirmed_brightness(s: InitiatorView) -> Brightness
    recommends
        s.confirmed_brightness is Some,
{
    match s.confirmed_brightness {
        Some(b) => b,
        None => Brightness::Day,
    }
}

/// The show-signal-aspect telegram commanding main aspect `m`.
pub open spec fn spec_show_aspect_telegram(s: InitiatorView, m: MainAspect) -> TelegramView {
    TelegramView {
        sender: s.local_id,
        receiver: s.peer_id,
        content: ContentView::ShowSignalAspect { aspect: spec_status_aspect(m) },
    }
}

/// The change-brightness telegram commanding brightness `b`.
pub open spec fn spec_change_brightness_telegram(s: InitiatorView, b: Brightness) -> TelegramView {
    TelegramView {
        sender: s.local_id,
        receiver: s.peer_id,
        content: ContentView::ChangeBrightness { brightness: b },
    }
}

/// One scheduler tick: when the session is connected, each desired value
/// that differs from the confirmed one becomes one telegram, and the
/// desired values are cleared; otherwise nothing changes.
pub open spec fn spec_tick(sch: CommandScheduler, s: InitiatorView) -> (
    CommandScheduler,
    Seq<TelegramView>,
) {
    if s.conn != InitiatorState::Connected {
        (sch, Seq::<TelegramView>::empty())
    } else {
        let aspect_out = match sch.desired_aspect {
            Some(m) => if m != spec_confirmed_main(s) {
                seq![spec_show_aspect_telegram(s, m)]
            } else {
                Seq::<TelegramView>::empty()
            },
            None => Seq::<TelegramView>::empty(),
        };
        let brightness_out = match sch.desired_brightness {
            Some(b) => if b != spec_confirmed_brightness(s) {
                seq![spec_change_brightness_telegram(s, b)]
            } else {
                Seq::<TelegramView>::empty()
            },
            None => Seq::<TelegramView>::empty(),
        };
        (
            CommandScheduler { desired_aspect: None, desired_brightness: None },
            aspect_out + brightness_out,
        )
    }
}

impl CommandScheduler {
    /// A scheduler with nothing pending.
    pub fn new() -> (sch: Self)
        ensures
            sch == (CommandScheduler {
                desired_aspect: None::<MainAspect>,
                desired_brightness: None::<Brightness>,
            }),
    {
        CommandScheduler { desired_aspect: None, desired_brightness: None }
    }

    /// The operator issues a desired main aspect; it overwrites any
    /// pending one.
    pub fn set_desired_aspect(&mut self, m: MainAspect)
        ensures
            *final(self) == spec_set_desired_aspect(*old(self), m),
    {
        self.desired_aspect = Some(m);
    }

    /// The operator issues a desired brightness; it overwrites any
    /// pending one.
    pub fn set_desired_brightness(&mut self, b: Brightness)
        ensures
            *final(self) == spec_set_desired_brightness(*old(self), b),
    {
        self.desired_brightness = Some(b);
    }

    /// One periodic tick: enqueues the due telegrams exactly as
    /// `spec_tick` states.
    pub fn tick(&mut self, session: &InitiatorSession, out: &mut OutgoingQueue)
        requires
            session.wf(),
            old(out).wf(),
        ensures
            final(out).wf(),
            *final(self) == spec_tick(*old(self), session@).0,
            final(out)@ == old(out)@ + spec_tick(*old(self), session@).1,
    {
        if !(session.conn == InitiatorState::Connected) {
            proof {
                assert(out@ =~= old(out)@ + spec_tick(*old(self), session@).1);
            }
            return;
        }
        if let Some(m) = self.desired_aspect {
            self.desired_aspect = None;
            match &session.confirmed_aspect {
                Some(a) => {
                    if m != a.main {
                        let t = Telegram {
                            sender: copy_bytes(&session.local_id),
                            receiver: copy_bytes(&session.peer_id),
                            content: Content::ShowSignalAspect {
                                aspect: SignalAspect::from_main(m),
                            },
                        };
                        out.push(t);
                    }
                },
                None => {
                    proof {
                        assert(false);
                    }
                },
            }
        }
        if let Some(b) = self.desired_brightness {
            self.desired_brightness = None;
            match &session.confirmed_brightness {
                Some(cb) => {
                    if b != *cb {
                        let t = Telegram {
                            sender: copy_bytes(&session.local_id),
                            receiver: copy_bytes(&session.peer_id),
                            content: Content::ChangeBrightness { brightness: b },
                        };
                        out.push(t);
                    }
                },
                None => {
                    proof {
                        assert(false);
                    }
                },
            }
        }
        proof {
            assert(out@ =~= old(out)@ + spec_tick(*old(self), session@).1);
        }
    }
}

/// Issuing the same desired aspect twice before any confirmation change
/// enqueues exactly one show-signal-aspect telegram: the second issue
/// overwrites the first, the first following tick sends one telegram and
/// clears the desire, and the next tick sends nothing.
pub proof fn lemma_no_duplicate_aspect_command(s: InitiatorView, m: MainAspect)
    requires
        s.conn == InitiatorState::Connected,
        m != spec_confirmed_main(s),
    ensures
        ({
            let idle = CommandScheduler {
                desired_aspect: None::<MainAspect>,
                desired_brightness: None::<Brightness>,
            };
            let issued_twice = spec_set_desired_aspect(spec_set_desired_aspect(idle, m), m);
            let (after_first, sent_first) = spec_tick(issued_twice, s);
            let (after_second, sent_second) = spec_tick(after_first, s);
            &&& sent_first.len() == 1
            &&& sent_first[0] == spec_show_aspect_telegram(s, m)
            &&& sent_second.len() == 0
        }),
{
}

} // verus!
