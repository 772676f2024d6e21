use vstd::prelude::*;

use crate::settings::{PollSettings, RemoteAddress};

verus! {

/// Pause before each probe, in milliseconds. Small, yet enough to keep the
/// loop from spinning when a router answers every probe at once (as one that
/// lacks IPv6 does, with an immediate error reply).
pub const POLL_PAUSE_MS: u64 = 14;

/// What the background task is to do next.
#[derive(Clone, Copy, Debug)]
pub enum PollAction {
    /// Leave the loop: cancellation was seen.
    Finish,
    /// Sleep `pause_ms`, then send one echo request to `remote` and wait for
    /// its reply at most `timeout_ms`.
    Probe { remote: RemoteAddress, timeout_ms: u64, pause_ms: u64 },
}

/// The state of one monitor's background loop.
///
/// `connected` is the verdict that the loop last published; it starts as
/// not connected, so that a monitor reports no connection until a probe has
/// been answered. Once `finished`, the loop publishes nothing more.
pub struct PollLoop {
    pub settings: PollSettings,
    pub connected: bool,
    pub finished: bool,
}

/// One thing that can happen to a poll loop.
pub enum PollEvent {
    /// The top of an iteration, where the cancellation signal is read.
    Check { cancelled: bool },
    /// The outcome of a probe: whether any reply came in time.
    Reply { answered: bool },
}

impl PollLoop {
    /// The action for the top of an iteration.
    pub open spec fn action_for(self, cancelled: bool) -> PollAction {
        if self.finished || cancelled {
            PollAction::Finish
        } else {
            PollAction::Probe {
                remote: self.settings.remote,
                timeout_ms: self.settings.timeout_ms,
                pause_ms: POLL_PAUSE_MS,
            }
        }
    }

    /// The state after the top of an iteration.
    pub open spec fn after_check(self, cancelled: bool) -> PollLoop {
        PollLoop { finished: self.finished || cancelled, ..self }
    }

    /// The verdict that a probe outcome publishes, if any.
    pub open spec fn published_by(self, answered: bool) -> Option<bool> {
        if self.finished {
            None
        } else {
            Some(answered)
        }
    }

    /// The state after a probe outcome.
    pub open spec fn after_reply(self, answered: bool) -> PollLoop {
        if self.finished {
            self
        } else {
            PollLoop { connected: answered, ..self }
        }
    }

    /// The state after one event.
    pub open spec fn after(self, e: PollEvent) -> PollLoop {
        match e {
            PollEvent::Check { cancelled } => self.after_check(cancelled),
            PollEvent::Reply { answered } => self.after_reply(answered),
        }
    }

    /// The state after a run of events, in order.
    pub open spec fn after_all(self, es: Seq<PollEvent>) -> PollLoop
        decreases es.len(),
    {
        if es.len() == 0 {
            self
        } else {
            self.after(es[0]).after_all(es.drop_first())
        }
    }

    /// The verdicts that a run of events publishes, in order.
    pub open spec fn publications(self, es: Seq<PollEvent>) -> Seq<bool>
        decreases es.len(),
    {
        if es.len() == 0 {
            Seq::empty()
        } else {
            let now = match es[0] {
                PollEvent::Check { .. } => Seq::<bool>::empty(),
                PollEvent::Reply { answered } => match self.published_by(answered) {
                    Some(v) => seq![v],
                    None => Seq::<bool>::empty(),
                },
            };
            now + self.after(es[0]).publications(es.drop_first())
        }
    }

    /// A loop for `settings` that has published nothing yet.
    pub fn new(settings: PollSettings) -> (r: PollLoop)
        ensures
            r.settings == settings,
            !r.connected,
            !r.finished,
    {
        PollLoop { settings, connected: false, finished: false }
    }

    /// Decides the next step from the cancellation signal read at the top of
    /// an iteration.
    pub fn next_action(&mut self, cancelled: bool) -> (r: PollAction)
        ensures
            r == old(self).action_for(cancelled),
            *final(self) == old(self).after_check(cancelled),
    {
        if cancelled {
            self.finished = true;
        }
        if self.finished {
            PollAction::Finish
        } else {
            PollAction::Probe {
                remote: self.settings.remote,
                timeout_ms: self.settings.timeout_ms,
                pause_ms: POLL_PAUSE_MS,
            }
        }
    }

    /// Takes in the outcome of a probe and returns the verdict to publish:
    /// the outcome itself while the loop runs, nothing once it has finished.
    pub fn record_reply(&mut self, answered: bool) -> (r: Option<bool>)
        ensures
            r == old(self).published_by(answered),
            *final(self) == old(self).after_reply(answered),
    {
        if self.finished {
            None
        } else {
            self.connected = answered;
            Some(answered)
        }
    }

    /// The verdict last published.
    pub fn is_connected(&self) -> (r: bool)
        ensures
            r == self.connected,
    {
        self.connected
    }
}

/// Once a loop has seen cancellation it publishes nothing more, and no
/// later event changes it.
pub proof fn finished_loop_is_silent(s: PollLoop, es: Seq<PollEvent>)
    requires
        s.finished,
    ensures
        s.publications(es) == Seq::<bool>::empty(),
        s.after_all(es) == s,
    decreases es.len(),
{
    if es.len() > 0 {
        assert(s.after(es[0]) == s);
        finished_loop_is_silent(s, es.drop_first());
        assert(s.publications(es) =~= Seq::<bool>::empty());
    }
}

/// A loop that reads the cancellation signal set leaves at once.
pub proof fn cancellation_ends_loop(s: PollLoop)
    ensures
        s.action_for(true) == PollAction::Finish,
        s.after_check(true).finished,
{
}

/// Reading the cancellation signal leaves the status as it was: with no
/// reply in between, two reads of the status agree.
pub proof fn verdict_stable_between_probes(s: PollLoop, es: Seq<PollEvent>)
    requires
        forall|i: int| 0 <= i < es.len() ==> #[trigger] es[i] is Check,
    ensures
        s.after_all(es).connected == s.connected,
        s.publications(es) == Seq::<bool>::empty(),
    decreases es.len(),
{
    if es.len() > 0 {
        let rest = es.drop_first();
        assert(es[0] is Check);
        assert forall|i: int| 0 <= i < rest.len() implies #[trigger] rest[i] is Check by {
            assert(rest[i] == es[i + 1]);
        }
        verdict_stable_between_probes(s.after(es[0]), rest);
        assert(s.publications(es) =~= Seq::<bool>::empty());
    }
}

/// Stopping is final: after the cancellation signal is seen, whatever comes
/// next publishes nothing and leaves the loop finished.
pub proof fn stop_then_silent(s: PollLoop, es: Seq<PollEvent>)
    ensures
        s.publications(seq![PollEvent::Check { cancelled: true }] + es) == Seq::<bool>::empty(),
        s.after_all(seq![PollEvent::Check { cancelled: true }] + es).finished,
{
    let all = seq![PollEvent::Check { cancelled: true }] + es;
    assert(all[0] == PollEvent::Check { cancelled: true });
    assert(all.drop_first() =~= es);
    let t = s.after_check(true);
    finished_loop_is_silent(t, es);
    assert(s.publications(all) =~= Seq::<bool>::empty());
}

/// While a loop runs, its verdict is the outcome of the latest probe.
pub proof fn verdict_follows_latest_reply(s: PollLoop, answered: bool)
    requires
        !s.finished,
    ensures
        s.after_reply(answered).connected == answered,
        s.published_by(answered) == Some(answered),
{
}

} // verus!
