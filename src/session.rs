use vstd::prelude::*;
use crate::feed::{
    after_capture, after_playback, capture_block, overruns, played, playback_block, underruns,
};
use crate::latency::{
    delay_fits, latency_samples_spec, prefilled_queue, silence, SizingError, SILENCE,
};
use crate::queue::{QueueView, SampleQueue};

verus! {

/// Where a session stands in its life.
#[derive(Debug, Clone, Copy, PartialEq, Eq, Structural)]
pub enum SessionState {
    /// No queue yet.
    Unconfigured,
    /// The queue is sized and pre-filled; the streams are not running.
    Configured,
    /// Both streams deliver callbacks against the queue.
    Running,
    /// The streams are released and the queue is gone.
    Stopped,
}

/// A non-fatal event for the diagnostic sink.
#[derive(Debug, Clone, Copy, PartialEq, Eq, Structural)]
pub enum Diagnostic {
    /// Capture brought more samples than the queue had room for.
    ProducerOverrun,
    /// Playback needed more samples than the queue held.
    ConsumerUnderrun,
}

/// Why a session refused a step.
#[derive(Debug, Clone, Copy, PartialEq, Eq, Structural)]
pub enum SessionError {
    /// The step does not apply in the session's current state.
    WrongState,
    /// The latency target cannot be turned into a queue.
    Sizing(SizingError),
}

/// A loopback session: its state, the queue shared by the two stream
/// callbacks while it runs, and how many overruns and underruns it saw.
pub struct Session {
    state: SessionState,
    queue: Option<SampleQueue>,
    overrun_events: u64,
    underrun_events: u64,
}

/// A session as its contracts see it: the queue by its view, the counters as naturals.
pub struct SessionView {
    pub state: SessionState,
    pub queue: Option<QueueView>,
    pub overrun_events: nat,
    pub underrun_events: nat,
}

impl View for Session {
    type V = SessionView;

    closed spec fn view(&self) -> SessionView {
        SessionView {
            state: self.state,
            queue: match self.queue {
                Some(q) => Some(q@),
                None => None,
            },
            overrun_events: self.overrun_events as nat,
            underrun_events: self.underrun_events as nat,
        }
    }
}

/// One more event, unless the counter is already at its largest value.
pub open spec fn count_up(n: nat) -> nat {
    if n < u64::MAX { n + 1 } else { n }
}

/// The session after a capture callback with block `data`.
pub open spec fn capture_step(s: SessionView, data: Seq<u32>) -> SessionView {
    if s.state == SessionState::Running && s.queue is Some {
        let q = s.queue->0;
        SessionView {
            queue: Some(after_capture(q, data)),
            overrun_events: if overruns(q, data) { count_up(s.overrun_events) } else { s.overrun_events },
            ..s
        }
    } else {
        s
    }
}

/// The diagnostic a capture callback emits, at most one per block.
pub open spec fn capture_report(s: SessionView, data: Seq<u32>) -> Option<Diagnostic> {
    if s.state == SessionState::Running && s.queue is Some && overruns(s.queue->0, data) {
        Some(Diagnostic::ProducerOverrun)
    } else {
        None
    }
}

/// The session after a playback callback of `n` slots.
pub open spec fn playback_step(s: SessionView, n: nat) -> SessionView {
    if s.state == SessionState::Running && s.queue is Some {
        let q = s.queue->0;
        SessionView {
            queue: Some(after_playback(q, n)),
            underrun_events: if underruns(q, n) { count_up(s.underrun_events) } else { s.underrun_events },
            ..s
        }
    } else {
        s
    }
}

/// The diagnostic a playback callback emits, at most one per block.
pub open spec fn playback_report(s: SessionView, n: nat) -> Option<Diagnostic> {
    if s.state == SessionState::Running && s.queue is Some && underruns(s.queue->0, n) {
        Some(Diagnostic::ConsumerUnderrun)
    } else {
        None
    }
}

/// The block a playback callback of `n` slots writes: from the queue while
/// running, silence otherwise.
pub open spec fn playback_output(s: SessionView, n: nat) -> Seq<u32> {
    if s.state == SessionState::Running && s.queue is Some {
        played(s.queue->0, n)
    } else {
        silence(n)
    }
}

/// A stream callback as the backend delivers it.
pub enum Callback {
    Capture(Seq<u32>),
    Playback(nat),
}

/// The session after a series of callbacks, in order.
pub open spec fn after_callbacks(s: SessionView, cbs: Seq<Callback>) -> SessionView
    decreases cbs.len(),
{
    if cbs.len() == 0 {
        s
    } else {
        let next = match cbs[0] {
            Callback::Capture(data) => capture_step(s, data),
            Callback::Playback(n) => playback_step(s, n),
        };
        after_callbacks(next, cbs.drop_first())
    }
}

/// Once a session is stopped it holds no queue, and no callback, however
/// many arrive, changes it, reports anything or plays anything but silence.
pub proof fn lemma_stopped_session_is_inert(s: SessionView, cbs: Seq<Callback>, data: Seq<u32>, n: nat)
    requires
        s.state == SessionState::Stopped,
    ensures
        after_callbacks(s, cbs) == s,
        capture_report(s, data) is None,
        playback_report(s, n) is None,
        playback_output(s, n) == silence(n),
    decreases cbs.len(),
{
    if cbs.len() > 0 {
        lemma_stopped_session_is_inert(s, cbs.drop_first(), data, n);
    }
}

impl Session {
    pub closed spec fn wf(&self) -> bool {
        &&& (self.queue is Some <==> (self.state == SessionState::Configured
            || self.state == SessionState::Running))
        &&& (self.queue matches Some(q) ==> q.wf())
    }

    /// A session that has not been configured.
    pub fn new() -> (s: Session)
        ensures
            s.wf(),
            s@.state == SessionState::Unconfigured,
            s@.queue is None,
            s@.overrun_events == 0,
            s@.underrun_events == 0,
    {
        Session {
            state: SessionState::Unconfigured,
            queue: None,
            overrun_events: 0,
            underrun_events: 0,
        }
    }

    pub fn state(&self) -> (r: SessionState)
        ensures
            r == self@.state,
    {
        self.state
    }

    pub fn overrun_count(&self) -> (r: u64)
        ensures
            r == self@.overrun_events,
    {
        self.overrun_events
    }

    pub fn underrun_count(&self) -> (r: u64)
        ensures
            r == self@.underrun_events,
    {
        self.underrun_events
    }

    /// The number of samples queued, while the session holds a queue.
    pub fn queued(&self) -> (r: Option<usize>)
        ensures
            r is Some <==> self@.queue is Some,
            r matches Some(n) ==> n == self@.queue->0.contents.len(),
    {
        match &self.queue {
            Some(q) => Some(q.len()),
            None => None,
        }
    }

    /// Sizes and pre-fills the queue for a delay of `latency_ms` at the
    /// stream's rate and channel count.
    pub fn configure(&mut self, latency_ms: u32, sample_rate: u32, channels: u16) -> (r: Result<(), SessionError>)
        requires
            old(self).wf(),
        ensures
            final(self).wf(),
            old(self)@.state != SessionState::Unconfigured ==> r == Err::<(), SessionError>(SessionError::WrongState),
            old(self)@.state == SessionState::Unconfigured ==> (r is Ok <==> delay_fits(
                latency_samples_spec(latency_ms as nat, sample_rate as nat, channels as nat))),
            r is Err ==> final(self)@ == old(self)@,
            r is Ok ==> final(self)@ == (SessionView {
                state: SessionState::Configured,
                queue: Some(QueueView {
                    contents: silence(latency_samples_spec(latency_ms as nat, sample_rate as nat, channels as nat)),
                    capacity: 2 * latency_samples_spec(latency_ms as nat, sample_rate as nat, channels as nat),
                }),
                ..old(self)@
            }),
    {
        if self.state != SessionState::Unconfigured {
            return Err(SessionError::WrongState);
        }
        match prefilled_queue(latency_ms, sample_rate, channels) {
            Ok(q) => {
                self.queue = Some(q);
                self.state = SessionState::Configured;
                Ok(())
            },
            Err(e) => Err(SessionError::Sizing(e)),
        }
    }

    /// Marks the streams as started; callbacks now reach the queue.
    pub fn start(&mut self) -> (r: Result<(), SessionError>)
        requires
            old(self).wf(),
        ensures
            final(self).wf(),
            r is Ok <==> old(self)@.state == SessionState::Configured,
            r is Err ==> final(self)@ == old(self)@,
            r is Ok ==> final(self)@ == (SessionView { state: SessionState::Running, ..old(self)@ }),
    {
        if self.state != SessionState::Configured {
            return Err(SessionError::WrongState);
        }
        self.state = SessionState::Running;
        Ok(())
    }

    /// Ends the session from any state and releases the queue.
    pub fn stop(&mut self)
        requires
            old(self).wf(),
        ensures
            final(self).wf(),
            final(self)@ == (SessionView { state: SessionState::Stopped, queue: None, ..old(self)@ }),
    {
        self.state = SessionState::Stopped;
        self.queue = None;
    }

    /// The capture callback: pushes `data` while running and reports an
    /// overrun once for the block when samples were dropped.
    pub fn on_capture(&mut self, data: &[u32]) -> (r: Option<Diagnostic>)
        requires
            old(self).wf(),
        ensures
            final(self).wf(),
            final(self)@ == capture_step(old(self)@, data@),
            r == capture_report(old(self)@, data@),
    {
        if self.state != SessionState::Running {
            return None;
        }
        match &mut self.queue {
            Some(q) => {
                let overrun = capture_block(q, data);
                if overrun {
                    if self.overrun_events < u64::MAX {
                        self.overrun_events = self.overrun_events + 1;
                    }
                    Some(Diagnostic::ProducerOverrun)
                } else {
                    None
                }
            },
            None => None,
        }
    }

    /// The playback callback: fills `out` from the queue while running,
    /// silence otherwise, and reports an underrun once for the block when
    /// the queue ran dry.
    pub fn on_playback(&mut self, out: &mut Vec<u32>) -> (r: Option<Diagnostic>)
        requires
            old(self).wf(),
        ensures
            final(self).wf(),
            final(self)@ == playback_step(old(self)@, old(out)@.len()),
            final(out)@ == playback_output(old(self)@, old(out)@.len()),
            r == playback_report(old(self)@, old(out)@.len()),
    {
        if self.state == SessionState::Running {
            match &mut self.queue {
                Some(q) => {
                    let underrun = playback_block(q, out);
                    if underrun {
                        if self.underrun_events < u64::MAX {
                            self.underrun_events = self.underrun_events + 1;
                        }
                        return Some(Diagnostic::ConsumerUnderrun);
                    }
                    return None;
                },
                None => {},
            }
        }
        fill_silence(out);
        None
    }
}

/// Overwrites every slot of `out` with silence.
fn fill_silence(out: &mut Vec<u32>)
    ensures
        final(out)@ == silence(old(out)@.len()),
{
    let ghost n = out@.len();
    let mut i: usize = 0;
    while i < out.len()
        invariant
            i <= n,
            out@.len() == n,
            forall|j: int| 0 <= j < i ==> out@[j] == SILENCE,
        decreases n - i,
    {
        out.set(i, SILENCE);
        i += 1;
    }
    assert(out@ =~= silence(n));
}

} // verus!
