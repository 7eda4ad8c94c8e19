//! The terminal UI's view of the shared voice-input lifecycle: every accepted
//! transition is announced by events that the UI redraws from, and stale or
//! refused requests announce nothing.

use crate::lifecycle::{LifecycleView, VoiceInputLifecycle, VoiceInputLifecycleState};
use vstd::prelude::*;

verus! {

/// Phase of the voice-input session, as the terminal UI names it.
pub type TuiVoiceInputState = VoiceInputLifecycleState;

/// What the model announces to the terminal UI.
#[derive(Debug, Clone, PartialEq, Eq)]
pub enum TuiVoiceInputEvent {
    /// The session moved to a new phase.
    StateChanged(TuiVoiceInputState),
    /// The transcription of `generation` arrived.
    Completed { generation: u64, text: String },
    /// The transcription of `generation` failed.
    Failed { generation: u64, hint: String },
}

/// Events appended by an operation: nothing when it was refused, otherwise
/// `announced` followed by the announcement of the new phase.
pub open spec fn appended_events(
    before: Seq<TuiVoiceInputEvent>,
    accepted: bool,
    announced: Seq<TuiVoiceInputEvent>,
    after: LifecycleView,
) -> Seq<TuiVoiceInputEvent> {
    if accepted {
        before + announced.push(TuiVoiceInputEvent::StateChanged(after.state))
    } else {
        before
    }
}

/// Every accepted operation appends what it announces followed by the
/// announcement of the new phase, which is therefore its last event; a refused
/// operation appends nothing.
pub proof fn lemma_accepted_operations_announce_new_phase(
    before: Seq<TuiVoiceInputEvent>,
    announced: Seq<TuiVoiceInputEvent>,
    after: LifecycleView,
)
    ensures
        appended_events(before, true, announced, after).len() == before.len() + announced.len()
            + 1,
        appended_events(before, true, announced, after).last() == TuiVoiceInputEvent::StateChanged(
            after.state,
        ),
        appended_events(before, true, announced, after).subrange(0, before.len() as int)
            == before,
        appended_events(before, false, announced, after) == before,
{
    assert(appended_events(before, true, announced, after).subrange(0, before.len() as int)
        =~= before);
}

/// Cancelling is accepted exactly while a session is active and always leaves
/// the lifecycle idle at the same generation, so an accepted cancel announces
/// `StateChanged(Idle)` and nothing else.
pub proof fn lemma_cancel_announces_idle(l: LifecycleView, before: Seq<TuiVoiceInputEvent>)
    ensures
        l.cancel().0 == (l.state != VoiceInputLifecycleState::Idle),
        l.cancel().1.state == VoiceInputLifecycleState::Idle,
        l.cancel().1.generation == l.generation,
        l.cancel().0 ==> appended_events(before, l.cancel().0, seq![], l.cancel().1)
            == before.push(TuiVoiceInputEvent::StateChanged(VoiceInputLifecycleState::Idle)),
{
    assert(seq![].push(TuiVoiceInputEvent::StateChanged(VoiceInputLifecycleState::Idle))
        =~= seq![TuiVoiceInputEvent::StateChanged(VoiceInputLifecycleState::Idle)]);
    assert(before + seq![TuiVoiceInputEvent::StateChanged(VoiceInputLifecycleState::Idle)]
        =~= before.push(TuiVoiceInputEvent::StateChanged(VoiceInputLifecycleState::Idle)));
}

/// Voice-input session model of the terminal UI. Each operation that the UI
/// triggers takes the queue of events that the UI will emit and appends to it.
///
/// Its operations are those of the lifecycle (`stop` being `LifecycleOp::Stop`),
/// with the same acceptance and the same new state, and `complete` or `fail`
/// announce a result exactly when the lifecycle accepts it. The laws proved of
/// lifecycle histories in `lifecycle` (no generation repeats, at most one
/// result per generation, a result only after its own stop and with nothing
/// accepted in between) are therefore laws of this model's announcements.
pub struct TuiVoiceInputModel {
    lifecycle: VoiceInputLifecycle,
}

impl View for TuiVoiceInputModel {
    type V = LifecycleView;

    closed spec fn view(&self) -> LifecycleView {
        self.lifecycle@
    }
}

impl TuiVoiceInputModel {
    /// A model with no session, at generation zero.
    pub fn new() -> (model: Self)
        ensures
            model@ == (LifecycleView { state: VoiceInputLifecycleState::Idle, generation: 0 }),
    {
        TuiVoiceInputModel { lifecycle: VoiceInputLifecycle::default() }
    }

    /// The current phase.
    pub fn state(&self) -> (state: TuiVoiceInputState)
        ensures
            state == self@.state,
    {
        self.lifecycle.state()
    }

    /// The generation of the latest session that was started.
    pub fn generation(&self) -> (generation: u64)
        ensures
            generation == self@.generation,
    {
        self.lifecycle.generation()
    }

    /// Whether a session is listening or transcribing.
    pub fn is_active(&self) -> (active: bool)
        ensures
            active == self@.is_active(),
    {
        self.lifecycle.is_active()
    }

    /// Whether `generation` is the session whose transcription is pending.
    pub fn is_transcribing_generation(&self, generation: u64) -> (transcribing: bool)
        ensures
            transcribing == (self@.state == VoiceInputLifecycleState::Transcribing
                && self@.generation == generation),
    {
        self.state() == VoiceInputLifecycleState::Transcribing && self.generation() == generation
    }

    /// Starts listening; `false`, with nothing announced, while a session is
    /// already active.
    pub fn start(&mut self, events: &mut Vec<TuiVoiceInputEvent>) -> (started: bool)
        ensures
            started == (old(self)@.start().0 is Some),
            final(self)@ == old(self)@.start().1,
            final(events)@ == appended_events(old(events)@, started, seq![], final(self)@),
            started == (old(self)@.state == VoiceInputLifecycleState::Idle),
            started ==> final(events)@ == old(events)@.push(
                TuiVoiceInputEvent::StateChanged(VoiceInputLifecycleState::Listening),
            ),
            !started ==> final(events)@ == old(events)@ && final(self)@ == old(self)@,
    {
        if self.lifecycle.start().is_none() {
            return false;
        }
        events.push(TuiVoiceInputEvent::StateChanged(self.state()));
        true
    }

    /// Stops listening and begins transcribing the current session; `false`,
    /// with nothing announced, unless a session is listening.
    pub fn stop(&mut self, events: &mut Vec<TuiVoiceInputEvent>) -> (stopped: bool)
        ensures
            (stopped, final(self)@) == old(self)@.begin_transcribing(old(self)@.generation),
            stopped == (old(self)@.state == VoiceInputLifecycleState::Listening),
            final(events)@ == appended_events(old(events)@, stopped, seq![], final(self)@),
            stopped ==> final(self)@.state == VoiceInputLifecycleState::Transcribing
                && final(self)@.generation == old(self)@.generation,
            stopped ==> final(events)@ == old(events)@.push(
                TuiVoiceInputEvent::StateChanged(VoiceInputLifecycleState::Transcribing),
            ),
            !stopped ==> final(events)@ == old(events)@ && final(self)@ == old(self)@,
    {
        let generation = self.generation();
        if !self.lifecycle.begin_transcribing(generation) {
            return false;
        }
        events.push(TuiVoiceInputEvent::StateChanged(self.state()));
        true
    }

    /// Cancels the active session; `false`, with nothing announced, when no
    /// session is active.
    pub fn cancel(&mut self, events: &mut Vec<TuiVoiceInputEvent>) -> (cancelled: bool)
        ensures
            (cancelled, final(self)@) == old(self)@.cancel(),
            final(events)@ == appended_events(old(events)@, cancelled, seq![], final(self)@),
            cancelled == (old(self)@.state != VoiceInputLifecycleState::Idle),
            final(self)@.state == VoiceInputLifecycleState::Idle,
            final(self)@.generation == old(self)@.generation,
            cancelled ==> final(events)@ == old(events)@.push(
                TuiVoiceInputEvent::StateChanged(VoiceInputLifecycleState::Idle),
            ),
            !cancelled ==> final(events)@ == old(events)@,
    {
        if !self.lifecycle.cancel() {
            return false;
        }
        events.push(TuiVoiceInputEvent::StateChanged(self.state()));
        true
    }

    /// Delivers the transcription `text` of `generation`; it is announced, and
    /// the session ends, only when `generation` is the one transcribing.
    pub fn complete(
        &mut self,
        generation: u64,
        text: String,
        events: &mut Vec<TuiVoiceInputEvent>,
    ) -> (accepted: bool)
        ensures
            (accepted, final(self)@) == old(self)@.finish(generation),
            final(events)@ == appended_events(
                old(events)@,
                accepted,
                seq![TuiVoiceInputEvent::Completed { generation, text }],
                final(self)@,
            ),
            accepted == (old(self)@.state == VoiceInputLifecycleState::Transcribing
                && old(self)@.generation == generation),
            accepted ==> final(self)@.state == VoiceInputLifecycleState::Idle
                && final(self)@.generation == old(self)@.generation,
            accepted ==> final(events)@ == old(events)@.push(
                TuiVoiceInputEvent::Completed { generation, text },
            ).push(TuiVoiceInputEvent::StateChanged(VoiceInputLifecycleState::Idle)),
            !accepted ==> final(events)@ == old(events)@ && final(self)@ == old(self)@,
    {
        if !self.lifecycle.complete(generation) {
            return false;
        }
        events.push(TuiVoiceInputEvent::Completed { generation, text });
        events.push(TuiVoiceInputEvent::StateChanged(self.state()));
        true
    }

    /// Delivers the failure `hint` of `generation`; it is announced, and the
    /// session ends, only when `generation` is the one transcribing.
    pub fn fail(
        &mut self,
        generation: u64,
        hint: String,
        events: &mut Vec<TuiVoiceInputEvent>,
    ) -> (accepted: bool)
        ensures
            (accepted, final(self)@) == old(self)@.finish(generation),
            final(events)@ == appended_events(
                old(events)@,
                accepted,
                seq![TuiVoiceInputEvent::Failed { generation, hint }],
                final(self)@,
            ),
            accepted == (old(self)@.state == VoiceInputLifecycleState::Transcribing
                && old(self)@.generation == generation),
            accepted ==> final(self)@.state == VoiceInputLifecycleState::Idle
                && final(self)@.generation == old(self)@.generation,
            accepted ==> final(events)@ == old(events)@.push(
                TuiVoiceInputEvent::Failed { generation, hint },
            ).push(TuiVoiceInputEvent::StateChanged(VoiceInputLifecycleState::Idle)),
            !accepted ==> final(events)@ == old(events)@ && final(self)@ == old(self)@,
    {
        if !self.lifecycle.fail(generation) {
            return false;
        }
        events.push(TuiVoiceInputEvent::Failed { generation, hint });
        events.push(TuiVoiceInputEvent::StateChanged(self.state()));
        true
    }
}

} // verus!
