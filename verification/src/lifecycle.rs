//! The voice-input session lifecycle shared by every surface that records
//! speech: at most one session runs at a time, each session is stamped with a
//! generation, and a result that arrives for any generation but the current
//! transcribing one is rejected.

use vstd::prelude::*;

verus! {

/// Phase of the voice-input session.
#[derive(Debug, Clone, Copy, PartialEq, Eq, Structural)]
pub enum VoiceInputLifecycleState {
    /// No session runs.
    Idle,
    /// The microphone is recording.
    Listening,
    /// Recording has stopped and the transcription is pending.
    Transcribing,
}

/// Abstract value of a lifecycle: its phase and the generation of the latest
/// session that was started.
pub struct LifecycleView {
    pub state: VoiceInputLifecycleState,
    pub generation: u64,
}

/// The generation handed to the next session: one more than the last, wrapping
/// around at the end of the `u64` range.
pub open spec fn next_generation(generation: u64) -> u64 {
    if generation == u64::MAX {
        0
    } else {
        (generation + 1) as u64
    }
}

impl LifecycleView {
    /// A session is active while it is listening or transcribing.
    pub open spec fn is_active(self) -> bool {
        self.state != VoiceInputLifecycleState::Idle
    }

    /// Starting succeeds only from `Idle`; it opens a new generation.
    pub open spec fn start(self) -> (Option<u64>, LifecycleView) {
        if self.state == VoiceInputLifecycleState::Idle {
            let g = next_generation(self.generation);
            (Some(g), LifecycleView { state: VoiceInputLifecycleState::Listening, generation: g })
        } else {
            (None, self)
        }
    }

    /// Recording of the current generation stops and its transcription begins.
    pub open spec fn begin_transcribing(self, generation: u64) -> (bool, LifecycleView) {
        if self.state == VoiceInputLifecycleState::Listening && self.generation == generation {
            (true, LifecycleView { state: VoiceInputLifecycleState::Transcribing, ..self })
        } else {
            (false, self)
        }
    }

    /// A transcription result is accepted only for the transcribing generation.
    pub open spec fn finish(self, generation: u64) -> (bool, LifecycleView) {
        if self.state == VoiceInputLifecycleState::Transcribing && self.generation == generation {
            (true, LifecycleView { state: VoiceInputLifecycleState::Idle, ..self })
        } else {
            (false, self)
        }
    }

    /// Cancelling ends any active session.
    pub open spec fn cancel(self) -> (bool, LifecycleView) {
        if self.is_active() {
            (true, LifecycleView { state: VoiceInputLifecycleState::Idle, ..self })
        } else {
            (false, self)
        }
    }
}

/// Only one session runs at a time: starting succeeds exactly when no session
/// is active, and a refused start changes nothing.
pub proof fn lemma_start_only_when_idle(l: LifecycleView)
    ensures
        (l.start().0 is Some) == !l.is_active(),
        l.is_active() ==> l.start().1 == l,
        l.start().0 is Some ==> l.start().1.is_active(),
{
}

/// Every started session gets a generation different from the one before it,
/// and that generation becomes the lifecycle's current one.
pub proof fn lemma_new_session_new_generation(l: LifecycleView)
    ensures
        l.start().0 is Some ==> l.start().0->0 != l.generation,
        l.start().0 is Some ==> l.start().1.generation == l.start().0->0,
{
}

/// A result for any generation but the current one is rejected and leaves the
/// lifecycle as it was, whichever operation delivers it.
pub proof fn lemma_stale_generation_rejected(l: LifecycleView, generation: u64)
    requires
        generation != l.generation,
    ensures
        l.begin_transcribing(generation) == (false, l),
        l.finish(generation) == (false, l),
{
}

/// Only starting a session moves the generation; every other operation keeps it.
pub proof fn lemma_generation_moves_only_on_start(l: LifecycleView, generation: u64)
    ensures
        l.begin_transcribing(generation).1.generation == l.generation,
        l.finish(generation).1.generation == l.generation,
        l.cancel().1.generation == l.generation,
{
}

/// Cancelling leaves no session active, so no completion or failure can be
/// accepted afterwards, for any generation, until a new session starts.
pub proof fn lemma_cancel_invalidates_pending_results(l: LifecycleView, generation: u64)
    ensures
        !l.cancel().1.is_active(),
        l.cancel().1.finish(generation) == (false, l.cancel().1),
        l.cancel().1.begin_transcribing(generation) == (false, l.cancel().1),
        l.cancel().1.cancel() == (false, l.cancel().1),
{
}

/// A whole session from an idle lifecycle (start, stop, then a result for the
/// generation that start returned) is accepted at every step and ends idle at
/// the session's generation.
pub proof fn lemma_full_session_returns_to_idle(l: LifecycleView)
    requires
        l.state == VoiceInputLifecycleState::Idle,
    ensures
        ({
            let (g, l1) = l.start();
            let (stopped, l2) = l1.begin_transcribing(g->0);
            let (finished, l3) = l2.finish(g->0);
            &&& g == Some(next_generation(l.generation))
            &&& stopped
            &&& finished
            &&& l3 == LifecycleView {
                state: VoiceInputLifecycleState::Idle,
                generation: next_generation(l.generation),
            }
        }),
{
}

/// After a session has been started, a result for the session before it can
/// never be accepted: neither while the new one listens nor while it
/// transcribes.
pub proof fn lemma_earlier_session_cannot_touch_later(l: LifecycleView, earlier: u64)
    requires
        l.state == VoiceInputLifecycleState::Idle,
        earlier == l.generation,
    ensures
        ({
            let (g, l1) = l.start();
            let l2 = l1.begin_transcribing(g->0).1;
            &&& l1.finish(earlier) == (false, l1)
            &&& l2.finish(earlier) == (false, l2)
            &&& l2.state == VoiceInputLifecycleState::Transcribing
        }),
{
}

/// One operation on a lifecycle, as a history of calls records it. `Stop`
/// begins transcribing the current generation, as the terminal UI's stop does.
pub enum LifecycleOp {
    Start,
    BeginTranscribing(u64),
    Stop,
    Complete(u64),
    Fail(u64),
    Cancel,
}

/// Number of distinct values of a `u64`: generations repeat only after this
/// many sessions.
pub open spec fn generation_count() -> int {
    0x1_0000_0000_0000_0000
}

impl LifecycleView {
    /// Whether `op` is accepted on this lifecycle, and the lifecycle after it.
    pub open spec fn apply(self, op: LifecycleOp) -> (bool, LifecycleView) {
        match op {
            LifecycleOp::Start => (self.start().0 is Some, self.start().1),
            LifecycleOp::BeginTranscribing(g) => self.begin_transcribing(g),
            LifecycleOp::Stop => self.begin_transcribing(self.generation),
            LifecycleOp::Complete(g) => self.finish(g),
            LifecycleOp::Fail(g) => self.finish(g),
            LifecycleOp::Cancel => self.cancel(),
        }
    }

    /// The lifecycle after the operations `ops`, in order.
    pub open spec fn run(self, ops: Seq<LifecycleOp>) -> LifecycleView
        decreases ops.len(),
    {
        if ops.len() == 0 {
            self
        } else {
            self.run(ops.drop_last()).apply(ops.last()).1
        }
    }

    /// Whether the `i`-th operation of `ops` is accepted.
    pub open spec fn accepted_at(self, ops: Seq<LifecycleOp>, i: int) -> bool {
        self.run(ops.take(i)).apply(ops[i]).0
    }

    /// How many sessions `ops` started.
    pub open spec fn starts(self, ops: Seq<LifecycleOp>) -> nat
        decreases ops.len(),
    {
        if ops.len() == 0 {
            0
        } else {
            self.starts(ops.drop_last()) + if ops.last() is Start && self.run(
                ops.drop_last(),
            ).apply(ops.last()).0 {
                1nat
            } else {
                0nat
            }
        }
    }
}

/// The generation a result operation is for.
pub open spec fn result_generation(op: LifecycleOp) -> Option<u64> {
    match op {
        LifecycleOp::Complete(g) => Some(g),
        LifecycleOp::Fail(g) => Some(g),
        _ => None,
    }
}

proof fn lemma_run_step(l: LifecycleView, ops: Seq<LifecycleOp>, k: int)
    requires
        0 <= k < ops.len(),
    ensures
        l.run(ops.take(k + 1)) == l.run(ops.take(k)).apply(ops[k]).1,
        l.starts(ops.take(k + 1)) == l.starts(ops.take(k)) + if ops[k] is Start
            && l.accepted_at(ops, k) {
            1nat
        } else {
            0nat
        },
{
    assert(ops.take(k + 1).drop_last() =~= ops.take(k));
    assert(ops.take(k + 1).last() == ops[k]);
}

proof fn lemma_offsets_differ(g0: int, x: int, y: int)
    requires
        0 <= g0 < generation_count(),
        0 <= x < y < generation_count(),
    ensures
        (g0 + x) % generation_count() != (g0 + y) % generation_count(),
{
    let m = generation_count();
    assert((g0 + x) % m == if g0 + x < m { g0 + x } else { g0 + x - m }) by (nonlinear_arith)
        requires
            0 <= g0 + x < 2 * m,
            m == generation_count(),
    ;
    assert((g0 + y) % m == if g0 + y < m { g0 + y } else { g0 + y - m }) by (nonlinear_arith)
        requires
            0 <= g0 + y < 2 * m,
            m == generation_count(),
    ;
}

/// After any history, the generation is the starting one advanced once per
/// started session, modulo the size of `u64`.
pub proof fn lemma_generation_counts_starts(l: LifecycleView, ops: Seq<LifecycleOp>)
    ensures
        l.run(ops).generation as int == (l.generation as int + l.starts(ops) as int)
            % generation_count(),
    decreases ops.len(),
{
    let m = generation_count();
    if ops.len() == 0 {
        vstd::arithmetic::div_mod::lemma_small_mod(l.generation as nat, m as nat);
    } else {
        let prefix = ops.drop_last();
        lemma_generation_counts_starts(l, prefix);
        let before = l.run(prefix);
        let total = l.generation as int + l.starts(prefix) as int;
        if ops.last() is Start && before.apply(ops.last()).0 {
            vstd::arithmetic::div_mod::lemma_add_mod_noop(total, 1, m);
            vstd::arithmetic::div_mod::lemma_small_mod(1, m as nat);
            if before.generation == u64::MAX {
                vstd::arithmetic::div_mod::lemma_mod_self_0(m);
            } else {
                vstd::arithmetic::div_mod::lemma_small_mod((before.generation + 1) as nat, m as nat);
            }
        }
    }
}

proof fn lemma_starts_monotone(l: LifecycleView, ops: Seq<LifecycleOp>, k1: int, k2: int)
    requires
        0 <= k1 <= k2 <= ops.len(),
    ensures
        l.starts(ops.take(k1)) <= l.starts(ops.take(k2)),
    decreases k2 - k1,
{
    if k1 < k2 {
        lemma_starts_monotone(l, ops, k1, k2 - 1);
        lemma_run_step(l, ops, k2 - 1);
    }
}

/// Between an idle point and an active one, at least one session started.
proof fn lemma_leaving_idle_needs_a_start(l: LifecycleView, ops: Seq<LifecycleOp>, k1: int, k2: int)
    requires
        0 <= k1 <= k2 <= ops.len(),
        l.run(ops.take(k1)).state == VoiceInputLifecycleState::Idle,
        l.run(ops.take(k2)).state != VoiceInputLifecycleState::Idle,
    ensures
        l.starts(ops.take(k1)) < l.starts(ops.take(k2)),
    decreases k2 - k1,
{
    lemma_run_step(l, ops, k2 - 1);
    let before = l.run(ops.take(k2 - 1));
    if before.state == VoiceInputLifecycleState::Idle {
        lemma_starts_monotone(l, ops, k1, k2 - 1);
    } else {
        lemma_leaving_idle_needs_a_start(l, ops, k1, k2 - 1);
    }
}

/// A lifecycle that is transcribing got there by an accepted stop of the same
/// generation, with every operation since then refused.
proof fn lemma_transcribing_since_stop(l: LifecycleView, ops: Seq<LifecycleOp>, k: int) -> (b: int)
    requires
        l.state != VoiceInputLifecycleState::Transcribing,
        0 <= k <= ops.len(),
        l.run(ops.take(k)).state == VoiceInputLifecycleState::Transcribing,
    ensures
        0 <= b < k,
        l.accepted_at(ops, b),
        ops[b] is BeginTranscribing || ops[b] is Stop,
        l.run(ops.take(b + 1)) == l.run(ops.take(k)),
        forall|c: int| b < c < k ==> !#[trigger] l.accepted_at(ops, c),
    decreases k,
{
    if k == 0 {
        assert(ops.take(0) =~= Seq::<LifecycleOp>::empty());
        assert(false);
        0
    } else {
        lemma_run_step(l, ops, k - 1);
        let before = l.run(ops.take(k - 1));
        if before.state == VoiceInputLifecycleState::Transcribing {
            let b = lemma_transcribing_since_stop(l, ops, k - 1);
            b
        } else {
            k - 1
        }
    }
}

/// Every started session gets a generation that neither the lifecycle's
/// starting generation nor any session started earlier in the same history
/// had, as long as fewer than 2^64 sessions are started.
pub proof fn lemma_generations_never_repeat(l: LifecycleView, ops: Seq<LifecycleOp>, i: int, j: int)
    requires
        0 <= i < j < ops.len(),
        ops[i] is Start,
        l.accepted_at(ops, i),
        ops[j] is Start,
        l.accepted_at(ops, j),
        l.starts(ops) < generation_count(),
    ensures
        l.run(ops.take(j + 1)).generation != l.run(ops.take(i + 1)).generation,
        l.run(ops.take(j + 1)).generation != l.generation,
{
    let m = generation_count();
    lemma_run_step(l, ops, i);
    lemma_run_step(l, ops, j);
    lemma_starts_monotone(l, ops, i + 1, j);
    lemma_starts_monotone(l, ops, j + 1, ops.len() as int);
    assert(ops.take(ops.len() as int) =~= ops);
    lemma_generation_counts_starts(l, ops.take(i + 1));
    lemma_generation_counts_starts(l, ops.take(j + 1));
    let a = l.starts(ops.take(i + 1)) as int;
    let b = l.starts(ops.take(j + 1)) as int;
    lemma_offsets_differ(l.generation as int, a, b);
    lemma_offsets_differ(l.generation as int, 0, b);
    vstd::arithmetic::div_mod::lemma_small_mod(l.generation as nat, m as nat);
}

/// Each generation gets at most one accepted result (completion or failure)
/// in a history, as long as fewer than 2^64 sessions are started.
pub proof fn lemma_at_most_one_result_per_generation(
    l: LifecycleView,
    ops: Seq<LifecycleOp>,
    i: int,
    j: int,
)
    requires
        0 <= i < j < ops.len(),
        result_generation(ops[i]) is Some,
        result_generation(ops[j]) == result_generation(ops[i]),
        l.accepted_at(ops, i),
        l.starts(ops) < generation_count(),
    ensures
        !l.accepted_at(ops, j),
{
    let m = generation_count();
    if l.accepted_at(ops, j) {
        lemma_run_step(l, ops, i);
        lemma_run_step(l, ops, j);
        let si = l.starts(ops.take(i)) as int;
        let sj = l.starts(ops.take(j)) as int;
        lemma_leaving_idle_needs_a_start(l, ops, i + 1, j);
        lemma_starts_monotone(l, ops, j, ops.len() as int);
        assert(ops.take(ops.len() as int) =~= ops);
        lemma_generation_counts_starts(l, ops.take(i));
        lemma_generation_counts_starts(l, ops.take(j));
        lemma_offsets_differ(l.generation as int, si, sj);
    }
}

/// In a history that begins idle, a result is accepted only for the session
/// whose stop was accepted before it, and only if nothing was accepted in
/// between: in particular no cancel, and no other result.
pub proof fn lemma_result_follows_its_stop(l: LifecycleView, ops: Seq<LifecycleOp>, i: int)
    requires
        l.state == VoiceInputLifecycleState::Idle,
        0 <= i < ops.len(),
        result_generation(ops[i]) is Some,
        l.accepted_at(ops, i),
    ensures
        exists|b: int|
            0 <= b < i && #[trigger] l.accepted_at(ops, b) && (ops[b] is BeginTranscribing
                || ops[b] is Stop) && l.run(ops.take(b + 1)) == (LifecycleView {
                state: VoiceInputLifecycleState::Transcribing,
                generation: result_generation(ops[i])->0,
            }) && forall|c: int| b < c < i ==> !#[trigger] l.accepted_at(ops, c),
{
    let b = lemma_transcribing_since_stop(l, ops, i);
    assert(l.accepted_at(ops, b));
}

/// The lifecycle of voice-input sessions.
pub struct VoiceInputLifecycle {
    state: VoiceInputLifecycleState,
    generation: u64,
}

impl View for VoiceInputLifecycle {
    type V = LifecycleView;

    closed spec fn view(&self) -> LifecycleView {
        LifecycleView { state: self.state, generation: self.generation }
    }
}

impl Default for VoiceInputLifecycle {
    /// A fresh lifecycle is idle at generation zero.
    fn default() -> (lifecycle: Self)
        ensures
            lifecycle@ == (LifecycleView { state: VoiceInputLifecycleState::Idle, generation: 0 }),
    {
        VoiceInputLifecycle { state: VoiceInputLifecycleState::Idle, generation: 0 }
    }
}

impl VoiceInputLifecycle {
    /// The current phase.
    pub fn state(&self) -> (state: VoiceInputLifecycleState)
        ensures
            state == self@.state,
    {
        self.state
    }

    /// The generation of the latest session that was started.
    pub fn generation(&self) -> (generation: u64)
        ensures
            generation == self@.generation,
    {
        self.generation
    }

    /// Whether a session is listening or transcribing.
    pub fn is_active(&self) -> (active: bool)
        ensures
            active == self@.is_active(),
    {
        match self.state {
            VoiceInputLifecycleState::Idle => false,
            _ => true,
        }
    }

    /// Starts a session and returns its generation; `None` while another
    /// session is still active.
    pub fn start(&mut self) -> (generation: Option<u64>)
        ensures
            (generation, final(self)@) == old(self)@.start(),
            old(self)@.state == VoiceInputLifecycleState::Idle ==> {
                &&& final(self)@.state == VoiceInputLifecycleState::Listening
                &&& final(self)@.generation == if old(self)@.generation == u64::MAX {
                    0
                } else {
                    (old(self)@.generation + 1) as u64
                }
                &&& generation == Some(final(self)@.generation)
            },
            old(self)@.state != VoiceInputLifecycleState::Idle
                ==> generation is None && final(self)@ == old(self)@,
    {
        match self.state {
            VoiceInputLifecycleState::Idle => {
                let next = self.generation.wrapping_add(1);
                self.generation = next;
                self.state = VoiceInputLifecycleState::Listening;
                Some(next)
            },
            _ => None,
        }
    }

    /// Stops recording of `generation` and begins its transcription; `false`
    /// unless that generation is the one listening.
    pub fn begin_transcribing(&mut self, generation: u64) -> (accepted: bool)
        ensures
            (accepted, final(self)@) == old(self)@.begin_transcribing(generation),
            accepted == (old(self)@.state == VoiceInputLifecycleState::Listening
                && old(self)@.generation == generation),
            accepted ==> final(self)@.state == VoiceInputLifecycleState::Transcribing
                && final(self)@.generation == old(self)@.generation,
            !accepted ==> final(self)@ == old(self)@,
    {
        if self.state == VoiceInputLifecycleState::Listening && self.generation == generation {
            self.state = VoiceInputLifecycleState::Transcribing;
            true
        } else {
            false
        }
    }

    /// Accepts the transcription of `generation` and returns to `Idle`;
    /// `false`, with nothing changed, for a stale or unexpected result.
    pub fn complete(&mut self, generation: u64) -> (accepted: bool)
        ensures
            (accepted, final(self)@) == old(self)@.finish(generation),
            accepted == (old(self)@.state == VoiceInputLifecycleState::Transcribing
                && old(self)@.generation == generation),
            accepted ==> final(self)@.state == VoiceInputLifecycleState::Idle
                && final(self)@.generation == old(self)@.generation,
            !accepted ==> final(self)@ == old(self)@,
    {
        self.finish(generation)
    }

    /// Accepts the failure of `generation` and returns to `Idle`; `false`,
    /// with nothing changed, for a stale or unexpected failure.
    pub fn fail(&mut self, generation: u64) -> (accepted: bool)
        ensures
            (accepted, final(self)@) == old(self)@.finish(generation),
            accepted == (old(self)@.state == VoiceInputLifecycleState::Transcribing
                && old(self)@.generation == generation),
            accepted ==> final(self)@.state == VoiceInputLifecycleState::Idle
                && final(self)@.generation == old(self)@.generation,
            !accepted ==> final(self)@ == old(self)@,
    {
        self.finish(generation)
    }

    fn finish(&mut self, generation: u64) -> (accepted: bool)
        ensures
            (accepted, final(self)@) == old(self)@.finish(generation),
    {
        if self.state == VoiceInputLifecycleState::Transcribing && self.generation == generation {
            self.state = VoiceInputLifecycleState::Idle;
            true
        } else {
            false
        }
    }

    /// Ends the active session, which invalidates any result still pending for
    /// it; `false` when no session is active.
    pub fn cancel(&mut self) -> (cancelled: bool)
        ensures
            (cancelled, final(self)@) == old(self)@.cancel(),
            cancelled == (old(self)@.state != VoiceInputLifecycleState::Idle),
            final(self)@.state == VoiceInputLifecycleState::Idle,
            final(self)@.generation == old(self)@.generation,
    {
        if self.is_active() {
            self.state = VoiceInputLifecycleState::Idle;
            true
        } else {
            false
        }
    }
}

} // verus!
