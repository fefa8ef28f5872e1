//! The capture session of the settings screen: while the user records a new
//! combo, global shortcuts are suppressed.
//!
//! A session is claimed, then installed once its key listener exists, and ends
//! by a teardown or by outliving [`MAX_RECORDING_DURATION`]. Every claim has its
//! own generation, so a claim that was torn down or replaced while its listener
//! was being set up can never be installed. Times are nanoseconds of one
//! monotonic clock.

use vstd::prelude::*;

verus! {

/// How long a session may suppress global shortcuts, in nanoseconds.
pub const MAX_RECORDING_DURATION: u64 = 30_000_000_000;

/// A live capture session.
#[derive(Debug)]
pub struct RecordingSession {
    /// The generation of the claim it was installed for.
    generation: u64,
    /// The binding being recorded.
    binding_id: String,
    /// When it was installed.
    started_at: u64,
}

/// The phase of the capture.
#[derive(Debug)]
enum RecordingPhase {
    Idle,
    Claimed(u64),
    Active(RecordingSession),
}

/// The contents of a phase.
pub enum PhaseView {
    /// No capture in progress.
    Idle,
    /// A slot is claimed, its session is still being set up.
    Claimed(u64),
    /// A live session.
    Active { generation: u64, binding_id: Seq<char>, started_at: u64 },
}

/// The capture session and the generation of the next claim.
#[derive(Debug)]
pub struct RecordingState {
    phase: RecordingPhase,
    next_generation: u64,
}

/// The contents of a [`RecordingState`].
pub struct RecordingView {
    pub phase: PhaseView,
    pub next_generation: u64,
}

impl View for RecordingState {
    type V = RecordingView;

    closed spec fn view(&self) -> RecordingView {
        RecordingView {
            phase: match self.phase {
                RecordingPhase::Idle => PhaseView::Idle,
                RecordingPhase::Claimed(generation) => PhaseView::Claimed(generation),
                RecordingPhase::Active(session) => PhaseView::Active {
                    generation: session.generation,
                    binding_id: session.binding_id@,
                    started_at: session.started_at,
                },
            },
            next_generation: self.next_generation,
        }
    }
}

/// A key event of the listener, to be shown to the user.
#[derive(Debug)]
pub struct KeyEvent {
    /// The modifier bits.
    pub modifiers: u32,
    /// The name of the key, if any.
    pub key: Option<String>,
    pub is_key_down: bool,
    /// The combo as a text, where the event makes one.
    pub hotkey_string: Option<String>,
}

/// One step of a recording loop.
#[derive(Debug)]
pub enum RecordingStep {
    /// A key event to show.
    Event(KeyEvent),
    /// The session is live and nothing is pending.
    Idle,
    /// The loop's session is gone.
    Stop,
}

/// The session has outlived its time.
pub open spec fn is_expired(s: RecordingView, now: u64) -> bool {
    s.phase matches PhaseView::Active { started_at, .. } && now - started_at
        >= MAX_RECORDING_DURATION
}

/// The state after the watchdog looked at it.
pub open spec fn after_expiry(s: RecordingView, now: u64) -> RecordingView {
    if is_expired(s, now) {
        RecordingView { phase: PhaseView::Idle, ..s }
    } else {
        s
    }
}

/// The generation after `g`.
pub open spec fn next_generation_of(g: u64) -> u64 {
    if g == u64::MAX {
        0
    } else {
        (g + 1) as u64
    }
}

/// The state after a claim was attempted.
pub open spec fn after_claim(s: RecordingView, now: u64) -> RecordingView {
    let live = after_expiry(s, now);
    if live.phase is Idle {
        RecordingView {
            phase: PhaseView::Claimed(live.next_generation),
            next_generation: next_generation_of(live.next_generation),
        }
    } else {
        live
    }
}

/// The state after the session of a claim was installed.
pub open spec fn after_install(
    s: RecordingView,
    generation: u64,
    binding_id: Seq<char>,
    now: u64,
) -> RecordingView {
    if s.phase == PhaseView::Claimed(generation) {
        RecordingView {
            phase: PhaseView::Active { generation, binding_id, started_at: now },
            ..s
        }
    } else {
        s
    }
}

/// The state after a claim was given up.
pub open spec fn after_abort(s: RecordingView, generation: u64) -> RecordingView {
    if s.phase == PhaseView::Claimed(generation) {
        RecordingView { phase: PhaseView::Idle, ..s }
    } else {
        s
    }
}

/// The state after a teardown.
pub open spec fn after_teardown(s: RecordingView) -> RecordingView {
    RecordingView { phase: PhaseView::Idle, ..s }
}

/// The loop of `generation` owns the live session.
pub open spec fn owns_session(s: RecordingView, generation: u64) -> bool {
    s.phase matches PhaseView::Active { generation: g, .. } && g == generation
}

/// While a claim or a live session exists, no second claim succeeds and none of
/// it is replaced.
pub proof fn a_second_start_is_rejected(s: RecordingView, now: u64)
    requires
        !(after_expiry(s, now).phase is Idle),
    ensures
        after_claim(s, now) == s,
{
}

/// A claim that was torn down cannot be installed any more.
pub proof fn a_torn_down_claim_is_never_installed(
    s: RecordingView,
    generation: u64,
    binding_id: Seq<char>,
    now: u64,
)
    ensures
        after_install(after_teardown(s), generation, binding_id, now) == after_teardown(s),
{
}

/// A claim that was torn down and replaced by a newer one cannot be installed
/// in its place.
pub proof fn a_superseded_claim_is_never_installed(
    s: RecordingView,
    stale: u64,
    binding_id: Seq<char>,
    claimed_at: u64,
    now: u64,
)
    requires
        s.phase == PhaseView::Claimed(stale),
        s.next_generation == next_generation_of(stale),
    ensures
        ({
            let fresh = after_claim(after_teardown(s), claimed_at);
            &&& fresh.phase == PhaseView::Claimed(s.next_generation)
            &&& after_install(fresh, stale, binding_id, now) == fresh
        }),
{
}

/// A session expires by the watchdog alone once its time is over, whoever looks
/// first, and the slot can be claimed again.
pub proof fn an_abandoned_session_expires(
    s: RecordingView,
    generation: u64,
    binding_id: Seq<char>,
    started_at: u64,
    now: u64,
)
    requires
        s.phase == PhaseView::Claimed(generation),
        now - started_at >= MAX_RECORDING_DURATION,
    ensures
        ({
            let live = after_install(s, generation, binding_id, started_at);
            &&& owns_session(live, generation)
            &&& after_expiry(live, now).phase is Idle
            &&& !owns_session(after_expiry(live, now), generation)
            &&& after_claim(live, now).phase is Claimed
        }),
{
}

/// Tearing down twice is the same as tearing down once.
pub proof fn teardown_is_idempotent(s: RecordingView)
    ensures
        after_teardown(after_teardown(s)) == after_teardown(s),
        forall|generation: u64| !owns_session(after_teardown(s), generation),
{
}

/// A loop whose session was torn down does not own the next one.
pub proof fn a_superseded_loop_stops(
    s: RecordingView,
    old_generation: u64,
    binding_id: Seq<char>,
    claimed_at: u64,
    now: u64,
)
    requires
        owns_session(s, old_generation),
        s.next_generation != old_generation,
    ensures
        ({
            let claimed = after_claim(after_teardown(s), claimed_at);
            let live = after_install(claimed, s.next_generation, binding_id, now);
            &&& owns_session(live, s.next_generation)
            &&& !owns_session(live, old_generation)
        }),
{
}

/// Anything that can happen to the capture.
pub enum RecordingMove {
    Expire { now: u64 },
    Claim { now: u64 },
    Install { generation: u64, binding_id: Seq<char>, now: u64 },
    Abort { generation: u64 },
    Teardown,
}

/// The state after one move.
pub open spec fn after_move(s: RecordingView, m: RecordingMove) -> RecordingView {
    match m {
        RecordingMove::Expire { now } => after_expiry(s, now),
        RecordingMove::Claim { now } => after_claim(s, now),
        RecordingMove::Install { generation, binding_id, now } => after_install(
            s,
            generation,
            binding_id,
            now,
        ),
        RecordingMove::Abort { generation } => after_abort(s, generation),
        RecordingMove::Teardown => after_teardown(s),
    }
}

/// The state after the moves, in order.
pub open spec fn after_moves(s: RecordingView, moves: Seq<RecordingMove>) -> RecordingView
    decreases moves.len(),
{
    if moves.len() == 0 {
        s
    } else {
        after_move(after_moves(s, moves.drop_last()), moves.last())
    }
}

/// The generations that the claims among the moves hand out, in order.
pub open spec fn handed_out(s: RecordingView, moves: Seq<RecordingMove>) -> Seq<u64>
    decreases moves.len(),
{
    if moves.len() == 0 {
        Seq::empty()
    } else {
        let before = after_moves(s, moves.drop_last());
        let earlier = handed_out(s, moves.drop_last());
        match moves.last() {
            RecordingMove::Claim { now } => if after_expiry(before, now).phase is Idle {
                earlier.push(before.next_generation)
            } else {
                earlier
            },
            _ => earlier,
        }
    }
}

/// The number of generations before the counter starts over.
pub open spec fn generations() -> int {
    0x1_0000_0000_0000_0000
}

/// The claims get the generations one after the other, whatever happens in
/// between. So no claim gets a generation that one of the 2^64 - 1 claims before
/// it got.
pub proof fn a_generation_is_handed_out_once(s: RecordingView, moves: Seq<RecordingMove>)
    ensures
        forall|i: int|
            0 <= i < handed_out(s, moves).len() ==> #[trigger] handed_out(s, moves)[i] == (
            s.next_generation + i) % generations(),
        after_moves(s, moves).next_generation == (s.next_generation + handed_out(s, moves).len())
            % generations(),
        forall|i: int, j: int|
            0 <= i < j < handed_out(s, moves).len() && j - i < generations()
                ==> #[trigger] handed_out(s, moves)[i] != #[trigger] handed_out(s, moves)[j],
    decreases moves.len(),
{
    let all = handed_out(s, moves);
    if moves.len() > 0 {
        a_generation_is_handed_out_once(s, moves.drop_last());
        let earlier = handed_out(s, moves.drop_last());
        assert forall|i: int| 0 <= i < all.len() implies #[trigger] all[i] == (s.next_generation
            + i) % generations() by {
            if i < earlier.len() {
                assert(all[i] == earlier[i]);
            }
        }
        if all.len() > earlier.len() {
            let n = s.next_generation + earlier.len();
            assert((n + 1) % generations() == (if n % generations() == generations() - 1 {
                0
            } else {
                n % generations() + 1
            }));
        }
    }
    assert forall|i: int, j: int| 0 <= i < j < all.len() && j - i < generations() implies #[trigger] all[i]
        != #[trigger] all[j] by {
        let a = s.next_generation + i;
        let b = s.next_generation + j;
        assert(all[i] == a % generations());
        assert(all[j] == b % generations());
    }
}

impl RecordingState {
    /// No capture in progress.
    pub fn new() -> (r: Self)
        ensures
            r@ == (RecordingView { phase: PhaseView::Idle, next_generation: 0 }),
    {
        RecordingState { phase: RecordingPhase::Idle, next_generation: 0 }
    }

    /// Ends a session that has outlived its time. Returns whether it did.
    pub fn expire(&mut self, now: u64) -> (r: bool)
        ensures
            r == is_expired(old(self)@, now),
            final(self)@ == after_expiry(old(self)@, now),
            r <==> (old(self)@.phase matches PhaseView::Active { started_at, .. } && now
                - started_at >= 30_000_000_000),
            r ==> final(self)@.phase is Idle,
            !r ==> final(self)@ == old(self)@,
            final(self)@.next_generation == old(self)@.next_generation,
    {
        let expired: bool = match &self.phase {
            RecordingPhase::Active(session) => now >= session.started_at && now - session.started_at
                >= MAX_RECORDING_DURATION,
            _ => false,
        };
        if expired {
            self.phase = RecordingPhase::Idle;
        }
        expired
    }

    /// Claims the slot and returns the generation of the claim. A stale session
    /// is ended first; a claim or a live session is an error.
    pub fn claim(&mut self, now: u64) -> (r: Result<u64, String>)
        ensures
            final(self)@ == after_claim(old(self)@, now),
            r is Ok == (after_expiry(old(self)@, now).phase is Idle),
            r matches Ok(generation) ==> generation == old(self)@.next_generation,
            r matches Err(error) ==> error@ == "Already recording"@,
            r is Ok <==> old(self)@.phase is Idle || (old(
                self,
            )@.phase matches PhaseView::Active { started_at, .. } && now - started_at
                >= 30_000_000_000),
            r matches Ok(generation) ==> final(self)@.phase == PhaseView::Claimed(generation),
            r is Ok ==> old(self)@.next_generation < u64::MAX ==> final(self)@.next_generation
                == old(self)@.next_generation + 1,
            r is Ok ==> old(self)@.next_generation == u64::MAX ==> final(self)@.next_generation
                == 0,
            r is Err ==> final(self)@ == old(self)@,
    {
        self.expire(now);
        match self.phase {
            RecordingPhase::Idle => {
                let generation: u64 = self.next_generation;
                self.next_generation = generation.wrapping_add(1);
                self.phase = RecordingPhase::Claimed(generation);
                Ok(generation)
            },
            _ => Err("Already recording".to_owned()),
        }
    }

    /// Whether the slot is still held by the claim `generation`.
    fn is_claimed_by(&self, generation: u64) -> (r: bool)
        ensures
            r == (self@.phase == PhaseView::Claimed(generation)),
    {
        match self.phase {
            RecordingPhase::Claimed(g) => g == generation,
            _ => false,
        }
    }

    /// Gives a claim up. Nothing happens where the claim is gone already.
    pub fn abort_claim(&mut self, generation: u64)
        ensures
            final(self)@ == after_abort(old(self)@, generation),
            old(self)@.phase == PhaseView::Claimed(generation) ==> final(self)@.phase is Idle,
            old(self)@.phase != PhaseView::Claimed(generation) ==> final(self)@ == old(self)@,
            final(self)@.next_generation == old(self)@.next_generation,
    {
        if self.is_claimed_by(generation) {
            self.phase = RecordingPhase::Idle;
        }
    }

    /// Installs the session of a claim. Returns the generation by which its
    /// loop is known, or `None` where the claim was torn down or replaced in
    /// the meantime: the listener must then be dropped.
    pub fn install_session(&mut self, generation: u64, binding_id: String, now: u64) -> (r: Option<
        u64,
    >)
        ensures
            r == (if old(self)@.phase == PhaseView::Claimed(generation) {
                Some(generation)
            } else {
                None
            }),
            final(self)@ == after_install(old(self)@, generation, binding_id@, now),
            r is Some <==> old(self)@.phase == PhaseView::Claimed(generation),
            r is Some ==> r == Some(generation) && final(self)@.phase == (PhaseView::Active {
                generation,
                binding_id: binding_id@,
                started_at: now,
            }),
            r is None ==> final(self)@ == old(self)@,
            final(self)@.next_generation == old(self)@.next_generation,
    {
        if self.is_claimed_by(generation) {
            self.phase =
            RecordingPhase::Active(RecordingSession { generation, binding_id, started_at: now });
            Some(generation)
        } else {
            None
        }
    }

    /// Ends the start of a recording once its listener was created, or failed
    /// to be: a failure gives the claim up.
    pub fn finish_start(
        &mut self,
        generation: u64,
        binding_id: String,
        listener: Result<(), String>,
        now: u64,
    ) -> (r: Result<Option<u64>, String>)
        ensures
            match listener {
                Ok(_) => {
                    &&& r == Ok::<Option<u64>, String>(
                        if old(self)@.phase == PhaseView::Claimed(generation) {
                            Some(generation)
                        } else {
                            None
                        },
                    )
                    &&& final(self)@ == after_install(old(self)@, generation, binding_id@, now)
                },
                Err(error) => {
                    &&& r is Err
                    &&& r->Err_0@ == "Failed to create keyboard listener: "@ + error@
                    &&& final(self)@ == after_abort(old(self)@, generation)
                },
            },
            r is Ok <==> listener is Ok,
            r matches Ok(Some(owner)) ==> owner == generation && final(self)@.phase == (
            PhaseView::Active { generation, binding_id: binding_id@, started_at: now }),
            r == Ok::<Option<u64>, String>(None) ==> final(self)@ == old(self)@,
            r is Err ==> final(self)@.phase != PhaseView::Claimed(generation),
    {
        match listener {
            Ok(_) => Ok(self.install_session(generation, binding_id, now)),
            Err(error) => {
                self.abort_claim(generation);
                let mut text: String = "Failed to create keyboard listener: ".to_owned();
                text.append(error.as_str());
                Err(text)
            },
        }
    }

    /// Ends any session or claim.
    pub fn teardown(&mut self)
        ensures
            final(self)@ == after_teardown(old(self)@),
            final(self)@.phase is Idle,
            final(self)@.next_generation == old(self)@.next_generation,
    {
        self.phase = RecordingPhase::Idle;
    }

    /// Whether the loop of `generation` still has a live session.
    pub fn is_running(&self, generation: u64) -> (r: bool)
        ensures
            r == owns_session(self@, generation),
            r <==> (self@.phase matches PhaseView::Active { generation: owner, .. } && owner
                == generation),
    {
        match &self.phase {
            RecordingPhase::Active(session) => session.generation == generation,
            _ => false,
        }
    }

    /// One tick of the recording loop `running`, with the event that its
    /// listener has pending, if any. Ends a stale session first, so an abandoned
    /// one expires even when no key is ever pressed.
    pub fn poll_for_loop(&mut self, running: u64, now: u64, pending: Option<KeyEvent>) -> (r:
        RecordingStep)
        ensures
            final(self)@ == after_expiry(old(self)@, now),
            r == (if !owns_session(after_expiry(old(self)@, now), running) {
                RecordingStep::Stop
            } else {
                match pending {
                    Some(event) => RecordingStep::Event(event),
                    None => RecordingStep::Idle,
                }
            }),
            r !is Stop <==> (old(self)@.phase matches PhaseView::Active {
                generation,
                started_at,
                ..
            } && generation == running && now - started_at < 30_000_000_000),
            r matches RecordingStep::Event(event) ==> pending == Some(event),
            r is Idle ==> pending is None,
    {
        self.expire(now);
        if !self.is_running(running) {
            return RecordingStep::Stop;
        }
        match pending {
            Some(event) => RecordingStep::Event(event),
            None => RecordingStep::Idle,
        }
    }

    /// Whether keys are being captured at `now`. Ends a stale session; a claim
    /// that is still being set up counts as capturing.
    pub fn is_capturing_at(&mut self, now: u64) -> (r: bool)
        ensures
            final(self)@ == after_expiry(old(self)@, now),
            r == !(after_expiry(old(self)@, now).phase is Idle),
            r <==> old(self)@.phase is Claimed || (old(
                self,
            )@.phase matches PhaseView::Active { started_at, .. } && now - started_at
                < 30_000_000_000),
            r ==> final(self)@ == old(self)@,
            !r ==> final(self)@.phase is Idle,
    {
        self.expire(now);
        !matches!(self.phase, RecordingPhase::Idle)
    }
}

/// A session lives for thirty seconds from its start, not a moment longer or
/// shorter; neither an idle state nor a claim expires.
pub proof fn a_session_lives_for_thirty_seconds(s: RecordingView, now: u64)
    ensures
        s.phase matches PhaseView::Active { generation, binding_id, started_at } ==> {
            &&& is_expired(s, now) <==> now >= started_at + 30 * 1_000_000_000
            &&& is_expired(s, now) ==> after_expiry(s, now).phase is Idle
            &&& !is_expired(s, now) ==> after_expiry(s, now) == s
        },
        s.phase !is Active ==> !is_expired(s, now) && after_expiry(s, now) == s,
        after_expiry(s, now).next_generation == s.next_generation,
{
}

/// A claim is granted exactly where nothing is claimed or live; it gets the next
/// generation, and the session that is installed for it is owned by it alone.
pub proof fn a_granted_claim_owns_its_session(
    s: RecordingView,
    binding_id: Seq<char>,
    claimed_at: u64,
    now: u64,
    other: u64,
)
    requires
        after_expiry(s, claimed_at).phase is Idle,
    ensures
        ({
            let claimed = after_claim(s, claimed_at);
            let live = after_install(claimed, s.next_generation, binding_id, now);
            &&& claimed.phase == PhaseView::Claimed(s.next_generation)
            &&& live.phase == (PhaseView::Active {
                generation: s.next_generation,
                binding_id,
                started_at: now,
            })
            &&& owns_session(live, other) <==> other == s.next_generation
            &&& other != s.next_generation ==> after_install(claimed, other, binding_id, now)
                == claimed && after_abort(claimed, other) == claimed
            &&& after_abort(claimed, s.next_generation).phase is Idle
        }),
{
}

} // verus!
