//! The cooperative executor and its suspension primitives.
//!
//! A fixed table of four task slots is driven by repeated sweeps: each
//! sweep polls every occupied slot once, in slot order, and a slot
//! whose computation reports completion is emptied at once and never
//! polled again. There is no preemption, no spawning after start-up
//! and no real asynchronous wake-up: a pending computation simply
//! re-checks its own readiness against the observations (clock tick,
//! input level) handed to the next poll. The loop that gathers those
//! observations from the hardware lives outside this crate; everything
//! it decides with is specified and proved here.

use vstd::prelude::*;

verus! {

use crate::time::{Duration, Instant};

/// Number of task slots; fixed at build time, never negotiated.
pub const TASK_CAPACITY: usize = 4;

// ---------------------------------------------------------------------
// Timer wait
// ---------------------------------------------------------------------

/// A timer wait: completes on the first poll whose clock reading is at
/// or past the deadline. Stateless beyond the deadline itself.
#[derive(Clone, Copy, PartialEq, Eq, Structural, Debug)]
pub struct SleepFuture {
    pub wake_at: Instant,
}

/// A timer wait is ready exactly when the observed time has reached
/// its deadline (inclusive).
pub open spec fn sleep_ready(f: SleepFuture, now: Instant) -> bool {
    now.millis_since_epoch >= f.wake_at.millis_since_epoch
}

/// Builds a timer wait whose deadline is the given duration after the
/// clock reading taken at construction — not at the first poll, so a
/// wait created long before it is polled may already have partially or
/// fully elapsed.
pub fn sleep_for(now: Instant, duration: Duration) -> (f: SleepFuture)
    ensures
        f.wake_at == now.spec_add(duration),
{
    SleepFuture { wake_at: now.wrapping_add(duration) }
}

impl SleepFuture {
    /// One poll against a clock observation: ready if and only if the
    /// deadline has been reached. The deadline never advances.
    pub fn poll(&self, now: Instant) -> (ready: bool)
        ensures
            ready == sleep_ready(*self, now),
    {
        now >= self.wake_at
    }
}

// ---------------------------------------------------------------------
// Button-release wait
// ---------------------------------------------------------------------

/// A level-triggered wait for the external input to go from asserted
/// back to released; completes with how long it was seen asserted.
/// `None` means the press has not yet been observed, `Some(t)` that it
/// has been continuously observed since `t`.
#[derive(Clone, Copy, Debug)]
pub struct ButtonReleaseFuture {
    pub press_started_at: Option<Instant>,
}

/// State a button wait starts in: the level is sampled at
/// construction, and an already-asserted level starts the measurement
/// right there.
pub open spec fn button_init(pressed: bool, now: Instant) -> ButtonReleaseFuture {
    ButtonReleaseFuture { press_started_at: if pressed { Some(now) } else { None } }
}

/// A button wait completes when a press has been observed and the
/// level now reads released.
pub open spec fn button_done(b: ButtonReleaseFuture, pressed: bool) -> bool {
    b.press_started_at is Some && !pressed
}

/// State after one poll: an idle wait that observes the press records
/// the current time; every other pending observation leaves the state
/// untouched.
pub open spec fn button_step(b: ButtonReleaseFuture, now: Instant, pressed: bool) -> ButtonReleaseFuture {
    if b.press_started_at is None && pressed {
        ButtonReleaseFuture { press_started_at: Some(now) }
    } else {
        b
    }
}

/// The duration a completing button wait reports: from the recorded
/// press start to the completing observation.
pub open spec fn button_elapsed(b: ButtonReleaseFuture, now: Instant) -> Duration {
    Duration {
        millis: (now.millis_since_epoch - b.press_started_at->0.millis_since_epoch) as u32,
    }
}

/// Builds a button-release wait, sampling the level once at
/// construction time.
pub fn wait_button_release(pressed: bool, now: Instant) -> (f: ButtonReleaseFuture)
    ensures
        f == button_init(pressed, now),
{
    ButtonReleaseFuture { press_started_at: if pressed { Some(now) } else { None } }
}

impl ButtonReleaseFuture {
    /// One poll against the sampled level and clock. Completes, with
    /// the measured hold time, exactly when a recorded press meets a
    /// released level; otherwise stays pending, recording the press
    /// start if this poll is the first to observe it. A completing
    /// poll's clock reading must not lie before the recorded press
    /// start: elapsed time of a reversed pair is undefined here.
    pub fn poll(&mut self, pressed: bool, now: Instant) -> (r: Option<Duration>)
        requires
            old(self).press_started_at matches Some(at) ==> (!pressed
                ==> at.millis_since_epoch <= now.millis_since_epoch),
        ensures
            *final(self) == button_step(*old(self), now, pressed),
            r is Some <==> button_done(*old(self), pressed),
            r matches Some(d) ==> d == button_elapsed(*old(self), now),
    {
        match self.press_started_at {
            Some(at) => {
                if !pressed {
                    Some(now.duration_since(at))
                } else {
                    None
                }
            },
            None => {
                if pressed {
                    self.press_started_at = Some(now);
                }
                None
            },
        }
    }
}

// ---------------------------------------------------------------------
// A chain of timer waits
// ---------------------------------------------------------------------

/// A computation composed of consecutive timer waits: the active wait,
/// then one more per queued duration. When the active wait elapses the
/// next queued duration starts counting from that very observation.
pub struct SleepChain {
    pub current: SleepFuture,
    pub rest: Vec<Duration>,
}

/// Mathematical shape of a [`SleepChain`].
#[verifier::ext_equal]
pub struct ChainV {
    pub current: SleepFuture,
    pub rest: Seq<Duration>,
}

impl View for SleepChain {
    type V = ChainV;

    open spec fn view(&self) -> ChainV {
        ChainV { current: self.current, rest: self.rest@ }
    }
}

/// A chain completes when its active wait is ready and nothing is
/// queued behind it.
pub open spec fn chain_done(c: ChainV, now: Instant) -> bool {
    sleep_ready(c.current, now) && c.rest.len() == 0
}

/// State after one poll of a chain: an elapsed active wait with work
/// queued starts the next wait from the current observation; anything
/// else leaves the chain untouched.
pub open spec fn chain_step(c: ChainV, now: Instant) -> ChainV {
    if sleep_ready(c.current, now) && c.rest.len() > 0 {
        ChainV {
            current: SleepFuture { wake_at: now.spec_add(c.rest[0]) },
            rest: c.rest.remove(0),
        }
    } else {
        c
    }
}

impl SleepChain {
    /// A chain of a single wait, measured from the given observation.
    pub fn new(now: Instant, first: Duration) -> (c: SleepChain)
        ensures
            c@.current.wake_at == now.spec_add(first),
            c@.rest == Seq::<Duration>::empty(),
    {
        SleepChain { current: sleep_for(now, first), rest: Vec::new() }
    }

    /// Queues one more wait behind the existing ones.
    pub fn then_wait(self, d: Duration) -> (c: SleepChain)
        ensures
            c@.current == self@.current,
            c@.rest == self@.rest.push(d),
    {
        let mut c = self;
        c.rest.push(d);
        c
    }

    /// One poll of the whole chain against a clock observation.
    pub fn poll(&mut self, now: Instant) -> (done: bool)
        ensures
            done == chain_done(old(self)@, now),
            final(self)@ == chain_step(old(self)@, now),
    {
        if self.current.poll(now) {
            if self.rest.len() == 0 {
                true
            } else {
                let d = self.rest.remove(0);
                self.current = sleep_for(now, d);
                false
            }
        } else {
            false
        }
    }
}

// ---------------------------------------------------------------------
// Tasks
// ---------------------------------------------------------------------

/// One registrable computation: polled repeatedly, eventually reports
/// completion, produces no value. A button wait used as a task
/// discards its measured duration; to read it, poll the
/// [`ButtonReleaseFuture`] directly.
pub enum Task {
    Sleep(SleepFuture),
    ButtonWait(ButtonReleaseFuture),
    Chain(SleepChain),
}

/// Mathematical shape of a [`Task`].
#[verifier::ext_equal]
pub enum TaskV {
    Sleep(SleepFuture),
    ButtonWait(ButtonReleaseFuture),
    Chain(ChainV),
}

impl View for Task {
    type V = TaskV;

    open spec fn view(&self) -> TaskV {
        match *self {
            Task::Sleep(f) => TaskV::Sleep(f),
            Task::ButtonWait(b) => TaskV::ButtonWait(b),
            Task::Chain(c) => TaskV::Chain(c@),
        }
    }
}

/// Whether one poll against the given observations completes a task.
pub open spec fn task_done(t: TaskV, now: Instant, pressed: bool) -> bool {
    match t {
        TaskV::Sleep(f) => sleep_ready(f, now),
        TaskV::ButtonWait(b) => button_done(b, pressed),
        TaskV::Chain(c) => chain_done(c, now),
    }
}

/// Task state after one poll against the given observations.
pub open spec fn task_step(t: TaskV, now: Instant, pressed: bool) -> TaskV {
    match t {
        TaskV::Sleep(f) => TaskV::Sleep(f),
        TaskV::ButtonWait(b) => TaskV::ButtonWait(button_step(b, now, pressed)),
        TaskV::Chain(c) => TaskV::Chain(chain_step(c, now)),
    }
}

impl Task {
    /// One poll of a task against the given observations: reports
    /// completion and performs exactly one transition of the task's
    /// own state machine.
    pub fn poll(&mut self, now: Instant, pressed: bool) -> (done: bool)
        ensures
            done == task_done(old(self)@, now, pressed),
            final(self)@ == task_step(old(self)@, now, pressed),
    {
        match self {
            Task::Sleep(f) => f.poll(now),
            Task::ButtonWait(b) => {
                let seen = b.press_started_at.is_some();
                if seen && !pressed {
                    true
                } else {
                    if !seen && pressed {
                        b.press_started_at = Some(now);
                    }
                    false
                }
            },
            Task::Chain(c) => c.poll(now),
        }
    }
}

// ---------------------------------------------------------------------
// The executor
// ---------------------------------------------------------------------

/// The two unrecoverable conditions: registering past the fixed
/// capacity, and a computation demanding the push-based wake-up this
/// runtime deliberately does not provide.
#[derive(Clone, Copy, PartialEq, Eq, Structural, Debug)]
pub enum FatalError {
    CapacityExceeded,
    WakeUnsupported,
}

/// The wake handle a polled computation holds as a formality. All
/// handles are equivalent; duplicating or dropping one does nothing,
/// and actually requesting a wake-up is unsupported by design — this
/// runtime re-polls on its own, it is never woken.
#[derive(Clone, Copy)]
pub struct NoopWaker;

impl NoopWaker {
    /// Hands out another equivalent handle.
    pub fn duplicate(&self) -> (w: NoopWaker) {
        NoopWaker
    }

    /// A computation that calls this was written for push-based
    /// wake-up: report the fatal misuse instead of pretending to
    /// schedule anything.
    pub fn request_wake(&self) -> (e: FatalError)
        ensures
            e is WakeUnsupported,
    {
        FatalError::WakeUnsupported
    }
}

/// The cooperative executor: four task slots, each empty or holding
/// one registered computation, swept in fixed slot order.
pub struct Executor {
    slot0: Option<Task>,
    slot1: Option<Task>,
    slot2: Option<Task>,
    slot3: Option<Task>,
}

/// Shape of one slot.
pub open spec fn slot_model(s: Option<Task>) -> Option<TaskV> {
    match s {
        Some(t) => Some(t@),
        None => None,
    }
}

/// The table a fresh executor starts with.
pub open spec fn empty_slots() -> Seq<Option<TaskV>> {
    seq![None, None, None, None]
}

/// Indicator of one occupied slot.
pub open spec fn slot_ind(s: Option<TaskV>) -> int {
    if s is Some {
        1
    } else {
        0
    }
}

/// How many of the four slots hold a computation.
pub open spec fn occupied_count(s: Seq<Option<TaskV>>) -> int {
    slot_ind(s[0]) + slot_ind(s[1]) + slot_ind(s[2]) + slot_ind(s[3])
}

/// Whether any slot is still free for a registration.
pub open spec fn has_free_slot(s: Seq<Option<TaskV>>) -> bool {
    s[0] is None || s[1] is None || s[2] is None || s[3] is None
}

/// The table after registering a task into the first free slot.
pub open spec fn register_model(s: Seq<Option<TaskV>>, t: TaskV) -> Seq<Option<TaskV>> {
    if s[0] is None {
        s.update(0, Some(t))
    } else if s[1] is None {
        s.update(1, Some(t))
    } else if s[2] is None {
        s.update(2, Some(t))
    } else {
        s.update(3, Some(t))
    }
}

/// One slot after one poll: an absent computation stays absent, a
/// completing one vacates the slot, a pending one takes one step.
pub open spec fn slot_after(s: Option<TaskV>, now: Instant, pressed: bool) -> Option<TaskV> {
    match s {
        None => None,
        Some(t) => if task_done(t, now, pressed) {
            None
        } else {
            Some(task_step(t, now, pressed))
        },
    }
}

/// The whole table after one sweep: every slot polled once, each
/// against the same observation, each independently of the others.
pub open spec fn sweep_model(s: Seq<Option<TaskV>>, now: Instant, pressed: bool) -> Seq<
    Option<TaskV>,
> {
    Seq::new(s.len(), |i: int| slot_after(s[i], now, pressed))
}

/// Polls one slot in place; reports whether it still holds a
/// computation afterwards.
fn poll_opt(slot: &mut Option<Task>, now: Instant, pressed: bool) -> (busy: bool)
    ensures
        slot_model(*final(slot)) == slot_after(slot_model(*old(slot)), now, pressed),
        busy == (*final(slot) is Some),
{
    let done = match slot {
        Some(t) => t.poll(now, pressed),
        None => false,
    };
    if done {
        *slot = None;
    }
    slot.is_some()
}

impl View for Executor {
    type V = Seq<Option<TaskV>>;

    closed spec fn view(&self) -> Seq<Option<TaskV>> {
        seq![
            slot_model(self.slot0),
            slot_model(self.slot1),
            slot_model(self.slot2),
            slot_model(self.slot3),
        ]
    }
}

impl Executor {
    /// An executor with every slot empty.
    pub fn new() -> (r: Executor)
        ensures
            r@ == empty_slots(),
    {
        let r = Executor { slot0: None, slot1: None, slot2: None, slot3: None };
        proof {
            assert(r@ =~= empty_slots());
        }
        r
    }

    /// Registers a computation into the first empty slot, builder
    /// style. Registering with no slot free is a fatal programming
    /// error and is ruled out here; [`Executor::try_with_task`] is the
    /// total variant that reports it instead.
    pub fn with_task(self, task: Task) -> (r: Executor)
        requires
            has_free_slot(self@),
        ensures
            r@ == register_model(self@, task@),
    {
        let mut r = self;
        if r.slot0.is_none() {
            r.slot0 = Some(task);
        } else if r.slot1.is_none() {
            r.slot1 = Some(task);
        } else if r.slot2.is_none() {
            r.slot2 = Some(task);
        } else {
            r.slot3 = Some(task);
        }
        r
    }

    /// Registration that reports capacity exhaustion instead of
    /// requiring a free slot: it succeeds if and only if a slot is
    /// free, and a fifth computation on a full table is always refused
    /// with the capacity error — never silently dropped.
    pub fn try_with_task(self, task: Task) -> (r: Result<Executor, FatalError>)
        ensures
            r is Ok <==> has_free_slot(self@),
            r matches Ok(ex) ==> ex@ == register_model(self@, task@),
            r matches Err(e) ==> e == FatalError::CapacityExceeded,
    {
        if self.slot0.is_none() || self.slot1.is_none() || self.slot2.is_none()
            || self.slot3.is_none() {
            Ok(self.with_task(task))
        } else {
            Err(FatalError::CapacityExceeded)
        }
    }

    /// How many computations are currently registered.
    pub fn task_count(&self) -> (n: usize)
        ensures
            n as int == occupied_count(self@),
    {
        let mut n: usize = 0;
        if self.slot0.is_some() {
            n = n + 1;
        }
        if self.slot1.is_some() {
            n = n + 1;
        }
        if self.slot2.is_some() {
            n = n + 1;
        }
        if self.slot3.is_some() {
            n = n + 1;
        }
        n
    }

    /// One sweep: polls every occupied slot once, in ascending slot
    /// order, against one observation of the clock and the input
    /// level; a completing computation vacates its slot immediately.
    /// Reports whether any computation is still pending — the driving
    /// loop stops on the first sweep after which none is.
    pub fn sweep(&mut self, now: Instant, pressed: bool) -> (busy: bool)
        ensures
            final(self)@ == sweep_model(old(self)@, now, pressed),
            busy == (occupied_count(final(self)@) > 0),
    {
        let b0 = poll_opt(&mut self.slot0, now, pressed);
        let b1 = poll_opt(&mut self.slot1, now, pressed);
        let b2 = poll_opt(&mut self.slot2, now, pressed);
        let b3 = poll_opt(&mut self.slot3, now, pressed);
        proof {
            assert(self@ =~= sweep_model(old(self)@, now, pressed));
        }
        b0 || b1 || b2 || b3
    }
}

// ---------------------------------------------------------------------
// Laws of the sweep
// ---------------------------------------------------------------------

/// Law: a sweep polls every occupied slot exactly once, and what
/// happens to a slot depends only on its own computation and the
/// observation, never on the other slots. A computation that stays
/// pending forever therefore cannot starve the ones registered after
/// it: they are still stepped on every sweep.
pub proof fn lemma_sweep_polls_each_slot(
    s: Seq<Option<TaskV>>,
    now: Instant,
    pressed: bool,
    i: int,
)
    requires
        0 <= i < s.len(),
    ensures
        sweep_model(s, now, pressed)[i] == slot_after(s[i], now, pressed),
        s[i] matches Some(t) ==> (!task_done(t, now, pressed) ==> sweep_model(s, now, pressed)[i]
            == Some(task_step(t, now, pressed))),
{
}

/// Law: a slot vacated by a completed computation stays empty — a
/// sweep never revives or refills it.
pub proof fn lemma_vacated_slot_stays_empty(
    s: Seq<Option<TaskV>>,
    now: Instant,
    pressed: bool,
    i: int,
)
    requires
        0 <= i < s.len(),
        s[i] is None,
    ensures
        sweep_model(s, now, pressed)[i] is None,
{
}

/// Law: the number of occupied slots never grows over a sweep — the
/// set of in-flight computations only shrinks once the executor runs.
pub proof fn lemma_sweep_occupied_monotone(s: Seq<Option<TaskV>>, now: Instant, pressed: bool)
    requires
        s.len() == 4,
    ensures
        occupied_count(sweep_model(s, now, pressed)) <= occupied_count(s),
{
}

/// Law: an observation that makes every registered computation ready
/// empties the whole table in a single sweep. Together with
/// monotonicity this is why a run over computations that all
/// eventually report ready terminates: once such an observation
/// arrives, the next sweep reports idle and the driving loop stops.
pub proof fn lemma_sweep_all_ready_empties(s: Seq<Option<TaskV>>, now: Instant, pressed: bool)
    requires
        s.len() == 4,
        forall|i: int|
            0 <= i < 4 ==> (#[trigger] s[i] matches Some(t) ==> task_done(t, now, pressed)),
    ensures
        occupied_count(sweep_model(s, now, pressed)) == 0,
{
}

/// The table after a driving loop has fed a whole sequence of
/// (clock, level) observations to consecutive sweeps, one sweep per
/// observation.
pub open spec fn run_model(s: Seq<Option<TaskV>>, obs: Seq<(Instant, bool)>) -> Seq<
    Option<TaskV>,
>
    decreases obs.len(),
{
    if obs.len() == 0 {
        s
    } else {
        run_model(sweep_model(s, obs[0].0, obs[0].1), obs.drop_first())
    }
}

/// Law: an emptied table stays empty for the rest of the feed — no
/// sweep ever revives a computation.
pub proof fn lemma_idle_table_stays_idle(s: Seq<Option<TaskV>>, obs: Seq<(Instant, bool)>)
    requires
        s.len() == 4,
        occupied_count(s) == 0,
    ensures
        run_model(s, obs).len() == 4,
        occupied_count(run_model(s, obs)) == 0,
    decreases obs.len(),
{
    if obs.len() > 0 {
        let s2 = sweep_model(s, obs[0].0, obs[0].1);
        assert(occupied_count(s2) == 0);
        lemma_idle_table_stays_idle(s2, obs.drop_first());
    }
}

/// Law: over a whole run the number of registered computations only
/// ever shrinks — there is no spawning once sweeping has begun.
pub proof fn lemma_run_occupied_monotone(s: Seq<Option<TaskV>>, obs: Seq<(Instant, bool)>)
    requires
        s.len() == 4,
    ensures
        run_model(s, obs).len() == 4,
        occupied_count(run_model(s, obs)) <= occupied_count(s),
    decreases obs.len(),
{
    if obs.len() > 0 {
        let s2 = sweep_model(s, obs[0].0, obs[0].1);
        lemma_sweep_occupied_monotone(s, obs[0].0, obs[0].1);
        lemma_run_occupied_monotone(s2, obs.drop_first());
    }
}

/// Law (termination): a run over computations that are all eventually
/// ready terminates. If some observation of the feed finds every
/// computation still registered at that point ready, then from that
/// sweep on the table is empty; the driving loop, which stops at the
/// first idle sweep, therefore stops no later than one sweep after it.
pub proof fn lemma_eventually_ready_run_terminates(
    s: Seq<Option<TaskV>>,
    obs: Seq<(Instant, bool)>,
    k: int,
)
    requires
        s.len() == 4,
        0 <= k < obs.len(),
        forall|i: int|
            0 <= i < 4 ==> ((#[trigger] run_model(s, obs.take(k))[i]) is Some ==> task_done(
                run_model(s, obs.take(k))[i]->0,
                obs[k].0,
                obs[k].1,
            )),
    ensures
        run_model(s, obs).len() == 4,
        occupied_count(run_model(s, obs)) == 0,
    decreases k,
{
    let s2 = sweep_model(s, obs[0].0, obs[0].1);
    if k == 0 {
        assert(obs.take(0).len() == 0);
        assert(run_model(s, obs.take(0)) == s);
        assert forall|i: int|
            0 <= i < 4 ==> (#[trigger] s[i] matches Some(t) ==> task_done(
                t,
                obs[0].0,
                obs[0].1,
            )) by {
            assert(run_model(s, obs.take(0))[i] == s[i]);
        }
        lemma_sweep_all_ready_empties(s, obs[0].0, obs[0].1);
        lemma_idle_table_stays_idle(s2, obs.drop_first());
    } else {
        let tail = obs.drop_first();
        assert(obs.take(k).drop_first() =~= tail.take(k - 1));
        assert(obs.take(k)[0] == obs[0]);
        assert(run_model(s, obs.take(k)) == run_model(s2, tail.take(k - 1)));
        assert(tail[k - 1] == obs[k]);
        lemma_eventually_ready_run_terminates(s2, tail, k - 1);
    }
}

/// Law: a four-slot table has a free slot exactly while fewer than
/// four computations are registered — so the fifth registration on a
/// full table, and only that, hits the capacity error.
pub proof fn lemma_full_table_has_no_free_slot(s: Seq<Option<TaskV>>)
    requires
        s.len() == 4,
    ensures
        has_free_slot(s) <==> occupied_count(s) < 4,
{
}

/// Law: a zero-length sleep is ready on the very first poll, already
/// at the observation it was constructed from.
pub proof fn lemma_zero_sleep_immediately_ready(now: Instant)
    ensures
        sleep_ready((SleepFuture { wake_at: now.spec_add(Duration { millis: 0 }) }), now),
{
}

/// Law: a button wait constructed while the level is asserted measures
/// the full press. Re-observing the asserted level leaves its recorded
/// start untouched, and the first released observation completes it
/// with exactly the time from the constructing observation to the
/// completing one.
pub proof fn lemma_press_measured_from_first_observation(t1: Instant, t2: Instant, t3: Instant)
    requires
        t1.millis_since_epoch <= t2.millis_since_epoch,
        t2.millis_since_epoch <= t3.millis_since_epoch,
    ensures
        !button_done(button_init(true, t1), true),
        button_step(button_init(true, t1), t2, true) == button_init(true, t1),
        button_done(button_init(true, t1), false),
        button_elapsed(button_init(true, t1), t3).millis == t3.millis_since_epoch
            - t1.millis_since_epoch,
{
}

/// Law: a button wait constructed while the level is released measures
/// only from the poll that first observes the press — never from
/// before the level was actually asserted. Released observations leave
/// it idle; once a press is observed at some instant, the completing
/// release reports exactly the time since that instant.
pub proof fn lemma_release_measured_from_observed_press(
    t0: Instant,
    t1: Instant,
    t2: Instant,
    t3: Instant,
)
    requires
        t0.millis_since_epoch <= t1.millis_since_epoch,
        t1.millis_since_epoch <= t2.millis_since_epoch,
        t2.millis_since_epoch <= t3.millis_since_epoch,
    ensures
        button_init(false, t0).press_started_at is None,
        button_step(button_init(false, t0), t1, false) == button_init(false, t0),
        button_step(button_init(false, t0), t2, true).press_started_at == Some(t2),
        button_done(button_step(button_init(false, t0), t2, true), false),
        button_elapsed(button_step(button_init(false, t0), t2, true), t3).millis
            == t3.millis_since_epoch - t2.millis_since_epoch,
{
}

} // verus!
