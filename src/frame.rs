use vstd::prelude::*;

use crate::size::Size;

verus! {

/// One fixed update period in the accumulator's unit.
///
/// Times are whole milliseconds and the period is `1000 / fps` milliseconds, so
/// the accumulator counts milliseconds multiplied by `fps`: one period is then
/// exactly 1000 units, with no rounding.
pub const PERIOD_UNITS: u64 = 1000;

/// What one pass of the loop decided.
#[derive(Clone, Copy, Debug, PartialEq, Eq, Structural)]
pub struct FrameAction {
    /// A settled resize to apply now, if one is due.
    pub resize: Option<Size>,
    /// Whether the update step runs in this pass (at most once).
    pub update: bool,
}

/// Timing state of the update loop: the fixed-step accumulator and the resize
/// debounce.
#[derive(Clone, Copy, Debug, PartialEq, Eq, Structural)]
pub struct FrameTimer {
    /// Target update rate, in updates per second.
    pub fps: u32,
    /// Time owed to the update step, in milliseconds multiplied by `fps`.
    pub accumulated: u64,
    /// When the previous pass started, in milliseconds.
    pub last_tick: u64,
    /// The most recent size seen that has not been applied yet.
    pub pending: Option<Size>,
    /// When `pending` was recorded, in milliseconds.
    pub pending_at: u64,
}

/// The distance between two instants.
pub open spec fn elapsed(a: u64, b: u64) -> nat {
    if a >= b { (a - b) as nat } else { (b - a) as nat }
}

impl FrameTimer {
    /// The accumulator after adding the time up to `now`.
    pub open spec fn accumulated_at(self, now: u64) -> nat {
        self.accumulated as nat + elapsed(self.last_tick, now) * self.fps as nat
    }

    /// Whether the accumulator still fits its integer after adding the time up to `now`.
    pub open spec fn can_advance(self, now: u64) -> bool {
        self.accumulated_at(now) <= u64::MAX
    }

    /// Whether a resize recorded at `at` has been left alone for longer than one
    /// period by `now`, that is `elapsed * fps > 1000`.
    pub open spec fn settled(self, at: u64, now: u64) -> bool {
        elapsed(at, now) * self.fps as nat > PERIOD_UNITS as nat
    }

    /// One pass of the loop at time `now`, with the resize that the platform
    /// reported in this pass, if any.
    pub open spec fn step(self, now: u64, event: Option<Size>) -> (FrameTimer, FrameAction) {
        let acc = self.accumulated_at(now);
        let recorded = event is Some;
        let pending = if recorded { event } else { self.pending };
        let pending_at = if recorded { now } else { self.pending_at };
        let settled = self.settled(pending_at, now);
        let resize = if settled { pending } else { None };
        let tick = acc >= PERIOD_UNITS;
        let next = FrameTimer {
            fps: self.fps,
            accumulated: (if tick { acc - PERIOD_UNITS } else { acc as int }) as u64,
            last_tick: now,
            pending: if settled { None } else { pending },
            pending_at,
        };
        (next, FrameAction { resize, update: resize is Some || tick })
    }

    /// A timer that starts at `now` with nothing owed and nothing pending.
    pub fn new(fps: u32, now: u64) -> (r: FrameTimer)
        ensures
            r == (FrameTimer { fps, accumulated: 0, last_tick: now, pending: None, pending_at: now }),
    {
        FrameTimer { fps, accumulated: 0, last_tick: now, pending: None, pending_at: now }
    }

    /// Whether a pass at `now` keeps the accumulator within its integer.
    pub fn fits(&self, now: u64) -> (r: bool)
        ensures
            r == self.can_advance(now),
    {
        let acc: u128 = self.accumulated as u128 + scaled(distance(self.last_tick, now), self.fps);
        acc <= u64::MAX as u128
    }

    /// One pass of the loop: adds the time since the previous pass, records a
    /// reported resize as the pending one and restarts its wait, applies the
    /// pending resize once it has been left alone for more than one period, and
    /// fires the update step at most once when it is owed one period or a
    /// resize was applied.
    pub fn frame(&mut self, now: u64, event: Option<Size>) -> (r: FrameAction)
        requires
            old(self).can_advance(now),
        ensures
            (*final(self), r) == old(self).step(now, event),
    {
        let acc: u128 = self.accumulated as u128 + scaled(distance(self.last_tick, now), self.fps);
        self.last_tick = now;
        if event.is_some() {
            self.pending = event;
            self.pending_at = now;
        }
        let mut resize: Option<Size> = None;
        let waited: u128 = scaled(distance(self.pending_at, now), self.fps);
        if waited > PERIOD_UNITS as u128 {
            resize = self.pending;
            self.pending = None;
        }
        let tick = acc >= PERIOD_UNITS as u128;
        self.accumulated = if tick {
            (acc - PERIOD_UNITS as u128) as u64
        } else {
            acc as u64
        };
        FrameAction { resize, update: resize.is_some() || tick }
    }
}

/// The timer and the actions after running the passes `frames`, each a time
/// and the resize reported in that pass, in order.
pub open spec fn run(t: FrameTimer, frames: Seq<(u64, Option<Size>)>) -> (FrameTimer, Seq<FrameAction>)
    decreases frames.len(),
{
    if frames.len() == 0 {
        (t, Seq::empty())
    } else {
        let (mid, actions) = run(t, frames.drop_last());
        let (next, action) = mid.step(frames.last().0, frames.last().1);
        (next, actions.push(action))
    }
}

/// The last resize reported in `frames`, with its time.
pub open spec fn last_event(frames: Seq<(u64, Option<Size>)>) -> Option<(u64, Size)>
    decreases frames.len(),
{
    if frames.len() == 0 {
        None
    } else {
        match frames.last().1 {
            Some(s) => Some((frames.last().0, s)),
            None => last_event(frames.drop_last()),
        }
    }
}

/// A burst of resizes: every pass without a report comes no later than one
/// period after the last report before it (`elapsed * fps <= 1000`).
pub open spec fn is_burst(fps: u32, frames: Seq<(u64, Option<Size>)>) -> bool {
    forall|i: int|
        0 <= i < frames.len() ==> match (#[trigger] frames[i]).1 {
            Some(_) => true,
            None => match last_event(frames.take(i)) {
                Some(e) => elapsed(e.0, frames[i].0) * fps as nat <= PERIOD_UNITS as nat,
                None => true,
            },
        }
}

proof fn lemma_burst_holds_back(t: FrameTimer, frames: Seq<(u64, Option<Size>)>)
    requires
        t.pending is None,
        is_burst(t.fps, frames),
    ensures
        run(t, frames).1.len() == frames.len(),
        forall|j: int| 0 <= j < frames.len() ==> (#[trigger] run(t, frames).1[j]).resize is None,
        run(t, frames).0.fps == t.fps,
        match last_event(frames) {
            Some(e) => run(t, frames).0.pending == Some(e.1) && run(t, frames).0.pending_at == e.0,
            None => run(t, frames).0.pending is None,
        },
    decreases frames.len(),
{
    if frames.len() > 0 {
        let prefix = frames.drop_last();
        let n = frames.len() - 1;
        assert forall|i: int| 0 <= i < prefix.len() implies match (#[trigger] prefix[i]).1 {
            Some(_) => true,
            None => match last_event(prefix.take(i)) {
                Some(e) => elapsed(e.0, prefix[i].0) * t.fps as nat <= PERIOD_UNITS as nat,
                None => true,
            },
        } by {
            assert(prefix.take(i) =~= frames.take(i));
            assert(prefix[i] == frames[i]);
        }
        lemma_burst_holds_back(t, prefix);
        assert(frames.take(n) =~= prefix);
        assert(frames[n] == frames.last());
        let mid = run(t, prefix).0;
        let actions = run(t, prefix).1;
        let (now, event) = frames[n];
        let (next, action) = mid.step(now, event);
        assert(run(t, frames) == (next, actions.push(action)));
        match event {
            Some(s) => {
                assert(elapsed(now, now) == 0);
                assert(elapsed(now, now) * mid.fps as nat == 0) by (nonlinear_arith)
                    requires
                        elapsed(now, now) == 0,
                ;
                assert(!mid.settled(now, now));
            },
            None => {
                assert(last_event(frames) == last_event(prefix));
            },
        }
        assert(action.resize is None);
        assert forall|j: int| 0 <= j < frames.len() implies (#[trigger] run(
            t,
            frames,
        ).1[j]).resize is None by {
            if j < n {
                assert(run(t, frames).1[j] == actions[j]);
            }
        }
    }
}

proof fn lemma_quiet_passes(t: FrameTimer, frames: Seq<(u64, Option<Size>)>)
    requires
        t.pending is None,
        forall|i: int| 0 <= i < frames.len() ==> (#[trigger] frames[i]).1 is None,
    ensures
        run(t, frames).1.len() == frames.len(),
        run(t, frames).0.pending is None,
        forall|j: int| 0 <= j < frames.len() ==> (#[trigger] run(t, frames).1[j]).resize is None,
    decreases frames.len(),
{
    if frames.len() > 0 {
        let prefix = frames.drop_last();
        assert forall|i: int| 0 <= i < prefix.len() implies (#[trigger] prefix[i]).1 is None by {
            assert(prefix[i] == frames[i]);
        }
        lemma_quiet_passes(t, prefix);
        let actions = run(t, prefix).1;
        assert(frames.last() == frames[frames.len() - 1]);
        assert forall|j: int| 0 <= j < frames.len() implies (#[trigger] run(
            t,
            frames,
        ).1[j]).resize is None by {
            if j < prefix.len() {
                assert(run(t, frames).1[j] == actions[j]);
            }
        }
    }
}

/// Debounce: a burst of resizes rebuilds nothing while it lasts, whatever the
/// sizes reported; the first pass without a report that comes more than one
/// period after the last report applies exactly the last reported size and
/// fires the update step; and no later pass without a report applies anything.
pub proof fn lemma_debounce(
    t: FrameTimer,
    frames: Seq<(u64, Option<Size>)>,
    quiet: u64,
    after: Seq<(u64, Option<Size>)>,
)
    requires
        t.pending is None,
        is_burst(t.fps, frames),
        last_event(frames) is Some,
        elapsed(last_event(frames).unwrap().0, quiet) * t.fps as nat > PERIOD_UNITS as nat,
        forall|i: int| 0 <= i < after.len() ==> (#[trigger] after[i]).1 is None,
    ensures
        forall|j: int| 0 <= j < frames.len() ==> (#[trigger] run(t, frames).1[j]).resize is None,
        run(t, frames).0.step(quiet, None).1.resize == Some(last_event(frames).unwrap().1),
        run(t, frames).0.step(quiet, None).1.update,
        forall|j: int|
            0 <= j < after.len() ==> (#[trigger] run(
                run(t, frames).0.step(quiet, None).0,
                after,
            ).1[j]).resize is None,
{
    lemma_burst_holds_back(t, frames);
    lemma_quiet_passes(run(t, frames).0.step(quiet, None).0, after);
}

/// A pass takes at most one period from the accumulator: exactly one when at
/// least one is owed, none otherwise; the update step fires when a period was
/// taken or a resize was applied, and only then.
pub proof fn lemma_at_most_one_period(t: FrameTimer, now: u64, event: Option<Size>)
    requires
        t.can_advance(now),
    ensures
        t.step(now, event).0.accumulated == (if t.accumulated_at(now) >= PERIOD_UNITS as nat {
            t.accumulated_at(now) - PERIOD_UNITS as nat
        } else {
            t.accumulated_at(now) as int
        }),
        t.step(now, event).1.update == (t.accumulated_at(now) >= PERIOD_UNITS as nat
            || t.step(now, event).1.resize is Some),
{
}

/// A pass that finds `k >= 1` whole periods owed fires the update step once and
/// leaves `k - 1` periods owed.
pub proof fn lemma_one_update_per_frame(t: FrameTimer, now: u64, event: Option<Size>, k: nat)
    requires
        k >= 1,
        t.accumulated_at(now) == k * PERIOD_UNITS as nat,
        t.can_advance(now),
    ensures
        t.step(now, event).1.update,
        t.step(now, event).0.accumulated == (k - 1) * PERIOD_UNITS as nat,
{
    assert(k * PERIOD_UNITS as nat - PERIOD_UNITS as nat == (k - 1) * PERIOD_UNITS as nat)
        by (nonlinear_arith);
}

/// A number of milliseconds in the accumulator's unit.
fn scaled(ms: u64, fps: u32) -> (r: u128)
    ensures
        r == ms as nat * fps as nat,
        r <= u64::MAX as nat * u32::MAX as nat,
{
    assert(ms as nat * fps as nat <= u64::MAX as nat * u32::MAX as nat) by (nonlinear_arith)
        requires
            ms <= u64::MAX,
            fps <= u32::MAX,
    ;
    (ms as u128) * (fps as u128)
}

/// The distance between two instants.
pub fn distance(a: u64, b: u64) -> (r: u64)
    ensures
        r == elapsed(a, b),
{
    if a >= b {
        a - b
    } else {
        b - a
    }
}

} // verus!
