use vstd::prelude::*;
use crate::config::{mm_to_px, DIRECTION_LOCK_MS, MIN_SWIPE_TENTH_MM, TENTH_MM_PER_INCH};
use crate::types::Direction;

verus! {

/// One motion sample from a pointer or touch: the time since the previous
/// sample and the displacement in whole pixels (`dy > 0` is up).
#[derive(Clone, Copy, Debug, Default, PartialEq, Eq, Structural)]
pub struct SwipeSample {
    pub dt_ms: u64,
    pub dx: i32,
    pub dy: i32,
}

/// The screen's density, which scales the minimum swipe length.
#[derive(Clone, Copy, Debug, PartialEq, Eq, Structural)]
pub struct SwipeConfig {
    pub dpi: u32,
}

/// The minimum swipe length on a screen of `dpi`, in whole pixels rounded
/// down.
pub open spec fn min_px(dpi: u32) -> int {
    (MIN_SWIPE_TENTH_MM as int * dpi as int) / TENTH_MM_PER_INCH as int
}

impl SwipeConfig {
    /// The minimum swipe length in whole pixels, rounded down.
    pub fn min_distance_px(&self) -> (r: u64)
        ensures
            r == min_px(self.dpi),
    {
        mm_to_px(MIN_SWIPE_TENTH_MM, self.dpi)
    }
}

#[derive(Clone, Copy, Debug, PartialEq, Eq, Structural, Hash)]
pub enum SwipeState {
    Idle,
    Moving,
    Locked,
}

/// Turns a stream of motion samples into at most one committed direction per
/// gesture.
#[derive(Clone, Copy, Debug, PartialEq, Eq, Structural)]
pub struct SwipeDetector {
    pub state: SwipeState,
    pub lock_dir: Option<Direction>,
    pub elapsed_ms: u64,
    pub accum_dx: i64,
    pub accum_dy: i64,
    pub committed: bool,
}

/// `x` held within the range of `i64`.
pub open spec fn clamp_i64(x: int) -> i64 {
    if x > i64::MAX {
        i64::MAX
    } else if x < i64::MIN {
        i64::MIN
    } else {
        x as i64
    }
}

pub open spec fn abs_int(x: int) -> int {
    if x < 0 { -x } else { x }
}

/// The direction of a displacement. A zero displacement gives `Up`. When both
/// components exceed 40% of the larger one it is the diagonal of their signs;
/// otherwise it is the axis of the larger component (`dy` on a tie).
pub open spec fn classify(dx: int, dy: int) -> Direction {
    let adx = abs_int(dx);
    let ady = abs_int(dy);
    let m = if adx >= ady { adx } else { ady };
    if m == 0 {
        Direction::Up
    } else if 5 * adx > 2 * m && 5 * ady > 2 * m {
        if dx > 0 {
            if dy > 0 { Direction::UpRight } else { Direction::DownRight }
        } else {
            if dy > 0 { Direction::UpLeft } else { Direction::DownLeft }
        }
    } else if adx > ady {
        if dx > 0 { Direction::Right } else { Direction::Left }
    } else {
        if dy > 0 { Direction::Up } else { Direction::Down }
    }
}

/// The displacement `(dx, dy)` is at least the minimum swipe length on a
/// screen of `dpi`, compared exactly: `|d| >= MIN_SWIPE_TENTH_MM * dpi / 254`.
pub open spec fn far_enough(dx: int, dy: int, dpi: u32) -> bool {
    (dx * dx + dy * dy) * (TENTH_MM_PER_INCH * TENTH_MM_PER_INCH) >= (MIN_SWIPE_TENTH_MM as int * dpi)
        * (MIN_SWIPE_TENTH_MM as int * dpi)
}

/// What one sample does to a detector, and what it reports.
/// Idle: a non-zero sample starts the gesture (its motion is not counted).
/// Moving: time and displacement accumulate; once the time reaches
/// `DIRECTION_LOCK_MS` the direction is fixed from the displacement so far,
/// and once it is fixed and the displacement is far enough the detector locks
/// and reports it. Locked: nothing happens.
pub open spec fn detector_step(d: SwipeDetector, dpi: u32, s: SwipeSample) -> (SwipeDetector, Option<Direction>) {
    match d.state {
        SwipeState::Idle => {
            if s.dx != 0 || s.dy != 0 {
                (SwipeDetector { state: SwipeState::Moving, ..d }, None)
            } else {
                (d, None)
            }
        },
        SwipeState::Moving => {
            let elapsed = d.elapsed_ms.saturating_add(s.dt_ms);
            let ax = clamp_i64(d.accum_dx + s.dx);
            let ay = clamp_i64(d.accum_dy + s.dy);
            let commit_now = !d.committed && elapsed >= DIRECTION_LOCK_MS;
            let lock_dir = if commit_now { Some(classify(ax as int, ay as int)) } else { d.lock_dir };
            let committed = d.committed || commit_now;
            let report = committed && far_enough(ax as int, ay as int, dpi);
            let next = SwipeDetector {
                state: if report { SwipeState::Locked } else { SwipeState::Moving },
                lock_dir,
                elapsed_ms: elapsed,
                accum_dx: ax,
                accum_dy: ay,
                committed,
            };
            (next, if report { lock_dir } else { None })
        },
        SwipeState::Locked => (d, None),
    }
}

/// `a + b`, held within the range of `i64`.
fn add_clamped(a: i64, b: i32) -> (r: i64)
    ensures
        r == clamp_i64(a + b),
{
    let s: i128 = a as i128 + b as i128;
    if s > i64::MAX as i128 {
        i64::MAX
    } else if s < i64::MIN as i128 {
        i64::MIN
    } else {
        s as i64
    }
}

/// `|x|`, which fits `u64` for every `i64`.
fn abs_u64(x: i64) -> (r: u64)
    ensures
        r == abs_int(x as int),
{
    if x < 0 {
        (-(x as i128)) as u64
    } else {
        x as u64
    }
}

proof fn lemma_square_bound(a: u64)
    requires
        a <= 0x8000_0000_0000_0000,
    ensures
        a as int * a as int <= 0x8000_0000_0000_0000 * 0x8000_0000_0000_0000,
{
    assert(a as int * a as int <= 0x8000_0000_0000_0000 * 0x8000_0000_0000_0000) by (nonlinear_arith)
        requires
            a <= 0x8000_0000_0000_0000,
    ;
}

/// `a >= ceil(t / b)` exactly when `a * b >= t`.
proof fn lemma_ceil_div(a: int, t: int, b: int)
    requires
        a >= 0,
        t >= 0,
        b > 0,
    ensures
        (a >= (t + b - 1) / b) <==> (a * b >= t),
{
    let q = (t + b - 1) / b;
    let r = (t + b - 1) % b;
    assert(t + b - 1 == b * q + r && 0 <= r < b) by {
        vstd::arithmetic::div_mod::lemma_fundamental_div_mod(t + b - 1, b);
    }
    if a >= q {
        assert(a * b >= b * q) by (nonlinear_arith)
            requires
                a >= q,
                b > 0,
        ;
    } else {
        assert(a * b <= b * q - b) by (nonlinear_arith)
            requires
                a <= q - 1,
                b > 0,
        ;
    }
}

/// A displacement that is far enough is also at least the whole-pixel
/// minimum distance long.
pub proof fn lemma_far_enough_reaches_min_px(dx: int, dy: int, dpi: u32)
    requires
        far_enough(dx, dy, dpi),
    ensures
        dx * dx + dy * dy >= min_px(dpi) * min_px(dpi),
{
    let t = MIN_SWIPE_TENTH_MM as int * dpi as int;
    let m = t / 254;
    let d2 = dx * dx + dy * dy;
    assert(m * 254 <= t && m >= 0) by {
        vstd::arithmetic::div_mod::lemma_fundamental_div_mod(t, 254);
    }
    assert(dx * dx + dy * dy >= 0) by (nonlinear_arith);
    assert((m * 254) * (m * 254) <= t * t) by (nonlinear_arith)
        requires
            0 <= m * 254 <= t,
    ;
    assert(m * m <= d2) by (nonlinear_arith)
        requires
            (m * 254) * (m * 254) <= t * t,
            d2 * (254 * 254) >= t * t,
    ;
}

/// The exact comparison of `far_enough`, on machine integers.
fn is_far_enough(dx: i64, dy: i64, dpi: u32) -> (r: bool)
    ensures
        r == far_enough(dx as int, dy as int, dpi),
{
    let adx = abs_u64(dx);
    let ady = abs_u64(dy);
    proof {
        lemma_square_bound(adx);
        lemma_square_bound(ady);
        assert(adx as int * adx as int == dx as int * dx as int) by (nonlinear_arith)
            requires
                adx as int == dx as int || adx as int == -(dx as int),
        ;
        assert(ady as int * ady as int == dy as int * dy as int) by (nonlinear_arith)
            requires
                ady as int == dy as int || ady as int == -(dy as int),
        ;
    }
    let d2: u128 = (adx as u128) * (adx as u128) + (ady as u128) * (ady as u128);
    proof {
        assert(MIN_SWIPE_TENTH_MM as int * dpi as int <= 70 * 0xffff_ffff) by (nonlinear_arith)
            requires
                MIN_SWIPE_TENTH_MM == 70,
                dpi <= 0xffff_ffffu32,
        ;
    }
    let min_scaled: u128 = MIN_SWIPE_TENTH_MM as u128 * dpi as u128;
    proof {
        assert(min_scaled * min_scaled <= 0x1_0000_0000_0000 * 0x1_0000_0000_0000) by (nonlinear_arith)
            requires
                min_scaled <= 70 * 0xffff_ffff,
        ;
    }
    let per_inch_sq: u128 = (TENTH_MM_PER_INCH * TENTH_MM_PER_INCH) as u128;
    let need: u128 = (min_scaled * min_scaled + (per_inch_sq - 1)) / per_inch_sq;
    proof {
        lemma_ceil_div(d2 as int, min_scaled * min_scaled, per_inch_sq as int);
    }
    d2 >= need
}

/// The direction of a displacement, as `classify` gives it.
pub fn primary_direction(dx: i64, dy: i64) -> (r: Direction)
    ensures
        r == classify(dx as int, dy as int),
{
    let adx = abs_u64(dx);
    let ady = abs_u64(dy);
    let m: u64 = if adx >= ady { adx } else { ady };
    if m == 0 {
        return Direction::Up;
    }
    if 5 * (adx as u128) > 2 * (m as u128) && 5 * (ady as u128) > 2 * (m as u128) {
        if dx > 0 {
            return if dy > 0 { Direction::UpRight } else { Direction::DownRight };
        } else {
            return if dy > 0 { Direction::UpLeft } else { Direction::DownLeft };
        }
    }
    if adx > ady {
        if dx > 0 { Direction::Right } else { Direction::Left }
    } else {
        if dy > 0 { Direction::Up } else { Direction::Down }
    }
}

impl SwipeDetector {
    /// The detector's consistency: a gesture is only under way once moving, and
    /// a fixed direction comes with the lock time behind it.
    pub open spec fn wf(&self) -> bool {
        &&& (self.state == SwipeState::Idle ==> !self.committed && self.elapsed_ms == 0 && self.accum_dx == 0
            && self.accum_dy == 0)
        &&& (self.committed ==> self.lock_dir is Some && self.elapsed_ms >= DIRECTION_LOCK_MS)
        &&& (self.lock_dir is Some ==> self.committed)
        &&& (self.state == SwipeState::Locked ==> self.committed)
    }

    pub open spec fn idle() -> SwipeDetector {
        SwipeDetector {
            state: SwipeState::Idle,
            lock_dir: None,
            elapsed_ms: 0,
            accum_dx: 0,
            accum_dy: 0,
            committed: false,
        }
    }

    pub fn new() -> (r: Self)
        ensures
            r == Self::idle(),
            r.wf(),
    {
        SwipeDetector {
            state: SwipeState::Idle,
            lock_dir: None,
            elapsed_ms: 0,
            accum_dx: 0,
            accum_dy: 0,
            committed: false,
        }
    }

    /// Forgets the gesture so far.
    pub fn reset(&mut self)
        ensures
            *final(self) == Self::idle(),
    {
        self.state = SwipeState::Idle;
        self.lock_dir = None;
        self.elapsed_ms = 0;
        self.accum_dx = 0;
        self.accum_dy = 0;
        self.committed = false;
    }

    /// Feeds one sample; returns the gesture's direction on the one sample
    /// that completes it.
    pub fn update(&mut self, cfg: &SwipeConfig, sample: SwipeSample) -> (r: Option<Direction>)
        ensures
            (*final(self), r) == detector_step(*old(self), cfg.dpi, sample),
            old(self).wf() ==> final(self).wf(),
            old(self).wf() && r is Some ==> final(self).state == SwipeState::Locked && final(self).elapsed_ms
                >= DIRECTION_LOCK_MS && far_enough(final(self).accum_dx as int, final(self).accum_dy as int, cfg.dpi)
                && final(self).accum_dx * final(self).accum_dx + final(self).accum_dy * final(self).accum_dy
                >= min_px(cfg.dpi) * min_px(cfg.dpi) && r == final(self).lock_dir,
            old(self).wf() && final(self).lock_dir is Some ==> final(self).elapsed_ms >= DIRECTION_LOCK_MS,
            old(self).wf() && old(self).lock_dir is Some ==> final(self).lock_dir == old(self).lock_dir && (r is Some
                ==> r == old(self).lock_dir),
    {
        proof {
            if old(self).wf() {
                lemma_report_needs_time_and_distance(*old(self), cfg.dpi, sample);
            }
            let (next, rr) = detector_step(*old(self), cfg.dpi, sample);
            if rr is Some && far_enough(next.accum_dx as int, next.accum_dy as int, cfg.dpi) {
                lemma_far_enough_reaches_min_px(next.accum_dx as int, next.accum_dy as int, cfg.dpi);
            }
        }
        match self.state {
            SwipeState::Idle => {
                if sample.dx != 0 || sample.dy != 0 {
                    self.state = SwipeState::Moving;
                }
            },
            SwipeState::Moving => {
                self.elapsed_ms = self.elapsed_ms.saturating_add(sample.dt_ms);
                self.accum_dx = add_clamped(self.accum_dx, sample.dx);
                self.accum_dy = add_clamped(self.accum_dy, sample.dy);
                if !self.committed && self.elapsed_ms >= DIRECTION_LOCK_MS {
                    self.lock_dir = Some(primary_direction(self.accum_dx, self.accum_dy));
                    self.committed = true;
                }
                if self.committed && is_far_enough(self.accum_dx, self.accum_dy, cfg.dpi) {
                    self.state = SwipeState::Locked;
                    return self.lock_dir;
                }
            },
            SwipeState::Locked => {},
        }
        None
    }
}

/// How many of `samples`, fed in order to a detector that starts as `d`,
/// make it report a direction.
pub open spec fn reports(d: SwipeDetector, dpi: u32, samples: Seq<SwipeSample>) -> nat
    decreases samples.len(),
{
    if samples.len() == 0 {
        0
    } else {
        let (next, r) = detector_step(d, dpi, samples[0]);
        (if r is Some { 1nat } else { 0nat }) + reports(next, dpi, samples.drop_first())
    }
}

/// A direction is fixed only after `DIRECTION_LOCK_MS` of motion, from the
/// displacement at that moment, and is never changed afterwards; it is
/// reported only when the detector moved, has that much motion time behind
/// it, and the displacement reached the minimum swipe length.
pub proof fn lemma_report_needs_time_and_distance(d: SwipeDetector, dpi: u32, s: SwipeSample)
    requires
        d.wf(),
    ensures
        ({
            let (next, r) = detector_step(d, dpi, s);
            &&& next.wf()
            &&& (r is Some ==> d.state == SwipeState::Moving && next.state == SwipeState::Locked
                && next.elapsed_ms >= DIRECTION_LOCK_MS && far_enough(
                next.accum_dx as int,
                next.accum_dy as int,
                dpi,
            ) && r == next.lock_dir)
            &&& (next.committed && !d.committed ==> next.elapsed_ms >= DIRECTION_LOCK_MS && next.lock_dir
                == Some(classify(next.accum_dx as int, next.accum_dy as int)))
            &&& (d.committed ==> next.committed && next.lock_dir == d.lock_dir)
        }),
{
}

/// A locked detector reports nothing more until it is reset.
pub proof fn lemma_locked_is_silent(d: SwipeDetector, dpi: u32, samples: Seq<SwipeSample>)
    requires
        d.state == SwipeState::Locked,
    ensures
        reports(d, dpi, samples) == 0,
    decreases samples.len(),
{
    if samples.len() > 0 {
        lemma_locked_is_silent(d, dpi, samples.drop_first());
    }
}

/// A gesture is reported at most once, whatever samples follow.
pub proof fn lemma_reports_at_most_once(d: SwipeDetector, dpi: u32, samples: Seq<SwipeSample>)
    requires
        d.wf(),
    ensures
        reports(d, dpi, samples) <= 1,
    decreases samples.len(),
{
    if samples.len() > 0 {
        let (next, r) = detector_step(d, dpi, samples[0]);
        lemma_report_needs_time_and_distance(d, dpi, samples[0]);
        if r is Some {
            lemma_locked_is_silent(next, dpi, samples.drop_first());
        } else {
            lemma_reports_at_most_once(next, dpi, samples.drop_first());
        }
    }
}

} // verus!
