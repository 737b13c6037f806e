use vstd::prelude::*;
use crate::combat::{judge, judge_outcome, opening_at, opening_from_index};
use crate::config::{
    BEST_OF, CLASH_DELAY_MAX_MS, CLASH_DELAY_MIN_MS, CLASH_INPUT_WINDOW_MS, INPUT_WINDOW_MS, NEXT_ROUND_MS,
    RANDOM_DELAY_MAX_MS, RANDOM_DELAY_MIN_MS, RESULT_FLASH_MS, ROUNDS_TO_WIN, START_DELAY_MS, TIE_WINDOW_MS,
};
use crate::logging::{DuelLog, MatchLog};
use crate::rng::{range_draw, xorshift_step, XorShift32};
use crate::types::{
    Actor, Direction, DuelPhase, GoEvent, MatchState, Opening, Outcome, RoundMeta, RoundResult, SwipeEvent,
};

verus! {

/// How a machine is started: the seed of its generator. `clash` is carried
/// for callers; a clash is always played again as a tighter rematch.
#[derive(Clone, Copy, Debug, PartialEq, Eq, Structural)]
pub struct DuelConfig {
    pub seed: u32,
    pub clash: bool,
}

impl Default for DuelConfig {
    fn default() -> (r: Self)
        ensures
            r.seed == 0xA1D0_5EED,
            r.clash,
    {
        DuelConfig { seed: 0xA1D0_5EED, clash: true }
    }
}

/// The duel between a human and the computer, driven by `tick` and `on_swipe`
/// with timestamps chosen by the caller; it never reads a clock.
#[derive(Clone, Debug)]
pub struct DuelMachine {
    pub phase: DuelPhase,
    pub rng: XorShift32,
    pub seed: u32,
    pub human_opening: Opening,
    pub ai_opening: Opening,
    pub go_ts_ms: Option<u64>,
    pub phase_start_ms: u64,
    pub delay_target_ms: Option<u64>,
    pub human_swipe: Option<SwipeEvent>,
    pub ai_swipe: Option<SwipeEvent>,
    pub round_results: Vec<RoundResult>,
    pub round_meta: Vec<RoundMeta>,
    pub match_state: MatchState,
    pub human_score: u8,
    pub ai_score: u8,
    pub input_window_ms: u64,
    /// Decided rounds before the current one; a clash does not count.
    pub round_index: u32,
    /// Whether the latest result was a clash, so that the next round is its
    /// rematch.
    pub last_clash: bool,
    /// The latest time observed, by a tick or by opening GO by hand; earlier
    /// ticks are ignored.
    pub last_tick_ms: u64,
}

/// The machine as a mathematical value: its generator as its state word and
/// its records as sequences.
pub struct DuelState {
    pub phase: DuelPhase,
    pub rng: u32,
    pub seed: u32,
    pub human_opening: Opening,
    pub ai_opening: Opening,
    pub go_ts_ms: Option<u64>,
    pub phase_start_ms: u64,
    pub delay_target_ms: Option<u64>,
    pub human_swipe: Option<SwipeEvent>,
    pub ai_swipe: Option<SwipeEvent>,
    pub results: Seq<RoundResult>,
    pub metas: Seq<RoundMeta>,
    pub match_state: MatchState,
    pub human_score: u8,
    pub ai_score: u8,
    pub input_window_ms: u64,
    pub round_index: u32,
    pub last_clash: bool,
    pub last_tick_ms: u64,
}

impl View for DuelMachine {
    type V = DuelState;

    open spec fn view(&self) -> DuelState {
        DuelState {
            phase: self.phase,
            rng: self.rng@,
            seed: self.seed,
            human_opening: self.human_opening,
            ai_opening: self.ai_opening,
            go_ts_ms: self.go_ts_ms,
            phase_start_ms: self.phase_start_ms,
            delay_target_ms: self.delay_target_ms,
            human_swipe: self.human_swipe,
            ai_swipe: self.ai_swipe,
            results: self.round_results@,
            metas: self.round_meta@,
            match_state: self.match_state,
            human_score: self.human_score,
            ai_score: self.ai_score,
            input_window_ms: self.input_window_ms,
            round_index: self.round_index,
            last_clash: self.last_clash,
            last_tick_ms: self.last_tick_ms,
        }
    }
}

/// The later of two times.
pub open spec fn later(a: u64, b: u64) -> u64 {
    if a >= b { a } else { b }
}

/// The opening drawn from generator state `x`: the next value, modulo 10.
pub open spec fn opening_drawn(x: u32) -> Opening {
    opening_at((xorshift_step(x) % 10) as nat)
}

/// The generator state a seed starts from.
pub open spec fn seed_state(seed: u32) -> u32 {
    if seed == 0 { 1 } else { seed }
}

/// Who scores from an outcome; nobody on a clash.
pub open spec fn point_to(o: Outcome) -> Option<Actor> {
    match o {
        Outcome::HumanWin | Outcome::WrongAi | Outcome::EarlyAi => Some(Actor::Human),
        Outcome::AiWin | Outcome::WrongHuman | Outcome::EarlyHuman => Some(Actor::Ai),
        Outcome::Clash => None,
    }
}

pub open spec fn match_state_of(human_score: u8, ai_score: u8) -> MatchState {
    if human_score >= ROUNDS_TO_WIN {
        MatchState::HumanWon
    } else if ai_score >= ROUNDS_TO_WIN {
        MatchState::AiWon
    } else {
        MatchState::InProgress
    }
}

/// The phases in which the current round is still undecided, so that a swipe
/// before GO ends it.
pub open spec fn round_open(p: DuelPhase) -> bool {
    p == DuelPhase::Standoff || p == DuelPhase::RandomDelay || p == DuelPhase::GoSignal || p
        == DuelPhase::InputWindow
}

/// The machine as `new` leaves it.
pub open spec fn initial_state(seed: u32, start_ms: u64) -> DuelState {
    let r0 = seed_state(seed);
    let r1 = xorshift_step(r0);
    let r2 = xorshift_step(r1);
    DuelState {
        phase: DuelPhase::Standoff,
        rng: r2,
        seed,
        human_opening: opening_drawn(r0),
        ai_opening: opening_drawn(r1),
        go_ts_ms: None,
        phase_start_ms: start_ms,
        delay_target_ms: None,
        human_swipe: None,
        ai_swipe: None,
        results: Seq::empty(),
        metas: Seq::empty(),
        match_state: MatchState::InProgress,
        human_score: 0,
        ai_score: 0,
        input_window_ms: INPUT_WINDOW_MS,
        round_index: 0,
        last_clash: false,
        last_tick_ms: start_ms,
    }
}

/// A round set up at `now`: fresh openings for both sides, then a wait drawn
/// from the ordinary bounds, or from the clash bounds for a rematch, whose
/// window is then the clash window too.
pub open spec fn begin_wait(s: DuelState, now: u64, clash: bool) -> DuelState {
    let r1 = xorshift_step(s.rng);
    let r2 = xorshift_step(r1);
    let r3 = xorshift_step(r2);
    let delay = if clash {
        range_draw(CLASH_DELAY_MIN_MS, CLASH_DELAY_MAX_MS, r3)
    } else {
        range_draw(RANDOM_DELAY_MIN_MS, RANDOM_DELAY_MAX_MS, r3)
    };
    DuelState {
        phase: DuelPhase::RandomDelay,
        rng: r3,
        human_opening: opening_drawn(s.rng),
        ai_opening: opening_drawn(r1),
        go_ts_ms: None,
        phase_start_ms: now,
        delay_target_ms: Some(now.saturating_add(delay)),
        human_swipe: None,
        ai_swipe: None,
        input_window_ms: if clash { CLASH_INPUT_WINDOW_MS } else { INPUT_WINDOW_MS },
        ..s
    }
}

/// The score and flags after a round ended with `o`.
pub open spec fn settle(s: DuelState, o: Outcome) -> DuelState {
    match point_to(o) {
        Some(Actor::Human) => {
            let h = s.human_score.saturating_add(1);
            DuelState { human_score: h, match_state: match_state_of(h, s.ai_score), last_clash: false, ..s }
        },
        Some(Actor::Ai) => {
            let a = s.ai_score.saturating_add(1);
            DuelState { ai_score: a, match_state: match_state_of(s.human_score, a), last_clash: false, ..s }
        },
        None => DuelState { last_clash: true, input_window_ms: CLASH_INPUT_WINDOW_MS, ..s },
    }
}

/// The GO time a resolved round is measured from.
pub open spec fn go_of(s: DuelState) -> u64 {
    match s.go_ts_ms {
        Some(g) => g,
        None => s.phase_start_ms,
    }
}

pub open spec fn dir_of(e: Option<SwipeEvent>) -> Option<Direction> {
    match e {
        Some(e) => Some(e.dir),
        None => None,
    }
}

/// The reaction time of a swipe after `go`.
pub open spec fn reaction_of(e: Option<SwipeEvent>, go: u64) -> Option<u64> {
    match e {
        Some(e) => Some(e.ts_ms.saturating_sub(go)),
        None => None,
    }
}

pub open spec fn as_u32_clamped(x: Option<u64>) -> Option<u32> {
    match x {
        Some(v) => Some(if v > u32::MAX { u32::MAX } else { v as u32 }),
        None => None,
    }
}

/// The outcome the resolver gives for the swipes the machine holds.
pub open spec fn resolved_outcome(s: DuelState) -> Outcome {
    let go = go_of(s);
    judge(
        s.human_opening,
        s.ai_opening,
        dir_of(s.human_swipe),
        dir_of(s.ai_swipe),
        reaction_of(s.human_swipe, go),
        reaction_of(s.ai_swipe, go),
        TIE_WINDOW_MS,
    )
}

/// The round resolved at `now`: its result and inputs are appended, the
/// score is settled and the result is shown.
pub open spec fn resolve_round(s: DuelState, now: u64) -> DuelState {
    let go = go_of(s);
    let o = resolved_outcome(s);
    let result = RoundResult {
        human_opening: s.human_opening,
        ai_opening: s.ai_opening,
        outcome: o,
        human_reaction_ms: as_u32_clamped(reaction_of(s.human_swipe, go)),
        ai_reaction_ms: as_u32_clamped(reaction_of(s.ai_swipe, go)),
    };
    let meta = RoundMeta { round_index: s.round_index, go_ts_ms: go, human: s.human_swipe, ai: s.ai_swipe };
    settle(
        DuelState {
            results: s.results.push(result),
            metas: s.metas.push(meta),
            phase: DuelPhase::ResultFlash,
            phase_start_ms: now,
            ..s
        },
        o,
    )
}

/// Whether the match is over once the current round is decided: a side has
/// the wins it needs, or the decided rounds used up the budget.
pub open spec fn match_over(s: DuelState) -> bool {
    s.match_state != MatchState::InProgress || (!s.last_clash && s.round_index >= BEST_OF - 1)
}

/// What a tick at `now` does. A tick earlier than the latest observed time
/// or than the start of the current phase changes nothing. Standoff: after the warm-up the first round begins. RandomDelay:
/// when the wait is over, GO is given at `now`. GoSignal: the input window
/// opens. InputWindow: when the window has elapsed or both sides answered,
/// the round is resolved; Resolution resolves at once. ResultFlash: after the
/// hold, NextRound. NextRound: the match ends if it is over; otherwise, after
/// the pause, a clash is played again under the clash timings with the same
/// round index, and any other result moves on to the next index.
pub open spec fn tick_next(s0: DuelState, now: u64) -> DuelState {
    if now < s0.last_tick_ms || now < s0.phase_start_ms {
        s0
    } else {
        let s = DuelState { last_tick_ms: now, ..s0 };
        let elapsed = now.saturating_sub(s.phase_start_ms);
        match s.phase {
            DuelPhase::Standoff => if elapsed >= START_DELAY_MS {
                begin_wait(s, now, false)
            } else {
                s
            },
            DuelPhase::RandomDelay => match s.delay_target_ms {
                Some(t) => if now >= t {
                    DuelState {
                        phase: DuelPhase::GoSignal,
                        go_ts_ms: Some(now),
                        phase_start_ms: now,
                        delay_target_ms: None,
                        ..s
                    }
                } else {
                    s
                },
                None => s,
            },
            DuelPhase::GoSignal => DuelState { phase: DuelPhase::InputWindow, phase_start_ms: now, ..s },
            DuelPhase::InputWindow => if elapsed >= s.input_window_ms || (s.human_swipe is Some
                && s.ai_swipe is Some) {
                resolve_round(s, now)
            } else {
                s
            },
            DuelPhase::Resolution => resolve_round(s, now),
            DuelPhase::ResultFlash => if elapsed >= RESULT_FLASH_MS {
                DuelState { phase: DuelPhase::NextRound, phase_start_ms: now, ..s }
            } else {
                s
            },
            DuelPhase::NextRound => if match_over(s) {
                DuelState { phase: DuelPhase::Finished, ..s }
            } else if elapsed >= NEXT_ROUND_MS {
                if s.last_clash {
                    begin_wait(s, now, true)
                } else {
                    begin_wait(DuelState { round_index: s.round_index.saturating_add(1), ..s }, now, false)
                }
            } else {
                s
            },
            DuelPhase::Finished | DuelPhase::Reset => s,
        }
    }
}

pub open spec fn early_outcome(actor: Actor) -> Outcome {
    match actor {
        Actor::Human => Outcome::EarlyHuman,
        Actor::Ai => Outcome::EarlyAi,
    }
}

/// A swipe at `ts` that came before GO: the swiping side loses the round at
/// once. Its record holds the GO time, or `ts + 1` when GO was not yet given,
/// and the swipe in place of that side's.
pub open spec fn early_loss(s: DuelState, actor: Actor, dir: Direction, ts: u64) -> DuelState {
    let o = early_outcome(actor);
    let ev = SwipeEvent { dir, ts_ms: ts };
    let go = match s.go_ts_ms {
        Some(g) => g,
        None => ts.saturating_add(1),
    };
    let result = RoundResult {
        human_opening: s.human_opening,
        ai_opening: s.ai_opening,
        outcome: o,
        human_reaction_ms: None,
        ai_reaction_ms: None,
    };
    let meta = RoundMeta {
        round_index: s.round_index,
        go_ts_ms: go,
        human: if actor == Actor::Human { Some(ev) } else { s.human_swipe },
        ai: if actor == Actor::Ai { Some(ev) } else { s.ai_swipe },
    };
    settle(
        DuelState {
            results: s.results.push(result),
            metas: s.metas.push(meta),
            phase: DuelPhase::ResultFlash,
            phase_start_ms: ts,
            ..s
        },
        o,
    )
}

/// Whether a swipe at `ts` comes before GO in a round that is still open.
pub open spec fn is_early(s: DuelState, ts: u64) -> bool {
    round_open(s.phase) && (s.go_ts_ms is None || ts < s.go_ts_ms->0)
}

/// What a swipe does. Before GO, in a round still open, it is an early loss.
/// In the input window, a swipe at most the window after GO is kept if it is
/// that side's first; anything else is ignored.
pub open spec fn swipe_next(s: DuelState, actor: Actor, dir: Direction, ts: u64) -> DuelState {
    if is_early(s, ts) {
        early_loss(s, actor, dir, ts)
    } else if s.phase == DuelPhase::InputWindow && s.go_ts_ms is Some && ts - s.go_ts_ms->0
        <= s.input_window_ms {
        let ev = SwipeEvent { dir, ts_ms: ts };
        match actor {
            Actor::Human => if s.human_swipe is None {
                DuelState { human_swipe: Some(ev), ..s }
            } else {
                s
            },
            Actor::Ai => if s.ai_swipe is None {
                DuelState { ai_swipe: Some(ev), ..s }
            } else {
                s
            },
        }
    } else {
        s
    }
}

/// The machine after `reset_match` at `now`: a new match with fresh openings.
pub open spec fn reset_state(s: DuelState, now: u64) -> DuelState {
    let r1 = xorshift_step(s.rng);
    let r2 = xorshift_step(r1);
    DuelState {
        phase: DuelPhase::Standoff,
        rng: r2,
        human_opening: opening_drawn(s.rng),
        ai_opening: opening_drawn(r1),
        go_ts_ms: None,
        phase_start_ms: now,
        delay_target_ms: None,
        human_swipe: None,
        ai_swipe: None,
        results: Seq::empty(),
        metas: Seq::empty(),
        match_state: MatchState::InProgress,
        human_score: 0,
        ai_score: 0,
        input_window_ms: INPUT_WINDOW_MS,
        round_index: 0,
        last_clash: false,
        last_tick_ms: later(s.last_tick_ms, now),
        ..s
    }
}

/// The exported record of round `i`.
pub open spec fn record_log(s: DuelState, i: int) -> DuelLog {
    DuelLog {
        seed: s.seed,
        round_index: s.metas[i].round_index,
        human_opening: s.results[i].human_opening,
        ai_opening: s.results[i].ai_opening,
        go: GoEvent { ts_ms: s.metas[i].go_ts_ms },
        human: s.metas[i].human,
        ai: s.metas[i].ai,
        outcome: s.results[i].outcome,
        clash: s.results[i].outcome == Outcome::Clash,
    }
}

/// A held swipe came after GO and within the ordinary window.
pub open spec fn swipe_fits(e: Option<SwipeEvent>, go: Option<u64>) -> bool {
    e is Some ==> go is Some && go->0 <= e->0.ts_ms && e->0.ts_ms - go->0 <= INPUT_WINDOW_MS
}

impl DuelState {
    /// The machine's consistency: held swipes fit the window after GO, no
    /// swipe is held before GO can come, the window is at most the ordinary
    /// one, and results and records pair up.
    pub open spec fn wf(self) -> bool {
        &&& swipe_fits(self.human_swipe, self.go_ts_ms)
        &&& swipe_fits(self.ai_swipe, self.go_ts_ms)
        &&& (self.phase == DuelPhase::Standoff || self.phase == DuelPhase::RandomDelay) ==> (self.human_swipe is None
            && self.ai_swipe is None)
        &&& self.input_window_ms <= INPUT_WINDOW_MS
        &&& self.results.len() == self.metas.len()
    }
}

/// A new machine is consistent.
pub proof fn lemma_initial_wf(seed: u32, start_ms: u64)
    ensures
        initial_state(seed, start_ms).wf(),
{
}

/// Ticks keep the machine consistent.
pub proof fn lemma_tick_keeps_wf(s: DuelState, now: u64)
    requires
        s.wf(),
    ensures
        tick_next(s, now).wf(),
{
}

/// Swipes keep the machine consistent.
pub proof fn lemma_swipe_keeps_wf(s: DuelState, actor: Actor, dir: Direction, ts: u64)
    requires
        s.wf(),
    ensures
        swipe_next(s, actor, dir, ts).wf(),
{
}

/// A swipe made before GO, delivered in any phase of a round still open,
/// ends the round as an early loss for the swiping side: one result is
/// appended with that outcome, the point goes to the other side, and the
/// result is shown.
pub proof fn lemma_early_swipe_loses(s: DuelState, actor: Actor, dir: Direction, ts: u64)
    requires
        round_open(s.phase),
        s.go_ts_ms is None || ts < s.go_ts_ms->0,
    ensures
        ({
            let t = swipe_next(s, actor, dir, ts);
            &&& t.results == s.results.push(
                RoundResult {
                    human_opening: s.human_opening,
                    ai_opening: s.ai_opening,
                    outcome: early_outcome(actor),
                    human_reaction_ms: None,
                    ai_reaction_ms: None,
                },
            )
            &&& t.phase == DuelPhase::ResultFlash
            &&& t.human_swipe == s.human_swipe && t.ai_swipe == s.ai_swipe
            &&& t.match_state == match_state_of(t.human_score, t.ai_score)
            &&& actor == Actor::Human ==> t.ai_score == s.ai_score.saturating_add(1) && t.human_score
                == s.human_score
            &&& actor == Actor::Ai ==> t.human_score == s.human_score.saturating_add(1) && t.ai_score
                == s.ai_score
            &&& t.round_index == s.round_index
        }),
{
}

/// A clash never moves the round index on: the index changes only on the tick
/// that leaves NextRound after a result that was not a clash, and never on a
/// swipe. A tick that resolves a round as a clash appends one result, leaves
/// index and scores alone and sets the clash window; and the round that
/// follows a clash is set up with the clash window and a wait drawn from the
/// clash bounds.
pub proof fn lemma_clash_replays_round(s: DuelState, now: u64, actor: Actor, dir: Direction, ts: u64)
    ensures
        ({
            let t = tick_next(s, now);
            &&& t.round_index != s.round_index ==> s.phase == DuelPhase::NextRound && !s.last_clash
                && t.round_index == s.round_index + 1
            &&& swipe_next(s, actor, dir, ts).round_index == s.round_index
            &&& (t.results.len() != s.results.len() && t.results.last().outcome == Outcome::Clash) ==> (
            t.results.len() == s.results.len() + 1 && t.round_index == s.round_index && t.human_score
                == s.human_score && t.ai_score == s.ai_score && t.match_state == s.match_state && t.last_clash && t.input_window_ms
                == CLASH_INPUT_WINDOW_MS && t.phase == DuelPhase::ResultFlash)
            &&& (s.phase == DuelPhase::NextRound && s.last_clash && t.phase == DuelPhase::RandomDelay) ==> (
            t.round_index == s.round_index && t.input_window_ms == CLASH_INPUT_WINDOW_MS && t.delay_target_ms
                == Some(now.saturating_add(range_draw(CLASH_DELAY_MIN_MS, CLASH_DELAY_MAX_MS, t.rng))))
        }),
{
}

/// Draws the next opening, uniformly over the ten.
pub fn pick_opening(rng: &mut XorShift32) -> (r: Opening)
    ensures
        final(rng)@ == xorshift_step(old(rng)@),
        r == opening_drawn(old(rng)@),
{
    let x = rng.next_u32();
    opening_from_index(x % 10)
}

/// Which side scores from an outcome; `None` on a clash.
pub fn winner_of(o: Outcome) -> (r: Option<Actor>)
    ensures
        r == point_to(o),
{
    match o {
        Outcome::HumanWin | Outcome::WrongAi | Outcome::EarlyAi => Some(Actor::Human),
        Outcome::AiWin | Outcome::WrongHuman | Outcome::EarlyHuman => Some(Actor::Ai),
        Outcome::Clash => None,
    }
}

fn clamp_u32(x: Option<u64>) -> (r: Option<u32>)
    ensures
        r == as_u32_clamped(x),
{
    match x {
        Some(v) => Some(if v > u32::MAX as u64 { u32::MAX } else { v as u32 }),
        None => None,
    }
}

impl DuelMachine {
    /// A machine in Standoff at `start_ms`, seeded with `cfg.seed`, with the
    /// first round's openings drawn.
    pub fn new(cfg: DuelConfig, start_ms: u64) -> (r: Self)
        ensures
            r@ == initial_state(cfg.seed, start_ms),
    {
        let mut rng = XorShift32::new(cfg.seed);
        let human_opening = pick_opening(&mut rng);
        let ai_opening = pick_opening(&mut rng);
        DuelMachine {
            phase: DuelPhase::Standoff,
            rng,
            seed: cfg.seed,
            human_opening,
            ai_opening,
            go_ts_ms: None,
            phase_start_ms: start_ms,
            delay_target_ms: None,
            human_swipe: None,
            ai_swipe: None,
            round_results: Vec::new(),
            round_meta: Vec::new(),
            match_state: MatchState::InProgress,
            human_score: 0,
            ai_score: 0,
            input_window_ms: INPUT_WINDOW_MS,
            round_index: 0,
            last_clash: false,
            last_tick_ms: start_ms,
        }
    }

    /// The human's opening, the one shown as the cue.
    pub fn current_opening(&self) -> (r: Opening)
        ensures
            r == self.human_opening,
    {
        self.human_opening
    }

    /// Draws an ordinary wait before GO.
    pub fn schedule_go_delay(&mut self) -> (r: u64)
        ensures
            final(self)@ == (DuelState { rng: xorshift_step(old(self)@.rng), ..old(self)@ }),
            r == range_draw(RANDOM_DELAY_MIN_MS, RANDOM_DELAY_MAX_MS, final(self)@.rng),
            RANDOM_DELAY_MIN_MS <= r < RANDOM_DELAY_MAX_MS,
    {
        self.rng.range_u64(RANDOM_DELAY_MIN_MS, RANDOM_DELAY_MAX_MS)
    }

    /// Draws the shorter wait of a clash rematch.
    pub fn schedule_clash_delay(&mut self) -> (r: u64)
        ensures
            final(self)@ == (DuelState { rng: xorshift_step(old(self)@.rng), ..old(self)@ }),
            r == range_draw(CLASH_DELAY_MIN_MS, CLASH_DELAY_MAX_MS, final(self)@.rng),
            CLASH_DELAY_MIN_MS <= r < CLASH_DELAY_MAX_MS,
    {
        self.rng.range_u64(CLASH_DELAY_MIN_MS, CLASH_DELAY_MAX_MS)
    }

    /// Begins an ordinary round at `now_ms`.
    pub fn start_round(&mut self, now_ms: u64)
        ensures
            final(self)@ == begin_wait(old(self)@, now_ms, false),
    {
        self.enter_random_delay(now_ms, false);
    }

    fn enter_random_delay(&mut self, now_ms: u64, clash: bool)
        ensures
            final(self)@ == begin_wait(old(self)@, now_ms, clash),
    {
        self.phase = DuelPhase::RandomDelay;
        self.phase_start_ms = now_ms;
        self.go_ts_ms = None;
        self.human_swipe = None;
        self.ai_swipe = None;
        self.input_window_ms = if clash { CLASH_INPUT_WINDOW_MS } else { INPUT_WINDOW_MS };
        self.human_opening = pick_opening(&mut self.rng);
        self.ai_opening = pick_opening(&mut self.rng);
        let delay = if clash { self.schedule_clash_delay() } else { self.schedule_go_delay() };
        self.delay_target_ms = Some(now_ms.saturating_add(delay));
    }

    /// Advances the machine to time `now_ms`, as `tick_next` says.
    pub fn tick(&mut self, now_ms: u64)
        ensures
            final(self)@ == tick_next(old(self)@, now_ms),
            now_ms < old(self).last_tick_ms || now_ms < old(self).phase_start_ms ==> final(self)@ == old(self)@,
    {
        if now_ms < self.last_tick_ms || now_ms < self.phase_start_ms {
            return;
        }
        self.last_tick_ms = now_ms;
        let elapsed = now_ms.saturating_sub(self.phase_start_ms);
        match self.phase {
            DuelPhase::Standoff => {
                if elapsed >= START_DELAY_MS {
                    self.start_round(now_ms);
                }
            },
            DuelPhase::RandomDelay => {
                if let Some(target) = self.delay_target_ms {
                    if now_ms >= target {
                        self.phase = DuelPhase::GoSignal;
                        self.go_ts_ms = Some(now_ms);
                        self.phase_start_ms = now_ms;
                        self.delay_target_ms = None;
                    }
                }
            },
            DuelPhase::GoSignal => {
                self.phase = DuelPhase::InputWindow;
                self.phase_start_ms = now_ms;
            },
            DuelPhase::InputWindow => {
                if elapsed >= self.input_window_ms || (self.human_swipe.is_some() && self.ai_swipe.is_some()) {
                    self.resolve(now_ms);
                }
            },
            DuelPhase::Resolution => {
                self.resolve(now_ms);
            },
            DuelPhase::ResultFlash => {
                if elapsed >= RESULT_FLASH_MS {
                    self.phase = DuelPhase::NextRound;
                    self.phase_start_ms = now_ms;
                }
            },
            DuelPhase::NextRound => {
                if self.match_state != MatchState::InProgress || (!self.last_clash && self.round_index
                    >= BEST_OF - 1) {
                    self.phase = DuelPhase::Finished;
                } else if elapsed >= NEXT_ROUND_MS {
                    if self.last_clash {
                        self.enter_random_delay(now_ms, true);
                    } else {
                        self.round_index = self.round_index.saturating_add(1);
                        self.enter_random_delay(now_ms, false);
                    }
                }
            },
            DuelPhase::Finished | DuelPhase::Reset => {},
        }
    }

    /// Takes a swipe of `actor` in direction `dir` made at `ts_ms`, as
    /// `swipe_next` says.
    pub fn on_swipe(&mut self, actor: Actor, dir: Direction, ts_ms: u64)
        ensures
            final(self)@ == swipe_next(old(self)@, actor, dir, ts_ms),
    {
        let open = match self.phase {
            DuelPhase::Standoff | DuelPhase::RandomDelay | DuelPhase::GoSignal | DuelPhase::InputWindow => true,
            _ => false,
        };
        let before_go = match self.go_ts_ms {
            Some(go) => ts_ms < go,
            None => true,
        };
        if open && before_go {
            self.early_loss(actor, dir, ts_ms);
            return;
        }
        if self.phase != DuelPhase::InputWindow {
            return;
        }
        if let Some(go) = self.go_ts_ms {
            if ts_ms - go <= self.input_window_ms {
                let ev = SwipeEvent { dir, ts_ms };
                match actor {
                    Actor::Human => {
                        if self.human_swipe.is_none() {
                            self.human_swipe = Some(ev);
                        }
                    },
                    Actor::Ai => {
                        if self.ai_swipe.is_none() {
                            self.ai_swipe = Some(ev);
                        }
                    },
                }
            }
        }
    }

    fn early_loss(&mut self, actor: Actor, dir: Direction, ts_ms: u64)
        ensures
            final(self)@ == early_loss(old(self)@, actor, dir, ts_ms),
    {
        let outcome = match actor {
            Actor::Human => Outcome::EarlyHuman,
            Actor::Ai => Outcome::EarlyAi,
        };
        let ev = SwipeEvent { dir, ts_ms };
        let go = match self.go_ts_ms {
            Some(g) => g,
            None => ts_ms.saturating_add(1),
        };
        let human = match actor {
            Actor::Human => Some(ev),
            Actor::Ai => self.human_swipe,
        };
        let ai = match actor {
            Actor::Ai => Some(ev),
            Actor::Human => self.ai_swipe,
        };
        self.round_results.push(
            RoundResult {
                human_opening: self.human_opening,
                ai_opening: self.ai_opening,
                outcome,
                human_reaction_ms: None,
                ai_reaction_ms: None,
            },
        );
        self.round_meta.push(RoundMeta { round_index: self.round_index, go_ts_ms: go, human, ai });
        self.phase = DuelPhase::ResultFlash;
        self.phase_start_ms = ts_ms;
        self.settle(outcome);
    }

    fn resolve(&mut self, now_ms: u64)
        ensures
            final(self)@ == resolve_round(old(self)@, now_ms),
    {
        let go = match self.go_ts_ms {
            Some(g) => g,
            None => self.phase_start_ms,
        };
        let (human_dir, human_r) = match self.human_swipe {
            Some(e) => (Some(e.dir), Some(e.ts_ms.saturating_sub(go))),
            None => (None, None),
        };
        let (ai_dir, ai_r) = match self.ai_swipe {
            Some(e) => (Some(e.dir), Some(e.ts_ms.saturating_sub(go))),
            None => (None, None),
        };
        let outcome = judge_outcome(
            self.human_opening,
            self.ai_opening,
            human_dir,
            ai_dir,
            human_r,
            ai_r,
            TIE_WINDOW_MS,
        );
        self.round_meta.push(
            RoundMeta { round_index: self.round_index, go_ts_ms: go, human: self.human_swipe, ai: self.ai_swipe },
        );
        self.round_results.push(
            RoundResult {
                human_opening: self.human_opening,
                ai_opening: self.ai_opening,
                outcome,
                human_reaction_ms: clamp_u32(human_r),
                ai_reaction_ms: clamp_u32(ai_r),
            },
        );
        self.phase = DuelPhase::ResultFlash;
        self.phase_start_ms = now_ms;
        self.settle(outcome);
    }

    fn settle(&mut self, outcome: Outcome)
        ensures
            final(self)@ == settle(old(self)@, outcome),
    {
        match winner_of(outcome) {
            Some(Actor::Human) => {
                self.human_score = self.human_score.saturating_add(1);
                self.last_clash = false;
                self.update_match_state();
            },
            Some(Actor::Ai) => {
                self.ai_score = self.ai_score.saturating_add(1);
                self.last_clash = false;
                self.update_match_state();
            },
            None => {
                self.last_clash = true;
                self.input_window_ms = CLASH_INPUT_WINDOW_MS;
            },
        }
    }

    fn update_match_state(&mut self)
        ensures
            final(self)@ == (DuelState {
                match_state: match_state_of(old(self).human_score, old(self).ai_score),
                ..old(self)@
            }),
    {
        if self.human_score >= ROUNDS_TO_WIN {
            self.match_state = MatchState::HumanWon;
        } else if self.ai_score >= ROUNDS_TO_WIN {
            self.match_state = MatchState::AiWon;
        } else {
            self.match_state = MatchState::InProgress;
        }
    }

    /// The latest round as a replay record; `None` before any round ended.
    pub fn last_duel_log(&self) -> (r: Option<DuelLog>)
        ensures
            r == if self.round_results.len() > 0 && self.round_meta.len() == self.round_results.len() {
                Some(record_log(self@, self.round_results.len() - 1))
            } else {
                None::<DuelLog>
            },
    {
        let n = self.round_results.len();
        if n == 0 || self.round_meta.len() != n {
            return None;
        }
        Some(self.record(n - 1))
    }

    fn record(&self, i: usize) -> (r: DuelLog)
        requires
            i < self.round_results.len(),
            i < self.round_meta.len(),
        ensures
            r == record_log(self@, i as int),
    {
        let rr = self.round_results[i];
        let meta = self.round_meta[i];
        DuelLog {
            seed: self.seed,
            round_index: meta.round_index,
            human_opening: rr.human_opening,
            ai_opening: rr.ai_opening,
            go: GoEvent { ts_ms: meta.go_ts_ms },
            human: meta.human,
            ai: meta.ai,
            outcome: rr.outcome,
            clash: rr.outcome == Outcome::Clash,
        }
    }

    /// Every round so far as a replay record, in order.
    pub fn match_log(&self) -> (r: MatchLog)
        ensures
            r.seed == self.seed,
            r.rounds@.len() == if self.round_meta.len() < self.round_results.len() {
                self.round_meta.len()
            } else {
                self.round_results.len()
            },
            forall|i: int| 0 <= i < r.rounds@.len() ==> r.rounds@[i] == record_log(self@, i),
    {
        let n = if self.round_meta.len() < self.round_results.len() {
            self.round_meta.len()
        } else {
            self.round_results.len()
        };
        let mut rounds: Vec<DuelLog> = Vec::new();
        let mut i: usize = 0;
        while i < n
            invariant
                n <= self.round_results.len(),
                n <= self.round_meta.len(),
                i <= n,
                rounds@.len() == i,
                forall|j: int| 0 <= j < i ==> rounds@[j] == record_log(self@, j),
            decreases n - i,
        {
            rounds.push(self.record(i));
            i = i + 1;
        }
        MatchLog { seed: self.seed, rounds }
    }

    /// Puts the machine at GO at `now_ms`, before the input window opens.
    pub fn force_go(&mut self, now_ms: u64)
        ensures
            final(self)@ == (DuelState {
                phase: DuelPhase::GoSignal,
                go_ts_ms: Some(now_ms),
                phase_start_ms: now_ms,
                last_tick_ms: later(old(self).last_tick_ms, now_ms),
                ..old(self)@
            }),
    {
        self.phase = DuelPhase::GoSignal;
        self.go_ts_ms = Some(now_ms);
        self.phase_start_ms = now_ms;
        if now_ms > self.last_tick_ms {
            self.last_tick_ms = now_ms;
        }
    }

    /// Opens the input window with GO at `now_ms`.
    pub fn open_input(&mut self, now_ms: u64)
        ensures
            final(self)@ == (DuelState {
                phase: DuelPhase::InputWindow,
                go_ts_ms: Some(now_ms),
                phase_start_ms: now_ms,
                last_tick_ms: later(old(self).last_tick_ms, now_ms),
                ..old(self)@
            }),
    {
        self.phase = DuelPhase::InputWindow;
        self.go_ts_ms = Some(now_ms);
        self.phase_start_ms = now_ms;
        if now_ms > self.last_tick_ms {
            self.last_tick_ms = now_ms;
        }
    }

    /// Starts a new match at `now_ms`: scores, round index and records are
    /// cleared and fresh openings are drawn.
    pub fn reset_match(&mut self, now_ms: u64)
        ensures
            final(self)@ == reset_state(old(self)@, now_ms),
    {
        self.phase = DuelPhase::Standoff;
        self.go_ts_ms = None;
        self.phase_start_ms = now_ms;
        self.delay_target_ms = None;
        self.human_swipe = None;
        self.ai_swipe = None;
        self.round_results.clear();
        self.round_meta.clear();
        self.match_state = MatchState::InProgress;
        self.human_score = 0;
        self.ai_score = 0;
        self.input_window_ms = INPUT_WINDOW_MS;
        self.round_index = 0;
        self.last_clash = false;
        if now_ms > self.last_tick_ms {
            self.last_tick_ms = now_ms;
        }
        self.human_opening = pick_opening(&mut self.rng);
        self.ai_opening = pick_opening(&mut self.rng);
    }
}

} // verus!
