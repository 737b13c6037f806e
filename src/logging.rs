use vstd::prelude::*;
use crate::combat::judge;
use crate::config::{INPUT_WINDOW_MS, TIE_WINDOW_MS};
use crate::state_machine::{
    dir_of, initial_state, is_early, lemma_swipe_keeps_wf, lemma_tick_keeps_wf, reaction_of, record_log,
    swipe_next, tick_next, DuelConfig, DuelMachine, DuelState,
};
use crate::types::{Actor, Direction, DuelPhase, GoEvent, Opening, Outcome, SwipeEvent};

verus! {

/// Everything needed to re-run one round: the match seed, the round's index
/// and openings, its GO time, each side's accepted swipe, and its result.
#[derive(Clone, Copy, Debug, PartialEq, Eq, Structural)]
pub struct DuelLog {
    pub seed: u32,
    pub round_index: u32,
    pub human_opening: Opening,
    pub ai_opening: Opening,
    pub go: GoEvent,
    pub human: Option<SwipeEvent>,
    pub ai: Option<SwipeEvent>,
    pub outcome: Outcome,
    pub clash: bool,
}

/// The log of a whole match, one record per round in order.
#[derive(Clone, Debug)]
pub struct MatchLog {
    pub seed: u32,
    pub rounds: Vec<DuelLog>,
}

/// How a replayed round disagreed with its record.
#[derive(Clone, Copy, Debug, PartialEq, Eq, Structural)]
pub enum ReplayError {
    OutcomeMismatch { expected: Outcome, actual: Outcome },
    ClashMismatch { recorded: bool, replayed: bool },
}

/// A recorded swipe as a fresh input window at `go` takes it: kept when it
/// came at most `INPUT_WINDOW_MS` after GO.
pub open spec fn kept(e: Option<SwipeEvent>, go: u64) -> Option<SwipeEvent> {
    match e {
        Some(ev) => if go <= ev.ts_ms && ev.ts_ms - go <= INPUT_WINDOW_MS {
            Some(ev)
        } else {
            None
        },
        None => None,
    }
}

/// The outcome of re-running a record: a swipe before GO loses at once (the
/// human's is looked at first); otherwise the resolver decides from the swipes
/// the window keeps.
pub open spec fn replay_outcome(log: DuelLog) -> Outcome {
    let go = log.go.ts_ms;
    if log.human is Some && log.human->0.ts_ms < go {
        Outcome::EarlyHuman
    } else if log.ai is Some && log.ai->0.ts_ms < go {
        Outcome::EarlyAi
    } else {
        let h = kept(log.human, go);
        let a = kept(log.ai, go);
        judge(
            log.human_opening,
            log.ai_opening,
            dir_of(h),
            dir_of(a),
            reaction_of(h, go),
            reaction_of(a, go),
            TIE_WINDOW_MS,
        )
    }
}

/// The verdict of replaying `log`: agreement, or the first of outcome and
/// clash flag that differs, with both values.
pub open spec fn replay_verdict(log: DuelLog) -> Result<(), ReplayError> {
    let actual = replay_outcome(log);
    if actual != log.outcome {
        Err(ReplayError::OutcomeMismatch { expected: log.outcome, actual })
    } else if log.clash != (actual == Outcome::Clash) {
        Err(ReplayError::ClashMismatch { recorded: log.clash, replayed: actual == Outcome::Clash })
    } else {
        Ok(())
    }
}

/// Re-runs a recorded round on a fresh machine with the record's seed,
/// openings and GO time, feeds it the recorded swipes, resolves it, and
/// compares the result with the record.
pub fn replay_round(log: &DuelLog) -> (r: Result<(), ReplayError>)
    ensures
        r == replay_verdict(*log),
{
    let go = log.go.ts_ms;
    let mut dm = DuelMachine::new(DuelConfig { seed: log.seed, clash: true }, go);
    dm.human_opening = log.human_opening;
    dm.ai_opening = log.ai_opening;
    dm.open_input(go);
    if let Some(h) = log.human {
        dm.on_swipe(Actor::Human, h.dir, h.ts_ms);
    }
    if let Some(a) = log.ai {
        dm.on_swipe(Actor::Ai, a.dir, a.ts_ms);
    }
    if dm.phase == DuelPhase::InputWindow {
        dm.phase = DuelPhase::Resolution;
        dm.tick(go);
    }
    let actual = dm.round_results[0].outcome;
    if actual != log.outcome {
        Err(ReplayError::OutcomeMismatch { expected: log.outcome, actual })
    } else if log.clash != (actual == Outcome::Clash) {
        Err(ReplayError::ClashMismatch { recorded: log.clash, replayed: actual == Outcome::Clash })
    } else {
        Ok(())
    }
}

/// Replays every round of a match log; true when all of them agree.
pub fn replay_match(log: &MatchLog) -> (r: bool)
    ensures
        r == forall|i: int| 0 <= i < log.rounds@.len() ==> replay_verdict(#[trigger] log.rounds@[i]) is Ok,
{
    let mut i: usize = 0;
    while i < log.rounds.len()
        invariant
            i <= log.rounds@.len(),
            forall|j: int| 0 <= j < i ==> replay_verdict(#[trigger] log.rounds@[j]) is Ok,
        decreases log.rounds@.len() - i,
    {
        if replay_round(&log.rounds[i]).is_err() {
            return false;
        }
        i = i + 1;
    }
    true
}

/// The verdict of every round of a match log, in order.
pub fn replay_report(log: &MatchLog) -> (r: Vec<Result<(), ReplayError>>)
    ensures
        r@.len() == log.rounds@.len(),
        forall|i: int| 0 <= i < r@.len() ==> r@[i] == replay_verdict(log.rounds@[i]),
{
    let mut out: Vec<Result<(), ReplayError>> = Vec::new();
    let mut i: usize = 0;
    while i < log.rounds.len()
        invariant
            i <= log.rounds@.len(),
            out@.len() == i,
            forall|j: int| 0 <= j < i ==> out@[j] == replay_verdict(log.rounds@[j]),
        decreases log.rounds@.len() - i,
    {
        out.push(replay_round(&log.rounds[i]));
        i = i + 1;
    }
    out
}

/// Every round the machine has recorded replays to its recorded outcome and
/// clash flag.
pub open spec fn replays_all(s: DuelState) -> bool {
    forall|i: int| 0 <= i < s.results.len() ==> (#[trigger] replay_verdict(record_log(s, i))) is Ok
}

/// A new machine has no record that could fail to replay.
pub proof fn lemma_initial_replays(seed: u32, start_ms: u64)
    ensures
        replays_all(initial_state(seed, start_ms)),
{
}

/// The round a tick resolves replays to the same outcome and clash flag, and
/// the earlier records stay as they were.
pub proof fn lemma_tick_record_replays(s: DuelState, now: u64)
    requires
        s.wf(),
        replays_all(s),
    ensures
        replays_all(tick_next(s, now)),
{
    let t = tick_next(s, now);
    if t.results.len() != s.results.len() {
        assert forall|i: int| 0 <= i < t.results.len() implies (#[trigger] replay_verdict(record_log(t, i))) is Ok by {
            if i < s.results.len() {
                assert(record_log(t, i) == record_log(s, i));
            }
        }
    } else {
        assert forall|i: int| 0 <= i < t.results.len() implies (#[trigger] replay_verdict(record_log(t, i))) is Ok by {
            assert(record_log(t, i) == record_log(s, i));
        }
    }
}

/// The round a swipe ends early replays to the same outcome and clash flag,
/// and the earlier records stay as they were. (A swipe at the largest
/// timestamp before any GO is left out: no later GO time can be recorded.)
pub proof fn lemma_swipe_record_replays(s: DuelState, actor: Actor, dir: Direction, ts: u64)
    requires
        s.wf(),
        replays_all(s),
        s.go_ts_ms is Some || ts < u64::MAX,
    ensures
        replays_all(swipe_next(s, actor, dir, ts)),
{
    let t = swipe_next(s, actor, dir, ts);
    if is_early(s, ts) {
        assert forall|i: int| 0 <= i < t.results.len() implies (#[trigger] replay_verdict(record_log(t, i))) is Ok by {
            if i < s.results.len() {
                assert(record_log(t, i) == record_log(s, i));
            }
        }
    } else {
        assert forall|i: int| 0 <= i < t.results.len() implies (#[trigger] replay_verdict(record_log(t, i))) is Ok by {
            assert(record_log(t, i) == record_log(s, i));
        }
    }
}

/// One call a driver makes: a tick at a time, or a swipe of a side.
#[derive(Clone, Copy, Debug, PartialEq, Eq, Structural)]
pub enum DuelEvent {
    Tick(u64),
    Swipe(Actor, Direction, u64),
}

/// The machine after `events`, applied in order from `s`.
pub open spec fn run(s: DuelState, events: Seq<DuelEvent>) -> DuelState
    decreases events.len(),
{
    if events.len() == 0 {
        s
    } else {
        let next = match events[0] {
            DuelEvent::Tick(now) => tick_next(s, now),
            DuelEvent::Swipe(actor, dir, ts) => swipe_next(s, actor, dir, ts),
        };
        run(next, events.drop_first())
    }
}

/// Whatever ticks and swipes a match sees (swipes at the largest timestamp
/// aside), every round it records replays to the recorded outcome and clash
/// flag.
pub proof fn lemma_every_recorded_round_replays(seed: u32, start_ms: u64, events: Seq<DuelEvent>)
    requires
        forall|i: int| 0 <= i < events.len() ==> (#[trigger] events[i] matches DuelEvent::Swipe(_, _, ts) ==> ts < u64::MAX),
    ensures
        replays_all(run(initial_state(seed, start_ms), events)),
{
    lemma_initial_replays(seed, start_ms);
    lemma_run_keeps_replays(initial_state(seed, start_ms), events);
}

proof fn lemma_run_keeps_replays(s: DuelState, events: Seq<DuelEvent>)
    requires
        s.wf(),
        replays_all(s),
        forall|i: int| 0 <= i < events.len() ==> (#[trigger] events[i] matches DuelEvent::Swipe(_, _, ts) ==> ts < u64::MAX),
    ensures
        replays_all(run(s, events)),
    decreases events.len(),
{
    if events.len() > 0 {
        let next = match events[0] {
            DuelEvent::Tick(now) => {
                lemma_tick_keeps_wf(s, now);
                lemma_tick_record_replays(s, now);
                tick_next(s, now)
            },
            DuelEvent::Swipe(actor, dir, ts) => {
                lemma_swipe_keeps_wf(s, actor, dir, ts);
                lemma_swipe_record_replays(s, actor, dir, ts);
                swipe_next(s, actor, dir, ts)
            },
        };
        let rest = events.drop_first();
        assert forall|i: int| 0 <= i < rest.len() implies (#[trigger] rest[i] matches DuelEvent::Swipe(_, _, ts) ==> ts < u64::MAX) by {
            assert(rest[i] == events[i + 1]);
        }
        lemma_run_keeps_replays(next, rest);
    }
}

} // verus!
