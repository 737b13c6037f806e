use vstd::prelude::*;
use crate::ai::{AIAgent, JITTER_MS};
use crate::combat::correct_dir;
use crate::input::{detector_step, SwipeConfig, SwipeDetector, SwipeSample};
use crate::state_machine::{initial_state, swipe_next, tick_next, DuelConfig, DuelMachine, DuelState};
use crate::types::{Actor, Direction, SwipeEvent};

verus! {

/// How a session is set up: the match seed, the screen density and whether
/// the computer opponent plays.
#[derive(Clone, Copy, Debug, PartialEq, Eq, Structural)]
pub struct IaidoSettings {
    pub seed: u32,
    pub dpi: u32,
    pub ai: bool,
}

impl Default for IaidoSettings {
    fn default() -> (r: Self)
        ensures
            r.seed == 0xA1D0_5EED,
            r.dpi == 320,
            r.ai,
    {
        IaidoSettings { seed: 0xA1D0_5EED, dpi: 320, ai: true }
    }
}

/// The computer's plan for the round whose GO was at `go_ts_ms`: the swipe it
/// will make, or none when its reaction comes too late or was already made.
#[derive(Clone, Copy, Debug, PartialEq, Eq, Structural)]
pub struct AiPlan {
    pub go_ts_ms: u64,
    pub swipe: Option<SwipeEvent>,
}

/// The direction of the held arrow keys: two opposite keys give a combo,
/// two neighbouring keys a diagonal, one key its axis (in that order of
/// precedence).
pub open spec fn keys_direction(up: bool, down: bool, left: bool, right: bool) -> Option<Direction> {
    if up && down {
        Some(Direction::UpDown)
    } else if left && right {
        Some(Direction::LeftRight)
    } else if up && right {
        Some(Direction::UpRight)
    } else if up && left {
        Some(Direction::UpLeft)
    } else if down && right {
        Some(Direction::DownRight)
    } else if down && left {
        Some(Direction::DownLeft)
    } else if up {
        Some(Direction::Up)
    } else if down {
        Some(Direction::Down)
    } else if left {
        Some(Direction::Left)
    } else if right {
        Some(Direction::Right)
    } else {
        None
    }
}

/// The machine after the human's input `d` at `now`, if there was one.
pub open spec fn after_human(m: DuelState, d: Option<Direction>, now: u64) -> DuelState {
    match d {
        Some(dir) => swipe_next(m, Actor::Human, dir, now),
        None => m,
    }
}

/// The swipe a plan makes at `now` in the round whose GO is at `go`: the
/// plan's swipe, when the plan is for that GO and its time has come.
pub open spec fn due_swipe(plan: Option<AiPlan>, go: u64, now: u64) -> Option<SwipeEvent> {
    match plan {
        Some(p) => match p.swipe {
            Some(ev) => if p.go_ts_ms == go && go <= ev.ts_ms && ev.ts_ms <= now {
                Some(ev)
            } else {
                None
            },
            None => None,
        },
        None => None,
    }
}

/// The swipe of `plan` that is due at `now`; see `due_swipe`.
pub fn swipe_due(plan: Option<AiPlan>, go: u64, now: u64) -> (r: Option<SwipeEvent>)
    ensures
        r == due_swipe(plan, go, now),
{
    match plan {
        Some(p) => match p.swipe {
            Some(ev) => if p.go_ts_ms == go && go <= ev.ts_ms && ev.ts_ms <= now {
                Some(ev)
            } else {
                None
            },
            None => None,
        },
        None => None,
    }
}

/// The direction of the held arrow keys; see `keys_direction`.
pub fn direction_from_keys(up: bool, down: bool, left: bool, right: bool) -> (r: Option<Direction>)
    ensures
        r == keys_direction(up, down, left, right),
{
    if up && down {
        Some(Direction::UpDown)
    } else if left && right {
        Some(Direction::LeftRight)
    } else if up && right {
        Some(Direction::UpRight)
    } else if up && left {
        Some(Direction::UpLeft)
    } else if down && right {
        Some(Direction::DownRight)
    } else if down && left {
        Some(Direction::DownLeft)
    } else if up {
        Some(Direction::Up)
    } else if down {
        Some(Direction::Down)
    } else if left {
        Some(Direction::Left)
    } else if right {
        Some(Direction::Right)
    } else {
        None
    }
}

/// A whole session for one driver: the duel, the swipe detector that feeds
/// it, and the computer opponent with its plan for the current round.
pub struct DuelRuntime {
    pub machine: DuelMachine,
    pub swipe: SwipeDetector,
    pub cfg: SwipeConfig,
    pub ai: AIAgent,
    pub ai_enabled: bool,
    pub ai_plan: Option<AiPlan>,
}

impl DuelRuntime {
    /// The computer acts: it plays, GO has been given and it has not swiped
    /// yet this round.
    pub open spec fn ai_acts(&self) -> bool {
        self.ai_enabled && self.machine.ai_swipe is None && self.machine.go_ts_ms is Some
    }

    /// The plan held is for the current GO.
    pub open spec fn plan_current(&self) -> bool {
        self.ai_plan is Some && self.machine.go_ts_ms is Some && self.ai_plan->0.go_ts_ms
            == self.machine.go_ts_ms->0
    }

    /// A session started at `now_ms` with `settings` and the opponent `ai`.
    pub fn new(settings: IaidoSettings, ai: AIAgent, now_ms: u64) -> (r: Self)
        ensures
            r.machine@ == initial_state(settings.seed, now_ms),
            r.swipe == SwipeDetector::idle(),
            r.cfg.dpi == settings.dpi,
            r.ai_enabled == settings.ai,
            r.ai_plan is None,
    {
        DuelRuntime {
            machine: DuelMachine::new(DuelConfig { seed: settings.seed, clash: true }, now_ms),
            swipe: SwipeDetector::new(),
            cfg: SwipeConfig { dpi: settings.dpi },
            ai,
            ai_enabled: settings.ai,
            ai_plan: None,
        }
    }

    /// Advances the duel to `now_ms`.
    pub fn update_time(&mut self, now_ms: u64)
        ensures
            final(self).machine@ == tick_next(old(self).machine@, now_ms),
            final(self).swipe == old(self).swipe,
            final(self).ai_plan == old(self).ai_plan,
    {
        self.machine.tick(now_ms);
    }

    /// Arrow keys at `now_ms`: when one was just pressed, the held keys'
    /// direction is the human's swipe. Returns that direction.
    pub fn key_input(&mut self, up: bool, down: bool, left: bool, right: bool, just_pressed: bool, now_ms: u64) -> (r:
        Option<Direction>)
        ensures
            r == if just_pressed { keys_direction(up, down, left, right) } else { None },
            final(self).machine@ == after_human(old(self).machine@, r, now_ms),
            final(self).swipe == old(self).swipe,
            final(self).ai_plan == old(self).ai_plan,
    {
        if !just_pressed {
            return None;
        }
        let d = direction_from_keys(up, down, left, right);
        if let Some(dir) = d {
            self.machine.on_swipe(Actor::Human, dir, now_ms);
        }
        d
    }

    /// A pointer or touch motion sample at `now_ms`: it goes to the detector,
    /// and a direction the detector reports is the human's swipe.
    pub fn motion_sample(&mut self, sample: SwipeSample, now_ms: u64) -> (r: Option<Direction>)
        ensures
            (final(self).swipe, r) == detector_step(old(self).swipe, old(self).cfg.dpi, sample),
            final(self).machine@ == after_human(old(self).machine@, r, now_ms),
            final(self).ai_plan == old(self).ai_plan,
    {
        let cfg = self.cfg;
        let d = self.swipe.update(&cfg, sample);
        if let Some(dir) = d {
            self.machine.on_swipe(Actor::Human, dir, now_ms);
        }
        d
    }

    /// The pointer was released: the gesture so far is dropped.
    pub fn release(&mut self)
        ensures
            final(self).swipe == SwipeDetector::idle(),
            final(self).machine@ == old(self).machine@,
    {
        self.swipe.reset();
    }

    /// Lets the computer act at `now_ms`. Without GO the plan is dropped.
    /// Once GO is given it plans the round, once per GO, from the AI's opening
    /// and the machine's window; when the planned time has come (see
    /// `due_swipe`) it makes the planned swipe at that time and empties the
    /// plan. Returns the swipe it made.
    pub fn drive_ai(&mut self, now_ms: u64) -> (r: Option<SwipeEvent>)
        ensures
            old(self).machine.go_ts_ms is None ==> r is None && final(self).ai_plan is None
                && final(self).machine@ == old(self).machine@,
            old(self).machine.go_ts_ms is Some && !old(self).ai_acts() ==> r is None && final(self).ai_plan
                == old(self).ai_plan && final(self).machine@ == old(self).machine@,
            r is None ==> final(self).machine@ == old(self).machine@,
            r is Some ==> old(self).ai_acts() && old(self).machine.go_ts_ms->0 <= r->0.ts_ms <= now_ms
                && final(self).machine@ == swipe_next(old(self).machine@, Actor::Ai, r->0.dir, r->0.ts_ms)
                && final(self).ai_plan == Some(AiPlan { go_ts_ms: old(self).machine.go_ts_ms->0, swipe: None }),
            old(self).ai_acts() ==> final(self).ai_plan is Some && final(self).ai_plan->0.go_ts_ms
                == old(self).machine.go_ts_ms->0 && (r is None ==> due_swipe(
                final(self).ai_plan,
                old(self).machine.go_ts_ms->0,
                now_ms,
            ) is None),
            old(self).ai_acts() && old(self).plan_current() ==> r == due_swipe(
                old(self).ai_plan,
                old(self).machine.go_ts_ms->0,
                now_ms,
            ) && (r is None ==> final(self).ai_plan == old(self).ai_plan),
            old(self).ai_acts() && !old(self).plan_current() ==> ({
                let go = old(self).machine.go_ts_ms->0;
                let window = old(self).machine.input_window_ms;
                let (mean, wrong) = old(self).ai.params_of();
                let planned = if r is Some { r } else { final(self).ai_plan->0.swipe };
                &&& planned is Some ==> go <= planned->0.ts_ms && planned->0.ts_ms - go <= window
                &&& planned is Some && wrong == 0 ==> planned->0.dir == correct_dir(old(self).machine.ai_opening)
                &&& mean - JITTER_MS > window ==> planned is None
                &&& mean + JITTER_MS <= window ==> planned is Some
            }),
    {
        let go = match self.machine.go_ts_ms {
            Some(g) => g,
            None => {
                self.ai_plan = None;
                return None;
            },
        };
        if !self.ai_enabled || self.machine.ai_swipe.is_some() {
            return None;
        }
        let current = match self.ai_plan {
            Some(p) => p.go_ts_ms == go,
            None => false,
        };
        if !current {
            let opening = self.machine.ai_opening;
            let window = self.machine.input_window_ms;
            let swipe = self.ai.plan_round(opening, go, window);
            self.ai_plan = Some(AiPlan { go_ts_ms: go, swipe });
        }
        match swipe_due(self.ai_plan, go, now_ms) {
            Some(ev) => {
                self.machine.on_swipe(Actor::Ai, ev.dir, ev.ts_ms);
                self.ai_plan = Some(AiPlan { go_ts_ms: go, swipe: None });
                Some(ev)
            },
            None => None,
        }
    }
}

} // verus!
