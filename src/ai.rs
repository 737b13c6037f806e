use vstd::prelude::*;
use rand::rngs::StdRng;
use rand::{Rng, SeedableRng};
use crate::combat::{correct_dir, correct_direction_for, dir_to_index, direction_from_index, direction_index};
use crate::types::{Direction, Opening, SwipeEvent};

verus! {

/// rand's `StdRng`, the agent's generator, carried as an opaque value.
#[verifier::external_type_specification]
#[verifier::external_body]
pub struct ExStdRng(rand::rngs::StdRng);

/// Relies on rand's `SeedableRng::seed_from_u64` for `StdRng`: a generator
/// fixed by the seed alone. Nothing is assumed of the values it gives.
#[verifier::external_body]
fn seeded_rng(seed: u64) -> StdRng {
    StdRng::seed_from_u64(seed)
}

/// Relies on rand's `Rng::gen_range` on `0..n`: a value in `[0, n)`; the
/// empty range, on which it panics, is left out.
#[verifier::external_body]
fn draw_below(rng: &mut StdRng, n: u32) -> (r: u32)
    requires
        n > 0,
    ensures
        r < n,
{
    rng.gen_range(0..n)
}

/// Per-mille in which a wrong-answer probability is given.
pub const PERMILLE: u32 = 1000;
/// The half-width of the jitter added to a mean reaction time.
pub const JITTER_MS: i32 = 40;

#[derive(Clone, Copy, Debug, PartialEq, Eq, Structural, Hash)]
pub enum AIProfile {
    Novice,
    Skilled,
    Master,
}

/// The computer opponent: for each profile a mean reaction time and the
/// per-mille chance of answering with a wrong direction.
pub struct AIAgent {
    pub rng: StdRng,
    pub profile: AIProfile,
    pub novice_mean_ms: i32,
    pub novice_wrong_permille: u32,
    pub skilled_mean_ms: i32,
    pub skilled_wrong_permille: u32,
    pub master_mean_ms: i32,
    pub master_wrong_permille: u32,
}

/// The wrong direction chosen by `pick` in `0..9`: the `pick`-th of the nine
/// directions other than the opening's answer, in the order of
/// `direction_index`.
pub open spec fn wrong_dir_index(o: Opening, pick: nat) -> nat {
    if pick < direction_index(correct_dir(o)) { pick } else { pick + 1 }
}

/// The direction answered for opening `o`: the correct one when `roll` is at
/// least the wrong-answer per-mille, else the wrong one chosen by `pick`.
pub open spec fn answer_index(o: Opening, wrong_permille: u32, roll: u32, pick: u32) -> nat {
    if roll >= wrong_permille {
        direction_index(correct_dir(o))
    } else {
        wrong_dir_index(o, pick as nat)
    }
}

/// A mean reaction time moved by the jitter `a - b`, kept within
/// `[0, i32::MAX]`.
pub open spec fn jittered(mean: i32, a: u32, b: u32) -> i32 {
    let t = mean + a - b;
    if t < 0 {
        0
    } else if t > i32::MAX {
        i32::MAX
    } else {
        t as i32
    }
}

/// The swipe planned for a round with GO at `go`: made `reaction` after GO
/// when that is within `window`, else none at all.
pub open spec fn planned_swipe(go: u64, window: u64, reaction: u64, dir: Direction) -> Option<SwipeEvent> {
    if reaction <= window {
        Some(SwipeEvent { dir, ts_ms: go.saturating_add(reaction) })
    } else {
        None
    }
}

/// The direction chosen from the two draws; see `answer_index`.
pub fn choose_direction(opening: Opening, wrong_permille: u32, roll: u32, pick: u32) -> (r: Direction)
    requires
        pick < 9,
    ensures
        direction_index(r) == answer_index(opening, wrong_permille, roll, pick),
{
    let correct = correct_direction_for(opening);
    if roll >= wrong_permille {
        return correct;
    }
    let c = dir_to_index(correct);
    let p = pick as usize;
    let i = if p < c { p } else { p + 1 };
    direction_from_index(i)
}

/// The reaction time from the two jitter draws; see `jittered`.
pub fn reaction_from_draws(mean: i32, a: u32, b: u32) -> (r: i32)
    requires
        a <= JITTER_MS,
        b <= JITTER_MS,
    ensures
        r == jittered(mean, a, b),
        r >= 0,
{
    let t: i64 = mean as i64 + a as i64 - b as i64;
    if t < 0 {
        0
    } else if t > i32::MAX as i64 {
        i32::MAX
    } else {
        t as i32
    }
}

/// The AI's swipe for a round; see `planned_swipe`.
pub fn ai_swipe_for(go_ts_ms: u64, window_ms: u64, reaction_ms: u64, dir: Direction) -> (r: Option<SwipeEvent>)
    ensures
        r == planned_swipe(go_ts_ms, window_ms, reaction_ms, dir),
{
    if reaction_ms <= window_ms {
        Some(SwipeEvent { dir, ts_ms: go_ts_ms.saturating_add(reaction_ms) })
    } else {
        None
    }
}

/// A wrong answer is never the correct one, and each of the nine other
/// directions is chosen by exactly one pick, so a uniform pick gives a
/// uniform wrong direction.
pub proof fn lemma_wrong_choice_is_uniform(o: Opening, p: nat, q: nat, d: Direction)
    requires
        p < 9,
        q < 9,
    ensures
        wrong_dir_index(o, p) != direction_index(correct_dir(o)),
        wrong_dir_index(o, p) < 10,
        wrong_dir_index(o, p) == wrong_dir_index(o, q) ==> p == q,
        d != correct_dir(o) ==> exists|k: nat| k < 9 && #[trigger] wrong_dir_index(o, k) == direction_index(d),
{
    if d != correct_dir(o) {
        let c = direction_index(correct_dir(o));
        let di = direction_index(d);
        let k: nat = if di < c { di } else { (di - 1) as nat };
        assert(wrong_dir_index(o, k) == di);
    }
}

impl AIAgent {
    /// An agent of `profile` whose draws come from a generator seeded with
    /// `seed`; `params` holds mean time and wrong per-mille for the novice,
    /// skilled and master profiles in turn.
    pub fn new(seed: u64, profile: AIProfile, params: (i32, u32, i32, u32, i32, u32)) -> (r: Self)
        ensures
            r.profile == profile,
            r.novice_mean_ms == params.0,
            r.novice_wrong_permille == params.1,
            r.skilled_mean_ms == params.2,
            r.skilled_wrong_permille == params.3,
            r.master_mean_ms == params.4,
            r.master_wrong_permille == params.5,
    {
        let (n_mean, n_wrong, s_mean, s_wrong, m_mean, m_wrong) = params;
        AIAgent {
            rng: seeded_rng(seed),
            profile,
            novice_mean_ms: n_mean,
            novice_wrong_permille: n_wrong,
            skilled_mean_ms: s_mean,
            skilled_wrong_permille: s_wrong,
            master_mean_ms: m_mean,
            master_wrong_permille: m_wrong,
        }
    }

    /// The mean reaction time and wrong per-mille of the agent's profile.
    pub open spec fn params_of(&self) -> (i32, u32) {
        match self.profile {
            AIProfile::Novice => (self.novice_mean_ms, self.novice_wrong_permille),
            AIProfile::Skilled => (self.skilled_mean_ms, self.skilled_wrong_permille),
            AIProfile::Master => (self.master_mean_ms, self.master_wrong_permille),
        }
    }

    /// The agent's settings, all but its generator.
    pub open spec fn same_settings(&self, other: &AIAgent) -> bool {
        &&& self.profile == other.profile
        &&& self.novice_mean_ms == other.novice_mean_ms
        &&& self.novice_wrong_permille == other.novice_wrong_permille
        &&& self.skilled_mean_ms == other.skilled_mean_ms
        &&& self.skilled_wrong_permille == other.skilled_wrong_permille
        &&& self.master_mean_ms == other.master_mean_ms
        &&& self.master_wrong_permille == other.master_wrong_permille
    }

    fn params(&self) -> (r: (i32, u32))
        ensures
            r == self.params_of(),
    {
        match self.profile {
            AIProfile::Novice => (self.novice_mean_ms, self.novice_wrong_permille),
            AIProfile::Skilled => (self.skilled_mean_ms, self.skilled_wrong_permille),
            AIProfile::Master => (self.master_mean_ms, self.master_wrong_permille),
        }
    }

    /// Answers `opening`: a uniform roll in `[0, 1000)` below the wrong
    /// per-mille picks one of the nine other directions uniformly; any other
    /// roll gives the correct direction.
    pub fn decide_direction(&mut self, opening: Opening) -> (r: Direction)
        ensures
            final(self).same_settings(old(self)),
            exists|roll: u32, pick: u32|
                roll < PERMILLE && pick < 9 && direction_index(r) == #[trigger] answer_index(
                    opening,
                    old(self).params_of().1,
                    roll,
                    pick,
                ),
            old(self).params_of().1 == 0 ==> r == correct_dir(opening),
            old(self).params_of().1 >= PERMILLE ==> r != correct_dir(opening),
    {
        let (_mean, wrong) = self.params();
        let roll = draw_below(&mut self.rng, PERMILLE);
        let pick = if roll >= wrong { 0 } else { draw_below(&mut self.rng, 9) };
        choose_direction(opening, wrong, roll, pick)
    }

    /// A reaction time: the profile's mean plus a triangular jitter, the
    /// difference of two uniform draws in `[0, 40]`, never below zero.
    pub fn sample_reaction_ms(&mut self) -> (r: i32)
        ensures
            final(self).same_settings(old(self)),
            r >= 0,
            exists|a: u32, b: u32|
                a <= JITTER_MS && b <= JITTER_MS && r == #[trigger] jittered(old(self).params_of().0, a, b),
            r >= old(self).params_of().0 - JITTER_MS,
            r <= old(self).params_of().0 + JITTER_MS || r == 0,
    {
        let (mean, _wrong) = self.params();
        let a = draw_below(&mut self.rng, (JITTER_MS + 1) as u32);
        let b = draw_below(&mut self.rng, (JITTER_MS + 1) as u32);
        reaction_from_draws(mean, a, b)
    }

    /// Plans the agent's swipe for a round whose GO is at `go_ts_ms`: a
    /// reaction time is drawn, and only if it lands within `window_ms` a
    /// direction too; a late reaction means no swipe this round.
    pub fn plan_round(&mut self, opening: Opening, go_ts_ms: u64, window_ms: u64) -> (r: Option<SwipeEvent>)
        ensures
            final(self).same_settings(old(self)),
            r is Some ==> go_ts_ms <= r->0.ts_ms && r->0.ts_ms - go_ts_ms <= window_ms,
            old(self).params_of().1 == 0 && r is Some ==> r->0.dir == correct_dir(opening),
            old(self).params_of().0 - JITTER_MS > window_ms ==> r is None,
            old(self).params_of().0 + JITTER_MS <= window_ms ==> r is Some,
            r is Some ==> exists|a: u32, b: u32, roll: u32, pick: u32|
                {
                    &&& a <= JITTER_MS && b <= JITTER_MS && roll < PERMILLE && pick < 9
                    &&& r->0.ts_ms == go_ts_ms.saturating_add(
                        #[trigger] jittered(old(self).params_of().0, a, b) as u64,
                    )
                    &&& direction_index(r->0.dir) == #[trigger] answer_index(
                        opening,
                        old(self).params_of().1,
                        roll,
                        pick,
                    )
                },
    {
        let ghost params = self.params_of();
        let reaction = self.sample_reaction_ms();
        if reaction as u64 > window_ms {
            return None;
        }
        let dir = self.decide_direction(opening);
        proof {
            let (a, b) = choose|a: u32, b: u32|
                a <= JITTER_MS && b <= JITTER_MS && reaction == #[trigger] jittered(params.0, a, b);
            let (roll, pick) = choose|roll: u32, pick: u32|
                roll < PERMILLE && pick < 9 && direction_index(dir) == #[trigger] answer_index(
                    opening,
                    params.1,
                    roll,
                    pick,
                );
            assert(jittered(params.0, a, b) as u64 == reaction as u64);
            assert(answer_index(opening, params.1, roll, pick) == direction_index(dir));
        }
        ai_swipe_for(go_ts_ms, window_ms, reaction as u64, dir)
    }
}

} // verus!
