//! A deterministic reflex-duel engine: a phase-based state machine that runs a
//! best-of-three contest between a human and a computer opponent, with a swipe
//! detector, a combat resolver, an AI reaction planner and replay verification.
//!
//! Each part states its behaviour as spec functions (`judge`, `detector_step`,
//! `tick_next`, `swipe_next`, `replay_outcome`, ...), and the executable code
//! is proved to follow them. The proof functions named `lemma_*` state the
//! laws that hold across calls.

mod ai;
mod combat;
mod config;
mod input;
mod logging;
mod rng;
mod runtime;
mod state_machine;
mod types;

pub use ai::{
    ai_swipe_for, answer_index, choose_direction, jittered, lemma_wrong_choice_is_uniform, planned_swipe,
    reaction_from_draws, wrong_dir_index, AIAgent, AIProfile, JITTER_MS, PERMILLE,
};
pub use combat::{
    abs_diff, correct_dir, correct_direction_for, dir_to_index, direction_from_index, direction_index, judge,
    judge_outcome, lemma_correctness_matches_table, lemma_faster_correct_side_wins, lemma_wrong_answer_loses,
    opening_at, opening_from_index, opening_index, timing_outcome,
};
pub use config::{
    dur_ms, mm_to_px, ms, BEST_OF, CLASH_DELAY_MAX_MS, CLASH_DELAY_MIN_MS, CLASH_INPUT_WINDOW_MS,
    DIRECTION_LOCK_MS, INPUT_WINDOW_MS, MIN_SWIPE_TENTH_MM, NEXT_ROUND_MS, RANDOM_DELAY_MAX_MS,
    RANDOM_DELAY_MIN_MS, RESULT_FLASH_MS, ROUNDS_TO_WIN, START_DELAY_MS, TENTH_MM_PER_INCH, TIE_WINDOW_MS,
};
pub use input::{
    abs_int, clamp_i64, classify, detector_step, far_enough, lemma_far_enough_reaches_min_px, lemma_locked_is_silent,
    lemma_report_needs_time_and_distance, lemma_reports_at_most_once, min_px, primary_direction, reports,
    SwipeConfig, SwipeDetector, SwipeSample, SwipeState,
};
pub use logging::{
    kept, lemma_every_recorded_round_replays, lemma_initial_replays, lemma_swipe_record_replays, lemma_tick_record_replays, replay_match,
    replay_outcome, replay_report, replay_round, replay_verdict, replays_all, run, DuelEvent, DuelLog, MatchLog, ReplayError,
};
pub use rng::{range_draw, xorshift_step, XorShift32};
pub use runtime::{
    after_human, direction_from_keys, due_swipe, keys_direction, swipe_due, AiPlan, DuelRuntime, IaidoSettings,
};
pub use state_machine::{
    as_u32_clamped, begin_wait, dir_of, early_loss, early_outcome, go_of, initial_state, is_early,
    lemma_clash_replays_round, lemma_early_swipe_loses, lemma_initial_wf, lemma_swipe_keeps_wf,
    lemma_tick_keeps_wf, later, match_over, match_state_of, opening_drawn, pick_opening, point_to, reaction_of,
    record_log, reset_state, resolve_round, resolved_outcome, round_open, seed_state, settle, swipe_fits,
    swipe_next, tick_next, winner_of, DuelConfig, DuelMachine, DuelState,
};
pub use types::{
    Actor, Direction, DuelPhase, GoEvent, MatchState, Opening, Outcome, RoundMeta, RoundResult, SwipeEvent,
};
