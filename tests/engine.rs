use iaido::{
    ai_swipe_for, choose_direction, correct_direction_for, dir_to_index, direction_from_index, direction_from_keys,
    dur_ms, judge_outcome, mm_to_px, ms, pick_opening, primary_direction, reaction_from_draws, replay_match,
    replay_report, replay_round, winner_of, AIAgent, AIProfile, Actor, Direction, DuelConfig, DuelMachine, DuelPhase,
    DuelRuntime, IaidoSettings, MatchState, Opening, Outcome, ReplayError, SwipeConfig, SwipeDetector, SwipeSample,
    SwipeState, XorShift32, CLASH_DELAY_MAX_MS, CLASH_DELAY_MIN_MS, CLASH_INPUT_WINDOW_MS, INPUT_WINDOW_MS,
    TIE_WINDOW_MS,
};

const OPENINGS: [Opening; 10] = [
    Opening::Up,
    Opening::UpRight,
    Opening::Right,
    Opening::DownRight,
    Opening::Down,
    Opening::DownLeft,
    Opening::Left,
    Opening::UpLeft,
    Opening::UpDown,
    Opening::LeftRight,
];

fn machine(seed: u32, now: u64) -> DuelMachine {
    DuelMachine::new(DuelConfig { seed, clash: true }, now)
}

#[test]
fn every_opening_pair_follows_the_table() {
    for (i, o) in OPENINGS.iter().enumerate() {
        let correct = correct_direction_for(*o);
        assert_eq!(dir_to_index(correct), i);
        for j in 0..10 {
            let d = direction_from_index(j);
            let human = judge_outcome(*o, *o, Some(d), None, Some(10), None, TIE_WINDOW_MS);
            let ai = judge_outcome(*o, *o, None, Some(d), None, Some(10), TIE_WINDOW_MS);
            if d == correct {
                assert_eq!(human, Outcome::HumanWin);
                assert_eq!(ai, Outcome::AiWin);
            } else {
                assert_eq!(human, Outcome::WrongHuman);
                assert_eq!(ai, Outcome::WrongAi);
            }
        }
    }
}

#[test]
fn wrong_ai_answer_loses_even_when_faster() {
    let out = judge_outcome(Opening::Up, Opening::Down, Some(Direction::Up), Some(Direction::Up), Some(300), Some(1), 5);
    assert_eq!(out, Outcome::WrongAi);
    let both_wrong = judge_outcome(Opening::Up, Opening::Down, Some(Direction::Left), Some(Direction::Left), Some(1), Some(300), 5);
    assert_eq!(both_wrong, Outcome::WrongHuman);
}

#[test]
fn timing_decides_between_correct_answers() {
    let j = |h: u64, a: u64| {
        judge_outcome(Opening::Up, Opening::Right, Some(Direction::Up), Some(Direction::Right), Some(h), Some(a), 5)
    };
    assert_eq!(j(120, 90), Outcome::AiWin);
    assert_eq!(j(100, 105), Outcome::Clash);
    assert_eq!(j(100, 106), Outcome::HumanWin);
    assert_eq!(j(106, 100), Outcome::AiWin);
    assert_eq!(j(100, 100), Outcome::Clash);
}

#[test]
fn lone_or_missing_answers() {
    // the human never swipes, the AI answers correctly
    let out = judge_outcome(Opening::Up, Opening::Right, None, Some(Direction::Right), None, Some(80), 5);
    assert_eq!(out, Outcome::AiWin);
    let none = judge_outcome(Opening::Up, Opening::Right, None, None, None, None, 5);
    assert_eq!(none, Outcome::Clash);
    let no_times = judge_outcome(Opening::Up, Opening::Up, Some(Direction::Up), Some(Direction::Up), None, None, 5);
    assert_eq!(no_times, Outcome::Clash);
}

#[test]
fn ai_alone_in_the_window_wins_the_round() {
    let mut dm = machine(12345, 0);
    let ai_correct = correct_direction_for(dm.ai_opening);
    dm.open_input(1000);
    dm.on_swipe(Actor::Ai, ai_correct, 1080);
    dm.tick(1120);
    let last = dm.round_results.last().unwrap();
    assert_eq!(last.outcome, Outcome::AiWin);
    assert_eq!(last.ai_reaction_ms, Some(80));
    assert_eq!(last.human_reaction_ms, None);
    assert_eq!(dm.ai_score, 1);
    assert_eq!(dm.phase, DuelPhase::ResultFlash);
}

#[test]
fn generator_values_are_fixed() {
    let mut a = XorShift32::new(1);
    let mut zero = XorShift32::new(0);
    assert_eq!(a.next_u32(), 270369);
    assert_eq!(zero.next_u32(), 270369);
    let mut b = XorShift32::new(1);
    assert_eq!(b.range_u64(600, 1400), 1369);
    let mut c = XorShift32::new(1);
    assert_eq!(c.range_u64(700, 700), 700);
    assert_eq!(c.range_u64(900, 100), 900);
    let mut d = XorShift32::new(12345);
    let mut e = XorShift32::new(12345);
    for _ in 0..20 {
        assert_eq!(d.next_u32(), e.next_u32());
    }
}

#[test]
fn openings_are_drawn_from_the_generator() {
    let mut rng = XorShift32::new(12345);
    assert_eq!(pick_opening(&mut rng), Opening::Up);
    assert_eq!(pick_opening(&mut rng), Opening::UpLeft);
    assert_eq!(pick_opening(&mut rng), Opening::Down);
    let dm = machine(12345, 0);
    assert_eq!(dm.human_opening, Opening::Up);
    assert_eq!(dm.ai_opening, Opening::UpLeft);
    assert_eq!(dm.current_opening(), Opening::Up);
}

#[test]
fn a_round_runs_through_every_phase() {
    let mut dm = machine(12345, 0);
    dm.tick(2999);
    assert_eq!(dm.phase, DuelPhase::Standoff);
    dm.tick(3000);
    assert_eq!(dm.phase, DuelPhase::RandomDelay);
    assert_eq!(dm.human_opening, Opening::Down);
    assert_eq!(dm.ai_opening, Opening::Right);
    assert_eq!(dm.delay_target_ms, Some(4323));
    dm.tick(4322);
    assert_eq!(dm.phase, DuelPhase::RandomDelay);
    dm.tick(4323);
    assert_eq!(dm.phase, DuelPhase::GoSignal);
    assert_eq!(dm.go_ts_ms, Some(4323));
    dm.tick(4324);
    assert_eq!(dm.phase, DuelPhase::InputWindow);
    dm.on_swipe(Actor::Human, Direction::Down, 4400);
    dm.on_swipe(Actor::Ai, Direction::Right, 4390);
    // a second swipe of the same side is discarded
    dm.on_swipe(Actor::Human, Direction::Up, 4395);
    dm.tick(4401);
    assert_eq!(dm.phase, DuelPhase::ResultFlash);
    let last = dm.round_results.last().unwrap();
    assert_eq!(last.outcome, Outcome::AiWin);
    assert_eq!(last.human_reaction_ms, Some(77));
    assert_eq!(last.ai_reaction_ms, Some(67));
    assert_eq!(dm.ai_score, 1);
    dm.tick(4700);
    assert_eq!(dm.phase, DuelPhase::ResultFlash);
    dm.tick(4701);
    assert_eq!(dm.phase, DuelPhase::NextRound);
    dm.tick(5201);
    assert_eq!(dm.phase, DuelPhase::RandomDelay);
    assert_eq!(dm.round_index, 1);
    assert_eq!(dm.input_window_ms, INPUT_WINDOW_MS);
    assert_eq!(dm.go_ts_ms, None);
}

#[test]
fn late_swipe_is_ignored() {
    let mut dm = machine(12345, 0);
    let correct = correct_direction_for(dm.human_opening);
    dm.open_input(1000);
    dm.on_swipe(Actor::Human, correct, 1121);
    assert_eq!(dm.human_swipe, None);
    dm.on_swipe(Actor::Human, correct, 1120);
    assert!(dm.human_swipe.is_some());
}

#[test]
fn earlier_ticks_change_nothing() {
    let mut dm = machine(12345, 0);
    dm.tick(3000);
    let target = dm.delay_target_ms;
    dm.tick(2000);
    assert_eq!(dm.phase, DuelPhase::RandomDelay);
    assert_eq!(dm.delay_target_ms, target);
    assert_eq!(dm.last_tick_ms, 3000);
}

#[test]
fn swipe_before_go_is_early_in_every_open_phase() {
    let mut standoff = machine(12345, 0);
    standoff.on_swipe(Actor::Ai, Direction::Up, 10);
    assert_eq!(standoff.round_results.last().unwrap().outcome, Outcome::EarlyAi);
    assert_eq!(standoff.human_score, 1);

    let mut waiting = machine(12345, 0);
    waiting.tick(3000);
    waiting.on_swipe(Actor::Human, Direction::Up, 3100);
    assert_eq!(waiting.round_results.last().unwrap().outcome, Outcome::EarlyHuman);
    assert_eq!(waiting.ai_score, 1);
    assert_eq!(waiting.phase, DuelPhase::ResultFlash);
    // the round is decided: a further swipe is ignored
    waiting.on_swipe(Actor::Ai, Direction::Up, 3200);
    assert_eq!(waiting.round_results.len(), 1);

    let mut window = machine(12345, 0);
    window.open_input(5000);
    window.on_swipe(Actor::Human, Direction::Up, 4999);
    assert_eq!(window.round_results.last().unwrap().outcome, Outcome::EarlyHuman);
}

#[test]
fn clash_is_replayed_with_tighter_timing() {
    let mut dm = machine(12345, 0);
    let h = correct_direction_for(dm.human_opening);
    let a = correct_direction_for(dm.ai_opening);
    dm.open_input(1000);
    dm.on_swipe(Actor::Human, h, 1050);
    dm.on_swipe(Actor::Ai, a, 1052);
    dm.tick(1060);
    assert_eq!(dm.round_results.len(), 1);
    assert_eq!(dm.round_results[0].outcome, Outcome::Clash);
    assert_eq!(dm.round_index, 0);
    assert_eq!((dm.human_score, dm.ai_score), (0, 0));
    assert!(dm.last_clash);
    dm.tick(1360);
    assert_eq!(dm.phase, DuelPhase::NextRound);
    dm.tick(1860);
    assert_eq!(dm.phase, DuelPhase::RandomDelay);
    assert_eq!(dm.round_index, 0);
    assert_eq!(dm.input_window_ms, CLASH_INPUT_WINDOW_MS);
    let wait = dm.delay_target_ms.unwrap() - 1860;
    assert!(wait >= CLASH_DELAY_MIN_MS && wait < CLASH_DELAY_MAX_MS);
}

fn play_round_human_wins(dm: &mut DuelMachine, t: &mut u64) {
    while dm.phase != DuelPhase::InputWindow {
        *t += 1;
        dm.tick(*t);
    }
    let go = dm.go_ts_ms.unwrap();
    dm.on_swipe(Actor::Human, correct_direction_for(dm.human_opening), go + 40);
    *t += 200;
    dm.tick(*t);
    *t += 300;
    dm.tick(*t);
    *t += 500;
    dm.tick(*t);
}

#[test]
fn match_ends_after_two_wins_and_resets() {
    let mut dm = machine(777, 0);
    let mut t: u64 = 0;
    play_round_human_wins(&mut dm, &mut t);
    assert_eq!(dm.human_score, 1);
    assert_eq!(dm.match_state, MatchState::InProgress);
    assert_eq!(dm.round_index, 1);
    play_round_human_wins(&mut dm, &mut t);
    assert_eq!(dm.human_score, 2);
    assert_eq!(dm.match_state, MatchState::HumanWon);
    assert_eq!(dm.phase, DuelPhase::Finished);
    assert_eq!(dm.round_results.len(), 2);
    assert_eq!(dm.round_meta.len(), 2);
    let log = dm.match_log();
    assert_eq!(log.rounds.len(), 2);
    assert_eq!(log.rounds[1].round_index, 1);
    assert!(replay_match(&log));
    dm.reset_match(t + 1);
    assert_eq!(dm.phase, DuelPhase::Standoff);
    assert_eq!((dm.human_score, dm.ai_score, dm.round_index), (0, 0, 0));
    assert!(dm.round_results.is_empty());
    assert_eq!(dm.last_duel_log(), None);
}

#[test]
fn early_and_timed_out_rounds_replay() {
    let mut early = machine(99, 0);
    early.on_swipe(Actor::Ai, Direction::Left, 10);
    let log = early.last_duel_log().unwrap();
    assert_eq!(log.go.ts_ms, 11);
    assert_eq!(log.outcome, Outcome::EarlyAi);
    assert_eq!(replay_round(&log), Ok(()));

    let mut timeout = machine(99, 0);
    timeout.open_input(500);
    timeout.tick(620);
    let log = timeout.last_duel_log().unwrap();
    assert_eq!(log.outcome, Outcome::Clash);
    assert!(log.clash);
    assert_eq!(replay_round(&log), Ok(()));
}

#[test]
fn replay_reports_mismatches() {
    let mut dm = machine(99, 0);
    dm.open_input(500);
    dm.tick(620);
    let good = dm.last_duel_log().unwrap();
    let mut wrong_outcome = good;
    wrong_outcome.outcome = Outcome::HumanWin;
    wrong_outcome.clash = false;
    assert_eq!(
        replay_round(&wrong_outcome),
        Err(ReplayError::OutcomeMismatch { expected: Outcome::HumanWin, actual: Outcome::Clash })
    );
    let mut wrong_flag = good;
    wrong_flag.clash = false;
    assert_eq!(replay_round(&wrong_flag), Err(ReplayError::ClashMismatch { recorded: false, replayed: true }));
    let mut log = dm.match_log();
    assert!(replay_match(&log));
    log.rounds.push(wrong_flag);
    assert!(!replay_match(&log));
    let report = replay_report(&log);
    assert_eq!(report.len(), 2);
    assert_eq!(report[0], Ok(()));
    assert!(report[1].is_err());
}

#[test]
fn detector_reports_once_per_gesture() {
    let cfg = SwipeConfig { dpi: 320 };
    let mut sd = SwipeDetector::new();
    assert_eq!(sd.update(&cfg, SwipeSample { dt_ms: 10, dx: 0, dy: 0 }), None);
    assert_eq!(sd.state, SwipeState::Idle);
    assert_eq!(sd.update(&cfg, SwipeSample { dt_ms: 5, dx: 1, dy: 1 }), None);
    assert_eq!(sd.state, SwipeState::Moving);
    // far enough but the lock time is not reached yet
    assert_eq!(sd.update(&cfg, SwipeSample { dt_ms: 19, dx: 0, dy: -200 }), None);
    assert!(!sd.committed);
    let r = sd.update(&cfg, SwipeSample { dt_ms: 1, dx: 0, dy: 0 });
    assert_eq!(r, Some(Direction::Down));
    assert_eq!(sd.state, SwipeState::Locked);
    assert_eq!(sd.update(&cfg, SwipeSample { dt_ms: 10, dx: 0, dy: -200 }), None);
    sd.reset();
    assert_eq!(sd.state, SwipeState::Idle);
    assert_eq!(sd.elapsed_ms, 0);
}

#[test]
fn committed_direction_is_not_reevaluated() {
    let cfg = SwipeConfig { dpi: 320 };
    let mut sd = SwipeDetector::new();
    sd.update(&cfg, SwipeSample { dt_ms: 0, dx: 1, dy: 0 });
    sd.update(&cfg, SwipeSample { dt_ms: 20, dx: 10, dy: 0 });
    assert_eq!(sd.lock_dir, Some(Direction::Right));
    let r = sd.update(&cfg, SwipeSample { dt_ms: 10, dx: 0, dy: 300 });
    assert_eq!(r, Some(Direction::Right));
}

#[test]
fn primary_direction_classifies() {
    assert_eq!(primary_direction(0, 0), Direction::Up);
    assert_eq!(primary_direction(10, 10), Direction::UpRight);
    assert_eq!(primary_direction(-10, 10), Direction::UpLeft);
    assert_eq!(primary_direction(10, -10), Direction::DownRight);
    assert_eq!(primary_direction(-10, -10), Direction::DownLeft);
    assert_eq!(primary_direction(10, 4), Direction::Right);
    assert_eq!(primary_direction(10, 5), Direction::UpRight);
    assert_eq!(primary_direction(-7, 1), Direction::Left);
    assert_eq!(primary_direction(0, -5), Direction::Down);
    assert_eq!(primary_direction(i64::MIN, 0), Direction::Left);
}

#[test]
fn distances_scale_with_density() {
    assert_eq!(mm_to_px(70, 320), 88);
    assert_eq!(SwipeConfig { dpi: 320 }.min_distance_px(), 88);
    assert_eq!(mm_to_px(254, 100), 100);
}

#[test]
fn durations_convert() {
    assert_eq!(dur_ms(ms(1500)), 1500);
    assert_eq!(dur_ms(ms(0)), 0);
}

#[test]
fn direction_labels() {
    assert_eq!(Direction::UpLeft.label(), "UP+LEFT");
    assert_eq!(Direction::Down.label(), "DOWN");
    assert_eq!(Direction::LeftRight.label(), "LEFT+RIGHT");
}

#[test]
fn ai_choice_and_timing_from_draws() {
    assert_eq!(choose_direction(Opening::Up, 500, 500, 3), Direction::Up);
    assert_eq!(choose_direction(Opening::Up, 500, 100, 0), Direction::UpRight);
    assert_eq!(choose_direction(Opening::Up, 500, 100, 8), Direction::LeftRight);
    assert_eq!(choose_direction(Opening::Down, 500, 100, 3), Direction::DownRight);
    assert_eq!(choose_direction(Opening::Down, 500, 100, 4), Direction::DownLeft);
    assert_eq!(reaction_from_draws(100, 40, 0), 140);
    assert_eq!(reaction_from_draws(100, 0, 40), 60);
    assert_eq!(reaction_from_draws(10, 0, 40), 0);
    assert_eq!(ai_swipe_for(1000, 120, 50, Direction::Up).map(|e| e.ts_ms), Some(1050));
    assert_eq!(ai_swipe_for(1000, 120, 121, Direction::Up), None);
}

#[test]
fn ai_agent_respects_its_profile() {
    let mut sure = AIAgent::new(7, AIProfile::Skilled, (500, 1000, 100, 0, 50, 1000));
    let mut never = AIAgent::new(7, AIProfile::Master, (500, 0, 100, 0, 50, 1000));
    for o in OPENINGS.iter() {
        for _ in 0..20 {
            assert_eq!(sure.decide_direction(*o), correct_direction_for(*o));
            assert_ne!(never.decide_direction(*o), correct_direction_for(*o));
        }
    }
    let mut novice = AIAgent::new(9, AIProfile::Novice, (100, 0, 0, 0, 0, 0));
    let mut seen_other = false;
    for _ in 0..200 {
        let r = novice.sample_reaction_ms();
        assert!(r >= 60 && r <= 140);
        if r != 100 {
            seen_other = true;
        }
    }
    assert!(seen_other);
    let mut slow = AIAgent::new(9, AIProfile::Novice, (1000, 0, 0, 0, 0, 0));
    assert_eq!(slow.plan_round(Opening::Up, 1000, 120), None);
    let mut quick = AIAgent::new(9, AIProfile::Novice, (50, 0, 0, 0, 0, 0));
    let plan = quick.plan_round(Opening::Left, 1000, 120).unwrap();
    assert_eq!(plan.dir, Direction::Left);
    assert!(plan.ts_ms >= 1010 && plan.ts_ms <= 1090);
}

#[test]
fn winners_of_outcomes() {
    assert_eq!(winner_of(Outcome::HumanWin), Some(Actor::Human));
    assert_eq!(winner_of(Outcome::EarlyAi), Some(Actor::Human));
    assert_eq!(winner_of(Outcome::WrongHuman), Some(Actor::Ai));
    assert_eq!(winner_of(Outcome::Clash), None);
}

#[test]
fn keys_map_to_directions() {
    assert_eq!(direction_from_keys(true, true, false, false), Some(Direction::UpDown));
    assert_eq!(direction_from_keys(false, false, true, true), Some(Direction::LeftRight));
    assert_eq!(direction_from_keys(true, false, false, true), Some(Direction::UpRight));
    assert_eq!(direction_from_keys(false, true, true, false), Some(Direction::DownLeft));
    assert_eq!(direction_from_keys(false, false, true, false), Some(Direction::Left));
    assert_eq!(direction_from_keys(false, false, false, false), None);
}

#[test]
fn runtime_feeds_the_machine() {
    let settings = IaidoSettings::default();
    assert_eq!(settings.dpi, 320);
    let ai = AIAgent::new(3, AIProfile::Skilled, (40, 0, 40, 0, 40, 0));
    let mut rt = DuelRuntime::new(settings, ai, 0);
    rt.machine.open_input(1000);
    let dir = correct_direction_for(rt.machine.human_opening);
    assert_eq!(rt.drive_ai(1000), None);
    let made = rt.drive_ai(1200).expect("the AI answers within the window");
    assert!(made.ts_ms >= 1000 && made.ts_ms <= 1080);
    assert_eq!(made.dir, correct_direction_for(rt.machine.ai_opening));
    assert!(rt.machine.ai_swipe.is_some());
    assert_eq!(rt.drive_ai(1300), None);
    let (up, down, left, right) = match dir {
        Direction::Up => (true, false, false, false),
        Direction::Down => (false, true, false, false),
        Direction::Left => (false, false, true, false),
        Direction::Right => (false, false, false, true),
        Direction::UpRight => (true, false, false, true),
        Direction::UpLeft => (true, false, true, false),
        Direction::DownRight => (false, true, false, true),
        Direction::DownLeft => (false, true, true, false),
        Direction::UpDown => (true, true, false, false),
        Direction::LeftRight => (false, false, true, true),
    };
    assert_eq!(rt.key_input(up, down, left, right, false, 1050), None);
    assert_eq!(rt.key_input(up, down, left, right, true, 1050), Some(dir));
    assert_eq!(rt.machine.human_swipe.map(|e| e.ts_ms), Some(1050));
    rt.update_time(1300);
    assert_eq!(rt.machine.round_results.len(), 1);
}

#[test]
fn ticks_before_the_phase_start_change_nothing() {
    let mut dm = machine(12345, 0);
    dm.open_input(1000);
    assert_eq!(dm.last_tick_ms, 1000);
    dm.on_swipe(Actor::Human, correct_direction_for(dm.human_opening), 1010);
    dm.on_swipe(Actor::Ai, correct_direction_for(dm.ai_opening), 1020);
    dm.tick(999);
    assert!(dm.round_results.is_empty());
    assert_eq!(dm.phase, DuelPhase::InputWindow);
    dm.tick(1021);
    assert_eq!(dm.round_results.len(), 1);
}

#[test]
fn a_due_plan_is_carried_out() {
    let ai = AIAgent::new(3, AIProfile::Skilled, (40, 0, 40, 0, 40, 0));
    let mut rt = DuelRuntime::new(IaidoSettings::default(), ai, 0);
    rt.machine.open_input(1000);
    let planned = iaido::SwipeEvent { dir: correct_direction_for(rt.machine.ai_opening), ts_ms: 1030 };
    rt.ai_plan = Some(iaido::AiPlan { go_ts_ms: 1000, swipe: Some(planned) });
    assert_eq!(rt.drive_ai(1029), None);
    assert_eq!(rt.ai_plan, Some(iaido::AiPlan { go_ts_ms: 1000, swipe: Some(planned) }));
    assert_eq!(rt.drive_ai(1030), Some(planned));
    assert_eq!(rt.ai_plan, Some(iaido::AiPlan { go_ts_ms: 1000, swipe: None }));
    assert_eq!(rt.machine.ai_swipe, Some(planned));
    // a plan left from an earlier GO is replaced
    let mut other = DuelRuntime::new(IaidoSettings::default(), AIAgent::new(3, AIProfile::Skilled, (40, 0, 40, 0, 40, 0)), 0);
    other.machine.open_input(2000);
    other.ai_plan = Some(iaido::AiPlan { go_ts_ms: 1000, swipe: Some(planned) });
    assert_eq!(other.drive_ai(2000), None);
    assert_eq!(other.ai_plan.map(|p| p.go_ts_ms), Some(2000));
    let mut off = DuelRuntime::new(IaidoSettings { seed: 1, dpi: 320, ai: false }, AIAgent::new(3, AIProfile::Skilled, (40, 0, 40, 0, 40, 0)), 0);
    off.machine.open_input(1000);
    assert_eq!(off.drive_ai(5000), None);
    assert_eq!(off.ai_plan, None);
}
