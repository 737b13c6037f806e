use vstd::prelude::*;
use crate::types::{Direction, Opening, Outcome};

verus! {

/// The table of the game: the one direction that answers each opening.
pub open spec fn correct_dir(o: Opening) -> Direction {
    match o {
        Opening::Up => Direction::Up,
        Opening::UpRight => Direction::UpRight,
        Opening::Right => Direction::Right,
        Opening::DownRight => Direction::DownRight,
        Opening::Down => Direction::Down,
        Opening::DownLeft => Direction::DownLeft,
        Opening::Left => Direction::Left,
        Opening::UpLeft => Direction::UpLeft,
        Opening::UpDown => Direction::UpDown,
        Opening::LeftRight => Direction::LeftRight,
    }
}

/// The place of a direction in the clockwise order of the enumeration:
/// the eight compass directions from `Up`, then the two combos.
pub open spec fn direction_index(d: Direction) -> nat {
    match d {
        Direction::Up => 0,
        Direction::UpRight => 1,
        Direction::Right => 2,
        Direction::DownRight => 3,
        Direction::Down => 4,
        Direction::DownLeft => 5,
        Direction::Left => 6,
        Direction::UpLeft => 7,
        Direction::UpDown => 8,
        Direction::LeftRight => 9,
    }
}

/// The place of an opening in the same order as `direction_index`.
pub open spec fn opening_index(o: Opening) -> nat {
    direction_index(correct_dir(o))
}

/// The opening at place `i` of that order (`LeftRight` from 9 on).
pub open spec fn opening_at(i: nat) -> Opening {
    if i == 0 {
        Opening::Up
    } else if i == 1 {
        Opening::UpRight
    } else if i == 2 {
        Opening::Right
    } else if i == 3 {
        Opening::DownRight
    } else if i == 4 {
        Opening::Down
    } else if i == 5 {
        Opening::DownLeft
    } else if i == 6 {
        Opening::Left
    } else if i == 7 {
        Opening::UpLeft
    } else if i == 8 {
        Opening::UpDown
    } else {
        Opening::LeftRight
    }
}

/// The outcome decided by reaction times alone: a gap of more than the tie
/// window makes the faster side win, any smaller gap is a clash.
pub open spec fn timing_outcome(human_ms: u64, ai_ms: u64, tie_window_ms: u64) -> Outcome {
    if human_ms + tie_window_ms < ai_ms {
        Outcome::HumanWin
    } else if ai_ms + tie_window_ms < human_ms {
        Outcome::AiWin
    } else {
        Outcome::Clash
    }
}

/// The resolver's rule. A wrong answer loses at once (the human's is looked at
/// first); a lone answer wins; no answer at all is a clash; two correct
/// answers are decided by `timing_outcome` alone. Directions are not ranked
/// against each other (no circular order of who beats whom): with two correct
/// answers the faster one wins unless the gap is within the tie window, even
/// when both sides answered the same direction.
pub open spec fn judge(
    human_opening: Opening,
    ai_opening: Opening,
    human_dir: Option<Direction>,
    ai_dir: Option<Direction>,
    human_ms: Option<u64>,
    ai_ms: Option<u64>,
    tie_window_ms: u64,
) -> Outcome {
    if human_dir is Some && human_dir->0 != correct_dir(human_opening) {
        Outcome::WrongHuman
    } else if ai_dir is Some && ai_dir->0 != correct_dir(ai_opening) {
        Outcome::WrongAi
    } else {
        match (human_dir, ai_dir) {
            (Some(_), None) => Outcome::HumanWin,
            (None, Some(_)) => Outcome::AiWin,
            (None, None) => Outcome::Clash,
            (Some(_), Some(_)) => match (human_ms, ai_ms) {
                (Some(h), Some(a)) => timing_outcome(h, a, tie_window_ms),
                _ => Outcome::Clash,
            },
        }
    }
}

pub fn correct_direction_for(opening: Opening) -> (r: Direction)
    ensures
        r == correct_dir(opening),
{
    match opening {
        Opening::Up => Direction::Up,
        Opening::UpRight => Direction::UpRight,
        Opening::Right => Direction::Right,
        Opening::DownRight => Direction::DownRight,
        Opening::Down => Direction::Down,
        Opening::DownLeft => Direction::DownLeft,
        Opening::Left => Direction::Left,
        Opening::UpLeft => Direction::UpLeft,
        Opening::UpDown => Direction::UpDown,
        Opening::LeftRight => Direction::LeftRight,
    }
}

pub fn dir_to_index(d: Direction) -> (r: usize)
    ensures
        r == direction_index(d),
        r < 10,
{
    match d {
        Direction::Up => 0,
        Direction::UpRight => 1,
        Direction::Right => 2,
        Direction::DownRight => 3,
        Direction::Down => 4,
        Direction::DownLeft => 5,
        Direction::Left => 6,
        Direction::UpLeft => 7,
        Direction::UpDown => 8,
        Direction::LeftRight => 9,
    }
}

/// The direction at place `i` of the order of `direction_index`.
pub fn direction_from_index(i: usize) -> (r: Direction)
    requires
        i < 10,
    ensures
        direction_index(r) == i,
{
    match i {
        0 => Direction::Up,
        1 => Direction::UpRight,
        2 => Direction::Right,
        3 => Direction::DownRight,
        4 => Direction::Down,
        5 => Direction::DownLeft,
        6 => Direction::Left,
        7 => Direction::UpLeft,
        8 => Direction::UpDown,
        _ => Direction::LeftRight,
    }
}

/// The opening at place `i` of the order of `opening_index`.
pub fn opening_from_index(i: u32) -> (r: Opening)
    requires
        i < 10,
    ensures
        r == opening_at(i as nat),
        opening_index(r) == i,
{
    match i {
        0 => Opening::Up,
        1 => Opening::UpRight,
        2 => Opening::Right,
        3 => Opening::DownRight,
        4 => Opening::Down,
        5 => Opening::DownLeft,
        6 => Opening::Left,
        7 => Opening::UpLeft,
        8 => Opening::UpDown,
        _ => Opening::LeftRight,
    }
}

/// Resolves a round from both sides' openings, their answers and their
/// reaction times.
pub fn judge_outcome(
    human_opening: Opening,
    ai_opening: Opening,
    human_dir: Option<Direction>,
    ai_dir: Option<Direction>,
    human_react_ms: Option<u64>,
    ai_react_ms: Option<u64>,
    tie_window_ms: u64,
) -> (r: Outcome)
    ensures
        r == judge(human_opening, ai_opening, human_dir, ai_dir, human_react_ms, ai_react_ms, tie_window_ms),
{
    let correct_human = correct_direction_for(human_opening);
    let correct_ai = correct_direction_for(ai_opening);
    if let Some(h) = human_dir {
        if h != correct_human {
            return Outcome::WrongHuman;
        }
    }
    if let Some(a) = ai_dir {
        if a != correct_ai {
            return Outcome::WrongAi;
        }
    }
    match (human_dir, ai_dir) {
        (Some(_), Some(_)) => match (human_react_ms, ai_react_ms) {
            (Some(ht), Some(at)) => {
                if ht < at && at - ht > tie_window_ms {
                    Outcome::HumanWin
                } else if at < ht && ht - at > tie_window_ms {
                    Outcome::AiWin
                } else {
                    Outcome::Clash
                }
            },
            _ => Outcome::Clash,
        },
        (Some(_), None) => Outcome::HumanWin,
        (None, Some(_)) => Outcome::AiWin,
        (None, None) => Outcome::Clash,
    }
}

/// Correctness follows the table for every pair: a lone answer `d` to opening
/// `o` wins exactly when `d` is the table's direction for `o`, and loses as a
/// wrong answer otherwise, for either side.
pub proof fn lemma_correctness_matches_table(o: Opening, other: Opening, d: Direction, ms: Option<u64>, tie_window_ms: u64)
    ensures
        d == correct_dir(o) <==> judge(o, other, Some(d), None, ms, None, tie_window_ms) == Outcome::HumanWin,
        d != correct_dir(o) <==> judge(o, other, Some(d), None, ms, None, tie_window_ms) == Outcome::WrongHuman,
        d == correct_dir(o) <==> judge(other, o, None, Some(d), None, ms, tie_window_ms) == Outcome::AiWin,
        d != correct_dir(o) <==> judge(other, o, None, Some(d), None, ms, tie_window_ms) == Outcome::WrongAi,
        opening_index(o) == direction_index(correct_dir(o)),
{
}

/// A wrong answer loses whatever the reaction times and the other side's
/// answer: a wrong human answer always gives `WrongHuman`, and a wrong AI
/// answer gives `WrongAi` whenever the human's answer is not itself wrong.
pub proof fn lemma_wrong_answer_loses(
    human_opening: Opening,
    ai_opening: Opening,
    human_dir: Option<Direction>,
    ai_dir: Option<Direction>,
    human_ms: Option<u64>,
    ai_ms: Option<u64>,
    tie_window_ms: u64,
)
    ensures
        human_dir is Some && human_dir->0 != correct_dir(human_opening) ==> judge(
            human_opening,
            ai_opening,
            human_dir,
            ai_dir,
            human_ms,
            ai_ms,
            tie_window_ms,
        ) == Outcome::WrongHuman,
        ai_dir is Some && ai_dir->0 != correct_dir(ai_opening) && !(human_dir is Some
            && human_dir->0 != correct_dir(human_opening)) ==> judge(
            human_opening,
            ai_opening,
            human_dir,
            ai_dir,
            human_ms,
            ai_ms,
            tie_window_ms,
        ) == Outcome::WrongAi,
{
}

/// Two correct answers: a gap of more than the tie window lets the faster
/// side win, a gap within it is a clash.
pub proof fn lemma_faster_correct_side_wins(
    human_opening: Opening,
    ai_opening: Opening,
    human_ms: u64,
    ai_ms: u64,
    tie_window_ms: u64,
)
    ensures
        ({
            let r = judge(
                human_opening,
                ai_opening,
                Some(correct_dir(human_opening)),
                Some(correct_dir(ai_opening)),
                Some(human_ms),
                Some(ai_ms),
                tie_window_ms,
            );
            &&& (human_ms < ai_ms && ai_ms - human_ms > tie_window_ms ==> r == Outcome::HumanWin)
            &&& (ai_ms < human_ms && human_ms - ai_ms > tie_window_ms ==> r == Outcome::AiWin)
            &&& (abs_diff(human_ms, ai_ms) <= tie_window_ms ==> r == Outcome::Clash)
        }),
{
}

/// `|a - b|`.
pub open spec fn abs_diff(a: u64, b: u64) -> int {
    if a >= b { a - b } else { b - a }
}

} // verus!
