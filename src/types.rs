use vstd::prelude::*;

verus! {

/// A committed gesture: the four axes, the four diagonals, and two combos
/// ("either of two opposite directions").
#[derive(Clone, Copy, Debug, PartialEq, Eq, Structural, Hash)]
pub enum Direction {
    Up,
    Down,
    Left,
    Right,
    UpLeft,
    UpRight,
    DownLeft,
    DownRight,
    UpDown,
    LeftRight,
}

/// The guard stance assigned to a side for a round; it fixes the one
/// direction that side must answer with.
#[derive(Clone, Copy, Debug, PartialEq, Eq, Structural, Hash)]
pub enum Opening {
    Up,
    Down,
    Left,
    Right,
    UpLeft,
    UpRight,
    DownLeft,
    DownRight,
    UpDown,
    LeftRight,
}

#[derive(Clone, Copy, Debug, PartialEq, Eq, Structural, Hash)]
pub enum Actor {
    Human,
    Ai,
}

#[derive(Clone, Copy, Debug, PartialEq, Eq, Structural, Hash)]
pub enum Outcome {
    HumanWin,
    AiWin,
    Clash,
    EarlyHuman,
    EarlyAi,
    WrongHuman,
    WrongAi,
}

#[derive(Clone, Copy, Debug, PartialEq, Eq, Structural, Hash)]
pub enum DuelPhase {
    Reset,
    Standoff,
    RandomDelay,
    GoSignal,
    InputWindow,
    Resolution,
    ResultFlash,
    NextRound,
    Finished,
}

#[derive(Clone, Copy, Debug, PartialEq, Eq, Structural, Hash)]
pub enum MatchState {
    InProgress,
    HumanWon,
    AiWon,
}

#[derive(Clone, Copy, Debug, PartialEq, Eq, Structural)]
pub struct SwipeEvent {
    pub dir: Direction,
    pub ts_ms: u64,
}

#[derive(Clone, Copy, Debug, PartialEq, Eq, Structural)]
pub struct GoEvent {
    pub ts_ms: u64,
}

/// What a resolved (or early-ended) round left behind. Never changed once
/// appended to a machine's results.
#[derive(Clone, Copy, Debug, PartialEq, Eq, Structural)]
pub struct RoundResult {
    pub human_opening: Opening,
    pub ai_opening: Opening,
    pub outcome: Outcome,
    pub human_reaction_ms: Option<u32>,
    pub ai_reaction_ms: Option<u32>,
}

/// The inputs of a round, kept beside its `RoundResult` so that the round can
/// be exported and replayed.
#[derive(Clone, Copy, Debug, PartialEq, Eq, Structural)]
pub struct RoundMeta {
    pub round_index: u32,
    pub go_ts_ms: u64,
    pub human: Option<SwipeEvent>,
    pub ai: Option<SwipeEvent>,
}

pub open spec fn direction_label(d: Direction) -> Seq<char> {
    match d {
        Direction::Up => seq!['U', 'P'],
        Direction::Down => seq!['D', 'O', 'W', 'N'],
        Direction::Left => seq!['L', 'E', 'F', 'T'],
        Direction::Right => seq!['R', 'I', 'G', 'H', 'T'],
        Direction::UpLeft => seq!['U', 'P', '+', 'L', 'E', 'F', 'T'],
        Direction::UpRight => seq!['U', 'P', '+', 'R', 'I', 'G', 'H', 'T'],
        Direction::DownLeft => seq!['D', 'O', 'W', 'N', '+', 'L', 'E', 'F', 'T'],
        Direction::DownRight => seq!['D', 'O', 'W', 'N', '+', 'R', 'I', 'G', 'H', 'T'],
        Direction::UpDown => seq!['U', 'P', '+', 'D', 'O', 'W', 'N'],
        Direction::LeftRight => seq!['L', 'E', 'F', 'T', '+', 'R', 'I', 'G', 'H', 'T'],
    }
}

impl Direction {
    /// The upper-case label shown for a direction, such as `UP+LEFT`.
    pub fn label(self) -> (r: &'static str)
        ensures
            r@ == direction_label(self),
    {
        match self {
            Direction::Up => {
                proof { reveal_strlit("UP"); }
                "UP"
            },
            Direction::Down => {
                proof { reveal_strlit("DOWN"); }
                "DOWN"
            },
            Direction::Left => {
                proof { reveal_strlit("LEFT"); }
                "LEFT"
            },
            Direction::Right => {
                proof { reveal_strlit("RIGHT"); }
                "RIGHT"
            },
            Direction::UpLeft => {
                proof { reveal_strlit("UP+LEFT"); }
                "UP+LEFT"
            },
            Direction::UpRight => {
                proof { reveal_strlit("UP+RIGHT"); }
                "UP+RIGHT"
            },
            Direction::DownLeft => {
                proof { reveal_strlit("DOWN+LEFT"); }
                "DOWN+LEFT"
            },
            Direction::DownRight => {
                proof { reveal_strlit("DOWN+RIGHT"); }
                "DOWN+RIGHT"
            },
            Direction::UpDown => {
                proof { reveal_strlit("UP+DOWN"); }
                "UP+DOWN"
            },
            Direction::LeftRight => {
                proof { reveal_strlit("LEFT+RIGHT"); }
                "LEFT+RIGHT"
            },
        }
    }
}

} // verus!
