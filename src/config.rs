use vstd::prelude::*;
use core::time::Duration;

verus! {

/// Warm-up before the first round of a match.
pub const START_DELAY_MS: u64 = 3000;
/// Bounds of the random wait before GO in an ordinary round.
pub const RANDOM_DELAY_MIN_MS: u64 = 600;
pub const RANDOM_DELAY_MAX_MS: u64 = 1400;
/// Time after GO during which an ordinary round accepts answers.
pub const INPUT_WINDOW_MS: u64 = 120;

/// The tighter wait and window of the rematch that follows a clash.
pub const CLASH_DELAY_MIN_MS: u64 = 300;
pub const CLASH_DELAY_MAX_MS: u64 = 600;
pub const CLASH_INPUT_WINDOW_MS: u64 = 80;

/// How long a result is held before the machine moves on.
pub const RESULT_FLASH_MS: u64 = 300;
/// The pause between a result and the next round's wait.
pub const NEXT_ROUND_MS: u64 = 500;

/// Motion time after which the swipe detector fixes its direction.
pub const DIRECTION_LOCK_MS: u64 = 20;
/// Reaction times this close are taken as simultaneous.
pub const TIE_WINDOW_MS: u64 = 5;

/// Wins that end a match, and the number of decided rounds it may last.
pub const ROUNDS_TO_WIN: u8 = 2;
pub const BEST_OF: u32 = 3;

/// Minimum swipe length, in tenths of a millimetre, and the tenths of a
/// millimetre in an inch.
pub const MIN_SWIPE_TENTH_MM: u32 = 70;
pub const TENTH_MM_PER_INCH: u64 = 254;

/// Whole pixels in `tenth_mm` tenths of a millimetre on a screen of `dpi`
/// dots per inch, rounded down.
pub fn mm_to_px(tenth_mm: u32, dpi: u32) -> (r: u64)
    ensures
        r == (tenth_mm as int * dpi as int) / TENTH_MM_PER_INCH as int,
{
    proof {
        assert(tenth_mm as int * dpi as int <= 0xffff_ffff * 0xffff_ffff) by (nonlinear_arith)
            requires
                tenth_mm <= 0xffff_ffffu32,
                dpi <= 0xffff_ffffu32,
        ;
    }
    (tenth_mm as u64 * dpi as u64) / TENTH_MM_PER_INCH
}

/// Relies on `Duration::from_millis` to build a duration of whole milliseconds.
pub assume_specification[ core::time::Duration::from_millis ](millis: u64) -> Duration;

/// Relies on `Duration::as_millis` to count the whole milliseconds of a duration.
pub assume_specification[ core::time::Duration::as_millis ](d: &Duration) -> u128;

/// A duration of `ms` milliseconds.
pub fn ms(ms: u64) -> Duration {
    Duration::from_millis(ms)
}

/// The whole milliseconds of `d`, cut to the low 64 bits.
pub fn dur_ms(d: Duration) -> u64 {
    let m = d.as_millis();
    m as u64
}

} // verus!
