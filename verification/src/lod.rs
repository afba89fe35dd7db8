//! Level-of-detail strategy and profile selection, the choice of the
//! target quality level, and the quality-level names accepted on the
//! command line.
//!
//! Quality levels are indices into the four quality presets: 0 = ultra,
//! 1 = high, 2 = medium, 3 = low.

use vstd::prelude::*;
use crate::text::{all_ascii, ascii_lower_char, chars_of, lowercase, seq_eq, to_lower};

verus! {

/// LOD strategy for quality adjustment.
#[derive(Debug, Clone, Copy, PartialEq, Eq, Structural)]
pub enum LODStrategy {
    /// Reduce quality based on distance from camera.
    Distance,
    /// Reduce quality during camera movement.
    Motion,
    /// Adjust quality to maintain target FPS.
    Performance,
    /// Combine all strategies.
    Hybrid,
}

impl LODStrategy {
    /// The default strategy: hybrid.
    pub fn default_strategy() -> (s: LODStrategy)
        ensures
            s == LODStrategy::Hybrid,
    {
        LODStrategy::Hybrid
    }
}

/// Predefined LOD profiles.
#[derive(Debug, Clone, Copy, PartialEq, Eq, Structural)]
pub enum LODProfile {
    Balanced,
    QualityFirst,
    PerformanceFirst,
    DistanceOnly,
    MotionOnly,
    Custom,
}

impl LODProfile {
    pub open spec fn spec_name(self) -> Seq<char> {
        match self {
            LODProfile::Balanced => "Balanced"@,
            LODProfile::QualityFirst => "Quality First"@,
            LODProfile::PerformanceFirst => "Performance First"@,
            LODProfile::DistanceOnly => "Distance Only"@,
            LODProfile::MotionOnly => "Motion Only"@,
            LODProfile::Custom => "Custom"@,
        }
    }

    /// The default profile: balanced.
    pub fn default_profile() -> (p: LODProfile)
        ensures
            p == LODProfile::Balanced,
    {
        LODProfile::Balanced
    }

    /// The strategy a predefined profile selects; the custom profile keeps
    /// whatever strategy is configured.
    pub fn strategy(&self, current: LODStrategy) -> (s: LODStrategy)
        ensures
            s == (match *self {
                LODProfile::DistanceOnly => LODStrategy::Distance,
                LODProfile::MotionOnly => LODStrategy::Motion,
                LODProfile::Custom => current,
                _ => LODStrategy::Hybrid,
            }),
    {
        match self {
            LODProfile::DistanceOnly => LODStrategy::Distance,
            LODProfile::MotionOnly => LODStrategy::Motion,
            LODProfile::Custom => current,
            _ => LODStrategy::Hybrid,
        }
    }

    /// The lowest quality level (0 = ultra .. 3 = low index bound) a profile
    /// allows: quality-first never drops below high (1); the custom profile
    /// keeps the configured value.
    pub fn min_quality_level(&self, current: usize) -> (l: usize)
        ensures
            l == (match *self {
                LODProfile::QualityFirst => 1usize,
                LODProfile::Custom => current,
                _ => 0usize,
            }),
    {
        match self {
            LODProfile::QualityFirst => 1,
            LODProfile::Custom => current,
            _ => 0,
        }
    }
}

impl LODProfile {
    /// Whether a profile blends between quality levels: every predefined
    /// profile but performance-first does; the custom profile keeps the
    /// configured setting.
    pub fn smooth_transitions(&self, current: bool) -> (b: bool)
        ensures
            b == (match *self {
                LODProfile::PerformanceFirst => false,
                LODProfile::Custom => current,
                _ => true,
            }),
    {
        match self {
            LODProfile::PerformanceFirst => false,
            LODProfile::Custom => current,
            _ => true,
        }
    }

    /// Whether a profile drops straight to the lowest quality while the
    /// camera moves: only performance-first does; the custom profile keeps
    /// the configured setting.
    pub fn aggressive_mode(&self, current: bool) -> (b: bool)
        ensures
            b == (match *self {
                LODProfile::PerformanceFirst => true,
                LODProfile::Custom => current,
                _ => false,
            }),
    {
        match self {
            LODProfile::PerformanceFirst => true,
            LODProfile::Custom => current,
            _ => false,
        }
    }
}

/// The display name of a LOD profile.
pub fn profile_name(profile: LODProfile) -> (n: &'static str)
    ensures
        n@ == profile.spec_name(),
{
    match profile {
        LODProfile::Balanced => "Balanced",
        LODProfile::QualityFirst => "Quality First",
        LODProfile::PerformanceFirst => "Performance First",
        LODProfile::DistanceOnly => "Distance Only",
        LODProfile::MotionOnly => "Motion Only",
        LODProfile::Custom => "Custom",
    }
}

/// The quality level (0 = ultra, 1 = high, 2 = medium, 3 = low) named by an
/// already-lowercased word, or `None`.
pub open spec fn spec_quality_level(s: Seq<char>) -> Option<usize> {
    if s == "ultra"@ || s == "u"@ {
        Some(0)
    } else if s == "high"@ || s == "h"@ {
        Some(1)
    } else if s == "medium"@ || s == "med"@ || s == "m"@ {
        Some(2)
    } else if s == "low"@ || s == "l"@ {
        Some(3)
    } else {
        None
    }
}

fn eq_lit(v: &Vec<char>, lit: &str) -> (b: bool)
    ensures
        b == (v@ == lit@),
{
    let w = chars_of(lit);
    seq_eq(v, &w)
}

/// Quality level named by a word that is already lowercase.
pub fn quality_level_from_lower(s: &str) -> (r: Option<usize>)
    ensures
        r == spec_quality_level(s@),
{
    let v = chars_of(s);
    if eq_lit(&v, "ultra") || eq_lit(&v, "u") {
        Some(0)
    } else if eq_lit(&v, "high") || eq_lit(&v, "h") {
        Some(1)
    } else if eq_lit(&v, "medium") || eq_lit(&v, "med") || eq_lit(&v, "m") {
        Some(2)
    } else if eq_lit(&v, "low") || eq_lit(&v, "l") {
        Some(3)
    } else {
        None
    }
}

/// Quality level named on the command line, case-insensitively.
pub fn parse_quality_level(s: &str) -> (r: Option<usize>)
    ensures
        r == spec_quality_level(lowercase(s@)),
        all_ascii(s@) ==> r == spec_quality_level(s@.map_values(|c: char| ascii_lower_char(c))),
{
    let lower = to_lower(s);
    quality_level_from_lower(lower.as_str())
}

/// The level the motion strategy asks for: while the camera moves, the
/// lowest level in aggressive mode and medium otherwise; medium again while
/// the restore delay after a stop runs; ultra once the camera has rested.
pub fn motion_lod_level(is_moving: bool, aggressive: bool, within_restore_delay: bool) -> (l: usize)
    ensures
        l == (if is_moving {
            if aggressive { 3usize } else { 2usize }
        } else if within_restore_delay {
            2usize
        } else {
            0usize
        }),
{
    if is_moving {
        if aggressive { 3 } else { 2 }
    } else if within_restore_delay {
        2
    } else {
        0
    }
}

/// What happens to the stable-time counter of the performance strategy.
#[derive(Debug, Clone, Copy, PartialEq, Eq, Structural)]
pub enum StableTimer {
    /// Add the frame time.
    Accumulate,
    /// Restart from zero.
    Reset,
}

/// One step of the performance strategy's hysteresis. `last` is the level
/// in effect, `suggested` the level the frame rate calls for, and
/// `upgrade_ready` whether the stable time, with this frame added, has
/// reached the half second an upgrade waits for. A lower quality is taken
/// at once; a higher one only once the frame rate has been stable long
/// enough.
pub fn performance_lod_step(last: usize, suggested: usize, upgrade_ready: bool) -> (r: (usize, StableTimer))
    ensures
        r == (if suggested == last {
            (last, StableTimer::Accumulate)
        } else if suggested > last {
            (suggested, StableTimer::Reset)
        } else if upgrade_ready {
            (suggested, StableTimer::Reset)
        } else {
            (last, StableTimer::Accumulate)
        }),
{
    if suggested == last {
        (last, StableTimer::Accumulate)
    } else if suggested > last {
        (suggested, StableTimer::Reset)
    } else if upgrade_ready {
        (suggested, StableTimer::Reset)
    } else {
        (last, StableTimer::Accumulate)
    }
}

/// The level a strategy asks for, before the minimum quality applies.
pub open spec fn spec_strategy_level(strategy: LODStrategy, distance: usize, motion: usize, performance: usize) -> int {
    match strategy {
        LODStrategy::Distance => distance as int,
        LODStrategy::Motion => motion as int,
        LODStrategy::Performance => performance as int,
        LODStrategy::Hybrid => {
            let m = if distance >= motion { distance } else { motion };
            (if m >= performance { m } else { performance }) as int
        },
    }
}

/// The target level: the strategy's level capped at the lowest quality
/// (3) and raised to the configured minimum quality level.
pub open spec fn spec_target_level(strategy: LODStrategy, distance: usize, motion: usize, performance: usize, min_quality_level: usize) -> int {
    let l = spec_strategy_level(strategy, distance, motion, performance);
    let capped = if l <= 3 { l } else { 3 };
    if capped >= min_quality_level { capped } else { min_quality_level as int }
}

/// The target quality level. The level of each strategy is an argument; a
/// strategy's level only matters when the strategy (or the hybrid one)
/// uses it.
pub fn target_lod_level(
    strategy: LODStrategy,
    distance: usize,
    motion: usize,
    performance: usize,
    min_quality_level: usize,
) -> (l: usize)
    ensures
        l == spec_target_level(strategy, distance, motion, performance, min_quality_level),
{
    let level = match strategy {
        LODStrategy::Distance => distance,
        LODStrategy::Motion => motion,
        LODStrategy::Performance => performance,
        LODStrategy::Hybrid => {
            let m = if distance >= motion { distance } else { motion };
            if m >= performance { m } else { performance }
        },
    };
    let capped = if level <= 3 { level } else { 3 };
    if capped >= min_quality_level { capped } else { min_quality_level }
}

/// The target level never goes below the configured minimum quality (a
/// larger index), stays a valid level when the minimum is one, and the
/// hybrid strategy is at least as restrictive as each strategy alone.
pub proof fn lemma_target_level_bounds(
    strategy: LODStrategy,
    distance: usize,
    motion: usize,
    performance: usize,
    min_quality_level: usize,
)
    ensures
        spec_target_level(strategy, distance, motion, performance, min_quality_level) >= min_quality_level,
        min_quality_level <= 3 ==> spec_target_level(strategy, distance, motion, performance, min_quality_level) <= 3,
        spec_strategy_level(LODStrategy::Hybrid, distance, motion, performance) >= spec_strategy_level(
            LODStrategy::Distance,
            distance,
            motion,
            performance,
        ),
        spec_strategy_level(LODStrategy::Hybrid, distance, motion, performance) >= spec_strategy_level(
            LODStrategy::Motion,
            distance,
            motion,
            performance,
        ),
        spec_strategy_level(LODStrategy::Hybrid, distance, motion, performance) >= spec_strategy_level(
            LODStrategy::Performance,
            distance,
            motion,
            performance,
        ),
{
}

/// The quality words of the command line and their levels: `ultra` (`u`)
/// is 0, `high` (`h`) 1, `medium` (`med`, `m`) 2 and `low` (`l`) 3; no
/// other word is a level, and every level is at most 3.
pub proof fn lemma_quality_words(s: Seq<char>)
    ensures
        spec_quality_level(seq!['u', 'l', 't', 'r', 'a']) == Some(0usize),
        spec_quality_level(seq!['u']) == Some(0usize),
        spec_quality_level(seq!['h', 'i', 'g', 'h']) == Some(1usize),
        spec_quality_level(seq!['h']) == Some(1usize),
        spec_quality_level(seq!['m', 'e', 'd', 'i', 'u', 'm']) == Some(2usize),
        spec_quality_level(seq!['m', 'e', 'd']) == Some(2usize),
        spec_quality_level(seq!['m']) == Some(2usize),
        spec_quality_level(seq!['l', 'o', 'w']) == Some(3usize),
        spec_quality_level(seq!['l']) == Some(3usize),
        spec_quality_level(s) matches Some(l) ==> l <= 3,
        spec_quality_level(s) is Some ==> (s.len() >= 1 && s.len() <= 6),
{
    reveal_strlit("ultra");
    reveal_strlit("u");
    reveal_strlit("high");
    reveal_strlit("h");
    reveal_strlit("medium");
    reveal_strlit("med");
    reveal_strlit("m");
    reveal_strlit("low");
    reveal_strlit("l");
    assert(seq!['u', 'l', 't', 'r', 'a'] =~= "ultra"@);
    assert(seq!['u'] =~= "u"@);
    assert(seq!['h', 'i', 'g', 'h'] =~= "high"@);
    assert(seq!['h'] =~= "h"@);
    assert(seq!['m', 'e', 'd', 'i', 'u', 'm'] =~= "medium"@);
    assert(seq!['m', 'e', 'd'] =~= "med"@);
    assert(seq!['m'] =~= "m"@);
    assert(seq!['l', 'o', 'w'] =~= "low"@);
    assert(seq!['l'] =~= "l"@);
    assert(seq!['h'][0] != seq!['u'][0]);
    assert(seq!['m'][0] != seq!['u'][0] && seq!['m'][0] != seq!['h'][0]);
    assert(seq!['l'][0] != seq!['u'][0] && seq!['l'][0] != seq!['h'][0] && seq!['l'][0] != seq!['m'][0]);
}

/// Each single strategy passes its own level through when that level is a
/// quality level (at most 3) no better than the minimum; a level past 3 is
/// capped at exactly 3; a level better than the minimum is lowered to the
/// minimum exactly; and the hybrid strategy, with no minimum, takes the
/// worst (largest) of the three levels.
pub proof fn lemma_target_level_choice(
    strategy: LODStrategy,
    distance: usize,
    motion: usize,
    performance: usize,
    min_quality_level: usize,
)
    ensures
        (distance <= 3 && distance >= min_quality_level) ==> spec_target_level(LODStrategy::Distance, distance, motion, performance, min_quality_level) == distance,
        (motion <= 3 && motion >= min_quality_level) ==> spec_target_level(LODStrategy::Motion, distance, motion, performance, min_quality_level) == motion,
        (performance <= 3 && performance >= min_quality_level) ==> spec_target_level(LODStrategy::Performance, distance, motion, performance, min_quality_level) == performance,
        (spec_strategy_level(strategy, distance, motion, performance) > 3 && min_quality_level <= 3) ==> spec_target_level(strategy, distance, motion, performance, min_quality_level) == 3,
        (spec_strategy_level(strategy, distance, motion, performance) < min_quality_level) ==> spec_target_level(strategy, distance, motion, performance, min_quality_level) == min_quality_level,
        (distance <= 3 && motion <= 3 && performance <= 3) ==> {
            let h = spec_target_level(LODStrategy::Hybrid, distance, motion, performance, 0);
            &&& h >= distance && h >= motion && h >= performance
            &&& (h == distance || h == motion || h == performance)
        },
{
}

/// The profile names shown in the interface: Balanced, Quality First,
/// Performance First, Distance Only, Motion Only and Custom.
pub proof fn lemma_profile_names()
    ensures
        LODProfile::Balanced.spec_name() == seq!['B', 'a', 'l', 'a', 'n', 'c', 'e', 'd'],
        LODProfile::QualityFirst.spec_name() == seq!['Q', 'u', 'a', 'l', 'i', 't', 'y', ' ', 'F', 'i', 'r', 's', 't'],
        LODProfile::PerformanceFirst.spec_name() == seq!['P', 'e', 'r', 'f', 'o', 'r', 'm', 'a', 'n', 'c', 'e', ' ', 'F', 'i', 'r', 's', 't'],
        LODProfile::DistanceOnly.spec_name() == seq!['D', 'i', 's', 't', 'a', 'n', 'c', 'e', ' ', 'O', 'n', 'l', 'y'],
        LODProfile::MotionOnly.spec_name() == seq!['M', 'o', 't', 'i', 'o', 'n', ' ', 'O', 'n', 'l', 'y'],
        LODProfile::Custom.spec_name() == seq!['C', 'u', 's', 't', 'o', 'm'],
{
    reveal_strlit("Balanced");
    reveal_strlit("Quality First");
    reveal_strlit("Performance First");
    reveal_strlit("Distance Only");
    reveal_strlit("Motion Only");
    reveal_strlit("Custom");
    assert(LODProfile::Balanced.spec_name() =~= seq!['B', 'a', 'l', 'a', 'n', 'c', 'e', 'd']);
    assert(LODProfile::QualityFirst.spec_name() =~= seq!['Q', 'u', 'a', 'l', 'i', 't', 'y', ' ', 'F', 'i', 'r', 's', 't']);
    assert(LODProfile::PerformanceFirst.spec_name() =~= seq!['P', 'e', 'r', 'f', 'o', 'r', 'm', 'a', 'n', 'c', 'e', ' ', 'F', 'i', 'r', 's', 't']);
    assert(LODProfile::DistanceOnly.spec_name() =~= seq!['D', 'i', 's', 't', 'a', 'n', 'c', 'e', ' ', 'O', 'n', 'l', 'y']);
    assert(LODProfile::MotionOnly.spec_name() =~= seq!['M', 'o', 't', 'i', 'o', 'n', ' ', 'O', 'n', 'l', 'y']);
    assert(LODProfile::Custom.spec_name() =~= seq!['C', 'u', 's', 't', 'o', 'm']);
}

} // verus!
