//! Rating-to-strength mapping: a step table over rating bands that yields
//! the engine's skill level and search depth for a requested rating.
//!
//! The table below is the canonical one for this library: one band per
//! hundred rating points from 1250 up to 3049, with open-ended bands on
//! both sides so that every integer rating is covered. Skill level and
//! search depth share the band index by deliberate choice, so both fields
//! are non-decreasing in the rating.

use vstd::prelude::*;

verus! {

/// The canonical band index for a rating: 1 for everything below 1250,
/// then one step per hundred rating points, capped at 20 from 3050 up.
pub open spec fn spec_strength_band(elo: int) -> int {
    if elo < 1250 {
        1
    } else if elo < 1350 {
        2
    } else if elo < 1450 {
        3
    } else if elo < 1550 {
        4
    } else if elo < 1650 {
        5
    } else if elo < 1750 {
        6
    } else if elo < 1850 {
        7
    } else if elo < 1950 {
        8
    } else if elo < 2050 {
        9
    } else if elo < 2150 {
        10
    } else if elo < 2250 {
        11
    } else if elo < 2350 {
        12
    } else if elo < 2450 {
        13
    } else if elo < 2550 {
        14
    } else if elo < 2650 {
        15
    } else if elo < 2750 {
        16
    } else if elo < 2850 {
        17
    } else if elo < 2950 {
        18
    } else if elo < 3050 {
        19
    } else {
        20
    }
}

/// Engine skill level for a rating.
pub open spec fn spec_skill_of(elo: int) -> int {
    spec_strength_band(elo)
}

/// Engine search depth for a rating.
pub open spec fn spec_depth_of(elo: int) -> int {
    spec_strength_band(elo)
}

/// Engine-tunable strength parameters derived from a requested rating.
pub struct StrengthProfile {
    pub skill_level: i32,
    pub search_depth: u8,
}

pub fn calculate_skill_from_elo(elo: i32) -> (r: i32)
    ensures
        r == spec_skill_of(elo as int),
{
    if elo < 1250 {
        1
    } else if elo < 1350 {
        2
    } else if elo < 1450 {
        3
    } else if elo < 1550 {
        4
    } else if elo < 1650 {
        5
    } else if elo < 1750 {
        6
    } else if elo < 1850 {
        7
    } else if elo < 1950 {
        8
    } else if elo < 2050 {
        9
    } else if elo < 2150 {
        10
    } else if elo < 2250 {
        11
    } else if elo < 2350 {
        12
    } else if elo < 2450 {
        13
    } else if elo < 2550 {
        14
    } else if elo < 2650 {
        15
    } else if elo < 2750 {
        16
    } else if elo < 2850 {
        17
    } else if elo < 2950 {
        18
    } else if elo < 3050 {
        19
    } else {
        20
    }
}

pub fn calculate_depth_from_elo(elo: i32) -> (r: u8)
    ensures
        r == spec_depth_of(elo as int),
{
    if elo < 1250 {
        1
    } else if elo < 1350 {
        2
    } else if elo < 1450 {
        3
    } else if elo < 1550 {
        4
    } else if elo < 1650 {
        5
    } else if elo < 1750 {
        6
    } else if elo < 1850 {
        7
    } else if elo < 1950 {
        8
    } else if elo < 2050 {
        9
    } else if elo < 2150 {
        10
    } else if elo < 2250 {
        11
    } else if elo < 2350 {
        12
    } else if elo < 2450 {
        13
    } else if elo < 2550 {
        14
    } else if elo < 2650 {
        15
    } else if elo < 2750 {
        16
    } else if elo < 2850 {
        17
    } else if elo < 2950 {
        18
    } else if elo < 3050 {
        19
    } else {
        20
    }
}

/// Both strength parameters for a rating, as one profile.
pub fn map_rating_to_strength(elo: i32) -> (p: StrengthProfile)
    ensures
        p.skill_level == spec_skill_of(elo as int),
        p.search_depth == spec_depth_of(elo as int),
{
    StrengthProfile { skill_level: calculate_skill_from_elo(elo), search_depth: calculate_depth_from_elo(elo) }
}

/// Skill level and search depth are non-decreasing in the rating,
/// and the mapping is defined for every integer rating.
pub proof fn lemma_strength_monotone(a: int, b: int)
    requires
        a <= b,
    ensures
        spec_skill_of(a) <= spec_skill_of(b),
        spec_depth_of(a) <= spec_depth_of(b),
{
}

/// Every rating maps inside the engine's accepted parameter ranges:
/// skill level within 0..20 and a positive search depth.
pub proof fn lemma_strength_bounds(elo: int)
    ensures
        0 <= spec_skill_of(elo) <= 20,
        1 <= spec_depth_of(elo) <= 20,
{
}

} // verus!

