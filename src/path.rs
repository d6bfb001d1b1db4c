use vstd::prelude::*;

use crate::reflection::Reflection;

verus! {

/// Below this many bounces a path always goes on.
pub const DEPTH_MIN: u32 = 5;

/// At this many bounces a path always ends.
pub const DEPTH_LIMIT: u32 = 64;

/// What Russian roulette decides for a path after a bounce.
#[derive(Clone, Copy, Debug, PartialEq, Eq, Structural)]
pub enum Roulette {
    /// The path goes on, and what it gathers from here on is multiplied by
    /// `boost`, the reciprocal of the chance that it went on.
    Continue { boost: u32 },
    Stop,
}

/// The outcome of the roulette at `depth` bounces, where `survived` is a
/// fair coin: below the minimum depth the path goes on for certain; from
/// there to the depth limit it goes on with chance one half; at the limit
/// it ends.
pub open spec fn roulette_outcome(depth: nat, survived: bool) -> Roulette {
    if depth < DEPTH_MIN {
        Roulette::Continue { boost: 1 }
    } else if survived && depth < DEPTH_LIMIT {
        Roulette::Continue { boost: 2 }
    } else {
        Roulette::Stop
    }
}

/// The factor by which an outcome scales what the path gathers after it.
pub open spec fn roulette_weight(r: Roulette) -> nat {
    match r {
        Roulette::Continue { boost } => boost as nat,
        Roulette::Stop => 0,
    }
}

pub fn roulette_for_draw(depth: u32, survived: bool) -> (r: Roulette)
    ensures
        r == roulette_outcome(depth as nat, survived),
{
    if depth < DEPTH_MIN {
        Roulette::Continue { boost: 1 }
    } else if survived && depth < DEPTH_LIMIT {
        Roulette::Continue { boost: 2 }
    } else {
        Roulette::Stop
    }
}

/// Plays the roulette for a path at `depth` bounces with a fair coin.
pub fn roulette(depth: u32) -> (r: Roulette)
    ensures
        r == roulette_outcome(depth as nat, true) || r == roulette_outcome(depth as nat, false),
{
    let survived: bool = rand::random::<bool>();
    roulette_for_draw(depth, survived)
}

/// Russian roulette adds no bias: below the depth limit, the factor it
/// applies, averaged over the two equally likely outcomes of the coin, is
/// exactly one, the factor of a path that is never cut short.
pub proof fn lemma_roulette_unbiased(depth: nat)
    requires
        depth < DEPTH_LIMIT,
    ensures
        roulette_weight(roulette_outcome(depth, true)) + roulette_weight(
            roulette_outcome(depth, false),
        ) == 2,
{
}

/// At the depth limit, and beyond it, every path ends whatever the coin
/// says.
pub proof fn lemma_roulette_ends_at_limit(depth: nat, survived: bool)
    requires
        depth >= DEPTH_LIMIT,
    ensures
        roulette_outcome(depth, survived) == Roulette::Stop,
{
}

/// How the light emitted by a struck surface enters a path's estimate.
#[derive(Clone, Copy, Debug, PartialEq, Eq, Structural)]
pub enum EmissionRule {
    /// The surface emits nothing.
    Ignore,
    /// All of it counts: no light sample could have found this surface.
    Full,
    /// Light sampling at the previous bounce could also have found this
    /// surface, so its light counts with the surface-sampling share of the
    /// multiple importance weight.
    MisWeighted,
}

/// Whether a bounce off a surface with this reflection model samples the
/// lights with a shadow ray.
pub open spec fn spec_samples_lights(enable_mis: bool, reflection: Reflection) -> bool {
    enable_mis && reflection.spec_is_nee_target()
}

pub fn samples_lights(enable_mis: bool, reflection: &Reflection) -> (r: bool)
    ensures
        r == spec_samples_lights(enable_mis, *reflection),
{
    enable_mis && reflection.is_nee_target()
}

/// The rule for the light of a struck surface, given whether it emits and
/// whether the bounce that led to it sampled the lights.
pub open spec fn spec_emission_rule(emits: bool, previous_sampled_lights: bool) -> EmissionRule {
    if !emits {
        EmissionRule::Ignore
    } else if previous_sampled_lights {
        EmissionRule::MisWeighted
    } else {
        EmissionRule::Full
    }
}

pub fn emission_rule(emits: bool, previous_sampled_lights: bool) -> (r: EmissionRule)
    ensures
        r == spec_emission_rule(emits, previous_sampled_lights),
{
    if !emits {
        EmissionRule::Ignore
    } else if previous_sampled_lights {
        EmissionRule::MisWeighted
    } else {
        EmissionRule::Full
    }
}

} // verus!
