//! Nesting depth of diagram elements and the visual scale derived from it.

use vstd::prelude::*;
use vstd::arithmetic::power2::{
    lemma2_to64, lemma_pow2_pos, lemma_pow2_strictly_increases, pow2,
};
use vstd::arithmetic::div_mod::{
    lemma_basic_div, lemma_div_is_ordered_by_denominator, lemma_div_pos_is_pos,
};
use vstd::bits::lemma_u32_shr_is_div;
use crate::components::SceneNode;
use crate::scene::{containment_depth, is_system, record_wf, Scene};
use crate::units::Factor;

verus! {

/// Depth of an element in the containment hierarchy of subsystems: the number
/// of subsystem boundaries between the root system and the element.
#[derive(Clone, Copy, Debug, PartialEq, Eq, Structural)]
pub struct NestingLevel {
    pub level: u16,
}

/// The scale of an element at depth `level` under magnification `zoom`, as a
/// raw fixed-point value: each level of nesting halves the size, and the
/// result is rounded down to the fixed-point grid.
pub open spec fn spec_compute_scale(level: u16, zoom: Factor) -> int {
    zoom.raw as int / pow2(level as nat) as int
}

/// The scale at which an element outside every subsystem is drawn: the zoom
/// itself.
pub open spec fn spec_baseline_scale(zoom: Factor) -> int {
    zoom.raw as int
}

impl NestingLevel {
    pub fn new(level: u16) -> (n: NestingLevel)
        ensures
            n.level == level,
    {
        NestingLevel { level }
    }

    /// The depth at which the children of a focused system are spawned: the
    /// depth recorded on the system, which is the number of subsystem
    /// boundaries between the root and it.
    pub fn current(focused_system: SceneNode, scene: &Scene) -> (level: u16)
        requires
            scene.spec_contains(focused_system),
        ensures
            level == scene.nodes@[focused_system.index as int].nesting_level.level,
            scene.wf() && is_system(scene.nodes@[focused_system.index as int]) ==> level
                == containment_depth(scene.nodes@, focused_system.index as int),
    {
        proof {
            if scene.wf() && is_system(scene.nodes@[focused_system.index as int]) {
                lemma_level_is_depth(*scene, focused_system.index as int);
            }
        }
        scene.nodes[focused_system.index].nesting_level.level
    }

    /// Visual scale at a nesting depth: the zoom, halved once per level.
    pub fn compute_scale(level: u16, zoom: Factor) -> (scale: Factor)
        ensures
            scale.raw as int == spec_compute_scale(level, zoom),
            level == 0 ==> scale == zoom,
            scale.raw <= zoom.raw,
    {
        proof {
            lemma_scale_bounded(level, zoom);
            lemma_scale_at_root(zoom);
        }
        if level >= 32 {
            proof {
                lemma2_to64();
                if level > 32 {
                    lemma_pow2_strictly_increases(32, level as nat);
                }
                lemma_basic_div(zoom.raw as int, pow2(level as nat) as int);
            }
            Factor { raw: 0 }
        } else {
            let shift: u32 = level as u32;
            proof {
                lemma_u32_shr_is_div(zoom.raw, shift);
            }
            Factor { raw: zoom.raw >> shift }
        }
    }
}

/// In a well-formed scene the depth recorded on a system is the number of
/// subsystem boundaries between the root and that system.
pub proof fn lemma_level_is_depth(scene: Scene, i: int)
    requires
        scene.wf(),
        0 <= i < scene.nodes@.len(),
        is_system(scene.nodes@[i]),
    ensures
        scene.nodes@[i].nesting_level.level == containment_depth(scene.nodes@, i),
    decreases i,
{
    assert(record_wf(scene.nodes@, i));
    if let Some(subsystem) = scene.nodes@[i].subsystem {
        lemma_level_is_depth(scene, subsystem.parent_system.index as int);
    }
}

/// Deeper nesting never enlarges an element: at one zoom, the scale at a
/// greater depth is at most the scale at a smaller depth.
pub proof fn lemma_scale_monotonic(shallow: u16, deep: u16, zoom: Factor)
    requires
        shallow < deep,
    ensures
        spec_compute_scale(deep, zoom) <= spec_compute_scale(shallow, zoom),
{
    lemma_pow2_pos(shallow as nat);
    lemma_pow2_strictly_increases(shallow as nat, deep as nat);
    lemma_div_is_ordered_by_denominator(
        zoom.raw as int,
        pow2(shallow as nat) as int,
        pow2(deep as nat) as int,
    );
}

/// At depth zero the scale is the baseline scale of an element that is not
/// nested at all.
pub proof fn lemma_scale_at_root(zoom: Factor)
    ensures
        spec_compute_scale(0, zoom) == spec_baseline_scale(zoom),
{
    lemma2_to64();
}

/// The scale is never negative and never exceeds the zoom.
pub proof fn lemma_scale_bounded(level: u16, zoom: Factor)
    ensures
        0 <= spec_compute_scale(level, zoom) <= zoom.raw,
{
    lemma_scale_at_root(zoom);
    if level > 0 {
        lemma_scale_monotonic(0, level, zoom);
    }
    lemma_pow2_pos(level as nat);
    lemma_div_pos_is_pos(zoom.raw as int, pow2(level as nat) as int);
}

} // verus!
