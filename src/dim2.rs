//! Poses and transforms in two dimensions, where a rotation is an angle in
//! radians.
use vstd::prelude::*;
use crate::geometry::{commutes, distributes, scale2, scaled2, summed2, total, undoes, neutral_for, Vector2};

verus! {

/// A physics pose: a rotation by `angle`, then a translation in physics
/// units.
#[derive(Clone, Copy, Debug, PartialEq)]
pub struct Isometry<S> {
    pub translation: Vector2<S>,
    pub angle: S,
}

/// A visual transform: translation in render units, drawing depth, rotation
/// angle and scale.
#[derive(Clone, Copy, Debug, PartialEq)]
pub struct Transform<S> {
    pub translation: Vector2<S>,
    pub depth: S,
    pub rotation: S,
    pub scale: Vector2<S>,
}

/// `t` is the visual form of `iso`: its translation is that of `iso` with
/// `mul` applied to each component and `physics_scale`, its rotation is the
/// angle of `iso`, and its depth and scale are those of `neutral`.
pub open spec fn is_transform_of<S, M: Fn(S, S) -> S>(
    iso: Isometry<S>,
    physics_scale: S,
    mul: M,
    neutral: Transform<S>,
    t: Transform<S>,
) -> bool {
    &&& scaled2(mul, iso.translation, physics_scale, t.translation)
    &&& t.rotation == iso.angle
    &&& t.depth == neutral.depth
    &&& t.scale == neutral.scale
}

/// `iso` is the physics form of `t`: its translation is that of `t` with
/// `div` applied to each component and `physics_scale`, and its angle is the
/// rotation of `t`. The depth and scale of `t` play no part.
pub open spec fn is_iso_of<S, D: Fn(S, S) -> S>(
    t: Transform<S>,
    physics_scale: S,
    div: D,
    iso: Isometry<S>,
) -> bool {
    &&& scaled2(div, t.translation, physics_scale, iso.translation)
    &&& iso.angle == t.rotation
}

/// Converts a physics pose to a visual transform.
///
/// Each component of the translation is multiplied by `physics_scale`
/// through `mul`; the angle is carried over unchanged, and the depth and
/// scale are taken from `neutral` (the identity transform, as a rule).
pub fn iso_to_transform<S: Copy, M: Fn(S, S) -> S>(
    iso: &Isometry<S>,
    physics_scale: S,
    mul: M,
    neutral: &Transform<S>,
) -> (r: Transform<S>)
    requires
        total(mul),
    ensures
        is_transform_of(*iso, physics_scale, mul, *neutral, r),
{
    Transform {
        translation: scale2(&mul, iso.translation, physics_scale),
        depth: neutral.depth,
        rotation: iso.angle,
        scale: neutral.scale,
    }
}

/// Converts a visual transform to a physics pose.
///
/// Each component of the translation is divided by `physics_scale` through
/// `div`; the angle is carried over unchanged, and depth and scale are
/// dropped.
pub fn transform_to_iso<S: Copy, D: Fn(S, S) -> S>(
    transform: &Transform<S>,
    physics_scale: S,
    div: D,
) -> (r: Isometry<S>)
    requires
        total(div),
    ensures
        is_iso_of(*transform, physics_scale, div, r),
{
    Isometry {
        translation: scale2(&div, transform.translation, physics_scale),
        angle: transform.rotation,
    }
}

/// A pose taken to the visual side and back, with the same scale, is the
/// pose it was, wherever division by the scale undoes multiplication by it.
pub proof fn lemma_pose_round_trip<S, M: Fn(S, S) -> S, D: Fn(S, S) -> S>(
    iso: Isometry<S>,
    physics_scale: S,
    mul: M,
    div: D,
    neutral: Transform<S>,
    t: Transform<S>,
    back: Isometry<S>,
)
    requires
        is_transform_of(iso, physics_scale, mul, neutral, t),
        is_iso_of(t, physics_scale, div, back),
        undoes(mul, div, physics_scale),
    ensures
        back == iso,
{
}

/// A transform taken to the physics side and back, with the same scale,
/// keeps its translation and rotation, wherever multiplication by the scale
/// undoes division by it; its depth and scale become the neutral ones.
pub proof fn lemma_transform_round_trip<S, M: Fn(S, S) -> S, D: Fn(S, S) -> S>(
    t: Transform<S>,
    physics_scale: S,
    mul: M,
    div: D,
    neutral: Transform<S>,
    iso: Isometry<S>,
    back: Transform<S>,
)
    requires
        is_iso_of(t, physics_scale, div, iso),
        is_transform_of(iso, physics_scale, mul, neutral, back),
        undoes(div, mul, physics_scale),
    ensures
        back.translation == t.translation,
        back.rotation == t.rotation,
        back.depth == neutral.depth,
        back.scale == neutral.scale,
{
}

/// With a scale under which the scalar operations change nothing (a scale of
/// one), both conversions keep the translation and the angle as they are.
pub proof fn lemma_unit_scale<S, M: Fn(S, S) -> S, D: Fn(S, S) -> S>(
    iso: Isometry<S>,
    t: Transform<S>,
    one: S,
    mul: M,
    div: D,
    neutral: Transform<S>,
    to_visual: Transform<S>,
    to_physics: Isometry<S>,
)
    requires
        neutral_for(mul, one),
        neutral_for(div, one),
        is_transform_of(iso, one, mul, neutral, to_visual),
        is_iso_of(t, one, div, to_physics),
    ensures
        to_visual.translation == iso.translation,
        to_visual.rotation == iso.angle,
        to_physics.translation == t.translation,
        to_physics.angle == t.rotation,
{
}

/// A zero angle stays a zero angle in both directions, whatever the scale and
/// the scalar operations.
pub proof fn lemma_zero_angle_kept<S, M: Fn(S, S) -> S, D: Fn(S, S) -> S>(
    iso: Isometry<S>,
    t: Transform<S>,
    physics_scale: S,
    mul: M,
    div: D,
    neutral: Transform<S>,
    to_visual: Transform<S>,
    to_physics: Isometry<S>,
    zero: S,
)
    requires
        is_transform_of(iso, physics_scale, mul, neutral, to_visual),
        is_iso_of(t, physics_scale, div, to_physics),
    ensures
        iso.angle == zero ==> to_visual.rotation == zero,
        t.rotation == zero ==> to_physics.angle == zero,
{
}

/// The visual translation of a sum of translations is the sum of their
/// visual translations, and the visual translation of a translation scaled
/// by `k` is its visual translation scaled by `k`, wherever the scalar
/// operations obey the matching laws.
pub proof fn lemma_translation_linear<S, M: Fn(S, S) -> S, A: Fn(S, S) -> S>(
    a: Isometry<S>,
    b: Isometry<S>,
    sum: Isometry<S>,
    k: S,
    times_k: Isometry<S>,
    physics_scale: S,
    mul: M,
    add: A,
    neutral: Transform<S>,
    ta: Transform<S>,
    tb: Transform<S>,
    t_sum: Transform<S>,
    t_times_k: Transform<S>,
)
    requires
        summed2(add, a.translation, b.translation, sum.translation),
        scaled2(mul, a.translation, k, times_k.translation),
        is_transform_of(a, physics_scale, mul, neutral, ta),
        is_transform_of(b, physics_scale, mul, neutral, tb),
        is_transform_of(sum, physics_scale, mul, neutral, t_sum),
        is_transform_of(times_k, physics_scale, mul, neutral, t_times_k),
        distributes(mul, add, physics_scale),
        commutes(mul, k, physics_scale),
    ensures
        summed2(add, ta.translation, tb.translation, t_sum.translation),
        scaled2(mul, ta.translation, k, t_times_k.translation),
{
}

} // verus!
