use vstd::prelude::*;

verus! {

/// A vector of two components.
#[derive(Clone, Copy, Debug, PartialEq)]
pub struct Vector2<S> {
    pub x: S,
    pub y: S,
}

/// A vector of three components.
#[derive(Clone, Copy, Debug, PartialEq)]
pub struct Vector3<S> {
    pub x: S,
    pub y: S,
    pub z: S,
}

/// A rotation in three dimensions, by its components `x`, `y`, `z`
/// (imaginary part) and `w` (real part).
#[derive(Clone, Copy, Debug, PartialEq)]
pub struct Quaternion<S> {
    pub x: S,
    pub y: S,
    pub z: S,
    pub w: S,
}

impl<S: Copy> Vector2<S> {
    pub fn new(x: S, y: S) -> (r: Self)
        ensures
            r.x == x,
            r.y == y,
    {
        Vector2 { x, y }
    }
}

impl<S: Copy> Vector3<S> {
    pub fn new(x: S, y: S, z: S) -> (r: Self)
        ensures
            r.x == x,
            r.y == y,
            r.z == z,
    {
        Vector3 { x, y, z }
    }
}

impl<S: Copy> Quaternion<S> {
    pub fn from_xyzw(x: S, y: S, z: S, w: S) -> (r: Self)
        ensures
            r.x == x,
            r.y == y,
            r.z == z,
            r.w == w,
    {
        Quaternion { x, y, z, w }
    }
}

/// `r` is `v` with `op` applied to each component and `s`.
pub open spec fn scaled2<S, F: Fn(S, S) -> S>(op: F, v: Vector2<S>, s: S, r: Vector2<S>) -> bool {
    &&& op.ensures((v.x, s), r.x)
    &&& op.ensures((v.y, s), r.y)
}

/// `r` is `v` with `op` applied to each component and `s`.
pub open spec fn scaled3<S, F: Fn(S, S) -> S>(op: F, v: Vector3<S>, s: S, r: Vector3<S>) -> bool {
    &&& op.ensures((v.x, s), r.x)
    &&& op.ensures((v.y, s), r.y)
    &&& op.ensures((v.z, s), r.z)
}

/// `op` can be called on every pair of scalars.
pub open spec fn total<S, F: Fn(S, S) -> S>(op: F) -> bool {
    forall|a: S, b: S| op.requires((a, b))
}

/// Applying `op` and then `inv`, both with `s`, gives back what went in.
pub open spec fn undoes<S, F: Fn(S, S) -> S, G: Fn(S, S) -> S>(op: F, inv: G, s: S) -> bool {
    forall|a: S, m: S, b: S|
        #![trigger op.ensures((a, s), m), inv.ensures((m, s), b)]
        op.ensures((a, s), m) && inv.ensures((m, s), b) ==> b == a
}

/// `op` with `s` leaves every scalar as it is.
pub open spec fn neutral_for<S, F: Fn(S, S) -> S>(op: F, s: S) -> bool {
    forall|a: S, m: S| #[trigger] op.ensures((a, s), m) ==> m == a
}

/// Applying `op` with `s` to a sum gives the sum of what `op` gives on
/// each term.
pub open spec fn distributes<S, F: Fn(S, S) -> S, A: Fn(S, S) -> S>(op: F, add: A, s: S) -> bool {
    forall|a: S, b: S, ab: S, ma: S, mb: S, m: S|
        #![trigger add.ensures((a, b), ab), op.ensures((a, s), ma), op.ensures((b, s), mb), op.ensures((ab, s), m)]
        add.ensures((a, b), ab) && op.ensures((a, s), ma) && op.ensures((b, s), mb) && op.ensures((ab, s), m)
            ==> add.ensures((ma, mb), m)
}

/// Applying `op` with `k` and then with `s` gives what applying it with `s`
/// and then with `k` gives.
pub open spec fn commutes<S, F: Fn(S, S) -> S>(op: F, k: S, s: S) -> bool {
    forall|a: S, ak: S, as_: S, r: S|
        #![trigger op.ensures((a, k), ak), op.ensures((ak, s), r), op.ensures((a, s), as_)]
        op.ensures((a, k), ak) && op.ensures((ak, s), r) && op.ensures((a, s), as_)
            ==> op.ensures((as_, k), r)
}

/// `r` is the sum of `u` and `v`, component by component, through `add`.
pub open spec fn summed2<S, A: Fn(S, S) -> S>(add: A, u: Vector2<S>, v: Vector2<S>, r: Vector2<S>) -> bool {
    &&& add.ensures((u.x, v.x), r.x)
    &&& add.ensures((u.y, v.y), r.y)
}

/// `r` is the sum of `u` and `v`, component by component, through `add`.
pub open spec fn summed3<S, A: Fn(S, S) -> S>(add: A, u: Vector3<S>, v: Vector3<S>, r: Vector3<S>) -> bool {
    &&& add.ensures((u.x, v.x), r.x)
    &&& add.ensures((u.y, v.y), r.y)
    &&& add.ensures((u.z, v.z), r.z)
}

/// Applies `op` with `s` to each component of `v`.
pub fn scale2<S: Copy, F: Fn(S, S) -> S>(op: &F, v: Vector2<S>, s: S) -> (r: Vector2<S>)
    requires
        total(*op),
    ensures
        scaled2(*op, v, s, r),
{
    Vector2 { x: op(v.x, s), y: op(v.y, s) }
}

/// Applies `op` with `s` to each component of `v`.
pub fn scale3<S: Copy, F: Fn(S, S) -> S>(op: &F, v: Vector3<S>, s: S) -> (r: Vector3<S>)
    requires
        total(*op),
    ensures
        scaled3(*op, v, s, r),
{
    Vector3 { x: op(v.x, s), y: op(v.y, s), z: op(v.z, s) }
}

} // verus!
