//! Orientations as indices, and their composition.
//!
//! An orientation is a direction index (0 to 5) and a rotation index (0 to 3)
//! packed into one number below 24. The composition table makes the 24
//! orientations a group, and the transform table represents it faithfully:
//! both facts are proved here.

use vstd::prelude::*;

use crate::save::{Direction, Rotation};
use crate::util::{
    is_selector, is_signed_permutation, lemma_selectors_signed_permutation, select, selectors,
    transform, ROTATION_TABLE,
};

verus! {

/// The orientation that leaves every offset where it is: direction +Z
/// without rotation.
pub const IDENTITY: u8 = 16;

/// What [`d2o`] computes.
pub open spec fn spec_d2o(direction: u8, rotation: u8) -> u8 {
    (direction << 2) | rotation
}

/// Packs a direction index and a rotation index into an orientation: the
/// direction shifted left by two bits, or-ed with the rotation. For a
/// direction below 64 and a rotation below 4 that is four times the direction
/// plus the rotation.
#[verifier::when_used_as_spec(spec_d2o)]
pub fn d2o(direction: u8, rotation: u8) -> (r: u8)
    ensures
        r == spec_d2o(direction, rotation),
        direction < 64 && rotation < 4 ==> r == direction * 4 + rotation,
{
    proof {
        lemma_d2o_packs(direction, rotation);
    }
    (direction << 2) | rotation
}

/// What [`o2d`] computes.
pub open spec fn spec_o2d(orientation: u8) -> (u8, u8) {
    (((orientation / 4) % 6) as u8, (orientation % 3) as u8)
}

/// Unpacks an orientation into a direction index and a rotation index: the
/// orientation's quarter reduced modulo 6, and the orientation itself reduced
/// modulo 3.
#[verifier::when_used_as_spec(spec_o2d)]
pub fn o2d(orientation: u8) -> (r: (u8, u8))
    ensures
        r == spec_o2d(orientation),
        r.0 < 6,
        r.1 < 3,
{
    assert(orientation >> 2 == orientation / 4) by (bit_vector);
    ((orientation >> 2) % 6, orientation % 3)
}

/// What [`orientation`] computes.
pub open spec fn spec_orientation(direction: Direction, rotation: Rotation) -> u8 {
    (direction.index() * 4 + rotation.index()) as u8
}

/// The orientation of a brick that points along `direction` and is spun by
/// `rotation`: four times the direction's index plus the rotation's.
#[verifier::when_used_as_spec(spec_orientation)]
pub fn orientation(direction: Direction, rotation: Rotation) -> (r: u8)
    ensures
        r == spec_orientation(direction, rotation),
        r < 24,
{
    d2o(direction.index(), rotation.index())
}

/// What [`compose`] computes: the table's entry in row `a` and column `b`.
pub open spec fn spec_compose(a: u8, b: u8) -> u8 {
    ROTATION_TABLE[a * 24 + b]
}

/// The orientation that results from `a` followed by `b`, for two
/// orientations below 24.
#[verifier::when_used_as_spec(spec_compose)]
pub fn compose(a: u8, b: u8) -> (r: u8)
    requires
        a < 24,
        b < 24,
    ensures
        r == spec_compose(a, b),
        r < 24,
{
    proof {
        lemma_compose_closed(a, b);
    }
    ROTATION_TABLE[a as usize * 24 + b as usize]
}

/// Composes two orientations given as pairs of direction index and rotation
/// index, and unpacks the result. The rotation that comes back is reduced
/// modulo 3, as [`o2d`] leaves it.
pub fn rotate_direction(a: (u8, u8), b: (u8, u8)) -> (r: (u8, u8))
    requires
        a.0 < 6,
        a.1 < 4,
        b.0 < 6,
        b.1 < 4,
    ensures
        r == o2d(compose(d2o(a.0, a.1), d2o(b.0, b.1))),
        r == o2d(compose((a.0 * 4 + a.1) as u8, (b.0 * 4 + b.1) as u8)),
{
    o2d(compose(d2o(a.0, a.1), d2o(b.0, b.1)))
}

/// Shifting and or-ing packs as multiplying and adding does, as long as the
/// rotation fits in the two low bits and the direction is not shifted out.
pub proof fn lemma_d2o_packs(direction: u8, rotation: u8)
    ensures
        direction < 64 && rotation < 4 ==> d2o(direction, rotation) == direction * 4 + rotation,
{
    assert(direction < 64 && rotation < 4 ==> (direction << 2) | rotation == direction * 4
        + rotation) by (bit_vector);
}

/// Composing two orientations gives an orientation.
pub proof fn lemma_compose_closed(a: u8, b: u8)
    requires
        a < 24,
        b < 24,
    ensures
        compose(a, b) < 24,
{
}

/// The identity composed with an orientation, on either side, is that
/// orientation.
pub proof fn lemma_compose_identity(x: u8)
    requires
        x < 24,
    ensures
        compose(IDENTITY, x) == x,
        compose(x, IDENTITY) == x,
{
}

/// Only the identity leaves every orientation unchanged.
pub proof fn lemma_identity_unique(e: u8)
    requires
        e < 24,
        forall|x: u8| x < 24 ==> #[trigger] compose(e, x) == x,
    ensures
        e == IDENTITY,
{
    assert(compose(e, IDENTITY) == IDENTITY);
    lemma_compose_identity(e);
}

/// The orientation that undoes `x`.
pub open spec fn inverse(x: u8) -> u8 {
    choose|y: u8| y < 24 && compose(x, y) == IDENTITY
}

/// The inverse of each orientation, in the order of the orientations.
spec fn inverses() -> Seq<u8> {
    seq![0, 12, 4, 8, 2, 14, 6, 10, 3, 15, 7, 11, 1, 13, 5, 9, 16, 19, 18, 17, 20, 21, 22, 23]
}

/// Every orientation has an inverse, on both sides.
pub proof fn lemma_compose_inverse(x: u8)
    requires
        x < 24,
    ensures
        inverse(x) < 24,
        compose(x, inverse(x)) == IDENTITY,
        compose(inverse(x), x) == IDENTITY,
        exists|y: u8| y < 24 && #[trigger] compose(x, y) == IDENTITY,
{
    let y: u8 = inverses()[x as int];
    assert(y < 24 && compose(x, y) == IDENTITY && compose(y, x) == IDENTITY);
    lemma_inverse_unique(x, y, inverse(x));
}

/// An orientation has no more than one inverse.
pub proof fn lemma_inverse_unique(x: u8, y: u8, z: u8)
    requires
        x < 24,
        y < 24,
        z < 24,
        compose(x, y) == IDENTITY,
        compose(x, z) == IDENTITY,
    ensures
        y == z,
{
}

/// Composition is associative.
pub proof fn lemma_compose_associative(a: u8, b: u8, c: u8)
    requires
        a < 24,
        b < 24,
        c < 24,
    ensures
        compose(compose(a, b), c) == compose(a, compose(b, c)),
{
    // Both sides move the offset (1, 2, 3) to the same place, and no two
    // orientations do.
    let v: (int, int, int) = (1, 2, 3);
    let ab: u8 = compose(a, b);
    let bc: u8 = compose(b, c);
    lemma_compose_closed(a, b);
    lemma_compose_closed(b, c);
    lemma_compose_closed(ab, c);
    lemma_compose_closed(a, bc);
    lemma_transform_compose(v, ab, c);
    lemma_transform_compose(v, a, b);
    lemma_transform_compose(transform(v, a), b, c);
    lemma_transform_compose(v, a, bc);
    lemma_transform_faithful(compose(ab, c), compose(a, bc));
}

/// Transforming by `a` and then by `b` is transforming by `a` composed with
/// `b`.
pub proof fn lemma_transform_compose(coords: (int, int, int), a: u8, b: u8)
    requires
        a < 24,
        b < 24,
    ensures
        transform(transform(coords, a), b) == transform(coords, compose(a, b)),
{
    let first = selectors(a);
    let second = selectors(b);
    lemma_selectors_signed_permutation(a);
    lemma_selectors_signed_permutation(b);
    lemma_selectors_compose(a, b);
    lemma_select_twice(coords, first, second.0);
    lemma_select_twice(coords, first, second.1);
    lemma_select_twice(coords, first, second.2);
}

/// The selectors of `a` composed with `b` are the selectors of `a`, picked
/// and negated by those of `b`.
pub proof fn lemma_selectors_compose(a: u8, b: u8)
    requires
        a < 24,
        b < 24,
    ensures
        selectors(compose(a, b)) == transform(selectors(a), b),
{
}

/// Selecting by `second` from what `first` selected is selecting once, by
/// the selector that `second` picks from `first`.
proof fn lemma_select_twice(coords: (int, int, int), first: (int, int, int), second: int)
    requires
        is_signed_permutation(first),
        is_selector(second),
    ensures
        select((select(coords, first.0), select(coords, first.1), select(coords, first.2)), second)
            == select(coords, select(first, second)),
{
}

/// The identity moves no offset.
pub proof fn lemma_transform_identity(coords: (int, int, int))
    ensures
        transform(coords, IDENTITY) == coords,
{
}

/// Two orientations that move the offset (1, 2, 3) to the same place are the
/// same orientation.
pub proof fn lemma_transform_faithful(a: u8, b: u8)
    requires
        a < 24,
        b < 24,
        transform((1, 2, 3), a) == transform((1, 2, 3), b),
    ensures
        a == b,
{
}

/// Unpacking a packed pair gives the direction back, and in place of the
/// rotation the sum of the two reduced modulo 3. So the pair itself comes
/// back exactly where the direction is 0 or 3 and the rotation is below 3.
pub proof fn lemma_o2d_of_d2o(direction: u8, rotation: u8)
    requires
        direction < 6,
        rotation < 4,
    ensures
        o2d(d2o(direction, rotation)) == (direction, ((direction + rotation) % 3) as u8),
        o2d(d2o(direction, rotation)) == (direction, rotation) <==> direction % 3 == 0 && rotation
            < 3,
{
    lemma_d2o_packs(direction, rotation);
}

/// A pair whose direction is 0 or 3 and whose rotation is below 3 survives
/// packing and unpacking.
pub proof fn lemma_codec_round_trip(direction: u8, rotation: u8)
    requires
        direction < 6,
        rotation < 3,
        direction % 3 == 0,
    ensures
        o2d(d2o(direction, rotation)) == (direction, rotation),
{
    lemma_o2d_of_d2o(direction, rotation);
}

/// An orientation below 24 is packed from its quarter and its remainder
/// modulo 4.
pub proof fn lemma_d2o_of_quarters(orientation: u8)
    requires
        orientation < 24,
    ensures
        d2o(orientation / 4, orientation % 4) == orientation,
        o2d(orientation).0 == orientation / 4,
{
    lemma_d2o_packs(orientation / 4, orientation % 4);
}

/// Different pairs of direction and rotation have different orientations.
pub proof fn lemma_orientation_injective(d1: Direction, r1: Rotation, d2: Direction, r2: Rotation)
    requires
        orientation(d1, r1) == orientation(d2, r2),
    ensures
        d1 == d2,
        r1 == r2,
{
}

/// Every number below 24 is the orientation of some direction and rotation.
pub proof fn lemma_orientation_surjective(o: u8)
    requires
        o < 24,
    ensures
        exists|d: Direction, r: Rotation| #[trigger] orientation(d, r) == o,
{
    let d = if o / 4 == 0 {
        Direction::XPositive
    } else if o / 4 == 1 {
        Direction::XNegative
    } else if o / 4 == 2 {
        Direction::YPositive
    } else if o / 4 == 3 {
        Direction::YNegative
    } else if o / 4 == 4 {
        Direction::ZPositive
    } else {
        Direction::ZNegative
    };
    let r = if o % 4 == 0 {
        Rotation::Deg0
    } else if o % 4 == 1 {
        Rotation::Deg90
    } else if o % 4 == 2 {
        Rotation::Deg180
    } else {
        Rotation::Deg270
    };
    assert(orientation(d, r) == o);
}

} // verus!
