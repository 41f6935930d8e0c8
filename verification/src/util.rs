//! The two orientation tables and the queries that read them.

use vstd::prelude::*;

use crate::catalog::{brick_size_map, lookup_brick_size};
use crate::save::{Brick, Direction, Rotation, Size};
use crate::util::rotation::orientation;

pub mod rotation;

verus! {

/// The composition table of the 24 orientations, one row of 24 entries for
/// each left operand: the entry at `a * 24 + b` is the orientation that
/// results from `a` followed by `b`.
pub const ROTATION_TABLE: [u8; 576] = [
    16, 15, 22, 9, 18, 11, 20, 13, 17, 3, 21, 5, 19, 7, 23, 1, 0, 8, 4, 12, 6, 10, 2, 14,
    17, 12, 23, 10, 19, 8, 21, 14, 18, 0, 22, 6, 16, 4, 20, 2, 1, 9, 5, 13, 7, 11, 3, 15,
    18, 13, 20, 11, 16, 9, 22, 15, 19, 1, 23, 7, 17, 5, 21, 3, 2, 10, 6, 14, 4, 8, 0, 12,
    19, 14, 21, 8, 17, 10, 23, 12, 16, 2, 20, 4, 18, 6, 22, 0, 3, 11, 7, 15, 5, 9, 1, 13,
    22, 9, 16, 15, 20, 13, 18, 11, 21, 5, 17, 3, 23, 1, 19, 7, 4, 12, 0, 8, 2, 14, 6, 10,
    23, 10, 17, 12, 21, 14, 19, 8, 22, 6, 18, 0, 20, 2, 16, 4, 5, 13, 1, 9, 3, 15, 7, 11,
    20, 11, 18, 13, 22, 15, 16, 9, 23, 7, 19, 1, 21, 3, 17, 5, 6, 14, 2, 10, 0, 12, 4, 8,
    21, 8, 19, 14, 23, 12, 17, 10, 20, 4, 16, 2, 22, 0, 18, 6, 7, 15, 3, 11, 1, 13, 5, 9,
    15, 22, 9, 16, 11, 20, 13, 18, 3, 21, 5, 17, 7, 23, 1, 19, 8, 4, 12, 0, 10, 2, 14, 6,
    12, 23, 10, 17, 8, 21, 14, 19, 0, 22, 6, 18, 4, 20, 2, 16, 9, 5, 13, 1, 11, 3, 15, 7,
    13, 20, 11, 18, 9, 22, 15, 16, 1, 23, 7, 19, 5, 21, 3, 17, 10, 6, 14, 2, 8, 0, 12, 4,
    14, 21, 8, 19, 10, 23, 12, 17, 2, 20, 4, 16, 6, 22, 0, 18, 11, 7, 15, 3, 9, 1, 13, 5,
    9, 16, 15, 22, 13, 18, 11, 20, 5, 17, 3, 21, 1, 19, 7, 23, 12, 0, 8, 4, 14, 6, 10, 2,
    10, 17, 12, 23, 14, 19, 8, 21, 6, 18, 0, 22, 2, 16, 4, 20, 13, 1, 9, 5, 15, 7, 11, 3,
    11, 18, 13, 20, 15, 16, 9, 22, 7, 19, 1, 23, 3, 17, 5, 21, 14, 2, 10, 6, 12, 4, 8, 0,
    8, 19, 14, 21, 12, 17, 10, 23, 4, 16, 2, 20, 0, 18, 6, 22, 15, 3, 11, 7, 13, 5, 9, 1,
    0, 1, 2, 3, 4, 5, 6, 7, 8, 9, 10, 11, 12, 13, 14, 15, 16, 17, 18, 19, 20, 21, 22, 23,
    1, 2, 3, 0, 5, 6, 7, 4, 9, 10, 11, 8, 13, 14, 15, 12, 17, 18, 19, 16, 21, 22, 23, 20,
    2, 3, 0, 1, 6, 7, 4, 5, 10, 11, 8, 9, 14, 15, 12, 13, 18, 19, 16, 17, 22, 23, 20, 21,
    3, 0, 1, 2, 7, 4, 5, 6, 11, 8, 9, 10, 15, 12, 13, 14, 19, 16, 17, 18, 23, 20, 21, 22,
    6, 5, 4, 7, 2, 1, 0, 3, 14, 13, 12, 15, 10, 9, 8, 11, 20, 23, 22, 21, 16, 19, 18, 17,
    7, 6, 5, 4, 3, 2, 1, 0, 15, 14, 13, 12, 11, 10, 9, 8, 21, 20, 23, 22, 17, 16, 19, 18,
    4, 7, 6, 5, 0, 3, 2, 1, 12, 15, 14, 13, 8, 11, 10, 9, 22, 21, 20, 23, 18, 17, 16, 19,
    5, 4, 7, 6, 1, 0, 3, 2, 13, 12, 15, 14, 9, 8, 11, 10, 23, 22, 21, 20, 19, 18, 17, 16,
];

/// For each orientation, the three signed axis selectors of its transform,
/// one for each output axis. A selector's magnitude names the input axis that
/// supplies the output (1 for x, 2 for y, 3 for z); a negative selector
/// negates it.
pub const TRANSLATION_TABLE: [(i8, i8, i8); 24] = [
    (3, -2, 1),
    (3, -1, -2),
    (3, 2, -1),
    (3, 1, 2),
    (-3, 2, 1),
    (-3, 1, -2),
    (-3, -2, -1),
    (-3, -1, 2),
    (2, 3, 1),
    (1, 3, -2),
    (-2, 3, -1),
    (-1, 3, 2),
    (-2, -3, 1),
    (-1, -3, -2),
    (2, -3, -1),
    (1, -3, 2),
    (1, 2, 3),
    (-2, 1, 3),
    (-1, -2, 3),
    (2, -1, 3),
    (-1, 2, -3),
    (2, 1, -3),
    (1, -2, -3),
    (-2, -1, -3),
];

/// The selectors of an orientation, as integers.
pub open spec fn selectors(orientation: u8) -> (int, int, int) {
    let row = TRANSLATION_TABLE[orientation as int];
    (row.0 as int, row.1 as int, row.2 as int)
}

/// The input axis that a selector reads, counted from 1.
pub open spec fn magnitude(selector: int) -> int {
    if selector < 0 {
        -selector
    } else {
        selector
    }
}

/// A selector is one of 1, 2, 3, -1, -2, -3.
pub open spec fn is_selector(selector: int) -> bool {
    1 <= magnitude(selector) <= 3
}

/// Three selectors that between them read each input axis once.
pub open spec fn is_signed_permutation(s: (int, int, int)) -> bool {
    &&& is_selector(s.0)
    &&& is_selector(s.1)
    &&& is_selector(s.2)
    &&& magnitude(s.0) != magnitude(s.1)
    &&& magnitude(s.0) != magnitude(s.2)
    &&& magnitude(s.1) != magnitude(s.2)
}

/// The component of a triple on the axis `axis`: 0 for the first, 1 for the
/// second, anything else for the third.
pub open spec fn component<T>(triple: (T, T, T), axis: int) -> T {
    if axis == 0 {
        triple.0
    } else if axis == 1 {
        triple.1
    } else {
        triple.2
    }
}

/// The coordinate that a selector picks from `coords`, with the selector's
/// sign.
pub open spec fn select(coords: (int, int, int), selector: int) -> int {
    let picked = component(coords, magnitude(selector) - 1);
    if selector < 0 {
        -picked
    } else {
        picked
    }
}

/// A local offset carried into the world frame by an orientation.
pub open spec fn transform(coords: (int, int, int), orientation: u8) -> (int, int, int) {
    let s = selectors(orientation);
    (select(coords, s.0), select(coords, s.1), select(coords, s.2))
}

/// A triple of machine integers as mathematical integers.
pub open spec fn ints(coords: (i32, i32, i32)) -> (int, int, int) {
    (coords.0 as int, coords.1 as int, coords.2 as int)
}

/// Whether a machine integer can hold `value`.
pub open spec fn fits_i32(value: int) -> bool {
    i32::MIN <= value <= i32::MAX
}

/// Whether the transform of `coords` can be held in machine integers. It
/// cannot only where a selector negates `i32::MIN`.
pub open spec fn transform_fits(coords: (i32, i32, i32), orientation: u8) -> bool {
    let out = transform(ints(coords), orientation);
    fits_i32(out.0) && fits_i32(out.1) && fits_i32(out.2)
}

/// The coordinate that the selector `translation` picks from `coords`,
/// negated where the selector is negative.
fn translation_coord(coords: (i32, i32, i32), translation: i8) -> (r: i32)
    requires
        is_selector(translation as int),
        fits_i32(select(ints(coords), translation as int)),
    ensures
        r == select(ints(coords), translation as int),
{
    let axis: i8 = if translation < 0 {
        -translation
    } else {
        translation
    };
    let picked: i32 = if axis == 1 {
        coords.0
    } else if axis == 2 {
        coords.1
    } else {
        coords.2
    };
    if translation < 0 {
        -picked
    } else {
        picked
    }
}

/// Carries a local offset into the world frame of a brick with the given
/// orientation.
pub fn use_translation_table(coords: (i32, i32, i32), orientation: u8) -> (r: (i32, i32, i32))
    requires
        orientation < 24,
        transform_fits(coords, orientation),
    ensures
        ints(r) == transform(ints(coords), orientation),
{
    proof {
        lemma_selectors_signed_permutation(orientation);
    }
    let translation: (i8, i8, i8) = TRANSLATION_TABLE[orientation as usize];
    (
        translation_coord(coords, translation.0),
        translation_coord(coords, translation.1),
        translation_coord(coords, translation.2),
    )
}

/// The dimensions of the asset that `asset_name_index` names in `assets`, or
/// zeros where the index is out of bounds or the catalog lacks the name.
pub open spec fn brick_size(asset_name_index: u32, assets: Seq<Seq<char>>) -> (u32, u32, u32) {
    if asset_name_index < assets.len() && brick_size_map().dom().contains(
        assets[asset_name_index as int],
    ) {
        brick_size_map()[assets[asset_name_index as int]]
    } else {
        (0, 0, 0)
    }
}

/// The catalog's dimensions for a brick's asset. A brick whose asset name
/// the catalog does not hold, or whose index lies outside `assets`, has none:
/// the result is then (0, 0, 0), which is what "no known geometry" looks like
/// to callers.
pub fn get_brick_size(brick: &Brick, assets: &[String]) -> (r: (u32, u32, u32))
    ensures
        r == brick_size(brick.asset_name_index, assets.deep_view()),
{
    let index: usize = brick.asset_name_index as usize;
    if index < assets.len() {
        match lookup_brick_size(assets[index].as_str()) {
            Some(size) => size,
            None => (0, 0, 0),
        }
    } else {
        (0, 0, 0)
    }
}

/// The axis that a direction puts in the place of `axis`: a direction along
/// X exchanges axes 0 and 2, one along Y sends 0 to 1, 1 to 2 and 2 to 0, and
/// one along Z leaves the axes alone.
pub open spec fn direction_axis(direction: Direction, axis: u8) -> u8 {
    if direction.along_x() {
        if axis == 0 {
            2
        } else if axis == 2 {
            0
        } else {
            axis
        }
    } else if direction.along_y() {
        if axis == 0 {
            1
        } else if axis == 1 {
            2
        } else if axis == 2 {
            0
        } else {
            axis
        }
    } else {
        axis
    }
}

/// The axis that a rotation puts in the place of `axis`: an odd number of
/// quarter turns exchanges axes 0 and 1.
pub open spec fn rotation_axis(rotation: Rotation, axis: u8) -> u8 {
    if rotation.is_odd() {
        if axis == 0 {
            1
        } else if axis == 1 {
            0
        } else {
            axis
        }
    } else {
        axis
    }
}

/// The local axis of a brick that lies along the world axis `axis`: the
/// direction's exchange first, then the rotation's.
pub open spec fn scale_axis(direction: Direction, rotation: Rotation, axis: u8) -> u8 {
    rotation_axis(rotation, direction_axis(direction, axis))
}

/// The local axis of a brick that lies along the world axis `axis`. An axis
/// other than 0, 1 or 2 comes back unchanged.
pub fn get_scale_axis(brick: &Brick, axis: u8) -> (r: u8)
    ensures
        r == scale_axis(brick.direction, brick.rotation, axis),
        axis < 3 ==> r < 3,
        axis >= 3 ==> r == axis,
{
    let mut axis: u8 = axis;
    match brick.direction {
        Direction::XPositive | Direction::XNegative => {
            if axis == 0 {
                axis = 2;
            } else if axis == 2 {
                axis = 0;
            }
        },
        Direction::YPositive | Direction::YNegative => {
            if axis == 0 {
                axis = 1;
            } else if axis == 1 {
                axis = 2;
            } else if axis == 2 {
                axis = 0;
            }
        },
        _ => {},
    }

    if brick.rotation == Rotation::Deg90 || brick.rotation == Rotation::Deg270 {
        if axis == 0 {
            axis = 1;
        } else if axis == 1 {
            axis = 0;
        }
    }

    axis
}

/// The dimensions of a brick in its local frame: its own where it carries
/// them, the catalog's otherwise.
pub open spec fn local_size(brick: Brick, assets: Seq<Seq<char>>) -> (u32, u32, u32) {
    match brick.size {
        Size::Procedural(x, y, z) => (x, y, z),
        Size::Empty => brick_size(brick.asset_name_index, assets),
    }
}

/// The extent of a brick along the world axis `axis`.
pub open spec fn axis_size(brick: Brick, assets: Seq<Seq<char>>, axis: u8) -> u32 {
    component(local_size(brick, assets), scale_axis(brick.direction, brick.rotation, axis) as int)
}

/// The extent of a brick along the world axis `axis`, which is 0, 1 or 2.
pub fn get_axis_size(brick: &Brick, assets: &[String], axis: u8) -> (r: u32)
    requires
        axis < 3,
    ensures
        r == axis_size(*brick, assets.deep_view(), axis),
{
    let size: (u32, u32, u32) = match brick.size {
        Size::Procedural(x, y, z) => (x, y, z),
        Size::Empty => get_brick_size(brick, assets),
    };

    let local: u8 = get_scale_axis(brick, axis);
    if local == 0 {
        size.0
    } else if local == 1 {
        size.1
    } else {
        size.2
    }
}

/// Each row of the transform table reads every input axis exactly once.
pub proof fn lemma_selectors_signed_permutation(orientation: u8)
    requires
        orientation < 24,
    ensures
        is_signed_permutation(selectors(orientation)),
{
}

/// The offset of length one along the axis `axis`.
pub open spec fn unit(axis: int) -> (int, int, int) {
    (
        if axis == 0 {
            1
        } else {
            0
        },
        if axis == 1 {
            1
        } else {
            0
        },
        if axis == 2 {
            1
        } else {
            0
        },
    )
}

/// What the output of a selector is on the unit offset along `axis`: 1 or -1
/// by the selector's sign where the selector reads that axis, 0 otherwise.
pub open spec fn unit_entry(selector: int, axis: int) -> int {
    if magnitude(selector) != axis + 1 {
        0
    } else if selector < 0 {
        -1
    } else {
        1
    }
}

/// An orientation carries a unit offset to a unit offset: one entry of the
/// result is 1 or -1, in the slot whose selector reads the unit's axis, and
/// the other two are 0.
pub proof fn lemma_transform_unit(orientation: u8, axis: int)
    requires
        orientation < 24,
        0 <= axis < 3,
    ensures
        ({
            let s = selectors(orientation);
            let out = transform(unit(axis), orientation);
            &&& out == (unit_entry(s.0, axis), unit_entry(s.1, axis), unit_entry(s.2, axis))
            &&& magnitude(out.0) + magnitude(out.1) + magnitude(out.2) == 1
        }),
{
    lemma_selectors_signed_permutation(orientation);
}

/// An offset without `i32::MIN` among its coordinates can be transformed by
/// every orientation.
pub proof fn lemma_transform_fits(coords: (i32, i32, i32), orientation: u8)
    requires
        orientation < 24,
        coords.0 > i32::MIN,
        coords.1 > i32::MIN,
        coords.2 > i32::MIN,
    ensures
        transform_fits(coords, orientation),
{
    lemma_selectors_signed_permutation(orientation);
}

/// The scale axis of a brick for a world axis is the local axis that the
/// brick's transform reads for that world axis.
pub proof fn lemma_scale_axis_reads_selector(direction: Direction, rotation: Rotation, axis: u8)
    requires
        axis < 3,
    ensures
        scale_axis(direction, rotation, axis) == magnitude(
            component(selectors(orientation(direction, rotation)), axis as int),
        ) - 1,
{
}

/// The scale axes of the three world axes are the three local axes, each
/// once.
pub proof fn lemma_scale_axis_permutes(direction: Direction, rotation: Rotation, a: u8, b: u8)
    requires
        a < 3,
        b < 3,
    ensures
        scale_axis(direction, rotation, a) < 3,
        a != b ==> scale_axis(direction, rotation, a) != scale_axis(direction, rotation, b),
{
}

/// A brick spun by an odd number of quarter turns measures as the brick
/// without rotation would with its first two dimensions exchanged.
pub proof fn lemma_odd_rotation_swaps(brick: Brick, x: u32, y: u32, z: u32, axis: u8)
    requires
        axis < 3,
        brick.rotation.is_odd(),
        brick.size == Size::Procedural(x, y, z),
    ensures
        axis_size(brick, Seq::empty(), axis) == axis_size(
            Brick { rotation: Rotation::Deg0, size: Size::Procedural(y, x, z), ..brick },
            Seq::empty(),
            axis,
        ),
{
}

/// A brick without dimensions of its own whose asset name is out of bounds or
/// unknown to the catalog has no size: zeros, along every axis.
pub proof fn lemma_catalog_miss(brick: Brick, assets: Seq<Seq<char>>, axis: u8)
    requires
        brick.size == Size::Empty,
        brick.asset_name_index >= assets.len() || !brick_size_map().dom().contains(
            assets[brick.asset_name_index as int],
        ),
    ensures
        brick_size(brick.asset_name_index, assets) == (0u32, 0u32, 0u32),
        axis_size(brick, assets, axis) == 0,
{
}

/// The extent of a brick that carries its own dimensions depends on nothing
/// but those and the scale axis: neither the asset name nor the list of names
/// nor the catalog has a part in it.
pub proof fn lemma_procedural_size(brick: Brick, assets: Seq<Seq<char>>, axis: u8)
    requires
        brick.size is Procedural,
    ensures
        axis_size(brick, assets, axis) == component(
            (brick.size->Procedural_0, brick.size->Procedural_1, brick.size->Procedural_2),
            scale_axis(brick.direction, brick.rotation, axis) as int,
        ),
{
}

} // verus!
