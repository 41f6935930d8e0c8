//! The fixed catalog of brick shapes, and the default material names.
//!
//! A brick that carries no dimensions of its own is looked up here by its
//! asset name. The catalog is constant data; what is proved of it is that no
//! name occurs twice, so that it is a map from names to dimensions.

use vstd::prelude::*;
use vstd::utf8::{encode_utf8, encode_utf8_decode_utf8};

verus! {

/// The names of the materials that every save starts out with.
pub const DEFAULT_MATERIALS: [&'static str; 8] = [
    "BMC_Hidden",
    "BMC_Ghost",
    "BMC_Ghost_Fail",
    "BMC_Plastic",
    "BMC_Glass",
    "BMC_Glow",
    "BMC_Metallic",
    "BMC_Hologram",
];

/// The number of shapes in the catalog.
pub const CATALOG_LEN: usize = 75;

/// The known shapes: asset name and dimensions in the brick's local frame.
pub const BRICK_SIZES: [(&'static str, (u32, u32, u32)); CATALOG_LEN] = [
    ("B_1x1_Brick_Side", (5, 5, 6)),
    ("B_1x1_Brick_Side_Lip", (5, 5, 6)),
    ("B_1x1_Cone", (5, 5, 6)),
    ("B_1x1_Round", (5, 5, 6)),
    ("B_1x1F_Octo", (5, 5, 2)),
    ("B_1x1F_Round", (5, 5, 2)),
    ("B_1x2_Overhang", (6, 10, 5)),
    ("B_1x2f_Plate_Center", (10, 5, 2)),
    ("B_1x2f_Plate_Center_Inv", (10, 5, 2)),
    ("B_1x4_Brick_Side", (20, 5, 6)),
    ("B_1x_Octo", (5, 5, 5)),
    ("B_1x_Octo_90Deg", (5, 5, 5)),
    ("B_1x_Octo_90Deg_Inv", (5, 5, 5)),
    ("B_1x_Octo_T", (5, 5, 5)),
    ("B_1x_Octo_T_Inv", (5, 5, 5)),
    ("B_2x1_Slipper", (10, 5, 6)),
    ("B_2x2_Cone", (10, 10, 12)),
    ("B_2x2_Corner", (10, 10, 6)),
    ("B_2x2_Overhang", (6, 10, 10)),
    ("B_2x2_Round", (10, 10, 6)),
    ("B_2x2_Slipper", (10, 10, 6)),
    ("B_2x2F_Octo", (10, 10, 2)),
    ("B_2x2F_Octo_Converter", (10, 10, 2)),
    ("B_2x2F_Octo_Converter_Inv", (10, 10, 2)),
    ("B_2x2f_Plate_Center", (10, 10, 2)),
    ("B_2x2f_Plate_Center_Inv", (10, 10, 2)),
    ("B_2x2F_Round", (10, 10, 2)),
    ("B_2x4_Door_Frame", (10, 20, 36)),
    ("B_2x_Octo", (10, 10, 10)),
    ("B_2x_Octo_90Deg", (10, 10, 10)),
    ("B_2x_Octo_90Deg_Inv", (10, 10, 10)),
    ("B_2x_Octo_Cone", (10, 10, 10)),
    ("B_2x_Octo_T", (10, 10, 10)),
    ("B_2x_Octo_T_Inv", (10, 10, 10)),
    ("B_4x4_Round", (20, 20, 6)),
    ("B_8x8_Lattice_Plate", (40, 40, 2)),
    ("B_Bishop", (5, 5, 10)),
    ("B_Bone", (10, 10, 2)),
    ("B_BoneStraight", (10, 5, 2)),
    ("B_Branch", (20, 11, 2)),
    ("B_Bush", (15, 15, 16)),
    ("B_Cauldron", (10, 10, 10)),
    ("B_Chalice", (5, 5, 10)),
    ("B_CheckPoint", (20, 20, 2)),
    ("B_Coffin", (5, 20, 30)),
    ("B_Coffin_Lid", (10, 20, 30)),
    ("B_Fern", (10, 10, 2)),
    ("B_Flame", (5, 5, 10)),
    ("B_Flower", (10, 10, 2)),
    ("B_Gravestone", (10, 20, 20)),
    ("B_Handle", (5, 10, 6)),
    ("B_Hedge_1x1", (5, 5, 6)),
    ("B_Hedge_1x1_Corner", (5, 5, 6)),
    ("B_Hedge_1x2", (5, 10, 6)),
    ("B_Hedge_1x4", (5, 20, 6)),
    ("B_Inverted_Cone", (5, 5, 8)),
    ("B_Jar", (9, 9, 12)),
    ("B_King", (5, 5, 12)),
    ("B_Knight", (5, 5, 8)),
    ("B_Ladder", (12, 15, 12)),
    ("B_Pawn", (5, 5, 6)),
    ("B_Picket_Fence", (20, 5, 12)),
    ("B_Pine_Tree", (20, 20, 38)),
    ("B_Pumpkin", (10, 10, 7)),
    ("B_Pumpkin_Carved", (10, 10, 7)),
    ("B_Queen", (5, 5, 12)),
    ("B_Rook", (5, 5, 6)),
    ("B_Sausage", (10, 5, 2)),
    ("B_Small_Flower", (5, 5, 2)),
    ("B_SpawnPoint", (20, 20, 2)),
    ("B_Swirl_Plate", (5, 5, 4)),
    ("B_Turkey_Body", (15, 10, 7)),
    ("B_Turkey_Leg", (10, 5, 3)),
    ("B_Leaf_Bush", (26, 26, 20)),
    ("B_GoalPoint", (20, 20, 2)),
];

/// The name of the catalog's entry `i`.
pub open spec fn catalog_name(i: int) -> Seq<char> {
    BRICK_SIZES[i].0@
}

/// The dimensions of the catalog's entry `i`.
pub open spec fn catalog_size(i: int) -> (u32, u32, u32) {
    BRICK_SIZES[i].1
}

/// Whether entry `i` of the catalog carries the name `name`.
pub open spec fn names_entry(name: Seq<char>, i: int) -> bool {
    0 <= i < CATALOG_LEN && catalog_name(i) == name
}

/// The catalog as a map from asset name to dimensions.
pub open spec fn brick_size_map() -> Map<Seq<char>, (u32, u32, u32)> {
    Map::new(
        |name: Seq<char>| exists|i: int| names_entry(name, i),
        |name: Seq<char>| catalog_size(choose|i: int| names_entry(name, i)),
    )
}

/// No name occurs twice in the catalog.
pub proof fn lemma_catalog_names_distinct(i: int, j: int)
    requires
        0 <= i < CATALOG_LEN,
        0 <= j < CATALOG_LEN,
        catalog_name(i) == catalog_name(j),
    ensures
        i == j,
{
    reveal_strlit("B_1x1_Brick_Side");
    reveal_strlit("B_1x1_Brick_Side_Lip");
    reveal_strlit("B_1x1_Cone");
    reveal_strlit("B_1x1_Round");
    reveal_strlit("B_1x1F_Octo");
    reveal_strlit("B_1x1F_Round");
    reveal_strlit("B_1x2_Overhang");
    reveal_strlit("B_1x2f_Plate_Center");
    reveal_strlit("B_1x2f_Plate_Center_Inv");
    reveal_strlit("B_1x4_Brick_Side");
    reveal_strlit("B_1x_Octo");
    reveal_strlit("B_1x_Octo_90Deg");
    reveal_strlit("B_1x_Octo_90Deg_Inv");
    reveal_strlit("B_1x_Octo_T");
    reveal_strlit("B_1x_Octo_T_Inv");
    reveal_strlit("B_2x1_Slipper");
    reveal_strlit("B_2x2_Cone");
    reveal_strlit("B_2x2_Corner");
    reveal_strlit("B_2x2_Overhang");
    reveal_strlit("B_2x2_Round");
    reveal_strlit("B_2x2_Slipper");
    reveal_strlit("B_2x2F_Octo");
    reveal_strlit("B_2x2F_Octo_Converter");
    reveal_strlit("B_2x2F_Octo_Converter_Inv");
    reveal_strlit("B_2x2f_Plate_Center");
    reveal_strlit("B_2x2f_Plate_Center_Inv");
    reveal_strlit("B_2x2F_Round");
    reveal_strlit("B_2x4_Door_Frame");
    reveal_strlit("B_2x_Octo");
    reveal_strlit("B_2x_Octo_90Deg");
    reveal_strlit("B_2x_Octo_90Deg_Inv");
    reveal_strlit("B_2x_Octo_Cone");
    reveal_strlit("B_2x_Octo_T");
    reveal_strlit("B_2x_Octo_T_Inv");
    reveal_strlit("B_4x4_Round");
    reveal_strlit("B_8x8_Lattice_Plate");
    reveal_strlit("B_Bishop");
    reveal_strlit("B_Bone");
    reveal_strlit("B_BoneStraight");
    reveal_strlit("B_Branch");
    reveal_strlit("B_Bush");
    reveal_strlit("B_Cauldron");
    reveal_strlit("B_Chalice");
    reveal_strlit("B_CheckPoint");
    reveal_strlit("B_Coffin");
    reveal_strlit("B_Coffin_Lid");
    reveal_strlit("B_Fern");
    reveal_strlit("B_Flame");
    reveal_strlit("B_Flower");
    reveal_strlit("B_Gravestone");
    reveal_strlit("B_Handle");
    reveal_strlit("B_Hedge_1x1");
    reveal_strlit("B_Hedge_1x1_Corner");
    reveal_strlit("B_Hedge_1x2");
    reveal_strlit("B_Hedge_1x4");
    reveal_strlit("B_Inverted_Cone");
    reveal_strlit("B_Jar");
    reveal_strlit("B_King");
    reveal_strlit("B_Knight");
    reveal_strlit("B_Ladder");
    reveal_strlit("B_Pawn");
    reveal_strlit("B_Picket_Fence");
    reveal_strlit("B_Pine_Tree");
    reveal_strlit("B_Pumpkin");
    reveal_strlit("B_Pumpkin_Carved");
    reveal_strlit("B_Queen");
    reveal_strlit("B_Rook");
    reveal_strlit("B_Sausage");
    reveal_strlit("B_Small_Flower");
    reveal_strlit("B_SpawnPoint");
    reveal_strlit("B_Swirl_Plate");
    reveal_strlit("B_Turkey_Body");
    reveal_strlit("B_Turkey_Leg");
    reveal_strlit("B_Leaf_Bush");
    reveal_strlit("B_GoalPoint");
    // Any two entries differ in length or in the character at position 2, 4
    // or 10. Naming these positions lets the solver look the characters up.
    let a = catalog_name(i);
    let b = catalog_name(j);
    assert(a.len() == b.len());
    assert(a[2] == b[2]);
    assert(a[4] == b[4]);
    assert(10 < a.len() ==> a[10] == b[10]);
}

/// Each entry of the catalog is what the map holds for its name.
pub proof fn lemma_catalog_entry(i: int)
    requires
        0 <= i < CATALOG_LEN,
    ensures
        brick_size_map().dom().contains(catalog_name(i)),
        brick_size_map()[catalog_name(i)] == catalog_size(i),
{
    let name = catalog_name(i);
    assert(names_entry(name, i));
    let found = choose|k: int| names_entry(name, k);
    lemma_catalog_names_distinct(found, i);
}

/// Whether two strings hold the same characters.
fn str_eq(a: &str, b: &str) -> (r: bool)
    ensures
        r == (a@ == b@),
{
    let x = a.as_bytes();
    let y = b.as_bytes();
    if x.len() != y.len() {
        return false;
    }
    let mut i: usize = 0;
    while i < x.len()
        invariant
            i <= x.len(),
            x.len() == y.len(),
            x@ == encode_utf8(a@),
            y@ == encode_utf8(b@),
            forall|k: int| 0 <= k < i ==> x@[k] == y@[k],
        decreases x.len() - i,
    {
        if x[i] != y[i] {
            return false;
        }
        i += 1;
    }
    proof {
        // Equal bytes decode to equal characters.
        assert(x@ =~= y@);
        encode_utf8_decode_utf8(a@);
        encode_utf8_decode_utf8(b@);
    }
    true
}

/// The dimensions that the catalog holds for an asset name, if it holds any.
pub fn lookup_brick_size(name: &str) -> (r: Option<(u32, u32, u32)>)
    ensures
        r == brick_size_map().get(name@),
{
    let mut i: usize = 0;
    while i < CATALOG_LEN
        invariant
            i <= CATALOG_LEN,
            forall|k: int| 0 <= k < i ==> !names_entry(name@, k),
        decreases CATALOG_LEN - i,
    {
        if str_eq(name, BRICK_SIZES[i].0) {
            proof {
                lemma_catalog_entry(i as int);
            }
            return Some(BRICK_SIZES[i].1);
        }
        i += 1;
    }
    None
}

} // verus!
