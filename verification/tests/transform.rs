use brick_geometry::util::rotation::{compose, IDENTITY};
use brick_geometry::util::{use_translation_table, TRANSLATION_TABLE};

const UNITS: [(i32, i32, i32); 3] = [(1, 0, 0), (0, 1, 0), (0, 0, 1)];

fn entries(v: (i32, i32, i32)) -> [i32; 3] {
    [v.0, v.1, v.2]
}

#[test]
fn transform_table_rows() {
    assert_eq!(TRANSLATION_TABLE.len(), 24);
    assert_eq!(TRANSLATION_TABLE[0], (3, -2, 1));
    assert_eq!(TRANSLATION_TABLE[5], (-3, 1, -2));
    assert_eq!(TRANSLATION_TABLE[10], (-2, 3, -1));
    assert_eq!(TRANSLATION_TABLE[15], (1, -3, 2));
    assert_eq!(TRANSLATION_TABLE[16], (1, 2, 3));
    assert_eq!(TRANSLATION_TABLE[17], (-2, 1, 3));
    assert_eq!(TRANSLATION_TABLE[23], (-2, -1, -3));
}

#[test]
fn selectors_are_signed_permutations() {
    for row in TRANSLATION_TABLE.iter() {
        let mut magnitudes = [row.0.abs(), row.1.abs(), row.2.abs()];
        magnitudes.sort();
        assert_eq!(magnitudes, [1, 2, 3]);
    }
}

#[test]
fn no_two_orientations_share_a_row() {
    for a in 0..24 {
        for b in 0..a {
            assert_ne!(TRANSLATION_TABLE[a], TRANSLATION_TABLE[b]);
        }
    }
}

#[test]
fn transform_examples() {
    assert_eq!(use_translation_table((1, 2, 3), 0), (3, -2, 1));
    assert_eq!(use_translation_table((7, -8, 9), 13), (-7, -9, 8));
    assert_eq!(use_translation_table((10, 20, 30), 17), (-20, 10, 30));
    assert_eq!(use_translation_table((10, 20, 30), 23), (-20, -10, -30));
    assert_eq!(use_translation_table((0, 0, 0), 7), (0, 0, 0));
}

#[test]
fn transform_of_one_two_three_spells_the_row() {
    for o in 0..24u8 {
        let row = TRANSLATION_TABLE[usize::from(o)];
        let expected = (i32::from(row.0), i32::from(row.1), i32::from(row.2));
        assert_eq!(use_translation_table((1, 2, 3), o), expected);
    }
}

#[test]
fn transform_by_identity_changes_nothing() {
    assert_eq!(use_translation_table((5, -6, 7), IDENTITY), (5, -6, 7));
    assert_eq!(
        use_translation_table((i32::MIN, i32::MAX, 0), IDENTITY),
        (i32::MIN, i32::MAX, 0)
    );
}

#[test]
fn transform_of_unit_vectors() {
    assert_eq!(use_translation_table((1, 0, 0), 0), (0, 0, 1));
    assert_eq!(use_translation_table((0, 1, 0), 0), (0, -1, 0));
    assert_eq!(use_translation_table((0, 0, 1), 0), (1, 0, 0));
    for o in 0..24u8 {
        let row = TRANSLATION_TABLE[usize::from(o)];
        let selectors = [row.0, row.1, row.2];
        for (axis, unit) in UNITS.iter().enumerate() {
            let out = entries(use_translation_table(*unit, o));
            let nonzero = out.iter().filter(|e| **e != 0).count();
            assert_eq!(nonzero, 1);
            for slot in 0..3 {
                let reads_axis = usize::from(selectors[slot].unsigned_abs()) == axis + 1;
                let expected = if !reads_axis {
                    0
                } else if selectors[slot] < 0 {
                    -1
                } else {
                    1
                };
                assert_eq!(out[slot], expected);
            }
        }
    }
}

#[test]
fn unit_vectors_land_on_different_axes() {
    for o in 0..24u8 {
        let mut hit = [false; 3];
        for unit in UNITS.iter() {
            let out = entries(use_translation_table(*unit, o));
            for slot in 0..3 {
                if out[slot] != 0 {
                    assert!(!hit[slot]);
                    hit[slot] = true;
                }
            }
        }
        assert_eq!(hit, [true, true, true]);
    }
}

#[test]
fn transforms_are_proper_rotations() {
    for o in 0..24u8 {
        let x = entries(use_translation_table((1, 0, 0), o));
        let y = entries(use_translation_table((0, 1, 0), o));
        let z = entries(use_translation_table((0, 0, 1), o));
        let determinant = x[0] * (y[1] * z[2] - y[2] * z[1]) - x[1] * (y[0] * z[2] - y[2] * z[0])
            + x[2] * (y[0] * z[1] - y[1] * z[0]);
        assert_eq!(determinant, 1);
    }
}

#[test]
fn transform_follows_composition() {
    let samples = [(1, 2, 3), (-4, 0, 9), (100, -200, 300)];
    for a in 0..24u8 {
        for b in 0..24u8 {
            for v in samples.iter() {
                let stepwise = use_translation_table(use_translation_table(*v, a), b);
                assert_eq!(stepwise, use_translation_table(*v, compose(a, b)));
            }
        }
    }
}

#[test]
fn composition_table_is_the_one_the_transforms_give() {
    for a in 0..24u8 {
        for b in 0..24u8 {
            let moved = use_translation_table(use_translation_table((1, 2, 3), a), b);
            let matches: Vec<u8> =
                (0..24u8).filter(|c| use_translation_table((1, 2, 3), *c) == moved).collect();
            assert_eq!(matches, vec![compose(a, b)]);
        }
    }
}

#[test]
fn transform_at_the_limits() {
    assert_eq!(
        use_translation_table((i32::MAX, i32::MIN + 1, 0), 23),
        (i32::MAX, -i32::MAX, 0)
    );
    // Row 0 is (3, -2, 1): only the second coordinate is negated.
    assert_eq!(
        use_translation_table((i32::MIN, 0, i32::MIN), 0),
        (i32::MIN, 0, i32::MIN)
    );
    assert_eq!(
        use_translation_table((i32::MAX, i32::MAX, i32::MAX), 6),
        (-i32::MAX, -i32::MAX, -i32::MAX)
    );
}
