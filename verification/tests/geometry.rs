use brick_geometry::save::{Brick, Direction, Rotation, Size};
use brick_geometry::util::rotation::orientation;
use brick_geometry::util::{
    get_axis_size, get_brick_size, get_scale_axis, TRANSLATION_TABLE,
};

const DIRECTIONS: [Direction; 6] = [
    Direction::XPositive,
    Direction::XNegative,
    Direction::YPositive,
    Direction::YNegative,
    Direction::ZPositive,
    Direction::ZNegative,
];

const ROTATIONS: [Rotation; 4] =
    [Rotation::Deg0, Rotation::Deg90, Rotation::Deg180, Rotation::Deg270];

fn procedural(direction: Direction, rotation: Rotation, size: (u32, u32, u32)) -> Brick {
    Brick {
        asset_name_index: 0,
        size: Size::Procedural(size.0, size.1, size.2),
        direction,
        rotation,
    }
}

fn cataloged(asset_name_index: u32, direction: Direction, rotation: Rotation) -> Brick {
    Brick { asset_name_index, size: Size::Empty, direction, rotation }
}

fn names(list: &[&str]) -> Vec<String> {
    list.iter().map(|name| String::from(*name)).collect()
}

fn sizes(brick: &Brick, assets: &[String]) -> [u32; 3] {
    [get_axis_size(brick, assets, 0), get_axis_size(brick, assets, 1), get_axis_size(brick, assets, 2)]
}

#[test]
fn axis_swap_for_x_direction() {
    let brick = procedural(Direction::XPositive, Rotation::Deg0, (10, 20, 6));
    assert_eq!(get_axis_size(&brick, &[], 0), 6);
    assert_eq!(get_axis_size(&brick, &[], 1), 20);
    assert_eq!(get_axis_size(&brick, &[], 2), 10);
}

#[test]
fn rotation_swap_for_x_direction() {
    let brick = procedural(Direction::XPositive, Rotation::Deg90, (10, 20, 6));
    assert_eq!(get_axis_size(&brick, &[], 0), 6);
    assert_eq!(get_axis_size(&brick, &[], 1), 10);
    assert_eq!(get_axis_size(&brick, &[], 2), 20);
    // The same as the brick without rotation, its first two dimensions
    // exchanged.
    let exchanged = procedural(Direction::XPositive, Rotation::Deg0, (20, 10, 6));
    assert_eq!(sizes(&brick, &[]), sizes(&exchanged, &[]));
}

#[test]
fn odd_rotations_exchange_the_first_two_dimensions() {
    for direction in DIRECTIONS.iter() {
        for rotation in [Rotation::Deg90, Rotation::Deg270].iter() {
            let brick = procedural(*direction, *rotation, (3, 5, 7));
            let exchanged = procedural(*direction, Rotation::Deg0, (5, 3, 7));
            assert_eq!(sizes(&brick, &[]), sizes(&exchanged, &[]));
        }
        let half = procedural(*direction, Rotation::Deg180, (3, 5, 7));
        let none = procedural(*direction, Rotation::Deg0, (3, 5, 7));
        assert_eq!(sizes(&half, &[]), sizes(&none, &[]));
    }
}

#[test]
fn axis_sizes_for_each_direction() {
    let size = (10, 20, 6);
    let expected = [
        (Direction::XPositive, [6, 20, 10]),
        (Direction::XNegative, [6, 20, 10]),
        (Direction::YPositive, [20, 6, 10]),
        (Direction::YNegative, [20, 6, 10]),
        (Direction::ZPositive, [10, 20, 6]),
        (Direction::ZNegative, [10, 20, 6]),
    ];
    for (direction, along) in expected.iter() {
        let brick = procedural(*direction, Rotation::Deg0, size);
        assert_eq!(sizes(&brick, &[]), *along);
    }
    let spun = [
        (Direction::XPositive, [6, 10, 20]),
        (Direction::YNegative, [10, 6, 20]),
        (Direction::ZPositive, [20, 10, 6]),
    ];
    for (direction, along) in spun.iter() {
        let brick = procedural(*direction, Rotation::Deg270, size);
        assert_eq!(sizes(&brick, &[]), *along);
    }
}

#[test]
fn scale_axis_for_each_direction() {
    let brick = procedural(Direction::XNegative, Rotation::Deg0, (1, 1, 1));
    assert_eq!(get_scale_axis(&brick, 0), 2);
    assert_eq!(get_scale_axis(&brick, 1), 1);
    assert_eq!(get_scale_axis(&brick, 2), 0);
    let brick = procedural(Direction::YPositive, Rotation::Deg0, (1, 1, 1));
    assert_eq!(get_scale_axis(&brick, 0), 1);
    assert_eq!(get_scale_axis(&brick, 1), 2);
    assert_eq!(get_scale_axis(&brick, 2), 0);
    let brick = procedural(Direction::ZNegative, Rotation::Deg180, (1, 1, 1));
    assert_eq!(get_scale_axis(&brick, 0), 0);
    assert_eq!(get_scale_axis(&brick, 1), 1);
    assert_eq!(get_scale_axis(&brick, 2), 2);
    let brick = procedural(Direction::YNegative, Rotation::Deg90, (1, 1, 1));
    assert_eq!(get_scale_axis(&brick, 0), 0);
    assert_eq!(get_scale_axis(&brick, 1), 2);
    assert_eq!(get_scale_axis(&brick, 2), 1);
    let brick = procedural(Direction::ZPositive, Rotation::Deg270, (1, 1, 1));
    assert_eq!(get_scale_axis(&brick, 0), 1);
    assert_eq!(get_scale_axis(&brick, 1), 0);
    assert_eq!(get_scale_axis(&brick, 2), 2);
}

#[test]
fn scale_axis_leaves_other_axes_alone() {
    for direction in DIRECTIONS.iter() {
        for rotation in ROTATIONS.iter() {
            let brick = procedural(*direction, *rotation, (1, 2, 3));
            for axis in [3u8, 4, 100, 255].iter() {
                assert_eq!(get_scale_axis(&brick, *axis), *axis);
            }
        }
    }
}

#[test]
fn scale_axis_is_a_permutation() {
    for direction in DIRECTIONS.iter() {
        for rotation in ROTATIONS.iter() {
            let brick = procedural(*direction, *rotation, (1, 2, 3));
            let mut axes =
                [get_scale_axis(&brick, 0), get_scale_axis(&brick, 1), get_scale_axis(&brick, 2)];
            axes.sort();
            assert_eq!(axes, [0, 1, 2]);
        }
    }
}

#[test]
fn scale_axis_is_the_axis_the_transform_reads() {
    for direction in DIRECTIONS.iter() {
        for rotation in ROTATIONS.iter() {
            let brick = procedural(*direction, *rotation, (1, 2, 3));
            let row = TRANSLATION_TABLE[usize::from(orientation(*direction, *rotation))];
            let selectors = [row.0, row.1, row.2];
            for axis in 0..3u8 {
                let read = selectors[usize::from(axis)].unsigned_abs() - 1;
                assert_eq!(get_scale_axis(&brick, axis), read);
            }
        }
    }
}

#[test]
fn brick_size_from_the_catalog() {
    let assets = names(&["PB_DefaultBrick", "B_2x4_Door_Frame", "B_Pine_Tree"]);
    let door = cataloged(1, Direction::ZPositive, Rotation::Deg0);
    assert_eq!(get_brick_size(&door, &assets), (10, 20, 36));
    let tree = cataloged(2, Direction::ZPositive, Rotation::Deg0);
    assert_eq!(get_brick_size(&tree, &assets), (20, 20, 38));
}

#[test]
fn brick_size_ignores_dimensions_of_the_brick() {
    let assets = names(&["B_Coffin"]);
    let brick = Brick {
        asset_name_index: 0,
        size: Size::Procedural(1, 2, 3),
        direction: Direction::ZPositive,
        rotation: Rotation::Deg0,
    };
    assert_eq!(get_brick_size(&brick, &assets), (5, 20, 30));
}

#[test]
fn axis_size_from_the_catalog() {
    let assets = names(&["B_2x4_Door_Frame"]);
    let upright = cataloged(0, Direction::ZPositive, Rotation::Deg0);
    assert_eq!(sizes(&upright, &assets), [10, 20, 36]);
    let lying = cataloged(0, Direction::XPositive, Rotation::Deg0);
    assert_eq!(sizes(&lying, &assets), [36, 20, 10]);
    let spun = cataloged(0, Direction::YPositive, Rotation::Deg90);
    assert_eq!(sizes(&spun, &assets), [10, 36, 20]);
}

#[test]
fn catalog_miss_on_unknown_name() {
    let assets = names(&["PB_DefaultBrick", "B_Unheard_Of", ""]);
    for index in 0..3u32 {
        for direction in DIRECTIONS.iter() {
            for rotation in ROTATIONS.iter() {
                let brick = cataloged(index, *direction, *rotation);
                assert_eq!(get_brick_size(&brick, &assets), (0, 0, 0));
                assert_eq!(sizes(&brick, &assets), [0, 0, 0]);
            }
        }
    }
}

#[test]
fn catalog_miss_on_index_out_of_bounds() {
    let assets = names(&["B_Pawn"]);
    for index in [1u32, 2, 75, u32::MAX].iter() {
        let brick = cataloged(*index, Direction::YNegative, Rotation::Deg270);
        assert_eq!(get_brick_size(&brick, &assets), (0, 0, 0));
        assert_eq!(sizes(&brick, &assets), [0, 0, 0]);
    }
    let brick = cataloged(0, Direction::ZPositive, Rotation::Deg0);
    assert_eq!(get_brick_size(&brick, &[]), (0, 0, 0));
    assert_eq!(sizes(&brick, &[]), [0, 0, 0]);
}

#[test]
fn procedural_size_overrides_the_catalog() {
    let with_entry = names(&["B_Pine_Tree"]);
    let without_entry = names(&["B_Unheard_Of"]);
    for direction in DIRECTIONS.iter() {
        for rotation in ROTATIONS.iter() {
            let brick = procedural(*direction, *rotation, (11, 13, 17));
            let alone = sizes(&brick, &[]);
            assert_eq!(sizes(&brick, &with_entry), alone);
            assert_eq!(sizes(&brick, &without_entry), alone);
            let elsewhere = Brick { asset_name_index: 9, ..brick };
            assert_eq!(sizes(&elsewhere, &with_entry), alone);
            let mut sorted = alone;
            sorted.sort();
            assert_eq!(sorted, [11, 13, 17]);
        }
    }
}

#[test]
fn procedural_size_at_the_limits() {
    let brick = procedural(Direction::YPositive, Rotation::Deg0, (0, u32::MAX, 1));
    assert_eq!(sizes(&brick, &[]), [u32::MAX, 1, 0]);
}
