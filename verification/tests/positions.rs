use pixel_stage::components::Direction;
use pixel_stage::screen::{Bounds, Pos};

const DIRECTIONS: [Direction; 4] =
    [Direction::Up, Direction::Down, Direction::Left, Direction::Right];

#[test]
fn inverting_twice_gives_the_direction_back() {
    for direction in DIRECTIONS {
        assert_eq!(!(!direction), direction);
        assert_ne!(!direction, direction);
    }
}

#[test]
fn inverting_swaps_the_two_ends_of_an_axis() {
    assert_eq!(!Direction::Up, Direction::Down);
    assert_eq!(!Direction::Down, Direction::Up);
    assert_eq!(!Direction::Left, Direction::Right);
    assert_eq!(!Direction::Right, Direction::Left);
}

#[test]
fn direction_predicates_name_one_variant_each() {
    for direction in DIRECTIONS {
        assert_eq!(direction.is_up(), direction == Direction::Up);
        assert_eq!(direction.is_down(), direction == Direction::Down);
        assert_eq!(direction.is_left(), direction == Direction::Left);
        assert_eq!(direction.is_right(), direction == Direction::Right);
    }
}

#[test]
fn positions_add_and_subtract_axis_by_axis() {
    let a = Pos { x: 7, y: 11 };
    let b = Pos { x: 2, y: 5 };
    assert_eq!(a + b, Pos { x: 9, y: 16 });
    assert_eq!(a - b, Pos { x: 5, y: 6 });

    let mut c = a;
    c += b;
    assert_eq!(c, Pos { x: 9, y: 16 });
    c -= a;
    assert_eq!(c, b);
}

#[test]
fn position_arithmetic_saturates() {
    let origin = Pos { x: 0, y: 0 };
    let far = Pos { x: usize::MAX, y: usize::MAX - 1 };
    assert_eq!(origin - Pos { x: 1, y: 1 }, origin);
    assert_eq!(Pos { x: 3, y: 0 } - Pos { x: 1, y: 4 }, Pos { x: 2, y: 0 });
    assert_eq!(far + Pos { x: 1, y: 1 }, Pos { x: usize::MAX, y: usize::MAX });
    assert_eq!(far + Pos { x: 0, y: 9 }, Pos { x: usize::MAX, y: usize::MAX });

    let mut moved = origin;
    moved -= Pos { x: 5, y: 0 };
    assert_eq!(moved, origin);
    moved += far;
    moved += far;
    assert_eq!(moved, Pos { x: usize::MAX, y: usize::MAX });
}

#[test]
fn a_direction_moves_a_position_by_one_cell() {
    let pos = Pos { x: 4, y: 4 };
    assert_eq!(pos + Direction::Up, Pos { x: 4, y: 3 });
    assert_eq!(pos + Direction::Down, Pos { x: 4, y: 5 });
    assert_eq!(pos + Direction::Left, Pos { x: 3, y: 4 });
    assert_eq!(pos + Direction::Right, Pos { x: 5, y: 4 });
}

#[test]
fn a_direction_cannot_move_a_position_out_of_range() {
    let origin = Pos { x: 0, y: 0 };
    let corner = Pos { x: usize::MAX, y: usize::MAX };
    assert_eq!(origin + Direction::Up, origin);
    assert_eq!(origin + Direction::Left, origin);
    assert_eq!(corner + Direction::Down, corner);
    assert_eq!(corner + Direction::Right, corner);
}

#[test]
fn default_position_is_the_origin() {
    assert_eq!(Pos::default(), Pos { x: 0, y: 0 });
}

#[test]
fn edges_of_corners_sides_and_interior() {
    let bounds = Bounds { width: 10, height: 6 };
    assert_eq!(
        bounds.edges(&Pos { x: 0, y: 0 }),
        (Some(Direction::Left), Some(Direction::Up))
    );
    assert_eq!(
        bounds.edges(&Pos { x: 9, y: 0 }),
        (Some(Direction::Right), Some(Direction::Up))
    );
    assert_eq!(
        bounds.edges(&Pos { x: 0, y: 5 }),
        (Some(Direction::Left), Some(Direction::Down))
    );
    assert_eq!(
        bounds.edges(&Pos { x: 9, y: 5 }),
        (Some(Direction::Right), Some(Direction::Down))
    );
    assert_eq!(bounds.edges(&Pos { x: 4, y: 0 }), (None, Some(Direction::Up)));
    assert_eq!(bounds.edges(&Pos { x: 4, y: 5 }), (None, Some(Direction::Down)));
    assert_eq!(bounds.edges(&Pos { x: 0, y: 3 }), (Some(Direction::Left), None));
    assert_eq!(bounds.edges(&Pos { x: 9, y: 3 }), (Some(Direction::Right), None));
    assert_eq!(bounds.edges(&Pos { x: 4, y: 3 }), (None, None));
    assert_eq!(bounds.edges(&Pos { x: 10, y: 6 }), (None, None));
}

#[test]
fn the_far_edge_wins_where_both_match() {
    let sliver = Bounds { width: 1, height: 1 };
    assert_eq!(
        sliver.edges(&Pos { x: 0, y: 0 }),
        (Some(Direction::Right), Some(Direction::Down))
    );
}

#[test]
fn an_empty_rectangle_has_only_near_edges() {
    let empty = Bounds { width: 0, height: 0 };
    assert_eq!(
        empty.edges(&Pos { x: 0, y: 0 }),
        (Some(Direction::Left), Some(Direction::Up))
    );
    assert_eq!(empty.edges(&Pos { x: usize::MAX, y: usize::MAX }), (None, None));
}
