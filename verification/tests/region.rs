use dm_panes::region::{Axis, Region};

#[test]
fn screen_starts_at_the_origin() {
    assert_eq!(Region::screen(80, 24), Region { x: 0, y: 0, width: 80, height: 24 });
}

#[test]
fn region_without_columns_or_rows_is_empty() {
    assert!(Region { x: 3, y: 4, width: 0, height: 9 }.is_empty());
    assert!(Region { x: 3, y: 4, width: 9, height: 0 }.is_empty());
    assert!(!Region { x: 3, y: 4, width: 1, height: 1 }.is_empty());
}

#[test]
fn span_is_measured_along_the_axis() {
    let r = Region { x: 1, y: 2, width: 30, height: 40 };
    assert_eq!(r.span(Axis::Horizontal), 30);
    assert_eq!(r.span(Axis::Vertical), 40);
}

#[test]
fn split_at_a_column_gives_left_and_right() {
    let r = Region { x: 4, y: 6, width: 10, height: 3 };
    let (left, right) = r.split_at(Axis::Horizontal, 4);
    assert_eq!(left, Region { x: 4, y: 6, width: 4, height: 3 });
    assert_eq!(right, Region { x: 8, y: 6, width: 6, height: 3 });
}

#[test]
fn split_at_a_row_gives_upper_and_lower() {
    let r = Region { x: 4, y: 6, width: 10, height: 3 };
    let (upper, lower) = r.split_at(Axis::Vertical, 1);
    assert_eq!(upper, Region { x: 4, y: 6, width: 10, height: 1 });
    assert_eq!(lower, Region { x: 4, y: 7, width: 10, height: 2 });
}

#[test]
fn split_at_either_end_leaves_one_part_empty() {
    let r = Region { x: 65000, y: 0, width: 535, height: 2 };
    let (first, second) = r.split_at(Axis::Horizontal, 0);
    assert!(first.is_empty());
    assert_eq!(second, r);
    let (first, second) = r.split_at(Axis::Horizontal, 535);
    assert_eq!(first, r);
    assert_eq!(second, Region { x: 65535, y: 0, width: 0, height: 2 });
}
