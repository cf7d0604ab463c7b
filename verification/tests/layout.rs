use dm_panes::layout::{can_solve, divide, place_pair, settle_cut, ui, Panes};
use dm_panes::region::{Axis, Region};
use tui::layout::{Constraint, Direction, Layout, Rect};

fn solved(area: Rect, direction: Direction, first: u16) -> Vec<Region> {
    Layout::default()
        .direction(direction)
        .constraints([Constraint::Percentage(first), Constraint::Percentage(100 - first)].as_ref())
        .split(area)
        .into_iter()
        .map(|r| Region { x: r.x, y: r.y, width: r.width, height: r.height })
        .collect()
}

fn covered_by(r: &Region, col: u32, row: u32) -> bool {
    let (x, y) = (r.x as u32, r.y as u32);
    x <= col && col < x + r.width as u32 && y <= row && row < y + r.height as u32
}

fn assert_tiles(panes: &Panes, width: u16, height: u16) {
    let regions = [panes.left.region, panes.upper_right.region, panes.lower_right.region];
    for row in 0..height as u32 {
        for col in 0..width as u32 {
            let hits = regions.iter().filter(|r| covered_by(r, col, row)).count();
            assert_eq!(hits, 1, "cell ({}, {}) on a {}x{} screen", col, row, width, height);
        }
    }
    let cells: u32 = regions.iter().map(|r| r.width as u32 * r.height as u32).sum();
    assert_eq!(cells, width as u32 * height as u32);
}

#[test]
fn screen_of_100_by_40_is_cut_at_column_30_and_row_32() {
    let panes = ui(100, 40);
    assert_eq!(panes.left.region, Region { x: 0, y: 0, width: 30, height: 40 });
    assert_eq!(panes.upper_right.region, Region { x: 30, y: 0, width: 70, height: 32 });
    assert_eq!(panes.lower_right.region, Region { x: 30, y: 32, width: 70, height: 8 });
}

#[test]
fn panes_carry_their_titles_in_drawing_order() {
    let panes = ui(80, 24);
    assert_eq!(panes.left.title, "DMs");
    assert_eq!(panes.upper_right.title, "Messages");
    assert_eq!(panes.lower_right.title, "--");
}

#[test]
fn screen_of_one_cell_goes_to_one_pane() {
    let panes = ui(1, 1);
    assert_tiles(&panes, 1, 1);
    assert_eq!(panes.left.region, Region { x: 0, y: 0, width: 0, height: 1 });
    assert_eq!(panes.upper_right.region, Region { x: 0, y: 0, width: 1, height: 0 });
    assert_eq!(panes.lower_right.region, Region { x: 0, y: 0, width: 1, height: 1 });
}

#[test]
fn empty_screen_gives_three_empty_panes() {
    let panes = ui(0, 0);
    assert!(panes.left.region.is_empty());
    assert!(panes.upper_right.region.is_empty());
    assert!(panes.lower_right.region.is_empty());
}

#[test]
fn panes_tile_small_screens() {
    for width in 1..=40u16 {
        for height in 1..=25u16 {
            assert_tiles(&ui(width, height), width, height);
        }
    }
}

#[test]
fn panes_tile_a_usual_terminal() {
    assert_tiles(&ui(80, 24), 80, 24);
    assert_tiles(&ui(213, 57), 213, 57);
}

#[test]
fn cuts_are_roundings_of_the_percentages() {
    for (width, height) in [(7u16, 3u16), (80, 24), (133, 41), (213, 57), (936, 819)] {
        let panes = ui(width, height);
        let column = panes.left.region.width as i64;
        let row = panes.upper_right.region.height as i64;
        assert!((100 * column - 30 * width as i64).abs() < 100);
        assert!((100 * row - 80 * height as i64).abs() < 100);
    }
}

#[test]
fn screen_too_large_for_the_solver_is_cut_by_rounding_down() {
    let panes = ui(2005, 1003);
    assert_eq!(panes.left.region, Region { x: 0, y: 0, width: 601, height: 1003 });
    assert_eq!(panes.upper_right.region, Region { x: 601, y: 0, width: 1404, height: 802 });
    assert_eq!(panes.lower_right.region, Region { x: 601, y: 802, width: 1404, height: 201 });
}

#[test]
fn largest_screen_is_laid_out() {
    let panes = ui(u16::MAX, u16::MAX);
    assert_eq!(panes.left.region.width, 19660);
    assert_eq!(panes.upper_right.region, Region { x: 19660, y: 0, width: 45875, height: 52428 });
    assert_eq!(panes.lower_right.region, Region { x: 19660, y: 52428, width: 45875, height: 13107 });
}

#[test]
fn drawing_twice_gives_the_same_panes() {
    for (width, height) in [(100u16, 40u16), (80, 24), (7, 3), (1, 1)] {
        assert_eq!(ui(width, height), ui(width, height));
    }
}

#[test]
fn solver_is_asked_only_where_its_products_fit() {
    assert!(can_solve(30, 936));
    assert!(!can_solve(30, 937));
    assert!(can_solve(80, 819));
    assert!(!can_solve(80, 820));
    assert!(can_solve(100, 655));
    assert!(!can_solve(100, 656));
    assert!(can_solve(0, 655));
    assert!(can_solve(50, 0));
}

#[test]
fn proposal_that_is_a_rounding_is_taken() {
    assert_eq!(settle_cut(30, 100, Some(30)), 30);
    assert_eq!(settle_cut(30, 7, Some(2)), 2);
    assert_eq!(settle_cut(30, 7, Some(3)), 3);
    assert_eq!(settle_cut(80, 41, Some(33)), 33);
    assert_eq!(settle_cut(80, 41, Some(32)), 32);
}

#[test]
fn proposal_that_is_no_rounding_is_replaced_by_the_floor() {
    assert_eq!(settle_cut(30, 100, Some(29)), 30);
    assert_eq!(settle_cut(30, 100, Some(31)), 30);
    assert_eq!(settle_cut(30, 100, Some(100)), 30);
    assert_eq!(settle_cut(30, 7, Some(1)), 2);
    assert_eq!(settle_cut(30, 7, Some(4)), 2);
    assert_eq!(settle_cut(80, 41, Some(0)), 32);
    assert_eq!(settle_cut(80, 41, Some(u16::MAX)), 32);
}

#[test]
fn missing_proposal_is_replaced_by_the_floor() {
    assert_eq!(settle_cut(30, 100, None), 30);
    assert_eq!(settle_cut(30, 7, None), 2);
    assert_eq!(settle_cut(80, 41, None), 32);
    assert_eq!(settle_cut(0, 50, None), 0);
    assert_eq!(settle_cut(100, 50, None), 50);
    assert_eq!(settle_cut(100, u16::MAX, None), u16::MAX);
    assert_eq!(settle_cut(30, 0, None), 0);
}

#[test]
fn pair_is_placed_by_the_first_rectangle_of_the_answer() {
    let area = Region { x: 5, y: 2, width: 7, height: 10 };
    let answer = vec![
        Region { x: 5, y: 2, width: 3, height: 10 },
        Region { x: 8, y: 2, width: 4, height: 10 },
    ];
    let (first, second) = place_pair(area, Axis::Horizontal, 30, &answer);
    assert_eq!(first, Region { x: 5, y: 2, width: 3, height: 10 });
    assert_eq!(second, Region { x: 8, y: 2, width: 4, height: 10 });
}

#[test]
fn pair_is_placed_inside_the_area_whatever_the_answer() {
    let area = Region { x: 5, y: 2, width: 7, height: 10 };
    let answer = vec![
        Region { x: 900, y: 900, width: 3, height: 77 },
        Region { x: 0, y: 0, width: 0, height: 0 },
    ];
    let (first, second) = place_pair(area, Axis::Vertical, 80, &answer);
    assert_eq!(first, Region { x: 5, y: 2, width: 7, height: 8 });
    assert_eq!(second, Region { x: 5, y: 10, width: 7, height: 2 });
    let (first, second) = place_pair(area, Axis::Vertical, 80, &Vec::new());
    assert_eq!(first, Region { x: 5, y: 2, width: 7, height: 8 });
    assert_eq!(second, Region { x: 5, y: 10, width: 7, height: 2 });
}

#[test]
fn divide_cuts_an_offset_area_along_each_axis() {
    let area = Region { x: 10, y: 20, width: 50, height: 30 };
    let (first, second) = divide(area, Axis::Horizontal, 50);
    assert_eq!(first, Region { x: 10, y: 20, width: 25, height: 30 });
    assert_eq!(second, Region { x: 35, y: 20, width: 25, height: 30 });
    let (first, second) = divide(area, Axis::Vertical, 10);
    assert_eq!(first, Region { x: 10, y: 20, width: 50, height: 3 });
    assert_eq!(second, Region { x: 10, y: 23, width: 50, height: 27 });
}

#[test]
fn divide_gives_all_or_nothing_at_the_ends_of_the_scale() {
    let area = Region { x: 0, y: 0, width: 12, height: 5 };
    let (first, second) = divide(area, Axis::Horizontal, 0);
    assert_eq!(first, Region { x: 0, y: 0, width: 0, height: 5 });
    assert_eq!(second, area);
    let (first, second) = divide(area, Axis::Horizontal, 100);
    assert_eq!(first, area);
    assert_eq!(second, Region { x: 12, y: 0, width: 0, height: 5 });
}

#[test]
fn panes_are_where_the_solver_puts_them() {
    let mut sizes = vec![(1u16, 1u16), (2, 2), (3, 7), (80, 24), (100, 40), (213, 57), (936, 819)];
    for n in 1..=60u16 {
        sizes.push((n, 61 - n));
        sizes.push((7 * n, 3 * n));
    }
    for (width, height) in sizes {
        let screen = Rect { x: 0, y: 0, width, height };
        let columns = solved(screen, Direction::Horizontal, 30);
        let right = Rect {
            x: columns[1].x,
            y: columns[1].y,
            width: columns[1].width,
            height: columns[1].height,
        };
        let rows = solved(right, Direction::Vertical, 80);
        let panes = ui(width, height);
        assert_eq!(panes.left.region, columns[0], "left pane on {}x{}", width, height);
        assert_eq!(panes.upper_right.region, rows[0], "upper pane on {}x{}", width, height);
        assert_eq!(panes.lower_right.region, rows[1], "lower pane on {}x{}", width, height);
    }
}
