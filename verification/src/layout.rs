//! Where the three panes go on the screen.
//!
//! The screen is cut into a left column and a right column, and the right
//! column into an upper and a lower part. A constraint solver proposes each
//! cut; the proposal is taken where it is a rounding of the wanted percentage
//! to a whole number of cells, and replaced by the percentage rounded down
//! where it is not. Whatever the solver answers, the panes tile the screen.

use vstd::prelude::*;
use crate::region::Axis;
use crate::region::Region;
use crate::region::lemma_cut_tiles;
use tui::layout::Constraint;
use tui::layout::Direction;
use tui::layout::Layout;
use tui::layout::Rect;

verus! {

/// Percentage of the screen's width that the left column takes.
pub const LEFT_PERCENT: u16 = 30;

/// Percentage of the right column's height that its upper part takes.
pub const UPPER_PERCENT: u16 = 80;

/// Whether the solver can be asked to give the first part `percent` percent
/// of `extent` cells and the second part the rest: it multiplies each
/// percentage by the extent in `u16`.
pub open spec fn solver_takes(percent: int, extent: int) -> bool {
    percent * extent <= u16::MAX && (100 - percent) * extent <= u16::MAX
}

/// `percent` of `extent`, rounded down to a whole number of cells.
pub open spec fn share_floor(percent: int, extent: int) -> int {
    percent * extent / 100
}

/// Whether `cut` is `percent` of `extent` rounded to a whole number of cells,
/// up or down: it differs from the exact share by less than one cell.
pub open spec fn is_share(cut: int, percent: int, extent: int) -> bool {
    percent * extent - 100 < 100 * cut < percent * extent + 100
}

/// The length that a solver's answer proposes for the first part: the extent
/// of its first rectangle along `axis`, if it has one.
pub open spec fn proposed_cut(parts: Seq<Region>, axis: Axis) -> Option<int> {
    if parts.len() > 0 {
        Some(parts[0].extent(axis))
    } else {
        None
    }
}

/// The cut that is made when the solver answered `parts`: its proposal where
/// that is a rounding of the share, the share rounded down otherwise.
pub open spec fn settled_cut(percent: int, extent: int, proposal: Option<int>) -> int {
    match proposal {
        Some(cut) if is_share(cut, percent, extent) => cut,
        _ => share_floor(percent, extent),
    }
}

/// The share rounded down is a rounding of the share, and it fits within the
/// extent.
pub proof fn lemma_share_floor_is_share(percent: int, extent: int)
    requires
        0 <= percent <= 100,
        0 <= extent,
    ensures
        is_share(share_floor(percent, extent), percent, extent),
        0 <= share_floor(percent, extent) <= extent,
{
    let exact = percent * extent;
    assert(0 <= exact <= 100 * extent) by (nonlinear_arith)
        requires
            0 <= percent <= 100,
            0 <= extent,
            exact == percent * extent,
    ;
    assert(exact == 100 * (exact / 100) + exact % 100) by {
        vstd::arithmetic::div_mod::lemma_fundamental_div_mod(exact, 100);
    }
}

/// A rounding of a share of at most one hundred percent never reaches past
/// the extent, nor below zero.
pub proof fn lemma_share_fits(cut: int, percent: int, extent: int)
    requires
        0 <= percent <= 100,
        0 <= extent,
        is_share(cut, percent, extent),
    ensures
        0 <= cut <= extent,
{
    let exact = percent * extent;
    assert(0 <= exact <= 100 * extent) by (nonlinear_arith)
        requires
            0 <= percent <= 100,
            0 <= extent,
            exact == percent * extent,
    ;
}

/// Decides where to cut a length of `extent` cells of which the first part is
/// to take `percent` percent, given the length that the solver proposed for
/// the first part, if it proposed one.
pub fn settle_cut(percent: u16, extent: u16, proposal: Option<u16>) -> (cut: u16)
    requires
        percent <= 100,
    ensures
        cut == settled_cut(percent as int, extent as int, match proposal {
            Some(p) => Some(p as int),
            None => None,
        }),
        is_share(cut as int, percent as int, extent as int),
        cut <= extent,
{
    proof {
        lemma_share_floor_is_share(percent as int, extent as int);
        assert(0 <= percent * extent <= 100 * u16::MAX) by (nonlinear_arith)
            requires
                0 <= percent <= 100,
                0 <= extent <= u16::MAX,
        ;
    }
    let exact: u32 = (percent as u32) * (extent as u32);
    match proposal {
        Some(p) => {
            let scaled: u32 = 100u32 * (p as u32);
            if scaled + 100 > exact && scaled < exact + 100 {
                proof {
                    lemma_share_fits(p as int, percent as int, extent as int);
                }
                return p;
            }
        },
        None => {},
    }
    (exact / 100) as u16
}

/// The two parts of `area` when the solver answered `answer` to the request
/// to give the first part `percent` percent along `axis`.
pub open spec fn placed(area: Region, axis: Axis, percent: int, answer: Seq<Region>) -> (
    Region,
    Region,
) {
    let cut = settled_cut(percent, area.extent(axis), proposed_cut(answer, axis));
    (area.before_cut(axis, cut), area.after_cut(axis, cut))
}

/// Whether `parts` cut `area` in two along `axis` so that the first part is
/// `percent` percent of it, rounded to a whole number of cells.
pub open spec fn divides(parts: (Region, Region), area: Region, axis: Axis, percent: int) -> bool {
    let cut = parts.0.extent(axis);
    &&& is_share(cut, percent, area.extent(axis))
    &&& parts.0 == area.before_cut(axis, cut)
    &&& parts.1 == area.after_cut(axis, cut)
}

/// Asks the solver of `tui` to split `area` along `axis` between two
/// percentages, by `tui::layout::Layout::split` on a default layout with that
/// direction and those two `Constraint::Percentage`s.
///
/// Trusted, and claimed of it: it returns, and its answer holds one rectangle
/// for each of the two constraints. Nothing is claimed of the rectangles
/// themselves, which come out of a floating-point simplex run. The inputs
/// that are left out are those on which the solver stops the program: a
/// percentage times the extent that does not fit in `u16`, and an area that
/// reaches past the last column or row that `u16` can number.
#[verifier::external_body]
fn solve_split(area: Region, axis: Axis, first: u16, second: u16) -> (answer: Vec<Region>)
    requires
        first * area.extent(axis) <= u16::MAX,
        second * area.extent(axis) <= u16::MAX,
        area.on_grid(),
    ensures
        answer@.len() == 2,
{
    let direction = match axis {
        Axis::Horizontal => Direction::Horizontal,
        Axis::Vertical => Direction::Vertical,
    };
    let shares = vec![Constraint::Percentage(first), Constraint::Percentage(second)];
    let rect = Rect { x: area.x, y: area.y, width: area.width, height: area.height };
    let rects = Layout::default().direction(direction).constraints(shares).split(rect);
    rects.into_iter().map(|r| Region { x: r.x, y: r.y, width: r.width, height: r.height }).collect()
}

/// Cuts `area` in two along `axis`, the first part taking `percent` percent,
/// given what the solver answered. The answer is used as far as it can be
/// trusted: see `settled_cut`. An empty answer stands for a solver that was
/// not asked.
pub fn place_pair(area: Region, axis: Axis, percent: u16, answer: &Vec<Region>) -> (parts: (
    Region,
    Region,
))
    requires
        percent <= 100,
        area.on_grid(),
    ensures
        parts == placed(area, axis, percent as int, answer@),
        divides(parts, area, axis, percent as int),
        area.tiled_by_pair(parts.0, parts.1),
        parts.0.on_grid(),
        parts.1.on_grid(),
{
    let proposal = if answer.len() > 0 {
        Some(answer[0].span(axis))
    } else {
        None
    };
    let cut = settle_cut(percent, area.span(axis), proposal);
    area.split_at(axis, cut)
}

/// Whether `solve_split` can be asked about `percent` percent of `extent`.
pub fn can_solve(percent: u16, extent: u16) -> (b: bool)
    requires
        percent <= 100,
    ensures
        b == solver_takes(percent as int, extent as int),
{
    proof {
        assert(0 <= percent * extent <= 100 * u16::MAX && 0 <= (100 - percent) * extent <= 100
            * u16::MAX) by (nonlinear_arith)
            requires
                0 <= percent <= 100,
                0 <= extent <= u16::MAX,
        ;
    }
    let limit: u32 = 65535;
    (percent as u32) * (extent as u32) <= limit && ((100 - percent) as u32) * (extent as u32)
        <= limit
}

/// Cuts `area` in two along `axis`, the first part taking `percent` percent
/// of it, rounded to a whole number of cells. The solver proposes the cut
/// where it can be asked; the two parts tile `area` whatever it answers.
pub fn divide(area: Region, axis: Axis, percent: u16) -> (parts: (Region, Region))
    requires
        percent <= 100,
        area.on_grid(),
    ensures
        divides(parts, area, axis, percent as int),
        area.tiled_by_pair(parts.0, parts.1),
        parts.0.on_grid(),
        parts.1.on_grid(),
{
    if can_solve(percent, area.span(axis)) {
        let answer = solve_split(area, axis, percent, 100 - percent);
        place_pair(area, axis, percent, &answer)
    } else {
        place_pair(area, axis, percent, &Vec::new())
    }
}

/// One box on the screen: a border along the edge of `region`, with `title`
/// set into its top line, and nothing inside.
#[derive(Clone, Copy, Debug, PartialEq, Eq)]
pub struct Pane {
    pub title: &'static str,
    pub region: Region,
}

/// The three boxes of one frame, in the order in which they are drawn.
#[derive(Clone, Copy, Debug, PartialEq, Eq)]
pub struct Panes {
    /// The list of conversations, down the left of the screen.
    pub left: Pane,
    /// The messages of one conversation, to the right and above.
    pub upper_right: Pane,
    /// The line below the messages.
    pub lower_right: Pane,
}

impl Panes {
    /// Whether the three regions share no cell and together hold exactly the
    /// cells of `whole`.
    pub open spec fn tile(self, whole: Region) -> bool {
        let a = self.left.region.cells();
        let b = self.upper_right.region.cells();
        let c = self.lower_right.region.cells();
        &&& a.disjoint(b)
        &&& a.disjoint(c)
        &&& b.disjoint(c)
        &&& a.union(b).union(c) =~= whole.cells()
    }

    /// Whether the three regions are the screen of `width` by `height` cells
    /// cut at a column that leaves `LEFT_PERCENT` percent of the width to the
    /// left, and, right of it, at a row that leaves `UPPER_PERCENT` percent of
    /// the height above, each rounded to a whole number of cells.
    pub open spec fn arranged_on(self, width: u16, height: u16) -> bool {
        let screen = Region { x: 0, y: 0, width, height };
        let column = self.left.region.width as int;
        let row = self.upper_right.region.height as int;
        let right = screen.after_cut(Axis::Horizontal, column);
        &&& is_share(column, LEFT_PERCENT as int, width as int)
        &&& is_share(row, UPPER_PERCENT as int, height as int)
        &&& self.left.region == screen.before_cut(Axis::Horizontal, column)
        &&& self.upper_right.region == right.before_cut(Axis::Vertical, row)
        &&& self.lower_right.region == right.after_cut(Axis::Vertical, row)
    }

    /// Whether the three boxes carry their titles.
    pub open spec fn titled(self) -> bool {
        &&& self.left.title@ == "DMs"@
        &&& self.upper_right.title@ == "Messages"@
        &&& self.lower_right.title@ == "--"@
    }
}

/// On every screen, however the two cuts were rounded, the three panes share
/// no cell and leave no cell of the screen uncovered.
pub proof fn lemma_panes_tile_screen(panes: Panes, width: u16, height: u16)
    requires
        panes.arranged_on(width, height),
    ensures
        panes.tile(Region { x: 0, y: 0, width, height }),
{
    let screen = Region { x: 0, y: 0, width, height };
    let column = panes.left.region.width as int;
    let row = panes.upper_right.region.height as int;
    lemma_share_fits(column, LEFT_PERCENT as int, width as int);
    lemma_share_fits(row, UPPER_PERCENT as int, height as int);
    let right = screen.after_cut(Axis::Horizontal, column);
    lemma_cut_tiles(screen, Axis::Horizontal, column);
    lemma_cut_tiles(right, Axis::Vertical, row);
    let a = panes.left.region.cells();
    let b = panes.upper_right.region.cells();
    let c = panes.lower_right.region.cells();
    assert(b.union(c) =~= right.cells());
    assert(a.union(right.cells()) =~= screen.cells());
    assert(a.union(b).union(c) =~= a.union(b.union(c)));
    assert(a.disjoint(b)) by {
        assert forall|p: (int, int)| !(a.contains(p) && b.contains(p)) by {
            if b.contains(p) {
                assert(b.union(c).contains(p));
            }
        }
    }
    assert(a.disjoint(c)) by {
        assert forall|p: (int, int)| !(a.contains(p) && c.contains(p)) by {
            if c.contains(p) {
                assert(b.union(c).contains(p));
            }
        }
    }
}

/// Two frames laid out on the same screen agree to within one column and one
/// row, whatever the solver answered for each, and agree in every cell where
/// the two percentages come out as whole numbers of cells.
pub proof fn lemma_frames_agree(first: Panes, second: Panes, width: u16, height: u16)
    requires
        first.arranged_on(width, height),
        second.arranged_on(width, height),
    ensures
        -1 <= first.left.region.width - second.left.region.width <= 1,
        -1 <= first.upper_right.region.height - second.upper_right.region.height <= 1,
        (LEFT_PERCENT * width) % 100 == 0 && (UPPER_PERCENT * height) % 100 == 0 ==> {
            &&& first.left.region == second.left.region
            &&& first.upper_right.region == second.upper_right.region
            &&& first.lower_right.region == second.lower_right.region
        },
{
}

/// Lays out one frame on a screen of `width` by `height` cells: the pane
/// "DMs" on the left, "Messages" to the right and above, "--" below it.
pub fn ui(width: u16, height: u16) -> (panes: Panes)
    ensures
        panes.arranged_on(width, height),
        panes.titled(),
        panes.tile(Region { x: 0, y: 0, width, height }),
{
    let screen = Region::screen(width, height);
    let (left, right) = divide(screen, Axis::Horizontal, LEFT_PERCENT);
    let (upper, lower) = divide(right, Axis::Vertical, UPPER_PERCENT);
    let panes = Panes {
        left: Pane { title: "DMs", region: left },
        upper_right: Pane { title: "Messages", region: upper },
        lower_right: Pane { title: "--", region: lower },
    };
    proof {
        lemma_panes_tile_screen(panes, width, height);
    }
    panes
}

} // verus!
