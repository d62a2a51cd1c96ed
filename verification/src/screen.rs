use vstd::prelude::*;

use crate::app::{App, Mode};

use ratatui::layout::{Constraint, Layout, Rect};
use ratatui::widgets::Block;

verus! {

/// A rectangle of terminal cells.
#[derive(Debug, Clone, Copy, PartialEq, Eq, Structural)]
pub struct Area {
    pub x: u16,
    pub y: u16,
    pub width: u16,
    pub height: u16,
}

/// How much room a row or column of the screen asks for.
#[derive(Debug, Clone, Copy, PartialEq, Eq, Structural)]
pub enum Extent {
    /// Exactly this many cells.
    Length(u16),
    /// At least this many cells; takes what is left over.
    Min(u16),
    /// This percentage of the space.
    Percentage(u16),
}

/// Addition that stops at the largest `u16`.
pub open spec fn add_sat(a: u16, b: u16) -> u16 {
    if a + b > u16::MAX {
        u16::MAX
    } else {
        (a + b) as u16
    }
}

/// Subtraction that stops at zero.
pub open spec fn sub_sat(a: u16, b: u16) -> u16 {
    if a < b {
        0
    } else {
        (a - b) as u16
    }
}

/// The area inside a one-cell border drawn around `area`.
pub open spec fn spec_bordered_inner(area: Area) -> Area {
    let x1 = add_sat(area.x, 1);
    let right = add_sat(area.x, area.width);
    let y1 = add_sat(area.y, 1);
    let bottom = add_sat(area.y, area.height);
    Area {
        x: if x1 < right { x1 } else { right },
        y: if y1 < bottom { y1 } else { bottom },
        width: sub_sat(area.width, 2),
        height: sub_sat(area.height, 2),
    }
}

/// The area inside the border lies within the area: it starts no further
/// left or up, and, for an area that ends before the largest coordinate,
/// ends no further right or down.
pub proof fn lemma_bordered_inner_inside(area: Area)
    ensures
        spec_bordered_inner(area).x >= area.x,
        spec_bordered_inner(area).y >= area.y,
        area.x + area.width <= u16::MAX ==> spec_bordered_inner(area).x + spec_bordered_inner(
            area,
        ).width <= area.x + area.width,
        area.y + area.height <= u16::MAX ==> spec_bordered_inner(area).y + spec_bordered_inner(
            area,
        ).height <= area.y + area.height,
{
}

/// ratatui's `Block::inner` on a block with all four borders
/// (`Block::bordered()`), which has no padding: by its source the area
/// moves one cell right and down (kept inside the area) and loses two cells
/// of width and of height (never below zero). A title on the top border, as
/// the tuner's block has, changes nothing once the top border is there.
#[verifier::external_body]
fn bordered_inner(area: Area) -> (r: Area)
    ensures
        r == spec_bordered_inner(area),
{
    let rect = Rect { x: area.x, y: area.y, width: area.width, height: area.height };
    let inner = Block::bordered().inner(rect);
    Area { x: inner.x, y: inner.y, width: inner.width, height: inner.height }
}

/// Areas that the layout solver gave to a list of extents inside an area.
/// Only the two splitting functions of this module make one, so the areas
/// always belong to the area and extents they were solved for.
pub struct Split {
    area: Area,
    extents: Vec<Extent>,
    areas: Vec<Area>,
}

impl Split {
    /// The area that was split.
    pub closed spec fn spec_area(&self) -> Area {
        self.area
    }

    /// The extents the solver was asked for, in order.
    pub closed spec fn spec_extents(&self) -> Seq<Extent> {
        self.extents@
    }

    /// The areas the solver gave, one per extent, in the same order.
    pub closed spec fn spec_areas(&self) -> Seq<Area> {
        self.areas@
    }

    pub fn area(&self) -> (r: Area)
        ensures
            r == self.spec_area(),
    {
        self.area
    }

    pub fn extents(&self) -> (r: &Vec<Extent>)
        ensures
            r@ == self.spec_extents(),
    {
        &self.extents
    }

    pub fn areas(&self) -> (r: &Vec<Area>)
        ensures
            r@ == self.spec_areas(),
    {
        &self.areas
    }
}

/// ratatui's `Layout::split` on `Layout::vertical(extents)`, which has no
/// margin. Where the rows fall is up to the constraint solver; by the
/// layout's documentation the solver may settle on one of several layouts
/// for the same constraints, and its pivot choice walks hash maps seeded per
/// process, so the rows' positions and heights are not named. By the source
/// there is one row per extent (`try_split`), every row spans the area's
/// full width (`changes_to_rects`, with the margin-less inner area equal to
/// the area), and every row lies between the area's top and bottom: the
/// layout requires each segment's ends to lie in the area and its start not
/// to pass its end, and the rounding back to cells keeps that. The source's
/// `expect` fires only if the solver refuses one of these required
/// constraints, which are always satisfiable. The extents and the area are
/// kept with the rows unchanged.
#[verifier::external_body]
fn split_vertical(area: Area, extents: Vec<Extent>) -> (r: Split)
    ensures
        r.spec_area() == area,
        r.spec_extents() == extents@,
        r.spec_areas().len() == extents@.len(),
        forall|i: int|
            0 <= i < r.spec_areas().len() ==> {
                let a = #[trigger] r.spec_areas()[i];
                &&& a.x == area.x
                &&& a.width == area.width
                &&& a.y >= area.y
                &&& a.y + a.height <= add_sat(area.y, area.height)
            },
{
    let constraints = extents.iter().map(|e| match *e {
        Extent::Length(n) => Constraint::Length(n),
        Extent::Min(n) => Constraint::Min(n),
        Extent::Percentage(p) => Constraint::Percentage(p),
    });
    let rect = Rect { x: area.x, y: area.y, width: area.width, height: area.height };
    let rects = Layout::vertical(constraints).split(rect);
    let areas = rects.iter().map(|r| Area { x: r.x, y: r.y, width: r.width, height: r.height });
    Split { area, extents, areas: areas.collect() }
}

/// ratatui's `Layout::split` on `Layout::horizontal(extents)`, which has no
/// margin. As for the vertical split, the columns' positions and widths are
/// the solver's and are not named; by the source there is one column per
/// extent, every column spans the area's full height, and every column lies
/// between the area's left and right edges. The extents and the area are
/// kept with the columns unchanged.
#[verifier::external_body]
fn split_horizontal(area: Area, extents: Vec<Extent>) -> (r: Split)
    ensures
        r.spec_area() == area,
        r.spec_extents() == extents@,
        r.spec_areas().len() == extents@.len(),
        forall|i: int|
            0 <= i < r.spec_areas().len() ==> {
                let a = #[trigger] r.spec_areas()[i];
                &&& a.y == area.y
                &&& a.height == area.height
                &&& a.x >= area.x
                &&& a.x + a.width <= add_sat(area.x, area.width)
            },
{
    let constraints = extents.iter().map(|e| match *e {
        Extent::Length(n) => Constraint::Length(n),
        Extent::Min(n) => Constraint::Min(n),
        Extent::Percentage(p) => Constraint::Percentage(p),
    });
    let rect = Rect { x: area.x, y: area.y, width: area.width, height: area.height };
    let rects = Layout::horizontal(constraints).split(rect);
    let areas = rects.iter().map(|r| Area { x: r.x, y: r.y, width: r.width, height: r.height });
    Split { area, extents, areas: areas.collect() }
}

/// Number of rows of the screen.
pub const ROW_COUNT: usize = 11;

/// The rows of the screen, top to bottom: input device, channel, algorithm
/// and mode, the string buttons (no height in free mode), a spacer, the
/// meter (three lines), a spacer, the note, the frequency, the nearest
/// string, and the help line, which takes whatever is left.
pub open spec fn spec_row_extents(has_strings: bool) -> Seq<Extent> {
    seq![
        Extent::Length(1),
        Extent::Length(1),
        Extent::Length(1),
        Extent::Length(if has_strings { 1 } else { 0 }),
        Extent::Length(1),
        Extent::Length(3),
        Extent::Length(1),
        Extent::Length(1),
        Extent::Length(1),
        Extent::Length(1),
        Extent::Min(0),
    ]
}

/// The rows of the screen as `spec_row_extents` lists them.
pub fn row_extents(has_strings: bool) -> (r: Vec<Extent>)
    ensures
        r@ == spec_row_extents(has_strings),
{
    let r = vec![
        Extent::Length(1),
        Extent::Length(1),
        Extent::Length(1),
        Extent::Length(if has_strings { 1 } else { 0 }),
        Extent::Length(1),
        Extent::Length(3),
        Extent::Length(1),
        Extent::Length(1),
        Extent::Length(1),
        Extent::Length(1),
        Extent::Min(0),
    ];
    assert(r@ =~= spec_row_extents(has_strings));
    r
}

/// The algorithm-and-mode row is cut into two halves.
pub open spec fn spec_half_extents() -> Seq<Extent> {
    seq![Extent::Percentage(50), Extent::Percentage(50)]
}

/// Where everything goes on the screen.
pub struct ScreenLayout {
    /// The area inside the border.
    pub inner: Area,
    /// The rows, solved for `spec_row_extents` inside `inner`.
    pub rows: Split,
    /// The halves of the algorithm-and-mode row.
    pub halves: Split,
}

impl App {
    /// The layout of the screen in `area`: a border around everything, the
    /// rows of `spec_row_extents` inside it (the string row has height only
    /// in the instrument modes), each as wide as the inside of the border
    /// and within its top and bottom, and the algorithm-and-mode row cut
    /// into two equal halves of its height. Where exactly the solver puts
    /// the rows and the halves is its own choice.
    pub fn screen_layout(&self, area: Area) -> (r: ScreenLayout)
        ensures
            r.inner == spec_bordered_inner(area),
            r.rows.spec_area() == r.inner,
            r.rows.spec_extents() == spec_row_extents(self.mode != Mode::Free),
            r.rows.spec_areas().len() == ROW_COUNT,
            forall|i: int|
                0 <= i < r.rows.spec_areas().len() ==> {
                    let a = #[trigger] r.rows.spec_areas()[i];
                    &&& a.x == r.inner.x
                    &&& a.width == r.inner.width
                    &&& a.y >= r.inner.y
                    &&& a.y + a.height <= add_sat(r.inner.y, r.inner.height)
                },
            r.halves.spec_area() == r.rows.spec_areas()[2],
            r.halves.spec_extents() == spec_half_extents(),
            r.halves.spec_areas().len() == 2,
            forall|i: int|
                0 <= i < r.halves.spec_areas().len() ==> {
                    let a = #[trigger] r.halves.spec_areas()[i];
                    &&& a.y == r.rows.spec_areas()[2].y
                    &&& a.height == r.rows.spec_areas()[2].height
                    &&& a.x >= r.inner.x
                    &&& a.x + a.width <= add_sat(r.inner.x, r.inner.width)
                },
    {
        let inner = bordered_inner(area);
        let has_strings = match self.mode {
            Mode::Free => false,
            _ => true,
        };
        let extents = row_extents(has_strings);
        let rows = split_vertical(inner, extents);
        let half_extents = vec![Extent::Percentage(50), Extent::Percentage(50)];
        assert(half_extents@ =~= spec_half_extents());
        let row = rows.areas()[2];
        let halves = split_horizontal(row, half_extents);
        ScreenLayout { inner, rows, halves }
    }
}

} // verus!
