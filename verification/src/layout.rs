//! Where the parts of the screen go.
use ratatui::layout::{Constraint, Layout, Rect};
use vstd::prelude::*;

verus! {

/// A rectangle of terminal cells.
#[derive(Clone, Copy, Debug, PartialEq, Eq, Structural)]
pub struct Area {
    pub x: u16,
    pub y: u16,
    pub width: u16,
    pub height: u16,
}

/// The way in which an area is cut: into rows or into columns.
#[derive(Clone, Copy, Debug, PartialEq, Eq, Structural)]
pub enum Axis {
    Vertical,
    Horizontal,
}

/// The size that a part asks for.
#[derive(Clone, Copy, Debug, PartialEq, Eq, Structural)]
pub enum Bound {
    /// This many cells.
    Length(u16),
    /// At least this many cells, and all that is left.
    Min(u16),
    /// This share of the whole, in hundredths.
    Percentage(u16),
}

/// The first cell of an area along an axis.
pub open spec fn start(axis: Axis, a: Area) -> int {
    match axis {
        Axis::Vertical => a.y as int,
        Axis::Horizontal => a.x as int,
    }
}

/// The number of cells of an area along an axis.
pub open spec fn size(axis: Axis, a: Area) -> int {
    match axis {
        Axis::Vertical => a.height as int,
        Axis::Horizontal => a.width as int,
    }
}

/// The first cell behind an area along an axis; no cell lies beyond the last
/// coordinate.
pub open spec fn end(axis: Axis, a: Area) -> int {
    if start(axis, a) + size(axis, a) > u16::MAX {
        u16::MAX as int
    } else {
        start(axis, a) + size(axis, a)
    }
}

/// The room of an area along an axis.
pub open spec fn room(axis: Axis, a: Area) -> int {
    end(axis, a) - start(axis, a)
}

/// A coordinate `by` further on, up to the last one.
pub open spec fn moved(coordinate: u16, by: u16) -> u16 {
    (if coordinate + by > u16::MAX {
        u16::MAX as int
    } else {
        coordinate + by
    }) as u16
}

/// What is left of an area inside a margin; nothing where the margins meet.
pub open spec fn inside(margin: u16, a: Area) -> Area {
    let both = moved(margin, margin);
    if a.width < both || a.height < both {
        Area { x: 0, y: 0, width: 0, height: 0 }
    } else {
        Area {
            x: moved(a.x, margin),
            y: moved(a.y, margin),
            width: (a.width - both) as u16,
            height: (a.height - both) as u16,
        }
    }
}

/// The rows of the screen: header, tabs, body and footer.
pub open spec fn row_bounds() -> Seq<Bound> {
    seq![Bound::Length(1), Bound::Length(2), Bound::Min(1), Bound::Length(1)]
}

/// The columns of the body: modules and content.
pub open spec fn column_bounds() -> Seq<Bound> {
    seq![Bound::Percentage(20), Bound::Percentage(80)]
}

/// The heights of the header, the tabs, the body and the footer. With five rows
/// or more the body has what the others leave. With fewer the body keeps its
/// row, and then the footer, the header and the tabs have theirs in this order.
pub open spec fn row_heights(rows: int) -> (int, int, int, int) {
    (
        if rows >= 3 {
            1
        } else {
            0
        },
        if rows >= 5 {
            2
        } else if rows == 4 {
            1
        } else {
            0
        },
        if rows >= 5 {
            rows - 4
        } else if rows >= 1 {
            1
        } else {
            0
        },
        if rows >= 2 {
            1
        } else {
            0
        },
    )
}

/// The part of `whole` that begins `from` rows below its top.
pub open spec fn row_part(whole: Area, from: int, height: int) -> Area {
    Area { y: (whole.y + from) as u16, height: height as u16, ..whole }
}

/// The parts into which `row_bounds` divide an area, from the top.
pub open spec fn rows_in(whole: Area) -> Seq<Area> {
    let (header, tabs, body, footer) = row_heights(room(Axis::Vertical, whole));
    seq![
        row_part(whole, 0, header),
        row_part(whole, header, tabs),
        row_part(whole, header + tabs, body),
        row_part(whole, header + tabs + body, footer),
    ]
}

/// A fifth of a width, to the nearest cell.
pub open spec fn fifth(width: int) -> int {
    (2 * width + 5) / 10
}

/// The parts into which `column_bounds` divide an area, from the left.
pub open spec fn columns_in(whole: Area) -> Seq<Area> {
    let width = room(Axis::Horizontal, whole);
    seq![
        Area { width: fifth(width) as u16, ..whole },
        Area {
            x: (whole.x + fifth(width)) as u16,
            width: (width - fifth(width)) as u16,
            ..whole
        },
    ]
}

/// Calls `ratatui::layout::Layout::split`, with the rows or the columns of the
/// screen. Trusted: the parts are those that `rows_in` or `columns_in` give for
/// the area inside the margin. The solver keeps the parts in order inside the
/// area without gaps and makes the weighted sum of what the bounds miss as small
/// as it can; a minimum weighs more than a length, a length more than growing,
/// and growing more than being as large as a neighbour. For these two lists one
/// division has the smallest sum, and its ends are rounded to the nearest cell:
/// with three rows the header and the tabs have half a row each, and the half is
/// rounded up to the header.
#[verifier::external_body]
fn split_area(axis: Axis, margin: u16, bounds: &Vec<Bound>, area: Area) -> (parts: Vec<Area>)
    requires
        match axis {
            Axis::Vertical => bounds@ == row_bounds(),
            Axis::Horizontal => bounds@ == column_bounds(),
        },
    ensures
        parts@ == (match axis {
            Axis::Vertical => rows_in(inside(margin, area)),
            Axis::Horizontal => columns_in(inside(margin, area)),
        }),
{
    let direction = match axis {
        Axis::Vertical => ratatui::layout::Direction::Vertical,
        Axis::Horizontal => ratatui::layout::Direction::Horizontal,
    };
    let constraints = bounds.iter().map(|b| match *b {
        Bound::Length(n) => Constraint::Length(n),
        Bound::Min(n) => Constraint::Min(n),
        Bound::Percentage(n) => Constraint::Percentage(n),
    });
    let rect = Rect { x: area.x, y: area.y, width: area.width, height: area.height };
    let layout = Layout::default().direction(direction).margin(margin).constraints(constraints);
    layout.split(rect).iter().map(|r| Area { x: r.x, y: r.y, width: r.width, height: r.height }).collect()
}

/// The areas of the screen's parts.
#[derive(Clone, Copy, Debug, PartialEq, Eq, Structural)]
pub struct ScreenAreas {
    pub header: Area,
    pub tabs: Area,
    pub body: Area,
    pub modules: Area,
    pub content: Area,
    pub footer: Area,
}

/// How a screen is divided: inside a margin of one cell into rows, and the body
/// into columns.
pub open spec fn areas_in(screen: Area) -> ScreenAreas {
    let rows = rows_in(inside(1, screen));
    let columns = columns_in(rows[2]);
    ScreenAreas {
        header: rows[0],
        tabs: rows[1],
        body: rows[2],
        modules: columns[0],
        content: columns[1],
        footer: rows[3],
    }
}

/// Divides the screen.
pub fn screen_areas(size: Area) -> (r: ScreenAreas)
    ensures
        r == areas_in(size),
{
    let rows = vec![Bound::Length(1), Bound::Length(2), Bound::Min(1), Bound::Length(1)];
    assert(rows@ =~= row_bounds());
    let chunks = split_area(Axis::Vertical, 1, &rows, size);
    let columns = vec![Bound::Percentage(20), Bound::Percentage(80)];
    assert(columns@ =~= column_bounds());
    let body = split_area(Axis::Horizontal, 0, &columns, chunks[2]);
    assert(inside(0, chunks@[2]) == chunks@[2]);
    ScreenAreas {
        header: chunks[0],
        tabs: chunks[1],
        body: chunks[2],
        modules: body[0],
        content: body[1],
        footer: chunks[3],
    }
}

/// Two areas have the same extent across an axis.
pub open spec fn aligned(axis: Axis, a: Area, b: Area) -> bool {
    match axis {
        Axis::Vertical => a.x == b.x && a.width == b.width,
        Axis::Horizontal => a.y == b.y && a.height == b.height,
    }
}

/// The parts cover the room of the area along an axis, each from where the one
/// before it ends, and the area's whole extent across it.
pub open spec fn parts_cover(axis: Axis, whole: Area, parts: Seq<Area>) -> bool {
    &&& parts.len() > 0
    &&& forall|i: int| 0 <= i < parts.len() ==> aligned(axis, #[trigger] parts[i], whole)
    &&& forall|i: int|
        0 <= i < parts.len() ==> start(axis, #[trigger] parts[i]) == (if i == 0 {
            start(axis, whole)
        } else {
            start(axis, parts[i - 1]) + size(axis, parts[i - 1])
        })
    &&& start(axis, parts.last()) + size(axis, parts.last()) == end(axis, whole)
}

/// The rows cover the screen inside its margin and the columns cover the body,
/// without gap or overlap.
pub proof fn parts_cover_the_screen(screen: Area)
    ensures
        ({
            let r = areas_in(screen);
            &&& parts_cover(
                Axis::Vertical,
                inside(1, screen),
                seq![r.header, r.tabs, r.body, r.footer],
            )
            &&& parts_cover(Axis::Horizontal, r.body, seq![r.modules, r.content])
        }),
{
}

/// However low the screen is, the body has a row as long as there is one.
pub proof fn body_keeps_its_row(screen: Area)
    requires
        room(Axis::Vertical, inside(1, screen)) > 0,
    ensures
        areas_in(screen).body.height > 0,
{
}

/// With five rows or more the header has one row, the tabs two, the footer one
/// and the body the rest.
pub proof fn high_screen_has_every_part(screen: Area)
    requires
        room(Axis::Vertical, inside(1, screen)) >= 5,
    ensures
        ({
            let r = areas_in(screen);
            &&& r.header.height == 1
            &&& r.tabs.height == 2
            &&& r.footer.height == 1
            &&& r.body.height == room(Axis::Vertical, inside(1, screen)) - 4
        }),
{
}

/// The inside of a screen lies one cell from each of its sides, but never begins
/// beyond the last coordinate.
pub proof fn margin_is_one_cell(screen: Area)
    requires
        screen.width >= 2,
        screen.height >= 2,
    ensures
        ({
            let i = inside(1, screen);
            &&& screen.x < u16::MAX ==> i.x == screen.x + 1
            &&& screen.x == u16::MAX ==> i.x == u16::MAX
            &&& screen.y < u16::MAX ==> i.y == screen.y + 1
            &&& screen.y == u16::MAX ==> i.y == u16::MAX
            &&& i.width == screen.width - 2
            &&& i.height == screen.height - 2
        }),
{
}

/// A screen that its margin fills has no room inside, and without a margin all of
/// an area is inside.
pub proof fn margin_may_leave_nothing(screen: Area)
    ensures
        screen.width < 2 || screen.height < 2 ==> inside(1, screen).width == 0 && inside(
            1,
            screen,
        ).height == 0 && inside(1, screen).x == 0 && inside(1, screen).y == 0,
        inside(0, screen) == screen,
{
}

/// The modules have the fifth of the body's width that is nearest, and the
/// content the rest.
pub proof fn modules_have_a_fifth(screen: Area)
    ensures
        ({
            let r = areas_in(screen);
            let width = room(Axis::Horizontal, r.body);
            &&& width - 2 <= 5 * r.modules.width <= width + 2
            &&& r.modules.width + r.content.width == width
        }),
{
}

/// A part less high than it should be is one of a low screen, on which the parts
/// come in the order body, footer, header, tabs.
pub proof fn low_screen_drops_parts_in_order(screen: Area)
    ensures
        ({
            let r = areas_in(screen);
            let rows = room(Axis::Vertical, inside(1, screen));
            &&& r.footer.height == 1 <==> rows >= 2
            &&& r.header.height == 1 <==> rows >= 3
            &&& r.tabs.height >= 1 <==> rows >= 4
            &&& r.tabs.height == 2 <==> rows >= 5
            &&& rows < 5 ==> r.body.height <= 1
            &&& r.header.height + r.tabs.height + r.body.height + r.footer.height == rows
        }),
{
}

}
