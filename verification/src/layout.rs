//! Geometry of the panes: where the pop-ups go, how many lines a pane shows
//! and where the text cursor of an input line stands.

use vstd::prelude::*;
use ratatui::layout::{Constraint, Direction, Layout, Rect};

verus! {

/// A rectangle of terminal cells.
#[derive(Clone, Copy, Debug, PartialEq, Eq, Structural)]
pub struct Area {
    pub x: u16,
    pub y: u16,
    pub width: u16,
    pub height: u16,
}

/// The axis along which an area is split.
#[derive(Clone, Copy, Debug, PartialEq, Eq, Structural)]
pub enum SplitDirection {
    Horizontal,
    Vertical,
}

/// The size asked for one part of a split.
#[derive(Clone, Copy, Debug, PartialEq, Eq, Structural)]
pub enum LayoutConstraint {
    Length(u16),
    Min(u16),
    Percentage(u16),
}

/// `area` less a margin of `horizontal` columns left and right and
/// `vertical` rows above and below; nothing when the margins do not fit.
pub open spec fn margin_inner(area: Area, horizontal: u16, vertical: u16) -> Area {
    let h2: int = if 2 * horizontal > u16::MAX { u16::MAX as int } else { 2 * horizontal };
    let v2: int = if 2 * vertical > u16::MAX { u16::MAX as int } else { 2 * vertical };
    if area.width < h2 || area.height < v2 {
        Area { x: 0, y: 0, width: 0, height: 0 }
    } else {
        Area {
            x: if area.x + horizontal > u16::MAX { u16::MAX } else { (area.x + horizontal) as u16 },
            y: if area.y + vertical > u16::MAX { u16::MAX } else { (area.y + vertical) as u16 },
            width: (area.width - h2) as u16,
            height: (area.height - v2) as u16,
        }
    }
}

/// Where `a` starts along `direction`.
pub open spec fn start_along(direction: SplitDirection, a: Area) -> int {
    match direction {
        SplitDirection::Horizontal => a.x as int,
        SplitDirection::Vertical => a.y as int,
    }
}

/// How far `a` reaches along `direction`.
pub open spec fn extent_along(direction: SplitDirection, a: Area) -> int {
    match direction {
        SplitDirection::Horizontal => a.width as int,
        SplitDirection::Vertical => a.height as int,
    }
}

/// The layouts that this library asks ratatui for: two percentages that add
/// up to a hundred, and the fixed sets of the top bar, the main screen, the
/// now-playing pane, the grouping pop-up and the help pop-up. For these the
/// solver's weighted constraints have a single optimum, so that which of
/// several equal optima its pivoting (over hash maps seeded per process)
/// reaches does not arise.
pub open spec fn settled_layout(
    direction: SplitDirection,
    horizontal_margin: u16,
    vertical_margin: u16,
    constraints: Seq<LayoutConstraint>,
) -> bool {
    let v = SplitDirection::Vertical;
    let h = SplitDirection::Horizontal;
    let margins = (horizontal_margin, vertical_margin);
    ||| margins == (0u16, 0u16) && constraints.len() == 2 && (match (constraints[0], constraints[1]) {
        (LayoutConstraint::Percentage(a), LayoutConstraint::Percentage(b)) => a + b == 100,
        _ => false,
    })
    ||| direction == v && margins == (0u16, 0u16) && constraints == seq![
        LayoutConstraint::Length(3),
        LayoutConstraint::Min(3),
    ]
    ||| direction == v && margins == (2u16, 1u16) && constraints == seq![
        LayoutConstraint::Min(8),
        LayoutConstraint::Length(7),
    ]
    ||| direction == v && margins == (0u16, 0u16) && constraints == seq![
        LayoutConstraint::Min(3),
        LayoutConstraint::Length(2),
    ]
    ||| direction == h && margins == (0u16, 0u16) && constraints == seq![
        LayoutConstraint::Min(20),
        LayoutConstraint::Length(14),
    ]
    ||| direction == v && margins == (1u16, 0u16) && constraints == seq![
        LayoutConstraint::Min(2),
        LayoutConstraint::Min(5),
    ]
    ||| direction == h && margins == (2u16, 1u16) && constraints == seq![
        LayoutConstraint::Percentage(100),
    ]
    ||| direction == h && margins == (2u16, 0u16) && constraints == seq![
        LayoutConstraint::Percentage(33),
        LayoutConstraint::Percentage(33),
        LayoutConstraint::Percentage(33),
    ]
}

/// The parts that ratatui's layout solver cuts `area` into along
/// `direction`, inside the margins, one for each constraint, for the
/// layouts of `settled_layout`.
pub uninterp spec fn layout_split(
    direction: SplitDirection,
    horizontal_margin: u16,
    vertical_margin: u16,
    constraints: Seq<LayoutConstraint>,
    area: Area,
) -> Seq<Area>;

/// `ratatui::layout::Layout::split` (0.26) on a default layout (`Flex::Start`,
/// no spacing) with the given direction, margins and constraints. For the
/// layouts of `settled_layout` the result is named: the weighted constraints
/// have one optimum, which ratatui's cassowary-based solver finds from these
/// arguments alone. The contract states what ratatui's source fixes besides
/// (`try_split`, `changes_to_rects`, `Rect::inner`): one part per constraint;
/// each part spans the area inside the margins across the split direction;
/// along it, each part lies inside that inner area and the parts come in
/// order, each ending where or before the next begins (the solver's
/// required constraints). That `try_split`, which `split` unwraps, never
/// fails is not stated.
#[verifier::external_body]
fn split_area(
    direction: SplitDirection,
    horizontal_margin: u16,
    vertical_margin: u16,
    constraints: &[LayoutConstraint],
    area: Area,
) -> (res: Vec<Area>)
    requires
        settled_layout(direction, horizontal_margin, vertical_margin, constraints@),
    ensures
        res@ == layout_split(direction, horizontal_margin, vertical_margin, constraints@, area),
        res@.len() == constraints@.len(),
        forall|i: int|
            0 <= i < res@.len() ==> (direction == SplitDirection::Vertical ==> (#[trigger] res@[i]).x
                == margin_inner(area, horizontal_margin, vertical_margin).x && res@[i].width
                == margin_inner(area, horizontal_margin, vertical_margin).width) && (direction
                == SplitDirection::Horizontal ==> res@[i].y == margin_inner(
                area,
                horizontal_margin,
                vertical_margin,
            ).y && res@[i].height == margin_inner(area, horizontal_margin, vertical_margin).height),
        forall|i: int|
            0 <= i < res@.len() ==> start_along(
                direction,
                margin_inner(area, horizontal_margin, vertical_margin),
            ) <= start_along(direction, #[trigger] res@[i]) && start_along(direction, res@[i])
                + extent_along(direction, res@[i]) <= start_along(
                direction,
                margin_inner(area, horizontal_margin, vertical_margin),
            ) + extent_along(direction, margin_inner(area, horizontal_margin, vertical_margin)),
        forall|i: int|
            1 <= i < res@.len() ==> start_along(direction, res@[i - 1]) + extent_along(
                direction,
                res@[i - 1],
            ) <= start_along(direction, #[trigger] res@[i]),
{
    let d = match direction {
        SplitDirection::Horizontal => Direction::Horizontal,
        SplitDirection::Vertical => Direction::Vertical,
    };
    let cs = constraints.iter().map(|c| match *c {
        LayoutConstraint::Length(n) => Constraint::Length(n),
        LayoutConstraint::Min(n) => Constraint::Min(n),
        LayoutConstraint::Percentage(n) => Constraint::Percentage(n),
    });
    let rect = Rect { x: area.x, y: area.y, width: area.width, height: area.height };
    let layout = Layout::default().direction(d).horizontal_margin(horizontal_margin);
    let parts = layout.vertical_margin(vertical_margin).constraints(cs).split(rect);
    parts.iter().map(|r| Area { x: r.x, y: r.y, width: r.width, height: r.height }).collect()
}

/// The clipped width and height of `ratatui::layout::Rect::new` for an area
/// larger than `u16::MAX` cells.
pub uninterp spec fn rect_new_clipped(width: u16, height: u16) -> (u16, u16);

/// `ratatui::layout::Rect::new` (0.26): the rectangle at `x`, `y` of the given
/// size, which ratatui keeps as it is while its area fits in a `u16` and
/// otherwise shrinks, keeping the aspect ratio, by a floating-point
/// computation of the size alone (named here, not written out).
#[verifier::external_body]
fn rect_new(x: u16, y: u16, width: u16, height: u16) -> (res: Area)
    ensures
        res.x == x,
        res.y == y,
        width * height <= u16::MAX ==> res.width == width && res.height == height,
        width * height > u16::MAX ==> (res.width, res.height) == rect_new_clipped(width, height),
{
    let r = Rect::new(x, y, width, height);
    Area { x: r.x, y: r.y, width: r.width, height: r.height }
}

/// The top bar of three lines in which the input prompt opens.
pub fn upper_bar(rect: Area) -> (res: Area)
    ensures
        res == layout_split(
            SplitDirection::Vertical,
            0,
            0,
            seq![LayoutConstraint::Length(3), LayoutConstraint::Min(3)],
            rect,
        )[0],
        res.x == rect.x,
        res.width == rect.width,
        rect.y <= res.y,
        res.y + res.height <= rect.y + rect.height,
{
    let constraints = [LayoutConstraint::Length(3), LayoutConstraint::Min(3)];
    assert(constraints@ =~= seq![LayoutConstraint::Length(3), LayoutConstraint::Min(3)]);
    let parts = split_area(SplitDirection::Vertical, 0, 0, &constraints, rect);
    assert(margin_inner(rect, 0, 0) == rect);
    parts[0]
}

/// The bottom-right corner of `rect`, `percent_x` of its width and
/// `percent_y` of its height, in which the zone pop-ups open.
pub open spec fn bottom_right(percent_x: u16, percent_y: u16, rect: Area) -> Area {
    let lower = layout_split(
        SplitDirection::Vertical,
        0,
        0,
        seq![
            LayoutConstraint::Percentage((100 - percent_y) as u16),
            LayoutConstraint::Percentage(percent_y),
        ],
        rect,
    )[1];
    layout_split(
        SplitDirection::Horizontal,
        0,
        0,
        seq![
            LayoutConstraint::Percentage((100 - percent_x) as u16),
            LayoutConstraint::Percentage(percent_x),
        ],
        lower,
    )[1]
}

/// The area of a pop-up in the bottom-right corner of `rect`.
pub fn bottom_right_rect(percent_x: u16, percent_y: u16, rect: Area) -> (res: Area)
    requires
        percent_x <= 100,
        percent_y <= 100,
    ensures
        res == bottom_right(percent_x, percent_y, rect),
        rect.x <= res.x,
        res.x + res.width <= rect.x + rect.width,
        rect.y <= res.y,
        res.y + res.height <= rect.y + rect.height,
{
    let rows = [LayoutConstraint::Percentage(100 - percent_y), LayoutConstraint::Percentage(percent_y)];
    assert(rows@ =~= seq![
        LayoutConstraint::Percentage((100 - percent_y) as u16),
        LayoutConstraint::Percentage(percent_y),
    ]);
    let rows_split = split_area(SplitDirection::Vertical, 0, 0, &rows, rect);
    let lower = rows_split[1];
    assert(margin_inner(rect, 0, 0) == rect);
    assert(margin_inner(lower, 0, 0) == lower);
    let cols = [LayoutConstraint::Percentage(100 - percent_x), LayoutConstraint::Percentage(percent_x)];
    assert(cols@ =~= seq![
        LayoutConstraint::Percentage((100 - percent_x) as u16),
        LayoutConstraint::Percentage(percent_x),
    ]);
    split_area(SplitDirection::Horizontal, 0, 0, &cols, lower)[1]
}

/// The three panes of the main screen.
#[derive(Clone, Copy, Debug, PartialEq, Eq, Structural)]
pub struct ScreenAreas {
    pub browse: Area,
    pub queue: Area,
    pub now_playing: Area,
}

/// The rows of the main screen inside its frame: the browse and queue panes
/// (at least eight lines) over the now-playing pane (seven lines).
pub open spec fn screen_rows(size: Area) -> Seq<Area> {
    layout_split(
        SplitDirection::Vertical,
        2,
        1,
        seq![LayoutConstraint::Min(8), LayoutConstraint::Length(7)],
        size,
    )
}

/// The halves of the top row: browse on the left, queue on the right.
pub open spec fn top_halves(row: Area) -> Seq<Area> {
    layout_split(
        SplitDirection::Horizontal,
        0,
        0,
        seq![LayoutConstraint::Percentage(50), LayoutConstraint::Percentage(50)],
        row,
    )
}

/// Where the panes of the main screen go in a terminal of `size`.
pub fn screen_areas(size: Area) -> (res: ScreenAreas)
    ensures
        res == (ScreenAreas {
            browse: top_halves(screen_rows(size)[0])[0],
            queue: top_halves(screen_rows(size)[0])[1],
            now_playing: screen_rows(size)[1],
        }),
        res.now_playing.x == margin_inner(size, 2, 1).x,
        res.now_playing.width == margin_inner(size, 2, 1).width,
        res.browse.y == res.queue.y,
        res.browse.height == res.queue.height,
        res.browse.x + res.browse.width <= res.queue.x,
        res.browse.y + res.browse.height <= res.now_playing.y,
{
    let rows = [LayoutConstraint::Min(8), LayoutConstraint::Length(7)];
    assert(rows@ =~= seq![LayoutConstraint::Min(8), LayoutConstraint::Length(7)]);
    let chunks = split_area(SplitDirection::Vertical, 2, 1, &rows, size);
    let halves = [LayoutConstraint::Percentage(50), LayoutConstraint::Percentage(50)];
    assert(halves@ =~= seq![LayoutConstraint::Percentage(50), LayoutConstraint::Percentage(50)]);
    let top = split_area(SplitDirection::Horizontal, 0, 0, &halves, chunks[0]);
    ScreenAreas { browse: top[0], queue: top[1], now_playing: chunks[1] }
}

/// The parts of the now-playing pane: the track's lines, the status column
/// (fourteen columns) beside them, and the gauge row (two lines) below.
#[derive(Clone, Copy, Debug, PartialEq, Eq, Structural)]
pub struct NowPlayingAreas {
    pub track: Area,
    pub status: Area,
    pub gauge: Area,
}

/// The rows of the now-playing pane: text, then the gauge.
pub open spec fn now_playing_rows(area: Area) -> Seq<Area> {
    layout_split(
        SplitDirection::Vertical,
        0,
        0,
        seq![LayoutConstraint::Min(3), LayoutConstraint::Length(2)],
        area,
    )
}

/// The columns of the now-playing pane's text row: track, then status.
pub open spec fn now_playing_columns(row: Area) -> Seq<Area> {
    layout_split(
        SplitDirection::Horizontal,
        0,
        0,
        seq![LayoutConstraint::Min(20), LayoutConstraint::Length(14)],
        row,
    )
}

/// Where the parts of the now-playing pane go in `area`.
pub fn now_playing_areas(area: Area) -> (res: NowPlayingAreas)
    ensures
        res == (NowPlayingAreas {
            track: now_playing_columns(now_playing_rows(area)[0])[0],
            status: now_playing_columns(now_playing_rows(area)[0])[1],
            gauge: now_playing_rows(area)[1],
        }),
{
    let rows = [LayoutConstraint::Min(3), LayoutConstraint::Length(2)];
    assert(rows@ =~= seq![LayoutConstraint::Min(3), LayoutConstraint::Length(2)]);
    let vert = split_area(SplitDirection::Vertical, 0, 0, &rows, area);
    let cols = [LayoutConstraint::Min(20), LayoutConstraint::Length(14)];
    assert(cols@ =~= seq![LayoutConstraint::Min(20), LayoutConstraint::Length(14)]);
    let hor = split_area(SplitDirection::Horizontal, 0, 0, &cols, vert[0]);
    NowPlayingAreas { track: hor[0], status: hor[1], gauge: vert[1] }
}

/// The rows of the grouping pop-up inside a margin of one column: the name
/// (at least two lines) over the output list (at least five).
pub open spec fn grouping_rows(area: Area) -> Seq<Area> {
    layout_split(
        SplitDirection::Vertical,
        1,
        0,
        seq![LayoutConstraint::Min(2), LayoutConstraint::Min(5)],
        area,
    )
}

/// Where the name and the output list of the grouping pop-up go in `area`;
/// the list leaves out the last line of its row.
pub fn grouping_areas(area: Area) -> (res: (Area, Area))
    ensures
        res.0 == grouping_rows(area)[0],
        res.1.x == grouping_rows(area)[1].x,
        res.1.y == grouping_rows(area)[1].y,
        ({
            let row = grouping_rows(area)[1];
            let h: u16 = if row.height >= 1 { (row.height - 1) as u16 } else { 0 };
            if row.width * h <= u16::MAX {
                res.1.width == row.width && res.1.height == h
            } else {
                (res.1.width, res.1.height) == rect_new_clipped(row.width, h)
            }
        }),
{
    let rows = [LayoutConstraint::Min(2), LayoutConstraint::Min(5)];
    assert(rows@ =~= seq![LayoutConstraint::Min(2), LayoutConstraint::Min(5)]);
    let vchunks = split_area(SplitDirection::Vertical, 1, 0, &rows, area);
    let list = rect_new(vchunks[1].x, vchunks[1].y, vchunks[1].width, vchunks[1].height.saturating_sub(1));
    (vchunks[0], list)
}

/// The frame of the help pop-up inside `area`, two columns and one row in.
pub open spec fn help_frame(area: Area) -> Area {
    layout_split(SplitDirection::Horizontal, 2, 1, seq![LayoutConstraint::Percentage(100)], area)[0]
}

/// The three text columns of the help pop-up in its frame.
pub open spec fn help_text_columns(frame: Area) -> Seq<Area> {
    layout_split(
        SplitDirection::Horizontal,
        2,
        0,
        seq![
            LayoutConstraint::Percentage(33),
            LayoutConstraint::Percentage(33),
            LayoutConstraint::Percentage(33),
        ],
        frame,
    )
}

/// Where the help pop-up and its three columns go in `area`.
pub fn help_areas(area: Area) -> (res: (Area, Vec<Area>))
    ensures
        res.0 == help_frame(area),
        res.1@ == help_text_columns(help_frame(area)),
        res.1@.len() == 3,
{
    let frame_constraint = [LayoutConstraint::Percentage(100)];
    assert(frame_constraint@ =~= seq![LayoutConstraint::Percentage(100)]);
    let chunk = split_area(SplitDirection::Horizontal, 2, 1, &frame_constraint, area);
    let thirds = [
        LayoutConstraint::Percentage(33),
        LayoutConstraint::Percentage(33),
        LayoutConstraint::Percentage(33),
    ];
    assert(thirds@ =~= seq![
        LayoutConstraint::Percentage(33),
        LayoutConstraint::Percentage(33),
        LayoutConstraint::Percentage(33),
    ]);
    let columns = split_area(SplitDirection::Horizontal, 2, 0, &thirds, chunk[0]);
    (chunk[0], columns)
}

/// The number of lines inside a bordered pane of `height` lines.
pub fn inner_lines(height: u16) -> (res: usize)
    ensures
        res == (if height >= 2 { height - 2 } else { 0 }),
{
    height.saturating_sub(2) as usize
}

/// The width of the text of a queue entry in a pane `width` columns wide,
/// without the borders and the highlight mark.
pub fn queue_item_width(width: u16) -> (res: usize)
    ensures
        res == (if width >= 6 { width - 6 } else { 0 }),
{
    width.saturating_sub(6) as usize
}

/// The room for the typed text in an input line `area`, with `reserved`
/// columns taken by its frame.
pub open spec fn input_room(area: Area, reserved: u16) -> int {
    if area.width >= reserved { area.width - reserved } else { 0 }
}

/// The cursor column offset for a cursor at `cursor` in an input line with
/// `room` columns for text: the cursor never leaves the text's room.
pub open spec fn clamped_cursor(cursor: int, room: int) -> int {
    if cursor > room { room } else { cursor }
}

/// The input line in `area`: the longest text it takes, and the column and
/// row of the text cursor, which stands `x_offset` columns after the area's
/// left edge plus the cursor position, kept within the text's room, on the
/// area's second row.
pub fn input_cursor(area: Area, cursor: usize, reserved: u16, x_offset: u16) -> (res: (usize, u16, u16))
    requires
        area.x + clamped_cursor(cursor as int, input_room(area, reserved)) + x_offset <= u16::MAX,
        area.y + 1 <= u16::MAX,
    ensures
        res.0 == input_room(area, reserved),
        res.1 == area.x + clamped_cursor(cursor as int, input_room(area, reserved)) + x_offset,
        res.2 == area.y + 1,
{
    let max_len = area.width.saturating_sub(reserved) as usize;
    let position = if cursor > max_len { max_len } else { cursor };
    (max_len, area.x + position as u16 + x_offset, area.y + 1)
}

/// The text cursor stays within the input's room, and stands where the
/// cursor position says as long as that lies within the room.
pub proof fn law_cursor_within_room(cursor: int, room: int)
    requires
        0 <= cursor,
        0 <= room,
    ensures
        0 <= clamped_cursor(cursor, room) <= room,
        cursor <= room ==> clamped_cursor(cursor, room) == cursor,
{
}

} // verus!
