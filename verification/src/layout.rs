//! Where the popups stand on the screen.
use vstd::prelude::*;

verus! {

/// A rectangle of terminal cells: its top-left corner and its size.
#[derive(Clone, Copy, Debug, PartialEq, Eq, Structural)]
pub struct Area {
    pub x: u16,
    pub y: u16,
    pub width: u16,
    pub height: u16,
}

/// `inner` lies within `outer`, for an `outer` that does not run past the
/// last cell that a `u16` can address.
pub open spec fn within(inner: Area, outer: Area) -> bool {
    (outer.x + outer.width <= u16::MAX && outer.y + outer.height <= u16::MAX) ==> {
        &&& outer.x <= inner.x && inner.x + inner.width <= outer.x + outer.width
        &&& outer.y <= inner.y && inner.y + inner.height <= outer.y + outer.height
    }
}

/// An area that does not run past the last cell that a `u16` can address.
pub open spec fn addressable(a: Area) -> bool {
    a.x + a.width <= u16::MAX && a.y + a.height <= u16::MAX
}

/// Where a stretch of `len` cells starts when it is centred in the stretch of
/// `outer_len` cells from `outer_start`: an odd free cell goes before it.
pub open spec fn centred_start(outer_start: int, outer_len: int, len: int) -> int {
    outer_start + (outer_len - len + 1) / 2
}

/// The smaller of `a` and `b`.
pub open spec fn min_u16(a: u16, b: u16) -> u16 {
    if a < b { a } else { b }
}

/// Centres a band `height` rows high, or as high as `area` if that is less,
/// in `area`, top to bottom.
///
/// Calls ratatui's `Layout::vertical` with one `Constraint::Max(height)` and
/// `Flex::Center`, and takes the one area that `Layout::areas` returns. The
/// source builds each vertical segment with the column and width of the area
/// it splits, and holds every segment's ends, as a required constraint,
/// within that area. The `Max` limit is a strong constraint that the solver
/// never pushes past; its preference for exactly the given size outweighs
/// the spacers' pull, so the band takes the given height where the area is
/// high enough and the whole height otherwise, and `Flex::Center` holds the
/// spacers above and below equal. Rounding to whole cells, half away from
/// zero, gives an odd leftover row to the spacer above. That optimum is unique, so the order in which the
/// solver walks its hash maps does not change it. ratatui documents the same
/// for `Max` with `Flex::Center`. The size and the centring are stated for an
/// area that does not run past the last addressable row or column, where the
/// source cuts the area's far edge at the `u16` limit.
#[verifier::external_body]
fn center_vertically(area: Area, height: u16) -> (r: Area)
    ensures
        r.x == area.x,
        r.width == area.width,
        within(r, area),
        r.height <= height,
        addressable(area) ==> r.height == min_u16(height, area.height),
        addressable(area) ==> r.y == centred_start(area.y as int, area.height as int, r.height as int),
{
    let rect = ratatui::layout::Rect { x: area.x, y: area.y, width: area.width, height: area.height };
    let layout = ratatui::layout::Layout::vertical([ratatui::layout::Constraint::Max(height)]);
    let [r] = layout.flex(ratatui::layout::Flex::Center).areas(rect);
    Area { x: r.x, y: r.y, width: r.width, height: r.height }
}

/// Centres a band `width` columns wide, or as wide as `area` if that is less,
/// in `area`, left to right.
///
/// Calls ratatui's `Layout::horizontal` with one `Constraint::Max(width)` and
/// `Flex::Center`, and takes the one area that `Layout::areas` returns. The
/// source builds each horizontal segment with the row and height of the area
/// it splits, and holds every segment's ends, as a required constraint,
/// within that area. The `Max` limit is a strong constraint that the solver
/// never pushes past; its preference for exactly the given size outweighs
/// the spacers' pull, so the band takes the given width where the area is
/// wide enough and the whole width otherwise, and `Flex::Center` holds the
/// spacers left and right equal. Rounding to whole cells, half away from
/// zero, gives an odd leftover column to the spacer on the left. That optimum is unique, so the order in which the
/// solver walks its hash maps does not change it. ratatui documents the same
/// for `Max` with `Flex::Center`. The size and the centring are stated for an
/// area that does not run past the last addressable row or column, where the
/// source cuts the area's far edge at the `u16` limit.
#[verifier::external_body]
fn center_horizontally(area: Area, width: u16) -> (r: Area)
    ensures
        r.y == area.y,
        r.height == area.height,
        within(r, area),
        r.width <= width,
        addressable(area) ==> r.width == min_u16(width, area.width),
        addressable(area) ==> r.x == centred_start(area.x as int, area.width as int, r.width as int),
{
    let rect = ratatui::layout::Rect { x: area.x, y: area.y, width: area.width, height: area.height };
    let layout = ratatui::layout::Layout::horizontal([ratatui::layout::Constraint::Max(width)]);
    let [r] = layout.flex(ratatui::layout::Flex::Center).areas(rect);
    Area { x: r.x, y: r.y, width: r.width, height: r.height }
}

/// The area of a popup `width` by `height` cells, cut down to fit in `area`,
/// centred in `area`: first centred top to bottom, then left to right within
/// that band. It lies within `area` and stands centred in it both ways; an
/// odd free row goes above it and an odd free column to its left.
pub fn popup_area(area: Area, width: u16, height: u16) -> (r: Area)
    ensures
        within(r, area),
        r.width <= width,
        r.height <= height,
        addressable(area) ==> r.width == min_u16(width, area.width),
        addressable(area) ==> r.height == min_u16(height, area.height),
        addressable(area) ==> r.x == centred_start(area.x as int, area.width as int, r.width as int),
        addressable(area) ==> r.y == centred_start(area.y as int, area.height as int, r.height as int),
{
    let band = center_vertically(area, height);
    center_horizontally(band, width)
}

} // verus!
