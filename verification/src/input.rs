use vstd::prelude::*;

verus! {

/// The pointer lies inside the board rectangle; a point exactly on the
/// far edge still counts as inside.
pub open spec fn in_rect(px: int, py: int, rx: int, ry: int, width: int, height: int) -> bool {
    &&& rx <= px <= rx + width
    &&& ry <= py <= ry + height
}

/// A cell index from an offset into a span split into three uniform
/// cells, clamped so that a point exactly on the far edge falls in the
/// last cell.
pub open spec fn mapped_index(offset: int, span: int) -> int {
    let raw = offset * 3 / span;
    if raw > 2 {
        2
    } else {
        raw
    }
}

/// Maps a pointer position to the board cell it targets, as a
/// (column, row) pair, or none when the pointer lies outside the board
/// rectangle. The rectangle sits at (rx, ry) with the given width and
/// height and is divided into a uniform 3x3 grid.
pub fn map_pointer_to_cell(px: u32, py: u32, rx: u32, ry: u32, width: u32, height: u32) -> (r:
    Option<(usize, usize)>)
    requires
        width > 0,
        height > 0,
    ensures
        r is Some <==> in_rect(px as int, py as int, rx as int, ry as int, width as int, height as int),
        r is Some ==> r->Some_0.0 == mapped_index(px - rx, width as int),
        r is Some ==> r->Some_0.1 == mapped_index(py - ry, height as int),
        r is Some ==> r->Some_0.0 < 3 && r->Some_0.1 < 3,
{
    if px < rx || py < ry {
        return None;
    }
    if (px as u64) > (rx as u64) + (width as u64) || (py as u64) > (ry as u64) + (height as u64) {
        return None;
    }
    let dx: u64 = (px - rx) as u64;
    let dy: u64 = (py - ry) as u64;
    let raw_col: u64 = dx * 3 / (width as u64);
    let raw_row: u64 = dy * 3 / (height as u64);
    let cell_x: usize = if raw_col > 2 {
        2
    } else {
        raw_col as usize
    };
    let cell_y: usize = if raw_row > 2 {
        2
    } else {
        raw_row as usize
    };
    Some((cell_x, cell_y))
}

} // verus!
