use vstd::prelude::*;

use crate::cell::Cell;

verus! {

/// The box-drawing glyph for a wall crossing, selected by which of the four
/// directions carry a wall stub.
pub open spec fn wall_symbol(up: bool, down: bool, left: bool, right: bool) -> char {
    if up && down && left && right {
        '╋'
    } else if !up && down && left && right {
        '┳'
    } else if up && !down && left && right {
        '┻'
    } else if !up && !down && left && right {
        '━'
    } else if up && down && !left && right {
        '┣'
    } else if !up && down && !left && right {
        '┏'
    } else if up && !down && !left && right {
        '┗'
    } else if !up && !down && !left && right {
        '╺'
    } else if up && down && left && !right {
        '┫'
    } else if !up && down && left && !right {
        '┓'
    } else if up && !down && left && !right {
        '┛'
    } else if !up && !down && left && !right {
        '╸'
    } else if up && down && !left && !right {
        '┃'
    } else if !up && down && !left && !right {
        '╻'
    } else if up && !down && !left && !right {
        '╹'
    } else {
        ' '
    }
}

/// The lighter connector glyph drawn inside a visited cell, selected by which
/// of the four directions carry a path or route connector.
pub open spec fn path_symbol(up: bool, down: bool, left: bool, right: bool) -> char {
    if up && down && left && right {
        '┼'
    } else if !up && down && left && right {
        '┬'
    } else if up && !down && left && right {
        '┴'
    } else if !up && !down && left && right {
        '─'
    } else if up && down && !left && right {
        '├'
    } else if !up && down && !left && right {
        '┌'
    } else if up && !down && !left && right {
        '└'
    } else if !up && !down && !left && right {
        '╶'
    } else if up && down && left && !right {
        '┤'
    } else if !up && down && left && !right {
        '┐'
    } else if up && !down && left && !right {
        '┘'
    } else if !up && !down && left && !right {
        '╴'
    } else if up && down && !left && !right {
        '│'
    } else if !up && down && !left && !right {
        '╷'
    } else if up && !down && !left && !right {
        '╵'
    } else {
        ' '
    }
}

/// Executable form of [`wall_symbol`].
pub fn get_wall_symbol(up: bool, down: bool, left: bool, right: bool) -> (c: char)
    ensures
        c == wall_symbol(up, down, left, right),
{
    if up && down && left && right {
        '╋'
    } else if !up && down && left && right {
        '┳'
    } else if up && !down && left && right {
        '┻'
    } else if !up && !down && left && right {
        '━'
    } else if up && down && !left && right {
        '┣'
    } else if !up && down && !left && right {
        '┏'
    } else if up && !down && !left && right {
        '┗'
    } else if !up && !down && !left && right {
        '╺'
    } else if up && down && left && !right {
        '┫'
    } else if !up && down && left && !right {
        '┓'
    } else if up && !down && left && !right {
        '┛'
    } else if !up && !down && left && !right {
        '╸'
    } else if up && down && !left && !right {
        '┃'
    } else if !up && down && !left && !right {
        '╻'
    } else if up && !down && !left && !right {
        '╹'
    } else {
        ' '
    }
}

/// Executable form of [`path_symbol`].
pub fn get_path_symbol(up: bool, down: bool, left: bool, right: bool) -> (c: char)
    ensures
        c == path_symbol(up, down, left, right),
{
    if up && down && left && right {
        '┼'
    } else if !up && down && left && right {
        '┬'
    } else if up && !down && left && right {
        '┴'
    } else if !up && !down && left && right {
        '─'
    } else if up && down && !left && right {
        '├'
    } else if !up && down && !left && right {
        '┌'
    } else if up && !down && !left && right {
        '└'
    } else if !up && !down && !left && right {
        '╶'
    } else if up && down && left && !right {
        '┤'
    } else if !up && down && left && !right {
        '┐'
    } else if up && !down && left && !right {
        '┘'
    } else if !up && !down && left && !right {
        '╴'
    } else if up && down && !left && !right {
        '│'
    } else if !up && down && !left && !right {
        '╷'
    } else if up && !down && !left && !right {
        '╵'
    } else {
        ' '
    }
}

/// A path connector leaves cell `i` upward: the shared edge has no wall, both
/// cells exist, and both are on the path.
pub open spec fn path_conn_up(cells: Seq<Cell>, width: int, i: int) -> bool {
    i >= width && !cells[i].up && cells[i].path && cells[i - width].path
}

/// A path connector leaves cell `i` downward.
pub open spec fn path_conn_down(cells: Seq<Cell>, width: int, i: int) -> bool {
    i + width < cells.len() && !cells[i].down && cells[i].path && cells[i + width].path
}

/// A path connector leaves cell `i` leftward.
pub open spec fn path_conn_left(cells: Seq<Cell>, width: int, i: int) -> bool {
    i % width != 0 && !cells[i].left && cells[i].path && cells[i - 1].path
}

/// A path connector leaves cell `i` rightward.
pub open spec fn path_conn_right(cells: Seq<Cell>, width: int, i: int) -> bool {
    i % width != width - 1 && !cells[i].right && cells[i].path && cells[i + 1].path
}

/// A route connector leaves cell `i` upward.
pub open spec fn route_conn_up(cells: Seq<Cell>, width: int, i: int) -> bool {
    i >= width && !cells[i].up && cells[i].route && cells[i - width].route
}

/// A route connector leaves cell `i` downward.
pub open spec fn route_conn_down(cells: Seq<Cell>, width: int, i: int) -> bool {
    i + width < cells.len() && !cells[i].down && cells[i].route && cells[i + width].route
}

/// A route connector leaves cell `i` leftward.
pub open spec fn route_conn_left(cells: Seq<Cell>, width: int, i: int) -> bool {
    i % width != 0 && !cells[i].left && cells[i].route && cells[i - 1].route
}

/// A route connector leaves cell `i` rightward.
pub open spec fn route_conn_right(cells: Seq<Cell>, width: int, i: int) -> bool {
    i % width != width - 1 && !cells[i].right && cells[i].route && cells[i + 1].route
}

/// Index facts for a row-major grid whose length is a multiple of `width`.
pub proof fn lemma_row_index(width: int, len: int, i: int)
    by (nonlinear_arith)
    requires
        0 < width,
        0 <= i < len,
        len % width == 0,
    ensures
        i % width != 0 ==> 1 <= i,
        i % width != width - 1 ==> i + 1 < len,
{
}

/// Index facts for a `width * height` row-major grid.
pub proof fn lemma_grid_index(width: int, height: int, i: int)
    by (nonlinear_arith)
    requires
        0 < width,
        0 <= i < width * height,
    ensures
        i / width < height,
        0 <= i % width < width,
        i % width != 0 ==> 1 <= i,
        i / width > 0 ==> width <= i,
        i / width + 1 < height ==> i + width < width * height,
        i % width + 1 < width ==> i + 1 < width * height,
    decreases i,
{
}

/// For cell `index`, whether a path connector crosses each of its four edges,
/// as `(up, down, left, right)`.  An edge on the grid boundary never carries a
/// connector.
pub fn get_paths(index: usize, width: usize, cells: &Vec<Cell>) -> (r: (bool, bool, bool, bool))
    requires
        0 < width,
        index < cells@.len(),
        (cells@.len() as int) % (width as int) == 0,
    ensures
        r.0 == path_conn_up(cells@, width as int, index as int),
        r.1 == path_conn_down(cells@, width as int, index as int),
        r.2 == path_conn_left(cells@, width as int, index as int),
        r.3 == path_conn_right(cells@, width as int, index as int),
{
    proof {
        lemma_row_index(width as int, cells@.len() as int, index as int);
    }
    let up = index >= width && !cells[index].up && cells[index].path && cells[index - width].path;
    let down = width <= cells.len() - index - 1 && !cells[index].down && cells[index].path
        && cells[index + width].path;
    let left = index % width != 0 && !cells[index].left && cells[index].path
        && cells[index - 1].path;
    let right = index % width != width - 1 && !cells[index].right && cells[index].path
        && cells[index + 1].path;
    (up, down, left, right)
}

/// For cell `index`, whether a route connector crosses each of its four edges,
/// as `(up, down, left, right)`.
pub fn get_routes(index: usize, width: usize, cells: &Vec<Cell>) -> (r: (bool, bool, bool, bool))
    requires
        0 < width,
        index < cells@.len(),
        (cells@.len() as int) % (width as int) == 0,
    ensures
        r.0 == route_conn_up(cells@, width as int, index as int),
        r.1 == route_conn_down(cells@, width as int, index as int),
        r.2 == route_conn_left(cells@, width as int, index as int),
        r.3 == route_conn_right(cells@, width as int, index as int),
{
    proof {
        lemma_row_index(width as int, cells@.len() as int, index as int);
    }
    let up = index >= width && !cells[index].up && cells[index].route && cells[index - width].route;
    let down = width <= cells.len() - index - 1 && !cells[index].down && cells[index].route
        && cells[index + width].route;
    let left = index % width != 0 && !cells[index].left && cells[index].route
        && cells[index - 1].route;
    let right = index % width != width - 1 && !cells[index].right && cells[index].route
        && cells[index + 1].route;
    (up, down, left, right)
}

/// The wall stubs meeting at the upper-left corner of cell `i`, as
/// `(up, down, left, right)`.
pub open spec fn corner_ul(cells: Seq<Cell>, width: int, i: int) -> (bool, bool, bool, bool) {
    (
        i / width > 0 && cells[i - width].left,
        cells[i].left,
        i % width > 0 && cells[i - 1].up,
        cells[i].up,
    )
}

/// The wall stubs meeting at the upper-right corner of cell `i`.
pub open spec fn corner_ur(cells: Seq<Cell>, width: int, i: int) -> (bool, bool, bool, bool) {
    (
        i / width > 0 && cells[i - width].right,
        cells[i].right,
        cells[i].up,
        i % width < width - 1 && cells[i + 1].up,
    )
}

/// The wall stubs meeting at the lower-left corner of cell `i`.
pub open spec fn corner_ll(cells: Seq<Cell>, width: int, height: int, i: int) -> (bool, bool, bool, bool) {
    (
        cells[i].left,
        i / width < height - 1 && cells[i + width].left,
        i % width > 0 && cells[i - 1].down,
        cells[i].down,
    )
}

/// The wall stubs meeting at the lower-right corner of cell `i`.
pub open spec fn corner_lr(cells: Seq<Cell>, width: int, height: int, i: int) -> (bool, bool, bool, bool) {
    (
        cells[i].right,
        i / width < height - 1 && cells[i + width].right,
        cells[i].down,
        i % width < width - 1 && cells[i + 1].down,
    )
}

/// The glyph selected by a `(up, down, left, right)` stub key.
pub open spec fn wall_symbol_of(key: (bool, bool, bool, bool)) -> char {
    wall_symbol(key.0, key.1, key.2, key.3)
}

/// The four corner glyphs around cell `index`, as
/// `(upper-left, upper-right, lower-left, lower-right)`.  Each corner is
/// resolved from the wall flags of the cells touching it; a missing neighbour
/// contributes no stub.
pub fn get_corner_symbols(index: usize, width: usize, height: usize, cells: &Vec<Cell>) -> (r: (
    char,
    char,
    char,
    char,
))
    requires
        0 < width,
        index < cells@.len(),
        cells@.len() == (width as int) * (height as int),
    ensures
        r.0 == wall_symbol_of(corner_ul(cells@, width as int, index as int)),
        r.1 == wall_symbol_of(corner_ur(cells@, width as int, index as int)),
        r.2 == wall_symbol_of(corner_ll(cells@, width as int, height as int, index as int)),
        r.3 == wall_symbol_of(corner_lr(cells@, width as int, height as int, index as int)),
{
    let n = cells.len();
    let x = index % width;
    let y = index / width;

    proof {
        lemma_grid_index(width as int, height as int, index as int);
        assert(index < n);
    }

    let up = y > 0 && cells[index - width].left;
    let down = cells[index].left;
    let left = x > 0 && cells[index - 1].up;
    let right = cells[index].up;
    let ulc = get_wall_symbol(up, down, left, right);

    let up = y > 0 && cells[index - width].right;
    let down = cells[index].right;
    let left = cells[index].up;
    let right = x < width - 1 && cells[index + 1].up;
    let urc = get_wall_symbol(up, down, left, right);

    let up = cells[index].left;
    let down = y < height - 1 && cells[index + width].left;
    let left = x > 0 && cells[index - 1].down;
    let right = cells[index].down;
    let llc = get_wall_symbol(up, down, left, right);

    let up = cells[index].right;
    let down = y < height - 1 && cells[index + width].right;
    let left = cells[index].down;
    let right = x < width - 1 && cells[index + 1].down;
    let lrc = get_wall_symbol(up, down, left, right);

    (ulc, urc, llc, lrc)
}

} // verus!
