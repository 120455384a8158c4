use vstd::prelude::*;

use crate::cell::{decoded_cell, Cell};
use crate::text::{chars_of, nonempty_lines, split_at_char, split_lines};

verus! {

/// A parsed snapshot: a row-major grid of cells.  `cells` is `None` until a
/// snapshot has been loaded.
pub struct MazeView {
    pub cells: Option<Vec<Cell>>,
    pub height: usize,
    pub width: usize,
}

/// The cell-grid height encoded by a snapshot's non-empty lines.
pub open spec fn grid_height(rows: Seq<Seq<char>>) -> int {
    (rows.len() - 1) / 2
}

/// The cell-grid width encoded by a snapshot's non-empty lines.
pub open spec fn grid_width(rows: Seq<Seq<char>>) -> int {
    (rows[0].len() - 1) / 2
}

/// A snapshot the parser accepts: long enough for the smallest serialized
/// maze, at least one non-empty line, and every line the parser reads long
/// enough for the width taken from the first line.
pub open spec fn snapshot_ok(s: Seq<char>) -> bool {
    let rows = nonempty_lines(s);
    &&& s.len() >= 29
    &&& rows.len() > 0
    &&& forall|j: int|
        0 <= j <= 2 * grid_height(rows) ==> (#[trigger] rows[j]).len() >= 2 * grid_width(rows) + 1
}

/// Cell `i` of the grid encoded by `rows` for width `w`: the walls are read
/// from the four character positions around the cell's own position, and the
/// flags are decoded from the cell's own character.
pub open spec fn cell_at(rows: Seq<Seq<char>>, w: int, i: int) -> Cell {
    let x = 2 * (i % w) + 1;
    let y = 2 * (i / w) + 1;
    decoded_cell(
        rows[y][x],
        rows[y - 1][x] == '#',
        rows[y + 1][x] == '#',
        rows[y][x - 1] == '#',
        rows[y][x + 1] == '#',
    )
}

/// The full cell grid encoded by snapshot text `s`.
pub open spec fn parsed_cells(s: Seq<char>) -> Seq<Cell> {
    let rows = nonempty_lines(s);
    Seq::new(
        (grid_width(rows) * grid_height(rows)) as nat,
        |i: int| cell_at(rows, grid_width(rows), i),
    )
}

/// Vertically and horizontally adjacent cells agree on the wall between them.
/// Every parsed grid satisfies this, because the parser reads each wall
/// position once per pair of neighbours.
pub open spec fn walls_consistent(cells: Seq<Cell>, w: int) -> bool {
    &&& forall|i: int|
        0 <= i && i + w < cells.len() ==> (#[trigger] cells[i]).down == cells[i + w].up
    &&& forall|i: int|
        0 <= i && i + 1 < cells.len() && i % w != w - 1 ==> (#[trigger] cells[i]).right == cells[i
            + 1].left
}

impl MazeView {
    /// A viewer with no snapshot loaded.
    pub fn new() -> (v: MazeView)
        ensures
            v.cells is None,
            v.height == 0,
            v.width == 0,
    {
        MazeView { cells: None, height: 0, width: 0 }
    }

    /// Parse one snapshot into the cell grid.  Text that is too short or that
    /// does not carry a complete character grid is ignored and the viewer is
    /// left unchanged.
    #[verifier::loop_isolation(false)]
    pub fn load_maze(&mut self, text: &str)
        ensures
            snapshot_ok(text@) ==> {
                &&& final(self).width == grid_width(nonempty_lines(text@))
                &&& final(self).height == grid_height(nonempty_lines(text@))
                &&& final(self).cells matches Some(c) && c@ == parsed_cells(text@)
            },
            !snapshot_ok(text@) ==> *final(self) == *old(self),
    {
        let chars = chars_of(text);
        if chars.len() < 29 {
            return ;
        }
        let rows = split_lines(&chars);
        let ghost rv = nonempty_lines(text@);
        if rows.len() == 0 {
            return ;
        }
        proof {
            split_at_char(text@, '\n').lemma_filter_pred(|p: Seq<char>| p.len() != 0, 0);
            assert(rv[0].len() != 0);
        }
        let height = (rows.len() - 1) / 2;
        let width = (rows[0].len() - 1) / 2;
        proof {
            assert(height == grid_height(rv));
            assert(width == grid_width(rv));
            assert(2 * height <= rows@.len() - 1);
            assert(2 * width + 1 <= rows@[0]@.len());
        }

        let mut j: usize = 0;
        while j <= 2 * height
            invariant
                forall|jj: int| 0 <= jj < j ==> (#[trigger] rv[jj]).len() >= 2 * width + 1,
            decreases 2 * height + 1 - j,
        {
            if rows[j].len() < 2 * width + 1 {
                proof {
                    assert(rv[j as int].len() < 2 * width + 1);
                    assert(!snapshot_ok(text@));
                }
                return ;
            }
            j = j + 1;
        }
        proof {
            assert(snapshot_ok(text@));
        }

        let mut cells: Vec<Cell> = Vec::new();
        let mut cy: usize = 0;
        while cy < height
            invariant
                cy <= height,
                cells@.len() == cy * width,
                forall|k: int|
                    0 <= k < cells@.len() ==> cells@[k] == cell_at(rv, width as int, k),
            decreases height - cy,
        {
            let mut cx: usize = 0;
            while cx < width
                invariant
                    cx <= width,
                    cy < height,
                    cells@.len() == cy * width + cx,
                    forall|k: int|
                        0 <= k < cells@.len() ==> cells@[k] == cell_at(rv, width as int, k),
                decreases width - cx,
            {
                let y = 2 * cy + 1;
                let x = 2 * cx + 1;
                proof {
                    assert(y + 1 <= 2 * height);
                    assert(rv[y as int].len() >= 2 * width + 1);
                    assert(rv[y as int - 1].len() >= 2 * width + 1);
                    assert(rv[y as int + 1].len() >= 2 * width + 1);
                }
                let character = rows[y][x];
                let up = rows[y - 1][x] == '#';
                let down = rows[y + 1][x] == '#';
                let left = rows[y][x - 1] == '#';
                let right = rows[y][x + 1] == '#';
                let cell = Cell::decode(character, up, down, left, right);
                proof {
                    let i = cy * width + cx;
                    vstd::arithmetic::div_mod::lemma_fundamental_div_mod_converse(
                        i as int,
                        width as int,
                        cy as int,
                        cx as int,
                    );
                    assert(cell == cell_at(rv, width as int, i as int));
                }
                cells.push(cell);
                cx = cx + 1;
            }
            cy = cy + 1;
            proof {
                assert((cy - 1) * width + width == cy * width) by (nonlinear_arith);
            }
        }
        proof {
            assert(cells@ =~= parsed_cells(text@)) by {
                assert(cells@.len() == height * width);
                assert(parsed_cells(text@).len() == width * height);
                assert(height * width == width * height);
            }
        }
        self.width = width;
        self.height = height;
        self.cells = Some(cells);
    }
}

/// The grid parsed from any accepted snapshot has consistent walls: each pair
/// of neighbours read the same character position for their shared wall.
pub proof fn lemma_parsed_walls_consistent(s: Seq<char>)
    requires
        snapshot_ok(s),
    ensures
        walls_consistent(parsed_cells(s), grid_width(nonempty_lines(s))),
{
    let rows = nonempty_lines(s);
    let w = grid_width(rows);
    let h = grid_height(rows);
    let cells = parsed_cells(s);
    split_at_char(s, '\n').lemma_filter_pred(|p: Seq<char>| p.len() != 0, 0);
    assert(rows[0].len() != 0);
    assert(w >= 0);
    assert forall|i: int| 0 <= i && i + w < cells.len() implies (#[trigger] cells[i]).down
        == cells[i + w].up by {
        if w == 0 {
            assert(w * h == 0) by (nonlinear_arith)
                requires
                    w == 0,
            ;
            assert(false);
        }
        vstd::arithmetic::div_mod::lemma_fundamental_div_mod(i, w);
        vstd::arithmetic::div_mod::lemma_mod_bound(i, w);
        assert(i + w == (i / w + 1) * w + i % w) by (nonlinear_arith)
            requires
                i == w * (i / w) + i % w,
        ;
        vstd::arithmetic::div_mod::lemma_fundamental_div_mod_converse(
            i + w,
            w,
            i / w + 1,
            i % w,
        );
    }
    assert forall|i: int| 0 <= i && i + 1 < cells.len() && i % w != w - 1 implies (
    #[trigger] cells[i]).right == cells[i + 1].left by {
        if w == 0 {
            assert(w * h == 0) by (nonlinear_arith)
                requires
                    w == 0,
            ;
            assert(false);
        }
        vstd::arithmetic::div_mod::lemma_fundamental_div_mod(i, w);
        vstd::arithmetic::div_mod::lemma_mod_bound(i, w);
        vstd::arithmetic::div_mod::lemma_fundamental_div_mod_converse(
            i + 1,
            w,
            i / w,
            i % w + 1,
        );
    }
}

} // verus!
