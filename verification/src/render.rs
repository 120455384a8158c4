use vstd::prelude::*;

use ratatui::buffer::Buffer;
use ratatui::style::Color;

use crate::cell::Cell;
use crate::maze_view::MazeView;
use crate::symbols::{
    get_path_symbol, get_paths, get_routes, get_wall_symbol, path_conn_down, path_conn_left,
    path_conn_right, path_conn_up, path_symbol, route_conn_down, route_conn_left,
    route_conn_right, route_conn_up, wall_symbol,
};

verus! {

#[verifier::external_type_specification]
#[verifier::external_body]
pub struct ExBuffer(Buffer);

#[verifier::external_type_specification]
#[verifier::external_body]
pub struct ExColor(Color);

/// The rectangle of the render surface a maze is drawn into, in surface
/// coordinates.
#[derive(Debug, PartialEq, Eq, Structural, Clone, Copy)]
pub struct Area {
    pub x: u16,
    pub y: u16,
    pub width: u16,
    pub height: u16,
}

/// The five color roles of the renderer.
#[derive(Debug, PartialEq, Eq, Structural, Clone, Copy)]
pub enum ColorRole {
    Base,
    Observed,
    Queued,
    Path,
    Route,
}

/// The five configured colors, one per role.
pub struct Palette {
    pub base: Color,
    pub observed: Color,
    pub queued: Color,
    pub path: Color,
    pub route: Color,
}

impl Palette {
    /// The configured color of a role.
    pub open spec fn spec_color(self, role: ColorRole) -> Color {
        match role {
            ColorRole::Base => self.base,
            ColorRole::Observed => self.observed,
            ColorRole::Queued => self.queued,
            ColorRole::Path => self.path,
            ColorRole::Route => self.route,
        }
    }

    /// Pick the configured color of a role.
    pub fn color(&self, role: ColorRole) -> (c: &Color)
        ensures
            *c == self.spec_color(role),
    {
        match role {
            ColorRole::Base => &self.base,
            ColorRole::Observed => &self.observed,
            ColorRole::Queued => &self.queued,
            ColorRole::Path => &self.path,
            ColorRole::Route => &self.route,
        }
    }
}

/// The area a buffer spans, as `(x, y, width, height)`.
pub uninterp spec fn buf_span(b: Buffer) -> (u16, u16, u16, u16);

/// The glyph each buffer cell holds, keyed by surface position.
pub uninterp spec fn buf_chars(b: Buffer) -> Map<(u16, u16), char>;

/// The foreground color each buffer cell holds, keyed by surface position.
pub uninterp spec fn buf_fgs(b: Buffer) -> Map<(u16, u16), Color>;

/// Relies on ratatui's `Buffer::cell_mut`, `Cell::set_char` and
/// `Cell::set_fg`, and on the buffer's invariant that its content vector
/// covers its area: writes the glyph and the foreground color of the one
/// cell at position `(x, y)`, which must lie inside the buffer's area, and
/// leaves every other cell and the area unchanged.
#[verifier::external_body]
fn buf_put(buf: &mut Buffer, x: u16, y: u16, ch: char, color: &Color)
    requires
        buf_span(*old(buf)).0 <= x < buf_span(*old(buf)).0 + buf_span(*old(buf)).2,
        buf_span(*old(buf)).1 <= y < buf_span(*old(buf)).1 + buf_span(*old(buf)).3,
    ensures
        buf_span(*final(buf)) == buf_span(*old(buf)),
        buf_chars(*final(buf)) == buf_chars(*old(buf)).insert((x, y), ch),
        buf_fgs(*final(buf)) == buf_fgs(*old(buf)).insert((x, y), *color),
{
    if let Some(cell) = buf.cell_mut(ratatui::layout::Position::new(x, y)) {
        cell.set_char(ch);
        cell.set_fg(*color);
    }
}

/// Whether the horizontal edge above grid row `ey` (`0 <= ey <= h`) of cell
/// column `cx` carries a wall, read from the cell below it where one exists.
pub open spec fn hwall(cells: Seq<Cell>, w: int, h: int, cx: int, ey: int) -> bool {
    if ey < h {
        cells[ey * w + cx].up
    } else {
        cells[(ey - 1) * w + cx].down
    }
}

/// Whether a path connector crosses that horizontal edge: no wall, and the
/// cells on both sides are on the path.
pub open spec fn hpath(cells: Seq<Cell>, w: int, h: int, cx: int, ey: int) -> bool {
    0 < ey < h && !hwall(cells, w, h, cx, ey) && cells[(ey - 1) * w + cx].path && cells[ey * w
        + cx].path
}

/// Whether a route connector crosses that horizontal edge.
pub open spec fn hroute(cells: Seq<Cell>, w: int, h: int, cx: int, ey: int) -> bool {
    0 < ey < h && !hwall(cells, w, h, cx, ey) && cells[(ey - 1) * w + cx].route && cells[ey * w
        + cx].route
}

/// Whether the vertical edge left of grid column `ex` (`0 <= ex <= w`) of
/// cell row `cy` carries a wall.
pub open spec fn vwall(cells: Seq<Cell>, w: int, cy: int, ex: int) -> bool {
    if ex < w {
        cells[cy * w + ex].left
    } else {
        cells[cy * w + ex - 1].right
    }
}

/// Whether a path connector crosses that vertical edge.
pub open spec fn vpath(cells: Seq<Cell>, w: int, cy: int, ex: int) -> bool {
    0 < ex < w && !vwall(cells, w, cy, ex) && cells[cy * w + ex - 1].path && cells[cy * w
        + ex].path
}

/// Whether a route connector crosses that vertical edge.
pub open spec fn vroute(cells: Seq<Cell>, w: int, cy: int, ex: int) -> bool {
    0 < ex < w && !vwall(cells, w, cy, ex) && cells[cy * w + ex - 1].route && cells[cy * w
        + ex].route
}

/// The upward wall stub at grid corner `(gx, gy)` (`0 <= gx <= w`,
/// `0 <= gy <= h`): a boundary corner has no stub pointing off the grid.
pub open spec fn stub_up(cells: Seq<Cell>, w: int, gx: int, gy: int) -> bool {
    gy > 0 && (if gx < w {
        cells[(gy - 1) * w + gx].left
    } else {
        cells[(gy - 1) * w + gx - 1].right
    })
}

/// The downward wall stub at grid corner `(gx, gy)`.
pub open spec fn stub_down(cells: Seq<Cell>, w: int, h: int, gx: int, gy: int) -> bool {
    gy < h && (if gx < w {
        cells[gy * w + gx].left
    } else {
        cells[gy * w + gx - 1].right
    })
}

/// The leftward wall stub at grid corner `(gx, gy)`.
pub open spec fn stub_left(cells: Seq<Cell>, w: int, h: int, gx: int, gy: int) -> bool {
    gx > 0 && (if gy < h {
        cells[gy * w + gx - 1].up
    } else {
        cells[(gy - 1) * w + gx - 1].down
    })
}

/// The rightward wall stub at grid corner `(gx, gy)`.
pub open spec fn stub_right(cells: Seq<Cell>, w: int, h: int, gx: int, gy: int) -> bool {
    gx < w && (if gy < h {
        cells[gy * w + gx].up
    } else {
        cells[(gy - 1) * w + gx].down
    })
}

/// What one surface position `(sx, sy)` of the `(2w+1) x (2h+1)` block shows:
/// `None` leaves the position untouched.  Interiors (both coordinates odd)
/// show the search state of their cell by the fixed priority; edges (one
/// coordinate odd) show a heavy wall glyph or a light path connector; corners
/// (both even) always show the box-drawing join of their wall stubs.
pub open spec fn resolve(cells: Seq<Cell>, w: int, h: int, sx: int, sy: int) -> Option<
    (char, ColorRole),
> {
    if sx % 2 == 1 && sy % 2 == 1 {
        let i = ((sy - 1) / 2) * w + (sx - 1) / 2;
        let c = cells[i];
        if c.path || c.route {
            Some(
                (
                    path_symbol(
                        path_conn_up(cells, w, i) || route_conn_up(cells, w, i),
                        path_conn_down(cells, w, i) || route_conn_down(cells, w, i),
                        path_conn_left(cells, w, i) || route_conn_left(cells, w, i),
                        path_conn_right(cells, w, i) || route_conn_right(cells, w, i),
                    ),
                    ColorRole::Path,
                ),
            )
        } else if c.observed {
            Some((' ', ColorRole::Observed))
        } else if c.queued {
            Some((' ', ColorRole::Queued))
        } else if c.start || c.stop {
            Some((c.character, ColorRole::Base))
        } else {
            None
        }
    } else if sx % 2 == 1 {
        let cx = (sx - 1) / 2;
        let ey = sy / 2;
        let wall = hwall(cells, w, h, cx, ey);
        let p = hpath(cells, w, h, cx, ey);
        let rt = hroute(cells, w, h, cx, ey);
        if wall || p || rt {
            Some(
                (
                    if wall {
                        '━'
                    } else {
                        '─'
                    },
                    if rt {
                        ColorRole::Route
                    } else if p {
                        ColorRole::Path
                    } else {
                        ColorRole::Base
                    },
                ),
            )
        } else {
            None
        }
    } else if sy % 2 == 1 {
        let cy = (sy - 1) / 2;
        let ex = sx / 2;
        let wall = vwall(cells, w, cy, ex);
        let p = vpath(cells, w, cy, ex);
        let rt = vroute(cells, w, cy, ex);
        if wall || p || rt {
            Some(
                (
                    if wall {
                        '┃'
                    } else {
                        '│'
                    },
                    if rt {
                        ColorRole::Route
                    } else if p {
                        ColorRole::Path
                    } else {
                        ColorRole::Base
                    },
                ),
            )
        } else {
            None
        }
    } else {
        let gx = sx / 2;
        let gy = sy / 2;
        Some(
            (
                wall_symbol(
                    stub_up(cells, w, gx, gy),
                    stub_down(cells, w, h, gx, gy),
                    stub_left(cells, w, h, gx, gy),
                    stub_right(cells, w, h, gx, gy),
                ),
                ColorRole::Base,
            ),
        )
    }
}

/// Index facts for cell `(cx, cy)` of a `w x h` grid.
pub proof fn lemma_cell_index(w: int, h: int, cx: int, cy: int)
    requires
        0 <= cx < w,
        0 <= cy < h,
    ensures
        0 <= cy * w + cx < w * h,
        (cy * w + cx) % w == cx,
        (cy * w + cx) / w == cy,
{
    assert(0 <= cy * w + cx < w * h) by (nonlinear_arith)
        requires
            0 <= cx < w,
            0 <= cy < h,
    ;
    vstd::arithmetic::div_mod::lemma_fundamental_div_mod_converse(cy * w + cx, w, cy, cx);
}

/// Compute what one surface position of the block shows.
#[verifier::rlimit(30)]
pub fn resolve_at(cells: &Vec<Cell>, width: usize, height: usize, sx: usize, sy: usize) -> (r:
    Option<(char, ColorRole)>)
    requires
        1 <= width,
        1 <= height,
        cells@.len() == (width as int) * (height as int),
        (sx as int) < 2 * (width as int) + 1,
        (sy as int) < 2 * (height as int) + 1,
    ensures
        r == resolve(cells@, width as int, height as int, sx as int, sy as int),
{
    let n = cells.len();
    proof {
        vstd::arithmetic::div_mod::lemma_mod_multiples_basic(height as int, width as int);
    }
    if sx % 2 == 1 && sy % 2 == 1 {
        let cx = (sx - 1) / 2;
        let cy = (sy - 1) / 2;
        proof {
            lemma_cell_index(width as int, height as int, cx as int, cy as int);
        }
        let i = cy * width + cx;
        let c = cells[i];
        if c.path || c.route {
            let (pu, pd, pl, pr) = get_paths(i, width, cells);
            let (ru, rd, rl, rr) = get_routes(i, width, cells);
            Some((get_path_symbol(pu || ru, pd || rd, pl || rl, pr || rr), ColorRole::Path))
        } else if c.observed {
            Some((' ', ColorRole::Observed))
        } else if c.queued {
            Some((' ', ColorRole::Queued))
        } else if c.start || c.stop {
            Some((c.character, ColorRole::Base))
        } else {
            None
        }
    } else if sx % 2 == 1 {
        let cx = (sx - 1) / 2;
        let ey = sy / 2;
        proof {
            if ey < height {
                lemma_cell_index(width as int, height as int, cx as int, ey as int);
            }
            if ey > 0 {
                lemma_cell_index(width as int, height as int, cx as int, ey as int - 1);
            }
        }
        let wall = if ey < height {
            cells[ey * width + cx].up
        } else {
            cells[(ey - 1) * width + cx].down
        };
        let p = ey > 0 && ey < height && !wall && cells[(ey - 1) * width + cx].path
            && cells[ey * width + cx].path;
        let rt = ey > 0 && ey < height && !wall && cells[(ey - 1) * width + cx].route
            && cells[ey * width + cx].route;
        if wall || p || rt {
            Some(
                (
                    if wall {
                        '━'
                    } else {
                        '─'
                    },
                    if rt {
                        ColorRole::Route
                    } else if p {
                        ColorRole::Path
                    } else {
                        ColorRole::Base
                    },
                ),
            )
        } else {
            None
        }
    } else if sy % 2 == 1 {
        let cy = (sy - 1) / 2;
        let ex = sx / 2;
        proof {
            if ex < width {
                lemma_cell_index(width as int, height as int, ex as int, cy as int);
            }
            if ex > 0 {
                lemma_cell_index(width as int, height as int, ex as int - 1, cy as int);
            }
        }
        let wall = if ex < width {
            cells[cy * width + ex].left
        } else {
            cells[cy * width + ex - 1].right
        };
        let p = ex > 0 && ex < width && !wall && cells[cy * width + ex - 1].path
            && cells[cy * width + ex].path;
        let rt = ex > 0 && ex < width && !wall && cells[cy * width + ex - 1].route
            && cells[cy * width + ex].route;
        if wall || p || rt {
            Some(
                (
                    if wall {
                        '┃'
                    } else {
                        '│'
                    },
                    if rt {
                        ColorRole::Route
                    } else if p {
                        ColorRole::Path
                    } else {
                        ColorRole::Base
                    },
                ),
            )
        } else {
            None
        }
    } else {
        let gx = sx / 2;
        let gy = sy / 2;
        proof {
            if gx < width && gy < height {
                lemma_cell_index(width as int, height as int, gx as int, gy as int);
            }
            if gx > 0 && gy < height {
                lemma_cell_index(width as int, height as int, gx as int - 1, gy as int);
            }
            if gx < width && gy > 0 {
                lemma_cell_index(width as int, height as int, gx as int, gy as int - 1);
            }
            if gx > 0 && gy > 0 {
                lemma_cell_index(width as int, height as int, gx as int - 1, gy as int - 1);
            }
        }
        let up = gy > 0 && (if gx < width {
            cells[(gy - 1) * width + gx].left
        } else {
            cells[(gy - 1) * width + gx - 1].right
        });
        let down = gy < height && (if gx < width {
            cells[gy * width + gx].left
        } else {
            cells[gy * width + gx - 1].right
        });
        let left = gx > 0 && (if gy < height {
            cells[gy * width + gx - 1].up
        } else {
            cells[(gy - 1) * width + gx - 1].down
        });
        let right = gx < width && (if gy < height {
            cells[gy * width + gx].up
        } else {
            cells[(gy - 1) * width + gx].down
        });
        Some((get_wall_symbol(up, down, left, right), ColorRole::Base))
    }
}

/// The surface position of block-local coordinates `(a, b)`.
pub open spec fn pos_key(start_x: int, start_y: int, a: int, b: int) -> (u16, u16) {
    (((start_x + a) as u16), ((start_y + b) as u16))
}

/// Position `k` holds the same glyph and color in `post` as in `pre`.
pub open spec fn untouched(pre: Buffer, post: Buffer, k: (u16, u16)) -> bool {
    &&& buf_chars(post).contains_key(k) == buf_chars(pre).contains_key(k)
    &&& buf_chars(pre).contains_key(k) ==> buf_chars(post)[k] == buf_chars(pre)[k]
    &&& buf_fgs(post).contains_key(k) == buf_fgs(pre).contains_key(k)
    &&& buf_fgs(pre).contains_key(k) ==> buf_fgs(post)[k] == buf_fgs(pre)[k]
}

/// Block position `(a, b)` shows what `resolve` gives it: a resolved glyph
/// stands in the buffer with its role's color, an unresolved position is
/// untouched.
pub open spec fn written_ok(
    cells: Seq<Cell>,
    w: int,
    h: int,
    pal: Palette,
    pre: Buffer,
    post: Buffer,
    start_x: int,
    start_y: int,
    a: int,
    b: int,
) -> bool {
    match resolve(cells, w, h, a, b) {
        Some(cr) => {
            &&& buf_chars(post).contains_key(pos_key(start_x, start_y, a, b))
            &&& buf_chars(post)[pos_key(start_x, start_y, a, b)] == cr.0
            &&& buf_fgs(post).contains_key(pos_key(start_x, start_y, a, b))
            &&& buf_fgs(post)[pos_key(start_x, start_y, a, b)] == pal.spec_color(cr.1)
        },
        None => untouched(pre, post, pos_key(start_x, start_y, a, b)),
    }
}

/// Whether surface position `k` lies inside the block drawn at
/// `(start_x, start_y)` for a `w x h` grid.
pub open spec fn in_block(start_x: int, start_y: int, w: int, h: int, k: (u16, u16)) -> bool {
    start_x <= k.0 < start_x + 2 * w + 1 && start_y <= k.1 < start_y + 2 * h + 1
}

/// Where the block's left edge lands when centered in `area`.
pub open spec fn start_x_of(area: Area, w: int) -> int {
    area.x + (area.width - (2 * w + 1)) / 2
}

/// Where the block's top edge lands when centered in `area`.
pub open spec fn start_y_of(area: Area, h: int) -> int {
    area.y + (area.height - (2 * h + 1)) / 2
}

impl MazeView {
    /// Draw the parsed grid into `buf`, centered in `area`: every surface
    /// position of the block shows what [`resolve`] gives it, and every
    /// other buffer cell is left untouched.  The caller must hand in an area
    /// large enough for the grid, lying inside the buffer.
    #[verifier::loop_isolation(false)]
    #[verifier::rlimit(100)]
    pub fn render_to(&self, area: Area, palette: &Palette, buf: &mut Buffer)
        requires
            self.cells matches Some(c) && c@.len() == (self.width as int) * (self.height as int),
            1 <= self.width,
            1 <= self.height,
            2 * (self.width as int) + 1 <= area.width,
            2 * (self.height as int) + 1 <= area.height,
            buf_span(*old(buf)).0 <= area.x,
            area.x + area.width <= buf_span(*old(buf)).0 + buf_span(*old(buf)).2,
            buf_span(*old(buf)).1 <= area.y,
            area.y + area.height <= buf_span(*old(buf)).1 + buf_span(*old(buf)).3,
            buf_span(*old(buf)).0 + buf_span(*old(buf)).2 <= 65536,
            buf_span(*old(buf)).1 + buf_span(*old(buf)).3 <= 65536,
        ensures
            buf_span(*final(buf)) == buf_span(*old(buf)),
            forall|a: int, b: int|
                0 <= a < 2 * (self.width as int) + 1 && 0 <= b < 2 * (self.height as int) + 1
                    ==> written_ok(
                    self.cells->Some_0@,
                    self.width as int,
                    self.height as int,
                    *palette,
                    *old(buf),
                    *final(buf),
                    start_x_of(area, self.width as int),
                    start_y_of(area, self.height as int),
                    a,
                    b,
                ),
            forall|k: (u16, u16)|
                !in_block(
                    start_x_of(area, self.width as int),
                    start_y_of(area, self.height as int),
                    self.width as int,
                    self.height as int,
                    k,
                ) ==> untouched(*old(buf), *final(buf), k),
    {
        let width = self.width;
        let height = self.height;
        let cells = self.cells.as_ref().unwrap();
        let wgrid: usize = 2 * width + 1;
        let hgrid: usize = 2 * height + 1;
        let start_x: u16 = area.x + (area.width - (wgrid as u16)) / 2;
        let start_y: u16 = area.y + (area.height - (hgrid as u16)) / 2;
        let ghost cv = cells@;
        let ghost w = width as int;
        let ghost h = height as int;
        let ghost sx0 = start_x_of(area, w);
        let ghost sy0 = start_y_of(area, h);
        proof {
            assert(start_x == sx0);
            assert(start_y == sy0);
        }
        let mut sy: usize = 0;
        while sy < hgrid
            invariant
                sy <= hgrid,
                buf_span(*buf) == buf_span(*old(buf)),
                forall|a: int, b: int|
                    0 <= a < wgrid && 0 <= b < sy ==> written_ok(
                        cv,
                        w,
                        h,
                        *palette,
                        *old(buf),
                        *buf,
                        sx0,
                        sy0,
                        a,
                        b,
                    ),
                forall|a: int, b: int|
                    0 <= a < wgrid && sy <= b < hgrid ==> untouched(
                        *old(buf),
                        *buf,
                        pos_key(sx0, sy0, a, b),
                    ),
                forall|k: (u16, u16)|
                    !in_block(sx0, sy0, w, h, k) ==> untouched(*old(buf), *buf, k),
            decreases hgrid - sy,
        {
            let mut sx: usize = 0;
            while sx < wgrid
                invariant
                    sx <= wgrid,
                    sy < hgrid,
                    buf_span(*buf) == buf_span(*old(buf)),
                    forall|a: int, b: int|
                        0 <= a < wgrid && 0 <= b < hgrid && (b < sy || (b == sy && a < sx))
                            ==> written_ok(cv, w, h, *palette, *old(buf), *buf, sx0, sy0, a, b),
                    forall|a: int, b: int|
                        0 <= a < wgrid && 0 <= b < hgrid && (b > sy || (b == sy && sx <= a))
                            ==> untouched(*old(buf), *buf, pos_key(sx0, sy0, a, b)),
                    forall|k: (u16, u16)|
                        !in_block(sx0, sy0, w, h, k) ==> untouched(*old(buf), *buf, k),
                decreases wgrid - sx,
            {
                let r = resolve_at(cells, width, height, sx, sy);
                match r {
                    Some((ch, role)) => {
                        let ghost pre_step = *buf;
                        let px: u16 = start_x + (sx as u16);
                        let py: u16 = start_y + (sy as u16);
                        let col = palette.color(role);
                        buf_put(buf, px, py, ch, col);
                        proof {
                            let k0 = pos_key(sx0, sy0, sx as int, sy as int);
                            assert((px, py) == k0);
                            assert forall|a: int, b: int|
                                0 <= a < wgrid && 0 <= b < hgrid && !(a == sx as int && b
                                    == sy as int) implies pos_key(sx0, sy0, a, b) != k0 by {
                                assert(sx0 + a <= 65535);
                                assert(sy0 + b <= 65535);
                            }
                            assert forall|a: int, b: int|
                                0 <= a < wgrid && 0 <= b < hgrid && (b < sy as int || (b
                                    == sy as int && a < sx as int + 1)) implies written_ok(
                                cv,
                                w,
                                h,
                                *palette,
                                *old(buf),
                                *buf,
                                sx0,
                                sy0,
                                a,
                                b,
                            ) by {
                                if a == sx as int && b == sy as int {
                                    assert(buf_chars(*buf) == buf_chars(pre_step).insert(k0, ch));
                                    assert(buf_fgs(*buf) == buf_fgs(pre_step).insert(k0, *col));
                                } else {
                                    let pk = pos_key(sx0, sy0, a, b);
                                    assert(pk != k0);
                                    assert(written_ok(
                                        cv,
                                        w,
                                        h,
                                        *palette,
                                        *old(buf),
                                        pre_step,
                                        sx0,
                                        sy0,
                                        a,
                                        b,
                                    ));
                                    assert(buf_chars(*buf).contains_key(pk) == buf_chars(
                                        pre_step,
                                    ).contains_key(pk));
                                    assert(buf_chars(pre_step).contains_key(pk) ==> buf_chars(
                                        *buf,
                                    )[pk] == buf_chars(pre_step)[pk]);
                                    assert(buf_fgs(*buf).contains_key(pk) == buf_fgs(
                                        pre_step,
                                    ).contains_key(pk));
                                    assert(buf_fgs(pre_step).contains_key(pk) ==> buf_fgs(
                                        *buf,
                                    )[pk] == buf_fgs(pre_step)[pk]);
                                }
                            }
                            assert forall|a: int, b: int|
                                0 <= a < wgrid && 0 <= b < hgrid && (b > sy as int || (b
                                    == sy as int && sx as int + 1 <= a)) implies untouched(
                                *old(buf),
                                *buf,
                                pos_key(sx0, sy0, a, b),
                            ) by {
                                assert(pos_key(sx0, sy0, a, b) != k0);
                            }
                            assert forall|k: (u16, u16)| !in_block(sx0, sy0, w, h, k) implies
                                untouched(*old(buf), *buf, k) by {
                                assert(sx0 <= k0.0 < sx0 + 2 * w + 1);
                                assert(sy0 <= k0.1 < sy0 + 2 * h + 1);
                                assert(k != k0);
                            }
                        }
                    },
                    None => {
                    },
                }
                sx = sx + 1;
            }
            sy = sy + 1;
        }
    }
}

} // verus!
