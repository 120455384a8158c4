use vstd::prelude::*;

use crate::app::{cell_row, clear_text, row_pair, wall_row};
use crate::maze_view::{
    cell_at, grid_height, grid_width, parsed_cells, snapshot_ok,
};
use crate::symbols::lemma_grid_index;
use crate::text::{
    join_blank, nonempty_lines, normalize_crlf, split_at_char, split_on_blank,
    lemma_join_split_on_blank,
};
use crate::spec_clamp;

verus! {

/// A text without the separator splits into itself alone.
proof fn lemma_split_no_sep(s: Seq<char>, sep: char)
    requires
        forall|i: int| 0 <= i < s.len() ==> s[i] != sep,
    ensures
        split_at_char(s, sep) == seq![s],
    decreases s.len(),
{
    if s.len() == 0 {
        assert(split_at_char(s, sep) =~~= seq![s]);
    } else {
        let tail = s.subrange(1, s.len() as int);
        lemma_split_no_sep(tail, sep);
        let rest = split_at_char(tail, sep);
        assert(rest.subrange(1, rest.len() as int) =~= Seq::<Seq<char>>::empty());
        assert(seq![s[0]] + rest[0] =~= s);
        assert(split_at_char(s, sep) =~~= seq![s]);
    }
}

/// Splitting `a + sep + rest` yields `a` and then the pieces of `rest`, when
/// `a` itself holds no separator.
proof fn lemma_split_prefix(a: Seq<char>, rest: Seq<char>, sep: char)
    requires
        forall|i: int| 0 <= i < a.len() ==> a[i] != sep,
    ensures
        split_at_char(a + seq![sep] + rest, sep) == seq![a] + split_at_char(rest, sep),
    decreases a.len(),
{
    let s = a + seq![sep] + rest;
    if a.len() == 0 {
        assert(s[0] == sep);
        assert(s.subrange(1, s.len() as int) =~= rest);
        assert(split_at_char(s, sep) =~~= seq![a] + split_at_char(rest, sep));
    } else {
        let a2 = a.subrange(1, a.len() as int);
        lemma_split_prefix(a2, rest, sep);
        assert(s[0] == a[0]);
        assert(s[0] != sep);
        assert(s.subrange(1, s.len() as int) =~= a2 + seq![sep] + rest);
        let r = split_at_char(a2 + seq![sep] + rest, sep);
        assert(r == seq![a2] + split_at_char(rest, sep));
        assert(r[0] == a2);
        assert(seq![s[0]] + r[0] =~= a);
        assert(r.subrange(1, r.len() as int) =~= split_at_char(rest, sep));
        assert(split_at_char(s, sep) =~~= seq![a] + split_at_char(rest, sep));
    }
}

/// A sequence whose members all satisfy the predicate filters to itself.
proof fn lemma_filter_all<A>(s: Seq<A>, pred: spec_fn(A) -> bool)
    requires
        forall|i: int| 0 <= i < s.len() ==> pred(#[trigger] s[i]),
    ensures
        s.filter(pred) == s,
    decreases s.len(),
{
    reveal(Seq::filter);
    if s.len() > 0 {
        lemma_filter_all(s.drop_last(), pred);
        assert(s.drop_last().push(s.last()) =~= s);
    }
}

/// The line grid of the canonical blank maze text: wall rows at even
/// indices, cell rows at odd ones.
pub open spec fn blank_rows(w: int, h: int) -> Seq<Seq<char>> {
    Seq::new(
        (2 * h + 1) as nat,
        |j: int| if j % 2 == 0 {
            wall_row(w)
        } else {
            cell_row(w)
        },
    )
}

/// Splitting the blank maze text on line breaks yields its row grid.
proof fn lemma_clear_text_rows(w: int, h: int)
    requires
        0 <= w,
        0 <= h,
    ensures
        split_at_char(clear_text(w, h), '\n') == blank_rows(w, h),
    decreases h,
{
    if h <= 0 {
        lemma_split_no_sep(wall_row(w), '\n');
        assert(split_at_char(clear_text(w, h), '\n') =~~= blank_rows(w, h));
    } else {
        lemma_clear_text_rows(w, h - 1);
        let ct = clear_text(w, h - 1);
        assert(clear_text(w, h) =~= wall_row(w) + seq!['\n'] + (cell_row(w) + seq!['\n'] + ct));
        lemma_split_prefix(wall_row(w), cell_row(w) + seq!['\n'] + ct, '\n');
        lemma_split_prefix(cell_row(w), ct, '\n');
        assert(split_at_char(clear_text(w, h), '\n') == seq![wall_row(w)] + (seq![cell_row(w)]
            + split_at_char(ct, '\n')));
        assert(seq![wall_row(w)] + (seq![cell_row(w)] + blank_rows(w, h - 1)) =~= blank_rows(
            w,
            h,
        ));
    }
}

/// The exact length of the blank maze text.
proof fn lemma_clear_text_len(w: int, h: int)
    requires
        0 <= w,
        0 <= h,
    ensures
        clear_text(w, h).len() == h * (4 * w + 4) + 2 * w + 1,
    decreases h,
{
    if h > 0 {
        lemma_clear_text_len(w, h - 1);
        assert(wall_row(w).len() == 2 * w + 1);
        assert(cell_row(w).len() == 2 * w + 1);
        assert(row_pair(w).len() == 4 * w + 4);
        assert(clear_text(w, h).len() == row_pair(w).len() + clear_text(w, h - 1).len());
        assert((h - 1) * (4 * w + 4) + (4 * w + 4) == h * (4 * w + 4)) by (nonlinear_arith);
    } else {
        assert(clear_text(w, h).len() == 2 * w + 1);
        assert(h * (4 * w + 4) == 0) by (nonlinear_arith)
            requires
                h == 0,
        ;
    }
}

/// The blank-grid round trip: for any dimensions of at least two, the
/// canonical blank text parses to a grid of exactly those dimensions in
/// which every cell has all four walls and no search-state, start or stop
/// flag set.
pub proof fn lemma_blank_grid_all_walls(w: int, h: int)
    requires
        2 <= w,
        2 <= h,
    ensures
        snapshot_ok(clear_text(w, h)),
        grid_width(nonempty_lines(clear_text(w, h))) == w,
        grid_height(nonempty_lines(clear_text(w, h))) == h,
        parsed_cells(clear_text(w, h)).len() == w * h,
        forall|i: int|
            0 <= i < parsed_cells(clear_text(w, h)).len() ==> {
                let c = #[trigger] parsed_cells(clear_text(w, h))[i];
                &&& c.up
                &&& c.down
                &&& c.left
                &&& c.right
                &&& !c.path
                &&& !c.route
                &&& !c.observed
                &&& !c.queued
                &&& !c.start
                &&& !c.stop
                &&& c.character == ' '
            },
{
    let s = clear_text(w, h);
    lemma_clear_text_rows(w, h);
    lemma_clear_text_len(w, h);
    assert(h * (4 * w + 4) >= 24) by (nonlinear_arith)
        requires
            2 <= w,
            2 <= h,
    ;
    let raw = blank_rows(w, h);
    assert(forall|j: int| 0 <= j < raw.len() ==> (#[trigger] raw[j]).len() == 2 * w + 1);
    lemma_filter_all(raw, |p: Seq<char>| p.len() != 0);
    assert(nonempty_lines(s) == raw);
    assert(grid_height(raw) == (2 * h + 1 - 1) / 2);
    assert(grid_width(raw) == (2 * w + 1 - 1) / 2);
    assert(snapshot_ok(s));
    let cells = parsed_cells(s);
    assert(cells.len() == w * h);
    assert forall|i: int| 0 <= i < cells.len() implies {
        let c = #[trigger] cells[i];
        &&& c.up
        &&& c.down
        &&& c.left
        &&& c.right
        &&& !c.path
        &&& !c.route
        &&& !c.observed
        &&& !c.queued
        &&& !c.start
        &&& !c.stop
        &&& c.character == ' '
    } by {
        lemma_grid_index(w, h, i);
        let x = 2 * (i % w) + 1;
        let y = 2 * (i / w) + 1;
        assert(y % 2 == 1);
        assert((y - 1) % 2 == 0);
        assert((y + 1) % 2 == 0);
        assert(raw[y] == cell_row(w));
        assert(raw[y - 1] == wall_row(w));
        assert(raw[y + 1] == wall_row(w));
        assert(x % 2 == 1);
        assert((x - 1) % 2 == 0);
        assert((x + 1) % 2 == 0);
        assert(cell_row(w)[x] == ' ');
        assert(cell_row(w)[x - 1] == '#');
        assert(cell_row(w)[x + 1] == '#');
        assert(wall_row(w)[x] == '#');
        assert(cells[i] == cell_at(raw, w, i));
    }
}

/// The load round trip: after normalizing windows-style separators, the
/// snapshots the loader splits out, joined again with a blank line, are the
/// normalized text itself, so the split is order- and count-preserving.
pub proof fn lemma_load_round_trip(s: Seq<char>)
    ensures
        join_blank(split_on_blank(normalize_crlf(s))) == normalize_crlf(s),
{
    lemma_join_split_on_blank(normalize_crlf(s));
}

/// Clamping is idempotent and monotone: the result always lies in
/// `[lo, hi]`, a value already in range is returned unchanged, and clamping
/// twice is the same as clamping once.  Every setter of the session state
/// clamps with this function, so no out-of-range value is ever observable.
pub proof fn lemma_clamp_idempotent(v: int, lo: int, hi: int)
    requires
        lo <= hi,
    ensures
        lo <= spec_clamp(v, lo, hi) <= hi,
        lo <= v <= hi ==> spec_clamp(v, lo, hi) == v,
        spec_clamp(spec_clamp(v, lo, hi), lo, hi) == spec_clamp(v, lo, hi),
{
}

/// The frame period: full speed gives ten milliseconds, the slowest speed a
/// full second, and every speed in the clamped domain gives a period between
/// the two.  A zero speed is never seen by the division, because the speed
/// setter clamps zero to one.
pub proof fn lemma_period_bounds(speed: int)
    requires
        1 <= speed <= 100,
    ensures
        speed == 100 ==> 1000int / speed == 10,
        speed == 1 ==> 1000int / speed == 1000,
        10 <= 1000int / speed <= 1000,
{
    assert(10 <= 1000int / speed <= 1000) by (nonlinear_arith)
        requires
            1 <= speed <= 100,
    ;
}

} // verus!
