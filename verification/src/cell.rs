use vstd::prelude::*;

verus! {

/// One maze cell: four wall flags, the search-state flags decoded from the
/// snapshot character, the start/stop markers, and the raw character itself
/// (kept as a fallback glyph for start/stop rendering).
#[derive(Debug, PartialEq, Eq, Structural, Clone, Copy)]
pub struct Cell {
    pub up: bool,
    pub down: bool,
    pub left: bool,
    pub right: bool,
    pub queued: bool,
    pub observed: bool,
    pub path: bool,
    pub route: bool,
    pub start: bool,
    pub stop: bool,
    pub character: char,
}

/// Characters that mark a cell as lying on a visited path.
pub open spec fn is_path_char(c: char) -> bool {
    c == '.' || c == '*' || c == 's' || c == 'x' || c == 'q'
}

/// Characters that mark a cell as part of the final solution route.
pub open spec fn is_route_char(c: char) -> bool {
    c == '*' || c == 's' || c == 'x'
}

/// The character that marks a cell as observed by the search.
pub open spec fn is_observed_char(c: char) -> bool {
    c == ':'
}

/// Characters that mark a cell as queued by the search.
pub open spec fn is_queued_char(c: char) -> bool {
    c == 'Q' || c == 'q'
}

/// Characters that mark the start cell.
pub open spec fn is_start_char(c: char) -> bool {
    c == 'S' || c == 's'
}

/// Characters that mark the stop cell.
pub open spec fn is_stop_char(c: char) -> bool {
    c == 'X' || c == 'x'
}

/// The cell decoded from a snapshot character and the four wall flags read
/// from the character grid around it.
pub open spec fn decoded_cell(character: char, up: bool, down: bool, left: bool, right: bool) -> Cell {
    Cell {
        up,
        down,
        left,
        right,
        queued: is_queued_char(character),
        observed: is_observed_char(character),
        path: is_path_char(character),
        route: is_route_char(character),
        start: is_start_char(character),
        stop: is_stop_char(character),
        character,
    }
}

impl Cell {
    /// Decode one cell from its snapshot character and wall flags.
    pub fn decode(character: char, up: bool, down: bool, left: bool, right: bool) -> (c: Cell)
        ensures
            c == decoded_cell(character, up, down, left, right),
    {
        Cell {
            up,
            down,
            left,
            right,
            queued: character == 'Q' || character == 'q',
            observed: character == ':',
            path: character == '.' || character == '*' || character == 's' || character == 'x'
                || character == 'q',
            route: character == '*' || character == 's' || character == 'x',
            start: character == 'S' || character == 's',
            stop: character == 'X' || character == 'x',
            character,
        }
    }
}

} // verus!
