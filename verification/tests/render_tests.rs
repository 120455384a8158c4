use maze_viewer::maze_view::MazeView;
use maze_viewer::render::{Area, Palette};
use ratatui::buffer::Buffer;
use ratatui::layout::{Position, Rect};
use ratatui::style::Color;

fn test_palette() -> Palette {
    Palette {
        base: Color::White,
        observed: Color::LightRed,
        queued: Color::Red,
        path: Color::LightBlue,
        route: Color::from_u32(0x00FFD580),
    }
}

fn glyph_at(buf: &Buffer, x: u16, y: u16) -> &str {
    buf.cell(Position::new(x, y)).unwrap().symbol()
}

fn fg_at(buf: &Buffer, x: u16, y: u16) -> Color {
    buf.cell(Position::new(x, y)).unwrap().fg
}

#[test]
fn render_all_walled_grid() {
    let mut maze_view = MazeView::new();
    maze_view.load_maze("#####\n# # #\n#####\n# # #\n#####");
    let mut buf = Buffer::empty(Rect::new(0, 0, 5, 5));
    let palette = test_palette();
    maze_view.render_to(
        Area {
            x: 0,
            y: 0,
            width: 5,
            height: 5,
        },
        &palette,
        &mut buf,
    );

    let expected = ["┏━┳━┓", "┃ ┃ ┃", "┣━╋━┫", "┃ ┃ ┃", "┗━┻━┛"];
    for (y, row) in expected.iter().enumerate() {
        for (x, want) in row.chars().enumerate() {
            let got = glyph_at(&buf, x as u16, y as u16);
            assert_eq!(
                got,
                want.to_string(),
                "glyph at ({}, {}) was {:?}",
                x,
                y,
                got
            );
        }
    }
    assert_eq!(fg_at(&buf, 1, 0), Color::White);
    assert_eq!(fg_at(&buf, 0, 2), Color::White);
}

#[test]
fn render_marks_search_state() {
    let mut maze_view = MazeView::new();
    maze_view.load_maze(
        "\
#######
#Q : x#
# #####
#. *  #
##### #
#s    #
#######",
    );
    let mut buf = Buffer::empty(Rect::new(0, 0, 9, 9));
    let palette = test_palette();
    maze_view.render_to(
        Area {
            x: 0,
            y: 0,
            width: 9,
            height: 9,
        },
        &palette,
        &mut buf,
    );

    // The maze occupies the centered 7x7 block, offset by one.
    // Cell 1 (':') is observed: a blank glyph in the observed color.
    assert_eq!(glyph_at(&buf, 4, 2), " ");
    assert_eq!(fg_at(&buf, 4, 2), Color::LightRed);
    // Cell 0 ('Q') is queued: a blank glyph in the queued color.
    assert_eq!(glyph_at(&buf, 2, 2), " ");
    assert_eq!(fg_at(&buf, 2, 2), Color::Red);
    // Cell 4 ('*') connects only to the path cell on its left.
    assert_eq!(glyph_at(&buf, 4, 4), "╴");
    assert_eq!(fg_at(&buf, 4, 4), Color::LightBlue);
    // Cell 6 ('s') is on the path but none of its open edges leads to
    // another path cell, so its connector glyph is blank, in the path color.
    assert_eq!(glyph_at(&buf, 2, 6), " ");
    assert_eq!(fg_at(&buf, 2, 6), Color::LightBlue);
    // The open edge between the '.' and '*' cells carries a path connector.
    assert_eq!(glyph_at(&buf, 3, 4), "│");
    assert_eq!(fg_at(&buf, 3, 4), Color::LightBlue);
    // A position outside the block is untouched.
    assert_eq!(glyph_at(&buf, 0, 0), " ");
    assert_eq!(fg_at(&buf, 0, 0), Color::Reset);
}

#[test]
fn render_colors_route_connectors() {
    let mut maze_view = MazeView::new();
    maze_view.load_maze("#####\n#s *#\n#####\n# # #\n#####");
    let mut buf = Buffer::empty(Rect::new(0, 0, 5, 5));
    let palette = test_palette();
    maze_view.render_to(
        Area {
            x: 0,
            y: 0,
            width: 5,
            height: 5,
        },
        &palette,
        &mut buf,
    );

    // The open edge between the two route cells carries a route connector.
    assert_eq!(glyph_at(&buf, 2, 1), "│");
    assert_eq!(fg_at(&buf, 2, 1), Color::from_u32(0x00FFD580));
    // The start cell connects rightwards to its route neighbour.
    assert_eq!(glyph_at(&buf, 1, 1), "╶");
    assert_eq!(fg_at(&buf, 1, 1), Color::LightBlue);
}
