use maze_viewer::app::App;
use maze_viewer::cell::Cell;
use maze_viewer::maze_view::MazeView;

#[test]
fn create_maze() {
    let mut maze_view = MazeView::new();

    maze_view.load_maze(
        "\
#####
# # #
#####
# # #
#####",
    );

    println!("Made it");
    assert_eq!(
        maze_view.height, 2,
        "Expected height to be 2, got {}",
        maze_view.height
    );
    assert_eq!(
        maze_view.width, 2,
        "Expected height to be 2, got {}",
        maze_view.width
    );

    for cell in maze_view.cells.unwrap() {
        assert_eq!(cell.up, true, "cell.up was false");
        assert_eq!(cell.down, true, "cell.down was false");
        assert_eq!(cell.left, true, "cell.left was false");
        assert_eq!(cell.right, true, "cell.right was false");
        assert_eq!(
            cell.character, ' ',
            "cell.character was '{}'",
            cell.character
        );
        assert_eq!(cell.path, false, "cell.path was true");
        assert_eq!(cell.route, false, "cell.route was true");
        assert_eq!(cell.observed, false, "cell.observed was true");
        assert_eq!(cell.queued, false, "cell.queued was true");
        assert_eq!(cell.start, false, "cell.start was true");
        assert_eq!(cell.stop, false, "cell.stop was true");
    }
}

#[test]
fn symbol_detection() {
    let mut maze_view = MazeView::new();

    maze_view.load_maze(
        "\
#######
#Q : x#
# #####
#. *  #
##### #
#s    #
#######",
    );

    assert_eq!(maze_view.height, 3);
    assert_eq!(maze_view.width, 3);

    let mut expected: Vec<Cell> = Vec::with_capacity(maze_view.height * maze_view.width);

    for _ in 0..(maze_view.height * maze_view.width) {
        expected.push(Cell {
            up: true,
            down: true,
            left: true,
            right: true,
            character: ' ',
            path: false,
            route: false,
            observed: false,
            queued: false,
            start: false,
            stop: false,
        });
    }

    expected[0].character = 'Q';
    expected[0].right = false;
    expected[0].down = false;
    expected[0].queued = true;

    expected[1].character = ':';
    expected[1].right = false;
    expected[1].left = false;
    expected[1].observed = true;

    expected[2].character = 'x';
    expected[2].left = false;
    expected[2].path = true;
    expected[2].route = true;
    expected[2].stop = true;

    expected[3].character = '.';
    expected[3].up = false;
    expected[3].right = false;
    expected[3].path = true;

    expected[4].character = '*';
    expected[4].left = false;
    expected[4].right = false;
    expected[4].path = true;
    expected[4].route = true;

    expected[5].left = false;
    expected[5].down = false;

    expected[6].character = 's';
    expected[6].right = false;
    expected[6].path = true;
    expected[6].route = true;
    expected[6].start = true;

    expected[7].left = false;
    expected[7].right = false;

    expected[8].left = false;
    expected[8].up = false;

    let parsed = maze_view.cells.unwrap();
    for (i, (left, right)) in parsed.iter().zip(expected.iter()).enumerate() {
        assert_eq!(left, right, "{}: {:?} != {:?}", i, left, right);
    }
}

#[test]
fn blank_maze_parses_to_all_walls() {
    let mut app = App::new();
    app.set_max_size(6);
    app.set_width(5);
    app.set_height(4);
    app.clear_maze();

    let mut maze_view = MazeView::new();
    maze_view.load_maze(&app.maze);

    assert_eq!(maze_view.width, 5);
    assert_eq!(maze_view.height, 4);
    let cells = maze_view.cells.unwrap();
    assert_eq!(cells.len(), 20);
    for cell in cells {
        assert!(cell.up && cell.down && cell.left && cell.right);
        assert!(!cell.path && !cell.route && !cell.observed && !cell.queued);
        assert!(!cell.start && !cell.stop);
    }
}

#[test]
fn short_text_is_ignored() {
    let mut maze_view = MazeView::new();
    maze_view.load_maze("###\n# #\n###");
    assert!(maze_view.cells.is_none());
    assert_eq!(maze_view.width, 0);
    assert_eq!(maze_view.height, 0);
}

#[test]
fn ragged_text_is_ignored() {
    let mut maze_view = MazeView::new();
    maze_view.load_maze("#####\n# # #\n#####\n# #\n#####\nfiller to reach length");
    assert!(maze_view.cells.is_none());
}
