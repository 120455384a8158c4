use maze_viewer::algorithms::{BiasMethods, GenAlgorithms, SolveAlgorithms, TreeSubAlgorithm};
use maze_viewer::app::App;
use maze_viewer::keys::{Action, KeyInput};

#[test]
fn tree_ring_ten_rights_returns() {
    let mut t = TreeSubAlgorithm::Newest;
    for _ in 0..10 {
        t = t.next(50);
    }
    assert_eq!(t, TreeSubAlgorithm::Newest);
}

#[test]
fn tree_ring_left_from_newest() {
    let t = TreeSubAlgorithm::Newest.prev(42);
    assert_eq!(t, TreeSubAlgorithm::OldestRandom(42));
}

#[test]
fn tree_ring_order() {
    let mut t = TreeSubAlgorithm::Newest;
    let expected = [
        TreeSubAlgorithm::Middle,
        TreeSubAlgorithm::Oldest,
        TreeSubAlgorithm::Random,
        TreeSubAlgorithm::NewestMiddle(50),
        TreeSubAlgorithm::NewestOldest(50),
        TreeSubAlgorithm::NewestRandom(50),
        TreeSubAlgorithm::MiddleOldest(50),
        TreeSubAlgorithm::MiddleRandom(50),
        TreeSubAlgorithm::OldestRandom(50),
        TreeSubAlgorithm::Newest,
    ];
    for want in expected {
        t = t.next(50);
        assert_eq!(t, want);
    }
    for _ in 0..10 {
        t = t.prev(50);
    }
    assert_eq!(t, TreeSubAlgorithm::Newest);
}

#[test]
fn bias_ring_four_rights_returns() {
    let mut b = BiasMethods::NorthWest;
    let expected = [
        BiasMethods::NorthEast,
        BiasMethods::SouthWest,
        BiasMethods::SouthEast,
        BiasMethods::NorthWest,
    ];
    for want in expected {
        b = b.next();
        assert_eq!(b, want);
    }
    assert_eq!(BiasMethods::NorthWest.prev(), BiasMethods::SouthEast);
}

#[test]
fn display_names() {
    assert_eq!(GenAlgorithms::Kruskal.get_name(), "Kruskal");
    assert_eq!(GenAlgorithms::Back.get_name(), "Recursive Backtracking");
    assert_eq!(GenAlgorithms::Divide.get_name(), "Recursive Division");
    assert_eq!(
        GenAlgorithms::GrowingTree(TreeSubAlgorithm::NewestMiddle(50)).get_name(),
        "Growing-Tree Newest-Middle 0.50"
    );
    assert_eq!(
        GenAlgorithms::BinaryTree(BiasMethods::SouthEast).get_name(),
        "Binary-Tree SouthEast"
    );
    assert_eq!(SolveAlgorithms::Depth.get_name(), "Depth First");
    assert_eq!(SolveAlgorithms::AStar.get_name(), "A-Star");
}

#[test]
fn token_names() {
    assert_eq!(GenAlgorithms::Back.to_string(), "Back");
    assert_eq!(GenAlgorithms::Divide.to_string(), "Divide");
    assert_eq!(
        GenAlgorithms::GrowingTree(TreeSubAlgorithm::OldestRandom(37)).to_string(),
        "Growing-Tree Oldest-Random 0.37"
    );
    assert_eq!(
        GenAlgorithms::GrowingTree(TreeSubAlgorithm::NewestRandom(100)).to_string(),
        "Growing-Tree Newest-Random 1.00"
    );
    assert_eq!(SolveAlgorithms::Breadth.to_string(), "Breadth");
    assert_eq!(SolveAlgorithms::AStar.to_string(), "A-Star");
    assert_eq!(BiasMethods::NorthWest.to_string(), "NorthWest");
}

#[test]
fn quit_key_quits() {
    let mut app = App::new();
    let action = app.handle_key(KeyInput::Char('q'));
    assert_eq!(action, Action::Quit);
}

#[test]
fn speed_entry_commits_on_escape() {
    let mut app = App::new();
    assert_eq!(app.handle_key(KeyInput::Char('p')), Action::Nothing);
    app.handle_key(KeyInput::Char('7'));
    app.handle_key(KeyInput::Char('5'));
    app.handle_key(KeyInput::Esc);
    assert_eq!(app.get_speed(), 75);
}

#[test]
fn size_entry_commits_on_enter() {
    let mut app = App::new();
    app.set_max_size(40);
    app.handle_key(KeyInput::Char('z'));
    app.handle_key(KeyInput::Backspace);
    app.handle_key(KeyInput::Char('1'));
    app.handle_key(KeyInput::Char('2'));
    app.handle_key(KeyInput::Enter);
    assert_eq!(app.get_width(), 12);
    app.handle_key(KeyInput::Char('h'));
    app.handle_key(KeyInput::Backspace);
    app.handle_key(KeyInput::Char('9'));
    app.handle_key(KeyInput::Enter);
    assert_eq!(app.get_height(), 9);
    app.handle_key(KeyInput::Esc);
    assert!(app.maze.starts_with("#########################\n"));
}

#[test]
fn algorithm_list_moves_and_ring_steps() {
    let mut app = App::new();
    app.handle_key(KeyInput::Char('a'));
    for _ in 0..4 {
        app.handle_key(KeyInput::Down);
    }
    assert_eq!(
        app.gen_algorithm,
        GenAlgorithms::GrowingTree(TreeSubAlgorithm::Newest)
    );
    for _ in 0..4 {
        app.handle_key(KeyInput::Right);
    }
    assert_eq!(
        app.gen_algorithm,
        GenAlgorithms::GrowingTree(TreeSubAlgorithm::NewestMiddle(50))
    );
    app.handle_key(KeyInput::Char('2'));
    app.handle_key(KeyInput::Char('5'));
    assert_eq!(
        app.gen_algorithm,
        GenAlgorithms::GrowingTree(TreeSubAlgorithm::NewestMiddle(25))
    );
    assert_eq!(app.get_ratio(), 25);
    app.handle_key(KeyInput::Backspace);
    assert_eq!(
        app.gen_algorithm,
        GenAlgorithms::GrowingTree(TreeSubAlgorithm::NewestMiddle(2))
    );
    app.handle_key(KeyInput::Up);
    assert_eq!(app.gen_algorithm, GenAlgorithms::AldousBroder);
    app.handle_key(KeyInput::Down);
    assert_eq!(
        app.gen_algorithm,
        GenAlgorithms::GrowingTree(TreeSubAlgorithm::NewestMiddle(2))
    );
}

#[test]
fn solver_list_clamps_at_ends() {
    let mut app = App::new();
    app.handle_key(KeyInput::Char('a'));
    app.handle_key(KeyInput::Tab);
    app.handle_key(KeyInput::Up);
    assert_eq!(app.solve_algorithm, SolveAlgorithms::Depth);
    for _ in 0..10 {
        app.handle_key(KeyInput::Down);
    }
    assert_eq!(app.solve_algorithm, SolveAlgorithms::AStar);
}

#[test]
fn playback_keys_step_through_sequence() {
    let mut app = App::new();
    app.load_steps("a\n\nb\n\nc");
    app.has_generated = true;
    app.handle_key(KeyInput::Right);
    assert_eq!(app.get_step_val(), 1);
    assert_eq!(app.maze, "b");
    app.handle_key(KeyInput::Right);
    app.handle_key(KeyInput::Right);
    assert_eq!(app.get_step_val(), 2);
    app.handle_key(KeyInput::Left);
    assert_eq!(app.get_step_val(), 1);
    assert_eq!(app.maze, "b");
    app.set_step_val(2);
    assert_eq!(app.handle_key(KeyInput::Char('r')), Action::Playback);
    assert_eq!(app.get_step_val(), 0);
}
