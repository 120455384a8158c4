use maze_viewer::app::{enter_value, App};

#[test]
fn set_height_test() {
    let mut app = App::new();

    app.set_max_size(10);

    assert_eq!(
        app.get_height(),
        2,
        "App.height should start as 2. Got {} instead",
        app.get_height()
    );

    app.set_height(5);

    assert_eq!(
        app.get_height(),
        5,
        "App.height should have changed to 5. Got {} instead",
        app.get_height()
    );

    app.set_height(11);

    assert_eq!(
        app.get_height(),
        10,
        "App.height should not go above 10. Got {} instead",
        app.get_height()
    );
}

#[test]
fn set_width_test() {
    let mut app = App::new();

    app.set_max_size(10);

    assert_eq!(
        app.get_width(),
        2,
        "App.width should start as 2. Got {} instead",
        app.get_width()
    );

    app.set_width(5);

    assert_eq!(
        app.get_width(),
        5,
        "App.width should have changed to 5. Got {} instead",
        app.get_width()
    );

    app.set_width(11);

    assert_eq!(
        app.get_width(),
        10,
        "App.width should not go above 10. Got {} instead",
        app.get_width()
    );
}

#[test]
fn clear_maze_test() {
    let mut app = App::new();

    app.set_max_size(3);
    app.set_width(3);
    app.set_height(3);

    app.clear_maze();

    let expected = "\
#######
# # # #
#######
# # # #
#######
# # # #
#######";

    assert_eq!(expected, app.maze);
}

#[test]
fn load_steps_test() {
    let mut app = App::new();

    let test_str = "\
#####
# # #
#####
# # #
#####

#####
# # #
#####
# # #
#####

#####
# # #
#####
# # #
#####";

    let expected = vec![
        "\
#####
# # #
#####
# # #
#####",
        "\
#####
# # #
#####
# # #
#####",
        "\
#####
# # #
#####
# # #
#####",
    ];

    app.load_steps(test_str);

    assert_eq!(
        expected, app.maze_steps,
        "Maze steps did not parse the maze correctly"
    );
    assert_eq!(
        3,
        app.maze_steps.len(),
        "Maze steps was not 3. Got {}",
        app.maze_steps.len()
    );
}

#[test]
fn load_steps_normalizes_crlf() {
    let mut app = App::new();
    app.load_steps("aa\r\n\r\nbb");
    assert_eq!(app.maze_steps, vec!["aa", "bb"]);
    assert_eq!(app.get_step_val(), 0);
}

#[test]
fn load_steps_round_trip_preserves_snapshots() {
    let mut app = App::new();
    let text = "one\n\ntwo\n\nthree";
    app.load_steps(text);
    assert_eq!(app.maze_steps, vec!["one", "two", "three"]);
    assert_eq!(app.maze_steps.join("\n\n"), text);
}

#[test]
fn setters_clamp_and_are_idempotent() {
    let mut app = App::new();
    app.set_max_size(20);

    app.set_width(0);
    assert_eq!(app.get_width(), 2);
    app.set_width(50);
    assert_eq!(app.get_width(), 20);
    app.set_width(7);
    assert_eq!(app.get_width(), 7);
    let w = app.get_width();
    app.set_width(w);
    assert_eq!(app.get_width(), 7);

    app.set_speed(0);
    assert_eq!(app.get_speed(), 1);
    app.set_speed(500);
    assert_eq!(app.get_speed(), 100);
    let s = app.get_speed();
    app.set_speed(s);
    assert_eq!(app.get_speed(), 100);

    app.set_ratio(250);
    assert_eq!(app.get_ratio(), 100);
    app.set_ratio(37);
    assert_eq!(app.get_ratio(), 37);
    let r = app.get_ratio();
    app.set_ratio(r);
    assert_eq!(app.get_ratio(), 37);
}

#[test]
fn shrinking_max_size_reclamps_dimensions() {
    let mut app = App::new();
    app.set_max_size(30);
    app.set_width(25);
    app.set_height(30);
    app.set_max_size(10);
    assert_eq!(app.get_max_size(), 10);
    assert_eq!(app.get_width(), 10);
    assert_eq!(app.get_height(), 10);
    app.set_max_size(0);
    assert_eq!(app.get_max_size(), 2);
    assert_eq!(app.get_width(), 2);
    assert_eq!(app.get_height(), 2);
}

#[test]
fn period_follows_speed() {
    let mut app = App::new();
    app.set_speed(100);
    assert_eq!(app.get_period(), 10);
    app.set_speed(1);
    assert_eq!(app.get_period(), 1000);
    app.set_speed(0);
    assert_eq!(app.get_speed(), 1);
    assert_eq!(app.get_period(), 1000);
    app.set_speed(3);
    assert_eq!(app.get_period(), 333);
}

#[test]
fn set_step_clamps_to_sequence() {
    let mut app = App::new();
    app.load_steps("a\n\nb\n\nc");
    app.set_step_val(1);
    assert_eq!(app.get_step_val(), 1);
    assert_eq!(app.get_step(), "b");
    app.set_step_val(99);
    assert_eq!(app.get_step_val(), 2);
    assert_eq!(app.get_step(), "c");
}

#[test]
fn enter_value_accumulates_digits() {
    assert_eq!(enter_value(5, 2, 100), 25);
    assert_eq!(enter_value(0, 10, 100), 100);
    assert_eq!(enter_value(9, 15, 100), 9);
    assert_eq!(enter_value(7, 0, 100), 7);
    assert_eq!(enter_value(3, 4, 30), 3);
}
