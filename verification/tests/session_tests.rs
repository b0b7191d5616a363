use chaikin::{
    chaikin, Action, App, Button, DrawCommand, Event, Key, Message, Point, Status, MARKER_RADIUS,
    STROKE_WIDTH, SUBUNITS_PER_UNIT, TARGET_ITERATIONS, TICK_MILLIS,
};

fn units(x: i64, y: i64) -> Point {
    Point::new(x * SUBUNITS_PER_UNIT, y * SUBUNITS_PER_UNIT)
}

fn press(at: Point) -> Event {
    Event::ButtonPressed { button: Button::Left, cursor: Some(at) }
}

fn moved(to: Point) -> Event {
    Event::CursorMoved { cursor: Some(to) }
}

fn app_with(points: &[Point]) -> App {
    let mut app = App::new();
    for p in points {
        assert_eq!(app.update(Message::MousePressed(*p)), Action::Continue);
    }
    app
}

fn triangle() -> Vec<Point> {
    vec![units(0, 0), units(10, 0), units(10, 10)]
}

#[test]
fn a_new_session_is_empty() {
    let app = App::new();
    assert!(app.points().is_empty());
    assert!(app.displayed().is_empty());
    assert_eq!(app.target_iterations(), 7);
    assert_eq!(TARGET_ITERATIONS, 7);
    assert_eq!(app.current_iteration(), 0);
    assert!(!app.is_animating());
    assert!(!app.is_modifier_held());
    assert!(!app.is_dragging());
    assert_eq!(app.drag_target(), None);
    assert!(app.can_tick());
}

#[test]
fn a_press_asks_for_a_point_and_the_command_appends_it() {
    let mut app = App::new();
    let (status, message) = app.handle_event(press(units(3, 4)));
    assert_eq!(status, Status::Captured);
    assert_eq!(message, Some(Message::MousePressed(units(3, 4))));
    assert!(app.points().is_empty());
    app.update(message.unwrap());
    app.update(Message::MousePressed(units(8, 9)));
    assert_eq!(app.points(), &vec![units(3, 4), units(8, 9)]);
    assert!(app.displayed().is_empty());
}

#[test]
fn a_press_during_the_animation_is_ignored() {
    let mut app = app_with(&triangle());
    app.update(Message::RunChaikinAnimation);
    assert_eq!(app.handle_event(press(units(3, 4))), (Status::Ignored, None));
    assert_eq!(app.points(), &triangle());
}

#[test]
fn other_buttons_are_ignored() {
    let mut app = App::new();
    for button in [Button::Right, Button::Middle, Button::Other] {
        let event = Event::ButtonPressed { button, cursor: Some(units(1, 1)) };
        assert_eq!(app.handle_event(event), (Status::Ignored, None));
    }
    assert_eq!(app.handle_event(Event::Other), (Status::Ignored, None));
    assert!(app.points().is_empty());
}

#[test]
fn a_pointer_event_without_a_position_is_ignored() {
    let mut app = app_with(&[units(5, 5), units(50, 50)]);
    let nowhere = Event::ButtonPressed { button: Button::Left, cursor: None };
    assert_eq!(app.handle_event(nowhere), (Status::Ignored, None));
    app.handle_event(Event::KeyPressed(Key::Control));
    assert_eq!(app.handle_event(nowhere), (Status::Ignored, None));
    assert!(!app.is_dragging());
    app.handle_event(press(units(6, 6)));
    assert!(app.is_dragging());
    assert_eq!(app.handle_event(Event::CursorMoved { cursor: None }), (Status::Ignored, None));
    assert_eq!(app.points(), &vec![units(5, 5), units(50, 50)]);
}

#[test]
fn dragging_moves_the_picked_point_only() {
    let mut app = app_with(&[units(5, 5), units(50, 50)]);
    assert_eq!(app.handle_event(Event::KeyPressed(Key::Control)), (Status::Ignored, None));
    assert!(app.is_modifier_held());
    assert_eq!(app.handle_event(press(units(6, 6))), (Status::Captured, None));
    assert!(app.is_dragging());
    assert_eq!(app.drag_target(), Some((0, units(5, 5))));
    let (status, message) = app.handle_event(moved(units(20, 20)));
    assert_eq!(status, Status::Captured);
    assert_eq!(message, Some(Message::MovePoint(units(20, 20))));
    assert_eq!(app.update(message.unwrap()), Action::Continue);
    assert_eq!(app.points(), &vec![units(20, 20), units(50, 50)]);
    assert_eq!(app.drag_target(), Some((0, units(5, 5))));
}

#[test]
fn a_drag_picks_the_lower_index_of_two_points_in_reach() {
    let mut app = app_with(&[units(10, 10), units(12, 10), units(13, 10)]);
    app.handle_event(Event::KeyPressed(Key::Control));
    assert_eq!(app.handle_event(press(units(13, 10))), (Status::Captured, None));
    assert_eq!(app.drag_target(), Some((0, units(10, 10))));
}

#[test]
fn a_press_that_hits_nothing_changes_nothing() {
    let mut app = app_with(&[units(5, 5), units(50, 50)]);
    app.handle_event(Event::KeyPressed(Key::Control));
    assert_eq!(app.handle_event(press(units(30, 30))), (Status::Ignored, None));
    assert!(!app.is_dragging());
    assert_eq!(app.drag_target(), None);
    assert_eq!(app.handle_event(moved(units(31, 31))), (Status::Ignored, None));
    app.update(Message::MovePoint(units(31, 31)));
    assert_eq!(app.points(), &vec![units(5, 5), units(50, 50)]);
}

#[test]
fn a_press_with_the_modifier_held_adds_no_point() {
    let mut app = App::new();
    app.handle_event(Event::KeyPressed(Key::Control));
    assert_eq!(app.handle_event(press(units(30, 30))), (Status::Ignored, None));
    assert!(app.points().is_empty());
}

#[test]
fn letting_go_of_the_modifier_ends_the_drag() {
    let mut app = app_with(&[units(5, 5), units(50, 50)]);
    app.handle_event(Event::KeyPressed(Key::Control));
    app.handle_event(press(units(49, 51)));
    assert_eq!(app.drag_target(), Some((1, units(50, 50))));
    assert_eq!(app.handle_event(Event::KeyReleased(Key::Control)), (Status::Ignored, None));
    assert!(!app.is_modifier_held());
    assert!(!app.is_dragging());
    assert_eq!(app.drag_target(), None);
    assert_eq!(app.handle_event(moved(units(20, 20))), (Status::Ignored, None));
    app.update(Message::MovePoint(units(20, 20)));
    assert_eq!(app.points(), &vec![units(5, 5), units(50, 50)]);
}

#[test]
fn a_point_can_be_dragged_while_the_animation_runs() {
    let mut app = app_with(&triangle());
    app.update(Message::RunChaikinAnimation);
    app.handle_event(Event::KeyPressed(Key::Control));
    assert_eq!(app.handle_event(press(units(10, 1))), (Status::Captured, None));
    app.update(Message::MovePoint(units(20, 0)));
    assert_eq!(app.points(), &vec![units(0, 0), units(20, 0), units(10, 10)]);
    assert!(app.is_animating());
}

#[test]
fn keys_map_to_commands() {
    let mut app = App::new();
    assert_eq!(
        app.handle_event(Event::KeyPressed(Key::Enter)),
        (Status::Captured, Some(Message::RunChaikinAnimation))
    );
    assert_eq!(
        app.handle_event(Event::KeyPressed(Key::Escape)),
        (Status::Captured, Some(Message::Quit))
    );
    assert_eq!(
        app.handle_event(Event::KeyPressed(Key::Character('r'))),
        (Status::Captured, Some(Message::Reset))
    );
    assert_eq!(app.handle_event(Event::KeyPressed(Key::Character('R'))), (Status::Ignored, None));
    assert_eq!(app.handle_event(Event::KeyPressed(Key::Character('x'))), (Status::Ignored, None));
    assert_eq!(app.handle_event(Event::KeyPressed(Key::Other)), (Status::Ignored, None));
    assert_eq!(app.handle_event(Event::KeyReleased(Key::Enter)), (Status::Ignored, None));
    assert_eq!(app.handle_event(Event::KeyReleased(Key::Character('r'))), (Status::Ignored, None));
    assert!(!app.is_animating());
    assert!(!app.is_modifier_held());
}

#[test]
fn quit_asks_the_host_to_exit() {
    let mut app = app_with(&triangle());
    assert_eq!(app.update(Message::Quit), Action::Exit);
    assert_eq!(app.points(), &triangle());
    assert_eq!(app.update(Message::Reset), Action::Continue);
    assert_eq!(app.update(Message::Tick), Action::Continue);
}

#[test]
fn starting_twice_is_starting_once() {
    let mut app = app_with(&triangle());
    assert_eq!(app.subscription(), None);
    app.update(Message::RunChaikinAnimation);
    assert!(app.is_animating());
    assert_eq!(app.subscription(), Some(250));
    assert_eq!(TICK_MILLIS, 250);
    app.update(Message::Tick);
    app.update(Message::RunChaikinAnimation);
    assert!(app.is_animating());
    assert_eq!(app.current_iteration(), 1);
    assert_eq!(app.displayed(), &triangle());
}

#[test]
fn a_tick_without_animation_does_nothing() {
    let mut app = app_with(&triangle());
    app.update(Message::Tick);
    assert!(app.displayed().is_empty());
    assert_eq!(app.current_iteration(), 0);
}

#[test]
fn the_animation_runs_in_a_loop() {
    let mut app = app_with(&triangle());
    app.update(Message::RunChaikinAnimation);
    for k in 0..7 {
        assert_eq!(app.current_iteration(), k);
        app.update(Message::Tick);
        assert_eq!(app.displayed(), &chaikin(&triangle(), k).unwrap());
        assert_eq!(app.displayed().len(), 3 << k);
    }
    assert_eq!(app.current_iteration(), 7);
    // The ramp is over: the count goes back and the screen stays.
    app.update(Message::Tick);
    assert_eq!(app.current_iteration(), 0);
    assert_eq!(app.displayed(), &chaikin(&triangle(), 6).unwrap());
    assert!(app.is_animating());
    // And it starts again from the control points themselves.
    app.update(Message::Tick);
    assert_eq!(app.displayed(), &triangle());
    assert_eq!(app.current_iteration(), 1);
    assert!(app.is_animating());
    assert_eq!(app.subscription(), Some(250));
}

#[test]
fn two_points_never_advance() {
    let two = vec![units(0, 0), units(10, 10)];
    let mut app = app_with(&two);
    app.update(Message::RunChaikinAnimation);
    for _ in 0..10 {
        app.update(Message::Tick);
        assert_eq!(app.displayed(), &two);
        assert_eq!(app.current_iteration(), 0);
    }
}

#[test]
fn fewer_than_two_points_show_nothing() {
    let mut app = App::new();
    app.update(Message::RunChaikinAnimation);
    app.update(Message::Tick);
    assert!(app.displayed().is_empty());
    assert_eq!(app.current_iteration(), 0);
    let mut app = app_with(&[units(1, 1)]);
    app.update(Message::RunChaikinAnimation);
    app.update(Message::Tick);
    assert!(app.displayed().is_empty());
    assert_eq!(app.current_iteration(), 0);
}

#[test]
fn a_tick_shows_the_points_as_they_are_now() {
    let mut app = app_with(&triangle());
    app.update(Message::RunChaikinAnimation);
    app.update(Message::Tick);
    app.handle_event(Event::KeyPressed(Key::Control));
    app.handle_event(press(units(10, 0)));
    app.update(Message::MovePoint(units(20, 0)));
    app.update(Message::Tick);
    let now = vec![units(0, 0), units(20, 0), units(10, 10)];
    assert_eq!(app.displayed(), &chaikin(&now, 1).unwrap());
    assert_eq!(app.current_iteration(), 2);
}

#[test]
fn reset_clears_the_session_whatever_it_was() {
    let mut app = app_with(&triangle());
    app.update(Message::RunChaikinAnimation);
    app.update(Message::Tick);
    app.update(Message::Tick);
    app.handle_event(Event::KeyPressed(Key::Control));
    app.handle_event(press(units(10, 10)));
    assert!(app.is_dragging());
    assert_eq!(app.update(Message::Reset), Action::Continue);
    assert!(app.points().is_empty());
    assert!(app.displayed().is_empty());
    assert_eq!(app.current_iteration(), 0);
    assert!(!app.is_animating());
    assert_eq!(app.subscription(), None);
    assert!(!app.is_dragging());
    assert_eq!(app.drag_target(), None);
    assert!(app.is_modifier_held());
    assert_eq!(app.target_iterations(), 7);
    // A move that follows finds nothing to move.
    app.update(Message::MovePoint(units(1, 1)));
    assert!(app.points().is_empty());
}

#[test]
fn reset_of_a_new_session_changes_nothing() {
    let mut app = App::new();
    app.update(Message::Reset);
    assert!(app.points().is_empty());
    assert!(app.displayed().is_empty());
    assert_eq!(app.current_iteration(), 0);
    assert!(!app.is_animating());
}

#[test]
fn the_scene_is_the_markers_and_then_the_curve() {
    let mut app = app_with(&triangle());
    let markers: Vec<DrawCommand> = triangle()
        .into_iter()
        .map(|center| DrawCommand::Marker { center, radius: MARKER_RADIUS })
        .collect();
    assert_eq!(app.draw(), markers);
    app.update(Message::RunChaikinAnimation);
    app.update(Message::Tick);
    app.update(Message::Tick);
    let drawn = app.draw();
    assert_eq!(drawn.len(), 4);
    assert_eq!(drawn[..3], markers[..]);
    assert_eq!(
        drawn[3],
        DrawCommand::Polyline { points: chaikin(&triangle(), 1).unwrap(), width: STROKE_WIDTH }
    );
    assert_eq!(MARKER_RADIUS * 2, 5 * SUBUNITS_PER_UNIT);
    assert_eq!(STROKE_WIDTH, SUBUNITS_PER_UNIT);
}

#[test]
fn an_empty_session_draws_nothing() {
    assert!(App::new().draw().is_empty());
}

#[test]
fn the_title_is_fixed() {
    assert_eq!(App::new().title(), "Chaikin's Algorithm Animation");
}
