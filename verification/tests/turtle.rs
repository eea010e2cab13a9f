use l_system::dragon::{DragonToken, STEP};
use l_system::fixed::{times, ONE};
use l_system::tree::{TreeToken, FORK, TWIG};
use l_system::trig::{cos, normalize, sin, FULL_TURN, HALF_TURN, QUARTER_TURN};
use l_system::turtle::{
    Color, Line, Point, Turtle, TurtleAction, TurtleDrawer, TurtleError, TurtleToken,
    DEFAULT_THICKNESS,
};

const WHITE: Color = Color { r: 255, g: 255, b: 255, a: 255 };
const BLACK: Color = Color { r: 0, g: 0, b: 0, a: 255 };
const RED: Color = Color { r: 230, g: 41, b: 55, a: 255 };
const DEGREE: i64 = 3600;

fn at(x: i64, y: i64) -> Point {
    Point { x: x * ONE, y: y * ONE }
}

fn plain_drawer() -> TurtleDrawer {
    TurtleDrawer::new(at(1000, 1000), at(1, 1), at(0, 0), BLACK)
}

#[test]
fn one_is_two_to_the_24() {
    assert_eq!(ONE, 1 << 24);
    assert_eq!(STEP, 3 * ONE);
    assert_eq!(TWIG, 20 * ONE);
    assert_eq!(DEFAULT_THICKNESS, 3 * ONE);
}

#[test]
fn a_turn_is_counted_in_arcseconds() {
    assert_eq!(FULL_TURN, 360 * DEGREE);
    assert_eq!(HALF_TURN, 180 * DEGREE);
    assert_eq!(QUARTER_TURN, 90 * DEGREE);
    assert_eq!(FORK, 30 * DEGREE);
}

#[test]
fn products_round_toward_zero() {
    assert_eq!(times(3 * ONE, 2 * ONE), Some(6 * ONE));
    assert_eq!(times(ONE / 2, ONE / 2), Some(ONE / 4));
    assert_eq!(times(-3 * ONE, 2 * ONE), Some(-6 * ONE));
    assert_eq!(times(-3 * ONE, -2 * ONE), Some(6 * ONE));
    assert_eq!(times(1, ONE / 2), Some(0));
    assert_eq!(times(-1, ONE / 2), Some(0));
    assert_eq!(times(3, ONE / 2), Some(1));
    assert_eq!(times(-3, ONE / 2), Some(-1));
    assert_eq!(times(0, i64::MIN), Some(0));
    assert_eq!(times(i64::MAX, ONE), Some(i64::MAX));
    assert_eq!(times(i64::MIN, ONE), Some(i64::MIN));
}

#[test]
fn a_product_out_of_range_is_none() {
    assert_eq!(times(i64::MAX, 2 * ONE), None);
    assert_eq!(times(i64::MIN, -ONE), None);
    assert_eq!(times(i64::MIN, 2 * ONE), None);
    assert_eq!(times(i64::MIN, i64::MIN), None);
}

#[test]
fn angles_wrap_into_one_turn() {
    assert_eq!(normalize(0), 0);
    assert_eq!(normalize(FULL_TURN), 0);
    assert_eq!(normalize(FULL_TURN + 5), 5);
    assert_eq!(normalize(-5), FULL_TURN - 5);
    assert_eq!(normalize(-FULL_TURN), 0);
    assert_eq!(normalize(3 * FULL_TURN + 7), 7);
    assert_eq!(normalize(i64::MAX), i64::MAX % FULL_TURN);
    assert_eq!(normalize(i64::MIN), i64::MIN.rem_euclid(FULL_TURN));
}

#[test]
fn sine_and_cosine_are_exact_on_the_axes() {
    assert_eq!((cos(0), sin(0)), (ONE, 0));
    assert_eq!((cos(QUARTER_TURN), sin(QUARTER_TURN)), (0, ONE));
    assert_eq!((cos(HALF_TURN), sin(HALF_TURN)), (-ONE, 0));
    assert_eq!((cos(3 * QUARTER_TURN), sin(3 * QUARTER_TURN)), (0, -ONE));
    assert_eq!((cos(FULL_TURN), sin(FULL_TURN)), (ONE, 0));
    assert_eq!((cos(-QUARTER_TURN), sin(-QUARTER_TURN)), (0, -ONE));
}

#[test]
fn sine_is_exact_at_thirty_degrees() {
    assert_eq!(sin(30 * DEGREE), ONE / 2);
    assert_eq!(sin(150 * DEGREE), ONE / 2);
    assert_eq!(sin(210 * DEGREE), -ONE / 2);
    assert_eq!(sin(-30 * DEGREE), -ONE / 2);
    assert_eq!(cos(60 * DEGREE), ONE / 2);
    assert_eq!(cos(120 * DEGREE), -ONE / 2);
}

#[test]
fn sine_follows_the_formula_elsewhere() {
    // 16 x (180 - x) / (5 * 180 * 180 - 4 x (180 - x)) at x = 45 is 12 / 17,
    // at x = 60 it is 32 / 37.
    assert_eq!(sin(45 * DEGREE), 12 * ONE / 17);
    assert_eq!(cos(45 * DEGREE), 12 * ONE / 17);
    assert_eq!(sin(60 * DEGREE), 32 * ONE / 37);
    assert_eq!(cos(30 * DEGREE), 32 * ONE / 37);
    assert_eq!(sin(225 * DEGREE), -(12 * ONE / 17));
}

#[test]
fn sine_is_close_to_the_true_sine() {
    let mut angle = 0;
    while angle < FULL_TURN {
        let radians = angle as f64 / HALF_TURN as f64 * std::f64::consts::PI;
        let s = sin(angle) as f64 / ONE as f64;
        let c = cos(angle) as f64 / ONE as f64;
        assert!((s - radians.sin()).abs() < 0.002);
        assert!((c - radians.cos()).abs() < 0.002);
        angle += 997;
    }
}

#[test]
fn sine_and_cosine_stay_within_one() {
    let mut angle = -FULL_TURN;
    while angle < 2 * FULL_TURN {
        assert!(-ONE <= sin(angle) && sin(angle) <= ONE);
        assert!(-ONE <= cos(angle) && cos(angle) <= ONE);
        angle += 1234;
    }
}

#[test]
fn a_new_turtle_looks_up_with_its_pen_down() {
    let turtle = Turtle::new(RED, 2 * ONE);
    assert_eq!(
        turtle,
        Turtle {
            color: RED,
            position: at(0, 0),
            direction: QUARTER_TURN,
            drawing: true,
            thickness: 2 * ONE,
        }
    );
}

#[test]
fn a_new_drawer_draws_in_white_three_wide() {
    let drawer = TurtleDrawer::new(at(1000, 800), at(1, 2), at(300, 700), BLACK);
    assert_eq!(drawer.turtle(), Turtle::new(WHITE, 3 * ONE));
    assert_eq!(drawer.depth(), 0);
    assert_eq!(drawer.screen(), at(1000, 800));
    assert_eq!(drawer.scale(), at(1, 2));
    assert_eq!(drawer.origin(), at(300, 700));
    assert_eq!(drawer.background(), BLACK);
    let other = TurtleDrawer::with_pen(at(1, 1), at(1, 1), at(0, 0), WHITE, RED, ONE);
    assert_eq!(other.turtle(), Turtle::new(RED, ONE));
    assert_eq!(other.depth(), 0);
}

#[test]
fn move_turn_move() {
    let mut turtle = Turtle::new(WHITE, ONE);
    let first = turtle.move_forward(10 * ONE);
    assert_eq!(
        first,
        Ok(Some(Line { start: at(0, 0), end: at(0, 10), color: WHITE, thickness: ONE }))
    );
    turtle.rotate(QUARTER_TURN);
    assert_eq!(turtle.direction, HALF_TURN);
    let second = turtle.move_forward(10 * ONE);
    assert_eq!(
        second,
        Ok(Some(Line { start: at(0, 10), end: at(-10, 10), color: WHITE, thickness: ONE }))
    );
    assert_eq!(turtle.position, at(-10, 10));
}

#[test]
fn move_turn_move_on_the_screen() {
    let mut drawer = TurtleDrawer::new(at(1000, 1000), at(1, 1), at(300, 700), BLACK);
    let lines = drawer.execute(&vec![
        TurtleAction::Move(10 * ONE),
        TurtleAction::Rotate(QUARTER_TURN),
        TurtleAction::Move(10 * ONE),
    ]);
    assert_eq!(
        lines,
        Ok(vec![
            Line { start: at(300, 700), end: at(300, 690), color: WHITE, thickness: 3 * ONE },
            Line { start: at(300, 690), end: at(290, 690), color: WHITE, thickness: 3 * ONE },
        ])
    );
    assert_eq!(drawer.turtle().position, at(-10, 10));
    assert_eq!(drawer.turtle().direction, HALF_TURN);
}

#[test]
fn the_screen_is_scaled_and_its_rows_run_downward() {
    let mut drawer = TurtleDrawer::new(
        at(1000, 1000),
        Point { x: ONE / 2, y: 2 * ONE },
        at(500, 700),
        WHITE,
    );
    drawer.execute_once(&TurtleAction::Rotate(-QUARTER_TURN)).unwrap();
    drawer.execute_once(&TurtleAction::RaisePen).unwrap();
    drawer.execute_once(&TurtleAction::Move(8 * ONE)).unwrap();
    drawer.execute_once(&TurtleAction::Rotate(QUARTER_TURN)).unwrap();
    drawer.execute_once(&TurtleAction::LowerPen).unwrap();
    let line = drawer.execute_once(&TurtleAction::Move(5 * ONE));
    assert_eq!(
        line,
        Ok(Some(Line { start: at(504, 700), end: at(504, 690), color: WHITE, thickness: 3 * ONE }))
    );
    assert_eq!(drawer.turtle().position, at(8, 5));
}

#[test]
fn pop_on_an_empty_stack_is_an_error() {
    let mut drawer = plain_drawer();
    drawer.execute_once(&TurtleAction::Rotate(5)).unwrap();
    let before = drawer.turtle();
    assert_eq!(drawer.execute_once(&TurtleAction::Pop), Err(TurtleError::StackUnderflow));
    assert_eq!(drawer.turtle(), before);
    assert_eq!(drawer.depth(), 0);
    assert_eq!(drawer.execute(&vec![TurtleAction::Pop]), Err(TurtleError::StackUnderflow));
}

#[test]
fn one_pop_too_many_is_an_error() {
    let mut drawer = plain_drawer();
    let run = drawer.execute(&vec![
        TurtleAction::Push,
        TurtleAction::Move(ONE),
        TurtleAction::Pop,
        TurtleAction::Pop,
        TurtleAction::Move(ONE),
    ]);
    assert_eq!(run, Err(TurtleError::StackUnderflow));
    assert_eq!(drawer.turtle(), Turtle::new(WHITE, 3 * ONE));
    assert_eq!(drawer.depth(), 0);
}

#[test]
fn push_then_pop_changes_nothing() {
    let mut drawer = plain_drawer();
    drawer
        .execute(&vec![
            TurtleAction::Rotate(17 * DEGREE),
            TurtleAction::Move(5 * ONE),
            TurtleAction::SetColor(RED),
            TurtleAction::SetThick(ONE),
            TurtleAction::RaisePen,
            TurtleAction::Push,
        ])
        .unwrap();
    let before = drawer.turtle();
    let depth = drawer.depth();
    assert_eq!(drawer.execute_once(&TurtleAction::Push), Ok(None));
    assert_eq!(drawer.depth(), depth + 1);
    assert_eq!(drawer.execute_once(&TurtleAction::Pop), Ok(None));
    assert_eq!(drawer.turtle(), before);
    assert_eq!(drawer.depth(), depth);
}

#[test]
fn pop_restores_the_whole_state() {
    let mut drawer = plain_drawer();
    let saved = drawer.turtle();
    let lines = drawer
        .execute(&vec![
            TurtleAction::Push,
            TurtleAction::Rotate(45 * DEGREE),
            TurtleAction::SetColor(RED),
            TurtleAction::SetThick(7 * ONE),
            TurtleAction::RaisePen,
            TurtleAction::Move(9 * ONE),
            TurtleAction::Pop,
        ])
        .unwrap();
    assert_eq!(lines, vec![]);
    assert_eq!(drawer.turtle(), saved);
    assert_eq!(drawer.depth(), 0);
}

#[test]
fn saved_states_come_back_last_in_first_out() {
    let mut drawer = plain_drawer();
    drawer.execute_once(&TurtleAction::Push).unwrap();
    drawer.execute_once(&TurtleAction::SetColor(RED)).unwrap();
    drawer.execute_once(&TurtleAction::Push).unwrap();
    drawer.execute_once(&TurtleAction::SetColor(BLACK)).unwrap();
    assert_eq!(drawer.depth(), 2);
    drawer.execute_once(&TurtleAction::Pop).unwrap();
    assert_eq!(drawer.turtle().color, RED);
    drawer.execute_once(&TurtleAction::Pop).unwrap();
    assert_eq!(drawer.turtle().color, WHITE);
}

#[test]
fn a_turn_and_the_rest_of_the_full_turn_cancel() {
    for start in [0, 1, QUARTER_TURN, FULL_TURN - 1] {
        for angle in [0, 1, 30 * DEGREE, HALF_TURN, FULL_TURN, -77, 5 * FULL_TURN + 3] {
            let mut turtle = Turtle::new(WHITE, ONE);
            turtle.direction = start;
            turtle.rotate(angle);
            turtle.rotate(FULL_TURN - angle);
            assert_eq!(turtle.direction, start);
        }
    }
}

#[test]
fn the_heading_wraps() {
    let mut turtle = Turtle::new(WHITE, ONE);
    turtle.rotate(FULL_TURN - QUARTER_TURN + 5);
    assert_eq!(turtle.direction, 5);
    turtle.rotate(-10);
    assert_eq!(turtle.direction, FULL_TURN - 5);
    turtle.rotate(5);
    assert_eq!(turtle.direction, 0);
    turtle.rotate(i64::MAX);
    assert_eq!(turtle.direction, i64::MAX % FULL_TURN);
}

#[test]
fn a_raised_pen_moves_without_drawing() {
    let mut drawer = plain_drawer();
    assert_eq!(drawer.execute_once(&TurtleAction::RaisePen), Ok(None));
    assert!(!drawer.turtle().drawing);
    assert_eq!(drawer.execute_once(&TurtleAction::Move(4 * ONE)), Ok(None));
    assert_eq!(drawer.turtle().position, at(0, 4));
    assert_eq!(drawer.execute_once(&TurtleAction::LowerPen), Ok(None));
    assert!(drawer.turtle().drawing);
    assert_eq!(
        drawer.execute_once(&TurtleAction::Move(ONE)),
        Ok(Some(Line { start: at(0, -4), end: at(0, -5), color: WHITE, thickness: 3 * ONE }))
    );
}

#[test]
fn a_segment_has_the_colour_and_width_of_its_move() {
    let mut drawer = plain_drawer();
    let lines = drawer
        .execute(&vec![
            TurtleAction::SetColor(RED),
            TurtleAction::SetThick(ONE),
            TurtleAction::Move(ONE),
            TurtleAction::SetColor(BLACK),
            TurtleAction::SetThick(2 * ONE),
            TurtleAction::Move(ONE),
        ])
        .unwrap();
    assert_eq!(
        lines,
        vec![
            Line { start: at(0, 0), end: at(0, -1), color: RED, thickness: ONE },
            Line { start: at(0, -1), end: at(0, -2), color: BLACK, thickness: 2 * ONE },
        ]
    );
}

#[test]
fn a_move_backward_is_a_move_of_negative_length() {
    let mut turtle = Turtle::new(WHITE, ONE);
    turtle.move_forward(-3 * ONE).unwrap();
    assert_eq!(turtle.position, at(0, -3));
}

#[test]
fn a_move_out_of_range_leaves_the_turtle_where_it_is() {
    let mut turtle = Turtle::new(WHITE, ONE);
    turtle.move_forward(i64::MAX).unwrap();
    let before = turtle;
    assert_eq!(turtle.move_forward(1), Err(TurtleError::OutOfRange));
    assert_eq!(turtle, before);
    let mut raised = Turtle::new(WHITE, ONE);
    raised.raise_pen();
    assert_eq!(raised.move_forward(i64::MIN), Ok(None));
    assert_eq!(raised.move_forward(i64::MIN), Err(TurtleError::OutOfRange));
}

#[test]
fn a_segment_off_the_screen_is_an_error() {
    let mut drawer = TurtleDrawer::new(at(10, 10), at(4, 4), at(0, 0), BLACK);
    let far = i64::MAX / 2;
    assert_eq!(drawer.execute_once(&TurtleAction::Move(far)), Err(TurtleError::OutOfRange));
    assert_eq!(drawer.turtle().position, at(0, 0));
    drawer.execute_once(&TurtleAction::RaisePen).unwrap();
    assert_eq!(drawer.execute_once(&TurtleAction::Move(far)), Ok(None));
    assert_eq!(drawer.turtle().position, Point { x: 0, y: far });
}

#[test]
fn the_first_error_stops_the_turtle() {
    let mut drawer = plain_drawer();
    let run = drawer.execute(&vec![
        TurtleAction::Move(2 * ONE),
        TurtleAction::Pop,
        TurtleAction::Move(2 * ONE),
    ]);
    assert_eq!(run, Err(TurtleError::StackUnderflow));
    assert_eq!(drawer.turtle().position, at(0, 2));
}

#[test]
fn no_actions_draw_nothing() {
    let mut drawer = plain_drawer();
    assert_eq!(drawer.execute(&vec![]), Ok(vec![]));
    assert_eq!(drawer.turtle(), Turtle::new(WHITE, 3 * ONE));
}

#[test]
fn the_pen_is_set_field_by_field() {
    let mut turtle = Turtle::new(WHITE, ONE);
    turtle.raise_pen();
    assert!(!turtle.drawing);
    turtle.lower_pen();
    assert!(turtle.drawing);
    turtle.set_color(RED);
    assert_eq!(turtle.color, RED);
    turtle.set_thickness(5);
    assert_eq!(turtle.thickness, 5);
    assert_eq!(turtle.position, at(0, 0));
    assert_eq!(turtle.direction, QUARTER_TURN);
}

#[test]
fn the_dragon_is_drawn_by_steps_and_quarter_turns() {
    assert_eq!(DragonToken::action(DragonToken::Forward), vec![TurtleAction::Move(STEP)]);
    assert_eq!(
        DragonToken::action(DragonToken::RotateLeft),
        vec![TurtleAction::Rotate(QUARTER_TURN)]
    );
    assert_eq!(
        DragonToken::action(DragonToken::RotateRight),
        vec![TurtleAction::Rotate(-QUARTER_TURN)]
    );
    assert_eq!(DragonToken::action(DragonToken::Push), vec![TurtleAction::Push]);
    assert_eq!(DragonToken::action(DragonToken::Pop), vec![TurtleAction::Pop]);
    assert_eq!(DragonToken::action(DragonToken::X), vec![]);
    assert_eq!(DragonToken::action(DragonToken::Y), vec![]);
}

#[test]
fn the_actions_of_a_sequence_are_those_of_its_symbols_in_order() {
    let actions = DragonToken::actions(vec![
        DragonToken::Push,
        DragonToken::Forward,
        DragonToken::X,
        DragonToken::RotateLeft,
        DragonToken::Y,
        DragonToken::Forward,
        DragonToken::Pop,
    ]);
    assert_eq!(
        actions,
        vec![
            TurtleAction::Push,
            TurtleAction::Move(STEP),
            TurtleAction::Rotate(QUARTER_TURN),
            TurtleAction::Move(STEP),
            TurtleAction::Pop,
        ]
    );
    assert_eq!(DragonToken::actions(vec![]), vec![]);
}

#[test]
fn the_tree_is_drawn_in_three_colours() {
    let lime = Color { r: 0, g: 158, b: 47, a: 255 };
    let brown = Color { r: 127, g: 106, b: 79, a: 255 };
    assert_eq!(
        TreeToken::action(TreeToken::Leaf),
        vec![TurtleAction::SetColor(lime), TurtleAction::Move(TWIG)]
    );
    assert_eq!(
        TreeToken::action(TreeToken::NewWood),
        vec![TurtleAction::SetColor(brown), TurtleAction::Move(TWIG)]
    );
    assert_eq!(
        TreeToken::action(TreeToken::OldWood),
        vec![TurtleAction::SetColor(BLACK), TurtleAction::Move(TWIG)]
    );
    assert_eq!(TreeToken::action(TreeToken::RotateLeft), vec![TurtleAction::Rotate(FORK)]);
    assert_eq!(TreeToken::action(TreeToken::RotateRight), vec![TurtleAction::Rotate(-FORK)]);
}

#[test]
fn the_dragon_comes_back_to_its_saved_state() {
    let system = l_system::lsystems::LSystem::from(vec![
        DragonToken::Push,
        DragonToken::Forward,
        DragonToken::X,
        DragonToken::Pop,
    ]);
    let actions = DragonToken::actions(system.iterate(6));
    let mut drawer = TurtleDrawer::new(at(1000, 1000), at(1, 1), at(300, 700), BLACK);
    let lines = drawer.execute(&actions).unwrap();
    assert_eq!(lines.len(), 1 << 6);
    assert_eq!(drawer.turtle(), Turtle::new(WHITE, 3 * ONE));
    assert_eq!(drawer.execute(&actions).unwrap(), lines);
    for pair in lines.windows(2) {
        assert_eq!(pair[0].end, pair[1].start);
    }
}
