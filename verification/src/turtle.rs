//! The turtle: a pen that is moved by actions and leaves line segments.

use vstd::prelude::*;
use crate::fixed::{product, times};
use crate::trig::{cos, cosine, normalize, normalized, sin, sine, FULL_TURN, QUARTER_TURN};

verus! {

/// A colour with an alpha channel.
#[derive(Clone, Copy, Debug, PartialEq, Eq, Structural)]
pub struct Color {
    pub r: u8,
    pub g: u8,
    pub b: u8,
    pub a: u8,
}

impl Color {
    /// Opaque white, the colour of a new pen.
    pub open spec fn white() -> Color {
        Color { r: 255, g: 255, b: 255, a: 255 }
    }
}

/// The width of a new pen, 3.0.
pub const DEFAULT_THICKNESS: i64 = 0x300_0000;

/// A point of the plane, or a pair of factors, one for each axis.
#[derive(Clone, Copy, Debug, PartialEq, Eq, Structural)]
pub struct Point {
    pub x: i64,
    pub y: i64,
}

/// A line segment drawn by the pen.
#[derive(Clone, Copy, Debug, PartialEq, Eq, Structural)]
pub struct Line {
    pub start: Point,
    pub end: Point,
    pub color: Color,
    pub thickness: i64,
}

/// One instruction to the turtle. Angles are in arcseconds, counted
/// counter-clockwise; lengths and widths are fixed-point numbers.
#[derive(Clone, Copy, Debug, PartialEq, Eq, Structural)]
pub enum TurtleAction {
    LowerPen,
    RaisePen,
    Rotate(i64),
    SetThick(i64),
    Move(i64),
    SetColor(Color),
    Push,
    Pop,
}

/// Why the turtle stopped.
#[derive(Clone, Copy, Debug, PartialEq, Eq, Structural)]
pub enum TurtleError {
    /// `Pop` met an empty stack.
    StackUnderflow,
    /// A coordinate left the range of an `i64`.
    OutOfRange,
}

/// The state of the pen at one instant.
#[derive(Clone, Copy, Debug, PartialEq, Eq, Structural)]
pub struct Turtle {
    pub color: Color,
    pub position: Point,
    pub direction: i64,
    pub drawing: bool,
    pub thickness: i64,
}

impl Turtle {
    /// A turtle at the origin that looks up, with its pen down.
    pub fn new(color: Color, thickness: i64) -> (out: Self)
        ensures
            out == (Turtle {
                color,
                position: Point { x: 0, y: 0 },
                direction: QUARTER_TURN,
                drawing: true,
                thickness,
            }),
    {
        Turtle {
            color,
            position: Point { x: 0, y: 0 },
            direction: QUARTER_TURN,
            drawing: true,
            thickness,
        }
    }

    /// Puts the pen down: moves draw from now on.
    pub fn lower_pen(&mut self)
        ensures
            *final(self) == (Turtle { drawing: true, ..*old(self) }),
    {
        self.drawing = true;
    }

    /// Lifts the pen: moves no longer draw.
    pub fn raise_pen(&mut self)
        ensures
            *final(self) == (Turtle { drawing: false, ..*old(self) }),
    {
        self.drawing = false;
    }

    /// Takes another colour for the segments to come.
    pub fn set_color(&mut self, color: Color)
        ensures
            *final(self) == (Turtle { color, ..*old(self) }),
    {
        self.color = color;
    }

    /// Takes another width for the segments to come.
    pub fn set_thickness(&mut self, thickness: i64)
        ensures
            *final(self) == (Turtle { thickness, ..*old(self) }),
    {
        self.thickness = thickness;
    }

    /// This turtle turned by `angle`, its heading wrapped into one turn.
    pub open spec fn rotated(self, angle: int) -> Turtle {
        Turtle { direction: normalized(self.direction + angle) as i64, ..self }
    }

    /// Turns the turtle by `angle`; the heading wraps into `0 .. FULL_TURN`.
    pub fn rotate(&mut self, angle: i64)
        ensures
            *final(self) == old(self).rotated(angle as int),
    {
        let sum = normalize(self.direction) + normalize(angle);
        self.direction = normalize(sum);
    }

    /// Where a move of `length` along the heading ends, on the x axis.
    pub open spec fn target_x(self, length: int) -> int {
        self.position.x + product(length, cosine(self.direction as int))
    }

    /// Where a move of `length` along the heading ends, on the y axis.
    pub open spec fn target_y(self, length: int) -> int {
        self.position.y + product(length, sine(self.direction as int))
    }

    /// The end of a move of `length` can be written in `i64` coordinates.
    pub open spec fn can_move(self, length: int) -> bool {
        &&& i64::MIN <= product(length, cosine(self.direction as int)) <= i64::MAX
        &&& i64::MIN <= product(length, sine(self.direction as int)) <= i64::MAX
        &&& i64::MIN <= self.target_x(length) <= i64::MAX
        &&& i64::MIN <= self.target_y(length) <= i64::MAX
    }

    /// This turtle after a move of `length` along its heading.
    pub open spec fn moved(self, length: int) -> Turtle {
        Turtle {
            position: Point { x: self.target_x(length) as i64, y: self.target_y(length) as i64 },
            ..self
        }
    }

    /// The segment that a move of `length` draws, if the pen is down.
    pub open spec fn trace(self, length: int) -> Option<Line> {
        if self.drawing {
            Some(
                Line {
                    start: self.position,
                    end: self.moved(length).position,
                    color: self.color,
                    thickness: self.thickness,
                },
            )
        } else {
            None
        }
    }

    /// Moves the turtle by `length` along its heading and returns the segment
    /// drawn, if the pen is down. Where the move would leave the range of the
    /// coordinates, the turtle stays and `OutOfRange` is returned.
    pub fn move_forward(&mut self, length: i64) -> (out: Result<Option<Line>, TurtleError>)
        ensures
            old(self).can_move(length as int) ==> *final(self) == old(self).moved(length as int)
                && out == Ok::<Option<Line>, TurtleError>(old(self).trace(length as int)),
            !old(self).can_move(length as int) ==> *final(self) == *old(self) && out == Err::<
                Option<Line>,
                TurtleError,
            >(TurtleError::OutOfRange),
    {
        let old_position = self.position;
        let dx = match times(length, cos(self.direction)) {
            Some(d) => d,
            None => { return Err(TurtleError::OutOfRange); },
        };
        let dy = match times(length, sin(self.direction)) {
            Some(d) => d,
            None => { return Err(TurtleError::OutOfRange); },
        };
        let x = match self.position.x.checked_add(dx) {
            Some(c) => c,
            None => { return Err(TurtleError::OutOfRange); },
        };
        let y = match self.position.y.checked_add(dy) {
            Some(c) => c,
            None => { return Err(TurtleError::OutOfRange); },
        };
        self.position = Point { x, y };
        if self.drawing {
            Ok(
                Some(
                    Line {
                        start: old_position,
                        end: self.position,
                        color: self.color,
                        thickness: self.thickness,
                    },
                ),
            )
        } else {
            Ok(None)
        }
    }
}

/// What a drawer is, as far as its behaviour goes: the pen, the saved pens,
/// and the mapping from the plane of the turtle to the screen.
pub struct Easel {
    pub turtle: Turtle,
    pub slices: Seq<Turtle>,
    pub background: Color,
    pub screen: Point,
    pub scale: Point,
    pub origin: Point,
}

/// The result of one action: the next state and the segment to draw, if any.
pub struct Step {
    pub easel: Easel,
    pub line: Option<Line>,
}

/// The result of a list of actions: the state reached, the segments to draw
/// in order, and the error that stopped the turtle, if any.
pub struct Run {
    pub easel: Easel,
    pub lines: Seq<Line>,
    pub error: Option<TurtleError>,
}

impl Easel {
    /// The screen column of `p`: the origin plus the scaled x coordinate.
    pub open spec fn screen_x(self, p: Point) -> int {
        self.origin.x + product(self.scale.x as int, p.x as int)
    }

    /// The screen row of `p`: the origin minus the scaled y coordinate, as
    /// rows are counted downward.
    pub open spec fn screen_y(self, p: Point) -> int {
        self.origin.y - product(self.scale.y as int, p.y as int)
    }

    /// `p` has a place in `i64` screen coordinates.
    pub open spec fn on_screen(self, p: Point) -> bool {
        &&& i64::MIN <= product(self.scale.x as int, p.x as int) <= i64::MAX
        &&& i64::MIN <= product(self.scale.y as int, p.y as int) <= i64::MAX
        &&& i64::MIN <= self.screen_x(p) <= i64::MAX
        &&& i64::MIN <= self.screen_y(p) <= i64::MAX
    }

    /// The place of `p` on the screen.
    pub open spec fn to_screen(self, p: Point) -> Point {
        Point { x: self.screen_x(p) as i64, y: self.screen_y(p) as i64 }
    }

    /// The state with another pen.
    pub open spec fn with_turtle(self, turtle: Turtle) -> Easel {
        Easel { turtle, ..self }
    }

    /// The effect of a move of `length`.
    pub open spec fn advance(self, length: int) -> Result<Step, TurtleError> {
        let next = self.turtle.moved(length);
        if !self.turtle.can_move(length) {
            Err(TurtleError::OutOfRange)
        } else if !self.turtle.drawing {
            Ok(Step { easel: self.with_turtle(next), line: None })
        } else if !self.on_screen(self.turtle.position) || !self.on_screen(next.position) {
            Err(TurtleError::OutOfRange)
        } else {
            Ok(
                Step {
                    easel: self.with_turtle(next),
                    line: Some(
                        Line {
                            start: self.to_screen(self.turtle.position),
                            end: self.to_screen(next.position),
                            color: self.turtle.color,
                            thickness: self.turtle.thickness,
                        },
                    ),
                },
            )
        }
    }

    /// The effect of one action, or the error that it ends in.
    pub open spec fn step(self, action: TurtleAction) -> Result<Step, TurtleError> {
        match action {
            TurtleAction::LowerPen => Ok(
                Step { easel: self.with_turtle(Turtle { drawing: true, ..self.turtle }), line: None },
            ),
            TurtleAction::RaisePen => Ok(
                Step {
                    easel: self.with_turtle(Turtle { drawing: false, ..self.turtle }),
                    line: None,
                },
            ),
            TurtleAction::Rotate(angle) => Ok(
                Step { easel: self.with_turtle(self.turtle.rotated(angle as int)), line: None },
            ),
            TurtleAction::SetThick(thickness) => Ok(
                Step { easel: self.with_turtle(Turtle { thickness, ..self.turtle }), line: None },
            ),
            TurtleAction::Move(length) => self.advance(length as int),
            TurtleAction::SetColor(color) => Ok(
                Step { easel: self.with_turtle(Turtle { color, ..self.turtle }), line: None },
            ),
            TurtleAction::Push => Ok(
                Step { easel: Easel { slices: self.slices.push(self.turtle), ..self }, line: None },
            ),
            TurtleAction::Pop => if self.slices.len() == 0 {
                Err(TurtleError::StackUnderflow)
            } else {
                Ok(
                    Step {
                        easel: Easel {
                            turtle: self.slices.last(),
                            slices: self.slices.drop_last(),
                            ..self
                        },
                        line: None,
                    },
                )
            },
        }
    }

    /// The effect of a list of actions, taken in order up to the first error.
    pub open spec fn run(self, actions: Seq<TurtleAction>) -> Run
        decreases actions.len(),
    {
        if actions.len() == 0 {
            Run { easel: self, lines: Seq::empty(), error: None }
        } else {
            match self.step(actions.first()) {
                Err(e) => Run { easel: self, lines: Seq::empty(), error: Some(e) },
                Ok(step) => {
                    let rest = step.easel.run(actions.drop_first());
                    Run {
                        easel: rest.easel,
                        lines: drawn(step.line) + rest.lines,
                        error: rest.error,
                    }
                },
            }
        }
    }
}

/// The segments of one step: one or none.
pub open spec fn drawn(line: Option<Line>) -> Seq<Line> {
    match line {
        Some(l) => seq![l],
        None => Seq::empty(),
    }
}

/// A turtle with a stack of saved states, and the mapping to the screen on
/// which its segments are to be drawn.
pub struct TurtleDrawer {
    slices: Vec<Turtle>,
    turtle: Turtle,
    background: Color,
    screen: Point,
    scale: Point,
    origin: Point,
}

impl View for TurtleDrawer {
    type V = Easel;

    closed spec fn view(&self) -> Easel {
        Easel {
            turtle: self.turtle,
            slices: self.slices@,
            background: self.background,
            screen: self.screen,
            scale: self.scale,
            origin: self.origin,
        }
    }
}

impl TurtleDrawer {
    /// A drawer whose turtle is at the origin, looks up and draws in white
    /// with a pen 3 wide, and whose stack is empty.
    pub fn new(screen: Point, scale: Point, origin: Point, background: Color) -> (out: Self)
        ensures
            out@ == (Easel {
                turtle: Turtle {
                    color: Color::white(),
                    position: Point { x: 0, y: 0 },
                    direction: QUARTER_TURN,
                    drawing: true,
                    thickness: DEFAULT_THICKNESS,
                },
                slices: Seq::empty(),
                background,
                screen,
                scale,
                origin,
            }),
    {
        let white = Color { r: 255, g: 255, b: 255, a: 255 };
        Self::with_pen(screen, scale, origin, background, white, DEFAULT_THICKNESS)
    }

    /// A drawer whose turtle is at the origin, looks up and draws in `color`
    /// with a pen `thickness` wide, and whose stack is empty.
    pub fn with_pen(
        screen: Point,
        scale: Point,
        origin: Point,
        background: Color,
        color: Color,
        thickness: i64,
    ) -> (out: Self)
        ensures
            out@ == (Easel {
                turtle: Turtle {
                    color,
                    position: Point { x: 0, y: 0 },
                    direction: QUARTER_TURN,
                    drawing: true,
                    thickness,
                },
                slices: Seq::empty(),
                background,
                screen,
                scale,
                origin,
            }),
    {
        TurtleDrawer {
            slices: Vec::new(),
            turtle: Turtle::new(color, thickness),
            background,
            screen,
            scale,
            origin,
        }
    }

    /// The pen as it is now.
    pub fn turtle(&self) -> (out: Turtle)
        ensures
            out == self@.turtle,
    {
        self.turtle
    }

    /// The number of saved states.
    pub fn depth(&self) -> (out: usize)
        ensures
            out == self@.slices.len(),
    {
        self.slices.len()
    }

    /// The colour behind the drawing.
    pub fn background(&self) -> (out: Color)
        ensures
            out == self@.background,
    {
        self.background
    }

    /// The size of the screen.
    pub fn screen(&self) -> (out: Point)
        ensures
            out == self@.screen,
    {
        self.screen
    }

    /// The factors by which the plane of the turtle is scaled onto the screen.
    pub fn scale(&self) -> (out: Point)
        ensures
            out == self@.scale,
    {
        self.scale
    }

    /// The place on the screen of the origin of the plane of the turtle.
    pub fn origin(&self) -> (out: Point)
        ensures
            out == self@.origin,
    {
        self.origin
    }

    /// The place of `p` on the screen, or `None` where it has none.
    fn project(&self, p: Point) -> (out: Option<Point>)
        ensures
            out == if self@.on_screen(p) {
                Some(self@.to_screen(p))
            } else {
                None
            },
    {
        let sx = match times(self.scale.x, p.x) {
            Some(v) => v,
            None => { return None; },
        };
        let sy = match times(self.scale.y, p.y) {
            Some(v) => v,
            None => { return None; },
        };
        let x = match self.origin.x.checked_add(sx) {
            Some(v) => v,
            None => { return None; },
        };
        let y = match self.origin.y.checked_sub(sy) {
            Some(v) => v,
            None => { return None; },
        };
        Some(Point { x, y })
    }

    /// Carries out one action and returns the segment to draw, in screen
    /// coordinates, if the action draws one. On an error nothing changes.
    pub fn execute_once(&mut self, action: &TurtleAction) -> (out: Result<
        Option<Line>,
        TurtleError,
    >)
        ensures
            match old(self)@.step(*action) {
                Ok(step) => out == Ok::<Option<Line>, TurtleError>(step.line) && final(self)@
                    == step.easel,
                Err(e) => out == Err::<Option<Line>, TurtleError>(e) && final(self)@ == old(self)@,
            },
    {
        match *action {
            TurtleAction::LowerPen => {
                self.turtle.lower_pen();
                Ok(None)
            },
            TurtleAction::RaisePen => {
                self.turtle.raise_pen();
                Ok(None)
            },
            TurtleAction::Rotate(angle) => {
                self.turtle.rotate(angle);
                Ok(None)
            },
            TurtleAction::Move(length) => {
                let mut next = self.turtle;
                match next.move_forward(length) {
                    Err(e) => Err(e),
                    Ok(None) => {
                        self.turtle = next;
                        Ok(None)
                    },
                    Ok(Some(line)) => {
                        let start = match self.project(line.start) {
                            Some(p) => p,
                            None => { return Err(TurtleError::OutOfRange); },
                        };
                        let end = match self.project(line.end) {
                            Some(p) => p,
                            None => { return Err(TurtleError::OutOfRange); },
                        };
                        self.turtle = next;
                        Ok(Some(Line { start, end, color: line.color, thickness: line.thickness }))
                    },
                }
            },
            TurtleAction::SetThick(thickness) => {
                self.turtle.set_thickness(thickness);
                Ok(None)
            },
            TurtleAction::SetColor(color) => {
                self.turtle.set_color(color);
                Ok(None)
            },
            TurtleAction::Push => {
                self.slices.push(self.turtle);
                Ok(None)
            },
            TurtleAction::Pop => {
                match self.slices.pop() {
                    Some(saved) => {
                        self.turtle = saved;
                        Ok(None)
                    },
                    None => Err(TurtleError::StackUnderflow),
                }
            },
        }
    }

    /// Carries out `actions` in order and returns the segments to draw, in
    /// screen coordinates. The first error stops the turtle where it is and
    /// is returned in place of the segments.
    pub fn execute(&mut self, actions: &Vec<TurtleAction>) -> (out: Result<Vec<Line>, TurtleError>)
        ensures
            final(self)@ == old(self)@.run(actions@).easel,
            match old(self)@.run(actions@).error {
                None => out is Ok && out->Ok_0@ == old(self)@.run(actions@).lines,
                Some(e) => out == Err::<Vec<Line>, TurtleError>(e),
            },
    {
        let mut lines: Vec<Line> = Vec::new();
        let mut i: usize = 0;
        assert(actions@.skip(0) =~= actions@);
        while i < actions.len()
            invariant
                0 <= i <= actions.len(),
                old(self)@.run(actions@).easel == self@.run(actions@.skip(i as int)).easel,
                old(self)@.run(actions@).error == self@.run(actions@.skip(i as int)).error,
                old(self)@.run(actions@).lines == lines@ + self@.run(
                    actions@.skip(i as int),
                ).lines,
            decreases actions.len() - i,
        {
            let ghost before = self@;
            let ghost rest = actions@.skip(i as int);
            assert(rest.first() == actions@[i as int]);
            assert(rest.drop_first() =~= actions@.skip(i + 1));
            match self.execute_once(&actions[i]) {
                Err(e) => {
                    return Err(e);
                },
                Ok(Some(line)) => {
                    lines.push(line);
                    assert(lines@ + self@.run(actions@.skip(i + 1)).lines =~= lines@.drop_last()
                        + before.run(rest).lines);
                },
                Ok(None) => {
                    assert(lines@ + self@.run(actions@.skip(i + 1)).lines =~= lines@
                        + before.run(rest).lines);
                },
            }
            i += 1;
        }
        Ok(lines)
    }
}

/// Saving the state and restoring it at once changes nothing and draws
/// nothing.
pub proof fn lemma_push_pop_round_trip(easel: Easel)
    ensures
        easel.step(TurtleAction::Push) is Ok,
        easel.step(TurtleAction::Push)->Ok_0.easel.step(TurtleAction::Pop) == Ok::<
            Step,
            TurtleError,
        >(Step { easel, line: None }),
        easel.run(seq![TurtleAction::Push, TurtleAction::Pop]) == (Run {
            easel,
            lines: Seq::empty(),
            error: None,
        }),
{
    let pushed = easel.step(TurtleAction::Push)->Ok_0.easel;
    assert(pushed.slices.drop_last() =~= easel.slices);
    let none = Seq::<TurtleAction>::empty();
    let pop = seq![TurtleAction::Pop];
    let both = seq![TurtleAction::Push, TurtleAction::Pop];
    assert(pop.drop_first() =~= none);
    assert(both.drop_first() =~= pop);
    assert(easel.run(none).lines =~= Seq::<Line>::empty());
    assert(pop.first() == TurtleAction::Pop);
    assert(pushed.run(pop).easel == easel);
    assert(pushed.run(pop).lines =~= Seq::<Line>::empty());
    assert(both.first() == TurtleAction::Push);
    assert(easel.run(both).lines =~= Seq::<Line>::empty());
}

/// A turn by `angle` followed by a turn by the rest of the full turn brings
/// the heading back to where it was: to the same direction in any case, and
/// to the same number where the heading was within one turn.
pub proof fn lemma_rotate_full_turn(turtle: Turtle, angle: int)
    ensures
        turtle.rotated(angle).rotated(FULL_TURN - angle) == turtle.rotated(0),
        0 <= turtle.direction < FULL_TURN ==> turtle.rotated(angle).rotated(FULL_TURN - angle)
            == turtle,
{
}

/// A symbol that the turtle can draw.
pub trait TurtleToken: Sized {
    /// The actions that draw `token`. A symbol without actions of its own
    /// draws nothing.
    open spec fn drawing(token: Self) -> Seq<TurtleAction> {
        Seq::empty()
    }

    /// Computes the actions that draw `token`.
    fn action(token: Self) -> (out: Vec<TurtleAction>)
        ensures
            out@ == Self::drawing(token),
    ;

    /// The actions that draw `tokens`: those of each symbol, in order.
    fn actions(tokens: Vec<Self>) -> (out: Vec<TurtleAction>)
        ensures
            out@ == tokens@.map_values(|t: Self| Self::drawing(t)).flatten(),
    {
        let mut out: Vec<TurtleAction> = Vec::new();
        let ghost all = tokens@;
        let ghost f = |t: Self| Self::drawing(t);
        assert(all.take(0).map_values(f) =~= Seq::<Seq<TurtleAction>>::empty());
        for token in it: tokens.into_iter()
            invariant
                it.seq() == all,
                f == |t: Self| Self::drawing(t),
                out@ == all.take(it.index() as int).map_values(f).flatten(),
        {
            let mut piece = Self::action(token);
            proof {
                let done = all.take(it.index() as int);
                assert(all.take(it.index() + 1).map_values(f) =~= done.map_values(f).push(
                    f(token),
                ));
                done.map_values(f).lemma_flatten_push(f(token));
            }
            out.append(&mut piece);
        }
        assert(all.take(all.len() as int) =~= all);
        out
    }
}

} // verus!
