use vstd::prelude::*;
use vstd::arithmetic::power2::lemma2_to64;
use crate::event::{Action, Button, Event, Key, Message, Status};
use crate::point::{
    find_hit, first_hit, lemma_first_hit_in_range, Point, MARKER_RADIUS, STROKE_WIDTH,
};
use crate::refine::{copy_points, lemma_scaled_len_grows, refine, refine_points};

verus! {

/// The number of passes that the animation ramps up to.
pub const TARGET_ITERATIONS: usize = 7;

/// Milliseconds between two ticks of the animation.
pub const TICK_MILLIS: u64 = 250;

/// The session as a mathematical value.
#[verifier::ext_equal]
pub struct SessionState {
    /// The control points, in the order in which they were placed.
    pub points: Seq<Point>,
    /// The refined sequence that is on screen.
    pub displayed: Seq<Point>,
    pub target_iterations: nat,
    /// The number of passes that the next tick will show.
    pub current_iteration: nat,
    pub animating: bool,
    pub modifier_held: bool,
    pub dragging: bool,
    /// The index of the point being dragged, and where it lay when it was
    /// picked.
    pub drag_target: Option<(nat, Point)>,
}

impl SessionState {
    /// The state in which every session starts: no points, nothing on screen,
    /// every flag down.
    pub open spec fn initial() -> SessionState {
        SessionState {
            points: Seq::empty(),
            displayed: Seq::empty(),
            target_iterations: TARGET_ITERATIONS as nat,
            current_iteration: 0,
            animating: false,
            modifier_held: false,
            dragging: false,
            drag_target: None,
        }
    }

    /// What holds of every state that a session reaches.
    pub open spec fn wf(self) -> bool {
        &&& self.target_iterations == TARGET_ITERATIONS
        &&& self.current_iteration <= self.target_iterations
        &&& self.dragging == (self.drag_target is Some)
        &&& self.dragging ==> self.modifier_held
        &&& self.drag_target matches Some((i, _)) ==> i < self.points.len()
    }

    /// The longest sequence that a tick can compute, of `2^6` times as many
    /// points as there are control points, has a length that a `usize` holds.
    pub open spec fn can_tick(self) -> bool {
        self.points.len() * 64 <= usize::MAX
    }

    /// The state after a tick of the timer.
    ///
    /// Below the target, two points are shown as they are and the count goes
    /// back to zero; three or more are shown refined by the current count,
    /// which then goes up by one. At the target, or with fewer than two points,
    /// the count goes back to zero, and with no point at all the screen is
    /// cleared. The animation never stops by itself.
    pub open spec fn tick(self) -> SessionState {
        if !self.animating {
            self
        } else if self.current_iteration < self.target_iterations && self.points.len() > 1 {
            if self.points.len() == 2 {
                SessionState { displayed: self.points, current_iteration: 0, ..self }
            } else {
                SessionState {
                    displayed: refine(self.points, self.current_iteration),
                    current_iteration: self.current_iteration + 1,
                    ..self
                }
            }
        } else if self.points.len() == 0 {
            SessionState { displayed: Seq::empty(), current_iteration: 0, ..self }
        } else {
            SessionState { current_iteration: 0, ..self }
        }
    }

    /// The state after a reset: the initial one, but for the modifier key,
    /// which is held or not as before.
    pub open spec fn reset(self) -> SessionState {
        SessionState { modifier_held: self.modifier_held, ..SessionState::initial() }
    }

    /// The state after a command.
    ///
    /// `MousePressed` appends the point to the control points; `react` asks
    /// for it only while no animation runs. `RunChaikinAnimation` starts the
    /// animation, and changes nothing where it runs already. `Tick` is `tick`,
    /// `Reset` is `reset`, and `Quit` leaves the state alone. `MovePoint` puts
    /// the point that is being dragged at the given position, and does nothing
    /// while none is.
    pub open spec fn apply(self, message: Message) -> SessionState {
        match message {
            Message::MousePressed(position) => SessionState {
                points: self.points.push(position),
                ..self
            },
            Message::RunChaikinAnimation => SessionState { animating: true, ..self },
            Message::Tick => self.tick(),
            Message::Quit => self,
            Message::Reset => self.reset(),
            Message::MovePoint(position) => match self.drag_target {
                Some((i, _)) if self.dragging => SessionState {
                    points: self.points.update(i as int, position),
                    ..self
                },
                _ => self,
            },
        }
    }

    /// What a key that goes down asks for.
    pub open spec fn key_command(key: Key) -> Option<Message> {
        match key {
            Key::Enter => Some(Message::RunChaikinAnimation),
            Key::Escape => Some(Message::Quit),
            Key::Character(c) if c == 'r' => Some(Message::Reset),
            _ => None,
        }
    }

    /// The state after an event, whether the session took the event, and the
    /// command that the event gives rise to.
    ///
    /// A press of the left button with the modifier held picks the first point
    /// within the hit radius and starts dragging it; where there is none,
    /// nothing changes and the event is left to the host. Without the modifier
    /// and while no animation runs, the press asks for a new point. Letting go
    /// of the modifier ends the drag. A pointer event without a position is
    /// left to the host.
    pub open spec fn react(self, event: Event) -> (SessionState, Status, Option<Message>) {
        match event {
            Event::ButtonPressed { button: Button::Left, cursor: Some(position) } => {
                if self.modifier_held {
                    match first_hit(self.points, position) {
                        Some(i) => (
                            SessionState {
                                dragging: true,
                                drag_target: Some((i as nat, self.points[i])),
                                ..self
                            },
                            Status::Captured,
                            None,
                        ),
                        None => (self, Status::Ignored, None),
                    }
                } else if !self.animating {
                    (self, Status::Captured, Some(Message::MousePressed(position)))
                } else {
                    (self, Status::Ignored, None)
                }
            },
            Event::CursorMoved { cursor: Some(position) } => {
                if self.dragging {
                    (self, Status::Captured, Some(Message::MovePoint(position)))
                } else {
                    (self, Status::Ignored, None)
                }
            },
            Event::KeyPressed(Key::Control) => (
                SessionState { modifier_held: true, ..self },
                Status::Ignored,
                None,
            ),
            Event::KeyPressed(key) => match SessionState::key_command(key) {
                Some(message) => (self, Status::Captured, Some(message)),
                None => (self, Status::Ignored, None),
            },
            Event::KeyReleased(Key::Control) => (
                SessionState { modifier_held: false, dragging: false, drag_target: None, ..self },
                Status::Ignored,
                None,
            ),
            _ => (self, Status::Ignored, None),
        }
    }

    /// What is to be drawn: a marker at each control point, in their order, and
    /// after them the curve through the refined sequence, unless that is empty.
    pub open spec fn scene(self) -> Seq<Shape> {
        let markers = Seq::new(
            self.points.len(),
            |i: int| Shape::Marker { center: self.points[i], radius: MARKER_RADIUS as int },
        );
        if self.displayed.len() > 0 {
            markers.push(Shape::Polyline { points: self.displayed, width: STROKE_WIDTH as int })
        } else {
            markers
        }
    }

    /// Whether the timer runs: exactly while the animation does.
    pub open spec fn timer(self) -> Option<u64> {
        if self.animating {
            Some(TICK_MILLIS)
        } else {
            None
        }
    }
}

/// What the host has to do after a command: end the program on `Quit`, carry
/// on after any other.
pub open spec fn action_of(message: Message) -> Action {
    match message {
        Message::Quit => Action::Exit,
        _ => Action::Continue,
    }
}

/// A shape on the canvas, as a mathematical value.
pub enum Shape {
    Marker { center: Point, radius: int },
    Polyline { points: Seq<Point>, width: int },
}

/// An order to the host's canvas. Lengths are in sub-units.
#[derive(Debug, PartialEq, Eq)]
pub enum DrawCommand {
    /// A filled circle.
    Marker { center: Point, radius: i64 },
    /// A solid stroke through the points in their order, not closed, with
    /// round joins and caps.
    Polyline { points: Vec<Point>, width: i64 },
}

impl View for DrawCommand {
    type V = Shape;

    open spec fn view(&self) -> Shape {
        match *self {
            DrawCommand::Marker { center, radius } => Shape::Marker { center, radius: radius as int },
            DrawCommand::Polyline { points, width } => Shape::Polyline {
                points: points@,
                width: width as int,
            },
        }
    }
}

/// The editing and animation session.
pub struct App {
    points: Vec<Point>,
    displayed: Vec<Point>,
    target_iterations: usize,
    current_iteration: usize,
    animating: bool,
    modifier_held: bool,
    dragging: bool,
    drag_target: Option<(usize, Point)>,
}

impl View for App {
    type V = SessionState;

    closed spec fn view(&self) -> SessionState {
        SessionState {
            points: self.points@,
            displayed: self.displayed@,
            target_iterations: self.target_iterations as nat,
            current_iteration: self.current_iteration as nat,
            animating: self.animating,
            modifier_held: self.modifier_held,
            dragging: self.dragging,
            drag_target: match self.drag_target {
                Some((i, origin)) => Some((i as nat, origin)),
                None => None,
            },
        }
    }
}

impl App {
    /// The session's invariant.
    pub open spec fn wf(&self) -> bool {
        self@.wf()
    }

    /// A session in its initial state.
    pub fn new() -> (app: App)
        ensures
            app.wf(),
            app@ == SessionState::initial(),
    {
        App {
            points: Vec::new(),
            displayed: Vec::new(),
            target_iterations: TARGET_ITERATIONS,
            current_iteration: 0,
            animating: false,
            modifier_held: false,
            dragging: false,
            drag_target: None,
        }
    }

    fn tick(&mut self)
        requires
            old(self).wf(),
            old(self)@.can_tick(),
        ensures
            final(self).wf(),
            final(self)@ == old(self)@.tick(),
    {
        if !self.animating {
            return ;
        }
        if self.current_iteration < self.target_iterations && self.points.len() > 1 {
            if self.points.len() == 2 {
                self.displayed = copy_points(&self.points);
                self.current_iteration = 0;
            } else {
                proof {
                    lemma2_to64();
                    lemma_scaled_len_grows(
                        self.points@.len(),
                        self.current_iteration as nat,
                        (TARGET_ITERATIONS - 1) as nat,
                    );
                }
                self.displayed = refine_points(&self.points, self.current_iteration);
                self.current_iteration += 1;
            }
        } else {
            if self.points.is_empty() {
                self.displayed.clear();
            }
            self.current_iteration = 0;
        }
        assert(self@ =~= old(self)@.tick());
    }

    /// Carries out a command and says what is left for the host to do.
    pub fn update(&mut self, message: Message) -> (action: Action)
        requires
            old(self).wf(),
            message is Tick ==> old(self)@.can_tick(),
        ensures
            final(self).wf(),
            final(self)@ == old(self)@.apply(message),
            action == action_of(message),
    {
        match message {
            Message::MousePressed(position) => {
                self.points.push(position);
            },
            Message::RunChaikinAnimation => {
                if !self.animating {
                    self.animating = true;
                }
            },
            Message::Tick => {
                self.tick();
            },
            Message::Quit => {
                return Action::Exit;
            },
            Message::Reset => {
                self.points.clear();
                self.displayed.clear();
                self.current_iteration = 0;
                self.animating = false;
                self.dragging = false;
                self.drag_target = None;
            },
            Message::MovePoint(position) => {
                if self.dragging {
                    if let Some((index, _)) = self.drag_target {
                        self.points.set(index, position);
                    }
                }
            },
        }
        assert(self@ =~= old(self)@.apply(message));
        Action::Continue
    }

    /// Takes an event from the host: keeps track of the modifier key and of the
    /// drag, and turns the event into a command where it asks for one.
    pub fn handle_event(&mut self, event: Event) -> (outcome: (Status, Option<Message>))
        requires
            old(self).wf(),
        ensures
            final(self).wf(),
            (final(self)@, outcome.0, outcome.1) == old(self)@.react(event),
    {
        let outcome: (Status, Option<Message>) = match event {
            Event::ButtonPressed { button: Button::Left, cursor: Some(position) } => {
                if self.modifier_held {
                    match find_hit(&self.points, position) {
                        Some(index) => {
                            self.dragging = true;
                            self.drag_target = Some((index, self.points[index]));
                            (Status::Captured, None)
                        },
                        None => (Status::Ignored, None),
                    }
                } else if !self.animating {
                    (Status::Captured, Some(Message::MousePressed(position)))
                } else {
                    (Status::Ignored, None)
                }
            },
            Event::CursorMoved { cursor: Some(position) } => {
                if self.dragging {
                    (Status::Captured, Some(Message::MovePoint(position)))
                } else {
                    (Status::Ignored, None)
                }
            },
            Event::KeyPressed(key) => match key {
                Key::Enter => (Status::Captured, Some(Message::RunChaikinAnimation)),
                Key::Escape => (Status::Captured, Some(Message::Quit)),
                Key::Character(c) => {
                    if c == 'r' {
                        (Status::Captured, Some(Message::Reset))
                    } else {
                        (Status::Ignored, None)
                    }
                },
                Key::Control => {
                    self.modifier_held = true;
                    (Status::Ignored, None)
                },
                Key::Other => (Status::Ignored, None),
            },
            Event::KeyReleased(Key::Control) => {
                self.modifier_held = false;
                self.dragging = false;
                self.drag_target = None;
                (Status::Ignored, None)
            },
            _ => (Status::Ignored, None),
        };
        assert(self@ =~= old(self)@.react(event).0);
        outcome
    }

    /// The period of the timer in milliseconds while the animation runs, and
    /// `None` while it does not.
    pub fn subscription(&self) -> (period: Option<u64>)
        ensures
            period == self@.timer(),
    {
        if self.animating {
            Some(TICK_MILLIS)
        } else {
            None
        }
    }

    /// The orders that paint the session.
    pub fn draw(&self) -> (commands: Vec<DrawCommand>)
        ensures
            commands@.len() == self@.scene().len(),
            forall|i: int| 0 <= i < commands@.len() ==> (#[trigger] commands@[i])@ == self@.scene()[i],
    {
        let mut commands: Vec<DrawCommand> = Vec::new();
        let mut i: usize = 0;
        while i < self.points.len()
            invariant
                i <= self.points@.len(),
                commands@.len() == i,
                forall|j: int|
                    0 <= j < i ==> (#[trigger] commands@[j])@ == (Shape::Marker {
                        center: self.points@[j],
                        radius: MARKER_RADIUS as int,
                    }),
            decreases self.points@.len() - i,
        {
            commands.push(DrawCommand::Marker { center: self.points[i], radius: MARKER_RADIUS });
            i += 1;
        }
        if !self.displayed.is_empty() {
            commands.push(
                DrawCommand::Polyline { points: copy_points(&self.displayed), width: STROKE_WIDTH },
            );
        }
        commands
    }

    /// The title of the session's window.
    pub fn title(&self) -> (title: String)
        ensures
            title@ == "Chaikin's Algorithm Animation"@,
    {
        "Chaikin's Algorithm Animation".to_string()
    }

    /// The control points, in the order in which they were placed.
    pub fn points(&self) -> (points: &Vec<Point>)
        ensures
            points@ == self@.points,
    {
        &self.points
    }

    /// The refined sequence that is on screen.
    pub fn displayed(&self) -> (displayed: &Vec<Point>)
        ensures
            displayed@ == self@.displayed,
    {
        &self.displayed
    }

    pub fn target_iterations(&self) -> (n: usize)
        ensures
            n == self@.target_iterations,
    {
        self.target_iterations
    }

    pub fn current_iteration(&self) -> (n: usize)
        ensures
            n == self@.current_iteration,
    {
        self.current_iteration
    }

    pub fn is_animating(&self) -> (b: bool)
        ensures
            b == self@.animating,
    {
        self.animating
    }

    pub fn is_modifier_held(&self) -> (b: bool)
        ensures
            b == self@.modifier_held,
    {
        self.modifier_held
    }

    pub fn is_dragging(&self) -> (b: bool)
        ensures
            b == self@.dragging,
    {
        self.dragging
    }

    /// The index of the point being dragged, and where it lay when it was
    /// picked.
    pub fn drag_target(&self) -> (target: Option<(usize, Point)>)
        ensures
            match target {
                Some((i, origin)) => self@.drag_target == Some((i as nat, origin)),
                None => self@.drag_target is None,
            },
    {
        self.drag_target
    }

    /// Whether `update` can take the next tick: see `SessionState::can_tick`.
    pub fn can_tick(&self) -> (b: bool)
        ensures
            b == self@.can_tick(),
    {
        self.points.len() <= usize::MAX / 64
    }
}

/// `n` ticks, one after the other.
pub open spec fn ticks(s: SessionState, n: nat) -> SessionState
    decreases n,
{
    if n == 0 {
        s
    } else {
        ticks(s.tick(), (n - 1) as nat)
    }
}

/// Every command leaves a valid session valid.
pub proof fn lemma_apply_keeps_wf(s: SessionState, message: Message)
    requires
        s.wf(),
    ensures
        s.apply(message).wf(),
{
}

/// Every event leaves a valid session valid.
pub proof fn lemma_react_keeps_wf(s: SessionState, event: Event)
    requires
        s.wf(),
    ensures
        s.react(event).0.wf(),
{
    if let Event::ButtonPressed { button: Button::Left, cursor: Some(position) } = event {
        if s.modifier_held {
            if let Some(i) = first_hit(s.points, position) {
                lemma_first_hit_in_range(s.points, position);
            }
        }
    }
}

/// Whatever the session was, a reset leaves no control point, nothing on
/// screen, the count at zero, and neither an animation nor a drag.
pub proof fn lemma_reset_clears(s: SessionState)
    ensures
        s.apply(Message::Reset).points == Seq::<Point>::empty(),
        s.apply(Message::Reset).displayed == Seq::<Point>::empty(),
        s.apply(Message::Reset).current_iteration == 0,
        !s.apply(Message::Reset).animating,
        !s.apply(Message::Reset).dragging,
        s.apply(Message::Reset).drag_target is None,
        s.apply(Message::Reset).modifier_held == s.modifier_held,
        s.apply(Message::Reset).wf(),
{
}

/// To start a running animation changes nothing.
pub proof fn lemma_start_is_idempotent(s: SessionState)
    ensures
        s.apply(Message::RunChaikinAnimation).animating,
        s.apply(Message::RunChaikinAnimation).apply(Message::RunChaikinAnimation) == s.apply(
            Message::RunChaikinAnimation,
        ),
        s.animating ==> s.apply(Message::RunChaikinAnimation) == s,
{
}

/// A tick never stops the animation, and never touches the control points.
pub proof fn lemma_tick_keeps_running(s: SessionState)
    ensures
        s.tick().animating == s.animating,
        s.tick().points == s.points,
        s.tick().timer() == s.timer(),
{
}

/// With three or more control points the animation runs in a loop: from a
/// count of zero, tick number `k + 1` shows the points refined `k` times, for
/// each `k` below the target; the tick after those leaves the screen alone
/// and takes the count back to zero; and the next one shows the control points
/// themselves again.
pub proof fn lemma_animation_loops(s: SessionState, k: nat)
    requires
        s.wf(),
        s.animating,
        s.points.len() >= 3,
        s.current_iteration == 0,
        k < s.target_iterations,
    ensures
        ticks(s, k).current_iteration == k,
        ticks(s, k + 1).displayed == refine(s.points, k),
        ticks(s, s.target_iterations + 1).current_iteration == 0,
        ticks(s, s.target_iterations + 1).displayed == refine(
            s.points,
            (s.target_iterations - 1) as nat,
        ),
        ticks(s, s.target_iterations + 2).displayed == s.points,
        ticks(s, s.target_iterations + 2).current_iteration == 1,
{
    reveal_with_fuel(ticks, 10);
}

/// With exactly two control points every tick of a running animation shows
/// the two points and leaves the count at zero.
pub proof fn lemma_two_points_stay(s: SessionState)
    requires
        s.wf(),
        s.animating,
        s.points.len() == 2,
        s.current_iteration == 0,
    ensures
        s.tick().displayed == s.points,
        s.tick().current_iteration == 0,
{
}

/// While a point is dragged, a move of the cursor puts that point where the
/// cursor is and leaves every other point where it was.
pub proof fn lemma_move_changes_target_only(s: SessionState, position: Point)
    requires
        s.wf(),
        s.dragging,
    ensures
        s.apply(Message::MovePoint(position)).points.len() == s.points.len(),
        forall|j: int|
            0 <= j < s.points.len() ==> #[trigger] s.apply(Message::MovePoint(position)).points[j]
                == if j == s.drag_target->Some_0.0 {
                position
            } else {
                s.points[j]
            },
{
}

} // verus!
