//! The joystick's cursor: a position on the 8×8 grid that the arrows move and
//! Enter confirms.
//!
//! What happens at the edge of the grid is fixed when the controller is made:
//! the cursor either comes back in on the opposite side or stays where it is.

use vstd::prelude::*;
use crate::grid::{in_grid, GRID};
use crate::input::{
    classify, key_with_code, lemma_press_is_recognised, press_of, pressed_key, Direction, Key,
    RawEvent, EV_KEY, PRESSED,
};

verus! {

/// What the cursor does when a move would take it off the grid.
#[derive(Clone, Copy, Debug, PartialEq, Eq, Structural)]
pub enum MovementMode {
    /// It comes back in on the opposite edge.
    Wrap,
    /// It stays on the edge.
    Clamp,
}

/// What the controller reports for a key press.
#[derive(Clone, Copy, Debug, PartialEq, Eq, Structural)]
pub enum JoystickEvent {
    /// An arrow was pressed; the cursor is now at (x, y).
    Move(usize, usize),
    /// Enter was pressed while the cursor was at (x, y).
    Enter(usize, usize),
}

/// The controller as contracts see it.
pub struct JoystickState {
    pub x: int,
    pub y: int,
    pub mode: MovementMode,
}

impl JoystickState {
    /// The cursor is on the grid.
    pub open spec fn on_grid(self) -> bool {
        in_grid(self.x, self.y)
    }
}

/// The step that an arrow asks for, as (dx, dy). The origin is the top left
/// corner, so down is the direction of growing y.
pub open spec fn delta(dir: Direction) -> (int, int) {
    match dir {
        Direction::Up => (0, -1),
        Direction::Down => (0, 1),
        Direction::Left => (-1, 0),
        Direction::Right => (1, 0),
    }
}

/// One coordinate after a step of `d`, under the edge policy `mode`: counted
/// modulo the grid's size, or held back at the grid's first and last place.
pub open spec fn shifted(mode: MovementMode, c: int, d: int) -> int {
    match mode {
        MovementMode::Wrap => (c + d) % (GRID as int),
        MovementMode::Clamp => if c + d < 0 {
            0
        } else if c + d >= GRID {
            GRID - 1
        } else {
            c + d
        },
    }
}

/// The controller after an arrow press.
pub open spec fn moved(s: JoystickState, dir: Direction) -> JoystickState {
    JoystickState {
        x: shifted(s.mode, s.x, delta(dir).0),
        y: shifted(s.mode, s.y, delta(dir).1),
        mode: s.mode,
    }
}

/// The controller after a key press, and the event that the press gives.
///
/// An arrow always gives a `Move` with the cursor's new position, also when
/// `Clamp` has kept the cursor where it was. Enter leaves the cursor alone
/// and gives an `Enter` with its position.
pub open spec fn pressed(s: JoystickState, key: Key) -> (JoystickState, JoystickEvent) {
    match key {
        Key::Arrow(dir) => {
            let t = moved(s, dir);
            (t, JoystickEvent::Move(t.x as usize, t.y as usize))
        },
        Key::Enter => (s, JoystickEvent::Enter(s.x as usize, s.y as usize)),
    }
}

/// The controller after a raw event, and the event that it gives, if any.
pub open spec fn handled(s: JoystickState, ev: RawEvent) -> (JoystickState, Option<JoystickEvent>) {
    match pressed_key(ev) {
        Some(key) => (pressed(s, key).0, Some(pressed(s, key).1)),
        None => (s, None),
    }
}

/// The controller after a run of raw events, and the events that they give,
/// in order.
pub open spec fn dispatched(s: JoystickState, evs: Seq<RawEvent>) -> (JoystickState, Seq<JoystickEvent>)
    decreases evs.len(),
{
    if evs.len() == 0 {
        (s, Seq::empty())
    } else {
        let before = dispatched(s, evs.drop_last());
        let last = handled(before.0, evs.last());
        (
            last.0,
            match last.1 {
                Some(e) => before.1.push(e),
                None => before.1,
            },
        )
    }
}

/// The cursor of a joystick and its edge policy.
pub struct Joystick {
    x: usize,
    y: usize,
    mode: MovementMode,
}

/// The step that an arrow asks for, as (dx, dy).
fn step_of(dir: Direction) -> (d: (i8, i8))
    ensures
        d.0 == delta(dir).0,
        d.1 == delta(dir).1,
{
    match dir {
        Direction::Up => (0, -1),
        Direction::Down => (0, 1),
        Direction::Left => (-1, 0),
        Direction::Right => (1, 0),
    }
}

/// Moves one coordinate by `d` under the edge policy `mode`. The policy is
/// asked only where the step would leave the grid.
fn shift(mode: MovementMode, c: usize, d: i8) -> (r: usize)
    requires
        c < GRID,
        -1 <= d <= 1,
    ensures
        r == shifted(mode, c as int, d as int),
        r < GRID,
{
    if d < 0 && c > 0 {
        c - 1
    } else if d > 0 && c < GRID - 1 {
        c + 1
    } else if d == 0 {
        c
    } else {
        match mode {
            MovementMode::Wrap => GRID - 1 - c,
            MovementMode::Clamp => c,
        }
    }
}

impl View for Joystick {
    type V = JoystickState;

    closed spec fn view(&self) -> JoystickState {
        JoystickState { x: self.x as int, y: self.y as int, mode: self.mode }
    }
}

impl Joystick {
    #[verifier::type_invariant]
    spec fn on_grid(&self) -> bool {
        self.x < GRID && self.y < GRID
    }

    /// The controller of a joystick that has just been opened: the cursor
    /// is in the top left corner, and `mode` is the edge policy from now on.
    pub fn open(mode: MovementMode) -> (joy: Joystick)
        ensures
            joy@ == (JoystickState { x: 0, y: 0, mode }),
    {
        Joystick { x: 0, y: 0, mode }
    }

    /// The cursor's position, as (x, y).
    pub fn position(&self) -> (pos: (usize, usize))
        ensures
            pos.0 == self@.x,
            pos.1 == self@.y,
            in_grid(pos.0 as int, pos.1 as int),
    {
        proof {
            use_type_invariant(self);
        }
        (self.x, self.y)
    }

    /// The edge policy that the controller was made with.
    pub fn mode(&self) -> (mode: MovementMode)
        ensures
            mode == self@.mode,
    {
        self.mode
    }

    /// Takes a key press: moves the cursor for an arrow, and says what to
    /// report.
    pub fn press(&mut self, key: Key) -> (event: JoystickEvent)
        ensures
            (final(self)@, event) == pressed(old(self)@, key),
            final(self)@.on_grid(),
    {
        proof {
            use_type_invariant(&*self);
        }
        match key {
            Key::Arrow(dir) => {
                let d = step_of(dir);
                let x: usize = shift(self.mode, self.x, d.0);
                let y: usize = shift(self.mode, self.y, d.1);
                self.x = x;
                self.y = y;
                JoystickEvent::Move(x, y)
            },
            Key::Enter => JoystickEvent::Enter(self.x, self.y),
        }
    }

    /// Takes one raw event from the device. Anything but the press of one of
    /// the five keys changes nothing and reports nothing.
    pub fn handle(&mut self, ev: RawEvent) -> (event: Option<JoystickEvent>)
        ensures
            (final(self)@, event) == handled(old(self)@, ev),
            final(self)@.on_grid(),
    {
        proof {
            use_type_invariant(&*self);
        }
        match classify(ev) {
            Some(key) => Some(self.press(key)),
            None => None,
        }
    }

    /// Takes a batch of raw events in the order in which the device gave
    /// them, and returns what to report, in the same order.
    pub fn run(&mut self, batch: &[RawEvent]) -> (events: Vec<JoystickEvent>)
        ensures
            (final(self)@, events@) == dispatched(old(self)@, batch@),
            final(self)@.on_grid(),
    {
        proof {
            use_type_invariant(&*self);
        }
        let mut events: Vec<JoystickEvent> = Vec::new();
        let mut i: usize = 0;
        while i < batch.len()
            invariant
                i <= batch.len(),
                self@.on_grid(),
                (self@, events@) == dispatched(old(self)@, batch@.take(i as int)),
            decreases batch.len() - i,
        {
            assert(batch@.take(i + 1).drop_last() == batch@.take(i as int));
            match self.handle(batch[i]) {
                Some(event) => events.push(event),
                None => {},
            }
            i += 1;
        }
        assert(batch@.take(i as int) == batch@);
        events
    }
}

/// The controller after `n` presses of the same key.
pub open spec fn pressed_times(s: JoystickState, key: Key, n: nat) -> JoystickState
    decreases n,
{
    if n == 0 {
        s
    } else {
        pressed(pressed_times(s, key, (n - 1) as nat), key).0
    }
}

/// The cursor stands on the edge towards which `dir` points.
pub open spec fn at_edge(s: JoystickState, dir: Direction) -> bool {
    match dir {
        Direction::Up => s.y == 0,
        Direction::Down => s.y == GRID - 1,
        Direction::Left => s.x == 0,
        Direction::Right => s.x == GRID - 1,
    }
}

/// No key press takes the cursor off the grid or changes the edge policy.
pub proof fn lemma_press_keeps_grid(s: JoystickState, key: Key)
    requires
        s.on_grid(),
    ensures
        pressed(s, key).0.on_grid(),
        pressed(s, key).0.mode == s.mode,
{
}

/// No run of raw events takes the cursor off the grid or changes the edge
/// policy, and no event gives more than one report.
pub proof fn lemma_dispatch_keeps_grid(s: JoystickState, evs: Seq<RawEvent>)
    requires
        s.on_grid(),
    ensures
        dispatched(s, evs).0.on_grid(),
        dispatched(s, evs).0.mode == s.mode,
        dispatched(s, evs).1.len() <= evs.len(),
    decreases evs.len(),
{
    if evs.len() > 0 {
        lemma_dispatch_keeps_grid(s, evs.drop_last());
    }
}

/// The presses of the five keys in a run of raw events, in order.
pub open spec fn presses(evs: Seq<RawEvent>) -> Seq<RawEvent> {
    evs.filter(|ev: RawEvent| pressed_key(ev) is Some)
}

/// Every press of one of the five keys gives exactly one report, and nothing
/// else gives any.
pub proof fn lemma_one_report_per_press(s: JoystickState, evs: Seq<RawEvent>)
    ensures
        dispatched(s, evs).1.len() == presses(evs).len(),
    decreases evs.len(),
{
    reveal(Seq::filter);
    if evs.len() > 0 {
        lemma_one_report_per_press(s, evs.drop_last());
    }
}

/// Under `Wrap`, an arrow pressed at the edge it points to takes the cursor
/// to the opposite edge and leaves the other coordinate alone: left from
/// x = 0 leads to x = 7 with y unchanged, and so on for the other three.
pub proof fn lemma_wrap_crosses_edge(s: JoystickState, dir: Direction)
    requires
        s.on_grid(),
        s.mode == MovementMode::Wrap,
        at_edge(s, dir),
    ensures
        moved(s, dir) == match dir {
            Direction::Up => (JoystickState { y: GRID - 1, ..s }),
            Direction::Down => (JoystickState { y: 0, ..s }),
            Direction::Left => (JoystickState { x: GRID - 1, ..s }),
            Direction::Right => (JoystickState { x: 0, ..s }),
        },
        handled(s, press_of(Key::Arrow(dir))) == (
            moved(s, dir),
            Some(JoystickEvent::Move(moved(s, dir).x as usize, moved(s, dir).y as usize)),
        ),
{
}

/// Under `Clamp`, an arrow pressed at the edge it points to leaves the cursor
/// where it is: left from x = 0 leads to x = 0. The press is still reported,
/// as a `Move` to the position that the cursor kept.
pub proof fn lemma_clamp_stops_at_edge(s: JoystickState, dir: Direction)
    requires
        s.on_grid(),
        s.mode == MovementMode::Clamp,
        at_edge(s, dir),
    ensures
        moved(s, dir) == s,
        pressed(s, Key::Arrow(dir)) == (s, JoystickEvent::Move(s.x as usize, s.y as usize)),
        handled(s, press_of(Key::Arrow(dir))) == (
            s,
            Some(JoystickEvent::Move(s.x as usize, s.y as usize)),
        ),
{
}

/// Away from the edge both policies agree: the cursor goes one step in the
/// arrow's direction.
pub proof fn lemma_step_inside_grid(s: JoystickState, dir: Direction)
    requires
        s.on_grid(),
        !at_edge(s, dir),
    ensures
        moved(s, dir) == (JoystickState { x: s.x + delta(dir).0, y: s.y + delta(dir).1, ..s }),
        handled(s, press_of(Key::Arrow(dir))) == (
            moved(s, dir),
            Some(JoystickEvent::Move(moved(s, dir).x as usize, moved(s, dir).y as usize)),
        ),
{
}

/// Enter never moves the cursor, and gives exactly one report: an `Enter`
/// with the position that the cursor had before the press.
pub proof fn lemma_enter_keeps_cursor(s: JoystickState)
    requires
        s.on_grid(),
    ensures
        pressed(s, Key::Enter) == (s, JoystickEvent::Enter(s.x as usize, s.y as usize)),
        handled(s, press_of(Key::Enter)) == (
            s,
            Some(JoystickEvent::Enter(s.x as usize, s.y as usize)),
        ),
        dispatched(s, seq![press_of(Key::Enter)]) == (
            s,
            seq![JoystickEvent::Enter(s.x as usize, s.y as usize)],
        ),
{
    let before = seq![press_of(Key::Enter)].drop_last();
    assert(dispatched(s, before) == (s, Seq::<JoystickEvent>::empty()));
}

/// A raw event that is not of the key type, does not report a press, or
/// reports another key than the five changes nothing and gives no report.
pub proof fn lemma_other_events_ignored(s: JoystickState, ev: RawEvent)
    requires
        ev.kind != EV_KEY || ev.value != PRESSED || key_with_code(ev.code) is None,
    ensures
        handled(s, ev) == (s, None::<JoystickEvent>),
{
}

/// A run that holds no press of any of the five keys changes nothing and
/// gives no report.
pub proof fn lemma_other_runs_ignored(s: JoystickState, evs: Seq<RawEvent>)
    requires
        forall|i: int| 0 <= i < evs.len() ==> pressed_key(#[trigger] evs[i]) is None,
    ensures
        dispatched(s, evs) == (s, Seq::<JoystickEvent>::empty()),
    decreases evs.len(),
{
    if evs.len() > 0 {
        lemma_other_runs_ignored(s, evs.drop_last());
    }
}

/// A run of `n` presses of one key leaves the controller where `n` presses
/// lead, and gives `n` reports.
pub proof fn lemma_dispatch_repeated_press(s: JoystickState, key: Key, n: nat)
    ensures
        dispatched(s, Seq::new(n, |i: int| press_of(key))).0 == pressed_times(s, key, n),
        dispatched(s, Seq::new(n, |i: int| press_of(key))).1.len() == n,
    decreases n,
{
    if n > 0 {
        let evs = Seq::new(n, |i: int| press_of(key));
        let fewer = Seq::new((n - 1) as nat, |i: int| press_of(key));
        assert(evs.drop_last() =~= fewer);
        lemma_dispatch_repeated_press(s, key, (n - 1) as nat);
        lemma_press_is_recognised(key);
    }
}

/// A step of `d` from a coordinate counted modulo the grid's size leads where
/// the step leads from the uncounted one.
proof fn lemma_wrapped_step(p: int, d: int)
    ensures
        shifted(MovementMode::Wrap, p % (GRID as int), d) == (p + d) % (GRID as int),
{
}

/// One step more than `n - 1` steps of `d` is `n` steps of `d`.
proof fn lemma_one_more_step(n: nat, d: int)
    requires
        n > 0,
    ensures
        (n - 1) * d + d == n * d,
{
    assert((n - 1) * d + d == n * d) by (nonlinear_arith);
}

/// Under `Wrap`, `n` presses of the same arrow take each coordinate `n` steps
/// on, counted modulo the grid's size.
pub proof fn lemma_wrap_presses(s: JoystickState, dir: Direction, n: nat)
    requires
        s.on_grid(),
        s.mode == MovementMode::Wrap,
    ensures
        pressed_times(s, Key::Arrow(dir), n) == (JoystickState {
            x: (s.x + n * delta(dir).0) % (GRID as int),
            y: (s.y + n * delta(dir).1) % (GRID as int),
            mode: MovementMode::Wrap,
        }),
    decreases n,
{
    let (dx, dy) = delta(dir);
    if n == 0 {
        assert(n * dx == 0 && n * dy == 0) by (nonlinear_arith)
            requires
                n == 0,
        ;
    } else {
        lemma_wrap_presses(s, dir, (n - 1) as nat);
        lemma_wrapped_step(s.x + (n - 1) * dx, dx);
        lemma_wrapped_step(s.y + (n - 1) * dy, dy);
        lemma_one_more_step(n, dx);
        lemma_one_more_step(n, dy);
    }
}

/// Under `Wrap`, eight presses of the same arrow take the cursor once round
/// the grid and back to where it started, from any position: eight times
/// left restores x, eight times down restores y.
pub proof fn lemma_wrap_full_turn(s: JoystickState, dir: Direction)
    requires
        s.on_grid(),
        s.mode == MovementMode::Wrap,
    ensures
        pressed_times(s, Key::Arrow(dir), 8) == s,
        dispatched(s, Seq::new(8, |i: int| press_of(Key::Arrow(dir)))).0 == s,
        dispatched(s, Seq::new(8, |i: int| press_of(Key::Arrow(dir)))).1.len() == 8,
{
    lemma_wrap_presses(s, dir, 8);
    lemma_dispatch_repeated_press(s, Key::Arrow(dir), 8);
}

} // verus!
