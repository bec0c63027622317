use vstd::prelude::*;

verus! {

/// Thousandths of a degree in one degree: the unit of every angle here.
pub const MILLIDEGREES_PER_DEGREE: i64 = 1000;

/// Largest camera pitch, up or down: 90 degrees.
pub const PITCH_LIMIT: i64 = 90_000;

/// The keys that the controller tells apart.
#[derive(Clone, Copy, Debug, PartialEq, Eq, Structural)]
pub enum KeyCode {
    W,
    A,
    S,
    D,
    Escape,
    Other,
}

/// One input event as the controller sees it.
///
/// Mouse deltas are in thousandths of a degree.
#[derive(Clone, Copy, Debug, PartialEq, Eq, Structural)]
pub enum InputEvent {
    Key { key: KeyCode, pressed: bool },
    MouseMotion { dx: i32, dy: i32 },
}

impl InputEvent {
    /// Whether the event asks to leave the game: the Escape key, pressed or released.
    pub fn requests_exit(&self) -> (r: bool)
        ensures
            r == (*self matches InputEvent::Key { key: KeyCode::Escape, .. }),
    {
        match *self {
            InputEvent::Key { key: KeyCode::Escape, .. } => true,
            _ => false,
        }
    }
}

/// The mathematical value of a controller: the keys held and the two angles.
pub struct ControllerView {
    pub move_forward: bool,
    pub move_backward: bool,
    pub move_left: bool,
    pub move_right: bool,
    pub pitch: int,
    pub yaw: int,
}

/// `p` held within the pitch limits.
pub open spec fn clamp_pitch(p: int) -> int {
    if p < -PITCH_LIMIT {
        -PITCH_LIMIT as int
    } else if p > PITCH_LIMIT {
        PITCH_LIMIT as int
    } else {
        p
    }
}

impl ControllerView {
    /// The state every controller starts in: nothing held, looking level.
    pub open spec fn initial() -> ControllerView {
        ControllerView {
            move_forward: false,
            move_backward: false,
            move_left: false,
            move_right: false,
            pitch: 0,
            yaw: 0,
        }
    }

    pub open spec fn pitch_in_range(self) -> bool {
        -PITCH_LIMIT <= self.pitch <= PITCH_LIMIT
    }

    /// The state after one event: a movement key sets its flag to whether it is
    /// down, other keys change nothing, and a mouse motion turns the yaw by
    /// minus its horizontal delta and the pitch by its vertical one, clamped.
    pub open spec fn step(self, e: InputEvent) -> ControllerView {
        match e {
            InputEvent::Key { key, pressed } => match key {
                KeyCode::W => ControllerView { move_forward: pressed, ..self },
                KeyCode::S => ControllerView { move_backward: pressed, ..self },
                KeyCode::A => ControllerView { move_left: pressed, ..self },
                KeyCode::D => ControllerView { move_right: pressed, ..self },
                _ => self,
            },
            InputEvent::MouseMotion { dx, dy } => ControllerView {
                yaw: self.yaw - dx,
                pitch: clamp_pitch(self.pitch + dy),
                ..self
            },
        }
    }

    /// The state after the events, taken in order.
    pub open spec fn apply(self, events: Seq<InputEvent>) -> ControllerView
        decreases events.len(),
    {
        if events.len() == 0 {
            self
        } else {
            self.apply(events.drop_last()).step(events.last())
        }
    }
}

/// Whether `key` is down after `events`: what its last key event says, or
/// `before` when no event names it.
pub open spec fn key_held(events: Seq<InputEvent>, key: KeyCode, before: bool) -> bool
    decreases events.len(),
{
    if events.len() == 0 {
        before
    } else {
        match events.last() {
            InputEvent::Key { key: k, pressed } if k == key => pressed,
            _ => key_held(events.drop_last(), key, before),
        }
    }
}

/// The sum of the horizontal deltas of the mouse motions among `events`.
pub open spec fn total_dx(events: Seq<InputEvent>) -> int
    decreases events.len(),
{
    if events.len() == 0 {
        0
    } else {
        total_dx(events.drop_last()) + match events.last() {
            InputEvent::MouseMotion { dx, .. } => dx as int,
            _ => 0,
        }
    }
}

/// Each movement flag is what the last event of its key left it at, in the
/// order the events came; a key no event names keeps its flag.
pub proof fn lemma_keys_follow_last_event(start: ControllerView, events: Seq<InputEvent>)
    ensures
        start.apply(events).move_forward == key_held(events, KeyCode::W, start.move_forward),
        start.apply(events).move_backward == key_held(events, KeyCode::S, start.move_backward),
        start.apply(events).move_left == key_held(events, KeyCode::A, start.move_left),
        start.apply(events).move_right == key_held(events, KeyCode::D, start.move_right),
    decreases events.len(),
{
    if events.len() > 0 {
        lemma_keys_follow_last_event(start, events.drop_last());
    }
}

/// Whatever the mouse deltas, however large, the pitch never leaves
/// [-90, 90] degrees.
pub proof fn lemma_pitch_stays_in_range(start: ControllerView, events: Seq<InputEvent>)
    requires
        start.pitch_in_range(),
    ensures
        start.apply(events).pitch_in_range(),
    decreases events.len(),
{
    if events.len() > 0 {
        lemma_pitch_stays_in_range(start, events.drop_last());
    }
}

/// The yaw is never clamped: it moves by exactly minus the sum of all
/// horizontal mouse deltas, so from the initial state it is that negated sum.
pub proof fn lemma_yaw_is_negated_dx_sum(start: ControllerView, events: Seq<InputEvent>)
    ensures
        start.apply(events).yaw == start.yaw - total_dx(events),
        ControllerView::initial().apply(events).yaw == -total_dx(events),
    decreases events.len(),
{
    if events.len() > 0 {
        lemma_yaw_is_negated_dx_sum(start, events.drop_last());
        lemma_yaw_is_negated_dx_sum(ControllerView::initial(), events.drop_last());
    }
}

/// A key event delivered twice in a row leaves the same state as delivered once.
pub proof fn lemma_key_event_idempotent(start: ControllerView, key: KeyCode, pressed: bool)
    ensures
        start.step(InputEvent::Key { key, pressed }).step(InputEvent::Key { key, pressed })
            == start.step(InputEvent::Key { key, pressed }),
{
}

/// What the player asks for right now: movement keys held, camera pitch and
/// body yaw, both in thousandths of a degree.
#[derive(Clone, Copy, Debug, PartialEq, Eq, Structural)]
pub struct InputController {
    pub move_forward: bool,
    pub move_backward: bool,
    pub move_left: bool,
    pub move_right: bool,
    pub pitch: i64,
    pub yaw: i64,
}

impl View for InputController {
    type V = ControllerView;

    open spec fn view(&self) -> ControllerView {
        ControllerView {
            move_forward: self.move_forward,
            move_backward: self.move_backward,
            move_left: self.move_left,
            move_right: self.move_right,
            pitch: self.pitch as int,
            yaw: self.yaw as int,
        }
    }
}

impl InputController {
    /// The pitch stays within its limits.
    pub open spec fn wf(&self) -> bool {
        self@.pitch_in_range()
    }

    /// Whether the yaw can take the event without leaving the range of `i64`.
    pub open spec fn absorbs(&self, e: InputEvent) -> bool {
        match e {
            InputEvent::MouseMotion { dx, .. } => i64::MIN <= self.yaw - dx <= i64::MAX,
            _ => true,
        }
    }

    pub fn new() -> (r: InputController)
        ensures
            r@ == ControllerView::initial(),
            r.wf(),
    {
        InputController {
            move_forward: false,
            move_backward: false,
            move_left: false,
            move_right: false,
            pitch: 0,
            yaw: 0,
        }
    }

    /// Folds one event into the state.
    pub fn process_input_event(&mut self, event: &InputEvent)
        requires
            old(self).absorbs(*event),
        ensures
            final(self)@ == old(self)@.step(*event),
            old(self).wf() ==> final(self).wf(),
    {
        match *event {
            InputEvent::Key { key, pressed } => match key {
                KeyCode::W => self.move_forward = pressed,
                KeyCode::S => self.move_backward = pressed,
                KeyCode::A => self.move_left = pressed,
                KeyCode::D => self.move_right = pressed,
                _ => {},
            },
            InputEvent::MouseMotion { dx, dy } => {
                self.yaw = self.yaw - dx as i64;
                let p: i128 = self.pitch as i128 + dy as i128;
                self.pitch = if p < -(PITCH_LIMIT as i128) {
                    -PITCH_LIMIT
                } else if p > PITCH_LIMIT as i128 {
                    PITCH_LIMIT
                } else {
                    p as i64
                };
            },
        }
    }
}

} // verus!
