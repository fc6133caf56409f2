use vstd::prelude::*;

verus! {

/// The keys that the camera controller reacts to; every other key is `Other`.
#[derive(Clone, Copy, Debug, PartialEq, Eq)]
pub enum KeyCode {
    KeyW,
    KeyS,
    KeyA,
    KeyD,
    ArrowUp,
    ArrowDown,
    ArrowLeft,
    ArrowRight,
    Space,
    ShiftLeft,
    Other,
}

/// Whether a key went down or came up.
#[derive(Clone, Copy, Debug, PartialEq, Eq)]
pub enum ElementState {
    Pressed,
    Released,
}

/// One of the six movement directions that a held key drives.
#[derive(Clone, Copy, Debug, PartialEq, Eq)]
pub enum Axis {
    Forward,
    Backward,
    Left,
    Right,
    Up,
    Down,
}

/// The movement direction bound to a key, if any. The arrow keys duplicate
/// W, S, A and D.
pub open spec fn key_axis(k: KeyCode) -> Option<Axis> {
    match k {
        KeyCode::KeyW | KeyCode::ArrowUp => Some(Axis::Forward),
        KeyCode::KeyS | KeyCode::ArrowDown => Some(Axis::Backward),
        KeyCode::KeyA | KeyCode::ArrowLeft => Some(Axis::Left),
        KeyCode::KeyD | KeyCode::ArrowRight => Some(Axis::Right),
        KeyCode::Space => Some(Axis::Up),
        KeyCode::ShiftLeft => Some(Axis::Down),
        KeyCode::Other => None,
    }
}

/// The abstract state of a controller: the directions whose keys are held,
/// the pointer motion and the scroll amount not yet consumed by a tick, and
/// the two rates.
pub struct ControllerView<T> {
    pub held: Set<Axis>,
    pub rotation: Option<(T, T)>,
    pub scroll: Option<T>,
    pub speed: T,
    pub sensitivity: T,
}

/// +1, 0 or -1: the net movement along one line, from the keys of its two
/// opposite directions.
pub open spec fn axis_sign(held: Set<Axis>, pos: Axis, neg: Axis) -> int {
    (if held.contains(pos) { 1int } else { 0int }) - (if held.contains(neg) { 1int } else { 0int })
}

/// What one tick of the controller hands to the camera integration: the net
/// movement along the three lines, and the pointer motion and scroll amount
/// that arrived since the previous tick (`None` where nothing arrived).
pub struct MoveTick<T> {
    pub forward: i8,
    pub right: i8,
    pub up: i8,
    pub rotation: Option<(T, T)>,
    pub scroll: Option<T>,
}

impl<T> ControllerView<T> {
    pub open spec fn after_key(self, k: KeyCode, state: ElementState) -> ControllerView<T> {
        match key_axis(k) {
            Some(a) => ControllerView {
                held: if state == ElementState::Pressed {
                    self.held.insert(a)
                } else {
                    self.held.remove(a)
                },
                ..self
            },
            None => self,
        }
    }

    pub open spec fn after_mouse(self, dx: T, dy: T) -> ControllerView<T> {
        ControllerView { rotation: Some((dx, dy)), ..self }
    }

    pub open spec fn after_scroll(self, amount: T) -> ControllerView<T> {
        ControllerView { scroll: Some(amount), ..self }
    }

    /// The record that a tick hands out from this state.
    pub open spec fn tick(self) -> MoveTick<T> {
        MoveTick {
            forward: axis_sign(self.held, Axis::Forward, Axis::Backward) as i8,
            right: axis_sign(self.held, Axis::Right, Axis::Left) as i8,
            up: axis_sign(self.held, Axis::Up, Axis::Down) as i8,
            rotation: self.rotation,
            scroll: self.scroll,
        }
    }

    /// The state after a tick: motion and scroll are consumed, held keys stay.
    pub open spec fn after_tick(self) -> ControllerView<T> {
        ControllerView { rotation: None, scroll: None, ..self }
    }

    /// The state after `n` ticks with no input in between.
    pub open spec fn after_ticks(self, n: nat) -> ControllerView<T>
        decreases n,
    {
        if n == 0 {
            self
        } else {
            self.after_tick().after_ticks((n - 1) as nat)
        }
    }
}

/// Collects discrete input between frames: held movement keys persist until
/// released, while pointer motion and scroll are kept only until the next tick.
pub struct CameraController<T> {
    forward: bool,
    backward: bool,
    left: bool,
    right: bool,
    up: bool,
    down: bool,
    rotation: Option<(T, T)>,
    scroll: Option<T>,
    speed: T,
    sensitivity: T,
}

impl<T> CameraController<T> {
    spec fn is_held(&self, a: Axis) -> bool {
        match a {
            Axis::Forward => self.forward,
            Axis::Backward => self.backward,
            Axis::Left => self.left,
            Axis::Right => self.right,
            Axis::Up => self.up,
            Axis::Down => self.down,
        }
    }
}

impl<T> View for CameraController<T> {
    type V = ControllerView<T>;

    closed spec fn view(&self) -> ControllerView<T> {
        ControllerView {
            held: Set::new(|a: Axis| self.is_held(a)),
            rotation: self.rotation,
            scroll: self.scroll,
            speed: self.speed,
            sensitivity: self.sensitivity,
        }
    }
}

fn sign(pos: bool, neg: bool) -> (r: i8)
    ensures
        r == (if pos { 1int } else { 0int }) - (if neg { 1int } else { 0int }),
{
    if pos == neg {
        0
    } else if pos {
        1
    } else {
        -1
    }
}

impl<T: Copy> CameraController<T> {
    /// A controller with no key held and no pending motion or scroll.
    pub fn new(speed: T, sensitivity: T) -> (c: Self)
        ensures
            c@.held == Set::<Axis>::empty(),
            c@.rotation is None,
            c@.scroll is None,
            c@.speed == speed,
            c@.sensitivity == sensitivity,
    {
        let c = CameraController {
            forward: false,
            backward: false,
            left: false,
            right: false,
            up: false,
            down: false,
            rotation: None,
            scroll: None,
            speed,
            sensitivity,
        };
        assert(c@.held =~= Set::<Axis>::empty());
        c
    }

    pub fn speed(&self) -> (r: T)
        ensures
            r == self@.speed,
    {
        self.speed
    }

    pub fn sensitivity(&self) -> (r: T)
        ensures
            r == self@.sensitivity,
    {
        self.sensitivity
    }

    /// Marks the direction bound to `keycode` as held or released. Returns
    /// whether the key is bound to a direction; other keys change nothing.
    pub fn process_keyboard(&mut self, keycode: KeyCode, state: ElementState) -> (handled: bool)
        ensures
            handled == key_axis(keycode) is Some,
            final(self)@ == old(self)@.after_key(keycode, state),
    {
        let held = match state {
            ElementState::Pressed => true,
            ElementState::Released => false,
        };
        let handled = match keycode {
            KeyCode::KeyW | KeyCode::ArrowUp => {
                self.forward = held;
                true
            },
            KeyCode::KeyS | KeyCode::ArrowDown => {
                self.backward = held;
                true
            },
            KeyCode::KeyA | KeyCode::ArrowLeft => {
                self.left = held;
                true
            },
            KeyCode::KeyD | KeyCode::ArrowRight => {
                self.right = held;
                true
            },
            KeyCode::Space => {
                self.up = held;
                true
            },
            KeyCode::ShiftLeft => {
                self.down = held;
                true
            },
            KeyCode::Other => false,
        };
        assert(self@.held =~= old(self)@.after_key(keycode, state).held);
        handled
    }

    /// Replaces the pending pointer motion with `(dx, dy)`; motion does not add
    /// up between ticks.
    pub fn handle_mouse(&mut self, dx: T, dy: T)
        ensures
            final(self)@ == old(self)@.after_mouse(dx, dy),
    {
        self.rotation = Some((dx, dy));
        assert(self@.held =~= old(self)@.held);
    }

    /// Replaces the pending scroll amount; scroll does not add up between ticks.
    pub fn handle_mouse_scroll(&mut self, amount: T)
        ensures
            final(self)@ == old(self)@.after_scroll(amount),
    {
        self.scroll = Some(amount);
        assert(self@.held =~= old(self)@.held);
    }

    /// Hands out what the camera integration needs for one tick, and consumes
    /// the pending motion and scroll.
    pub fn take_tick(&mut self) -> (t: MoveTick<T>)
        ensures
            t == old(self)@.tick(),
            final(self)@ == old(self)@.after_tick(),
    {
        proof {
            assert(self.is_held(Axis::Forward) == self@.held.contains(Axis::Forward));
            assert(self.is_held(Axis::Backward) == self@.held.contains(Axis::Backward));
            assert(self.is_held(Axis::Left) == self@.held.contains(Axis::Left));
            assert(self.is_held(Axis::Right) == self@.held.contains(Axis::Right));
            assert(self.is_held(Axis::Up) == self@.held.contains(Axis::Up));
            assert(self.is_held(Axis::Down) == self@.held.contains(Axis::Down));
        }
        let t = MoveTick {
            forward: sign(self.forward, self.backward),
            right: sign(self.right, self.left),
            up: sign(self.up, self.down),
            rotation: self.rotation,
            scroll: self.scroll,
        };
        self.rotation = None;
        self.scroll = None;
        assert(self@.held =~= old(self)@.held);
        t
    }
}

/// Ticks with no input in between keep the set of held keys and the rates.
pub proof fn lemma_ticks_keep_held<T>(v: ControllerView<T>, n: nat)
    ensures
        v.after_ticks(n).held == v.held,
        v.after_ticks(n).speed == v.speed,
        v.after_ticks(n).sensitivity == v.sensitivity,
    decreases n,
{
    if n > 0 {
        lemma_ticks_keep_held(v.after_tick(), (n - 1) as nat);
    }
}

/// One pointer motion followed by a tick hands that motion out exactly once:
/// the next tick, with no motion in between, carries none.
pub proof fn lemma_mouse_motion_consumed<T>(v: ControllerView<T>, dx: T, dy: T)
    ensures
        v.after_mouse(dx, dy).tick().rotation == Some((dx, dy)),
        v.after_mouse(dx, dy).after_tick().tick().rotation is None,
{
}

/// One scroll event followed by two ticks applies the scroll on the first
/// tick only.
pub proof fn lemma_scroll_one_shot<T>(v: ControllerView<T>, amount: T)
    ensures
        v.after_scroll(amount).tick().scroll == Some(amount),
        v.after_scroll(amount).after_tick().tick().scroll is None,
{
}

/// With the backward key up, pressing W makes every following tick move
/// forward until W is released; from then on no tick moves forward.
pub proof fn lemma_forward_key_toggle<T>(v: ControllerView<T>, n: nat, m: nat)
    requires
        !v.held.contains(Axis::Backward),
    ensures
        forall|k: nat|
            k <= n ==> (#[trigger] v.after_key(KeyCode::KeyW, ElementState::Pressed).after_ticks(
                k,
            )).tick().forward == 1,
        v.after_key(KeyCode::KeyW, ElementState::Pressed).after_ticks(n).after_key(
            KeyCode::KeyW,
            ElementState::Released,
        ).after_ticks(m).tick().forward == 0,
{
    let p = v.after_key(KeyCode::KeyW, ElementState::Pressed);
    assert forall|k: nat| k <= n implies (#[trigger] p.after_ticks(k)).tick().forward == 1 by {
        lemma_ticks_keep_held(p, k);
    }
    lemma_ticks_keep_held(p, n);
    let q = p.after_ticks(n).after_key(KeyCode::KeyW, ElementState::Released);
    lemma_ticks_keep_held(q, m);
}

} // verus!
