use vstd::prelude::*;

verus! {

/// One key per logical action; `None` leaves the action unreachable by keyboard.
///
/// `K` is whatever identifies a key: the host's key code in configuration, or the state
/// that key is in during one frame once it has been looked up.
#[derive(Clone, Copy, Debug, PartialEq, Eq)]
pub struct KeyBindings<K> {
    pub forward: Option<K>,
    pub back: Option<K>,
    pub left: Option<K>,
    pub right: Option<K>,
    pub up: Option<K>,
    pub down: Option<K>,
    pub global_up: Option<K>,
    pub global_down: Option<K>,
    pub fast_movement: Option<K>,
}

/// The eight directions a key can move the camera in. The first six are relative to the
/// camera's own orientation, the last two to the world's vertical axis.
#[derive(Clone, Copy, Debug, PartialEq, Eq, Structural)]
pub enum Direction {
    Forward,
    Left,
    Back,
    Right,
    Up,
    Down,
    GlobalUp,
    GlobalDown,
}

/// How one binding maps under `f`: absent stays absent, a key becomes one of `f`'s results.
pub open spec fn maps_to<K, S, F: Fn(K) -> S>(f: F, before: Option<K>, after: Option<S>) -> bool {
    match (before, after) {
        (None, None) => true,
        (Some(k), Some(s)) => f.ensures((k,), s),
        _ => false,
    }
}

impl<K: Copy> KeyBindings<K> {
    /// No action has a key.
    pub open spec fn is_empty(&self) -> bool {
        &&& self.forward is None
        &&& self.back is None
        &&& self.left is None
        &&& self.right is None
        &&& self.up is None
        &&& self.down is None
        &&& self.global_up is None
        &&& self.global_down is None
        &&& self.fast_movement is None
    }

    /// The binding of the action that moves the camera in direction `d`.
    pub open spec fn binding(&self, d: Direction) -> Option<K> {
        match d {
            Direction::Forward => self.forward,
            Direction::Left => self.left,
            Direction::Back => self.back,
            Direction::Right => self.right,
            Direction::Up => self.up,
            Direction::Down => self.down,
            Direction::GlobalUp => self.global_up,
            Direction::GlobalDown => self.global_down,
        }
    }

    /// The binding of the action that moves the camera in direction `d`.
    pub fn binding_of(&self, d: Direction) -> (r: Option<K>)
        ensures
            r == self.binding(d),
    {
        match d {
            Direction::Forward => self.forward,
            Direction::Left => self.left,
            Direction::Back => self.back,
            Direction::Right => self.right,
            Direction::Up => self.up,
            Direction::Down => self.down,
            Direction::GlobalUp => self.global_up,
            Direction::GlobalDown => self.global_down,
        }
    }

    /// Bindings with no key for any action.
    pub fn empty() -> (r: Self)
        ensures
            r.is_empty(),
    {
        KeyBindings {
            forward: None,
            back: None,
            left: None,
            right: None,
            up: None,
            down: None,
            global_up: None,
            global_down: None,
            fast_movement: None,
        }
    }

    /// Applies `f` to every bound key, keeping unbound actions unbound. Used to look up,
    /// once per frame, the state of each configured key.
    pub fn map_keys<S, F: Fn(K) -> S>(&self, f: F) -> (r: KeyBindings<S>)
        requires
            forall|k: K| f.requires((k,)),
        ensures
            maps_to(f, self.forward, r.forward),
            maps_to(f, self.back, r.back),
            maps_to(f, self.left, r.left),
            maps_to(f, self.right, r.right),
            maps_to(f, self.up, r.up),
            maps_to(f, self.down, r.down),
            maps_to(f, self.global_up, r.global_up),
            maps_to(f, self.global_down, r.global_down),
            maps_to(f, self.fast_movement, r.fast_movement),
    {
        KeyBindings {
            forward: map_one(&f, self.forward),
            back: map_one(&f, self.back),
            left: map_one(&f, self.left),
            right: map_one(&f, self.right),
            up: map_one(&f, self.up),
            down: map_one(&f, self.down),
            global_up: map_one(&f, self.global_up),
            global_down: map_one(&f, self.global_down),
            fast_movement: map_one(&f, self.fast_movement),
        }
    }
}

fn map_one<K: Copy, S, F: Fn(K) -> S>(f: &F, key: Option<K>) -> (r: Option<S>)
    requires
        forall|k: K| f.requires((k,)),
    ensures
        maps_to(*f, key, r),
{
    match key {
        None => None,
        Some(k) => Some(f(k)),
    }
}

/// Keyboard configuration of a debug camera.
#[derive(Clone, Copy, Debug)]
pub struct InputOptions<K> {
    /// Whether the fast-movement key toggles fast movement on each press (`true`) or
    /// makes the camera move fast only while held (`false`).
    pub sticky_fast_movement: bool,
    pub keybindings: KeyBindings<K>,
}

impl<K: Copy> InputOptions<K> {
    /// Hold-to-activate fast movement with the given bindings.
    pub fn with_keybindings(keybindings: KeyBindings<K>) -> (r: Self)
        ensures
            !r.sticky_fast_movement,
            r.keybindings == keybindings,
    {
        InputOptions { sticky_fast_movement: false, keybindings }
    }
}

impl<K: Copy> Default for InputOptions<K> {
    /// Hold-to-activate fast movement, and no key bound to any action.
    fn default() -> (r: Self)
        ensures
            !r.sticky_fast_movement,
            r.keybindings.is_empty(),
    {
        InputOptions::with_keybindings(KeyBindings::empty())
    }
}

} // verus!
