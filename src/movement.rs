use vstd::prelude::*;

use crate::bindings::{Direction, KeyBindings};

verus! {

/// What the keyboard reports, in the current frame, for the key bound to one action.
#[derive(Clone, Copy, Debug, PartialEq, Eq, Structural)]
pub struct KeyState {
    /// The key is held down.
    pub pressed: bool,
    /// The key went down in this frame.
    pub just_pressed: bool,
}

/// The sticky toggle after one frame: flipped once by each just-pressed edge of the key.
pub open spec fn toggle_after(key: Option<KeyState>, toggle: bool) -> bool {
    match key {
        None => toggle,
        Some(k) => toggle != k.just_pressed,
    }
}

/// Whether fast movement is active in this frame, given the state of the key bound to it
/// (`None` where no key is bound) and the persistent toggle before the frame.
pub open spec fn fast_after(sticky: bool, key: Option<KeyState>, toggle: bool) -> bool {
    match key {
        None => false,
        Some(k) => if sticky {
            toggle_after(key, toggle)
        } else {
            k.pressed
        },
    }
}

/// The persistent toggle after one frame, in either mode.
pub open spec fn next_toggle(sticky: bool, key: Option<KeyState>, toggle: bool) -> bool {
    if sticky {
        toggle_after(key, toggle)
    } else {
        toggle
    }
}

/// Decides whether the camera moves at fast speed in this frame.
///
/// In hold mode (`sticky == false`) fast movement lasts while the key is held. In sticky
/// mode each just-pressed edge flips `toggle`, and fast movement lasts while it is on.
/// Without a bound key the camera never moves fast and the toggle is left as it is.
pub fn fast_movement(sticky: bool, key: Option<KeyState>, toggle: &mut bool) -> (fast: bool)
    ensures
        fast == fast_after(sticky, key, *old(toggle)),
        *final(toggle) == next_toggle(sticky, key, *old(toggle)),
{
    match key {
        None => false,
        Some(k) => {
            if sticky {
                *toggle = *toggle != k.just_pressed;
                *toggle
            } else {
                k.pressed
            }
        },
    }
}

/// Direction `d` is bound to a key that is held in this frame.
pub open spec fn is_active(keys: KeyBindings<KeyState>, d: Direction) -> bool {
    match keys.binding(d) {
        Some(k) => k.pressed,
        None => false,
    }
}

/// Every direction once, in the order in which a frame's movement sums them.
pub open spec fn all_directions() -> Seq<Direction> {
    seq![
        Direction::Forward,
        Direction::Left,
        Direction::Back,
        Direction::Right,
        Direction::Up,
        Direction::Down,
        Direction::GlobalUp,
        Direction::GlobalDown,
    ]
}

/// `is_active` for the given keys, as a predicate on directions.
pub open spec fn active_in(keys: KeyBindings<KeyState>) -> spec_fn(Direction) -> bool {
    |d: Direction| is_active(keys, d)
}

/// The active directions, in the order of `all_directions`.
pub open spec fn active_directions_of(keys: KeyBindings<KeyState>) -> Seq<Direction> {
    all_directions().filter(active_in(keys))
}

/// The directions the camera moves in during this frame: those whose key is bound and held.
/// Each contributes `direction * speed * elapsed` to the frame's displacement.
pub fn active_directions(keys: &KeyBindings<KeyState>) -> (r: Vec<Direction>)
    ensures
        r@ == active_directions_of(*keys),
{
    let all: [Direction; 8] = [
        Direction::Forward,
        Direction::Left,
        Direction::Back,
        Direction::Right,
        Direction::Up,
        Direction::Down,
        Direction::GlobalUp,
        Direction::GlobalDown,
    ];
    assert(all@ =~= all_directions());
    let ghost pred = active_in(*keys);
    let mut r: Vec<Direction> = Vec::new();
    let mut i: usize = 0;
    while i < 8
        invariant
            i <= 8,
            all@ == all_directions(),
            pred == active_in(*keys),
            r@ == all_directions().take(i as int).filter(pred),
        decreases 8 - i,
    {
        let d = all[i];
        let active = match keys.binding_of(d) {
            Some(k) => k.pressed,
            None => false,
        };
        if active {
            r.push(d);
        }
        proof {
            assert(d == all_directions()[i as int]);
            assert(active == pred(d));
            let before = all_directions().take(i as int);
            assert(all_directions().take(i + 1) =~= before.push(d));
            before.lemma_filter_push(d, pred);
        }
        i = i + 1;
    }
    assert(all_directions().take(8) =~= all_directions());
    r
}

/// The sticky toggle after a run of frames, given the fast-movement key's state in each.
pub open spec fn toggle_over(frames: Seq<KeyState>, toggle: bool) -> bool
    decreases frames.len(),
{
    if frames.len() == 0 {
        toggle
    } else {
        toggle_after(Some(frames.last()), toggle_over(frames.drop_last(), toggle))
    }
}

/// The number of frames of the run in which the key went down.
pub open spec fn presses(frames: Seq<KeyState>) -> nat
    decreases frames.len(),
{
    if frames.len() == 0 {
        0
    } else {
        presses(frames.drop_last()) + if frames.last().just_pressed {
            1nat
        } else {
            0nat
        }
    }
}

/// In sticky mode a frame in which the key goes down flips fast movement, and takes effect
/// in that frame; a frame without such an edge, the key held or not, leaves it as it was.
pub proof fn lemma_sticky_edge_flips(key: KeyState, toggle: bool)
    ensures
        fast_after(true, Some(key), toggle) == next_toggle(true, Some(key), toggle),
        key.just_pressed ==> next_toggle(true, Some(key), toggle) == !toggle,
        !key.just_pressed ==> next_toggle(true, Some(key), toggle) == toggle,
{
}

/// In sticky mode, after any run of frames the toggle has flipped once per press: it differs
/// from where it started exactly when the key went down an odd number of times. Holding the
/// key down without new presses changes nothing.
pub proof fn lemma_sticky_toggle_counts_presses(frames: Seq<KeyState>, toggle: bool)
    ensures
        toggle_over(frames, toggle) == (toggle != (presses(frames) % 2 == 1)),
    decreases frames.len(),
{
    if frames.len() > 0 {
        lemma_sticky_toggle_counts_presses(frames.drop_last(), toggle);
    }
}

/// What the keyboard asks of one camera in one frame.
#[derive(Clone, Debug)]
pub struct MovementPlan {
    /// Move at the fast speed rather than the base speed.
    pub fast: bool,
    /// The directions to move in, see `active_directions`.
    pub directions: Vec<Direction>,
}

/// The keyboard's part of one frame for one camera: which speed, which directions, and the
/// sticky toggle carried to the next frame. The displacement is then the sum of each
/// direction's unit vector times the chosen speed times the elapsed time.
pub fn plan_movement(
    sticky_fast_movement: bool,
    keys: &KeyBindings<KeyState>,
    fast_toggle: &mut bool,
) -> (r: MovementPlan)
    ensures
        r.fast == fast_after(sticky_fast_movement, keys.fast_movement, *old(fast_toggle)),
        *final(fast_toggle) == next_toggle(
            sticky_fast_movement,
            keys.fast_movement,
            *old(fast_toggle),
        ),
        r.directions@ == active_directions_of(*keys),
{
    let fast = fast_movement(sticky_fast_movement, keys.fast_movement, fast_toggle);
    MovementPlan { fast, directions: active_directions(keys) }
}

/// Filtering a sequence without duplicates gives a sequence without duplicates.
proof fn lemma_filter_keeps_distinct(ds: Seq<Direction>, pred: spec_fn(Direction) -> bool)
    requires
        ds.no_duplicates(),
    ensures
        ds.filter(pred).no_duplicates(),
    decreases ds.len(),
{
    if ds.len() > 0 {
        let rest = ds.drop_last();
        let x = ds.last();
        assert(rest.push(x) =~= ds);
        assert(rest.no_duplicates());
        lemma_filter_keeps_distinct(rest, pred);
        rest.lemma_filter_push(x, pred);
        if pred(x) {
            let f = rest.filter(pred);
            assert forall|i: int| 0 <= i < f.len() implies f[i] != x by {
                assert(f.contains(f[i]));
                rest.lemma_filter_contains_rev(pred, f[i]);
                let j = choose|j: int| 0 <= j < rest.len() && rest[j] == f[i];
                assert(ds[j] == rest[j]);
            }
        }
    }
}

/// The camera moves in exactly the directions whose key is bound and held, and in none of
/// them twice.
pub proof fn lemma_active_directions_exact(keys: KeyBindings<KeyState>)
    ensures
        forall|d: Direction| #[trigger]
            active_directions_of(keys).contains(d) <==> is_active(keys, d),
        active_directions_of(keys).no_duplicates(),
{
    let all = all_directions();
    let pred = active_in(keys);
    assert forall|d: Direction| #[trigger]
        active_directions_of(keys).contains(d) <==> is_active(keys, d) by {
        let i: int = match d {
            Direction::Forward => 0,
            Direction::Left => 1,
            Direction::Back => 2,
            Direction::Right => 3,
            Direction::Up => 4,
            Direction::Down => 5,
            Direction::GlobalUp => 6,
            Direction::GlobalDown => 7,
        };
        assert(all[i] == d);
        if is_active(keys, d) {
            all.lemma_filter_contains(pred, i);
        }
        if active_directions_of(keys).contains(d) {
            let f = all.filter(pred);
            let j = choose|j: int| 0 <= j < f.len() && f[j] == d;
            all.lemma_filter_pred(pred, j);
        }
    }
    assert(all.no_duplicates());
    lemma_filter_keeps_distinct(all, pred);
}

/// With every key released, or no key bound, the camera does not move.
pub proof fn lemma_released_keys_stay(keys: KeyBindings<KeyState>)
    requires
        forall|d: Direction| !is_active(keys, d),
    ensures
        active_directions_of(keys) == Seq::<Direction>::empty(),
{
    let pred = active_in(keys);
    all_directions().lemma_all_neg_filter_empty(pred);
    assert(active_directions_of(keys) =~= Seq::<Direction>::empty());
}

/// With the forward key held and no other movement key, the camera moves along its
/// forward axis alone.
pub proof fn lemma_forward_only(keys: KeyBindings<KeyState>)
    requires
        is_active(keys, Direction::Forward),
        forall|d: Direction| d != Direction::Forward ==> !is_active(keys, d),
    ensures
        active_directions_of(keys) == seq![Direction::Forward],
{
    reveal_with_fuel(Seq::filter, 9);
    assert(all_directions().drop_last() =~= seq![
        Direction::Forward,
        Direction::Left,
        Direction::Back,
        Direction::Right,
        Direction::Up,
        Direction::Down,
        Direction::GlobalUp,
    ]);
    assert(active_directions_of(keys) =~= seq![Direction::Forward]);
}

} // verus!
