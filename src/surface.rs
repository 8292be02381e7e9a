use vstd::prelude::*;

verus! {

/// A reference to a window, by the bits of its entity or as "the primary window".
#[derive(Clone, Copy, Debug, PartialEq, Eq, Structural)]
pub enum WindowRef {
    Primary,
    Entity(u64),
}

/// Where a camera renders to. Only a camera that renders to a window can be zoomed by
/// scrolling over it.
#[derive(Clone, Copy, Debug, PartialEq, Eq, Structural)]
pub enum RenderTarget {
    Window(WindowRef),
    Offscreen,
}

/// A camera's window could not be found.
#[derive(Clone, Copy, Debug, PartialEq, Eq, Structural)]
pub enum SurfaceError {
    /// The camera renders to the primary window, and there is none.
    NoPrimaryWindow,
}

/// The window, by entity bits, that a camera renders to: `None` for a camera that renders
/// elsewhere, and an error where it names the primary window and `primary` holds none.
pub fn camera_window(target: RenderTarget, primary: Option<u64>) -> (r: Result<
    Option<u64>,
    SurfaceError,
>)
    ensures
        match target {
            RenderTarget::Offscreen => r == Ok::<Option<u64>, SurfaceError>(None),
            RenderTarget::Window(WindowRef::Entity(e)) => r == Ok::<Option<u64>, SurfaceError>(
                Some(e),
            ),
            RenderTarget::Window(WindowRef::Primary) => match primary {
                Some(p) => r == Ok::<Option<u64>, SurfaceError>(Some(p)),
                None => r == Err::<Option<u64>, SurfaceError>(SurfaceError::NoPrimaryWindow),
            },
        },
{
    match target {
        RenderTarget::Offscreen => Ok(None),
        RenderTarget::Window(WindowRef::Entity(e)) => Ok(Some(e)),
        RenderTarget::Window(WindowRef::Primary) => match primary {
            Some(p) => Ok(Some(p)),
            None => Err(SurfaceError::NoPrimaryWindow),
        },
    }
}

/// The positions, in increasing order, of the scroll events of this frame that target
/// `window`, given the window each event targets. The camera's zoom takes the sum of those
/// events' deltas, and is left untouched where there are none.
pub fn scroll_events_for_window(window: u64, event_windows: &Vec<u64>) -> (r: Vec<usize>)
    ensures
        forall|k: int| 0 <= k < r@.len() ==> r@[k] < event_windows@.len(),
        forall|k: int| 0 <= k < r@.len() ==> event_windows@[#[trigger] r@[k] as int] == window,
        forall|k1: int, k2: int| 0 <= k1 < k2 < r@.len() ==> r@[k1] < r@[k2],
        forall|i: int|
            0 <= i < event_windows@.len() && #[trigger] event_windows@[i] == window
                ==> r@.contains(i as usize),
        r@.len() == 0 <==> forall|i: int|
            0 <= i < event_windows@.len() ==> #[trigger] event_windows@[i] != window,
{
    let mut r: Vec<usize> = Vec::new();
    let mut i: usize = 0;
    while i < event_windows.len()
        invariant
            i <= event_windows@.len(),
            forall|k: int| 0 <= k < r@.len() ==> r@[k] < i,
            forall|k: int|
                0 <= k < r@.len() ==> event_windows@[#[trigger] r@[k] as int] == window,
            forall|k1: int, k2: int| 0 <= k1 < k2 < r@.len() ==> r@[k1] < r@[k2],
            forall|j: int|
                0 <= j < i && #[trigger] event_windows@[j] == window ==> r@.contains(j as usize),
        decreases event_windows@.len() - i,
    {
        let ghost before = r@;
        if event_windows[i] == window {
            r.push(i);
            assert(r@[r@.len() - 1] == i);
        }
        proof {
            assert forall|j: int|
                0 <= j < i + 1 && #[trigger] event_windows@[j] == window implies r@.contains(
                j as usize,
            ) by {
                if j == i {
                    assert(r@[r@.len() - 1] == j as usize);
                } else {
                    let k = choose|k: int| 0 <= k < before.len() && before[k] == j as usize;
                    assert(r@[k] == j as usize);
                }
            }
        }
        i = i + 1;
    }
    proof {
        if r@.len() > 0 {
            assert(event_windows@[r@[0] as int] == window);
        }
    }
    r
}

} // verus!
