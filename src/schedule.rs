use vstd::prelude::*;

verus! {

/// Which of the four per-frame routines act on one camera in one frame.
#[derive(Clone, Copy, Debug, PartialEq, Eq, Structural)]
pub struct Routines {
    /// Yaw and pitch from pointer motion.
    pub rotate: bool,
    /// Magnification from scrolling.
    pub zoom: bool,
    /// Movement from the held movement keys.
    pub move_by_keys: bool,
    /// The late pass that clamps the pitch into the configured range.
    pub clamp_vertically: bool,
}

/// The routines that act on a camera this frame. Nothing acts unless the debug camera is
/// enabled globally and on this camera; the vertical clamp acts only where a pitch range
/// is configured.
pub fn routines_for(globally_enabled: bool, camera_enabled: bool, clamp_configured: bool) -> (r:
    Routines)
    ensures
        r.rotate == (globally_enabled && camera_enabled),
        r.zoom == (globally_enabled && camera_enabled),
        r.move_by_keys == (globally_enabled && camera_enabled),
        r.clamp_vertically == (globally_enabled && camera_enabled && clamp_configured),
{
    let active = globally_enabled && camera_enabled;
    Routines {
        rotate: active,
        zoom: active,
        move_by_keys: active,
        clamp_vertically: active && clamp_configured,
    }
}

/// Attaching a debug camera to an entity failed.
#[derive(Clone, Copy, Debug, PartialEq, Eq, Structural)]
pub enum AttachError {
    /// The original transform is to be remembered, and the entity has none.
    MissingTransform,
}

/// The origin a debug camera keeps when it is attached to an entity whose transform is
/// `transform`: a snapshot of it where `remember_original_transform` is set, else none.
/// Remembering the transform of an entity that has none is an error, found before anything
/// is changed.
pub fn origin_on_attach<T>(remember_original_transform: bool, transform: Option<T>) -> (r: Result<
    Option<T>,
    AttachError,
>)
    ensures
        !remember_original_transform ==> r == Ok::<Option<T>, AttachError>(None),
        remember_original_transform && transform is Some ==> r == Ok::<Option<T>, AttachError>(
            transform,
        ),
        remember_original_transform && transform is None ==> r == Err::<Option<T>, AttachError>(
            AttachError::MissingTransform,
        ),
{
    if !remember_original_transform {
        Ok(None)
    } else {
        match transform {
            Some(t) => Ok(Some(t)),
            None => Err(AttachError::MissingTransform),
        }
    }
}

} // verus!
