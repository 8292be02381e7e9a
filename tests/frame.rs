use bevy_awesome_debug_camera::schedule::{origin_on_attach, routines_for, AttachError, Routines};
use bevy_awesome_debug_camera::surface::{
    camera_window, scroll_events_for_window, RenderTarget, SurfaceError, WindowRef,
};

#[test]
fn camera_window_resolves_the_primary_window() {
    assert_eq!(camera_window(RenderTarget::Window(WindowRef::Primary), Some(7)), Ok(Some(7)));
}

#[test]
fn camera_window_keeps_a_named_window() {
    assert_eq!(camera_window(RenderTarget::Window(WindowRef::Entity(3)), Some(7)), Ok(Some(3)));
    assert_eq!(camera_window(RenderTarget::Window(WindowRef::Entity(3)), None), Ok(Some(3)));
}

#[test]
fn camera_window_skips_offscreen_cameras() {
    assert_eq!(camera_window(RenderTarget::Offscreen, Some(7)), Ok(None));
    assert_eq!(camera_window(RenderTarget::Offscreen, None), Ok(None));
}

#[test]
fn camera_window_without_primary_window_fails() {
    assert_eq!(
        camera_window(RenderTarget::Window(WindowRef::Primary), None),
        Err(SurfaceError::NoPrimaryWindow)
    );
}

#[test]
fn scroll_events_are_filtered_by_window() {
    let events: Vec<u64> = vec![7, 3, 7, 7, 9];
    assert_eq!(scroll_events_for_window(7, &events), vec![0, 2, 3]);
    assert_eq!(scroll_events_for_window(9, &events), vec![4]);
}

#[test]
fn scroll_events_for_another_window_leave_zoom_alone() {
    let events: Vec<u64> = vec![3, 3];
    assert!(scroll_events_for_window(7, &events).is_empty());
    assert!(scroll_events_for_window(7, &Vec::new()).is_empty());
}

#[test]
fn routines_need_both_switches() {
    let none = Routines { rotate: false, zoom: false, move_by_keys: false, clamp_vertically: false };
    assert_eq!(routines_for(false, true, true), none);
    assert_eq!(routines_for(true, false, true), none);
    assert_eq!(routines_for(false, false, false), none);
}

#[test]
fn routines_clamp_only_with_a_range() {
    assert_eq!(
        routines_for(true, true, true),
        Routines { rotate: true, zoom: true, move_by_keys: true, clamp_vertically: true }
    );
    assert_eq!(
        routines_for(true, true, false),
        Routines { rotate: true, zoom: true, move_by_keys: true, clamp_vertically: false }
    );
}

#[test]
fn origin_is_snapshotted_when_remembered() {
    assert_eq!(origin_on_attach(true, Some((1, 2, 3))), Ok(Some((1, 2, 3))));
}

#[test]
fn origin_is_not_kept_when_not_remembered() {
    assert_eq!(origin_on_attach(false, Some(5)), Ok(None));
    assert_eq!(origin_on_attach::<i32>(false, None), Ok(None));
}

#[test]
fn origin_of_entity_without_transform_fails() {
    assert_eq!(origin_on_attach::<i32>(true, None), Err(AttachError::MissingTransform));
}
