use winit_x11::pointer_facts::button_state_transition;
use winit_x11::pointer_facts::classify_pointer_hierarchy;
use winit_x11::pointer_facts::ButtonStateTransition;
use winit_x11::pointer_facts::ImplicitCaptureOwner;
use winit_x11::pointer_facts::ImplicitPointerCaptures;
use winit_x11::pointer_facts::NativePointerRoute;
use winit_x11::pointer_facts::MAX_POINTER_HIERARCHY_DEPTH;

const DEVICE: u16 = 2;
const OWNER: u32 = 100;
const OTHER_WINDOW: u32 = 200;

fn transition(any_before: bool, any_after: bool) -> Option<ButtonStateTransition> {
    Some(ButtonStateTransition { any_before, any_after })
}

#[test]
fn button_transition_uses_post_event_state() {
    assert_eq!(button_state_transition(&[0], 1, true), transition(false, true));
    assert_eq!(button_state_transition(&[0b0000_0010], 1, false), transition(true, false));
    assert_eq!(button_state_transition(&[0b0000_1010], 1, false), transition(true, true));
    assert_eq!(button_state_transition(&[], 1, true), None);
    assert_eq!(button_state_transition(&[0], 0, true), None);
}

#[test]
fn implicit_capture_stays_with_first_delivery_until_last_release() {
    let mut captures = ImplicitPointerCaptures::default();

    assert_eq!(
        captures.after_button_event(DEVICE, OWNER, true, true, transition(false, true)),
        NativePointerRoute::Window(OWNER)
    );
    assert_eq!(captures.for_button_state(DEVICE, Some(true)), NativePointerRoute::Window(OWNER));
    assert_eq!(
        captures.after_button_event(DEVICE, OWNER, true, true, transition(true, true)),
        NativePointerRoute::Window(OWNER)
    );
    assert_eq!(
        captures.after_button_event(DEVICE, OWNER, true, false, transition(true, true)),
        NativePointerRoute::Window(OWNER)
    );
    assert_eq!(
        captures.after_button_event(DEVICE, OWNER, true, false, transition(true, false)),
        NativePointerRoute::Nowhere
    );
}

#[test]
fn capture_without_observed_press_fails_closed_until_buttons_are_up() {
    let mut captures = ImplicitPointerCaptures::default();

    assert_eq!(captures.for_button_state(DEVICE, Some(true)), NativePointerRoute::Unknown);
    assert_eq!(captures.for_button_state(DEVICE, None), NativePointerRoute::Unknown);
    assert_eq!(captures.for_button_state(DEVICE, Some(false)), NativePointerRoute::Nowhere);
}

#[test]
fn resetting_window_capture_is_scoped_and_idempotent() {
    let mut captures = ImplicitPointerCaptures::default();
    let other_device = DEVICE + 1;
    captures.owners.insert(DEVICE, ImplicitCaptureOwner::Window(OWNER));
    captures.owners.insert(other_device, ImplicitCaptureOwner::Window(OTHER_WINDOW));

    assert_eq!(captures.reset_window(OWNER), vec![DEVICE]);
    assert!(captures.reset_window(OWNER).is_empty());
    assert_eq!(
        captures.for_button_state(other_device, Some(true)),
        NativePointerRoute::Window(OTHER_WINDOW)
    );
    assert_eq!(captures.reset_device(other_device), Some(OTHER_WINDOW));
    assert_eq!(captures.reset_device(other_device), None);
}

#[test]
fn hierarchy_distinguishes_desktop_foreign_and_winit_windows() {
    assert_eq!(
        classify_pointer_hierarchy(0, |_| false, |_| unreachable!()),
        NativePointerRoute::Nowhere
    );
    assert_eq!(
        classify_pointer_hierarchy(OWNER, |window| window == OWNER, |_| unreachable!()),
        NativePointerRoute::Window(OWNER)
    );
    assert_eq!(
        classify_pointer_hierarchy(
            50,
            |window| window == OWNER,
            |window| Ok(if window == 50 { OWNER } else { 0 }),
        ),
        NativePointerRoute::Window(OWNER)
    );
    assert_eq!(classify_pointer_hierarchy(50, |_| false, |_| Ok(0)), NativePointerRoute::Foreign);
    assert_eq!(
        classify_pointer_hierarchy(50, |_| false, |_| Err(())),
        NativePointerRoute::Unknown
    );
    assert_eq!(classify_pointer_hierarchy(50, |_| false, Ok), NativePointerRoute::Unknown);
}

#[test]
fn hover_route_does_not_change_capture_owner() {
    let mut captures = ImplicitPointerCaptures::default();
    captures.owners.insert(DEVICE, ImplicitCaptureOwner::Window(OWNER));

    let hover = classify_pointer_hierarchy(
        OTHER_WINDOW,
        |window| window == OWNER || window == OTHER_WINDOW,
        |_| unreachable!(),
    );
    assert_eq!(hover, NativePointerRoute::Window(OTHER_WINDOW));
    assert_eq!(captures.for_button_state(DEVICE, Some(true)), NativePointerRoute::Window(OWNER));
}

#[test]
fn first_press_on_foreign_window_records_an_unknown_owner() {
    let mut captures = ImplicitPointerCaptures::default();
    assert_eq!(
        captures.after_button_event(DEVICE, OWNER, false, true, transition(false, true)),
        NativePointerRoute::Unknown
    );
    assert_eq!(captures.owners.get(&DEVICE), Some(&ImplicitCaptureOwner::Unknown));
    assert_eq!(captures.reset_device(DEVICE), None);
}

#[test]
fn button_event_without_transition_forgets_the_owner() {
    let mut captures = ImplicitPointerCaptures::default();
    captures.owners.insert(DEVICE, ImplicitCaptureOwner::Window(OWNER));
    assert_eq!(
        captures.after_button_event(DEVICE, OWNER, true, true, None),
        NativePointerRoute::Unknown
    );
    assert_eq!(captures.owners.get(&DEVICE), Some(&ImplicitCaptureOwner::Unknown));
}

#[test]
fn reset_window_returns_every_owned_device_once_and_keeps_the_rest() {
    let mut captures = ImplicitPointerCaptures::default();
    for device in 0..40u16 {
        let owner = if device % 3 == 0 {
            ImplicitCaptureOwner::Window(OWNER)
        } else if device % 3 == 1 {
            ImplicitCaptureOwner::Window(OTHER_WINDOW)
        } else {
            ImplicitCaptureOwner::Unknown
        };
        captures.owners.insert(device, owner);
    }
    let mut devices = captures.reset_window(OWNER);
    devices.sort_unstable();
    let expected: Vec<u16> = (0..40u16).filter(|device| device % 3 == 0).collect();
    assert_eq!(devices, expected);
    assert_eq!(captures.owners.len(), 40 - expected.len());
    assert_eq!(captures.owners.get(&1), Some(&ImplicitCaptureOwner::Window(OTHER_WINDOW)));
    assert_eq!(captures.owners.get(&2), Some(&ImplicitCaptureOwner::Unknown));
}

#[test]
fn button_transition_spans_every_mask_byte() {
    assert_eq!(button_state_transition(&[0, 0b1000_0000], 3, true), transition(true, true));
    assert_eq!(button_state_transition(&[0, 0], 15, true), transition(false, true));
    assert_eq!(button_state_transition(&[0, 0], 16, true), None);
    assert_eq!(button_state_transition(&[0b0000_0001], 0, false), None);
    assert_eq!(button_state_transition(&[0b0000_0001], -1, false), None);
    assert_eq!(button_state_transition(&[0b0000_0001], 7, false), transition(true, true));
    assert_eq!(button_state_transition(&[0b1000_0000], 7, false), transition(true, false));
}

#[test]
fn hierarchy_revisit_and_depth_bound_fail_closed() {
    // A cycle 50 -> 60 -> 50 is reported as unknown.
    assert_eq!(
        classify_pointer_hierarchy(50, |_| false, |window| Ok(if window == 50 { 60 } else { 50 })),
        NativePointerRoute::Unknown
    );
    // A chain longer than the bound never reaches the Winit window at its end.
    let depth = MAX_POINTER_HIERARCHY_DEPTH as u32;
    assert_eq!(
        classify_pointer_hierarchy(1, |window| window == depth + 1, |window| Ok(window + 1)),
        NativePointerRoute::Unknown
    );
    assert_eq!(
        classify_pointer_hierarchy(1, |window| window == depth, |window| Ok(window + 1)),
        NativePointerRoute::Window(depth)
    );
}
