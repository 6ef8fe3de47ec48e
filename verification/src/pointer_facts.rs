//! Pure XI2 pointer-route state.
//!
//! The X11 requests stay with the caller; this module only decides, from the facts that the
//! caller hands in, which window owns a pointer device's implicit grab and where the pointer is.

use std::collections::HashMap;
use std::collections::HashSet;
use vstd::prelude::*;
use vstd::std_specs::hash::spec_keys_iter;
use vstd::std_specs::iter::IteratorSpec;

verus! {

broadcast use vstd::std_specs::hash::group_hash_axioms;

/// Bound hierarchy probing so a malformed or concurrently changing window tree fails closed.
pub const MAX_POINTER_HIERARCHY_DEPTH: usize = 64;

/// Where pointer input for a device is routed.
#[derive(Debug, Clone, Copy, PartialEq, Eq)]
pub enum NativePointerRoute {
    Unknown,
    Nowhere,
    Window(u32),
    Foreign,
}

/// The window that holds a device's implicit grab, if it is known.
#[derive(Debug, Clone, Copy, PartialEq, Eq)]
pub enum ImplicitCaptureOwner {
    Window(u32),
    Unknown,
}

impl ImplicitCaptureOwner {
    /// The route that an implicit grab held by this owner gives.
    pub open spec fn as_route(self) -> NativePointerRoute {
        match self {
            ImplicitCaptureOwner::Window(window) => NativePointerRoute::Window(window),
            ImplicitCaptureOwner::Unknown => NativePointerRoute::Unknown,
        }
    }

    pub fn route(self) -> (route: NativePointerRoute)
        ensures
            route == self.as_route(),
    {
        match self {
            ImplicitCaptureOwner::Window(window) => NativePointerRoute::Window(window),
            ImplicitCaptureOwner::Unknown => NativePointerRoute::Unknown,
        }
    }
}

/// The route given by a device whose capture entry is `owner` (`None`: no entry).
pub open spec fn route_of_entry(owner: Option<ImplicitCaptureOwner>) -> NativePointerRoute {
    match owner {
        Some(owner) => owner.as_route(),
        Option::None => NativePointerRoute::Nowhere,
    }
}

/// The owner recorded for `device`, or `Unknown` when no press was observed.
pub open spec fn owner_or_unknown(
    owners: Map<u16, ImplicitCaptureOwner>,
    device: u16,
) -> ImplicitCaptureOwner {
    if owners.contains_key(device) {
        owners[device]
    } else {
        ImplicitCaptureOwner::Unknown
    }
}

/// The capture map with `device`'s entry set to `entry` (`None`: removed).
pub open spec fn with_entry(
    owners: Map<u16, ImplicitCaptureOwner>,
    device: u16,
    entry: Option<ImplicitCaptureOwner>,
) -> Map<u16, ImplicitCaptureOwner> {
    match entry {
        Some(owner) => owners.insert(device, owner),
        Option::None => owners.remove(device),
    }
}

/// The entry that a button event leaves for its device.
pub open spec fn entry_after_button_event(
    owners: Map<u16, ImplicitCaptureOwner>,
    device: u16,
    delivery_window: u32,
    delivery_is_winit: bool,
    pressed: bool,
    transition: Option<ButtonStateTransition>,
) -> Option<ImplicitCaptureOwner> {
    match transition {
        Option::None => Some(ImplicitCaptureOwner::Unknown),
        Some(t) => if !t.any_after {
            Option::None
        } else if pressed && !t.any_before {
            if delivery_is_winit {
                Some(ImplicitCaptureOwner::Window(delivery_window))
            } else {
                Some(ImplicitCaptureOwner::Unknown)
            }
        } else {
            Some(owner_or_unknown(owners, device))
        },
    }
}

/// The entry that a queried button state leaves for its device.
pub open spec fn entry_for_button_state(
    owners: Map<u16, ImplicitCaptureOwner>,
    device: u16,
    any_pressed: Option<bool>,
) -> Option<ImplicitCaptureOwner> {
    match any_pressed {
        Some(false) => Option::None,
        _ => Some(owner_or_unknown(owners, device)),
    }
}

/// Whether `device`'s implicit grab is held by `window`.
pub open spec fn owned_by(owners: Map<u16, ImplicitCaptureOwner>, device: u16, window: u32) -> bool {
    owners.contains_key(device) && owners[device] == ImplicitCaptureOwner::Window(window)
}

/// The capture map without the grabs held by `window`.
pub open spec fn without_window(owners: Map<u16, ImplicitCaptureOwner>, window: u32) -> Map<
    u16,
    ImplicitCaptureOwner,
> {
    owners.remove_keys(Set::new(|d: u16| owned_by(owners, d, window)))
}

/// Implicit pointer grabs of the pointer devices, keyed by device id.
#[derive(Debug)]
pub struct ImplicitPointerCaptures {
    pub owners: HashMap<u16, ImplicitCaptureOwner>,
}

impl View for ImplicitPointerCaptures {
    type V = Map<u16, ImplicitCaptureOwner>;

    open spec fn view(&self) -> Map<u16, ImplicitCaptureOwner> {
        self.owners@
    }
}

impl Default for ImplicitPointerCaptures {
    fn default() -> (captures: Self)
        ensures
            captures@ == Map::<u16, ImplicitCaptureOwner>::empty(),
    {
        ImplicitPointerCaptures { owners: HashMap::new() }
    }
}

impl ImplicitPointerCaptures {
    /// Records what an XI2 button event tells about `device_id`'s implicit grab and returns
    /// the route of the event's pointer input.
    pub fn after_button_event(
        &mut self,
        device_id: u16,
        delivery_window: u32,
        delivery_is_winit: bool,
        pressed: bool,
        transition: Option<ButtonStateTransition>,
    ) -> (route: NativePointerRoute)
        ensures
            ({
                let entry = entry_after_button_event(
                    old(self)@,
                    device_id,
                    delivery_window,
                    delivery_is_winit,
                    pressed,
                    transition,
                );
                &&& final(self)@ == with_entry(old(self)@, device_id, entry)
                &&& route == route_of_entry(entry)
            }),
            transition is None ==> route == NativePointerRoute::Unknown && final(self)@ == old(
                self,
            )@.insert(device_id, ImplicitCaptureOwner::Unknown),
            transition matches Some(t) && !t.any_after ==> route == NativePointerRoute::Nowhere
                && final(self)@ == old(self)@.remove(device_id),
            transition matches Some(t) && t.any_after && pressed && !t.any_before ==> {
                let owner = if delivery_is_winit {
                    ImplicitCaptureOwner::Window(delivery_window)
                } else {
                    ImplicitCaptureOwner::Unknown
                };
                &&& final(self)@ == old(self)@.insert(device_id, owner)
                &&& route == (if delivery_is_winit {
                    NativePointerRoute::Window(delivery_window)
                } else {
                    NativePointerRoute::Unknown
                })
            },
            transition matches Some(t) && t.any_after && !(pressed && !t.any_before) ==> {
                &&& old(self)@.contains_key(device_id) ==> final(self)@ == old(self)@ && route
                    == old(self)@[device_id].as_route()
                &&& !old(self)@.contains_key(device_id) ==> final(self)@ == old(self)@.insert(
                    device_id,
                    ImplicitCaptureOwner::Unknown,
                ) && route == NativePointerRoute::Unknown
            },
    {
        let transition = match transition {
            Some(transition) => transition,
            Option::None => {
                self.owners.insert(device_id, ImplicitCaptureOwner::Unknown);
                return NativePointerRoute::Unknown;
            },
        };

        if !transition.any_after {
            self.owners.remove(&device_id);
            return NativePointerRoute::Nowhere;
        }

        if pressed && !transition.any_before {
            let owner = if delivery_is_winit {
                ImplicitCaptureOwner::Window(delivery_window)
            } else {
                ImplicitCaptureOwner::Unknown
            };
            self.owners.insert(device_id, owner);
            return owner.route();
        }

        self.route_or_unknown(device_id)
    }

    /// Keeps the recorded owner of `device_id`, recording `Unknown` when there is none.
    fn route_or_unknown(&mut self, device_id: u16) -> (route: NativePointerRoute)
        ensures
            final(self)@ == old(self)@.insert(device_id, owner_or_unknown(old(self)@, device_id)),
            route == owner_or_unknown(old(self)@, device_id).as_route(),
    {
        let owner = match self.owners.get(&device_id) {
            Some(owner) => *owner,
            Option::None => ImplicitCaptureOwner::Unknown,
        };
        self.owners.insert(device_id, owner);
        proof {
            if old(self)@.contains_key(device_id) {
                assert(old(self)@.insert(device_id, owner) =~= old(self)@);
            }
        }
        owner.route()
    }

    /// Records a device's queried button state (`None`: the query failed) and returns the route
    /// of its pointer input.
    pub fn for_button_state(&mut self, device_id: u16, any_pressed: Option<bool>) -> (route:
        NativePointerRoute)
        ensures
            ({
                let entry = entry_for_button_state(old(self)@, device_id, any_pressed);
                &&& final(self)@ == with_entry(old(self)@, device_id, entry)
                &&& route == route_of_entry(entry)
            }),
            any_pressed == Some(false) ==> route == NativePointerRoute::Nowhere
                && !final(self)@.contains_key(device_id),
            any_pressed != Some(false) && old(self)@.contains_key(device_id) ==> final(self)@
                == old(self)@ && route == old(self)@[device_id].as_route(),
            any_pressed != Some(false) && !old(self)@.contains_key(device_id) ==> final(self)@
                == old(self)@.insert(device_id, ImplicitCaptureOwner::Unknown) && route
                == NativePointerRoute::Unknown,
    {
        match any_pressed {
            Some(false) => {
                self.owners.remove(&device_id);
                NativePointerRoute::Nowhere
            },
            _ => self.route_or_unknown(device_id),
        }
    }

    /// Forgets `device_id`'s implicit grab and returns the window that held it.
    pub fn reset_device(&mut self, device_id: u16) -> (window: Option<u32>)
        ensures
            final(self)@ == old(self)@.remove(device_id),
            window == (match owner_or_unknown(old(self)@, device_id) {
                ImplicitCaptureOwner::Window(w) => Some(w),
                ImplicitCaptureOwner::Unknown => Option::<u32>::None,
            }),
    {
        match self.owners.remove(&device_id) {
            Some(ImplicitCaptureOwner::Window(window)) => Some(window),
            _ => Option::None,
        }
    }

    /// Forgets every implicit grab held by `window` and returns the devices that held one,
    /// each once, in no particular order.
    pub fn reset_window(&mut self, window: u32) -> (devices: Vec<u16>)
        ensures
            devices@.no_duplicates(),
            forall|d: u16| devices@.contains(d) <==> owned_by(old(self)@, d, window),
            final(self)@ == without_window(old(self)@, window),
    {
        let ghost owners = self.owners@;
        let ghost keys = spec_keys_iter(&self.owners).remaining();
        let ghost mut seen: int = 0;
        let mut devices: Vec<u16> = Vec::new();
        for device_id in it: self.owners.keys()
            invariant
                self.owners@ == owners,
                it.seq() == keys,
                seen == it.index(),
                keys == spec_keys_iter(&self.owners).remaining(),
                devices@.no_duplicates(),
                forall|d: u16|
                    devices@.contains(d) ==> owned_by(owners, d, window) && exists|i: int|
                        0 <= i < it.index() && *it.seq()[i] == d,
                forall|i: int|
                    0 <= i < it.index() && owned_by(owners, *it.seq()[i], window)
                        ==> devices@.contains(*it.seq()[i]),
        {
            let ghost before = devices@;
            let owned = match self.owners.get(device_id) {
                Some(ImplicitCaptureOwner::Window(w)) => *w == window,
                _ => false,
            };
            if owned {
                proof {
                    if devices@.contains(*device_id) {
                        let i = choose|i: int| 0 <= i < it.index() && *it.seq()[i] == *device_id;
                        assert(it.seq()[i] == it.seq()[it.index()]);
                    }
                }
                devices.push(*device_id);
            }
            proof {
                assert forall|i: int|
                    0 <= i < seen + 1 && owned_by(owners, *keys[i], window) implies devices@.contains(
                    *keys[i],
                ) by {
                    if i < seen {
                        let j = choose|j: int| 0 <= j < before.len() && before[j] == *keys[i];
                        assert(devices@[j] == *keys[i]);
                    } else {
                        assert(devices@[devices@.len() - 1] == *keys[i]);
                    }
                }
                assert forall|d: u16| devices@.contains(d) implies owned_by(owners, d, window)
                    && exists|i: int| 0 <= i < seen + 1 && *keys[i] == d by {
                    let j = choose|j: int| 0 <= j < devices@.len() && devices@[j] == d;
                    if j < before.len() {
                        assert(before.contains(d));
                    } else {
                        assert(*keys[seen] == d);
                    }
                }
                seen = seen + 1;
            }
        }
        proof {
            assert forall|d: u16| owned_by(owners, d, window) implies devices@.contains(d) by {
                assert(keys.unref().to_set().contains(d));
                assert(keys.unref().contains(d));
                let i = choose|i: int| 0 <= i < keys.len() && keys.unref()[i] == d;
                assert(*keys[i] == d);
            }
        }
        let mut k: usize = 0;
        while k < devices.len()
            invariant
                k <= devices@.len(),
                forall|d: u16| #[trigger]
                    self.owners@.contains_key(d) <==> (owners.contains_key(d)
                        && !devices@.take(k as int).contains(d)),
                forall|d: u16| #[trigger]
                    self.owners@.contains_key(d) ==> self.owners@[d] == owners[d],
            decreases devices@.len() - k,
        {
            let ghost prefix = devices@.take(k as int);
            proof {
                assert(devices@.take(k + 1) =~= prefix.push(devices@[k as int]));
            }
            self.owners.remove(&devices[k]);
            proof {
                assert forall|d: u16| devices@.take(k + 1).contains(d) <==> (prefix.contains(d) || d
                    == devices@[k as int]) by {
                    if prefix.contains(d) {
                        let j = choose|j: int| 0 <= j < prefix.len() && prefix[j] == d;
                        assert(devices@.take(k + 1)[j] == d);
                    }
                    if d == devices@[k as int] {
                        assert(devices@.take(k + 1)[k as int] == d);
                    }
                }
            }
            k += 1;
        }
        proof {
            assert(devices@.take(k as int) =~= devices@);
            assert(self.owners@ =~= without_window(owners, window));
        }
        devices
    }
}

/// Whether any button was down before and after one button event.
#[derive(Debug, Clone, Copy, PartialEq, Eq)]
pub struct ButtonStateTransition {
    pub any_before: bool,
    pub any_after: bool,
}

/// Whether button `button` is down in an XI2 button mask.
pub open spec fn button_down(mask: Seq<u8>, button: int) -> bool {
    mask[button / 8] & (1u8 << ((button % 8) as u8)) != 0
}

/// Whether button `button` is down once the event for button `detail` has been applied.
pub open spec fn button_down_after(mask: Seq<u8>, detail: int, pressed: bool, button: int) -> bool {
    if button == detail {
        pressed
    } else {
        button_down(mask, button)
    }
}

/// Whether an event for button `detail` can be applied to a mask of `mask_len` bytes: the
/// button exists in the mask and the mask's button count fits in `usize`.
pub open spec fn button_event_applies(mask_len: int, detail: int) -> bool {
    &&& 0 < detail
    &&& mask_len * 8 <= usize::MAX
    &&& detail < mask_len * 8
}

/// Computes whether any button was down before and after a button event, from the button mask
/// that was current before it; `None` when the event's button is not in the mask.
pub fn button_state_transition(mask: &[u8], detail: i32, pressed: bool) -> (transition: Option<
    ButtonStateTransition,
>)
    ensures
        transition is Some <==> button_event_applies(mask@.len() as int, detail as int),
        transition matches Some(t) ==> {
            &&& t.any_before == exists|b: int|
                0 <= b < mask@.len() * 8 && #[trigger] button_down(mask@, b)
            &&& t.any_after == exists|b: int|
                0 <= b < mask@.len() * 8 && #[trigger] button_down_after(
                    mask@,
                    detail as int,
                    pressed,
                    b,
                )
        },
{
    if detail <= 0 {
        return Option::None;
    }
    let detail = detail as usize;
    let button_count = match mask.len().checked_mul(8) {
        Some(count) => count,
        Option::None => return Option::None,
    };
    if detail >= button_count {
        return Option::None;
    }
    let mut any_before = false;
    let mut any_after = false;

    let mut button: usize = 0;
    while button < button_count
        invariant
            button <= button_count,
            button_count == mask@.len() * 8,
            0 < detail < button_count,
            any_before == exists|b: int| 0 <= b < button && #[trigger] button_down(mask@, b),
            any_after == exists|b: int|
                0 <= b < button && #[trigger] button_down_after(mask@, detail as int, pressed, b),
        decreases button_count - button,
    {
        assert(button / 8 < mask@.len()) by (nonlinear_arith)
            requires
                button < button_count,
                button_count == mask@.len() * 8,
        ;
        let byte = mask[button / 8];
        let pressed_before = byte & (1u8 << ((button % 8) as u8)) != 0;
        let pressed_after = if button == detail {
            pressed
        } else {
            pressed_before
        };
        proof {
            assert(pressed_before == button_down(mask@, button as int));
            assert(pressed_after == button_down_after(mask@, detail as int, pressed, button as int));
        }
        any_before = any_before || pressed_before;
        any_after = any_after || pressed_after;
        button += 1;
    }

    Some(ButtonStateTransition { any_before, any_after })
}

/// The windows that a hierarchy probe walked through: it starts at a real window, every window
/// but the last was not a Winit window and named the next one as the child under the pointer,
/// and no window but possibly the last was visited twice.
pub open spec fn probed_path<W: Fn(u32) -> bool, C: Fn(u32) -> Result<u32, ()>>(
    is_winit_window: W,
    child_at_pointer: C,
    path: Seq<u32>,
) -> bool {
    &&& path.len() >= 1
    &&& path[0] != 0
    &&& forall|i: int|
        0 <= i < path.len() - 1 ==> {
            &&& call_ensures(is_winit_window, (#[trigger] path[i],), false)
            &&& call_ensures(child_at_pointer, (path[i],), Ok(path[i + 1]))
            &&& path[i + 1] != 0
        }
    &&& forall|i: int, j: int| 0 <= i < j < path.len() - 1 ==> path[i] != path[j]
}

/// The route that a probe ends with at the last window of `path`.
pub open spec fn probed_route<W: Fn(u32) -> bool, C: Fn(u32) -> Result<u32, ()>>(
    is_winit_window: W,
    child_at_pointer: C,
    path: Seq<u32>,
    route: NativePointerRoute,
) -> bool {
    let last = path.last();
    if path.len() > MAX_POINTER_HIERARCHY_DEPTH {
        route == NativePointerRoute::Unknown
    } else if path.take(path.len() - 1).contains(last) {
        route == NativePointerRoute::Unknown
    } else {
        ||| call_ensures(is_winit_window, (last,), true) && route == NativePointerRoute::Window(
            last,
        )
        ||| call_ensures(is_winit_window, (last,), false) && call_ensures(
            child_at_pointer,
            (last,),
            Ok(0u32),
        ) && route == NativePointerRoute::Foreign
        ||| call_ensures(is_winit_window, (last,), false) && call_ensures(
            child_at_pointer,
            (last,),
            Err(()),
        ) && route == NativePointerRoute::Unknown
    }
}

/// Walks the window tree under the pointer from `first_child` (the root's child under the
/// pointer, 0 for none), asking the caller whether each window is a Winit window and which child
/// of it is under the pointer, for at most `MAX_POINTER_HIERARCHY_DEPTH` windows.
pub fn classify_pointer_hierarchy(
    first_child: u32,
    is_winit_window: impl Fn(u32) -> bool,
    child_at_pointer: impl Fn(u32) -> Result<u32, ()>,
) -> (route: NativePointerRoute)
    requires
        forall|window: u32| call_requires(is_winit_window, (window,)),
        forall|window: u32| call_requires(child_at_pointer, (window,)),
    ensures
        first_child == 0 ==> route == NativePointerRoute::Nowhere,
        first_child != 0 ==> route != NativePointerRoute::Nowhere,
        first_child != 0 ==> exists|path: Seq<u32>|
            {
                &&& #[trigger] probed_path(is_winit_window, child_at_pointer, path)
                &&& path[0] == first_child
                &&& path.len() <= MAX_POINTER_HIERARCHY_DEPTH + 1
                &&& probed_route(is_winit_window, child_at_pointer, path, route)
            },
{
    if first_child == 0 {
        return NativePointerRoute::Nowhere;
    }

    let mut visited: HashSet<u32> = HashSet::new();
    let mut window = first_child;
    let ghost mut path: Seq<u32> = seq![first_child];
    let mut step: usize = 0;
    while step < MAX_POINTER_HIERARCHY_DEPTH
        invariant
            forall|w: u32| call_requires(is_winit_window, (w,)),
            forall|w: u32| call_requires(child_at_pointer, (w,)),
            first_child != 0,
            step <= MAX_POINTER_HIERARCHY_DEPTH,
            path.len() == step + 1,
            path[0] == first_child,
            path.last() == window,
            probed_path(is_winit_window, child_at_pointer, path),
            forall|w: u32| visited@.contains(w) <==> path.take(step as int).contains(w),
        decreases MAX_POINTER_HIERARCHY_DEPTH - step,
    {
        if !visited.insert(window) {
            return NativePointerRoute::Unknown;
        }
        let is_winit = is_winit_window(window);
        if is_winit {
            return NativePointerRoute::Window(window);
        }

        let child_result = child_at_pointer(window);
        match child_result {
            Ok(child) => {
                if child == 0 {
                    return NativePointerRoute::Foreign;
                }
                proof {
                    let old_path = path;
                    path = path.push(child);
                    assert(path.take(step + 1) =~= old_path);
                    assert forall|w: u32| visited@.contains(w) <==> path.take(step + 1).contains(
                        w,
                    ) by {
                        if w == window {
                            assert(old_path[step as int] == w);
                        }
                        if old_path.take(step as int).contains(w) {
                            let j = choose|j: int|
                                0 <= j < step && old_path.take(step as int)[j] == w;
                            assert(old_path[j] == w);
                        }
                        if old_path.contains(w) {
                            let j = choose|j: int| 0 <= j <= step && old_path[j] == w;
                            if j < step {
                                assert(old_path.take(step as int)[j] == w);
                            }
                        }
                    }
                    assert forall|i: int, j: int| 0 <= i < j < path.len() - 1 implies path[i]
                        != path[j] by {
                        if j == step {
                            assert(old_path.take(step as int)[i] == path[i]);
                        }
                    }
                }
                window = child;
            },
            Err(()) => {
                proof {
                    assert(path.take(step as int) == path.take(path.len() - 1));
                    assert(!path.take(path.len() - 1).contains(window));
                    assert(probed_path(is_winit_window, child_at_pointer, path));
                    assert(call_ensures(child_at_pointer, (window,), child_result));
                    assert(child_result is Err);
                    assert(child_result->Err_0 == ());
                    assert(probed_route(
                        is_winit_window,
                        child_at_pointer,
                        path,
                        NativePointerRoute::Unknown,
                    ));
                }
                return NativePointerRoute::Unknown;
            },
        }
        step += 1;
    }

    NativePointerRoute::Unknown
}

/// A first press of a device, delivered to a Winit window while no button was down, makes that
/// window the owner of the device's implicit grab; from then on every button event of the device
/// that leaves a button down and is not such a first press, and every queried button state that
/// is not "all buttons up", is routed to that window and keeps it as the owner; the event that
/// releases the last button ends the grab.
pub proof fn capture_stays_with_first_delivery_until_last_release(
    owners: Map<u16, ImplicitCaptureOwner>,
    device: u16,
    window: u32,
    delivery_window: u32,
    delivery_is_winit: bool,
    pressed: bool,
    transition: ButtonStateTransition,
    any_pressed: Option<bool>,
)
    ensures
        ({
            let first = entry_after_button_event(
                owners,
                device,
                window,
                true,
                true,
                Some(ButtonStateTransition { any_before: false, any_after: true }),
            );
            &&& route_of_entry(first) == NativePointerRoute::Window(window)
            &&& owned_by(with_entry(owners, device, first), device, window)
        }),
        owned_by(owners, device, window) && transition.any_after && !(pressed
            && !transition.any_before) ==> {
            let entry = entry_after_button_event(
                owners,
                device,
                delivery_window,
                delivery_is_winit,
                pressed,
                Some(transition),
            );
            &&& route_of_entry(entry) == NativePointerRoute::Window(window)
            &&& with_entry(owners, device, entry) == owners
        },
        owned_by(owners, device, window) && any_pressed != Some(false) ==> {
            let entry = entry_for_button_state(owners, device, any_pressed);
            &&& route_of_entry(entry) == NativePointerRoute::Window(window)
            &&& with_entry(owners, device, entry) == owners
        },
        !transition.any_after ==> {
            let entry = entry_after_button_event(
                owners,
                device,
                delivery_window,
                delivery_is_winit,
                pressed,
                Some(transition),
            );
            &&& route_of_entry(entry) == NativePointerRoute::Nowhere
            &&& !with_entry(owners, device, entry).contains_key(device)
        },
{
    if owned_by(owners, device, window) {
        assert(owners.insert(device, owners[device]) =~= owners);
    }
}

/// A device whose press was never observed, or whose state could not be read, is routed to an
/// unknown window, never to a guessed one, until its buttons are known to be up.
pub proof fn capture_without_observed_press_fails_closed(
    owners: Map<u16, ImplicitCaptureOwner>,
    device: u16,
    any_pressed: Option<bool>,
    delivery_window: u32,
    delivery_is_winit: bool,
    pressed: bool,
)
    requires
        !owners.contains_key(device),
    ensures
        route_of_entry(entry_for_button_state(owners, device, any_pressed)) == (if any_pressed
            == Some(false) {
            NativePointerRoute::Nowhere
        } else {
            NativePointerRoute::Unknown
        }),
        route_of_entry(
            entry_after_button_event(
                owners,
                device,
                delivery_window,
                delivery_is_winit,
                pressed,
                Option::None,
            ),
        ) == NativePointerRoute::Unknown,
{
}

/// Resetting a window's captures releases exactly the devices that it owned, leaves every other
/// device's entry as it was, and a second reset of the same window finds nothing to release.
pub proof fn resetting_window_capture_is_scoped_and_idempotent(
    owners: Map<u16, ImplicitCaptureOwner>,
    window: u32,
    device: u16,
)
    ensures
        !owned_by(without_window(owners, window), device, window),
        !owned_by(owners, device, window) ==> (without_window(owners, window).contains_key(device)
            <==> owners.contains_key(device)),
        !owned_by(owners, device, window) && owners.contains_key(device) ==> without_window(
            owners,
            window,
        )[device] == owners[device],
        without_window(without_window(owners, window), window) == without_window(owners, window),
{
    let once = without_window(owners, window);
    assert(without_window(once, window) =~= once);
}

/// The "after" state of a button transition is the state once the event is applied: a press
/// leaves a button down, and a release leaves one down exactly when another button is down.
pub proof fn button_transition_uses_post_event_state(
    mask: Seq<u8>,
    detail: int,
    pressed: bool,
)
    requires
        button_event_applies(mask.len() as int, detail),
    ensures
        (exists|b: int|
            0 <= b < mask.len() * 8 && #[trigger] button_down_after(mask, detail, pressed, b))
            <==> (pressed || exists|b: int|
            0 <= b < mask.len() * 8 && b != detail && #[trigger] button_down(mask, b)),
{
    if pressed {
        assert(button_down_after(mask, detail, pressed, detail));
    }
    if exists|b: int| 0 <= b < mask.len() * 8 && b != detail && #[trigger] button_down(mask, b) {
        let b = choose|b: int| 0 <= b < mask.len() * 8 && b != detail && #[trigger] button_down(
            mask,
            b,
        );
        assert(button_down_after(mask, detail, pressed, b));
    }
}

/// A queried state saying that all buttons are up ends any grab of the device, whoever held it:
/// the device is routed nowhere and has no entry afterwards.
pub proof fn all_buttons_up_ends_every_grab(owners: Map<u16, ImplicitCaptureOwner>, device: u16)
    ensures
        route_of_entry(entry_for_button_state(owners, device, Some(false)))
            == NativePointerRoute::Nowhere,
        !with_entry(owners, device, entry_for_button_state(owners, device, Some(false))).contains_key(
            device,
        ),
        forall|other: u16|
            other != device ==> with_entry(
                owners,
                device,
                entry_for_button_state(owners, device, Some(false)),
            ).contains_key(other) == owners.contains_key(other),
{
}

/// A button event that leaves a button down and is not a first press never changes the device's
/// owner, whatever window it was delivered to: a known owner is kept and routed to, and a device
/// with no entry is recorded and routed as `Unknown`.
pub proof fn later_button_events_never_guess_an_owner(
    owners: Map<u16, ImplicitCaptureOwner>,
    device: u16,
    delivery_window: u32,
    delivery_is_winit: bool,
    pressed: bool,
    transition: ButtonStateTransition,
)
    requires
        transition.any_after,
        !(pressed && !transition.any_before),
    ensures
        ({
            let entry = entry_after_button_event(
                owners,
                device,
                delivery_window,
                delivery_is_winit,
                pressed,
                Some(transition),
            );
            &&& owners.contains_key(device) ==> entry == Some(owners[device]) && route_of_entry(
                entry,
            ) == owners[device].as_route()
            &&& !owners.contains_key(device) ==> entry == Some(ImplicitCaptureOwner::Unknown)
                && route_of_entry(entry) == NativePointerRoute::Unknown
        }),
{
}

/// A hierarchy probe never reports that no window is under the pointer; and when the last window
/// it reaches, within the bound and not visited before, is certainly not a Winit window and
/// certainly has no child under the pointer, the route is `Foreign`, at any depth.
pub proof fn probe_reaching_a_leaf_foreign_window_is_foreign<
    W: Fn(u32) -> bool,
    C: Fn(u32) -> Result<u32, ()>,
>(is_winit_window: W, child_at_pointer: C, path: Seq<u32>, route: NativePointerRoute)
    requires
        probed_path(is_winit_window, child_at_pointer, path),
        probed_route(is_winit_window, child_at_pointer, path, route),
    ensures
        route != NativePointerRoute::Nowhere,
        ({
            let last = path.last();
            path.len() <= MAX_POINTER_HIERARCHY_DEPTH && !path.take(path.len() - 1).contains(last)
                && !call_ensures(is_winit_window, (last,), true) && (forall|r: Result<u32, ()>|
                call_ensures(child_at_pointer, (last,), r) ==> r == Ok::<u32, ()>(0u32))
                ==> route == NativePointerRoute::Foreign
        }),
{
    let last = path.last();
    if path.len() <= MAX_POINTER_HIERARCHY_DEPTH && !path.take(path.len() - 1).contains(last)
        && !call_ensures(is_winit_window, (last,), true) && (forall|r: Result<u32, ()>|
        call_ensures(child_at_pointer, (last,), r) ==> r == Ok::<u32, ()>(0u32)) {
        if call_ensures(child_at_pointer, (last,), Err(())) {
            assert(Err::<u32, ()>(()) == Ok::<u32, ()>(0u32));
        }
    }
}

} // verus!
