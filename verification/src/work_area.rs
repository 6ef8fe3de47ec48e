//! Validation of exact X11 monitor work-area snapshots.
//!
//! The caller collects the EWMH properties and the RandR roster; the rules here decide whether
//! they prove a per-monitor work area, and fail closed otherwise.

use crate::text::is_visible_name;
use crate::text::visible_name;
use std::collections::HashSet;
use vstd::prelude::*;

verus! {

broadcast use vstd::std_specs::hash::group_hash_axioms;

/// The most desktops that an exact EWMH snapshot may advertise.
pub const MAX_DESKTOPS: usize = 256;

/// `1.0` in the 16.16 fixed-point format of RandR transforms.
pub const FIXED_POINT_ONE: i32 = 0x10000;

/// The root window and its size.
#[derive(Clone, Copy, Debug, PartialEq, Eq, Structural)]
pub struct RootGeometry {
    pub window: u32,
    pub width: u32,
    pub height: u32,
}

/// The atoms of the EWMH properties that a work-area authority must advertise.
#[derive(Clone, Copy, Debug, PartialEq, Eq)]
pub struct EwmhAtoms {
    pub supporting_wm_check: u32,
    pub wm_name: u32,
    pub current_desktop: u32,
    pub number_of_desktops: u32,
    pub desktop_geometry: u32,
    pub desktop_viewport: u32,
    pub workarea: u32,
}

impl EwmhAtoms {
    pub open spec fn required_atoms(self) -> Seq<u32> {
        seq![
            self.supporting_wm_check,
            self.wm_name,
            self.current_desktop,
            self.number_of_desktops,
            self.desktop_geometry,
            self.desktop_viewport,
            self.workarea,
        ]
    }

    pub fn required(self) -> (atoms: [u32; 7])
        ensures
            atoms@ == self.required_atoms(),
    {
        let atoms = [
            self.supporting_wm_check,
            self.wm_name,
            self.current_desktop,
            self.number_of_desktops,
            self.desktop_geometry,
            self.desktop_viewport,
            self.workarea,
        ];
        assert(atoms@ =~= self.required_atoms());
        atoms
    }
}

/// The EWMH properties of the root window and of the supporting window manager's window, as read.
#[derive(Clone, Debug, PartialEq, Eq)]
pub struct EwmhSnapshot {
    pub supported: Vec<u32>,
    pub queried_supporting_wm: u32,
    pub root_supporting_wm: u32,
    pub wm_supporting_wm: u32,
    pub wm_tree_root: u32,
    pub wm_parent: u32,
    pub wm_name: Vec<u8>,
    pub current_desktop: Vec<u32>,
    pub number_of_desktops: Vec<u32>,
    pub desktop_geometry: Vec<u32>,
    pub desktop_viewport: Vec<u32>,
    pub workarea: Vec<u32>,
}

/// A rectangle in physical pixels of the root window.
#[derive(Clone, Copy, Debug, PartialEq, Eq, Structural)]
pub struct PhysicalRect {
    pub x: i32,
    pub y: i32,
    pub width: u32,
    pub height: u32,
}

/// One active RandR CRTC as read. `scale_factor_bits` holds the IEEE-754 binary64 bits of the
/// monitor's scale factor.
#[derive(Clone, Debug, PartialEq)]
pub struct RandrMonitor {
    pub crtc_id: u32,
    pub rect: PhysicalRect,
    pub outputs: Vec<u32>,
    pub current_transform: [i32; 9],
    pub scale_factor_bits: u64,
}

/// The work area proved for one monitor. `scale_factor_bits` holds the IEEE-754 binary64 bits of
/// the monitor's scale factor.
#[derive(Clone, Copy, Debug, PartialEq)]
pub struct MonitorWorkArea {
    pub crtc_id: u32,
    pub monitor: PhysicalRect,
    pub work_area: PhysicalRect,
    pub scale_factor_bits: u64,
}

pub open spec fn max_int(a: int, b: int) -> int {
    if a >= b {
        a
    } else {
        b
    }
}

pub open spec fn min_int(a: int, b: int) -> int {
    if a <= b {
        a
    } else {
        b
    }
}

/// The common part of two rectangles, if it has an area.
pub open spec fn rect_overlap(left: PhysicalRect, right: PhysicalRect) -> Option<PhysicalRect> {
    let x1 = max_int(left.x as int, right.x as int);
    let y1 = max_int(left.y as int, right.y as int);
    let x2 = min_int(left.x + left.width, right.x + right.width);
    let y2 = min_int(left.y + left.height, right.y + right.height);
    if x1 < x2 && y1 < y2 {
        Some(
            PhysicalRect {
                x: x1 as i32,
                y: y1 as i32,
                width: (x2 - x1) as u32,
                height: (y2 - y1) as u32,
            },
        )
    } else {
        Option::None
    }
}

/// Whether `rect` has an area and lies within the root window.
pub open spec fn is_inside_root(rect: PhysicalRect, root: RootGeometry) -> bool {
    &&& rect.width != 0
    &&& rect.height != 0
    &&& rect.x >= 0
    &&& rect.y >= 0
    &&& rect.x + rect.width <= root.width
    &&& rect.y + rect.height <= root.height
}

/// Whether `inner` lies within `outer`.
pub open spec fn is_within(inner: PhysicalRect, outer: PhysicalRect) -> bool {
    &&& outer.x <= inner.x
    &&& outer.y <= inner.y
    &&& inner.x + inner.width <= outer.x + outer.width
    &&& inner.y + inner.height <= outer.y + outer.height
}

pub fn rect_inside_root(rect: PhysicalRect, root: RootGeometry) -> (inside: bool)
    ensures
        inside == is_inside_root(rect, root),
{
    rect.width != 0 && rect.height != 0 && rect.x >= 0 && rect.y >= 0 && (rect.x as i64) + (
    rect.width as i64) <= root.width as i64 && (rect.y as i64) + (rect.height as i64)
        <= root.height as i64
}

pub fn intersects(left: PhysicalRect, right: PhysicalRect) -> (overlapping: bool)
    ensures
        overlapping == rect_overlap(left, right) is Some,
{
    intersection(left, right).is_some()
}

pub fn intersection(left: PhysicalRect, right: PhysicalRect) -> (overlap: Option<PhysicalRect>)
    ensures
        overlap == rect_overlap(left, right),
{
    let (lx, ly, rx, ry) = (left.x as i64, left.y as i64, right.x as i64, right.y as i64);
    let left_right = lx + left.width as i64;
    let left_bottom = ly + left.height as i64;
    let right_right = rx + right.width as i64;
    let right_bottom = ry + right.height as i64;
    let x1 = if lx >= rx {
        lx
    } else {
        rx
    };
    let y1 = if ly >= ry {
        ly
    } else {
        ry
    };
    let x2 = if left_right <= right_right {
        left_right
    } else {
        right_right
    };
    let y2 = if left_bottom <= right_bottom {
        left_bottom
    } else {
        right_bottom
    };
    let width = x2 - x1;
    let height = y2 - y1;
    if width < 0 || width > u32::MAX as i64 || height < 0 || height > u32::MAX as i64 {
        return Option::None;
    }
    let (width, height) = (width as u32, height as u32);
    if width == 0 || height == 0 {
        return Option::None;
    }
    Some(PhysicalRect { x: x1 as i32, y: y1 as i32, width, height })
}

/// Whether `bits` are the IEEE-754 binary64 bits of a finite number greater than zero.
pub open spec fn is_positive_finite(bits: u64) -> bool {
    0 < bits < 0x7ff0_0000_0000_0000u64
}

/// Decides, on its IEEE-754 binary64 bits, whether a scale factor is finite and greater than zero.
pub fn scale_factor_is_exact(bits: u64) -> (exact: bool)
    ensures
        exact == is_positive_finite(bits),
{
    0 < bits && bits < 0x7ff0_0000_0000_0000u64
}

/// The work area of the current desktop, as the snapshot advertises it.
pub open spec fn current_work_area(snapshot: EwmhSnapshot) -> PhysicalRect {
    let d = snapshot.current_desktop@[0] as int;
    PhysicalRect {
        x: snapshot.workarea@[4 * d] as i32,
        y: snapshot.workarea@[4 * d + 1] as i32,
        width: snapshot.workarea@[4 * d + 2],
        height: snapshot.workarea@[4 * d + 3],
    }
}

/// Whether the EWMH snapshot proves the current desktop's work area: every required atom is
/// advertised, the supporting window manager is verified both ways and is a named top-level
/// window, the desktop arrays have exactly the advertised number of entries, the current desktop
/// has no viewport offset, and its work area lies inside the root window.
pub open spec fn ewmh_is_exact(snapshot: EwmhSnapshot, atoms: EwmhAtoms, root: RootGeometry) -> bool {
    let required = atoms.required_atoms();
    let count = snapshot.number_of_desktops@[0] as int;
    let d = snapshot.current_desktop@[0] as int;
    &&& root.width != 0
    &&& root.height != 0
    &&& forall|i: int|
        0 <= i < 7 ==> #[trigger] required[i] != 0 && snapshot.supported@.contains(required[i])
    &&& is_visible_name(snapshot.wm_name@)
    &&& snapshot.queried_supporting_wm != 0
    &&& snapshot.root_supporting_wm == snapshot.queried_supporting_wm
    &&& snapshot.root_supporting_wm == snapshot.wm_supporting_wm
    &&& snapshot.wm_tree_root == root.window
    &&& snapshot.wm_parent == root.window
    &&& snapshot.current_desktop@.len() == 1
    &&& snapshot.number_of_desktops@.len() == 1
    &&& 0 < count <= MAX_DESKTOPS
    &&& d < count
    &&& snapshot.desktop_geometry@ == seq![root.width, root.height]
    &&& snapshot.desktop_viewport@.len() == 2 * count
    &&& snapshot.workarea@.len() == 4 * count
    &&& snapshot.desktop_viewport@[2 * d] == 0
    &&& snapshot.desktop_viewport@[2 * d + 1] == 0
    &&& snapshot.workarea@[4 * d] <= i32::MAX
    &&& snapshot.workarea@[4 * d + 1] <= i32::MAX
    &&& is_inside_root(current_work_area(snapshot), root)
}

/// Returns the current desktop's work area when the EWMH snapshot proves it exactly.
pub fn validate_ewmh(snapshot: &EwmhSnapshot, atoms: EwmhAtoms, root: RootGeometry) -> (work_area:
    Option<PhysicalRect>)
    ensures
        work_area == (if ewmh_is_exact(*snapshot, atoms, root) {
            Some(current_work_area(*snapshot))
        } else {
            Option::None
        }),
        work_area matches Some(rect) ==> {
            let d = snapshot.current_desktop@[0] as int;
            &&& rect.x as int == snapshot.workarea@[4 * d] as int
            &&& rect.y as int == snapshot.workarea@[4 * d + 1] as int
            &&& rect.width == snapshot.workarea@[4 * d + 2]
            &&& rect.height == snapshot.workarea@[4 * d + 3]
        },
{
    if root.width == 0 || root.height == 0 {
        return Option::None;
    }

    let mut supported: HashSet<u32> = HashSet::new();
    let mut k: usize = 0;
    while k < snapshot.supported.len()
        invariant
            k <= snapshot.supported@.len(),
            forall|a: u32| supported@.contains(a) <==> snapshot.supported@.take(k as int).contains(a),
        decreases snapshot.supported@.len() - k,
    {
        let atom = snapshot.supported[k];
        proof {
            let before = snapshot.supported@.take(k as int);
            assert(snapshot.supported@.take(k + 1) =~= before.push(atom));
            assert forall|a: u32|
                snapshot.supported@.take(k + 1).contains(a) <==> (before.contains(a) || a
                    == atom) by {
                if before.contains(a) {
                    let j = choose|j: int| 0 <= j < before.len() && before[j] == a;
                    assert(snapshot.supported@.take(k + 1)[j] == a);
                }
                if a == atom {
                    assert(snapshot.supported@.take(k + 1)[k as int] == a);
                }
            }
        }
        supported.insert(atom);
        k += 1;
    }
    proof {
        assert(snapshot.supported@.take(k as int) =~= snapshot.supported@);
    }

    let required = atoms.required();
    let mut r: usize = 0;
    while r < 7
        invariant
            r <= 7,
            required@ == atoms.required_atoms(),
            forall|a: u32| supported@.contains(a) <==> snapshot.supported@.contains(a),
            forall|i: int|
                0 <= i < r ==> #[trigger] required@[i] != 0 && snapshot.supported@.contains(
                    required@[i],
                ),
        decreases 7 - r,
    {
        let atom = required[r];
        if atom == 0 || !supported.contains(&atom) {
            return Option::None;
        }
        r += 1;
    }

    if !visible_name(snapshot.wm_name.as_slice()) {
        return Option::None;
    }
    if snapshot.queried_supporting_wm == 0 || snapshot.root_supporting_wm
        != snapshot.queried_supporting_wm || snapshot.root_supporting_wm
        != snapshot.wm_supporting_wm || snapshot.wm_tree_root != root.window || snapshot.wm_parent
        != root.window {
        return Option::None;
    }

    if snapshot.current_desktop.len() != 1 || snapshot.number_of_desktops.len() != 1 {
        return Option::None;
    }
    let desktop = snapshot.current_desktop[0] as usize;
    let desktop_count = snapshot.number_of_desktops[0] as usize;
    if desktop_count == 0 || desktop_count > MAX_DESKTOPS || desktop >= desktop_count {
        return Option::None;
    }

    if snapshot.desktop_geometry.len() != 2 || snapshot.desktop_geometry[0] != root.width
        || snapshot.desktop_geometry[1] != root.height || snapshot.desktop_viewport.len()
        != desktop_count * 2 || snapshot.workarea.len() != desktop_count * 4 {
        proof {
            if snapshot.desktop_geometry@ == seq![root.width, root.height] {
                assert(snapshot.desktop_geometry@[0] == root.width);
                assert(snapshot.desktop_geometry@[1] == root.height);
            }
        }
        return Option::None;
    }
    proof {
        assert(snapshot.desktop_geometry@ =~= seq![root.width, root.height]);
    }

    if snapshot.desktop_viewport[desktop * 2] != 0 || snapshot.desktop_viewport[desktop * 2 + 1]
        != 0 {
        return Option::None;
    }

    let x = snapshot.workarea[desktop * 4];
    let y = snapshot.workarea[desktop * 4 + 1];
    if x > i32::MAX as u32 || y > i32::MAX as u32 {
        return Option::None;
    }
    let rect = PhysicalRect {
        x: x as i32,
        y: y as i32,
        width: snapshot.workarea[desktop * 4 + 2],
        height: snapshot.workarea[desktop * 4 + 3],
    };
    if rect_inside_root(rect, root) {
        Some(rect)
    } else {
        Option::None
    }
}

/// Merges the event mask that a caller requires into a window's existing event mask.
pub fn merge_event_masks(existing: u32, required: u32) -> (merged: u32)
    ensures
        merged == existing | required,
{
    existing | required
}

/// Whether a property reply's length, in 4-byte units, is exactly what `value_len` items of the
/// reply's format take, padded to whole units.
pub open spec fn property_length_is_exact(format: u8, value_len: u32, length: u32) -> bool {
    if format == 0 {
        value_len == 0 && length == 0
    } else if format == 8 || format == 16 || format == 32 {
        let padded = value_len * (format / 8) + 3;
        padded <= u32::MAX && padded / 4 == length
    } else {
        false
    }
}

pub fn property_reply_length_is_exact(format: u8, value_len: u32, length: u32) -> (exact: bool)
    ensures
        exact == property_length_is_exact(format, value_len, length),
{
    let bytes_per_item: u32 = match format {
        0 => return value_len == 0 && length == 0,
        8 => 1,
        16 => 2,
        32 => 4,
        _ => return false,
    };
    match value_len.checked_mul(bytes_per_item) {
        Some(bytes) => match bytes.checked_add(3) {
            Some(padded_bytes) => padded_bytes / 4 == length,
            Option::None => false,
        },
        Option::None => false,
    }
}

/// Whether a RandR transform is the identity matrix.
pub open spec fn is_identity_transform(transform: Seq<i32>) -> bool {
    transform == seq![
        FIXED_POINT_ONE,
        0i32,
        0i32,
        0i32,
        FIXED_POINT_ONE,
        0i32,
        0i32,
        0i32,
        FIXED_POINT_ONE,
    ]
}

pub fn crtc_transform_is_identity(transform: [i32; 9]) -> (identity: bool)
    ensures
        identity == is_identity_transform(transform@),
{
    let identity = transform[0] == FIXED_POINT_ONE && transform[1] == 0 && transform[2] == 0
        && transform[3] == 0 && transform[4] == FIXED_POINT_ONE && transform[5] == 0
        && transform[6] == 0 && transform[7] == 0 && transform[8] == FIXED_POINT_ONE;
    proof {
        if identity {
            assert(transform@ =~= seq![
                FIXED_POINT_ONE,
                0i32,
                0i32,
                0i32,
                FIXED_POINT_ONE,
                0i32,
                0i32,
                0i32,
                FIXED_POINT_ONE,
            ]);
        }
    }
    identity
}

/// Whether the global EWMH work area is exact for the RandR roster: exactly one monitor that
/// covers the whole root window.
pub open spec fn global_work_area_is_exact(monitors: Seq<RandrMonitor>, root: RootGeometry) -> bool {
    &&& monitors.len() == 1
    &&& monitors[0].rect == PhysicalRect { x: 0, y: 0, width: root.width, height: root.height }
}

pub fn global_work_area_is_exact_for_monitors(monitors: &[RandrMonitor], root: RootGeometry) -> (exact:
    bool)
    ensures
        exact == global_work_area_is_exact(monitors@, root),
{
    monitors.len() == 1 && monitors[0].rect == PhysicalRect {
        x: 0,
        y: 0,
        width: root.width,
        height: root.height,
    }
}

/// Whether one RandR monitor can carry a scalar work-area authority: it has a CRTC id, exactly one
/// output, an identity transform, a finite positive scale and a rectangle inside the root window.
pub open spec fn monitor_is_exact(monitor: RandrMonitor, root: RootGeometry) -> bool {
    &&& monitor.crtc_id != 0
    &&& monitor.outputs@.len() == 1
    &&& monitor.outputs@[0] != 0
    &&& is_identity_transform(monitor.current_transform@)
    &&& is_positive_finite(monitor.scale_factor_bits)
    &&& is_inside_root(monitor.rect, root)
}

/// Whether two monitors of a roster are distinct: other CRTC, other output, no common area.
pub open spec fn monitors_are_apart(a: RandrMonitor, b: RandrMonitor) -> bool {
    &&& a.crtc_id != b.crtc_id
    &&& a.outputs@[0] != b.outputs@[0]
    &&& rect_overlap(a.rect, b.rect) is None
}

/// Whether a RandR roster proves a per-monitor work area for every monitor.
pub open spec fn roster_is_exact(
    monitors: Seq<RandrMonitor>,
    root: RootGeometry,
    desktop_work_area: PhysicalRect,
) -> bool {
    &&& monitors.len() > 0
    &&& is_inside_root(desktop_work_area, root)
    &&& forall|i: int| 0 <= i < monitors.len() ==> monitor_is_exact(#[trigger] monitors[i], root)
    &&& forall|i: int, j: int|
        0 <= i < j < monitors.len() ==> monitors_are_apart(#[trigger] monitors[i], #[trigger] monitors[j])
    &&& forall|i: int|
        0 <= i < monitors.len() ==> (#[trigger] rect_overlap(monitors[i].rect, desktop_work_area)) is Some
}

/// The work-area record of one monitor: the part of the desktop work area that it shows.
pub open spec fn work_area_record(monitor: RandrMonitor, desktop_work_area: PhysicalRect) -> MonitorWorkArea {
    MonitorWorkArea {
        crtc_id: monitor.crtc_id,
        monitor: monitor.rect,
        work_area: rect_overlap(monitor.rect, desktop_work_area)->Some_0,
        scale_factor_bits: monitor.scale_factor_bits,
    }
}

/// Returns one work-area record per monitor, in roster order, when the roster proves them all.
pub fn validate_roster(
    monitors: &[RandrMonitor],
    root: RootGeometry,
    desktop_work_area: PhysicalRect,
) -> (records: Option<Vec<MonitorWorkArea>>)
    ensures
        records is Some <==> roster_is_exact(monitors@, root, desktop_work_area),
        records matches Some(records) ==> {
            &&& records@.len() == monitors@.len()
            &&& forall|i: int|
                0 <= i < monitors@.len() ==> #[trigger] records@[i] == work_area_record(
                    monitors@[i],
                    desktop_work_area,
                )
        },
{
    if monitors.len() == 0 || !rect_inside_root(desktop_work_area, root) {
        return Option::None;
    }

    let mut crtc_ids: HashSet<u32> = HashSet::with_capacity(monitors.len());
    let mut output_ids: HashSet<u32> = HashSet::with_capacity(monitors.len());
    let mut index: usize = 0;
    while index < monitors.len()
        invariant
            index <= monitors@.len(),
            monitors@.len() > 0,
            is_inside_root(desktop_work_area, root),
            forall|i: int| 0 <= i < index ==> monitor_is_exact(#[trigger] monitors@[i], root),
            forall|i: int, j: int|
                0 <= i < j < index ==> monitors_are_apart(#[trigger] monitors@[i], #[trigger] monitors@[j]),
            forall|c: u32|
                crtc_ids@.contains(c) <==> exists|i: int| 0 <= i < index && #[trigger] monitors@[i].crtc_id == c,
            forall|o: u32|
                output_ids@.contains(o) <==> exists|i: int|
                    0 <= i < index && #[trigger] monitors@[i].outputs@[0] == o,
        decreases monitors@.len() - index,
    {
        let monitor = &monitors[index];
        if monitor.crtc_id == 0 {
            return Option::None;
        }
        if crtc_ids.contains(&monitor.crtc_id) {
            proof {
                let i = choose|i: int| 0 <= i < index && #[trigger] monitors@[i].crtc_id == monitor.crtc_id;
                assert(!monitors_are_apart(monitors@[i], monitors@[index as int]));
            }
            return Option::None;
        }
        crtc_ids.insert(monitor.crtc_id);
        if monitor.outputs.len() != 1 || monitor.outputs[0] == 0 {
            return Option::None;
        }
        if output_ids.contains(&monitor.outputs[0]) {
            proof {
                let i = choose|i: int|
                    0 <= i < index && #[trigger] monitors@[i].outputs@[0] == monitor.outputs@[0];
                assert(!monitors_are_apart(monitors@[i], monitors@[index as int]));
            }
            return Option::None;
        }
        output_ids.insert(monitor.outputs[0]);
        if !crtc_transform_is_identity(monitor.current_transform) || !scale_factor_is_exact(
            monitor.scale_factor_bits,
        ) || !rect_inside_root(monitor.rect, root) {
            return Option::None;
        }
        let mut other: usize = 0;
        while other < index
            invariant
                other <= index < monitors@.len(),
                monitor.rect == monitors@[index as int].rect,
                forall|i: int| 0 <= i < other ==> rect_overlap(#[trigger] monitors@[i].rect, monitors@[index as int].rect) is None,
            decreases index - other,
        {
            if intersects(monitors[other].rect, monitor.rect) {
                proof {
                    assert(!monitors_are_apart(monitors@[other as int], monitors@[index as int]));
                }
                return Option::None;
            }
            other += 1;
        }
        proof {
            assert forall|c: u32|
                crtc_ids@.contains(c) <==> exists|i: int| 0 <= i < index + 1 && #[trigger] monitors@[i].crtc_id == c by {
                if c == monitor.crtc_id {
                    assert(monitors@[index as int].crtc_id == c);
                }
            }
            assert forall|o: u32|
                output_ids@.contains(o) <==> exists|i: int|
                    0 <= i < index + 1 && #[trigger] monitors@[i].outputs@[0] == o by {
                if o == monitor.outputs@[0] {
                    assert(monitors@[index as int].outputs@[0] == o);
                }
            }
            assert forall|i: int, j: int|
                0 <= i < j < index + 1 implies monitors_are_apart(#[trigger] monitors@[i], #[trigger] monitors@[j]) by {
                if j == index {
                    if monitors@[i].crtc_id == monitors@[j].crtc_id {
                        assert(exists|k: int| 0 <= k < index && #[trigger] monitors@[k].crtc_id == monitors@[j].crtc_id);
                    }
                    if monitors@[i].outputs@[0] == monitors@[j].outputs@[0] {
                        assert(exists|k: int| 0 <= k < index && #[trigger] monitors@[k].outputs@[0] == monitors@[j].outputs@[0]);
                    }
                }
            }
        }
        index += 1;
    }

    let mut records: Vec<MonitorWorkArea> = Vec::with_capacity(monitors.len());
    let mut index: usize = 0;
    while index < monitors.len()
        invariant
            index <= monitors@.len(),
            records@.len() == index,
            forall|i: int|
                0 <= i < index ==> #[trigger] records@[i] == work_area_record(monitors@[i], desktop_work_area),
            forall|i: int|
                0 <= i < index ==> (#[trigger] rect_overlap(monitors@[i].rect, desktop_work_area)) is Some,
        decreases monitors@.len() - index,
    {
        let monitor = &monitors[index];
        let work_area = match intersection(monitor.rect, desktop_work_area) {
            Some(work_area) => work_area,
            Option::None => return Option::None,
        };
        records.push(
            MonitorWorkArea {
                crtc_id: monitor.crtc_id,
                monitor: monitor.rect,
                work_area,
                scale_factor_bits: monitor.scale_factor_bits,
            },
        );
        index += 1;
    }
    Some(records)
}

/// The common part of two rectangles does not depend on their order, and lies within both.
pub proof fn overlap_is_the_common_part(left: PhysicalRect, right: PhysicalRect)
    ensures
        rect_overlap(left, right) == rect_overlap(right, left),
        rect_overlap(left, right) matches Some(common) ==> is_within(common, left) && is_within(
            common,
            right,
        ),
{
}

/// A proved roster clips each monitor: every record's work area lies within its monitor, within
/// the desktop work area and within the root window, and the monitors of different records share
/// no area, CRTC or output.
pub proof fn roster_clips_each_monitor(
    monitors: Seq<RandrMonitor>,
    root: RootGeometry,
    desktop_work_area: PhysicalRect,
    i: int,
    j: int,
)
    requires
        roster_is_exact(monitors, root, desktop_work_area),
        0 <= i < monitors.len(),
        0 <= j < monitors.len(),
    ensures
        is_within(work_area_record(monitors[i], desktop_work_area).work_area, monitors[i].rect),
        is_within(work_area_record(monitors[i], desktop_work_area).work_area, desktop_work_area),
        is_inside_root(work_area_record(monitors[i], desktop_work_area).work_area, root),
        i != j ==> monitors_are_apart(monitors[i], monitors[j]) || monitors_are_apart(
            monitors[j],
            monitors[i],
        ),
{
    assert(rect_overlap(monitors[i].rect, desktop_work_area) is Some);
    assert(monitor_is_exact(monitors[i], root));
    if i < j {
        assert(monitors_are_apart(monitors[i], monitors[j]));
    } else if j < i {
        assert(monitors_are_apart(monitors[j], monitors[i]));
    }
}

/// A monitor whose RandR transform is not the identity cannot publish a scalar work-area
/// authority: no roster that holds it is proved.
pub proof fn non_identity_transform_cannot_publish(
    monitors: Seq<RandrMonitor>,
    root: RootGeometry,
    desktop_work_area: PhysicalRect,
    i: int,
)
    requires
        0 <= i < monitors.len(),
        !is_identity_transform(monitors[i].current_transform@),
    ensures
        !roster_is_exact(monitors, root, desktop_work_area),
{
    assert(!monitor_is_exact(monitors[i], root));
}

/// A proved EWMH work area lies inside the root window.
pub proof fn ewmh_work_area_lies_inside_root(
    snapshot: EwmhSnapshot,
    atoms: EwmhAtoms,
    root: RootGeometry,
)
    requires
        ewmh_is_exact(snapshot, atoms, root),
    ensures
        is_inside_root(current_work_area(snapshot), root),
{
}

/// Merging event masks keeps every bit of the existing mask and adds every required bit.
pub proof fn event_mask_merge_preserves_every_existing_bit(existing: u32, required: u32)
    ensures
        (existing | required) & existing == existing,
        (existing | required) & required == required,
        existing | 0u32 == existing,
{
    assert((existing | required) & existing == existing) by (bit_vector);
    assert((existing | required) & required == required) by (bit_vector);
    assert(existing | 0u32 == existing) by (bit_vector);
}

/// The work area that an exact EWMH snapshot proves is the current desktop's entry of
/// `_NET_WORKAREA`: the four words at index four times `_NET_CURRENT_DESKTOP`, as x, y, width and
/// height.
pub proof fn ewmh_work_area_is_the_current_desktops_entry(
    snapshot: EwmhSnapshot,
    atoms: EwmhAtoms,
    root: RootGeometry,
)
    requires
        ewmh_is_exact(snapshot, atoms, root),
    ensures
        ({
            let d = snapshot.current_desktop@[0] as int;
            let rect = current_work_area(snapshot);
            &&& 0 <= d < snapshot.number_of_desktops@[0]
            &&& rect.x as int == snapshot.workarea@[4 * d] as int
            &&& rect.y as int == snapshot.workarea@[4 * d + 1] as int
            &&& rect.width == snapshot.workarea@[4 * d + 2]
            &&& rect.height == snapshot.workarea@[4 * d + 3]
        }),
{
}

/// Whether the pixel at (`px`, `py`) lies in `rect`.
pub open spec fn covers(rect: PhysicalRect, px: int, py: int) -> bool {
    rect.x <= px < rect.x + rect.width && rect.y <= py < rect.y + rect.height
}

/// The overlap of two rectangles covers exactly the pixels that both cover, and it exists
/// exactly when there is such a pixel.
pub proof fn overlap_covers_exactly_the_common_pixels(
    left: PhysicalRect,
    right: PhysicalRect,
    px: int,
    py: int,
)
    ensures
        covers(left, px, py) && covers(right, px, py) ==> (rect_overlap(left, right) matches Some(
            common,
        ) && covers(common, px, py)),
        rect_overlap(left, right) matches Some(common) ==> (covers(common, px, py) <==> covers(
            left,
            px,
            py,
        ) && covers(right, px, py)),
        rect_overlap(left, right) matches Some(common) ==> covers(common, common.x as int, common.y as int),
{
}

} // verus!
