//! The decision that closes an exact work-area capture.
//!
//! A capture reads the root geometry, the EWMH properties, the scale authority, the screen
//! resources and the RandR roster, then reads them again; it proves a work area only when
//! nothing moved in between and the first reading validates.

use crate::replies::ResourcesStamp;
use crate::work_area::current_work_area;
use crate::work_area::ewmh_is_exact;
use crate::work_area::global_work_area_is_exact;
use crate::work_area::global_work_area_is_exact_for_monitors;
use crate::work_area::roster_is_exact;
use crate::work_area::validate_ewmh;
use crate::work_area::validate_roster;
use crate::work_area::work_area_record;
use crate::work_area::EwmhAtoms;
use crate::work_area::EwmhSnapshot;
use crate::work_area::MonitorWorkArea;
use crate::work_area::RandrMonitor;
use crate::work_area::RootGeometry;
use vstd::prelude::*;

verus! {

/// Where scale factors come from: RandR's physical sizes, or one fixed factor (given by the bits
/// of its IEEE-754 binary64 value).
#[derive(Clone, Copy, Debug, PartialEq, Eq, Structural)]
pub enum ScaleAuthorityKind {
    Randr,
    Fixed(u64),
}

/// Everything that the scale authority was derived from.
#[derive(Clone, Debug, PartialEq, Eq)]
pub struct ScaleAuthorityStamp {
    pub authority: ScaleAuthorityKind,
    pub xsettings_owner: Option<u32>,
    pub xsettings_data: Option<Vec<u8>>,
    pub resource_manager_data: Option<Vec<u8>>,
    pub database_xft_dpi: Option<Vec<u8>>,
}

/// One reading of everything that a work-area authority rests on.
#[derive(Clone, Debug, PartialEq)]
pub struct WorkAreaCapture {
    pub root: RootGeometry,
    pub ewmh: EwmhSnapshot,
    pub scale: ScaleAuthorityStamp,
    pub resources: ResourcesStamp,
    pub monitors: Vec<RandrMonitor>,
}

pub open spec fn optional_bytes(value: Option<Vec<u8>>) -> Option<Seq<u8>> {
    match value {
        Some(bytes) => Some(bytes@),
        None => None,
    }
}

pub open spec fn same_scale(a: ScaleAuthorityStamp, b: ScaleAuthorityStamp) -> bool {
    &&& a.authority == b.authority
    &&& a.xsettings_owner == b.xsettings_owner
    &&& optional_bytes(a.xsettings_data) == optional_bytes(b.xsettings_data)
    &&& optional_bytes(a.resource_manager_data) == optional_bytes(b.resource_manager_data)
    &&& optional_bytes(a.database_xft_dpi) == optional_bytes(b.database_xft_dpi)
}

pub open spec fn same_ewmh(a: EwmhSnapshot, b: EwmhSnapshot) -> bool {
    &&& a.supported@ == b.supported@
    &&& a.queried_supporting_wm == b.queried_supporting_wm
    &&& a.root_supporting_wm == b.root_supporting_wm
    &&& a.wm_supporting_wm == b.wm_supporting_wm
    &&& a.wm_tree_root == b.wm_tree_root
    &&& a.wm_parent == b.wm_parent
    &&& a.wm_name@ == b.wm_name@
    &&& a.current_desktop@ == b.current_desktop@
    &&& a.number_of_desktops@ == b.number_of_desktops@
    &&& a.desktop_geometry@ == b.desktop_geometry@
    &&& a.desktop_viewport@ == b.desktop_viewport@
    &&& a.workarea@ == b.workarea@
}

pub open spec fn same_resources(a: ResourcesStamp, b: ResourcesStamp) -> bool {
    &&& a.timestamp == b.timestamp
    &&& a.config_timestamp == b.config_timestamp
    &&& a.crtcs@ == b.crtcs@
    &&& a.outputs@ == b.outputs@
    &&& a.modes@ == b.modes@
    &&& a.names@ == b.names@
}

pub open spec fn same_monitor(a: RandrMonitor, b: RandrMonitor) -> bool {
    &&& a.crtc_id == b.crtc_id
    &&& a.rect == b.rect
    &&& a.outputs@ == b.outputs@
    &&& a.current_transform@ == b.current_transform@
    &&& a.scale_factor_bits == b.scale_factor_bits
}

pub open spec fn same_monitors(a: Seq<RandrMonitor>, b: Seq<RandrMonitor>) -> bool {
    &&& a.len() == b.len()
    &&& forall|i: int| 0 <= i < a.len() ==> same_monitor(#[trigger] a[i], b[i])
}

/// Whether two readings agree on everything that the authority rests on.
pub open spec fn captures_agree(before: WorkAreaCapture, after: WorkAreaCapture) -> bool {
    &&& before.root == after.root
    &&& same_ewmh(before.ewmh, after.ewmh)
    &&& same_scale(before.scale, after.scale)
    &&& same_resources(before.resources, after.resources)
    &&& same_monitors(before.monitors@, after.monitors@)
}

fn same_words(a: &[u32], b: &[u32]) -> (same: bool)
    ensures
        same == (a@ == b@),
{
    if a.len() != b.len() {
        return false;
    }
    let mut i: usize = 0;
    while i < a.len()
        invariant
            i <= a@.len() == b@.len(),
            forall|j: int| 0 <= j < i ==> a@[j] == b@[j],
        decreases a@.len() - i,
    {
        if a[i] != b[i] {
            return false;
        }
        i += 1;
    }
    proof {
        assert(a@ =~= b@);
    }
    true
}

fn same_bytes(a: &[u8], b: &[u8]) -> (same: bool)
    ensures
        same == (a@ == b@),
{
    if a.len() != b.len() {
        return false;
    }
    let mut i: usize = 0;
    while i < a.len()
        invariant
            i <= a@.len() == b@.len(),
            forall|j: int| 0 <= j < i ==> a@[j] == b@[j],
        decreases a@.len() - i,
    {
        if a[i] != b[i] {
            return false;
        }
        i += 1;
    }
    proof {
        assert(a@ =~= b@);
    }
    true
}

fn same_optional_bytes(a: &Option<Vec<u8>>, b: &Option<Vec<u8>>) -> (same: bool)
    ensures
        same == (optional_bytes(*a) == optional_bytes(*b)),
{
    match (a, b) {
        (Some(a), Some(b)) => same_bytes(a.as_slice(), b.as_slice()),
        (None, None) => true,
        _ => false,
    }
}

fn same_transforms(a: &[i32; 9], b: &[i32; 9]) -> (same: bool)
    ensures
        same == (a@ == b@),
{
    let mut i: usize = 0;
    while i < 9
        invariant
            i <= 9,
            a@.len() == 9,
            b@.len() == 9,
            forall|j: int| 0 <= j < i ==> a@[j] == b@[j],
        decreases 9 - i,
    {
        if a[i] != b[i] {
            return false;
        }
        i += 1;
    }
    proof {
        assert(a@ =~= b@);
    }
    true
}

fn same_monitor_lists(a: &[RandrMonitor], b: &[RandrMonitor]) -> (same: bool)
    ensures
        same == same_monitors(a@, b@),
{
    if a.len() != b.len() {
        return false;
    }
    let mut i: usize = 0;
    while i < a.len()
        invariant
            i <= a@.len() == b@.len(),
            forall|j: int| 0 <= j < i ==> same_monitor(#[trigger] a@[j], b@[j]),
        decreases a@.len() - i,
    {
        let (x, y) = (&a[i], &b[i]);
        if x.crtc_id != y.crtc_id || x.rect != y.rect || !same_words(
            x.outputs.as_slice(),
            y.outputs.as_slice(),
        ) || !same_transforms(&x.current_transform, &y.current_transform) || x.scale_factor_bits
            != y.scale_factor_bits {
            return false;
        }
        i += 1;
    }
    true
}

/// Decides whether two readings agree on everything that the authority rests on.
pub fn captures_are_stable(before: &WorkAreaCapture, after: &WorkAreaCapture) -> (stable: bool)
    ensures
        stable == captures_agree(*before, *after),
{
    let (a, b) = (&before.ewmh, &after.ewmh);
    let ewmh_same = same_words(a.supported.as_slice(), b.supported.as_slice())
        && a.queried_supporting_wm == b.queried_supporting_wm && a.root_supporting_wm
        == b.root_supporting_wm && a.wm_supporting_wm == b.wm_supporting_wm && a.wm_tree_root
        == b.wm_tree_root && a.wm_parent == b.wm_parent && same_bytes(
        a.wm_name.as_slice(),
        b.wm_name.as_slice(),
    ) && same_words(a.current_desktop.as_slice(), b.current_desktop.as_slice()) && same_words(
        a.number_of_desktops.as_slice(),
        b.number_of_desktops.as_slice(),
    ) && same_words(a.desktop_geometry.as_slice(), b.desktop_geometry.as_slice()) && same_words(
        a.desktop_viewport.as_slice(),
        b.desktop_viewport.as_slice(),
    ) && same_words(a.workarea.as_slice(), b.workarea.as_slice());
    let (s, t) = (&before.scale, &after.scale);
    let scale_same = s.authority == t.authority && s.xsettings_owner == t.xsettings_owner
        && same_optional_bytes(&s.xsettings_data, &t.xsettings_data) && same_optional_bytes(
        &s.resource_manager_data,
        &t.resource_manager_data,
    ) && same_optional_bytes(&s.database_xft_dpi, &t.database_xft_dpi);
    let (r, q) = (&before.resources, &after.resources);
    let resources_same = r.timestamp == q.timestamp && r.config_timestamp == q.config_timestamp
        && same_words(r.crtcs.as_slice(), q.crtcs.as_slice()) && same_words(
        r.outputs.as_slice(),
        q.outputs.as_slice(),
    ) && same_words(r.modes.as_slice(), q.modes.as_slice()) && same_bytes(
        r.names.as_slice(),
        q.names.as_slice(),
    );
    before.root == after.root && ewmh_same && scale_same && resources_same && same_monitor_lists(
        before.monitors.as_slice(),
        after.monitors.as_slice(),
    )
}

/// Whether a capture proves a work area: both readings agree, the roster is one monitor that
/// covers the root window (so the global EWMH work area is that monitor's), and the first
/// reading's EWMH snapshot and roster validate.
pub open spec fn capture_is_exact(
    before: WorkAreaCapture,
    after: WorkAreaCapture,
    atoms: EwmhAtoms,
) -> bool {
    &&& global_work_area_is_exact(before.monitors@, before.root)
    &&& captures_agree(before, after)
    &&& ewmh_is_exact(before.ewmh, atoms, before.root)
    &&& roster_is_exact(before.monitors@, before.root, current_work_area(before.ewmh))
}

/// Closes a capture: returns the per-monitor work areas when it proves them.
pub fn exact_work_area(
    before: &WorkAreaCapture,
    after: &WorkAreaCapture,
    atoms: EwmhAtoms,
) -> (records: Option<Vec<MonitorWorkArea>>)
    ensures
        records is Some <==> capture_is_exact(*before, *after, atoms),
        records matches Some(records) ==> {
            &&& records@.len() == before.monitors@.len()
            &&& forall|i: int|
                0 <= i < records@.len() ==> #[trigger] records@[i] == work_area_record(
                    before.monitors@[i],
                    current_work_area(before.ewmh),
                )
        },
{
    if !global_work_area_is_exact_for_monitors(before.monitors.as_slice(), before.root) {
        return None;
    }
    if !captures_are_stable(before, after) {
        return None;
    }
    let desktop_work_area = match validate_ewmh(&before.ewmh, atoms, before.root) {
        Some(rect) => rect,
        None => return None,
    };
    validate_roster(before.monitors.as_slice(), before.root, desktop_work_area)
}

/// Checks the XSETTINGS selection owner read during a capture (`observed` is `None` when the
/// screen has no XSETTINGS selection, `Some(0)` when it has no owner) against the owner whose
/// events are selected; returns the owner whose settings are to be read.
pub fn xsettings_owner_is_expected(expected: Option<u32>, observed: Option<u32>) -> (owner: Option<
    Option<u32>,
>)
    ensures
        owner == match observed {
            Some(o) if o != 0 => if expected == Some(o) {
                Some(Some(o))
            } else {
                None
            },
            _ => if expected is None {
                Some(None)
            } else {
                None
            },
        },
{
    match observed {
        Some(owner) if owner != 0 => {
            if expected == Some(owner) {
                Some(Some(owner))
            } else {
                None
            }
        },
        _ => {
            if expected.is_none() {
                Some(None)
            } else {
                None
            }
        },
    }
}

/// The global EWMH work area is never published as per-monitor authority: a capture whose
/// roster is not a single monitor covering the whole root window proves nothing, and neither
/// does one whose two readings disagree.
pub proof fn global_work_area_is_not_published_per_monitor(
    before: WorkAreaCapture,
    after: WorkAreaCapture,
    atoms: EwmhAtoms,
)
    ensures
        capture_is_exact(before, after, atoms) ==> before.monitors@.len() == 1,
        capture_is_exact(before, after, atoms) ==> before.monitors@[0].rect.x == 0
            && before.monitors@[0].rect.y == 0 && before.monitors@[0].rect.width
            == before.root.width && before.monitors@[0].rect.height == before.root.height,
        !captures_agree(before, after) ==> !capture_is_exact(before, after, atoms),
{
}

} // verus!
