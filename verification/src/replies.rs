//! Validation of the X11 replies that a work-area capture reads.
//!
//! Each reply is handed over as plain values; the functions here accept it only when it is
//! complete, bounded and consistent, and fail closed otherwise.

use crate::text::is_visible_name;
use crate::text::visible_name;
use crate::work_area::is_identity_transform;
use crate::work_area::crtc_transform_is_identity;
use crate::work_area::property_length_is_exact;
use crate::work_area::property_reply_length_is_exact;
use crate::work_area::PhysicalRect;
use crate::work_area::RandrMonitor;
use crate::work_area::RootGeometry;
use std::collections::HashSet;
use vstd::prelude::*;

verus! {

broadcast use vstd::std_specs::hash::group_hash_axioms;

/// The atom `None` of the X protocol: the type of a property that does not exist.
pub const ATOM_NONE: u32 = 0;

/// The `Success` status of RandR replies.
pub const RANDR_SUCCESS: u8 = 0;

/// The `Connected` connection state of RandR outputs.
pub const RANDR_CONNECTED: u8 = 0;

pub const MAX_CRTCS: usize = 32;

pub const MAX_OUTPUTS: usize = 64;

pub const MAX_MODES: usize = 4096;

pub const MAX_MODE_NAMES_BYTES: usize = 0x10000;

pub const MAX_OUTPUT_NAME_BYTES: usize = 1024;

pub const MAX_TRANSFORM_FILTER_NAME_BYTES: usize = 256;

pub const MAX_TRANSFORM_PARAMS: usize = 64;

/// A `GetProperty` reply.
#[derive(Clone, Debug, PartialEq, Eq)]
pub struct PropertyReply {
    pub type_: u32,
    pub format: u8,
    pub value_len: u32,
    pub length: u32,
    pub bytes_after: u32,
    pub value: Vec<u8>,
}

/// The 32-bit little-endian value of the four bytes at `offset`.
pub open spec fn le_word(bytes: Seq<u8>, offset: int) -> u32 {
    (bytes[offset] as int + bytes[offset + 1] as int * 0x100 + bytes[offset + 2] as int * 0x10000
        + bytes[offset + 3] as int * 0x1000000) as u32
}

/// The 32-bit big-endian value of the four bytes at `offset`.
pub open spec fn be_word(bytes: Seq<u8>, offset: int) -> u32 {
    (bytes[offset + 3] as int + bytes[offset + 2] as int * 0x100 + bytes[offset + 1] as int
        * 0x10000 + bytes[offset] as int * 0x1000000) as u32
}

/// Whether `words` are the whole 4-byte words of `bytes`, all read in the machine's byte order:
/// all little-endian or all big-endian.
pub open spec fn are_native_words(words: Seq<u32>, bytes: Seq<u8>) -> bool {
    &&& words.len() == bytes.len() / 4
    &&& {
        ||| forall|i: int| 0 <= i < words.len() ==> #[trigger] words[i] == le_word(bytes, 4 * i)
        ||| forall|i: int| 0 <= i < words.len() ==> #[trigger] words[i] == be_word(bytes, 4 * i)
    }
}

/// Calls `x11rb::protocol::xproto::GetPropertyReply::value32` on a reply of the given format and
/// value, and collects what it yields. Its source returns `None` unless the format is 32, and
/// otherwise yields `u32::from_ne_bytes` of each whole 4-byte chunk of the value, in order; the
/// byte order is the machine's, so the contract states only that it is one of the two.
#[verifier::external_body]
fn property_value32(format: u8, value: &[u8]) -> (words: Option<Vec<u32>>)
    ensures
        words is Some <==> format == 32,
        words matches Some(words) ==> are_native_words(words@, value@),
{
    let reply = x11rb::protocol::xproto::GetPropertyReply {
        format,
        sequence: 0,
        length: 0,
        type_: 0,
        bytes_after: 0,
        value_len: 0,
        value: value.to_vec(),
    };
    let words = reply.value32()?;
    Some(words.collect())
}

/// Whether a reply is a complete read of a property of the given type and format that holds at
/// most `max_items` items of `item_bytes` bytes each.
pub open spec fn is_complete_property(
    reply: PropertyReply,
    property_type: u32,
    format: u8,
    item_bytes: int,
    max_items: int,
) -> bool {
    &&& reply.type_ == property_type
    &&& reply.format == format
    &&& property_length_is_exact(reply.format, reply.value_len, reply.length)
    &&& reply.bytes_after == 0
    &&& reply.value_len <= max_items
    &&& reply.value@.len() == reply.value_len * item_bytes
}

/// Accepts a reply to a read of at most `max_items` 32-bit items of `property_type`, and returns
/// the items.
pub fn validate_property32(reply: &PropertyReply, property_type: u32, max_items: u32) -> (values:
    Option<Vec<u32>>)
    ensures
        values is Some <==> is_complete_property(*reply, property_type, 32, 4, max_items as int),
        values matches Some(values) ==> are_native_words(values@, reply.value@) && values@.len()
            == reply.value_len,
{
    if reply.type_ != property_type || reply.format != 32 || !property_reply_length_is_exact(
        reply.format,
        reply.value_len,
        reply.length,
    ) || reply.bytes_after != 0 || reply.value_len > max_items {
        return None;
    }
    let value_len = reply.value_len as usize;
    match value_len.checked_mul(4) {
        Some(bytes) => {
            if reply.value.len() != bytes {
                return None;
            }
        },
        None => {
            proof {
                assert(reply.value@.len() <= usize::MAX);
            }
            return None;
        },
    }
    property_value32(reply.format, reply.value.as_slice())
}

/// Accepts a reply to a read of at most `max_bytes` bytes of `property_type`, and returns them.
pub fn validate_property8(reply: &PropertyReply, property_type: u32, max_bytes: usize) -> (value:
    Option<Vec<u8>>)
    ensures
        value is Some <==> is_complete_property(*reply, property_type, 8, 1, max_bytes as int),
        value matches Some(value) ==> value@ == reply.value@,
{
    if reply.type_ != property_type || reply.format != 8 || !property_reply_length_is_exact(
        reply.format,
        reply.value_len,
        reply.length,
    ) || reply.bytes_after != 0 || reply.value_len as usize > max_bytes || reply.value.len()
        != reply.value_len as usize {
        return None;
    }
    Some(copy_bytes(&reply.value))
}

fn copy_bytes(bytes: &Vec<u8>) -> (copy: Vec<u8>)
    ensures
        copy@ == bytes@,
{
    let mut copy: Vec<u8> = Vec::with_capacity(bytes.len());
    let mut i: usize = 0;
    while i < bytes.len()
        invariant
            i <= bytes@.len(),
            copy@ == bytes@.take(i as int),
        decreases bytes@.len() - i,
    {
        copy.push(bytes[i]);
        proof {
            assert(copy@ =~= bytes@.take(i + 1));
        }
        i += 1;
    }
    proof {
        assert(copy@ =~= bytes@);
    }
    copy
}

/// What a read of a property that may be missing found.
#[derive(Clone, Debug, PartialEq, Eq)]
pub enum OptionalProperty8 {
    Absent,
    Present(Vec<u8>),
}

/// Whether a reply says that the property does not exist.
pub open spec fn is_absent_property(reply: PropertyReply) -> bool {
    &&& reply.type_ == ATOM_NONE
    &&& reply.format == 0
    &&& property_length_is_exact(reply.format, reply.value_len, reply.length)
    &&& reply.bytes_after == 0
    &&& reply.value_len == 0
    &&& reply.value@.len() == 0
}

/// Accepts a reply to a read of a property that may not exist, or that holds at most
/// `max_bytes` bytes of `property_type`.
pub fn validate_optional_property8(reply: &PropertyReply, property_type: u32, max_bytes: usize) -> (value:
    Option<OptionalProperty8>)
    ensures
        is_absent_property(*reply) ==> value == Some(OptionalProperty8::Absent),
        !is_absent_property(*reply) ==> {
            &&& value is Some <==> is_complete_property(
                *reply,
                property_type,
                8,
                1,
                max_bytes as int,
            )
            &&& value is Some ==> (value matches Some(OptionalProperty8::Present(bytes)) && bytes@
                == reply.value@)
        },
{
    if reply.type_ == ATOM_NONE && reply.format == 0 && property_reply_length_is_exact(
        reply.format,
        reply.value_len,
        reply.length,
    ) && reply.bytes_after == 0 && reply.value_len == 0 && reply.value.len() == 0 {
        return Some(OptionalProperty8::Absent);
    }
    match validate_property8(reply, property_type, max_bytes) {
        Some(bytes) => Some(OptionalProperty8::Present(bytes)),
        None => None,
    }
}

/// The item count, in 4-byte units, to request for a property of at most `max_bytes` bytes.
pub fn property8_request_length(max_bytes: usize) -> (long_length: Option<u32>)
    ensures
        long_length is Some <==> (max_bytes + 3 <= usize::MAX && (max_bytes + 3) / 4 <= u32::MAX),
        long_length matches Some(n) ==> n == (max_bytes + 3) / 4,
{
    match max_bytes.checked_add(3) {
        Some(padded) => {
            let units = padded / 4;
            if units > u32::MAX as usize {
                None
            } else {
                Some(units as u32)
            }
        },
        None => None,
    }
}

/// Whether `values` holds no zero and no value twice.
pub open spec fn are_distinct_ids(values: Seq<u32>) -> bool {
    values.no_duplicates() && !values.contains(0)
}

/// Decides whether ids are distinct and nonzero.
pub fn distinct_ids(values: &[u32]) -> (distinct: bool)
    ensures
        distinct == are_distinct_ids(values@),
{
    let mut seen: HashSet<u32> = HashSet::new();
    let mut i: usize = 0;
    while i < values.len()
        invariant
            i <= values@.len(),
            are_distinct_ids(values@.take(i as int)),
            forall|v: u32| seen@.contains(v) <==> values@.take(i as int).contains(v),
        decreases values@.len() - i,
    {
        let value = values[i];
        let prefix = Ghost(values@.take(i as int));
        proof {
            assert(values@.take(i + 1) =~= prefix@.push(value));
        }
        if value == 0 {
            proof {
                assert(values@[i as int] == 0);
                assert(values@.contains(0));
            }
            return false;
        }
        if !seen.insert(value) {
            proof {
                let j = choose|j: int| 0 <= j < i && prefix@[j] == value;
                assert(values@[j] == values@[i as int]);
            }
            return false;
        }
        proof {
            assert forall|v: u32| seen@.contains(v) <==> values@.take(i + 1).contains(v) by {
                if prefix@.contains(v) {
                    let j = choose|j: int| 0 <= j < i && prefix@[j] == v;
                    assert(values@.take(i + 1)[j] == v);
                }
                if v == value {
                    assert(values@.take(i + 1)[i as int] == v);
                }
            }
            let next = values@.take(i + 1);
            assert forall|a: int, b: int| 0 <= a < b < i + 1 implies #[trigger] next[a]
                != #[trigger] next[b] by {
                if b == i {
                    assert(prefix@[a] == next[a]);
                } else {
                    assert(prefix@[a] == next[a]);
                    assert(prefix@[b] == next[b]);
                }
            }
            if next.contains(0) {
                let j = choose|j: int| 0 <= j < i + 1 && next[j] == 0;
                if j < i {
                    assert(prefix@[j] == 0);
                }
            }
        }
        i += 1;
    }
    proof {
        assert(values@.take(i as int) =~= values@);
    }
    true
}

/// One mode of a `GetScreenResourcesCurrent` reply: its id and the length of its name.
#[derive(Clone, Copy, Debug, PartialEq, Eq)]
pub struct ModeSummary {
    pub id: u32,
    pub name_len: u16,
}

/// A `GetScreenResourcesCurrent` reply.
#[derive(Clone, Debug, PartialEq, Eq)]
pub struct ScreenResources {
    pub timestamp: u32,
    pub config_timestamp: u32,
    pub crtcs: Vec<u32>,
    pub outputs: Vec<u32>,
    pub modes: Vec<ModeSummary>,
    pub names: Vec<u8>,
}

/// The part of the screen resources that must not change while a capture runs.
#[derive(Clone, Debug, PartialEq, Eq)]
pub struct ResourcesStamp {
    pub timestamp: u32,
    pub config_timestamp: u32,
    pub crtcs: Vec<u32>,
    pub outputs: Vec<u32>,
    pub modes: Vec<u32>,
    pub names: Vec<u8>,
}

/// The total name length of the modes.
pub open spec fn mode_names_len(modes: Seq<ModeSummary>) -> int
    decreases modes.len(),
{
    if modes.len() == 0 {
        0
    } else {
        mode_names_len(modes.drop_last()) + modes.last().name_len
    }
}

/// The mode ids.
pub open spec fn mode_ids(modes: Seq<ModeSummary>) -> Seq<u32> {
    modes.map_values(|mode: ModeSummary| mode.id)
}

/// Whether the screen resources are bounded, their ids are distinct and nonzero, and the mode
/// names fill the name buffer exactly.
pub open spec fn resources_are_exact(reply: ScreenResources) -> bool {
    &&& reply.crtcs@.len() <= MAX_CRTCS
    &&& reply.outputs@.len() <= MAX_OUTPUTS
    &&& reply.modes@.len() <= MAX_MODES
    &&& reply.names@.len() <= MAX_MODE_NAMES_BYTES
    &&& are_distinct_ids(reply.crtcs@)
    &&& are_distinct_ids(reply.outputs@)
    &&& are_distinct_ids(mode_ids(reply.modes@))
    &&& mode_names_len(reply.modes@) == reply.names@.len()
}

proof fn mode_names_len_bounded(modes: Seq<ModeSummary>)
    ensures
        0 <= mode_names_len(modes) <= modes.len() * 0xffff,
    decreases modes.len(),
{
    if modes.len() > 0 {
        mode_names_len_bounded(modes.drop_last());
    }
}

impl ResourcesStamp {
    /// Accepts exact screen resources and keeps what must stay stable.
    pub fn from_reply(reply: &ScreenResources) -> (stamp: Option<ResourcesStamp>)
        ensures
            stamp is Some <==> resources_are_exact(*reply),
            stamp matches Some(stamp) ==> {
                &&& stamp.timestamp == reply.timestamp
                &&& stamp.config_timestamp == reply.config_timestamp
                &&& stamp.crtcs@ == reply.crtcs@
                &&& stamp.outputs@ == reply.outputs@
                &&& stamp.modes@ == mode_ids(reply.modes@)
                &&& stamp.names@ == reply.names@
            },
    {
        if reply.crtcs.len() > MAX_CRTCS || reply.outputs.len() > MAX_OUTPUTS || reply.modes.len()
            > MAX_MODES || reply.names.len() > MAX_MODE_NAMES_BYTES {
            return None;
        }
        let mut modes: Vec<u32> = Vec::with_capacity(reply.modes.len());
        let mut names_len: usize = 0;
        let mut i: usize = 0;
        while i < reply.modes.len()
            invariant
                i <= reply.modes@.len() <= MAX_MODES,
                modes@ == mode_ids(reply.modes@.take(i as int)),
                names_len == mode_names_len(reply.modes@.take(i as int)),
            decreases reply.modes@.len() - i,
        {
            proof {
                mode_names_len_bounded(reply.modes@.take(i as int));
                assert(reply.modes@.take(i + 1).drop_last() =~= reply.modes@.take(i as int));
            }
            let mode = reply.modes[i];
            modes.push(mode.id);
            names_len = names_len + mode.name_len as usize;
            proof {
                assert(modes@ =~= mode_ids(reply.modes@.take(i + 1)));
            }
            i += 1;
        }
        proof {
            assert(reply.modes@.take(i as int) =~= reply.modes@);
        }
        if !distinct_ids(reply.crtcs.as_slice()) || !distinct_ids(reply.outputs.as_slice())
            || !distinct_ids(modes.as_slice()) || names_len != reply.names.len() {
            return None;
        }
        Some(
            ResourcesStamp {
                timestamp: reply.timestamp,
                config_timestamp: reply.config_timestamp,
                crtcs: copy_ids(&reply.crtcs),
                outputs: copy_ids(&reply.outputs),
                modes,
                names: copy_bytes(&reply.names),
            },
        )
    }
}

fn copy_ids(ids: &Vec<u32>) -> (copy: Vec<u32>)
    ensures
        copy@ == ids@,
{
    let mut copy: Vec<u32> = Vec::with_capacity(ids.len());
    let mut i: usize = 0;
    while i < ids.len()
        invariant
            i <= ids@.len(),
            copy@ == ids@.take(i as int),
        decreases ids@.len() - i,
    {
        copy.push(ids[i]);
        proof {
            assert(copy@ =~= ids@.take(i + 1));
        }
        i += 1;
    }
    proof {
        assert(copy@ =~= ids@);
    }
    copy
}

/// Whether `id` occurs in `ids`.
fn holds_id(ids: &[u32], id: u32) -> (found: bool)
    ensures
        found == ids@.contains(id),
{
    let mut i: usize = 0;
    while i < ids.len()
        invariant
            i <= ids@.len(),
            forall|j: int| 0 <= j < i ==> ids@[j] != id,
        decreases ids@.len() - i,
    {
        if ids[i] == id {
            return true;
        }
        i += 1;
    }
    false
}

/// Whether RandR is new enough to read the current screen resources (1.3 or later).
pub fn randr_supports_current_resources(major: u32, minor: u32) -> (supported: bool)
    ensures
        supported == (major > 1 || (major == 1 && minor >= 3)),
{
    !(major < 1 || (major == 1 && minor < 3))
}

/// Accepts a `GetGeometry` reply for `root` when it describes the root window itself.
pub fn root_geometry_from_reply(root: u32, reply_root: u32, x: i16, y: i16, width: u16, height: u16) -> (geometry:
    Option<RootGeometry>)
    ensures
        geometry is Some <==> (reply_root == root && x == 0 && y == 0),
        geometry matches Some(g) ==> g == (RootGeometry {
            window: root,
            width: width as u32,
            height: height as u32,
        }),
{
    if reply_root != root || x != 0 || y != 0 {
        return None;
    }
    Some(RootGeometry { window: root, width: width as u32, height: height as u32 })
}

/// A `GetCrtcInfo` reply.
#[derive(Clone, Debug, PartialEq, Eq)]
pub struct CrtcInfo {
    pub status: u8,
    pub timestamp: u32,
    pub x: i16,
    pub y: i16,
    pub width: u16,
    pub height: u16,
    pub mode: u32,
    pub outputs: Vec<u32>,
    pub possible: Vec<u32>,
}

/// What a CRTC reply says about the CRTC.
#[derive(Clone, Copy, Debug, PartialEq, Eq)]
pub enum CrtcState {
    /// The reply cannot be trusted, or the CRTC cannot carry an exact authority.
    Invalid,
    /// The CRTC drives nothing.
    Inactive,
    /// The CRTC drives exactly one known output in a known mode.
    Active,
}

/// Whether a CRTC reply is current and bounded.
pub open spec fn crtc_reply_is_current(crtc: CrtcInfo, resources_timestamp: u32) -> bool {
    &&& crtc.status == RANDR_SUCCESS
    &&& crtc.timestamp == resources_timestamp
    &&& crtc.possible@.len() <= MAX_OUTPUTS
}

/// Whether a CRTC drives nothing.
pub open spec fn crtc_is_inactive(crtc: CrtcInfo) -> bool {
    crtc.mode == 0 && crtc.width == 0 && crtc.height == 0 && crtc.outputs@.len() == 0
}

/// Whether a CRTC drives exactly one output of the resources, in a mode of the resources.
pub open spec fn crtc_is_exactly_active(crtc: CrtcInfo, stamp: ResourcesStamp) -> bool {
    &&& crtc.mode != 0
    &&& crtc.width != 0
    &&& crtc.height != 0
    &&& crtc.outputs@.len() == 1
    &&& stamp.modes@.contains(crtc.mode)
    &&& stamp.outputs@.contains(crtc.outputs@[0])
    &&& crtc.possible@.contains(crtc.outputs@[0])
}

/// Classifies a CRTC reply against the screen resources that it was read with.
pub fn classify_crtc(crtc: &CrtcInfo, stamp: &ResourcesStamp) -> (state: CrtcState)
    ensures
        state == if !crtc_reply_is_current(*crtc, stamp.timestamp) {
            CrtcState::Invalid
        } else if crtc_is_inactive(*crtc) {
            CrtcState::Inactive
        } else if crtc_is_exactly_active(*crtc, *stamp) {
            CrtcState::Active
        } else {
            CrtcState::Invalid
        },
{
    if crtc.status != RANDR_SUCCESS || crtc.timestamp != stamp.timestamp || crtc.possible.len()
        > MAX_OUTPUTS {
        return CrtcState::Invalid;
    }
    if crtc.mode == 0 && crtc.width == 0 && crtc.height == 0 && crtc.outputs.len() == 0 {
        return CrtcState::Inactive;
    }
    if crtc.mode == 0 || crtc.width == 0 || crtc.height == 0 || crtc.outputs.len() != 1 {
        return CrtcState::Invalid;
    }
    let output = crtc.outputs[0];
    if !holds_id(stamp.modes.as_slice(), crtc.mode) || !holds_id(stamp.outputs.as_slice(), output)
        || !holds_id(crtc.possible.as_slice(), output) {
        return CrtcState::Invalid;
    }
    CrtcState::Active
}

/// A `GetCrtcTransform` reply: the sizes of its filters and parameters, and its current matrix.
#[derive(Clone, Copy, Debug, PartialEq, Eq)]
pub struct CrtcTransformInfo {
    pub pending_filter_name_len: usize,
    pub current_filter_name_len: usize,
    pub pending_params_len: usize,
    pub current_params_len: usize,
    pub current_transform: [i32; 9],
}

/// Whether a CRTC transform reply is bounded and its current transform is the identity.
pub open spec fn transform_is_usable(transform: CrtcTransformInfo) -> bool {
    &&& transform.pending_filter_name_len <= MAX_TRANSFORM_FILTER_NAME_BYTES
    &&& transform.current_filter_name_len <= MAX_TRANSFORM_FILTER_NAME_BYTES
    &&& transform.pending_params_len <= MAX_TRANSFORM_PARAMS
    &&& transform.current_params_len <= MAX_TRANSFORM_PARAMS
    &&& is_identity_transform(transform.current_transform@)
}

pub fn crtc_transform_is_usable(transform: &CrtcTransformInfo) -> (usable: bool)
    ensures
        usable == transform_is_usable(*transform),
{
    transform.pending_filter_name_len <= MAX_TRANSFORM_FILTER_NAME_BYTES
        && transform.current_filter_name_len <= MAX_TRANSFORM_FILTER_NAME_BYTES
        && transform.pending_params_len <= MAX_TRANSFORM_PARAMS && transform.current_params_len
        <= MAX_TRANSFORM_PARAMS && crtc_transform_is_identity(transform.current_transform)
}

/// A `GetOutputInfo` reply.
#[derive(Clone, Debug, PartialEq, Eq)]
pub struct OutputInfo {
    pub status: u8,
    pub timestamp: u32,
    pub crtc: u32,
    pub mm_width: u32,
    pub mm_height: u32,
    pub connection: u8,
    pub crtcs: Vec<u32>,
    pub modes: Vec<u32>,
    pub clones_len: usize,
    pub name: Vec<u8>,
}

/// Whether an output reply is current, bounded, connected, named, and driven by `crtc_id` in
/// `crtc_mode`.
pub open spec fn output_is_exact(
    output: OutputInfo,
    crtc_id: u32,
    crtc_mode: u32,
    resources_timestamp: u32,
) -> bool {
    &&& output.status == RANDR_SUCCESS
    &&& output.timestamp == resources_timestamp
    &&& output.connection == RANDR_CONNECTED
    &&& output.crtc == crtc_id
    &&& output.crtcs@.len() <= MAX_CRTCS
    &&& output.modes@.len() <= MAX_MODES
    &&& output.clones_len <= MAX_OUTPUTS
    &&& output.name@.len() != 0
    &&& output.name@.len() <= MAX_OUTPUT_NAME_BYTES
    &&& is_visible_name(output.name@)
    &&& output.crtcs@.contains(crtc_id)
    &&& output.modes@.contains(crtc_mode)
}

pub fn output_is_usable(
    output: &OutputInfo,
    crtc_id: u32,
    crtc_mode: u32,
    resources_timestamp: u32,
) -> (usable: bool)
    ensures
        usable == output_is_exact(*output, crtc_id, crtc_mode, resources_timestamp),
{
    if !visible_name(output.name.as_slice()) {
        return false;
    }
    output.status == RANDR_SUCCESS && output.timestamp == resources_timestamp && output.connection
        == RANDR_CONNECTED && output.crtc == crtc_id && output.crtcs.len() <= MAX_CRTCS
        && output.modes.len() <= MAX_MODES && output.clones_len <= MAX_OUTPUTS
        && output.name.len() != 0 && output.name.len() <= MAX_OUTPUT_NAME_BYTES && holds_id(
        output.crtcs.as_slice(),
        crtc_id,
    ) && holds_id(output.modes.as_slice(), crtc_mode)
}

/// The roster entry of an active CRTC, with the bits of its scale factor.
pub fn monitor_for_crtc(
    crtc_id: u32,
    crtc: &CrtcInfo,
    current_transform: [i32; 9],
    scale_factor_bits: u64,
) -> (monitor: RandrMonitor)
    ensures
        monitor.crtc_id == crtc_id,
        monitor.rect == (PhysicalRect {
            x: crtc.x as i32,
            y: crtc.y as i32,
            width: crtc.width as u32,
            height: crtc.height as u32,
        }),
        monitor.outputs@ == crtc.outputs@,
        monitor.current_transform@ == current_transform@,
        monitor.scale_factor_bits == scale_factor_bits,
{
    RandrMonitor {
        crtc_id,
        rect: PhysicalRect {
            x: crtc.x as i32,
            y: crtc.y as i32,
            width: crtc.width as u32,
            height: crtc.height as u32,
        },
        outputs: copy_ids(&crtc.outputs),
        current_transform,
        scale_factor_bits,
    }
}

} // verus!
