use winit_x11::capture::exact_work_area;
use winit_x11::capture::xsettings_owner_is_expected;
use winit_x11::capture::ScaleAuthorityKind;
use winit_x11::capture::ScaleAuthorityStamp;
use winit_x11::capture::WorkAreaCapture;
use winit_x11::replies::classify_crtc;
use winit_x11::replies::crtc_transform_is_usable;
use winit_x11::replies::distinct_ids;
use winit_x11::replies::monitor_for_crtc;
use winit_x11::replies::output_is_usable;
use winit_x11::replies::property8_request_length;
use winit_x11::replies::randr_supports_current_resources;
use winit_x11::replies::root_geometry_from_reply;
use winit_x11::replies::validate_optional_property8;
use winit_x11::replies::validate_property32;
use winit_x11::replies::validate_property8;
use winit_x11::replies::CrtcInfo;
use winit_x11::replies::CrtcState;
use winit_x11::replies::CrtcTransformInfo;
use winit_x11::replies::ModeSummary;
use winit_x11::replies::OptionalProperty8;
use winit_x11::replies::OutputInfo;
use winit_x11::replies::PropertyReply;
use winit_x11::replies::ResourcesStamp;
use winit_x11::replies::ScreenResources;
use winit_x11::work_area::EwmhAtoms;
use winit_x11::work_area::EwmhSnapshot;
use winit_x11::work_area::PhysicalRect;
use winit_x11::work_area::RootGeometry;

const CARDINAL: u32 = 6;
const UTF8_STRING: u32 = 300;
const IDENTITY: [i32; 9] = [1 << 16, 0, 0, 0, 1 << 16, 0, 0, 0, 1 << 16];

fn words_reply(words: &[u32]) -> PropertyReply {
    let value: Vec<u8> = words.iter().flat_map(|word| word.to_ne_bytes()).collect();
    PropertyReply {
        type_: CARDINAL,
        format: 32,
        value_len: words.len() as u32,
        length: words.len() as u32,
        bytes_after: 0,
        value,
    }
}

fn bytes_reply(bytes: &[u8]) -> PropertyReply {
    PropertyReply {
        type_: UTF8_STRING,
        format: 8,
        value_len: bytes.len() as u32,
        length: (bytes.len() as u32 + 3) / 4,
        bytes_after: 0,
        value: bytes.to_vec(),
    }
}

#[test]
fn property32_replies_yield_their_words() {
    let words = [0x0102_0304, 7, u32::MAX];
    assert_eq!(validate_property32(&words_reply(&words), CARDINAL, 3), Some(words.to_vec()));
    assert_eq!(validate_property32(&words_reply(&[]), CARDINAL, 3), Some(Vec::new()));

    assert_eq!(validate_property32(&words_reply(&words), CARDINAL, 2), None);
    assert_eq!(validate_property32(&words_reply(&words), CARDINAL + 1, 3), None);
    let mut reply = words_reply(&words);
    reply.bytes_after = 4;
    assert_eq!(validate_property32(&reply, CARDINAL, 3), None);
    let mut reply = words_reply(&words);
    reply.value.pop();
    assert_eq!(validate_property32(&reply, CARDINAL, 3), None);
    let mut reply = words_reply(&words);
    reply.length = 4;
    assert_eq!(validate_property32(&reply, CARDINAL, 3), None);
    let mut reply = words_reply(&words);
    reply.format = 8;
    assert_eq!(validate_property32(&reply, CARDINAL, 3), None);
}

#[test]
fn property8_replies_yield_their_bytes() {
    assert_eq!(validate_property8(&bytes_reply(b"Mutter"), UTF8_STRING, 1024), Some(b"Mutter".to_vec()));
    assert_eq!(validate_property8(&bytes_reply(b"Mutter"), UTF8_STRING, 5), None);
    let mut reply = bytes_reply(b"Mutter");
    reply.length = 1;
    assert_eq!(validate_property8(&reply, UTF8_STRING, 1024), None);

    let absent = PropertyReply {
        type_: 0,
        format: 0,
        value_len: 0,
        length: 0,
        bytes_after: 0,
        value: Vec::new(),
    };
    assert_eq!(validate_optional_property8(&absent, UTF8_STRING, 16), Some(OptionalProperty8::Absent));
    assert_eq!(
        validate_optional_property8(&bytes_reply(b"Xft.dpi:\t96\n"), UTF8_STRING, 64),
        Some(OptionalProperty8::Present(b"Xft.dpi:\t96\n".to_vec()))
    );
    let mut broken = absent.clone();
    broken.length = 1;
    assert_eq!(validate_optional_property8(&broken, UTF8_STRING, 16), None);

    assert_eq!(property8_request_length(1024), Some(256));
    assert_eq!(property8_request_length(1025), Some(257));
    assert_eq!(property8_request_length(usize::MAX), None);
}

fn resources() -> ScreenResources {
    ScreenResources {
        timestamp: 1000,
        config_timestamp: 900,
        crtcs: vec![63, 64],
        outputs: vec![70, 71],
        modes: vec![ModeSummary { id: 200, name_len: 9 }, ModeSummary { id: 201, name_len: 8 }],
        names: b"1920x1080".iter().chain(b"1280x720".iter()).copied().collect(),
    }
}

#[test]
fn resources_stamp_requires_distinct_ids_and_exact_names() {
    let stamp = ResourcesStamp::from_reply(&resources()).unwrap();
    assert_eq!(stamp.crtcs, vec![63, 64]);
    assert_eq!(stamp.outputs, vec![70, 71]);
    assert_eq!(stamp.modes, vec![200, 201]);
    assert_eq!(stamp.names.len(), 17);

    let mut reply = resources();
    reply.crtcs.push(63);
    assert_eq!(ResourcesStamp::from_reply(&reply), None);
    let mut reply = resources();
    reply.outputs.push(0);
    assert_eq!(ResourcesStamp::from_reply(&reply), None);
    let mut reply = resources();
    reply.modes[1].id = 200;
    assert_eq!(ResourcesStamp::from_reply(&reply), None);
    let mut reply = resources();
    reply.names.pop();
    assert_eq!(ResourcesStamp::from_reply(&reply), None);
    let mut reply = resources();
    reply.crtcs = (1..=33).collect();
    assert_eq!(ResourcesStamp::from_reply(&reply), None);

    assert!(distinct_ids(&[1, 2, 3]));
    assert!(!distinct_ids(&[1, 2, 1]));
    assert!(!distinct_ids(&[0]));
    assert!(distinct_ids(&[]));
}

fn crtc() -> CrtcInfo {
    CrtcInfo {
        status: 0,
        timestamp: 1000,
        x: 0,
        y: 0,
        width: 1920,
        height: 1080,
        mode: 200,
        outputs: vec![70],
        possible: vec![70, 71],
    }
}

#[test]
fn crtc_replies_are_classified_against_the_resources() {
    let stamp = ResourcesStamp::from_reply(&resources()).unwrap();
    assert_eq!(classify_crtc(&crtc(), &stamp), CrtcState::Active);

    let inactive = CrtcInfo { mode: 0, width: 0, height: 0, outputs: Vec::new(), ..crtc() };
    assert_eq!(classify_crtc(&inactive, &stamp), CrtcState::Inactive);

    assert_eq!(classify_crtc(&CrtcInfo { status: 1, ..crtc() }, &stamp), CrtcState::Invalid);
    assert_eq!(classify_crtc(&CrtcInfo { timestamp: 999, ..crtc() }, &stamp), CrtcState::Invalid);
    assert_eq!(classify_crtc(&CrtcInfo { mode: 202, ..crtc() }, &stamp), CrtcState::Invalid);
    assert_eq!(classify_crtc(&CrtcInfo { outputs: vec![70, 71], ..crtc() }, &stamp), CrtcState::Invalid);
    assert_eq!(classify_crtc(&CrtcInfo { possible: vec![71], ..crtc() }, &stamp), CrtcState::Invalid);
    assert_eq!(classify_crtc(&CrtcInfo { width: 0, ..crtc() }, &stamp), CrtcState::Invalid);

    let transform = CrtcTransformInfo {
        pending_filter_name_len: 0,
        current_filter_name_len: 0,
        pending_params_len: 0,
        current_params_len: 0,
        current_transform: IDENTITY,
    };
    assert!(crtc_transform_is_usable(&transform));
    assert!(!crtc_transform_is_usable(&CrtcTransformInfo { current_params_len: 65, ..transform }));
    let mut scaled = transform;
    scaled.current_transform[4] = 2 << 16;
    assert!(!crtc_transform_is_usable(&scaled));

    let monitor = monitor_for_crtc(63, &crtc(), IDENTITY, 1.25f64.to_bits());
    assert_eq!(monitor.rect, PhysicalRect { x: 0, y: 0, width: 1920, height: 1080 });
    assert_eq!(monitor.outputs, vec![70]);
    assert_eq!(monitor.scale_factor_bits, 1.25f64.to_bits());
}

fn output() -> OutputInfo {
    OutputInfo {
        status: 0,
        timestamp: 1000,
        crtc: 63,
        mm_width: 509,
        mm_height: 286,
        connection: 0,
        crtcs: vec![63, 64],
        modes: vec![200],
        clones_len: 0,
        name: b"DP-1".to_vec(),
    }
}

#[test]
fn output_replies_must_be_connected_named_and_driven_by_the_crtc() {
    assert!(output_is_usable(&output(), 63, 200, 1000));
    assert!(!output_is_usable(&output(), 64, 200, 1000));
    assert!(!output_is_usable(&output(), 63, 201, 1000));
    assert!(!output_is_usable(&output(), 63, 200, 1001));
    assert!(!output_is_usable(&OutputInfo { connection: 1, ..output() }, 63, 200, 1000));
    assert!(!output_is_usable(&OutputInfo { name: Vec::new(), ..output() }, 63, 200, 1000));
    assert!(!output_is_usable(&OutputInfo { name: b"  ".to_vec(), ..output() }, 63, 200, 1000));
    assert!(!output_is_usable(&OutputInfo { name: vec![0xc3], ..output() }, 63, 200, 1000));
    assert!(!output_is_usable(&OutputInfo { clones_len: 65, ..output() }, 63, 200, 1000));
}

#[test]
fn root_geometry_and_randr_version_checks() {
    assert_eq!(
        root_geometry_from_reply(1, 1, 0, 0, 1920, 1080),
        Some(RootGeometry { window: 1, width: 1920, height: 1080 })
    );
    assert_eq!(root_geometry_from_reply(1, 2, 0, 0, 1920, 1080), None);
    assert_eq!(root_geometry_from_reply(1, 1, 5, 0, 1920, 1080), None);

    assert!(randr_supports_current_resources(1, 3));
    assert!(randr_supports_current_resources(1, 6));
    assert!(randr_supports_current_resources(2, 0));
    assert!(!randr_supports_current_resources(1, 2));
    assert!(!randr_supports_current_resources(0, 9));
}

fn capture() -> WorkAreaCapture {
    let atoms = atoms();
    WorkAreaCapture {
        root: RootGeometry { window: 1, width: 1920, height: 1080 },
        ewmh: EwmhSnapshot {
            supported: atoms.required().to_vec(),
            queried_supporting_wm: 42,
            root_supporting_wm: 42,
            wm_supporting_wm: 42,
            wm_tree_root: 1,
            wm_parent: 1,
            wm_name: b"Test WM".to_vec(),
            current_desktop: vec![0],
            number_of_desktops: vec![1],
            desktop_geometry: vec![1920, 1080],
            desktop_viewport: vec![0, 0],
            workarea: vec![0, 24, 1920, 1056],
        },
        scale: ScaleAuthorityStamp {
            authority: ScaleAuthorityKind::Randr,
            xsettings_owner: None,
            xsettings_data: None,
            resource_manager_data: Some(b"Xft.dpi:\t96\n".to_vec()),
            database_xft_dpi: Some(b"96".to_vec()),
        },
        resources: ResourcesStamp::from_reply(&resources()).unwrap(),
        monitors: vec![monitor_for_crtc(
            63,
            &CrtcInfo { width: 1920, height: 1080, ..crtc() },
            IDENTITY,
            1.0f64.to_bits(),
        )],
    }
}

fn atoms() -> EwmhAtoms {
    EwmhAtoms {
        supporting_wm_check: 1,
        wm_name: 2,
        current_desktop: 3,
        number_of_desktops: 4,
        desktop_geometry: 5,
        desktop_viewport: 6,
        workarea: 7,
    }
}

#[test]
fn stable_capture_of_one_full_root_monitor_is_exact() {
    let records = exact_work_area(&capture(), &capture(), atoms()).unwrap();
    assert_eq!(records.len(), 1);
    assert_eq!(records[0].crtc_id, 63);
    assert_eq!(records[0].work_area, PhysicalRect { x: 0, y: 24, width: 1920, height: 1056 });
}

#[test]
fn capture_that_moved_between_readings_is_rejected() {
    let mut after = capture();
    after.ewmh.workarea[1] = 30;
    assert_eq!(exact_work_area(&capture(), &after, atoms()), None);

    let mut after = capture();
    after.scale.authority = ScaleAuthorityKind::Fixed(2.0f64.to_bits());
    assert_eq!(exact_work_area(&capture(), &after, atoms()), None);

    let mut after = capture();
    after.scale.database_xft_dpi = None;
    assert_eq!(exact_work_area(&capture(), &after, atoms()), None);

    let mut after = capture();
    after.resources.timestamp += 1;
    assert_eq!(exact_work_area(&capture(), &after, atoms()), None);

    let mut after = capture();
    after.monitors[0].scale_factor_bits = 1.5f64.to_bits();
    assert_eq!(exact_work_area(&capture(), &after, atoms()), None);

    let mut after = capture();
    after.root.height += 1;
    assert_eq!(exact_work_area(&capture(), &after, atoms()), None);
}

#[test]
fn capture_with_a_partial_root_monitor_is_not_exact() {
    let mut before = capture();
    before.monitors[0].rect.width = 1000;
    assert_eq!(exact_work_area(&before, &before.clone(), atoms()), None);
}

#[test]
fn xsettings_owner_must_be_the_subscribed_one() {
    assert_eq!(xsettings_owner_is_expected(None, None), Some(None));
    assert_eq!(xsettings_owner_is_expected(None, Some(0)), Some(None));
    assert_eq!(xsettings_owner_is_expected(Some(5), Some(0)), None);
    assert_eq!(xsettings_owner_is_expected(Some(5), Some(5)), Some(Some(5)));
    assert_eq!(xsettings_owner_is_expected(Some(5), Some(6)), None);
    assert_eq!(xsettings_owner_is_expected(None, Some(6)), None);
}
