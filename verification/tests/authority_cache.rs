use winit_x11::authority::SnapshotStep;
use winit_x11::authority::SubscriptionStep;
use winit_x11::authority::SupportingWmStep;
use winit_x11::authority::WorkAreaAtoms;
use winit_x11::authority::WorkAreaCache;
use winit_x11::authority::XConnection;
use winit_x11::work_area::MonitorWorkArea;
use winit_x11::work_area::PhysicalRect;

const ROOT: u32 = 1;
const ATOMS: WorkAreaAtoms = WorkAreaAtoms {
    net_supported: 100,
    net_supporting_wm_check: 101,
    net_current_desktop: 102,
    net_number_of_desktops: 103,
    net_desktop_geometry: 104,
    net_desktop_viewport: 105,
    net_workarea: 106,
    net_wm_name: 107,
    resource_manager: 23,
    xsettings_settings: 108,
};

fn record() -> MonitorWorkArea {
    MonitorWorkArea {
        crtc_id: 10,
        monitor: PhysicalRect { x: 0, y: 0, width: 1920, height: 1080 },
        work_area: PhysicalRect { x: 0, y: 24, width: 1920, height: 1056 },
        scale_factor_bits: 1.0f64.to_bits(),
    }
}

fn tracking_connection() -> XConnection {
    let mut connection = XConnection::new(ATOMS);
    connection.enable_work_area_tracking(ROOT, true, true, true, true);
    assert_eq!(connection.refresh_xsettings_subscription(Some(0)), SubscriptionStep::Finished(true));
    connection
}

fn capture_once(connection: &mut XConnection, supporting_wm: u32) -> Option<u64> {
    match connection.begin_work_area_authority_snapshot() {
        SnapshotStep::Capture { root } => {
            assert_eq!(root, ROOT);
            let step = match connection.supporting_wm_observed(root, Some(supporting_wm)) {
                SupportingWmStep::Subscribe(window) => {
                    connection.supporting_wm_subscribed(window, true)
                },
                step => step,
            };
            match step {
                SupportingWmStep::Capture(window) => {
                    assert_eq!(window, supporting_wm);
                    connection.publish_work_area(Some(vec![record()])).map(|s| s.generation)
                },
                _ => None,
            }
        },
        SnapshotStep::Finished(snapshot) => snapshot.map(|s| s.generation),
    }
}

#[test]
fn new_cache_is_untracked_and_dirty() {
    let cache = WorkAreaCache::new();
    assert_eq!(cache.root(), None);
    assert_eq!(cache.xsettings_owner(), None);
    assert!(!cache.is_foreign_authority_window(5));

    let mut connection = XConnection::new(ATOMS);
    assert_eq!(connection.begin_work_area_authority_snapshot(), SnapshotStep::Finished(None));
}

#[test]
fn tracking_requires_root_events_resources_and_xsettings_owner_events() {
    let mut connection = XConnection::new(ATOMS);
    connection.enable_work_area_tracking(ROOT, true, true, true, false);
    assert_eq!(connection.begin_work_area_authority_snapshot(), SnapshotStep::Finished(None));

    let mut connection = XConnection::new(ATOMS);
    connection.enable_work_area_tracking(ROOT, true, true, false, false);
    assert_eq!(connection.begin_work_area_authority_snapshot(), SnapshotStep::Capture { root: ROOT });
}

#[test]
fn published_snapshot_is_cached_until_an_authority_property_changes() {
    let mut connection = tracking_connection();
    assert_eq!(capture_once(&mut connection, 42), Some(1));
    assert!(connection.is_work_area_authority_window(42));

    match connection.begin_work_area_authority_snapshot() {
        SnapshotStep::Finished(Some(snapshot)) => {
            assert_eq!(snapshot.generation, 1);
            assert_eq!(snapshot.records, vec![record()]);
        },
        step => panic!("expected the cached snapshot, got {step:?}"),
    }

    // An unrelated property does not invalidate.
    assert!(!connection.work_area_property_changed(ROOT, 9999));
    assert!(matches!(
        connection.begin_work_area_authority_snapshot(),
        SnapshotStep::Finished(Some(_))
    ));

    // A root authority property does, and the next snapshot gets the next generation.
    assert!(!connection.work_area_property_changed(ROOT, ATOMS.net_workarea));
    assert_eq!(capture_once(&mut connection, 42), Some(2));

    // The supporting window manager's name invalidates as well.
    assert!(!connection.work_area_property_changed(42, ATOMS.net_wm_name));
    assert_eq!(connection.begin_work_area_authority_snapshot(), SnapshotStep::Capture { root: ROOT });
}

#[test]
fn xsettings_owner_changes_are_reported_and_invalidate() {
    let mut connection = tracking_connection();
    assert!(connection.xsettings_owner_needs_subscription(77));
    connection.xsettings_owner_changed(77, true);
    assert_eq!(connection.xsettings_owner(), Some(77));
    assert!(connection.is_work_area_authority_window(77));
    assert_eq!(capture_once(&mut connection, 42), Some(1));

    assert!(connection.work_area_property_changed(77, ATOMS.xsettings_settings));
    assert_eq!(connection.begin_work_area_authority_snapshot(), SnapshotStep::Capture { root: ROOT });

    // An owner whose events could not be selected is not recorded.
    connection.xsettings_owner_changed(78, false);
    assert_eq!(connection.xsettings_owner(), None);
    assert!(!connection.is_work_area_authority_window(78));
}

#[test]
fn refreshing_the_xsettings_subscription_follows_the_owner() {
    let mut connection = tracking_connection();
    assert_eq!(connection.refresh_xsettings_subscription(Some(55)), SubscriptionStep::Subscribe(55));
    assert!(!connection.finish_xsettings_subscription(55, false));
    assert_eq!(connection.xsettings_owner(), None);
    assert!(connection.finish_xsettings_subscription(55, true));
    assert_eq!(connection.xsettings_owner(), Some(55));
    assert_eq!(connection.refresh_xsettings_subscription(Some(55)), SubscriptionStep::Finished(true));
    assert_eq!(connection.refresh_xsettings_subscription(None), SubscriptionStep::Finished(true));
    assert_eq!(connection.xsettings_owner(), None);
    // The old owner stays subscribed until it is destroyed.
    assert!(connection.is_work_area_authority_window(55));
    assert!(connection.work_area_authority_window_destroyed(55));
    assert!(!connection.work_area_authority_window_destroyed(55));
}

#[test]
fn unusable_supporting_wm_ends_the_snapshot_unknown() {
    let mut connection = tracking_connection();
    for candidate in [None, Some(0), Some(ROOT)] {
        assert_eq!(
            connection.begin_work_area_authority_snapshot(),
            SnapshotStep::Capture { root: ROOT }
        );
        assert_eq!(connection.supporting_wm_observed(ROOT, candidate), SupportingWmStep::Unknown);
        // The unknown answer is cached until something changes.
        assert_eq!(connection.begin_work_area_authority_snapshot(), SnapshotStep::Finished(None));
        connection.invalidate_work_area_authority();
    }
    assert_eq!(connection.begin_work_area_authority_snapshot(), SnapshotStep::Capture { root: ROOT });
    assert_eq!(connection.supporting_wm_observed(ROOT, Some(42)), SupportingWmStep::Subscribe(42));
    assert_eq!(connection.supporting_wm_subscribed(42, false), SupportingWmStep::Unknown);
    assert!(!connection.is_work_area_authority_window(42));
}

#[test]
fn failed_capture_publishes_nothing_and_keeps_the_generation() {
    let mut connection = tracking_connection();
    assert_eq!(capture_once(&mut connection, 42), Some(1));
    connection.invalidate_work_area_authority();
    assert!(matches!(
        connection.begin_work_area_authority_snapshot(),
        SnapshotStep::Capture { .. }
    ));
    assert_eq!(connection.supporting_wm_observed(ROOT, Some(42)), SupportingWmStep::Capture(42));
    assert_eq!(connection.publish_work_area(None), None);
    assert_eq!(connection.begin_work_area_authority_snapshot(), SnapshotStep::Finished(None));
    connection.invalidate_work_area_authority();
    assert_eq!(capture_once(&mut connection, 42), Some(2));
}

#[test]
fn destroying_the_supporting_wm_invalidates_and_resubscribes() {
    let mut connection = tracking_connection();
    assert_eq!(capture_once(&mut connection, 42), Some(1));
    assert!(connection.work_area_authority_window_destroyed(42));
    assert!(!connection.is_work_area_authority_window(42));
    assert_eq!(connection.begin_work_area_authority_snapshot(), SnapshotStep::Capture { root: ROOT });
    assert_eq!(connection.supporting_wm_observed(ROOT, Some(43)), SupportingWmStep::Subscribe(43));
    assert_eq!(connection.supporting_wm_subscribed(43, true), SupportingWmStep::Capture(43));
    assert_eq!(connection.publish_work_area(Some(vec![record()])).map(|s| s.generation), Some(2));
}
