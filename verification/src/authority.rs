//! The foreign windows whose properties prove the work area, and the cached authority snapshot.
//!
//! The X11 requests (event selection, property reads, the capture itself) are made by the
//! caller; the functions here decide, from their outcomes, what the cache holds and what to do
//! next.

use crate::work_area::MonitorWorkArea;
use std::collections::HashSet;
use vstd::prelude::*;

verus! {

broadcast use vstd::std_specs::hash::group_hash_axioms;

/// The most foreign windows whose events may be selected at once.
pub const MAX_SUBSCRIBED_AUTHORITY_WINDOWS: usize = 64;

/// The authority windows as a model: the current supporting window manager, the current
/// XSETTINGS owner, and every foreign window whose events were selected.
pub struct AuthorityWindowsModel {
    pub supporting_wm: Option<u32>,
    pub xsettings_owner: Option<u32>,
    pub subscribed: Set<u32>,
}

impl AuthorityWindowsModel {
    /// The roster stays bounded, and the current authorities are always subscribed windows.
    pub open spec fn wf(self) -> bool {
        &&& self.subscribed.finite()
        &&& self.subscribed.len() <= MAX_SUBSCRIBED_AUTHORITY_WINDOWS
        &&& self.supporting_wm matches Some(w) ==> self.subscribed.contains(w)
        &&& self.xsettings_owner matches Some(w) ==> self.subscribed.contains(w)
    }

    /// Whether `window` may become an authority without exceeding the bound.
    pub open spec fn can_subscribe(self, window: u32) -> bool {
        self.subscribed.contains(window) || self.subscribed.len() < MAX_SUBSCRIBED_AUTHORITY_WINDOWS
    }

    /// The roster once `window` is the subscribed supporting window manager.
    pub open spec fn with_supporting_wm(self, window: u32) -> Self {
        AuthorityWindowsModel {
            supporting_wm: Some(window),
            xsettings_owner: self.xsettings_owner,
            subscribed: self.subscribed.insert(window),
        }
    }

    /// The roster once `owner` is the XSETTINGS owner (`None`: there is none).
    pub open spec fn with_xsettings_owner(self, owner: Option<u32>) -> Self {
        AuthorityWindowsModel {
            supporting_wm: self.supporting_wm,
            xsettings_owner: owner,
            subscribed: match owner {
                Some(w) => self.subscribed.insert(w),
                None => self.subscribed,
            },
        }
    }

    /// The roster once `window` was destroyed.
    pub open spec fn without(self, window: u32) -> Self {
        AuthorityWindowsModel {
            supporting_wm: if self.supporting_wm == Some(window) {
                None
            } else {
                self.supporting_wm
            },
            xsettings_owner: if self.xsettings_owner == Some(window) {
                None
            } else {
                self.xsettings_owner
            },
            subscribed: self.subscribed.remove(window),
        }
    }
}

/// The foreign windows whose events were selected to track the work-area authority.
#[derive(Debug)]
pub struct AuthorityWindows {
    supporting_wm: Option<u32>,
    xsettings_owner: Option<u32>,
    subscribed: HashSet<u32>,
}

impl View for AuthorityWindows {
    type V = AuthorityWindowsModel;

    closed spec fn view(&self) -> AuthorityWindowsModel {
        AuthorityWindowsModel {
            supporting_wm: self.supporting_wm,
            xsettings_owner: self.xsettings_owner,
            subscribed: self.subscribed@,
        }
    }
}

impl Default for AuthorityWindows {
    fn default() -> (windows: Self)
        ensures
            windows@.wf(),
            windows@.supporting_wm is None,
            windows@.xsettings_owner is None,
            windows@.subscribed == Set::<u32>::empty(),
    {
        AuthorityWindows { supporting_wm: None, xsettings_owner: None, subscribed: HashSet::new() }
    }
}

/// What the destruction of a foreign window meant for the authority roster.
#[derive(Clone, Copy, Debug, PartialEq, Eq)]
pub enum AuthorityWindowDestroyed {
    NotSubscribed,
    Subscribed { current_changed: bool },
}

impl AuthorityWindows {
    pub fn supporting_wm(&self) -> (window: Option<u32>)
        ensures
            window == self@.supporting_wm,
    {
        self.supporting_wm
    }

    pub fn xsettings_owner(&self) -> (window: Option<u32>)
        ensures
            window == self@.xsettings_owner,
    {
        self.xsettings_owner
    }

    pub fn can_subscribe(&self, window: u32) -> (allowed: bool)
        ensures
            allowed == self@.can_subscribe(window),
    {
        self.subscribed.contains(&window) || self.subscribed.len() < MAX_SUBSCRIBED_AUTHORITY_WINDOWS
    }

    /// Makes `window` the supporting window manager, unless the roster is full.
    pub fn set_supporting_wm(&mut self, window: u32) -> (accepted: bool)
        requires
            old(self)@.wf(),
        ensures
            final(self)@.wf(),
            accepted == old(self)@.can_subscribe(window),
            accepted ==> final(self)@ == old(self)@.with_supporting_wm(window),
            !accepted ==> final(self)@ == old(self)@,
    {
        if !self.can_subscribe(window) {
            return false;
        }
        self.subscribed.insert(window);
        self.supporting_wm = Some(window);
        true
    }

    /// Makes `window` the XSETTINGS owner (`None`: there is none), unless the roster is full.
    pub fn set_xsettings_owner(&mut self, window: Option<u32>) -> (accepted: bool)
        requires
            old(self)@.wf(),
        ensures
            final(self)@.wf(),
            accepted == (window matches Some(w) ==> old(self)@.can_subscribe(w)),
            accepted ==> final(self)@ == old(self)@.with_xsettings_owner(window),
            !accepted ==> final(self)@ == old(self)@,
    {
        if let Some(window) = window {
            if !self.can_subscribe(window) {
                return false;
            }
            self.subscribed.insert(window);
        }
        self.xsettings_owner = window;
        true
    }

    pub fn contains(&self, window: u32) -> (subscribed: bool)
        ensures
            subscribed == self@.subscribed.contains(window),
    {
        self.subscribed.contains(&window)
    }

    /// Forgets a destroyed window: it leaves the roster, and stops being a current authority.
    pub fn destroyed(&mut self, window: u32) -> (outcome: AuthorityWindowDestroyed)
        requires
            old(self)@.wf(),
        ensures
            final(self)@.wf(),
            !old(self)@.subscribed.contains(window) ==> outcome
                == AuthorityWindowDestroyed::NotSubscribed && final(self)@ == old(self)@,
            old(self)@.subscribed.contains(window) ==> {
                &&& outcome == (AuthorityWindowDestroyed::Subscribed {
                    current_changed: old(self)@.supporting_wm == Some(window)
                        || old(self)@.xsettings_owner == Some(window),
                })
                &&& final(self)@ == old(self)@.without(window)
            },
    {
        let ghost before = self.subscribed@;
        if !self.subscribed.remove(&window) {
            proof {
                assert(self.subscribed@ =~= before);
            }
            return AuthorityWindowDestroyed::NotSubscribed;
        }
        let mut current_changed = false;
        if self.supporting_wm == Some(window) {
            self.supporting_wm = None;
            current_changed = true;
        }
        if self.xsettings_owner == Some(window) {
            self.xsettings_owner = None;
            current_changed = true;
        }
        AuthorityWindowDestroyed::Subscribed { current_changed }
    }
}

/// A published work-area authority snapshot: its generation and one record per monitor.
#[derive(Debug, PartialEq)]
pub struct WorkAreaSnapshot {
    pub generation: u64,
    pub records: Vec<MonitorWorkArea>,
}

impl WorkAreaSnapshot {
    pub open spec fn model(&self) -> (u64, Seq<MonitorWorkArea>) {
        (self.generation, self.records@)
    }

    /// A copy of the snapshot, record for record.
    pub fn duplicate(&self) -> (copy: WorkAreaSnapshot)
        ensures
            copy.model() == self.model(),
    {
        let mut records: Vec<MonitorWorkArea> = Vec::with_capacity(self.records.len());
        let mut i: usize = 0;
        while i < self.records.len()
            invariant
                i <= self.records@.len(),
                records@ == self.records@.take(i as int),
            decreases self.records@.len() - i,
        {
            records.push(self.records[i]);
            proof {
                assert(records@ =~= self.records@.take(i + 1));
            }
            i += 1;
        }
        proof {
            assert(records@ =~= self.records@);
        }
        WorkAreaSnapshot { generation: self.generation, records }
    }
}

/// The cache of the work-area authority as a model.
pub struct WorkAreaCacheModel {
    pub tracking_enabled: bool,
    pub dirty: bool,
    pub generation: u64,
    pub root: Option<u32>,
    pub windows: AuthorityWindowsModel,
    pub snapshot: Option<(u64, Seq<MonitorWorkArea>)>,
}

impl WorkAreaCacheModel {
    /// The authority roster is well formed, and a cached snapshot is current: the cache is clean
    /// and the snapshot carries the latest generation.
    pub open spec fn wf(self) -> bool {
        &&& self.windows.wf()
        &&& self.snapshot matches Some(snapshot) ==> !self.dirty && snapshot.0 == self.generation
    }

    /// The cache once something that the authority rests on may have changed.
    pub open spec fn invalidated(self) -> Self {
        WorkAreaCacheModel { dirty: true, snapshot: None, ..self }
    }

    /// The cache once the authority was found unknown.
    pub open spec fn unknown(self) -> Self {
        WorkAreaCacheModel { dirty: false, snapshot: None, ..self }
    }

    pub open spec fn with_windows(self, windows: AuthorityWindowsModel) -> Self {
        WorkAreaCacheModel { windows, ..self }
    }

    /// The cache once a capture ended with `records` (`None`: no exact authority).
    pub open spec fn published(self, records: Option<Seq<MonitorWorkArea>>) -> Self {
        match records {
            None => self.unknown(),
            Some(records) => if self.generation == u64::MAX {
                self.unknown()
            } else {
                WorkAreaCacheModel {
                    dirty: false,
                    generation: (self.generation + 1) as u64,
                    snapshot: Some(((self.generation + 1) as u64, records)),
                    ..self
                }
            },
        }
    }

    /// What a snapshot request does first: answer at once (`Some`), or start a capture (`None`).
    pub open spec fn immediate_answer(self) -> Option<Option<(u64, Seq<MonitorWorkArea>)>> {
        if !self.tracking_enabled {
            Some(None)
        } else if !self.dirty {
            Some(self.snapshot)
        } else if self.root is None {
            Some(None)
        } else {
            None
        }
    }
}

/// The cached work-area authority of one X connection.
#[derive(Debug)]
pub struct WorkAreaCache {
    tracking_enabled: bool,
    dirty: bool,
    generation: u64,
    root: Option<u32>,
    authority_windows: AuthorityWindows,
    snapshot: Option<WorkAreaSnapshot>,
}

impl View for WorkAreaCache {
    type V = WorkAreaCacheModel;

    closed spec fn view(&self) -> WorkAreaCacheModel {
        WorkAreaCacheModel {
            tracking_enabled: self.tracking_enabled,
            dirty: self.dirty,
            generation: self.generation,
            root: self.root,
            windows: self.authority_windows@,
            snapshot: match self.snapshot {
                Some(snapshot) => Some(snapshot.model()),
                None => None,
            },
        }
    }
}

impl WorkAreaCache {
    pub fn new() -> (cache: Self)
        ensures
            cache@.wf(),
            !cache@.tracking_enabled,
            cache@.dirty,
            cache@.generation == 0,
            cache@.root is None,
            cache@.windows.supporting_wm is None,
            cache@.windows.xsettings_owner is None,
            cache@.windows.subscribed == Set::<u32>::empty(),
            cache@.snapshot is None,
    {
        WorkAreaCache {
            tracking_enabled: false,
            dirty: true,
            generation: 0,
            root: None,
            authority_windows: AuthorityWindows::default(),
            snapshot: None,
        }
    }

    pub fn invalidate(&mut self)
        requires
            old(self)@.wf(),
        ensures
            final(self)@ == old(self)@.invalidated(),
            final(self)@.wf(),
    {
        self.dirty = true;
        self.snapshot = None;
    }

    pub fn is_foreign_authority_window(&self, window: u32) -> (authority: bool)
        ensures
            authority == self@.windows.subscribed.contains(window),
    {
        self.authority_windows.contains(window)
    }

    pub fn root(&self) -> (root: Option<u32>)
        ensures
            root == self@.root,
    {
        self.root
    }

    pub fn xsettings_owner(&self) -> (owner: Option<u32>)
        ensures
            owner == self@.windows.xsettings_owner,
    {
        self.authority_windows.xsettings_owner()
    }
}

/// The atoms that the work-area authority logic compares property changes against.
#[derive(Clone, Copy, Debug, PartialEq, Eq)]
pub struct WorkAreaAtoms {
    pub net_supported: u32,
    pub net_supporting_wm_check: u32,
    pub net_current_desktop: u32,
    pub net_number_of_desktops: u32,
    pub net_desktop_geometry: u32,
    pub net_desktop_viewport: u32,
    pub net_workarea: u32,
    pub net_wm_name: u32,
    pub resource_manager: u32,
    pub xsettings_settings: u32,
}

impl WorkAreaAtoms {
    /// Whether `atom` names a root property that the authority rests on.
    pub open spec fn is_root_authority_property(self, atom: u32) -> bool {
        ||| atom == self.net_supported
        ||| atom == self.net_supporting_wm_check
        ||| atom == self.net_current_desktop
        ||| atom == self.net_number_of_desktops
        ||| atom == self.net_desktop_geometry
        ||| atom == self.net_desktop_viewport
        ||| atom == self.net_workarea
        ||| atom == self.resource_manager
    }
}

/// The next step of a work-area snapshot request.
#[derive(Debug, PartialEq)]
pub enum SnapshotStep {
    /// The request is answered.
    Finished(Option<WorkAreaSnapshot>),
    /// Refresh the XSETTINGS subscription, then read the supporting window manager of `root`.
    Capture { root: u32 },
}

/// The next step after the XSETTINGS owner was read.
#[derive(Clone, Copy, Debug, PartialEq, Eq)]
pub enum SubscriptionStep {
    /// The subscription is settled; `false` when it cannot be.
    Finished(bool),
    /// Select the owner's events, then report the outcome.
    Subscribe(u32),
}

/// The next step after the supporting window manager was read.
#[derive(Clone, Copy, Debug, PartialEq, Eq)]
pub enum SupportingWmStep {
    /// The authority is unknown; the request is answered with no snapshot.
    Unknown,
    /// Select the window's events, then report the outcome.
    Subscribe(u32),
    /// Capture the work area with this supporting window manager.
    Capture(u32),
}

/// The work-area authority state that an X connection keeps: the atoms it compares property
/// changes against, and the authority cache.
#[derive(Debug)]
pub struct XConnection {
    atoms: WorkAreaAtoms,
    work_area_cache: WorkAreaCache,
}

impl XConnection {
    /// The atoms that property changes are compared against.
    pub closed spec fn atom_table(&self) -> WorkAreaAtoms {
        self.atoms
    }

    pub closed spec fn cache(&self) -> WorkAreaCacheModel {
        self.work_area_cache@
    }

    pub open spec fn wf(&self) -> bool {
        self.cache().wf()
    }

    pub fn new(atoms: WorkAreaAtoms) -> (connection: Self)
        ensures
            connection.wf(),
            connection.atom_table() == atoms,
            !connection.cache().tracking_enabled,
            connection.cache().dirty,
            connection.cache().generation == 0,
            connection.cache().root is None,
            connection.cache().windows.supporting_wm is None,
            connection.cache().windows.xsettings_owner is None,
            connection.cache().windows.subscribed == Set::<u32>::empty(),
            connection.cache().snapshot is None,
    {
        XConnection { atoms, work_area_cache: WorkAreaCache::new() }
    }

    pub fn root(&self) -> (root: Option<u32>)
        ensures
            root == self.cache().root,
    {
        self.work_area_cache.root()
    }

    pub fn xsettings_owner(&self) -> (owner: Option<u32>)
        ensures
            owner == self.cache().windows.xsettings_owner,
    {
        self.work_area_cache.xsettings_owner()
    }

    /// Starts tracking the work-area authority of `root`. Tracking is enabled only when the
    /// root's property events were selected, `root` is the screen that RandR resources are read
    /// for, and the XSETTINGS owner's events could be selected wherever there is an XSETTINGS
    /// screen. The caller then refreshes the XSETTINGS subscription.
    pub fn enable_work_area_tracking(
        &mut self,
        root: u32,
        root_events: bool,
        resource_root_matches: bool,
        has_xsettings_screen: bool,
        xsettings_owner_events: bool,
    )
        requires
            old(self).wf(),
        ensures
            final(self).wf(),
            final(self).atom_table() == old(self).atom_table(),
            final(self).cache() == (WorkAreaCacheModel {
                root: Some(root),
                tracking_enabled: root_events && resource_root_matches && (!has_xsettings_screen
                    || xsettings_owner_events),
                ..old(self).cache()
            }).invalidated(),
    {
        let tracking_enabled = root_events && resource_root_matches && (!has_xsettings_screen
            || xsettings_owner_events);
        self.work_area_cache.root = Some(root);
        self.work_area_cache.tracking_enabled = tracking_enabled;
        self.work_area_cache.invalidate();
    }

    pub fn invalidate_work_area_authority(&mut self)
        requires
            old(self).wf(),
        ensures
            final(self).wf(),
            final(self).atom_table() == old(self).atom_table(),
            final(self).cache() == old(self).cache().invalidated(),
    {
        self.work_area_cache.invalidate();
    }

    /// Whether a property change of `window` is one of the current XSETTINGS owner's settings.
    pub open spec fn is_xsettings_change(&self, window: u32, atom: u32) -> bool {
        self.cache().windows.xsettings_owner == Some(window) && atom == self.atom_table().xsettings_settings
    }

    /// Whether a property change of `window` touches what the authority rests on.
    pub open spec fn is_authority_change(&self, window: u32, atom: u32) -> bool {
        ||| self.cache().root == Some(window) && self.atom_table().is_root_authority_property(atom)
        ||| self.cache().windows.supporting_wm == Some(window) && (atom
            == self.atom_table().net_supporting_wm_check || atom == self.atom_table().net_wm_name)
        ||| self.is_xsettings_change(window, atom)
    }

    /// Invalidates the authority when a property that it rests on changed; returns whether the
    /// change was to the XSETTINGS owner's settings.
    pub fn work_area_property_changed(&mut self, window: u32, atom: u32) -> (xsettings_changed: bool)
        requires
            old(self).wf(),
        ensures
            final(self).wf(),
            final(self).atom_table() == old(self).atom_table(),
            xsettings_changed == old(self).is_xsettings_change(window, atom),
            final(self).cache() == if old(self).is_authority_change(window, atom) {
                old(self).cache().invalidated()
            } else {
                old(self).cache()
            },
            old(self).cache().root == Some(window) && (atom == old(self).atom_table().net_supported
                || atom == old(self).atom_table().net_supporting_wm_check || atom == old(
                self,
            ).atom_table().net_current_desktop || atom
                == old(self).atom_table().net_number_of_desktops || atom == old(
                self,
            ).atom_table().net_desktop_geometry || atom
                == old(self).atom_table().net_desktop_viewport || atom == old(
                self,
            ).atom_table().net_workarea || atom == old(self).atom_table().resource_manager)
                ==> final(self).cache().dirty && final(self).cache().snapshot is None,
            old(self).cache().windows.supporting_wm == Some(window) && (atom == old(
                self,
            ).atom_table().net_supporting_wm_check || atom == old(self).atom_table().net_wm_name)
                ==> final(self).cache().dirty && final(self).cache().snapshot is None,
            old(self).cache().windows.xsettings_owner == Some(window) && atom == old(
                self,
            ).atom_table().xsettings_settings ==> xsettings_changed && final(self).cache().dirty
                && final(self).cache().snapshot is None,
    {
        let atoms = self.atoms;
        let root_property = self.work_area_cache.root == Some(window) && (atom
            == atoms.net_supported || atom == atoms.net_supporting_wm_check || atom
            == atoms.net_current_desktop || atom == atoms.net_number_of_desktops || atom
            == atoms.net_desktop_geometry || atom == atoms.net_desktop_viewport || atom
            == atoms.net_workarea || atom == atoms.resource_manager);
        let supporting_wm_property = self.work_area_cache.authority_windows.supporting_wm()
            == Some(window) && (atom == atoms.net_supporting_wm_check || atom
            == atoms.net_wm_name);
        let xsettings_property = self.work_area_cache.authority_windows.xsettings_owner()
            == Some(window) && atom == atoms.xsettings_settings;
        if root_property || supporting_wm_property || xsettings_property {
            self.work_area_cache.invalidate();
        }
        xsettings_property
    }

    pub fn is_work_area_authority_window(&self, window: u32) -> (authority: bool)
        ensures
            authority == self.cache().windows.subscribed.contains(window),
    {
        self.work_area_cache.is_foreign_authority_window(window)
    }

    /// Forgets a destroyed foreign window; when it was subscribed, the authority is invalidated,
    /// since the freed capacity may admit the current authority.
    pub fn work_area_authority_window_destroyed(&mut self, window: u32) -> (subscribed: bool)
        requires
            old(self).wf(),
        ensures
            final(self).wf(),
            final(self).atom_table() == old(self).atom_table(),
            subscribed == old(self).cache().windows.subscribed.contains(window),
            subscribed ==> final(self).cache() == old(self).cache().with_windows(
                old(self).cache().windows.without(window),
            ).invalidated(),
            !subscribed ==> final(self).cache() == old(self).cache(),
    {
        match self.work_area_cache.authority_windows.destroyed(window) {
            AuthorityWindowDestroyed::NotSubscribed => false,
            AuthorityWindowDestroyed::Subscribed { current_changed: _ } => {
                self.work_area_cache.invalidate();
                true
            },
        }
    }

    /// Whether a new XSETTINGS owner's events should be selected before it is recorded.
    pub fn xsettings_owner_needs_subscription(&self, owner: u32) -> (needed: bool)
        ensures
            needed == (owner != 0 && self.cache().windows.can_subscribe(owner)),
    {
        owner != 0 && self.work_area_cache.authority_windows.can_subscribe(owner)
    }

    /// Records a new XSETTINGS selection owner (0: none) once the caller tried to select its
    /// events (`events_selected`), and invalidates the authority.
    pub fn xsettings_owner_changed(&mut self, owner: u32, events_selected: bool)
        requires
            old(self).wf(),
        ensures
            final(self).wf(),
            final(self).atom_table() == old(self).atom_table(),
            final(self).cache() == old(self).cache().with_windows(
                old(self).cache().windows.with_xsettings_owner(
                    if owner != 0 && old(self).cache().windows.can_subscribe(owner)
                        && events_selected {
                        Some(owner)
                    } else {
                        None
                    },
                ),
            ).invalidated(),
    {
        let owner = if owner != 0 && self.work_area_cache.authority_windows.can_subscribe(owner)
            && events_selected {
            Some(owner)
        } else {
            None
        };
        self.work_area_cache.authority_windows.set_xsettings_owner(owner);
        self.work_area_cache.invalidate();
    }

    /// Settles the XSETTINGS subscription once the selection owner was read (`owner` is `None`
    /// when the screen has no XSETTINGS selection, `Some(0)` when it has no owner).
    pub fn refresh_xsettings_subscription(&mut self, owner: Option<u32>) -> (step: SubscriptionStep)
        requires
            old(self).wf(),
        ensures
            final(self).wf(),
            final(self).atom_table() == old(self).atom_table(),
            match owner {
                Some(w) if w != 0 => {
                    &&& final(self).cache() == old(self).cache()
                    &&& step == if old(self).cache().windows.xsettings_owner == Some(w) {
                        SubscriptionStep::Finished(true)
                    } else if old(self).cache().windows.can_subscribe(w) {
                        SubscriptionStep::Subscribe(w)
                    } else {
                        SubscriptionStep::Finished(false)
                    }
                },
                _ => {
                    &&& final(self).cache() == old(self).cache().with_windows(
                        old(self).cache().windows.with_xsettings_owner(None),
                    )
                    &&& step == SubscriptionStep::Finished(true)
                },
            },
    {
        let owner = match owner {
            Some(owner) if owner != 0 => owner,
            _ => {
                self.work_area_cache.authority_windows.set_xsettings_owner(None);
                return SubscriptionStep::Finished(true);
            },
        };
        if self.work_area_cache.authority_windows.xsettings_owner() == Some(owner) {
            return SubscriptionStep::Finished(true);
        }
        if !self.work_area_cache.authority_windows.can_subscribe(owner) {
            return SubscriptionStep::Finished(false);
        }
        SubscriptionStep::Subscribe(owner)
    }

    /// Records the XSETTINGS owner once the caller tried to select its events; returns whether
    /// the subscription is settled.
    pub fn finish_xsettings_subscription(&mut self, owner: u32, events_selected: bool) -> (settled:
        bool)
        requires
            old(self).wf(),
        ensures
            final(self).wf(),
            final(self).atom_table() == old(self).atom_table(),
            settled == (events_selected && old(self).cache().windows.can_subscribe(owner)),
            settled ==> final(self).cache() == old(self).cache().with_windows(
                old(self).cache().windows.with_xsettings_owner(Some(owner)),
            ),
            !settled ==> final(self).cache() == old(self).cache(),
    {
        if !events_selected {
            return false;
        }
        self.work_area_cache.authority_windows.set_xsettings_owner(Some(owner))
    }

    /// Starts a snapshot request: answers it from the cache when tracking is off or the cache is
    /// clean, gives up when no root is known, and otherwise asks the caller to capture.
    pub fn begin_work_area_authority_snapshot(&mut self) -> (step: SnapshotStep)
        requires
            old(self).wf(),
        ensures
            final(self).wf(),
            final(self).atom_table() == old(self).atom_table(),
            match old(self).cache().immediate_answer() {
                Some(answer) => {
                    &&& step matches SnapshotStep::Finished(snapshot) && answer == match snapshot {
                        Some(snapshot) => Some(snapshot.model()),
                        None => None,
                    }
                    &&& final(self).cache() == if old(self).cache().tracking_enabled
                        && old(self).cache().dirty {
                        old(self).cache().unknown()
                    } else {
                        old(self).cache()
                    }
                },
                None => {
                    &&& step == SnapshotStep::Capture { root: old(self).cache().root->Some_0 }
                    &&& final(self).cache() == old(self).cache()
                },
            },
    {
        if !self.work_area_cache.tracking_enabled {
            return SnapshotStep::Finished(None);
        }
        if !self.work_area_cache.dirty {
            return SnapshotStep::Finished(
                match &self.work_area_cache.snapshot {
                    Some(snapshot) => Some(snapshot.duplicate()),
                    None => None,
                },
            );
        }
        match self.work_area_cache.root {
            Some(root) => SnapshotStep::Capture { root },
            None => SnapshotStep::Finished(self.finish_unknown_snapshot()),
        }
    }

    /// Ends a snapshot request with an unknown authority.
    pub fn finish_unknown_snapshot(&mut self) -> (snapshot: Option<WorkAreaSnapshot>)
        requires
            old(self).wf(),
        ensures
            final(self).wf(),
            final(self).atom_table() == old(self).atom_table(),
            final(self).cache() == old(self).cache().unknown(),
            snapshot is None,
    {
        self.work_area_cache.dirty = false;
        self.work_area_cache.snapshot = None;
        None
    }

    /// Decides what to do with the supporting window manager read from `root` (`None`: the read
    /// failed or did not hold exactly one window).
    pub fn supporting_wm_observed(&mut self, root: u32, supporting_wm: Option<u32>) -> (step:
        SupportingWmStep)
        requires
            old(self).wf(),
        ensures
            final(self).wf(),
            final(self).atom_table() == old(self).atom_table(),
            match supporting_wm {
                Some(w) if w != 0 && w != root => if old(self).cache().windows.supporting_wm == Some(
                    w,
                ) {
                    step == SupportingWmStep::Capture(w) && final(self).cache() == old(self).cache()
                } else if old(self).cache().windows.can_subscribe(w) {
                    step == SupportingWmStep::Subscribe(w) && final(self).cache() == old(
                        self,
                    ).cache()
                } else {
                    step == SupportingWmStep::Unknown && final(self).cache() == old(
                        self,
                    ).cache().unknown()
                },
                _ => step == SupportingWmStep::Unknown && final(self).cache() == old(
                    self,
                ).cache().unknown(),
            },
    {
        let window = match supporting_wm {
            Some(window) if window != 0 && window != root => window,
            _ => {
                self.finish_unknown_snapshot();
                return SupportingWmStep::Unknown;
            },
        };
        if self.work_area_cache.authority_windows.supporting_wm() == Some(window) {
            return SupportingWmStep::Capture(window);
        }
        if !self.work_area_cache.authority_windows.can_subscribe(window) {
            self.finish_unknown_snapshot();
            return SupportingWmStep::Unknown;
        }
        SupportingWmStep::Subscribe(window)
    }

    /// Records the supporting window manager once the caller tried to select its events.
    pub fn supporting_wm_subscribed(&mut self, window: u32, events_selected: bool) -> (step:
        SupportingWmStep)
        requires
            old(self).wf(),
        ensures
            final(self).wf(),
            final(self).atom_table() == old(self).atom_table(),
            events_selected && old(self).cache().windows.can_subscribe(window) ==> {
                &&& step == SupportingWmStep::Capture(window)
                &&& final(self).cache() == old(self).cache().with_windows(
                    old(self).cache().windows.with_supporting_wm(window),
                )
            },
            !(events_selected && old(self).cache().windows.can_subscribe(window)) ==> {
                &&& step == SupportingWmStep::Unknown
                &&& final(self).cache() == old(self).cache().unknown()
            },
    {
        if !events_selected || !self.work_area_cache.authority_windows.set_supporting_wm(window) {
            self.finish_unknown_snapshot();
            return SupportingWmStep::Unknown;
        }
        SupportingWmStep::Capture(window)
    }

    /// Ends a snapshot request with the records of a capture (`None`: no exact authority). A new
    /// snapshot gets the next generation; when generations are exhausted the authority is unknown.
    pub fn publish_work_area(&mut self, records: Option<Vec<MonitorWorkArea>>) -> (snapshot: Option<
        WorkAreaSnapshot,
    >)
        requires
            old(self).wf(),
        ensures
            final(self).wf(),
            final(self).atom_table() == old(self).atom_table(),
            final(self).cache() == old(self).cache().published(
                match records {
                    Some(records) => Some(records@),
                    None => None,
                },
            ),
            match snapshot {
                Some(snapshot) => final(self).cache().snapshot == Some(snapshot.model()),
                None => final(self).cache().snapshot is None,
            },
            !final(self).cache().dirty,
            match records {
                Some(records) => if old(self).cache().generation < u64::MAX {
                    (snapshot matches Some(s) && s.generation == old(self).cache().generation + 1
                        && s.records@ == records@) && final(self).cache().generation
                        == old(self).cache().generation + 1
                } else {
                    snapshot is None
                },
                None => snapshot is None && final(self).cache().generation == old(
                    self,
                ).cache().generation,
            },
    {
        self.work_area_cache.dirty = false;
        let records = match records {
            Some(records) => records,
            None => {
                self.work_area_cache.snapshot = None;
                return None;
            },
        };
        let generation = match self.work_area_cache.generation.checked_add(1) {
            Some(generation) => generation,
            None => return self.finish_unknown_snapshot(),
        };
        self.work_area_cache.generation = generation;
        let snapshot = WorkAreaSnapshot { generation, records };
        let copy = snapshot.duplicate();
        self.work_area_cache.snapshot = Some(snapshot);
        Some(copy)
    }
}

/// The subscription roster stays bounded: a window is admitted only while there is room or it is
/// already subscribed, every change keeps the roster well formed, and a refused window meets a
/// full roster.
pub proof fn authority_roster_is_bounded(roster: AuthorityWindowsModel, window: u32)
    requires
        roster.wf(),
    ensures
        roster.can_subscribe(window) ==> roster.with_supporting_wm(window).wf(),
        roster.can_subscribe(window) ==> roster.with_xsettings_owner(Some(window)).wf(),
        roster.with_xsettings_owner(None).wf(),
        roster.without(window).wf(),
        !roster.can_subscribe(window) ==> roster.subscribed.len()
            == MAX_SUBSCRIBED_AUTHORITY_WINDOWS,
{
}

/// Destroying a subscribed window frees room for any other window.
pub proof fn authority_roster_recovers_after_destroy(
    roster: AuthorityWindowsModel,
    window: u32,
    other: u32,
)
    requires
        roster.wf(),
        roster.subscribed.contains(window),
    ensures
        roster.without(window).can_subscribe(other),
{
}

/// Switching the supporting window manager or the XSETTINGS owner never drops a subscription;
/// only the destruction of a window does, and only that window's.
pub proof fn subscribed_authorities_survive_owner_switches_until_destroyed(
    roster: AuthorityWindowsModel,
    window: u32,
    owner: Option<u32>,
    destroyed: u32,
    other: u32,
)
    ensures
        roster.subscribed.contains(other) ==> roster.with_supporting_wm(window).subscribed.contains(
            other,
        ),
        roster.subscribed.contains(other) ==> roster.with_xsettings_owner(
            owner,
        ).subscribed.contains(other),
        roster.subscribed.contains(other) && other != destroyed ==> roster.without(
            destroyed,
        ).subscribed.contains(other),
        !roster.without(destroyed).subscribed.contains(destroyed),
        roster.without(destroyed).supporting_wm != Some(destroyed),
        roster.without(destroyed).xsettings_owner != Some(destroyed),
{
}

/// Once the authority is invalidated, a snapshot request never answers with the snapshot that was
/// cached before: it captures anew, or answers with no snapshot.
pub proof fn invalidated_authority_is_not_answered_from_cache(cache: WorkAreaCacheModel)
    ensures
        cache.invalidated().immediate_answer() matches Some(answer) ==> answer is None,
        cache.invalidated().snapshot is None,
{
}

/// Every published snapshot carries a generation greater than any published before it, and a
/// cache that is well formed stays so whatever a capture ends with.
pub proof fn published_generations_increase(
    cache: WorkAreaCacheModel,
    records: Option<Seq<MonitorWorkArea>>,
)
    requires
        cache.wf(),
    ensures
        cache.published(records).wf(),
        cache.published(records).generation >= cache.generation,
        cache.published(records).snapshot matches Some(snapshot) ==> snapshot.0 > cache.generation,
        cache.snapshot matches Some(old_snapshot) ==> (cache.published(records).snapshot matches Some(
            snapshot,
        ) ==> snapshot.0 > old_snapshot.0),
{
}

/// A change on the root of any property that the work area is read from (`_NET_SUPPORTED`,
/// `_NET_SUPPORTING_WM_CHECK`, `_NET_CURRENT_DESKTOP`, `_NET_NUMBER_OF_DESKTOPS`,
/// `_NET_DESKTOP_GEOMETRY`, `_NET_DESKTOP_VIEWPORT`, `_NET_WORKAREA`, `RESOURCE_MANAGER`) is an
/// authority change; the cache it leaves is dirty and holds no snapshot, so the next request of a
/// tracking connection captures anew.
pub proof fn root_authority_property_changes_invalidate(
    connection: XConnection,
    window: u32,
    atom: u32,
)
    requires
        connection.cache().root == Some(window),
        ({
            let a = connection.atom_table();
            ||| atom == a.net_supported
            ||| atom == a.net_supporting_wm_check
            ||| atom == a.net_current_desktop
            ||| atom == a.net_number_of_desktops
            ||| atom == a.net_desktop_geometry
            ||| atom == a.net_desktop_viewport
            ||| atom == a.net_workarea
            ||| atom == a.resource_manager
        }),
    ensures
        connection.is_authority_change(window, atom),
        connection.cache().invalidated().dirty,
        connection.cache().invalidated().snapshot is None,
        connection.cache().tracking_enabled ==> connection.cache().invalidated().immediate_answer()
            is None,
{
}

} // verus!
