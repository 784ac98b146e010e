//! The monitor: the registry together with the provider's manager handle and
//! the two top-level subscriptions, as a state machine.
//!
//! The caller talks to the provider and to the subscribers. It hands what the
//! provider returned or reported to the monitor, and the monitor answers with
//! what has to be subscribed, released and delivered.

use vstd::prelude::*;
use crate::media_control;
use crate::session_manager::{
    is_listed,
    listing_model,
    models,
    EventKind,
    InnerSession,
    ListedModel,
    ListedSession,
    Reconciliation,
    RegistryModel,
    SessionManager,
    SessionModel,
    SessionTokens,
};
use crate::types::{MediaInfo, MediaProps, PlaybackInfo, TimelineProps};
use crate::utils::{present, MonitorError, ProviderError};

verus! {

/// What subscribers to metadata changes receive.
#[derive(Clone, Debug, PartialEq, Eq)]
pub struct MediaPropsCallbackData {
    pub source_app_id: String,
    pub media_props: MediaProps,
}

/// What subscribers to playback changes receive.
#[derive(Clone, Debug, PartialEq, Eq)]
pub struct PlaybackInfoCallbackData {
    pub source_app_id: String,
    pub playback_info: PlaybackInfo,
}

/// What subscribers to timeline changes receive.
#[derive(Clone, Debug, PartialEq, Eq)]
pub struct TimelinePropsCallbackData {
    pub source_app_id: String,
    pub timeline_props: TimelineProps,
}

/// One event to deliver: the payload, and the subscribers to call with it, in
/// this order.
#[derive(Clone, Debug, PartialEq, Eq)]
pub struct Delivery<T> {
    pub payload: T,
    pub callbacks: Vec<u64>,
}

/// The three states of a monitor.
#[derive(Clone, Copy, Debug, PartialEq, Eq)]
pub enum MonitorState {
    Uninitialized,
    Initialized,
    Destroyed,
}

/// Everything a monitor held with the provider when it was destroyed, for the
/// caller to release.
#[derive(Clone, Debug, PartialEq, Eq)]
pub struct Teardown {
    pub manager: Option<u64>,
    pub sessions_changed_token: Option<i64>,
    pub current_session_changed_token: Option<i64>,
    pub sessions: Vec<InnerSession>,
}

/// Model of a [`Teardown`].
pub struct TeardownModel {
    pub manager: Option<u64>,
    pub sessions_changed_token: Option<i64>,
    pub current_session_changed_token: Option<i64>,
    pub sessions: Seq<SessionModel>,
}

impl View for Teardown {
    type V = TeardownModel;

    open spec fn view(&self) -> TeardownModel {
        TeardownModel {
            manager: self.manager,
            sessions_changed_token: self.sessions_changed_token,
            current_session_changed_token: self.current_session_changed_token,
            sessions: models(self.sessions@),
        }
    }
}

impl TeardownModel {
    /// Whether there is nothing to release.
    pub open spec fn is_empty(self) -> bool {
        &&& self.manager is None
        &&& self.sessions_changed_token is None
        &&& self.current_session_changed_token is None
        &&& self.sessions.len() == 0
    }
}

/// Model of the monitor.
pub struct MonitorModel {
    pub registry: RegistryModel,
    pub manager: Option<u64>,
    pub sessions_changed_token: Option<i64>,
    pub current_session_changed_token: Option<i64>,
    pub destroyed: bool,
}

impl MonitorModel {
    /// A monitor that was never initialized and has no subscribers.
    pub open spec fn fresh() -> MonitorModel {
        MonitorModel {
            registry: RegistryModel::empty(),
            manager: None,
            sessions_changed_token: None,
            current_session_changed_token: None,
            destroyed: false,
        }
    }

    /// The monitor's state: initialized while it holds a manager handle.
    pub open spec fn state(self) -> MonitorState {
        if self.manager is Some {
            MonitorState::Initialized
        } else if self.destroyed {
            MonitorState::Destroyed
        } else {
            MonitorState::Uninitialized
        }
    }

    /// Whether the monitor is initialized.
    pub open spec fn is_initialized(self) -> bool {
        self.manager is Some
    }

    /// What holds of every monitor that was made by `new` and changed by the
    /// monitor's operations: no id is tracked twice, and a monitor that is
    /// not initialized tracks no session and holds no subscription.
    pub open spec fn inv(self) -> bool {
        &&& self.registry.wf()
        &&& self.manager is None ==> {
            &&& self.registry.sessions.len() == 0
            &&& self.sessions_changed_token is None
            &&& self.current_session_changed_token is None
        }
    }

    /// The monitor after `initialize` was given a manager handle and the
    /// session list: unchanged if it was initialized already, else
    /// initialized and reconciled against the list.
    pub open spec fn initialized(self, manager: u64, listing: Seq<ListedModel>) -> MonitorModel {
        if self.manager is Some {
            self
        } else {
            MonitorModel {
                registry: self.registry.reconcile(listing),
                manager: Some(manager),
                destroyed: false,
                ..self
            }
        }
    }

    /// The monitor after the provider reported a changed session list:
    /// reconciled against the list while initialized, else unchanged.
    pub open spec fn sessions_changed(self, listing: Seq<ListedModel>) -> MonitorModel {
        if self.manager is Some {
            MonitorModel { registry: self.registry.reconcile(listing), ..self }
        } else {
            self
        }
    }

    /// The sessions that enter with a changed session list.
    pub open spec fn sessions_added(self, listing: Seq<ListedModel>) -> Seq<SessionModel> {
        if self.manager is Some {
            self.registry.added(listing)
        } else {
            Seq::empty()
        }
    }

    /// The sessions that leave with a changed session list.
    pub open spec fn sessions_removed(self, listing: Seq<ListedModel>) -> Seq<SessionModel> {
        if self.manager is Some {
            self.registry.removed(listing)
        } else {
            Seq::empty()
        }
    }

    /// The subscribers that are told of an event of this kind: those of the
    /// kind while the monitor is initialized, else none.
    pub open spec fn audience(self, kind: EventKind) -> Seq<u64> {
        if self.manager is Some {
            self.registry.callbacks(kind)
        } else {
            Seq::empty()
        }
    }

    /// Whether a change of a property group of the session with this id is
    /// delivered: the monitor is initialized, tracks the session, and the
    /// group could be read.
    pub open spec fn delivers_change(self, id: Seq<char>, readable: bool) -> bool {
        self.manager is Some && self.registry.contains(id) && readable
    }

    /// Whether an event that is not bound to a tracked session is delivered:
    /// the monitor is initialized and the event's payload could be read.
    pub open spec fn delivers(self, readable: bool) -> bool {
        self.manager is Some && readable
    }

    /// The monitor after `callback` subscribed to `kind`.
    pub open spec fn with_callback(self, kind: EventKind, callback: u64) -> MonitorModel {
        MonitorModel { registry: self.registry.with_callback(kind, callback), ..self }
    }

    /// The monitor after the tokens of a session's handlers were recorded.
    pub open spec fn session_subscribed(self, id: Seq<char>, tokens: SessionTokens) -> MonitorModel {
        if self.manager is Some && self.registry.contains(id) {
            MonitorModel { registry: self.registry.subscribed(id, tokens), ..self }
        } else {
            self
        }
    }

    /// The tokens to release after a session's handlers were subscribed.
    pub open spec fn session_released(self, id: Seq<char>, tokens: SessionTokens) -> SessionTokens {
        if self.manager is Some && self.registry.contains(id) {
            self.registry.tokens_of(id)
        } else {
            tokens
        }
    }

    /// The monitor after it was destroyed.
    pub open spec fn destroyed(self) -> MonitorModel {
        MonitorModel {
            registry: RegistryModel::empty(),
            manager: None,
            sessions_changed_token: None,
            current_session_changed_token: None,
            destroyed: true,
        }
    }

    /// What destroying the monitor hands back for release.
    pub open spec fn teardown(self) -> TeardownModel {
        TeardownModel {
            manager: self.manager,
            sessions_changed_token: self.sessions_changed_token,
            current_session_changed_token: self.current_session_changed_token,
            sessions: self.registry.sessions,
        }
    }
}

/// The monitor. A caller that shares it between threads keeps it behind one
/// lock and holds the lock for each call.
pub struct SMTCMonitor {
    manager: SessionManager,
    smtc_manager: Option<u64>,
    sessions_changed_token: Option<i64>,
    current_session_changed_token: Option<i64>,
    destroyed: bool,
}

impl View for SMTCMonitor {
    type V = MonitorModel;

    closed spec fn view(&self) -> MonitorModel {
        MonitorModel {
            registry: self.manager@,
            manager: self.smtc_manager,
            sessions_changed_token: self.sessions_changed_token,
            current_session_changed_token: self.current_session_changed_token,
            destroyed: self.destroyed,
        }
    }
}

impl SMTCMonitor {
    #[verifier::type_invariant]
    spec fn holds_inv(&self) -> bool {
        self@.inv()
    }

    /// Takes the registry out, leaving an empty one in its place.
    fn take_registry(&mut self) -> (r: SessionManager)
        ensures
            r@ == old(self)@.registry,
            r@.wf(),
            final(self)@ == (MonitorModel { registry: RegistryModel::empty(), ..old(self)@ }),
    {
        proof {
            use_type_invariant(&*self);
        }
        let mut registry = SessionManager::new();
        core::mem::swap(&mut self.manager, &mut registry);
        registry
    }

    /// Puts a registry in place.
    fn put_registry(&mut self, registry: SessionManager)
        requires
            registry@.wf(),
            old(self)@.manager is None ==> registry@.sessions.len() == 0,
        ensures
            final(self)@ == (MonitorModel { registry: registry@, ..old(self)@ }),
    {
        proof {
            use_type_invariant(&*self);
        }
        self.manager = registry;
    }

    /// A monitor that is not initialized and has no subscribers.
    pub fn new() -> (r: SMTCMonitor)
        ensures
            r@ == MonitorModel::fresh(),
            r@.inv(),
    {
        SMTCMonitor {
            manager: SessionManager::new(),
            smtc_manager: None,
            sessions_changed_token: None,
            current_session_changed_token: None,
            destroyed: false,
        }
    }

    /// The monitor's state.
    pub fn state(&self) -> (r: MonitorState)
        ensures
            r == self@.state(),
    {
        if self.smtc_manager.is_some() {
            MonitorState::Initialized
        } else if self.destroyed {
            MonitorState::Destroyed
        } else {
            MonitorState::Uninitialized
        }
    }

    /// Whether the monitor is initialized.
    pub fn is_initialized(&self) -> (r: bool)
        ensures
            r == self@.is_initialized(),
    {
        self.smtc_manager.is_some()
    }

    /// The registry.
    pub fn registry(&self) -> (r: &SessionManager)
        ensures
            r@ == self@.registry,
    {
        &self.manager
    }

    /// The provider's manager handle, while the monitor is initialized.
    pub fn get_manager(&self) -> (r: Result<u64, MonitorError>)
        ensures
            r == match self@.manager {
                Some(handle) => Ok::<u64, MonitorError>(handle),
                None => Err::<u64, MonitorError>(MonitorError::NotInitialized),
            },
    {
        match self.smtc_manager {
            Some(handle) => Ok(handle),
            None => Err(MonitorError::NotInitialized),
        }
    }

    /// Initializes the monitor with the outcome of asking the provider for
    /// its manager and with the provider's session list.
    ///
    /// On a monitor that is initialized already nothing happens and the
    /// result is `Ok(None)`: there is nothing to subscribe. Else, where the
    /// provider gave no manager, the call fails with the provider's message
    /// and nothing changes; where it gave one, the monitor holds it and is
    /// reconciled against the list. The result then names the sessions whose
    /// handlers the caller has to subscribe, and the caller subscribes to the
    /// provider's two top-level notifications as well; it reports the tokens
    /// with `subscribe_session`, `set_sessions_changed_token` and
    /// `set_current_session_changed_token`.
    pub fn initialize(
        &mut self,
        manager: Result<u64, ProviderError>,
        listing: &Vec<ListedSession>,
    ) -> (r: Result<Option<Reconciliation>, MonitorError>)
        ensures
            old(self)@.is_initialized() ==> {
                &&& final(self)@ == old(self)@
                &&& r == Ok::<Option<Reconciliation>, MonitorError>(None)
            },
            !old(self)@.is_initialized() ==> match manager {
                Ok(handle) => {
                    &&& final(self)@ == old(self)@.initialized(handle, listing_model(listing@))
                    &&& r is Ok
                    &&& r->Ok_0 is Some
                    &&& models(r->Ok_0->0.added@) == old(self)@.registry.added(
                        listing_model(listing@),
                    )
                    &&& models(r->Ok_0->0.removed@) == old(self)@.registry.removed(
                        listing_model(listing@),
                    )
                },
                Err(e) => {
                    &&& final(self)@ == old(self)@
                    &&& r == Err::<Option<Reconciliation>, MonitorError>(
                        MonitorError::ProviderUnavailable(e.message),
                    )
                },
            },
            final(self)@.inv(),
    {
        proof {
            use_type_invariant(&*self);
        }
        if self.smtc_manager.is_some() {
            return Ok(None);
        }
        match media_control::create_manager(manager) {
            Ok(handle) => {
                self.smtc_manager = Some(handle);
                self.destroyed = false;
                let mut registry = self.take_registry();
                let change = registry.reconcile(listing);
                self.put_registry(registry);
                Ok(Some(change))
            },
            Err(e) => Err(e),
        }
    }

    /// Takes in a session list that the provider reported as changed.
    ///
    /// While the monitor is initialized it is reconciled against the list:
    /// the result names the sessions that entered and left, and the
    /// subscribers to tell of each session that left. Else nothing happens and
    /// nothing is to be done.
    pub fn handle_sessions_changed(&mut self, listing: &Vec<ListedSession>) -> (r: (
        Reconciliation,
        Vec<u64>,
    ))
        ensures
            final(self)@ == old(self)@.sessions_changed(listing_model(listing@)),
            models(r.0.added@) == old(self)@.sessions_added(listing_model(listing@)),
            models(r.0.removed@) == old(self)@.sessions_removed(listing_model(listing@)),
            r.1@ == old(self)@.audience(EventKind::SessionRemoved),
            final(self)@.inv(),
    {
        proof {
            use_type_invariant(&*self);
        }
        if self.smtc_manager.is_some() {
            let mut registry = self.take_registry();
            let change = registry.reconcile(listing);
            let callbacks = registry.fan_out(EventKind::SessionRemoved);
            self.put_registry(registry);
            (change, callbacks)
        } else {
            let change = Reconciliation { added: Vec::new(), removed: Vec::new() };
            assert(models(change.added@) =~= Seq::empty());
            assert(models(change.removed@) =~= Seq::empty());
            (change, Vec::new())
        }
    }

    /// Records the tokens that subscribing the three handlers of a session
    /// gave. Returns the tokens that the caller has to release: those the
    /// session held before, or the given ones where the monitor does not track
    /// the session any more.
    pub fn subscribe_session(&mut self, id: &String, tokens: SessionTokens) -> (released:
        SessionTokens)
        ensures
            final(self)@ == old(self)@.session_subscribed(id@, tokens),
            released == old(self)@.session_released(id@, tokens),
            final(self)@.inv(),
    {
        proof {
            use_type_invariant(&*self);
        }
        if self.smtc_manager.is_some() {
            let mut registry = self.take_registry();
            let released = registry.subscribe(id, tokens);
            self.put_registry(registry);
            released
        } else {
            tokens
        }
    }

    /// Records the token of the subscription to changes of the session list.
    /// Returns the token that the caller has to release: the one held before,
    /// or the given one where the monitor is not initialized.
    pub fn set_sessions_changed_token(&mut self, token: Option<i64>) -> (released: Option<i64>)
        ensures
            old(self)@.is_initialized() ==> final(self)@ == (MonitorModel {
                sessions_changed_token: token,
                ..old(self)@
            }) && released == old(self)@.sessions_changed_token,
            !old(self)@.is_initialized() ==> final(self)@ == old(self)@ && released == token,
            final(self)@.inv(),
    {
        proof {
            use_type_invariant(&*self);
        }
        if self.smtc_manager.is_some() {
            let released = self.sessions_changed_token;
            self.sessions_changed_token = token;
            released
        } else {
            token
        }
    }

    /// Records the token of the subscription to changes of the current
    /// session. Returns the token that the caller has to release: the one held
    /// before, or the given one where the monitor is not initialized.
    pub fn set_current_session_changed_token(&mut self, token: Option<i64>) -> (released: Option<
        i64,
    >)
        ensures
            old(self)@.is_initialized() ==> final(self)@ == (MonitorModel {
                current_session_changed_token: token,
                ..old(self)@
            }) && released == old(self)@.current_session_changed_token,
            !old(self)@.is_initialized() ==> final(self)@ == old(self)@ && released == token,
            final(self)@.inv(),
    {
        proof {
            use_type_invariant(&*self);
        }
        if self.smtc_manager.is_some() {
            let released = self.current_session_changed_token;
            self.current_session_changed_token = token;
            released
        } else {
            token
        }
    }

    /// The delivery for a session that entered the registry, given the
    /// outcome of reading its snapshot: none where the read failed or the
    /// monitor is not initialized.
    pub fn session_added(&self, info: Option<MediaInfo>) -> (r: Option<Delivery<MediaInfo>>)
        ensures
            r is Some <==> self@.delivers(info is Some),
            r is Some ==> r->0.payload == info->0 && r->0.callbacks@ == self@.audience(
                EventKind::SessionAdded,
            ),
    {
        if self.smtc_manager.is_none() {
            return None;
        }
        match info {
            Some(payload) => Some(
                Delivery { payload, callbacks: self.manager.fan_out(EventKind::SessionAdded) },
            ),
            None => None,
        }
    }

    /// The delivery for a change of the current session, given the id of the
    /// session that is current now: none where there is no current session,
    /// its id could not be read, or the monitor is not initialized.
    pub fn handle_current_session_changed(&self, current_id: Option<String>) -> (r: Option<
        Delivery<String>,
    >)
        ensures
            r is Some <==> self@.delivers(current_id is Some),
            r is Some ==> r->0.payload == current_id->0 && r->0.callbacks@ == self@.audience(
                EventKind::CurrentSessionChanged,
            ),
    {
        if self.smtc_manager.is_none() {
            return None;
        }
        match current_id {
            Some(payload) => Some(
                Delivery {
                    payload,
                    callbacks: self.manager.fan_out(EventKind::CurrentSessionChanged),
                },
            ),
            None => None,
        }
    }

    /// The delivery for a change of a session's metadata, given the outcome
    /// of reading it anew: none where the read failed, the session is not
    /// tracked (any more), or the monitor is not initialized.
    pub fn handle_media_properties_changed(&self, id: String, read: Option<MediaProps>) -> (r:
        Option<Delivery<MediaPropsCallbackData>>)
        ensures
            r is Some <==> self@.delivers_change(id@, read is Some),
            r is Some ==> {
                &&& r->0.payload == (MediaPropsCallbackData {
                    source_app_id: id,
                    media_props: read->0,
                })
                &&& r->0.callbacks@ == self@.audience(EventKind::MediaPropertiesChanged)
            },
    {
        if self.smtc_manager.is_none() || !self.manager.contains(&id) {
            return None;
        }
        match read {
            Some(media_props) => Some(
                Delivery {
                    payload: MediaPropsCallbackData { source_app_id: id, media_props },
                    callbacks: self.manager.fan_out(EventKind::MediaPropertiesChanged),
                },
            ),
            None => None,
        }
    }

    /// The delivery for a change of a session's playback state, given the
    /// outcome of reading it anew: none where the read failed, the session is
    /// not tracked (any more), or the monitor is not initialized.
    pub fn handle_playback_info_changed(&self, id: String, read: Option<PlaybackInfo>) -> (r:
        Option<Delivery<PlaybackInfoCallbackData>>)
        ensures
            r is Some <==> self@.delivers_change(id@, read is Some),
            r is Some ==> {
                &&& r->0.payload == (PlaybackInfoCallbackData {
                    source_app_id: id,
                    playback_info: read->0,
                })
                &&& r->0.callbacks@ == self@.audience(EventKind::PlaybackInfoChanged)
            },
    {
        if self.smtc_manager.is_none() || !self.manager.contains(&id) {
            return None;
        }
        match read {
            Some(playback_info) => Some(
                Delivery {
                    payload: PlaybackInfoCallbackData { source_app_id: id, playback_info },
                    callbacks: self.manager.fan_out(EventKind::PlaybackInfoChanged),
                },
            ),
            None => None,
        }
    }

    /// The delivery for a change of a session's timeline, given the outcome
    /// of reading it anew: none where the read failed, the session is not
    /// tracked (any more), or the monitor is not initialized.
    pub fn handle_timeline_properties_changed(&self, id: String, read: Option<TimelineProps>) -> (r:
        Option<Delivery<TimelinePropsCallbackData>>)
        ensures
            r is Some <==> self@.delivers_change(id@, read is Some),
            r is Some ==> {
                &&& r->0.payload == (TimelinePropsCallbackData {
                    source_app_id: id,
                    timeline_props: read->0,
                })
                &&& r->0.callbacks@ == self@.audience(EventKind::TimelinePropertiesChanged)
            },
    {
        if self.smtc_manager.is_none() || !self.manager.contains(&id) {
            return None;
        }
        match read {
            Some(timeline_props) => Some(
                Delivery {
                    payload: TimelinePropsCallbackData { source_app_id: id, timeline_props },
                    callbacks: self.manager.fan_out(EventKind::TimelinePropertiesChanged),
                },
            ),
            None => None,
        }
    }

    /// Appends a subscriber to the list of one event kind.
    fn add_callback(&mut self, kind: EventKind, callback: u64)
        ensures
            final(self)@ == old(self)@.with_callback(kind, callback),
            final(self)@.inv(),
    {
        proof {
            use_type_invariant(&*self);
        }
        let mut registry = self.take_registry();
        registry.add_callback(kind, callback);
        self.put_registry(registry);
    }

    /// Subscribes `callback` to sessions that enter. Valid in any state.
    pub fn on_session_added(&mut self, callback: u64)
        ensures
            final(self)@ == old(self)@.with_callback(EventKind::SessionAdded, callback),
            final(self)@.inv(),
    {
        self.add_callback(EventKind::SessionAdded, callback);
    }

    /// Subscribes `callback` to sessions that leave. Valid in any state.
    pub fn on_session_removed(&mut self, callback: u64)
        ensures
            final(self)@ == old(self)@.with_callback(EventKind::SessionRemoved, callback),
            final(self)@.inv(),
    {
        self.add_callback(EventKind::SessionRemoved, callback);
    }

    /// Subscribes `callback` to metadata changes. Valid in any state.
    pub fn on_media_properties_changed(&mut self, callback: u64)
        ensures
            final(self)@ == old(self)@.with_callback(EventKind::MediaPropertiesChanged, callback),
            final(self)@.inv(),
    {
        self.add_callback(EventKind::MediaPropertiesChanged, callback);
    }

    /// Subscribes `callback` to playback changes. Valid in any state.
    pub fn on_playback_info_changed(&mut self, callback: u64)
        ensures
            final(self)@ == old(self)@.with_callback(EventKind::PlaybackInfoChanged, callback),
            final(self)@.inv(),
    {
        self.add_callback(EventKind::PlaybackInfoChanged, callback);
    }

    /// Subscribes `callback` to timeline changes. Valid in any state.
    pub fn on_timeline_properties_changed(&mut self, callback: u64)
        ensures
            final(self)@ == old(self)@.with_callback(
                EventKind::TimelinePropertiesChanged,
                callback,
            ),
            final(self)@.inv(),
    {
        self.add_callback(EventKind::TimelinePropertiesChanged, callback);
    }

    /// Subscribes `callback` to changes of the current session. Valid in any
    /// state.
    pub fn on_current_session_changed(&mut self, callback: u64)
        ensures
            final(self)@ == old(self)@.with_callback(EventKind::CurrentSessionChanged, callback),
            final(self)@.inv(),
    {
        self.add_callback(EventKind::CurrentSessionChanged, callback);
    }

    /// Destroys the monitor: it forgets the manager, both top-level
    /// subscriptions, every session and every subscriber. The result holds all
    /// that the caller has to release with the provider. On a monitor that
    /// holds nothing this changes nothing but the state.
    pub fn destroy(&mut self) -> (r: Teardown)
        ensures
            final(self)@ == old(self)@.destroyed(),
            r@ == old(self)@.teardown(),
            final(self)@.inv(),
    {
        proof {
            use_type_invariant(&*self);
        }
        let sessions_changed_token = self.sessions_changed_token;
        self.sessions_changed_token = None;
        let current_session_changed_token = self.current_session_changed_token;
        self.current_session_changed_token = None;
        let mut registry = self.take_registry();
        let sessions = registry.clear();
        let manager = self.smtc_manager;
        self.smtc_manager = None;
        self.destroyed = true;
        Teardown { manager, sessions_changed_token, current_session_changed_token, sessions }
    }

    /// The current session's snapshot, given what the provider reported (see
    /// `media_control::get_current_session`). Fails while the monitor is not
    /// initialized.
    pub fn get_current_session(&self, current: Option<Option<MediaInfo>>) -> (r: Result<
        Option<MediaInfo>,
        MonitorError,
    >)
        ensures
            r is Ok <==> self@.is_initialized(),
            r is Ok ==> r->Ok_0 == match current {
                Some(snapshot) => snapshot,
                None => None::<MediaInfo>,
            },
            r is Err ==> r->Err_0 == MonitorError::NotInitialized,
    {
        if self.smtc_manager.is_none() {
            return Err(MonitorError::NotInitialized);
        }
        Ok(media_control::get_current_session(current))
    }

    /// The snapshots of all sessions, given one read per listed session:
    /// sessions whose read failed are left out. Fails while the monitor is not
    /// initialized.
    pub fn get_all_sessions(&self, reads: Vec<Option<MediaInfo>>) -> (r: Result<
        Vec<MediaInfo>,
        MonitorError,
    >)
        ensures
            r is Ok <==> self@.is_initialized(),
            r is Ok ==> r->Ok_0@ == present(reads@),
            r is Err ==> r->Err_0 == MonitorError::NotInitialized,
    {
        if self.smtc_manager.is_none() {
            return Err(MonitorError::NotInitialized);
        }
        Ok(media_control::get_all_sessions(reads))
    }

    /// Finds a session by id in the provider's session list: the position of
    /// the first entry with this id, or nothing (which is no failure) exactly
    /// if the list holds no such entry. Fails while the monitor is not
    /// initialized.
    pub fn get_session_by_id(&self, listing: &Vec<ListedSession>, source_app_id: &String) -> (r:
        Result<Option<usize>, MonitorError>)
        ensures
            r is Ok <==> self@.is_initialized(),
            r is Ok ==> (r->Ok_0 is Some <==> is_listed(listing_model(listing@), source_app_id@)),
            r is Ok && r->Ok_0 is Some ==> media_control::first_listed(
                listing@,
                source_app_id@,
                r->Ok_0->0 as int,
            ),
            r is Err ==> r->Err_0 == MonitorError::NotInitialized,
    {
        if self.smtc_manager.is_none() {
            return Err(MonitorError::NotInitialized);
        }
        Ok(media_control::get_session_by_id(listing, source_app_id))
    }
}

} // verus!
