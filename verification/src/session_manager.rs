//! The session registry: which sessions are tracked, which subscription
//! tokens each of them holds, and which subscribers are told of what.
//!
//! The registry's behaviour is defined on [`RegistryModel`], a mathematical
//! model of its contents; every operation of [`SessionManager`] is proved to
//! do to its model what the corresponding model function says.

use vstd::prelude::*;

verus! {

/// The six kinds of event that subscribers can ask for.
#[derive(Clone, Copy, Debug, PartialEq, Eq)]
pub enum EventKind {
    SessionAdded,
    SessionRemoved,
    MediaPropertiesChanged,
    PlaybackInfoChanged,
    TimelinePropertiesChanged,
    CurrentSessionChanged,
}

/// The subscription tokens of one session, one per per-session event kind.
/// A token is present while that subscription is active with the provider.
#[derive(Clone, Copy, Debug, PartialEq, Eq)]
pub struct SessionTokens {
    pub media_props_token: Option<i64>,
    pub playback_info_token: Option<i64>,
    pub timeline_props_token: Option<i64>,
}

impl SessionTokens {
    /// No subscription active.
    pub open spec fn none() -> SessionTokens {
        SessionTokens {
            media_props_token: None,
            playback_info_token: None,
            timeline_props_token: None,
        }
    }

    /// No subscription active.
    pub fn empty() -> (r: SessionTokens)
        ensures
            r == SessionTokens::none(),
    {
        SessionTokens {
            media_props_token: None,
            playback_info_token: None,
            timeline_props_token: None,
        }
    }

    /// Whether no subscription is active.
    pub fn is_empty(&self) -> (r: bool)
        ensures
            r == (*self == SessionTokens::none()),
    {
        self.media_props_token.is_none() && self.playback_info_token.is_none()
            && self.timeline_props_token.is_none()
    }
}

/// One entry of the provider's session list: the caller's handle for the
/// session and the session's id, absent where the id could not be read.
#[derive(Clone, Debug, PartialEq, Eq)]
pub struct ListedSession {
    pub session: u64,
    pub id: Option<String>,
}

/// Model of a [`ListedSession`].
pub struct ListedModel {
    pub session: u64,
    pub id: Option<Seq<char>>,
}

impl View for ListedSession {
    type V = ListedModel;

    open spec fn view(&self) -> ListedModel {
        ListedModel {
            session: self.session,
            id: match self.id {
                Some(id) => Some(id@),
                None => None,
            },
        }
    }
}

/// The model of a session list.
pub open spec fn listing_model(listing: Seq<ListedSession>) -> Seq<ListedModel> {
    listing.map_values(|e: ListedSession| e@)
}

/// Whether a session list holds a session with this id.
pub open spec fn is_listed(listing: Seq<ListedModel>, id: Seq<char>) -> bool {
    exists|i: int| 0 <= i < listing.len() && (#[trigger] listing[i]).id == Some(id)
}

/// The ids that a session list holds.
pub open spec fn listed_ids(listing: Seq<ListedModel>) -> Set<Seq<char>> {
    Set::new(|id: Seq<char>| is_listed(listing, id))
}

/// A tracked session: the provider session it stands for and the tokens of
/// its active subscriptions.
#[derive(Clone, Debug, PartialEq, Eq)]
pub struct InnerSession {
    pub id: String,
    pub session: u64,
    pub media_props_token: Option<i64>,
    pub playback_info_token: Option<i64>,
    pub timeline_props_token: Option<i64>,
}

/// Model of an [`InnerSession`].
pub struct SessionModel {
    pub id: Seq<char>,
    pub session: u64,
    pub tokens: SessionTokens,
}

impl SessionModel {
    /// A session that holds no subscription yet.
    pub open spec fn fresh(id: Seq<char>, session: u64) -> SessionModel {
        SessionModel { id, session, tokens: SessionTokens::none() }
    }

    /// The same session holding `tokens`.
    pub open spec fn with_tokens(self, tokens: SessionTokens) -> SessionModel {
        SessionModel { tokens, ..self }
    }
}

impl View for InnerSession {
    type V = SessionModel;

    open spec fn view(&self) -> SessionModel {
        SessionModel {
            id: self.id@,
            session: self.session,
            tokens: SessionTokens {
                media_props_token: self.media_props_token,
                playback_info_token: self.playback_info_token,
                timeline_props_token: self.timeline_props_token,
            },
        }
    }
}

impl InnerSession {
    /// A handle for `session` that holds no subscription yet.
    pub fn new(id: String, session: u64) -> (r: InnerSession)
        ensures
            r@ == SessionModel::fresh(id@, session),
            r.id == id,
    {
        InnerSession {
            id,
            session,
            media_props_token: None,
            playback_info_token: None,
            timeline_props_token: None,
        }
    }

    /// The tokens of the subscriptions that are active.
    pub fn tokens(&self) -> (r: SessionTokens)
        ensures
            r == self@.tokens,
    {
        SessionTokens {
            media_props_token: self.media_props_token,
            playback_info_token: self.playback_info_token,
            timeline_props_token: self.timeline_props_token,
        }
    }

    /// Records the tokens that subscribing the three handlers gave. Returns
    /// the tokens held before, which the caller has to release.
    pub fn subscribe(&mut self, tokens: SessionTokens) -> (released: SessionTokens)
        ensures
            final(self)@ == old(self)@.with_tokens(tokens),
            final(self).id == old(self).id,
            released == old(self)@.tokens,
    {
        let released = self.tokens();
        self.media_props_token = tokens.media_props_token;
        self.playback_info_token = tokens.playback_info_token;
        self.timeline_props_token = tokens.timeline_props_token;
        released
    }

    /// Gives up every subscription. Returns the tokens held before, which the
    /// caller has to release; on a handle without subscriptions there are none.
    pub fn unsubscribe(&mut self) -> (released: SessionTokens)
        ensures
            final(self)@ == old(self)@.with_tokens(SessionTokens::none()),
            final(self).id == old(self).id,
            released == old(self)@.tokens,
    {
        self.subscribe(SessionTokens::empty())
    }

    /// A second handle with the same contents.
    pub fn duplicate(&self) -> (r: InnerSession)
        ensures
            r == *self,
    {
        InnerSession {
            id: self.id.clone(),
            session: self.session,
            media_props_token: self.media_props_token,
            playback_info_token: self.playback_info_token,
            timeline_props_token: self.timeline_props_token,
        }
    }
}

/// The models of a sequence of handles.
pub open spec fn models(records: Seq<InnerSession>) -> Seq<SessionModel> {
    records.map_values(|r: InnerSession| r@)
}

/// Whether one of the sessions has this id.
pub open spec fn contains_id(sessions: Seq<SessionModel>, id: Seq<char>) -> bool {
    exists|i: int| 0 <= i < sessions.len() && (#[trigger] sessions[i]).id == id
}

/// Whether no two of the sessions share an id.
pub open spec fn distinct_ids(sessions: Seq<SessionModel>) -> bool {
    forall|i: int, j: int|
        0 <= i < j < sessions.len() ==> (#[trigger] sessions[i]).id != (#[trigger] sessions[j]).id
}

/// The sessions that the list holds (`listed`) or no longer holds
/// (`!listed`), in their order.
pub open spec fn split_by_listing(
    sessions: Seq<SessionModel>,
    listing: Seq<ListedModel>,
    listed: bool,
) -> Seq<SessionModel>
    decreases sessions.len(),
{
    if sessions.len() == 0 {
        Seq::empty()
    } else {
        let rest = split_by_listing(sessions.drop_last(), listing, listed);
        if is_listed(listing, sessions.last().id) == listed {
            rest.push(sessions.last())
        } else {
            rest
        }
    }
}

/// The sessions of `listing` that are new to a registry holding `known`: one
/// fresh entry for the first occurrence of each id that is not among `known`,
/// in the list's order.
pub open spec fn new_sessions(known: Seq<SessionModel>, listing: Seq<ListedModel>) -> Seq<
    SessionModel,
>
    decreases listing.len(),
{
    if listing.len() == 0 {
        Seq::empty()
    } else {
        let before = new_sessions(known, listing.drop_last());
        let e = listing.last();
        if e.id is Some && !contains_id(known, e.id->0) && !is_listed(
            listing.drop_last(),
            e.id->0,
        ) {
            before.push(SessionModel::fresh(e.id->0, e.session))
        } else {
            before
        }
    }
}

/// Model of the registry: the tracked sessions in the order in which they
/// were registered, and the six subscriber lists in registration order.
pub struct RegistryModel {
    pub sessions: Seq<SessionModel>,
    pub session_added: Seq<u64>,
    pub session_removed: Seq<u64>,
    pub media_props: Seq<u64>,
    pub playback_info: Seq<u64>,
    pub timeline_props: Seq<u64>,
    pub current_session_changed: Seq<u64>,
}

impl RegistryModel {
    /// The registry without sessions and without subscribers.
    pub open spec fn empty() -> RegistryModel {
        RegistryModel {
            sessions: Seq::empty(),
            session_added: Seq::empty(),
            session_removed: Seq::empty(),
            media_props: Seq::empty(),
            playback_info: Seq::empty(),
            timeline_props: Seq::empty(),
            current_session_changed: Seq::empty(),
        }
    }

    /// The registry's invariant: no id is tracked twice.
    pub open spec fn wf(self) -> bool {
        distinct_ids(self.sessions)
    }

    /// Whether a session with this id is tracked.
    pub open spec fn contains(self, id: Seq<char>) -> bool {
        contains_id(self.sessions, id)
    }

    /// The ids that are tracked.
    pub open spec fn known(self) -> Set<Seq<char>> {
        Set::new(|id: Seq<char>| self.contains(id))
    }

    /// The subscribers of one event kind, in registration order.
    pub open spec fn callbacks(self, kind: EventKind) -> Seq<u64> {
        match kind {
            EventKind::SessionAdded => self.session_added,
            EventKind::SessionRemoved => self.session_removed,
            EventKind::MediaPropertiesChanged => self.media_props,
            EventKind::PlaybackInfoChanged => self.playback_info,
            EventKind::TimelinePropertiesChanged => self.timeline_props,
            EventKind::CurrentSessionChanged => self.current_session_changed,
        }
    }

    /// The registry after `callback` subscribed to `kind`.
    pub open spec fn with_callback(self, kind: EventKind, callback: u64) -> RegistryModel {
        match kind {
            EventKind::SessionAdded => RegistryModel {
                session_added: self.session_added.push(callback),
                ..self
            },
            EventKind::SessionRemoved => RegistryModel {
                session_removed: self.session_removed.push(callback),
                ..self
            },
            EventKind::MediaPropertiesChanged => RegistryModel {
                media_props: self.media_props.push(callback),
                ..self
            },
            EventKind::PlaybackInfoChanged => RegistryModel {
                playback_info: self.playback_info.push(callback),
                ..self
            },
            EventKind::TimelinePropertiesChanged => RegistryModel {
                timeline_props: self.timeline_props.push(callback),
                ..self
            },
            EventKind::CurrentSessionChanged => RegistryModel {
                current_session_changed: self.current_session_changed.push(callback),
                ..self
            },
        }
    }

    /// The registry after registering a session: a fresh entry at the end,
    /// unless the id is tracked already.
    pub open spec fn registered(self, id: Seq<char>, session: u64) -> RegistryModel {
        if self.contains(id) {
            self
        } else {
            RegistryModel { sessions: self.sessions.push(SessionModel::fresh(id, session)), ..self }
        }
    }

    /// The sessions that a reconciliation against `listing` adds.
    pub open spec fn added(self, listing: Seq<ListedModel>) -> Seq<SessionModel> {
        new_sessions(self.sessions, listing)
    }

    /// The sessions that a reconciliation against `listing` removes, with the
    /// tokens they held.
    pub open spec fn removed(self, listing: Seq<ListedModel>) -> Seq<SessionModel> {
        split_by_listing(self.sessions, listing, false)
    }

    /// The sessions that a reconciliation against `listing` leaves in place.
    pub open spec fn kept(self, listing: Seq<ListedModel>) -> Seq<SessionModel> {
        split_by_listing(self.sessions, listing, true)
    }

    /// The registry after a reconciliation against `listing`: the sessions
    /// that stay, followed by the new ones; the subscribers are untouched.
    pub open spec fn reconcile(self, listing: Seq<ListedModel>) -> RegistryModel {
        RegistryModel { sessions: self.kept(listing) + self.added(listing), ..self }
    }

    /// The sessions after the one with this id took `tokens`.
    pub open spec fn sessions_subscribed(
        sessions: Seq<SessionModel>,
        id: Seq<char>,
        tokens: SessionTokens,
    ) -> Seq<SessionModel> {
        Seq::new(
            sessions.len(),
            |i: int|
                if sessions[i].id == id {
                    sessions[i].with_tokens(tokens)
                } else {
                    sessions[i]
                },
        )
    }

    /// The registry after the session with this id took `tokens`.
    pub open spec fn subscribed(self, id: Seq<char>, tokens: SessionTokens) -> RegistryModel {
        RegistryModel { sessions: Self::sessions_subscribed(self.sessions, id, tokens), ..self }
    }

    /// The tokens that the session with this id holds; none if no such
    /// session is tracked.
    pub open spec fn tokens_of(self, id: Seq<char>) -> SessionTokens {
        if self.contains(id) {
            let i = choose|i: int| 0 <= i < self.sessions.len() && (#[trigger] self.sessions[i]).id == id;
            self.sessions[i].tokens
        } else {
            SessionTokens::none()
        }
    }

    /// The registry without sessions; the subscribers stay.
    pub open spec fn without_sessions(self) -> RegistryModel {
        RegistryModel { sessions: Seq::empty(), ..self }
    }
}

/// A session is among those split off exactly if it was there and the list
/// holds it, or does not, as asked.
pub proof fn lemma_split_contains(
    sessions: Seq<SessionModel>,
    listing: Seq<ListedModel>,
    listed: bool,
    id: Seq<char>,
)
    ensures
        contains_id(split_by_listing(sessions, listing, listed), id) <==> (contains_id(sessions, id)
            && is_listed(listing, id) == listed),
    decreases sessions.len(),
{
    if sessions.len() > 0 {
        let rest = sessions.drop_last();
        let last = sessions.last();
        let out_rest = split_by_listing(rest, listing, listed);
        let out = split_by_listing(sessions, listing, listed);
        lemma_split_contains(rest, listing, listed, id);
        if contains_id(out, id) {
            let i = choose|i: int| 0 <= i < out.len() && (#[trigger] out[i]).id == id;
            if i < out_rest.len() {
                assert(out_rest[i].id == id);
                let k = choose|k: int| 0 <= k < rest.len() && (#[trigger] rest[k]).id == id;
                assert(sessions[k].id == id);
            } else {
                assert(sessions[sessions.len() - 1].id == id);
            }
        }
        if contains_id(sessions, id) && is_listed(listing, id) == listed {
            let k = choose|k: int| 0 <= k < sessions.len() && (#[trigger] sessions[k]).id == id;
            if k < rest.len() {
                assert(rest[k].id == id);
                let i = choose|i: int| 0 <= i < out_rest.len() && (#[trigger] out_rest[i]).id == id;
                assert(out[i].id == id);
            } else {
                assert(out[out.len() - 1].id == id);
            }
        }
    }
}

/// Splitting keeps ids distinct.
pub proof fn lemma_split_distinct(
    sessions: Seq<SessionModel>,
    listing: Seq<ListedModel>,
    listed: bool,
)
    requires
        distinct_ids(sessions),
    ensures
        distinct_ids(split_by_listing(sessions, listing, listed)),
    decreases sessions.len(),
{
    if sessions.len() > 0 {
        let rest = sessions.drop_last();
        let last = sessions.last();
        let out_rest = split_by_listing(rest, listing, listed);
        let out = split_by_listing(sessions, listing, listed);
        assert(distinct_ids(rest)) by {
            assert forall|i: int, j: int| 0 <= i < j < rest.len() implies (#[trigger] rest[i]).id
                != (#[trigger] rest[j]).id by {
                assert(sessions[i].id != sessions[j].id);
            }
        }
        lemma_split_distinct(rest, listing, listed);
        lemma_split_contains(rest, listing, listed, last.id);
        if contains_id(rest, last.id) {
            let k = choose|k: int| 0 <= k < rest.len() && (#[trigger] rest[k]).id == last.id;
            assert(sessions[k].id != sessions[sessions.len() - 1].id);
        }
        assert forall|i: int, j: int| 0 <= i < j < out.len() implies (#[trigger] out[i]).id != (
        #[trigger] out[j]).id by {
            if j < out_rest.len() {
                assert(out_rest[i].id != out_rest[j].id);
            } else {
                assert(out_rest[i].id == out[i].id);
            }
        }
    }
}

/// Every session is in exactly one of the two parts of a split, as it was.
pub proof fn lemma_split_keeps_sessions(
    sessions: Seq<SessionModel>,
    listing: Seq<ListedModel>,
    i: int,
)
    requires
        0 <= i < sessions.len(),
    ensures
        split_by_listing(sessions, listing, is_listed(listing, sessions[i].id)).contains(
            sessions[i],
        ),
    decreases sessions.len(),
{
    let listed = is_listed(listing, sessions[i].id);
    let rest = sessions.drop_last();
    let out_rest = split_by_listing(rest, listing, listed);
    let out = split_by_listing(sessions, listing, listed);
    if i < sessions.len() - 1 {
        lemma_split_keeps_sessions(rest, listing, i);
        assert(rest[i] == sessions[i]);
        let k = choose|k: int| 0 <= k < out_rest.len() && out_rest[k] == sessions[i];
        assert(out[k] == sessions[i]);
    } else {
        assert(out[out.len() - 1] == sessions[i]);
    }
}

/// A session is among the new ones exactly if the list holds its id and the
/// registry does not.
pub proof fn lemma_new_sessions_contains(
    known: Seq<SessionModel>,
    listing: Seq<ListedModel>,
    id: Seq<char>,
)
    ensures
        contains_id(new_sessions(known, listing), id) <==> (is_listed(listing, id) && !contains_id(
            known,
            id,
        )),
    decreases listing.len(),
{
    if listing.len() > 0 {
        let rest = listing.drop_last();
        let e = listing.last();
        let out_rest = new_sessions(known, rest);
        let out = new_sessions(known, listing);
        lemma_new_sessions_contains(known, rest, id);
        if contains_id(out, id) {
            let i = choose|i: int| 0 <= i < out.len() && (#[trigger] out[i]).id == id;
            if i < out_rest.len() {
                assert(out_rest[i].id == id);
                let k = choose|k: int| 0 <= k < rest.len() && (#[trigger] rest[k]).id == Some(id);
                assert(listing[k].id == Some(id));
            } else {
                assert(listing[listing.len() - 1].id == Some(id));
            }
        }
        if is_listed(listing, id) && !contains_id(known, id) {
            if is_listed(rest, id) {
                let i = choose|i: int| 0 <= i < out_rest.len() && (#[trigger] out_rest[i]).id == id;
                assert(out[i].id == id);
            } else {
                let k = choose|k: int|
                    0 <= k < listing.len() && (#[trigger] listing[k]).id == Some(id);
                if k < rest.len() {
                    assert(rest[k].id == Some(id));
                }
                assert(e.id == Some(id));
                assert(out[out.len() - 1].id == id);
            }
        }
    }
}

/// No id occurs twice among the new sessions, and each of them is fresh.
pub proof fn lemma_new_sessions_distinct(known: Seq<SessionModel>, listing: Seq<ListedModel>)
    ensures
        distinct_ids(new_sessions(known, listing)),
        forall|i: int|
            0 <= i < new_sessions(known, listing).len() ==> (#[trigger] new_sessions(
                known,
                listing,
            )[i]).tokens == SessionTokens::none(),
    decreases listing.len(),
{
    if listing.len() > 0 {
        let rest = listing.drop_last();
        let e = listing.last();
        let out_rest = new_sessions(known, rest);
        let out = new_sessions(known, listing);
        lemma_new_sessions_distinct(known, rest);
        if e.id is Some {
            lemma_new_sessions_contains(known, rest, e.id->0);
        }
        assert forall|i: int, j: int| 0 <= i < j < out.len() implies (#[trigger] out[i]).id != (
        #[trigger] out[j]).id by {
            if j < out_rest.len() {
                assert(out_rest[i].id != out_rest[j].id);
            } else {
                assert(out_rest[i].id == out[i].id);
            }
        }
    }
}

/// Two sequences with distinct ids that share no id join to one with
/// distinct ids.
pub proof fn lemma_concat_distinct(a: Seq<SessionModel>, b: Seq<SessionModel>)
    requires
        distinct_ids(a),
        distinct_ids(b),
        forall|id: Seq<char>| !(contains_id(a, id) && contains_id(b, id)),
    ensures
        distinct_ids(a + b),
{
    let c = a + b;
    assert forall|i: int, j: int| 0 <= i < j < c.len() implies (#[trigger] c[i]).id != (
    #[trigger] c[j]).id by {
        if j < a.len() {
            assert(a[i].id != a[j].id);
        } else if i >= a.len() {
            assert(b[i - a.len()].id != b[j - a.len()].id);
        } else {
            let id = a[i].id;
            assert(contains_id(a, id));
            if b[j - a.len()].id == id {
                assert(contains_id(b, id));
            }
        }
    }
}

/// A reconciliation keeps the registry's invariant and leaves exactly the
/// listed ids tracked.
pub proof fn lemma_reconcile(m: RegistryModel, listing: Seq<ListedModel>)
    requires
        m.wf(),
    ensures
        m.reconcile(listing).wf(),
        m.reconcile(listing).known() == listed_ids(listing),
{
    let kept = m.kept(listing);
    let added = m.added(listing);
    lemma_split_distinct(m.sessions, listing, true);
    lemma_new_sessions_distinct(m.sessions, listing);
    assert forall|id: Seq<char>| !(contains_id(kept, id) && contains_id(added, id)) by {
        lemma_split_contains(m.sessions, listing, true, id);
        lemma_new_sessions_contains(m.sessions, listing, id);
    }
    lemma_concat_distinct(kept, added);
    let after = m.reconcile(listing);
    assert forall|id: Seq<char>| after.known().contains(id) == listed_ids(listing).contains(
        id,
    ) by {
        lemma_split_contains(m.sessions, listing, true, id);
        lemma_new_sessions_contains(m.sessions, listing, id);
        lemma_concat_contains(kept, added, id);
    }
    assert(after.known() =~= listed_ids(listing));
}

/// An id is in a joined sequence exactly if it is in one of the parts.
pub proof fn lemma_concat_contains(a: Seq<SessionModel>, b: Seq<SessionModel>, id: Seq<char>)
    ensures
        contains_id(a + b, id) <==> (contains_id(a, id) || contains_id(b, id)),
{
    let c = a + b;
    if contains_id(c, id) {
        let i = choose|i: int| 0 <= i < c.len() && (#[trigger] c[i]).id == id;
        if i < a.len() {
            assert(a[i].id == id);
        } else {
            assert(b[i - a.len()].id == id);
        }
    }
    if contains_id(a, id) {
        let i = choose|i: int| 0 <= i < a.len() && (#[trigger] a[i]).id == id;
        assert(c[i].id == id);
    }
    if contains_id(b, id) {
        let i = choose|i: int| 0 <= i < b.len() && (#[trigger] b[i]).id == id;
        assert(c[a.len() + i].id == id);
    }
}

/// What one reconciliation did: the sessions that entered the registry, in
/// the provider's order, and the sessions that left it, in the order in which
/// they had been registered, each with the tokens it held.
#[derive(Clone, Debug, PartialEq, Eq)]
pub struct Reconciliation {
    pub added: Vec<InnerSession>,
    pub removed: Vec<InnerSession>,
}

/// The registry of tracked sessions and subscribers.
pub struct SessionManager {
    sessions: Vec<InnerSession>,
    session_added_callbacks: Vec<u64>,
    session_removed_callbacks: Vec<u64>,
    media_props_callbacks: Vec<u64>,
    playback_info_callbacks: Vec<u64>,
    timeline_props_callbacks: Vec<u64>,
    current_session_changed_callbacks: Vec<u64>,
}

impl View for SessionManager {
    type V = RegistryModel;

    closed spec fn view(&self) -> RegistryModel {
        RegistryModel {
            sessions: models(self.sessions@),
            session_added: self.session_added_callbacks@,
            session_removed: self.session_removed_callbacks@,
            media_props: self.media_props_callbacks@,
            playback_info: self.playback_info_callbacks@,
            timeline_props: self.timeline_props_callbacks@,
            current_session_changed: self.current_session_changed_callbacks@,
        }
    }
}

/// The position of the first handle with this id.
fn position(records: &Vec<InnerSession>, id: &String) -> (r: Option<usize>)
    ensures
        r is Some <==> contains_id(models(records@), id@),
        r is Some ==> r->0 < records.len() && models(records@)[r->0 as int].id == id@,
{
    let mut i: usize = 0;
    while i < records.len()
        invariant
            i <= records.len(),
            forall|k: int| 0 <= k < i ==> (#[trigger] models(records@)[k]).id != id@,
        decreases records.len() - i,
    {
        if records[i].id == *id {
            assert(models(records@)[i as int].id == id@);
            return Some(i);
        }
        i += 1;
    }
    None
}

/// Whether the list holds a session with this id.
pub fn listing_has(listing: &Vec<ListedSession>, id: &String) -> (r: bool)
    ensures
        r == is_listed(listing_model(listing@), id@),
{
    let mut i: usize = 0;
    while i < listing.len()
        invariant
            i <= listing.len(),
            forall|k: int| 0 <= k < i ==> (#[trigger] listing_model(listing@)[k]).id != Some(id@),
        decreases listing.len() - i,
    {
        match &listing[i].id {
            Some(other) => {
                if *other == *id {
                    assert(listing_model(listing@)[i as int].id == Some(id@));
                    return true;
                }
            },
            None => {},
        }
        i += 1;
    }
    false
}

/// A copy of a subscriber list.
fn copy_callbacks(list: &Vec<u64>) -> (r: Vec<u64>)
    ensures
        r@ == list@,
{
    let mut out: Vec<u64> = Vec::new();
    let mut i: usize = 0;
    while i < list.len()
        invariant
            i <= list.len(),
            out@ == list@.take(i as int),
        decreases list.len() - i,
    {
        out.push(list[i]);
        assert(list@.take(i + 1) == list@.take(i as int).push(list@[i as int]));
        i += 1;
    }
    assert(list@.take(list.len() as int) == list@);
    out
}

impl SessionManager {
    #[verifier::type_invariant]
    spec fn inv(&self) -> bool {
        self@.wf()
    }

    /// A registry without sessions and without subscribers.
    pub fn new() -> (r: SessionManager)
        ensures
            r@ == RegistryModel::empty(),
            r@.wf(),
    {
        let r = SessionManager {
            sessions: Vec::new(),
            session_added_callbacks: Vec::new(),
            session_removed_callbacks: Vec::new(),
            media_props_callbacks: Vec::new(),
            playback_info_callbacks: Vec::new(),
            timeline_props_callbacks: Vec::new(),
            current_session_changed_callbacks: Vec::new(),
        };
        assert(r@.sessions =~= Seq::empty());
        r
    }

    /// The number of tracked sessions.
    pub fn len(&self) -> (r: usize)
        ensures
            r == self@.sessions.len(),
    {
        self.sessions.len()
    }

    /// Whether a session with this id is tracked.
    pub fn contains(&self, id: &String) -> (r: bool)
        ensures
            r == self@.contains(id@),
    {
        position(&self.sessions, id).is_some()
    }

    /// The tracked ids, in the order in which the sessions were registered.
    pub fn session_ids(&self) -> (r: Vec<String>)
        ensures
            r@.len() == self@.sessions.len(),
            forall|i: int| 0 <= i < r@.len() ==> (#[trigger] r@[i])@ == self@.sessions[i].id,
    {
        let mut out: Vec<String> = Vec::new();
        let mut i: usize = 0;
        while i < self.sessions.len()
            invariant
                i <= self.sessions.len(),
                out@.len() == i,
                forall|k: int| 0 <= k < i ==> (#[trigger] out@[k])@ == self@.sessions[k].id,
            decreases self.sessions.len() - i,
        {
            out.push(self.sessions[i].id.clone());
            i += 1;
        }
        out
    }

    /// The tracked session with this id, if there is one.
    pub fn get(&self, id: &String) -> (r: Option<InnerSession>)
        ensures
            r is Some <==> self@.contains(id@),
            r is Some ==> r->0@.id == id@ && r->0@.tokens == self@.tokens_of(id@) && exists|i: int|
                0 <= i < self@.sessions.len() && #[trigger] self@.sessions[i] == r->0@,
    {
        proof {
            use_type_invariant(self);
        }
        match position(&self.sessions, id) {
            Some(i) => {
                let rec = self.sessions[i].duplicate();
                proof {
                    let k = choose|k: int|
                        0 <= k < self@.sessions.len() && (#[trigger] self@.sessions[k]).id == id@;
                    assert(self@.sessions[i as int].id == id@);
                    assert(k == i);
                    assert(self@.sessions[i as int] == rec@);
                }
                Some(rec)
            },
            None => None,
        }
    }

    /// Appends a subscriber to the list of one event kind. Nothing is
    /// deduplicated: a subscriber added twice is told twice.
    pub fn add_callback(&mut self, kind: EventKind, callback: u64)
        ensures
            final(self)@ == old(self)@.with_callback(kind, callback),
            final(self)@.wf(),
    {
        proof {
            use_type_invariant(&*self);
        }
        let mut list: Vec<u64> = Vec::new();
        match kind {
            EventKind::SessionAdded => {
                core::mem::swap(&mut self.session_added_callbacks, &mut list);
                list.push(callback);
                self.session_added_callbacks = list;
            },
            EventKind::SessionRemoved => {
                core::mem::swap(&mut self.session_removed_callbacks, &mut list);
                list.push(callback);
                self.session_removed_callbacks = list;
            },
            EventKind::MediaPropertiesChanged => {
                core::mem::swap(&mut self.media_props_callbacks, &mut list);
                list.push(callback);
                self.media_props_callbacks = list;
            },
            EventKind::PlaybackInfoChanged => {
                core::mem::swap(&mut self.playback_info_callbacks, &mut list);
                list.push(callback);
                self.playback_info_callbacks = list;
            },
            EventKind::TimelinePropertiesChanged => {
                core::mem::swap(&mut self.timeline_props_callbacks, &mut list);
                list.push(callback);
                self.timeline_props_callbacks = list;
            },
            EventKind::CurrentSessionChanged => {
                core::mem::swap(&mut self.current_session_changed_callbacks, &mut list);
                list.push(callback);
                self.current_session_changed_callbacks = list;
            },
        }
    }

    /// The subscribers to tell of an event of this kind, in registration
    /// order.
    pub fn fan_out(&self, kind: EventKind) -> (r: Vec<u64>)
        ensures
            r@ == self@.callbacks(kind),
    {
        match kind {
            EventKind::SessionAdded => copy_callbacks(&self.session_added_callbacks),
            EventKind::SessionRemoved => copy_callbacks(&self.session_removed_callbacks),
            EventKind::MediaPropertiesChanged => copy_callbacks(&self.media_props_callbacks),
            EventKind::PlaybackInfoChanged => copy_callbacks(&self.playback_info_callbacks),
            EventKind::TimelinePropertiesChanged => copy_callbacks(&self.timeline_props_callbacks),
            EventKind::CurrentSessionChanged => copy_callbacks(
                &self.current_session_changed_callbacks,
            ),
        }
    }

    /// Records the tokens that subscribing the handlers of the session with
    /// this id gave. Returns the tokens that the caller has to release: those
    /// that the session held before, or, where no such session is tracked any
    /// more, the given ones.
    pub fn subscribe(&mut self, id: &String, tokens: SessionTokens) -> (released: SessionTokens)
        ensures
            old(self)@.contains(id@) ==> final(self)@ == old(self)@.subscribed(id@, tokens)
                && released == old(self)@.tokens_of(id@),
            !old(self)@.contains(id@) ==> final(self)@ == old(self)@ && released == tokens,
            final(self)@.wf(),
    {
        proof {
            use_type_invariant(&*self);
        }
        match position(&self.sessions, id) {
            Some(i) => {
                let ghost before = self@;
                let mut rec = self.sessions[i].duplicate();
                let released = rec.subscribe(tokens);
                proof {
                    let k = choose|k: int|
                        0 <= k < before.sessions.len() && (#[trigger] before.sessions[k]).id == id@;
                    assert(before.sessions[i as int].id == id@);
                    assert(k == i);
                    let after = models(self.sessions@.update(i as int, rec));
                    assert forall|a: int, b: int| 0 <= a < b < after.len() implies (
                    #[trigger] after[a]).id != (#[trigger] after[b]).id by {
                        assert(before.sessions[a].id != before.sessions[b].id);
                    }
                    assert forall|a: int| 0 <= a < after.len() implies after[a]
                        == RegistryModel::sessions_subscribed(before.sessions, id@, tokens)[a] by {
                        if a != i {
                            assert(before.sessions[a].id != before.sessions[i as int].id);
                        }
                    }
                    assert(after =~= RegistryModel::sessions_subscribed(
                        before.sessions,
                        id@,
                        tokens,
                    ));
                }
                let mut records: Vec<InnerSession> = Vec::new();
                core::mem::swap(&mut self.sessions, &mut records);
                records.set(i, rec);
                self.sessions = records;
                released
            },
            None => tokens,
        }
    }

    /// Brings the registry in line with the provider's session list.
    ///
    /// Every listed id that is not tracked yet gets a fresh handle, once, in
    /// the list's order; every tracked session whose id the list no longer
    /// holds leaves the registry. Entries without an id are passed over. The
    /// result names both groups; the caller subscribes the handlers of the
    /// added sessions and releases the tokens of the removed ones.
    pub fn reconcile(&mut self, listing: &Vec<ListedSession>) -> (r: Reconciliation)
        ensures
            final(self)@ == old(self)@.reconcile(listing_model(listing@)),
            models(r.added@) == old(self)@.added(listing_model(listing@)),
            models(r.removed@) == old(self)@.removed(listing_model(listing@)),
            final(self)@.wf(),
    {
        proof {
            use_type_invariant(&*self);
        }
        let ghost m = self@;
        let ghost lm = listing_model(listing@);
        let mut next: Vec<InnerSession> = Vec::new();
        let mut removed: Vec<InnerSession> = Vec::new();
        let n = self.sessions.len();
        let mut i: usize = 0;
        while i < n
            invariant
                i <= n,
                n == self.sessions.len(),
                self@ == m,
                lm == listing_model(listing@),
                models(next@) == split_by_listing(m.sessions.take(i as int), lm, true),
                models(removed@) == split_by_listing(m.sessions.take(i as int), lm, false),
            decreases n - i,
        {
            let rec = self.sessions[i].duplicate();
            proof {
                assert(m.sessions.take(i + 1).drop_last() == m.sessions.take(i as int));
                assert(m.sessions.take(i + 1).last() == rec@);
            }
            if listing_has(listing, &rec.id) {
                assert(models(next@.push(rec)) == models(next@).push(rec@));
                next.push(rec);
            } else {
                assert(models(removed@.push(rec)) == models(removed@).push(rec@));
                removed.push(rec);
            }
            i += 1;
        }
        proof {
            assert(m.sessions.take(n as int) == m.sessions);
        }
        let mut added: Vec<InnerSession> = Vec::new();
        let mut j: usize = 0;
        while j < listing.len()
            invariant
                j <= listing.len(),
                self@ == m,
                lm == listing_model(listing@),
                models(added@) == new_sessions(m.sessions, lm.take(j as int)),
                models(next@) == m.kept(lm) + new_sessions(m.sessions, lm.take(j as int)),
            decreases listing.len() - j,
        {
            proof {
                assert(lm.take(j + 1).drop_last() == lm.take(j as int));
                assert(lm.take(j + 1).last() == listing@[j as int]@);
            }
            match &listing[j].id {
                Some(id) => {
                    proof {
                        lemma_new_sessions_contains(m.sessions, lm.take(j as int), id@);
                    }
                    if position(&self.sessions, id).is_none() && position(&added, id).is_none() {
                        let rec = InnerSession::new(id.clone(), listing[j].session);
                        let copy = rec.duplicate();
                        assert(models(added@.push(rec)) == models(added@).push(rec@));
                        assert(models(next@.push(copy)) == models(next@).push(copy@));
                        assert((m.kept(lm) + new_sessions(m.sessions, lm.take(j as int))).push(
                            rec@,
                        ) == m.kept(lm) + new_sessions(m.sessions, lm.take(j as int)).push(rec@));
                        added.push(rec);
                        next.push(copy);
                    }
                },
                None => {},
            }
            j += 1;
        }
        proof {
            assert(lm.take(listing.len() as int) == lm);
            lemma_reconcile(m, lm);
        }
        self.sessions = next;
        Reconciliation { added, removed }
    }

    /// Appends a fresh handle for an id that is not tracked yet.
    fn insert_fresh(&mut self, id: String, session: u64)
        requires
            !old(self)@.contains(id@),
        ensures
            final(self)@ == old(self)@.registered(id@, session),
            final(self)@.wf(),
    {
        proof {
            use_type_invariant(&*self);
        }
        let rec = InnerSession::new(id, session);
        proof {
            let before = models(self.sessions@);
            let after = models(self.sessions@.push(rec));
            assert(after == before.push(rec@));
            assert forall|a: int, b: int| 0 <= a < b < after.len() implies (#[trigger] after[a]).id
                != (#[trigger] after[b]).id by {
                if b < before.len() {
                    assert(before[a].id != before[b].id);
                } else {
                    assert(before[a].id != rec@.id);
                }
            }
        }
        let mut records: Vec<InnerSession> = Vec::new();
        core::mem::swap(&mut self.sessions, &mut records);
        records.push(rec);
        self.sessions = records;
    }

    /// Empties the registry of sessions; the subscribers stay. Returns the
    /// sessions that were tracked, whose tokens the caller has to release.
    pub fn clear_all_sessions(&mut self) -> (r: Vec<InnerSession>)
        ensures
            final(self)@ == old(self)@.without_sessions(),
            models(r@) == old(self)@.sessions,
            final(self)@.wf(),
    {
        let mut out: Vec<InnerSession> = Vec::new();
        let n = self.sessions.len();
        let mut i: usize = 0;
        while i < n
            invariant
                i <= n,
                n == self.sessions.len(),
                *self == *old(self),
                models(out@) == models(self.sessions@).take(i as int),
            decreases n - i,
        {
            let rec = self.sessions[i].duplicate();
            assert(models(out@.push(rec)) =~= models(out@).push(rec@));
            assert(models(self.sessions@).take(i + 1) =~= models(self.sessions@).take(
                i as int,
            ).push(rec@));
            out.push(rec);
            i += 1;
        }
        assert(models(self.sessions@).take(n as int) == models(self.sessions@));
        self.sessions = Vec::new();
        assert(self@.sessions =~= Seq::empty());
        out
    }

    /// Empties the registry of sessions and of subscribers. Returns the
    /// sessions that were tracked, whose tokens the caller has to release.
    pub fn clear(&mut self) -> (r: Vec<InnerSession>)
        ensures
            final(self)@ == RegistryModel::empty(),
            models(r@) == old(self)@.sessions,
            final(self)@.wf(),
    {
        let out = self.clear_all_sessions();
        self.session_added_callbacks = Vec::new();
        self.session_removed_callbacks = Vec::new();
        self.media_props_callbacks = Vec::new();
        self.playback_info_callbacks = Vec::new();
        self.timeline_props_callbacks = Vec::new();
        self.current_session_changed_callbacks = Vec::new();
        out
    }
}

/// Registers a session under its id with a fresh handle, unless the id is
/// tracked already. Says whether the session was registered.
pub fn register_session(inner: &mut SessionManager, id: String, session: u64) -> (r: bool)
    ensures
        final(inner)@ == old(inner)@.registered(id@, session),
        r == !old(inner)@.contains(id@),
        final(inner)@.wf(),
{
    proof {
        use_type_invariant(&*inner);
    }
    if inner.contains(&id) {
        false
    } else {
        inner.insert_fresh(id, session);
        true
    }
}

} // verus!
