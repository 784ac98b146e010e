//! What holds of the registry and of the monitor over whole runs, proved on
//! their models.

use vstd::prelude::*;
use crate::monitor::MonitorModel;
use crate::session_manager::{
    contains_id,
    distinct_ids,
    is_listed,
    lemma_new_sessions_contains,
    lemma_new_sessions_distinct,
    lemma_reconcile,
    lemma_split_contains,
    lemma_split_distinct,
    lemma_split_keeps_sessions,
    listed_ids,
    EventKind,
    ListedModel,
    RegistryModel,
    SessionModel,
    SessionTokens,
};

verus! {

/// The registry after reconciling against each session list in turn.
pub open spec fn reconcile_all(m: RegistryModel, snapshots: Seq<Seq<ListedModel>>) -> RegistryModel
    decreases snapshots.len(),
{
    if snapshots.len() == 0 {
        m
    } else {
        reconcile_all(m, snapshots.drop_last()).reconcile(snapshots.last())
    }
}

/// After any run of reconciliations the registry tracks exactly the ids of
/// the last session list, each once.
pub proof fn law_registry_tracks_latest_listing(
    m: RegistryModel,
    snapshots: Seq<Seq<ListedModel>>,
)
    requires
        m.wf(),
    ensures
        reconcile_all(m, snapshots).wf(),
        snapshots.len() > 0 ==> reconcile_all(m, snapshots).known() == listed_ids(
            snapshots.last(),
        ),
    decreases snapshots.len(),
{
    if snapshots.len() > 0 {
        law_registry_tracks_latest_listing(m, snapshots.drop_last());
        lemma_reconcile(reconcile_all(m, snapshots.drop_last()), snapshots.last());
    }
}

/// One reconciliation names a session as added exactly if its id is listed
/// and was not tracked, and as removed exactly if its id was tracked and is
/// not listed; no id is named twice in either group, and none in both.
pub proof fn law_reconciliation_events(m: RegistryModel, listing: Seq<ListedModel>, id: Seq<char>)
    requires
        m.wf(),
    ensures
        distinct_ids(m.added(listing)),
        distinct_ids(m.removed(listing)),
        contains_id(m.added(listing), id) <==> (is_listed(listing, id) && !m.contains(id)),
        contains_id(m.removed(listing), id) <==> (m.contains(id) && !is_listed(listing, id)),
        !(contains_id(m.added(listing), id) && contains_id(m.removed(listing), id)),
{
    lemma_new_sessions_distinct(m.sessions, listing);
    lemma_split_distinct(m.sessions, listing, false);
    lemma_new_sessions_contains(m.sessions, listing, id);
    lemma_split_contains(m.sessions, listing, false, id);
}

/// In a run of reconciliations, the step from one session list to the next
/// names as added exactly the ids that the next list holds and the one before
/// did not, and as removed exactly the ids that the one before held and the
/// next does not: one event for each id that entered or left, and none for an
/// id that stayed.
pub proof fn law_events_between_consecutive_listings(
    m: RegistryModel,
    snapshots: Seq<Seq<ListedModel>>,
    id: Seq<char>,
)
    requires
        m.wf(),
        snapshots.len() >= 2,
    ensures
        ({
            let before = reconcile_all(m, snapshots.drop_last());
            let previous = snapshots[snapshots.len() - 2];
            let next = snapshots.last();
            &&& distinct_ids(before.added(next))
            &&& distinct_ids(before.removed(next))
            &&& contains_id(before.added(next), id) <==> (is_listed(next, id) && !is_listed(
                previous,
                id,
            ))
            &&& contains_id(before.removed(next), id) <==> (is_listed(previous, id) && !is_listed(
                next,
                id,
            ))
        }),
{
    let earlier = snapshots.drop_last();
    let before = reconcile_all(m, earlier);
    assert(earlier.last() == snapshots[snapshots.len() - 2]);
    law_registry_tracks_latest_listing(m, earlier);
    assert(before.known().contains(id) == listed_ids(earlier.last()).contains(id));
    law_reconciliation_events(before, snapshots.last(), id);
}

/// A reconciliation loses no session and no token: every session that was
/// tracked is either still tracked, with the handle and tokens it had, or
/// named as removed, with the handle and tokens it had.
pub proof fn law_reconciliation_loses_no_token(
    m: RegistryModel,
    listing: Seq<ListedModel>,
    i: int,
)
    requires
        0 <= i < m.sessions.len(),
    ensures
        is_listed(listing, m.sessions[i].id) ==> m.reconcile(listing).sessions.contains(
            m.sessions[i],
        ),
        !is_listed(listing, m.sessions[i].id) ==> m.removed(listing).contains(m.sessions[i]),
{
    lemma_split_keeps_sessions(m.sessions, listing, i);
    if is_listed(listing, m.sessions[i].id) {
        let kept = m.kept(listing);
        let k = choose|k: int| 0 <= k < kept.len() && kept[k] == m.sessions[i];
        assert(m.reconcile(listing).sessions[k] == m.sessions[i]);
    }
}

/// A session that enters the registry holds no token yet.
pub proof fn law_added_sessions_hold_no_token(
    m: RegistryModel,
    listing: Seq<ListedModel>,
    i: int,
)
    requires
        0 <= i < m.added(listing).len(),
    ensures
        m.added(listing)[i].tokens == SessionTokens::none(),
{
    lemma_new_sessions_distinct(m.sessions, listing);
}

/// A reconciliation leaves the subscribers as they are.
pub proof fn law_reconciliation_keeps_subscribers(
    m: RegistryModel,
    listing: Seq<ListedModel>,
    kind: EventKind,
)
    ensures
        m.reconcile(listing).callbacks(kind) == m.callbacks(kind),
{
}

/// Giving up a handle's subscriptions twice is the same as doing it once:
/// the second time nothing is left to release.
pub proof fn law_unsubscribe_is_idempotent(s: SessionModel)
    ensures
        s.with_tokens(SessionTokens::none()).tokens == SessionTokens::none(),
        s.with_tokens(SessionTokens::none()).with_tokens(SessionTokens::none()) == s.with_tokens(
            SessionTokens::none(),
        ),
{
}

/// Destroying a monitor twice is the same as destroying it once: the second
/// call changes nothing and hands back nothing to release.
pub proof fn law_destroy_is_idempotent(m: MonitorModel)
    ensures
        m.destroyed().destroyed() == m.destroyed(),
        m.destroyed().teardown().is_empty(),
{
}

/// A destroyed monitor holds no token and no session, and nothing that the
/// provider may still report reaches it: a changed session list leaves it as
/// it is and names no session, no event has an audience or is delivered, and
/// tokens that arrive late are handed back for release.
pub proof fn law_destroyed_monitor_is_silent(
    m: MonitorModel,
    listing: Seq<ListedModel>,
    id: Seq<char>,
    tokens: SessionTokens,
    kind: EventKind,
    readable: bool,
)
    ensures
        m.destroyed().inv(),
        m.destroyed().teardown().is_empty(),
        m.destroyed().sessions_changed(listing) == m.destroyed(),
        m.destroyed().sessions_added(listing).len() == 0,
        m.destroyed().sessions_removed(listing).len() == 0,
        m.destroyed().audience(kind).len() == 0,
        !m.destroyed().delivers(readable),
        !m.destroyed().delivers_change(id, readable),
        m.destroyed().session_subscribed(id, tokens) == m.destroyed(),
        m.destroyed().session_released(id, tokens) == tokens,
{
}

/// Once a reconciliation against a list without a session's id has run, a
/// change reported for that session is not delivered, whatever was read.
pub proof fn law_removed_session_is_silent(
    m: MonitorModel,
    listing: Seq<ListedModel>,
    id: Seq<char>,
    readable: bool,
)
    requires
        m.inv(),
        !is_listed(listing, id),
    ensures
        !m.sessions_changed(listing).delivers_change(id, readable),
{
    if m.manager is Some {
        lemma_reconcile(m.registry, listing);
        assert(m.registry.reconcile(listing).known().contains(id) == listed_ids(listing).contains(
            id,
        ));
    }
}

/// A change whose property group could not be read is never delivered.
pub proof fn law_failed_read_is_silent(m: MonitorModel, id: Seq<char>)
    ensures
        !m.delivers_change(id, false),
        !m.delivers(false),
{
}

/// The monitor's invariant holds of a fresh monitor and is kept by every
/// operation.
pub proof fn law_monitor_invariant(
    m: MonitorModel,
    manager: u64,
    listing: Seq<ListedModel>,
    id: Seq<char>,
    tokens: SessionTokens,
    kind: EventKind,
    callback: u64,
)
    requires
        m.inv(),
    ensures
        MonitorModel::fresh().inv(),
        m.initialized(manager, listing).inv(),
        m.sessions_changed(listing).inv(),
        m.session_subscribed(id, tokens).inv(),
        m.with_callback(kind, callback).inv(),
        m.destroyed().inv(),
{
    lemma_reconcile(m.registry, listing);
    let s = m.registry.subscribed(id, tokens).sessions;
    assert forall|a: int, b: int| 0 <= a < b < s.len() implies (#[trigger] s[a]).id != (
    #[trigger] s[b]).id by {
        assert(m.registry.sessions[a].id != m.registry.sessions[b].id);
    }
}

/// Subscribing changes the subscriber lists only by appending: the list of
/// the kind grows by the new subscriber at its end, also where the same
/// subscriber is there already, and the other lists and the sessions stay.
pub proof fn law_subscribers_grow_in_order(
    r: RegistryModel,
    kind: EventKind,
    other: EventKind,
    callback: u64,
)
    ensures
        r.with_callback(kind, callback).callbacks(kind) == r.callbacks(kind).push(callback),
        other != kind ==> r.with_callback(kind, callback).callbacks(other) == r.callbacks(other),
        r.with_callback(kind, callback).sessions == r.sessions,
{
}

} // verus!
