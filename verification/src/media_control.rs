//! Queries against what the provider reports at the moment of the call.

use vstd::prelude::*;
use crate::session_manager::{is_listed, listing_model, ListedSession};
use crate::types::MediaInfo;
use crate::utils::{collect_present, present, win_to_napi_err, MonitorError, ProviderError};

verus! {

/// The position of the first entry of a session list with this id.
pub open spec fn first_listed(listing: Seq<ListedSession>, id: Seq<char>, at: int) -> bool {
    &&& 0 <= at < listing.len()
    &&& listing[at]@.id == Some(id)
    &&& forall|k: int| 0 <= k < at ==> (#[trigger] listing[k])@.id != Some(id)
}

/// The outcome of asking the provider for its session manager: the handle, or
/// the provider's failure as the monitor's error.
pub fn create_manager(request: Result<u64, ProviderError>) -> (r: Result<u64, MonitorError>)
    ensures
        match request {
            Ok(handle) => r == Ok::<u64, MonitorError>(handle),
            Err(e) => r == Err::<u64, MonitorError>(MonitorError::ProviderUnavailable(e.message)),
        },
{
    win_to_napi_err(request)
}

/// The snapshot of the current session. `current` is `None` where the
/// provider has no current session, and holds `None` where there is one whose
/// snapshot could not be read; both give no result.
pub fn get_current_session(current: Option<Option<MediaInfo>>) -> (r: Option<MediaInfo>)
    ensures
        r == match current {
            Some(snapshot) => snapshot,
            None => None::<MediaInfo>,
        },
{
    match current {
        Some(snapshot) => snapshot,
        None => None,
    }
}

/// The snapshots of all sessions, given one read per listed session in the
/// provider's order: sessions whose read failed are left out.
pub fn get_all_sessions(reads: Vec<Option<MediaInfo>>) -> (r: Vec<MediaInfo>)
    ensures
        r@ == present(reads@),
{
    collect_present(reads)
}

/// Finds a session by id in the provider's session list: the position of the
/// first entry with this id, and nothing exactly if the list holds no such
/// entry.
pub fn get_session_by_id(listing: &Vec<ListedSession>, source_app_id: &String) -> (r: Option<usize>)
    ensures
        r is Some <==> is_listed(listing_model(listing@), source_app_id@),
        r is Some ==> first_listed(listing@, source_app_id@, r->0 as int),
{
    let mut i: usize = 0;
    while i < listing.len()
        invariant
            i <= listing.len(),
            forall|k: int| 0 <= k < i ==> (#[trigger] listing@[k])@.id != Some(source_app_id@),
        decreases listing.len() - i,
    {
        match &listing[i].id {
            Some(id) => {
                if *id == *source_app_id {
                    assert(listing_model(listing@)[i as int].id == Some(source_app_id@));
                    return Some(i);
                }
            },
            None => {},
        }
        i += 1;
    }
    assert forall|k: int| 0 <= k < listing.len() implies (#[trigger] listing_model(
        listing@,
    )[k]).id != Some(source_app_id@) by {
        assert(listing@[k]@.id != Some(source_app_id@));
    }
    None
}

} // verus!
