//! The decision at the head of the archive pipeline: what a stop signal
//! leads to. The pipeline proper alternates with outside work — resolving
//! each photo reference, fetching every resource concurrently into a
//! deterministically indexed file of the scratch area, packing, delivery
//! and unconditional cleanup — so the surrounding driver performs the
//! I/O, while every decision and every produced value (which resources,
//! in which order, under which names, into which archive bytes) comes
//! from the verified functions here and in `names` and `archive`.

use vstd::prelude::*;
use crate::photo::{batch_refs, collect_photo_refs};
use crate::session::Batch;

verus! {

/// What one stop signal leads to.
pub enum StopOutcome {
    /// The conversation was not collecting: an observable report, no state
    /// change, no pipeline.
    NotCollecting,
    /// The batch holds no messages: the no-content report; no scratch area
    /// or archive is created.
    NoMessages,
    /// Messages were collected but none carries a photo: reported; nothing
    /// is created either.
    NoPhotos,
    /// The pipeline runs: the resource ids to fetch, in message order, and
    /// the consumed archive base name.
    Proceed { refs: Vec<Vec<u8>>, archive_name: Option<Vec<u8>> },
}

/// Decides what a stop signal leads to, from the batch the session store
/// handed off (`None` when the session was not collecting). Exactly one
/// outcome applies, and work is owed exactly when at least one message
/// carries a photo.
pub fn stop_outcome(batch: Option<Batch>) -> (r: StopOutcome)
    ensures
        r is NotCollecting <==> batch is None,
        r is NoMessages <==> (batch matches Some(b) && b@.messages.len() == 0),
        r is NoPhotos <==> (batch matches Some(b) && b@.messages.len() > 0 && batch_refs(
            b@.messages,
        ).len() == 0),
        r matches StopOutcome::Proceed { refs, archive_name } ==> batch matches Some(b) && {
            &&& refs@.map_values(|v: Vec<u8>| v@) == batch_refs(b@.messages)
            &&& refs@.len() > 0
            &&& b@.messages.len() > 0
            &&& archive_name == b.archive_name
        },
{
    match batch {
        None => StopOutcome::NotCollecting,
        Some(b) => {
            if b.messages.len() == 0 {
                StopOutcome::NoMessages
            } else {
                let refs = collect_photo_refs(&b.messages);
                proof {
                    assert(refs@.map_values(|v: Vec<u8>| v@).len() == refs@.len());
                }
                if refs.len() == 0 {
                    StopOutcome::NoPhotos
                } else {
                    StopOutcome::Proceed { refs, archive_name: b.archive_name }
                }
            }
        },
    }
}

} // verus!
