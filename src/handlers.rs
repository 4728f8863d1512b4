//! The decisions each handler makes around its collaborator call: which
//! collaborator it needs, where it runs, and how the collaborator's answer
//! becomes a response.
use vstd::prelude::*;
use crate::error::{status_of, ApiError};
use crate::pipeline::{pipeline_spec, Layer, LayerSlot, MAX_BODY_BYTES};
use crate::ident::{
    height_value, is_block_hash_shaped, is_height_text, parse_block_id, parse_height, BlockId,
};
use crate::query::{parse_block_range, range_ok};
use crate::routes::Endpoint;

verus! {

/// What a collaborator answered to a lookup or a submission.
pub enum Reply<T> {
    /// The entry, as found.
    Found(T),
    /// The collaborator has no such entry.
    Absent,
    /// The collaborator could not read the identifier or payload it was given.
    Malformed,
    /// The collaborator failed internally.
    Failed,
}

/// The response that a collaborator's answer becomes.
pub open spec fn reply_result<T>(r: Reply<T>) -> Result<T, ApiError> {
    match r {
        Reply::Found(v) => Ok(v),
        Reply::Absent => Err(ApiError::NotFound),
        Reply::Malformed => Err(ApiError::ClientInput),
        Reply::Failed => Err(ApiError::UpstreamUnavailable),
    }
}

/// Turns a collaborator's answer into the handler's result: the entry, a
/// not-found error, a client error, or an upstream error.
pub fn respond<T>(r: Reply<T>) -> (out: Result<T, ApiError>)
    ensures
        out == reply_result(r),
{
    match r {
        Reply::Found(v) => Ok(v),
        Reply::Absent => Err(ApiError::NotFound),
        Reply::Malformed => Err(ApiError::ClientInput),
        Reply::Failed => Err(ApiError::UpstreamUnavailable),
    }
}

/// A lookup of an entry that the ledger has never seen is answered with 404,
/// never with 500.
pub proof fn lemma_absent_is_not_found<T>(r: Reply<T>)
    requires
        r is Absent,
    ensures
        reply_result(r) matches Err(e) && status_of(e) == 404,
{
}

/// The endpoints that only a node with a consensus module can serve.
pub open spec fn needs_consensus_spec(e: Endpoint) -> bool {
    e == Endpoint::TransactionBroadcast || e == Endpoint::MemoryPoolTransactions
}

/// Whether serving `e` takes the consensus module.
pub fn needs_consensus(e: Endpoint) -> (r: bool)
    ensures
        r == needs_consensus_spec(e),
{
    matches!(e, Endpoint::TransactionBroadcast | Endpoint::MemoryPoolTransactions)
}

/// Checks, for each request, that the collaborators an endpoint needs are
/// present: a node without a consensus module answers the endpoints that need
/// one with an upstream error.
pub fn check_upstream(e: Endpoint, consensus_present: bool) -> (r: Result<(), ApiError>)
    ensures
        r is Err <==> needs_consensus_spec(e) && !consensus_present,
        r is Err ==> r == Err::<(), ApiError>(ApiError::UpstreamUnavailable),
{
    if needs_consensus(e) && !consensus_present {
        Err(ApiError::UpstreamUnavailable)
    } else {
        Ok(())
    }
}

/// The endpoints that scan and decrypt records.
pub open spec fn is_record_scan(e: Endpoint) -> bool {
    e == Endpoint::RecordsAll || e == Endpoint::RecordsSpent || e == Endpoint::RecordsUnspent
}

/// Whether `e` must run as blocking work away from the tasks that accept
/// connections: the record scans, whose cost may be large.
pub fn runs_on_blocking_pool(e: Endpoint) -> (r: bool)
    ensures
        r == is_record_scan(e),
{
    matches!(e, Endpoint::RecordsAll | Endpoint::RecordsSpent | Endpoint::RecordsUnspent)
}

/// Which records a scan returns.
#[derive(Clone, Copy, Debug, PartialEq, Eq, Structural)]
pub enum RecordsFilter {
    All,
    Spent,
    Unspent,
}

/// The filter of a record-scan endpoint; none for the other endpoints.
pub fn records_filter(e: Endpoint) -> (r: Option<RecordsFilter>)
    ensures
        e == Endpoint::RecordsAll ==> r == Some(RecordsFilter::All),
        e == Endpoint::RecordsSpent ==> r == Some(RecordsFilter::Spent),
        e == Endpoint::RecordsUnspent ==> r == Some(RecordsFilter::Unspent),
        !is_record_scan(e) ==> r is None,
{
    match e {
        Endpoint::RecordsAll => Some(RecordsFilter::All),
        Endpoint::RecordsSpent => Some(RecordsFilter::Spent),
        Endpoint::RecordsUnspent => Some(RecordsFilter::Unspent),
        _ => None,
    }
}

/// The outcome of a transaction submission before it reaches consensus.
pub open spec fn broadcast_admission(
    body_len: u64,
    payload_parsed: bool,
    consensus_present: bool,
) -> Result<(), ApiError> {
    if body_len > MAX_BODY_BYTES {
        Err(ApiError::PayloadTooLarge)
    } else if !payload_parsed {
        Err(ApiError::ClientInput)
    } else if !consensus_present {
        Err(ApiError::UpstreamUnavailable)
    } else {
        Ok(())
    }
}

/// Decides whether a submitted transaction goes on to consensus: a body over
/// the cap is too large whatever it holds; else a payload that does not parse
/// is a client error; else a node without consensus is an upstream error.
pub fn admit_broadcast(body_len: u64, payload_parsed: bool, consensus_present: bool) -> (r: Result<
    (),
    ApiError,
>)
    ensures
        r == broadcast_admission(body_len, payload_parsed, consensus_present),
{
    if body_len > MAX_BODY_BYTES {
        Err(ApiError::PayloadTooLarge)
    } else if !payload_parsed {
        Err(ApiError::ClientInput)
    } else if !consensus_present {
        Err(ApiError::UpstreamUnavailable)
    } else {
        Ok(())
    }
}

/// A submission whose body exceeds the cap is answered with 413, whatever its
/// content and whatever the node's collaborators; the cap is in force in the
/// pipeline.
pub proof fn lemma_oversized_submission_rejected(
    body_len: u64,
    payload_parsed: bool,
    consensus_present: bool,
)
    requires
        body_len > MAX_BODY_BYTES,
    ensures
        broadcast_admission(body_len, payload_parsed, consensus_present) matches Err(e)
            && status_of(e) == 413,
        pipeline_spec().contains(LayerSlot { layer: Layer::BodyLimit, active: true }),
{
    assert(pipeline_spec()[3] == LayerSlot { layer: Layer::BodyLimit, active: true });
}

/// The number of connected peers in a snapshot of the peer set.
pub fn peers_count<P>(peers: &Vec<P>) -> (r: usize)
    ensures
        r == peers@.len(),
{
    peers.len()
}

/// What a handler reads out of its path and query before it calls the ledger.
pub enum Target {
    /// One block, by height or by hash.
    Block(BlockId),
    /// The blocks at these heights.
    Heights(Vec<u32>),
    /// Nothing beyond the raw parameters.
    Raw,
}

/// Reads a request's target. `segment` is the block segment of the path,
/// `start` and `end` the range parameters of the query. A block is named by
/// height or hash; a block's transactions by height alone; a range by its
/// bounds. The other endpoints take their parameters raw.
pub fn target_of(e: Endpoint, segment: &str, start: &str, end: &str) -> (r: Result<
    Target,
    ApiError,
>)
    ensures
        e == Endpoint::Block && is_height_text(segment@) ==> (r matches Ok(
            Target::Block(BlockId::Height(h)),
        ) && h as nat == height_value(segment@)),
        e == Endpoint::Block && !is_height_text(segment@) && is_block_hash_shaped(segment@) ==> (
        r matches Ok(Target::Block(BlockId::Hash(t))) && t@ == segment@),
        e == Endpoint::Block && !is_height_text(segment@) && !is_block_hash_shaped(segment@) ==> r
            == Err::<Target, ApiError>(ApiError::ClientInput),
        e == Endpoint::BlockTransactions && is_height_text(segment@) ==> (r matches Ok(
            Target::Block(BlockId::Height(h)),
        ) && h as nat == height_value(segment@)),
        e == Endpoint::BlockTransactions && !is_height_text(segment@) ==> r == Err::<
            Target,
            ApiError,
        >(ApiError::ClientInput),
        e == Endpoint::Blocks ==> (r is Ok <==> is_height_text(start@) && is_height_text(end@)
            && range_ok(height_value(start@), height_value(end@))),
        e == Endpoint::Blocks && r is Err ==> r == Err::<Target, ApiError>(ApiError::ClientInput),
        e == Endpoint::Blocks ==> (r matches Ok(Target::Heights(v)) ==> v@.len() == height_value(
            end@,
        ) - height_value(start@) && forall|i: int|
            0 <= i < v@.len() ==> #[trigger] v@[i] == height_value(start@) + i),
        e == Endpoint::Blocks ==> (r is Ok ==> r matches Ok(Target::Heights(_))),
        e != Endpoint::Block && e != Endpoint::BlockTransactions && e != Endpoint::Blocks ==> r
            matches Ok(Target::Raw),
{
    match e {
        Endpoint::Block => match parse_block_id(segment) {
            Ok(id) => Ok(Target::Block(id)),
            Err(err) => Err(err),
        },
        Endpoint::BlockTransactions => match parse_height(segment) {
            Some(h) => Ok(Target::Block(BlockId::Height(h))),
            None => Err(ApiError::ClientInput),
        },
        Endpoint::Blocks => match parse_block_range(start, end) {
            Ok(range) => Ok(Target::Heights(range.heights())),
            Err(err) => Err(err),
        },
        _ => Ok(Target::Raw),
    }
}

} // verus!
