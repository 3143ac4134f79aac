//! What the JSON-RPC gateway decides from the markers and from a request,
//! before and while it reads the store.
use vstd::prelude::*;

use crate::types::{BlockNumber, StarkHash};

verus! {

/// The errors of the gateway that these decisions give.
#[derive(Clone, Copy, Debug, PartialEq, Eq, Structural)]
pub enum JsonRpcError {
    BlockNotFound,
    PageSizeTooBig,
    TooManyKeysInFilter,
    /// The pending block cannot be named yet.
    PendingBlockNotSupported,
}

/// A block as a request names it.
#[derive(Clone, Copy, Debug, PartialEq, Eq, Structural)]
pub enum BlockId {
    Hash(StarkHash),
    Number(BlockNumber),
    Latest,
    /// The block being built, which the store does not hold.
    Pending,
}

/// How far a block has been accepted.
#[derive(Clone, Copy, Debug, PartialEq, Eq, Structural)]
pub enum BlockStatus {
    AcceptedOnL2,
    AcceptedOnL1,
}

/// The last block whose header is stored, from the header marker (the first
/// block whose header is not): none while the store holds no header.
pub fn latest_block_number(header_marker: BlockNumber) -> (r: Option<BlockNumber>)
    ensures
        header_marker.0 == 0 ==> r is None,
        header_marker.0 > 0 ==> r == Some(BlockNumber((header_marker.0 - 1) as u64)),
{
    if header_marker.0 == 0 {
        None
    } else {
        Some(BlockNumber(header_marker.0 - 1))
    }
}

/// A block number that a request names, if the header of that block is
/// stored: it is below the header marker.
pub fn existing_block_number(requested: BlockNumber, header_marker: BlockNumber) -> (r: Result<
    BlockNumber,
    JsonRpcError,
>)
    ensures
        requested.0 < header_marker.0 ==> r == Ok::<BlockNumber, JsonRpcError>(requested),
        requested.0 >= header_marker.0 ==> r == Err::<BlockNumber, JsonRpcError>(
            JsonRpcError::BlockNotFound,
        ),
{
    let latest = match latest_block_number(header_marker) {
        Some(b) => b,
        None => return Err(JsonRpcError::BlockNotFound),
    };
    if requested.0 > latest.0 {
        return Err(JsonRpcError::BlockNotFound);
    }
    Ok(requested)
}

/// A block below the base-layer marker is accepted on the base layer; any
/// other only on the chain itself.
pub fn block_status(block_number: BlockNumber, base_layer_marker: BlockNumber) -> (r: BlockStatus)
    ensures
        r == (if block_number.0 < base_layer_marker.0 {
            BlockStatus::AcceptedOnL1
        } else {
            BlockStatus::AcceptedOnL2
        }),
{
    if block_number.0 < base_layer_marker.0 {
        BlockStatus::AcceptedOnL1
    } else {
        BlockStatus::AcceptedOnL2
    }
}

/// An events request asks for no more events per page, and filters on no more
/// keys, than the gateway serves.
pub fn check_events_request(
    chunk_size: usize,
    n_keys: usize,
    max_chunk_size: usize,
    max_keys: usize,
) -> (r: Result<(), JsonRpcError>)
    ensures
        chunk_size > max_chunk_size ==> r == Err::<(), JsonRpcError>(JsonRpcError::PageSizeTooBig),
        chunk_size <= max_chunk_size && n_keys > max_keys ==> r == Err::<(), JsonRpcError>(
            JsonRpcError::TooManyKeysInFilter,
        ),
        chunk_size <= max_chunk_size && n_keys <= max_keys ==> r is Ok,
{
    if chunk_size > max_chunk_size {
        return Err(JsonRpcError::PageSizeTooBig);
    }
    if n_keys > max_keys {
        return Err(JsonRpcError::TooManyKeysInFilter);
    }
    Ok(())
}

/// The key of an event at position `i` passes the filter's set for that
/// position: the event has such a key, and the set is empty (any key) or
/// holds it.
pub open spec fn key_passes(filter_keys: Seq<Vec<StarkHash>>, event_keys: Seq<StarkHash>, i: int) -> bool {
    i < event_keys.len() && (filter_keys[i]@.len() == 0 || filter_keys[i]@.contains(event_keys[i]))
}

/// An event passes a filter on its keys when each position of the filter
/// passes.
pub open spec fn keys_pass(filter_keys: Seq<Vec<StarkHash>>, event_keys: Seq<StarkHash>) -> bool {
    forall|i: int| 0 <= i < filter_keys.len() ==> #[trigger] key_passes(filter_keys, event_keys, i)
}

fn contains_key(set: &Vec<StarkHash>, key: &StarkHash) -> (r: bool)
    ensures
        r == set@.contains(*key),
{
    let mut j: usize = 0;
    while j < set.len()
        invariant
            j <= set@.len(),
            forall|k: int| 0 <= k < j ==> set@[k] != *key,
        decreases set@.len() - j,
    {
        if set[j] == *key {
            return true;
        }
        j += 1;
    }
    false
}

/// Whether an event with these keys passes a filter on its keys.
pub fn event_keys_match(filter_keys: &Vec<Vec<StarkHash>>, event_keys: &Vec<StarkHash>) -> (r: bool)
    ensures
        r == keys_pass(filter_keys@, event_keys@),
{
    let mut i: usize = 0;
    while i < filter_keys.len()
        invariant
            i <= filter_keys@.len(),
            forall|k: int| 0 <= k < i ==> #[trigger] key_passes(filter_keys@, event_keys@, k),
        decreases filter_keys@.len() - i,
    {
        if i >= event_keys.len() {
            assert(!key_passes(filter_keys@, event_keys@, i as int));
            return false;
        }
        let set = &filter_keys[i];
        if set.len() != 0 && !contains_key(set, &event_keys[i]) {
            assert(!key_passes(filter_keys@, event_keys@, i as int));
            return false;
        }
        i += 1;
    }
    true
}

/// The block number that a request names: for a hash, the number stored under
/// it (`number_of_hash`, none if the hash is unknown); for a number, that
/// number if its header is stored; the latest stored block; the pending block
/// cannot be named yet.
pub fn get_block_number(
    block_id: &BlockId,
    header_marker: BlockNumber,
    number_of_hash: Option<BlockNumber>,
) -> (r: Result<BlockNumber, JsonRpcError>)
    ensures
        r == (match *block_id {
            BlockId::Hash(_) => match number_of_hash {
                Some(n) => Ok(n),
                None => Err(JsonRpcError::BlockNotFound),
            },
            BlockId::Number(n) => if n.0 < header_marker.0 {
                Ok(n)
            } else {
                Err(JsonRpcError::BlockNotFound)
            },
            BlockId::Latest => if header_marker.0 > 0 {
                Ok(BlockNumber((header_marker.0 - 1) as u64))
            } else {
                Err(JsonRpcError::BlockNotFound)
            },
            BlockId::Pending => Err(JsonRpcError::PendingBlockNotSupported),
        }),
{
    match block_id {
        BlockId::Hash(_) => match number_of_hash {
            Some(n) => Ok(n),
            None => Err(JsonRpcError::BlockNotFound),
        },
        BlockId::Number(n) => existing_block_number(*n, header_marker),
        BlockId::Latest => match latest_block_number(header_marker) {
            Some(n) => Ok(n),
            None => Err(JsonRpcError::BlockNotFound),
        },
        BlockId::Pending => Err(JsonRpcError::PendingBlockNotSupported),
    }
}

/// The blocks whose events a request reads, from its first block and its
/// last (none while the store holds no block): none when the range is empty.
pub fn events_block_range(from: BlockNumber, to: Option<BlockNumber>) -> (r: Option<
    (BlockNumber, BlockNumber),
>)
    ensures
        r == (match to {
            Some(t) => if from.0 <= t.0 {
                Some((from, t))
            } else {
                None
            },
            None => None,
        }),
{
    match to {
        Some(t) => if from.0 <= t.0 {
            Some((from, t))
        } else {
            None
        },
        None => None,
    }
}

} // verus!
