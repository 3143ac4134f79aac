//! Progress markers, and how the compiled-class marker advances when the
//! compiled form of a class is appended.
//!
//! A marker is the first block whose data of its kind is not yet complete.
//! Appending a compiled class may complete the block that declared it last,
//! and with it every following block that declares no class: the marker then
//! moves past all of them. The reads and writes of the store stand outside
//! this module; [`CompiledClassMarkerUpdate`] says which to make next, and is
//! told what they found.
use vstd::prelude::*;

use crate::db::{BackendError, DbError};
use crate::types::{BlockNumber, ClassHash, CompiledClassHash, ThinStateDiff};

verus! {

/// An error of the storage layer.
#[derive(Clone, Copy, Debug, PartialEq, Eq, Structural)]
pub enum StorageError {
    /// An error of the database.
    InnerError(DbError),
    /// The compiled form of this class is stored already.
    CompiledClassReWrite { class_hash: ClassHash },
}

pub type StorageResult<V> = Result<V, StorageError>;

/// A marker as read from the markers table: a kind with no entry yet is at
/// block zero.
pub fn marker_or_default(stored: Option<BlockNumber>) -> (r: BlockNumber)
    ensures
        r == (match stored {
            Some(b) => b,
            None => BlockNumber(0),
        }),
{
    match stored {
        Some(b) => b,
        None => BlockNumber(0),
    }
}

/// What the insertion of a compiled class under `class_hash` means to the
/// append: a key that is present already is a rewrite of that class.
pub fn casm_insert_outcome(inserted: Result<(), DbError>, class_hash: &ClassHash) -> (r:
    StorageResult<()>)
    ensures
        r == (match inserted {
            Ok(()) => Ok(()),
            Err(DbError::Inner(BackendError::KeyExist)) => Err(
                StorageError::CompiledClassReWrite { class_hash: *class_hash },
            ),
            Err(e) => Err(StorageError::InnerError(e)),
        }),
{
    match inserted {
        Ok(()) => Ok(()),
        Err(DbError::Inner(BackendError::KeyExist)) => Err(
            StorageError::CompiledClassReWrite { class_hash: *class_hash },
        ),
        Err(e) => Err(StorageError::InnerError(e)),
    }
}

/// A block with these declared classes still waits for a compiled class
/// after `appended` arrived: it declares classes, and the last of them is
/// another one.
pub open spec fn block_waits(
    declared: Seq<(ClassHash, CompiledClassHash)>,
    appended: ClassHash,
) -> bool {
    declared.len() > 0 && declared.last().0 != appended
}

/// The block `b` is complete once `appended` arrived: its state diff is
/// stored and does not wait.
pub open spec fn block_complete(
    diffs: Map<u64, Seq<(ClassHash, CompiledClassHash)>>,
    b: u64,
    appended: ClassHash,
) -> bool {
    diffs.contains_key(b) && !block_waits(diffs[b], appended)
}

/// The compiled-class marker after the compiled form of `appended` arrived
/// with the marker at `b`, where `diffs` holds the declared classes of every
/// stored state diff by block number: the marker moves past each complete
/// block in turn and stops at the first that is not (or at the largest block
/// number, which has no successor).
pub open spec fn advanced_marker(
    diffs: Map<u64, Seq<(ClassHash, CompiledClassHash)>>,
    b: u64,
    appended: ClassHash,
) -> u64
    decreases u64::MAX - b,
{
    if block_complete(diffs, b, appended) && b < u64::MAX {
        advanced_marker(diffs, (b + 1) as u64, appended)
    } else {
        b
    }
}

/// The marker never moves back, and every block that it passes is complete.
pub proof fn lemma_advanced_marker_passes_complete_blocks(
    diffs: Map<u64, Seq<(ClassHash, CompiledClassHash)>>,
    b: u64,
    appended: ClassHash,
)
    ensures
        b <= advanced_marker(diffs, b, appended),
        forall|k: u64|
            b <= k < advanced_marker(diffs, b, appended) ==> #[trigger] block_complete(
                diffs,
                k,
                appended,
            ),
    decreases u64::MAX - b,
{
    if block_complete(diffs, b, appended) && b < u64::MAX {
        lemma_advanced_marker_passes_complete_blocks(diffs, (b + 1) as u64, appended);
    }
}

/// The marker stops at the first block that is not complete: there the
/// state diff is missing, or it waits for another class (or there is no next
/// block number).
pub proof fn lemma_advanced_marker_stops_at_incomplete_block(
    diffs: Map<u64, Seq<(ClassHash, CompiledClassHash)>>,
    b: u64,
    appended: ClassHash,
)
    ensures
        !block_complete(diffs, advanced_marker(diffs, b, appended), appended)
            || advanced_marker(diffs, b, appended) == u64::MAX,
    decreases u64::MAX - b,
{
    if block_complete(diffs, b, appended) && b < u64::MAX {
        lemma_advanced_marker_stops_at_incomplete_block(diffs, (b + 1) as u64, appended);
    }
}

/// A class that is not the last one declared in the marker's block leaves the
/// marker where it is.
pub proof fn lemma_waiting_block_keeps_marker(
    diffs: Map<u64, Seq<(ClassHash, CompiledClassHash)>>,
    b: u64,
    appended: ClassHash,
)
    requires
        diffs.contains_key(b),
        block_waits(diffs[b], appended),
    ensures
        advanced_marker(diffs, b, appended) == b,
{
}

/// Advancing the compiled-class marker after a compiled class was appended:
/// the state of the walk over the following blocks.
///
/// The walk starts at the stored marker. For each block it names, the caller
/// reads that block's state diff and hands it to [`Self::on_state_diff`]; when
/// that returns a new marker, the caller stores it and goes on; when it
/// returns none, the walk is over.
pub struct CompiledClassMarkerUpdate {
    class_hash: ClassHash,
    block: BlockNumber,
    done: bool,
}

impl CompiledClassMarkerUpdate {
    /// The class whose compiled form was appended.
    pub closed spec fn appended(&self) -> ClassHash {
        self.class_hash
    }

    /// The block whose state diff is looked at next: the marker as it stands.
    pub closed spec fn current(&self) -> u64 {
        self.block.0
    }

    /// Whether the walk is over.
    pub closed spec fn finished(&self) -> bool {
        self.done
    }

    /// Starts the walk for the compiled class of `class_hash` at the stored
    /// marker.
    pub fn new(class_hash: ClassHash, marker: BlockNumber) -> (r: Self)
        ensures
            r.appended() == class_hash,
            r.current() == marker.0,
            !r.finished(),
    {
        CompiledClassMarkerUpdate { class_hash, block: marker, done: false }
    }

    /// The block whose state diff the caller reads next.
    pub fn block(&self) -> (r: BlockNumber)
        ensures
            r.0 == self.current(),
    {
        self.block
    }

    /// Whether the walk is over.
    pub fn is_done(&self) -> (r: bool)
        ensures
            r == self.finished(),
    {
        self.done
    }

    /// Takes the state diff stored for [`Self::block`] (none if there is
    /// none yet). Returns the new marker, which the caller stores, if that
    /// block is now complete; otherwise the walk is over.
    pub fn on_state_diff(&mut self, state_diff: Option<&ThinStateDiff>) -> (r: Option<
        BlockNumber,
    >)
        requires
            !old(self).finished(),
        ensures
            final(self).appended() == old(self).appended(),
            r == (match state_diff {
                Some(d) => if !block_waits(d@, old(self).appended()) && old(self).current()
                    < u64::MAX {
                    Some(BlockNumber((old(self).current() + 1) as u64))
                } else {
                    None::<BlockNumber>
                },
                None => None::<BlockNumber>,
            }),
            r matches Some(n) ==> final(self).current() == n.0 && !final(self).finished(),
            r is None ==> final(self).current() == old(self).current(),
            r is None ==> final(self).finished(),
    {
        let diff = match state_diff {
            Some(d) => d,
            None => {
                self.done = true;
                return None;
            },
        };
        let n = diff.declared_classes.len();
        if n > 0 && diff.declared_classes[n - 1].0 != self.class_hash {
            // Another class declared later in this block is still missing.
            self.done = true;
            return None;
        }
        if self.block.0 == u64::MAX {
            self.done = true;
            return None;
        }
        self.block = self.block.next();
        Some(self.block)
    }
}

/// A walk that is told the state diffs that `diffs` holds ends with the
/// marker at [`advanced_marker`]: each step that moves the marker keeps the
/// target where it was, and a step that ends the walk ends it there.
pub proof fn lemma_walk_step_keeps_target(
    diffs: Map<u64, Seq<(ClassHash, CompiledClassHash)>>,
    b: u64,
    appended: ClassHash,
)
    ensures
        block_complete(diffs, b, appended) && b < u64::MAX ==> advanced_marker(
            diffs,
            (b + 1) as u64,
            appended,
        ) == advanced_marker(diffs, b, appended),
        !(block_complete(diffs, b, appended) && b < u64::MAX) ==> advanced_marker(
            diffs,
            b,
            appended,
        ) == b,
{
}

} // verus!
