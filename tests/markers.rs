use std::collections::BTreeMap;

use papyrus_storage::db::{BackendError, DbError};
use papyrus_storage::markers::{
    casm_insert_outcome, marker_or_default, CompiledClassMarkerUpdate, StorageError,
};
use papyrus_storage::types::{BlockNumber, ClassHash, CompiledClassHash, StarkHash, ThinStateDiff};

fn hash(n: u64) -> ClassHash {
    ClassHash(StarkHash(0, 0, 0, n))
}

fn diff(classes: &[u64]) -> ThinStateDiff {
    ThinStateDiff {
        declared_classes: classes
            .iter()
            .map(|c| (hash(*c), CompiledClassHash(StarkHash(1, 0, 0, *c))))
            .collect(),
    }
}

/// A stand-in for the store: state diffs by block, the compiled classes, and
/// the compiled-class marker.
struct Store {
    state_diffs: BTreeMap<u64, ThinStateDiff>,
    casms: Vec<ClassHash>,
    marker: Option<BlockNumber>,
}

impl Store {
    fn insert_casm(&mut self, class_hash: ClassHash) -> Result<(), DbError> {
        if self.casms.contains(&class_hash) {
            return Err(DbError::Inner(BackendError::KeyExist));
        }
        self.casms.push(class_hash);
        Ok(())
    }

    fn append_casm(&mut self, class_hash: ClassHash) -> Result<(), StorageError> {
        let inserted = self.insert_casm(class_hash);
        casm_insert_outcome(inserted, &class_hash)?;
        let mut walk = CompiledClassMarkerUpdate::new(class_hash, marker_or_default(self.marker));
        while !walk.is_done() {
            let block = walk.block();
            let state_diff = self.state_diffs.get(&block.0);
            if let Some(next) = walk.on_state_diff(state_diff) {
                self.marker = Some(next);
            }
        }
        Ok(())
    }

    fn marker(&self) -> BlockNumber {
        marker_or_default(self.marker)
    }
}

fn store(diffs: &[(u64, &[u64])]) -> Store {
    Store {
        state_diffs: diffs.iter().map(|(b, c)| (*b, diff(c))).collect(),
        casms: Vec::new(),
        marker: None,
    }
}

#[test]
fn marker_waits_for_last_declared_class_then_skips_empty_blocks() {
    let a = 10;
    let b = 11;
    let mut s = store(&[(0, &[a, b]), (1, &[])]);
    assert_eq!(s.marker(), BlockNumber(0));
    s.append_casm(hash(a)).unwrap();
    assert_eq!(s.marker(), BlockNumber(0));
    s.append_casm(hash(b)).unwrap();
    assert_eq!(s.marker(), BlockNumber(2));
}

#[test]
fn duplicate_casm_is_a_rewrite_and_keeps_marker() {
    let mut s = store(&[(0, &[1]), (1, &[2])]);
    s.append_casm(hash(1)).unwrap();
    assert_eq!(s.marker(), BlockNumber(1));
    let err = s.append_casm(hash(1)).unwrap_err();
    assert_eq!(err, StorageError::CompiledClassReWrite { class_hash: hash(1) });
    assert_eq!(s.marker(), BlockNumber(1));
}

#[test]
fn marker_stops_at_missing_state_diff() {
    let mut s = store(&[(0, &[1]), (2, &[])]);
    s.append_casm(hash(1)).unwrap();
    assert_eq!(s.marker(), BlockNumber(1));
}

#[test]
fn marker_stays_without_state_diff_for_its_block() {
    let mut s = store(&[]);
    s.append_casm(hash(1)).unwrap();
    assert_eq!(s.marker(), BlockNumber(0));
}

#[test]
fn marker_passes_run_of_empty_blocks() {
    let mut s = store(&[(0, &[5]), (1, &[]), (2, &[]), (3, &[]), (4, &[6])]);
    s.append_casm(hash(5)).unwrap();
    assert_eq!(s.marker(), BlockNumber(4));
    s.append_casm(hash(6)).unwrap();
    assert_eq!(s.marker(), BlockNumber(5));
}

#[test]
fn walk_step_by_step() {
    let mut walk = CompiledClassMarkerUpdate::new(hash(3), BlockNumber(7));
    assert_eq!(walk.block(), BlockNumber(7));
    assert!(!walk.is_done());
    assert_eq!(walk.on_state_diff(Some(&diff(&[1, 3]))), Some(BlockNumber(8)));
    assert_eq!(walk.block(), BlockNumber(8));
    assert_eq!(walk.on_state_diff(Some(&diff(&[4]))), None);
    assert!(walk.is_done());
    assert_eq!(walk.block(), BlockNumber(8));
}

#[test]
fn walk_stops_at_largest_block_number() {
    let mut walk = CompiledClassMarkerUpdate::new(hash(3), BlockNumber(u64::MAX));
    assert_eq!(walk.on_state_diff(Some(&diff(&[]))), None);
    assert!(walk.is_done());
    assert_eq!(walk.block(), BlockNumber(u64::MAX));
}

#[test]
fn insert_outcomes() {
    assert_eq!(casm_insert_outcome(Ok(()), &hash(1)), Ok(()));
    assert_eq!(
        casm_insert_outcome(Err(DbError::Inner(BackendError::MapFull)), &hash(1)),
        Err(StorageError::InnerError(DbError::Inner(BackendError::MapFull)))
    );
    assert_eq!(
        casm_insert_outcome(Err(DbError::InnerDeserialization), &hash(1)),
        Err(StorageError::InnerError(DbError::InnerDeserialization))
    );
}

#[test]
fn absent_marker_is_block_zero() {
    assert_eq!(marker_or_default(None), BlockNumber(0));
    assert_eq!(marker_or_default(Some(BlockNumber(3))), BlockNumber(3));
}
