use papyrus_storage::serialization::StorageSerde;
use papyrus_storage::types::{
    BlockNumber, CasmContractClass, ClassHash, CompiledClassHash, MarkerKind, StarkHash,
    ThinStateDiff,
};

fn hash(n: u64) -> ClassHash {
    ClassHash(StarkHash(0, 0, 0, n))
}

#[test]
fn block_number_is_eight_big_endian_bytes() {
    let bytes = BlockNumber(0x0102030405060708).serialize().unwrap();
    assert_eq!(bytes, vec![1, 2, 3, 4, 5, 6, 7, 8]);
}

#[test]
fn block_number_round_trip() {
    for n in [0u64, 1, 255, 256, 1 << 40, u64::MAX] {
        let bytes = BlockNumber(n).serialize().unwrap();
        assert_eq!(BlockNumber::deserialize(&bytes), Some(BlockNumber(n)));
    }
}

#[test]
fn block_number_rejects_wrong_length() {
    assert_eq!(BlockNumber::deserialize(&[1, 2, 3]), None);
    assert_eq!(BlockNumber::deserialize(&[0; 9]), None);
    assert_eq!(BlockNumber::deserialize(&[]), None);
}

#[test]
fn block_number_byte_order_is_numeric_order() {
    let keys = [1u64, 3, 5, 7, 255, 256, 1 << 32];
    for a in keys {
        for b in keys {
            let ea = BlockNumber(a).serialize().unwrap();
            let eb = BlockNumber(b).serialize().unwrap();
            assert_eq!(ea < eb, a < b);
        }
    }
}

#[test]
fn class_hash_round_trip() {
    let h = ClassHash(StarkHash(1, 2, 3, u64::MAX));
    let bytes = h.serialize().unwrap();
    assert_eq!(bytes.len(), 32);
    assert_eq!(bytes[7], 1);
    assert_eq!(bytes[31], 0xff);
    assert_eq!(ClassHash::deserialize(&bytes), Some(h));
    assert_eq!(ClassHash::deserialize(&bytes[1..]), None);
}

#[test]
fn marker_kind_round_trip() {
    for k in [
        MarkerKind::Header,
        MarkerKind::Body,
        MarkerKind::State,
        MarkerKind::CompiledClass,
        MarkerKind::BaseLayerBlock,
    ] {
        let bytes = k.serialize().unwrap();
        assert_eq!(bytes.len(), 1);
        assert_eq!(MarkerKind::deserialize(&bytes), Some(k));
    }
    assert_eq!(MarkerKind::CompiledClass.serialize().unwrap(), vec![3]);
    assert_eq!(MarkerKind::deserialize(&[5]), None);
    assert_eq!(MarkerKind::deserialize(&[0, 0]), None);
}

#[test]
fn state_diff_round_trip() {
    let diff = ThinStateDiff {
        declared_classes: vec![
            (hash(1), CompiledClassHash(StarkHash(9, 0, 0, 1))),
            (hash(2), CompiledClassHash(StarkHash(0, 9, 0, 2))),
        ],
    };
    let bytes = diff.serialize().unwrap();
    assert_eq!(bytes.len(), 8 + 2 * 64);
    assert_eq!(&bytes[..8], &[0, 0, 0, 0, 0, 0, 0, 2]);
    let back = ThinStateDiff::deserialize(&bytes).unwrap();
    assert_eq!(back.declared_classes, diff.declared_classes);
}

#[test]
fn empty_state_diff_round_trip() {
    let diff = ThinStateDiff { declared_classes: vec![] };
    let bytes = diff.serialize().unwrap();
    assert_eq!(bytes, vec![0; 8]);
    let back = ThinStateDiff::deserialize(&bytes).unwrap();
    assert!(back.declared_classes.is_empty());
}

#[test]
fn state_diff_rejects_truncated_bytes() {
    let diff = ThinStateDiff { declared_classes: vec![(hash(1), CompiledClassHash(StarkHash(0, 0, 0, 1)))] };
    let bytes = diff.serialize().unwrap();
    assert!(ThinStateDiff::deserialize(&bytes[..bytes.len() - 1]).is_none());
    assert!(ThinStateDiff::deserialize(&bytes[..4]).is_none());
    let mut longer = bytes.clone();
    longer.push(0);
    assert!(ThinStateDiff::deserialize(&longer).is_none());
}

#[test]
fn casm_round_trip() {
    let casm = CasmContractClass { bytes: vec![7, 0, 7] };
    let bytes = casm.serialize().unwrap();
    assert_eq!(bytes, vec![7, 0, 7]);
    assert_eq!(CasmContractClass::deserialize(&bytes).unwrap().bytes, vec![7, 0, 7]);
}
