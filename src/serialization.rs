//! The byte encoding of every key and value that the store holds.
//!
//! Integers are written big-endian, so that the byte order of encoded keys is
//! their numeric order.
use vstd::prelude::*;

use crate::types::{
    BlockNumber, CasmContractClass, ClassHash, CompiledClassHash, MarkerKind, StarkHash, ThinStateDiff,
};

verus! {

/// The eight big-endian bytes of `x`.
pub open spec fn u64_be_bytes(x: u64) -> Seq<u8> {
    seq![
        (x >> 56u64) as u8,
        (x >> 48u64) as u8,
        (x >> 40u64) as u8,
        (x >> 32u64) as u8,
        (x >> 24u64) as u8,
        (x >> 16u64) as u8,
        (x >> 8u64) as u8,
        x as u8,
    ]
}

/// The integer whose big-endian bytes are `b[0..8]`.
#[verifier::opaque]
pub open spec fn u64_from_be(b: Seq<u8>) -> u64 {
    ((b[0] as u64) << 56u64) | ((b[1] as u64) << 48u64) | ((b[2] as u64) << 40u64) | ((
    b[3] as u64) << 32u64) | ((b[4] as u64) << 24u64) | ((b[5] as u64) << 16u64) | ((
    b[6] as u64) << 8u64) | (b[7] as u64)
}

pub proof fn lemma_u64_be_round_trip(x: u64)
    ensures
        u64_from_be(u64_be_bytes(x)) == x,
{
    reveal(u64_from_be);
    assert(((((x >> 56u64) as u8) as u64) << 56u64) | ((((x >> 48u64) as u8) as u64) << 48u64)
        | ((((x >> 40u64) as u8) as u64) << 40u64) | ((((x >> 32u64) as u8) as u64) << 32u64)
        | ((((x >> 24u64) as u8) as u64) << 24u64) | ((((x >> 16u64) as u8) as u64) << 16u64)
        | ((((x >> 8u64) as u8) as u64) << 8u64) | ((x as u8) as u64) == x) by (bit_vector);
}

/// `a` comes before `b` in the store's key order: at the first position where
/// they differ the byte of `a` is smaller, or `a` is a proper prefix of `b`.
pub open spec fn bytes_less(a: Seq<u8>, b: Seq<u8>) -> bool
    decreases a.len(),
{
    if a.len() == 0 {
        b.len() > 0
    } else if b.len() == 0 {
        false
    } else if a[0] != b[0] {
        a[0] < b[0]
    } else {
        bytes_less(a.drop_first(), b.drop_first())
    }
}

/// The store orders big-endian encoded integers as the integers are ordered.
pub proof fn lemma_u64_be_order(x: u64, y: u64)
    ensures
        bytes_less(u64_be_bytes(x), u64_be_bytes(y)) == (x < y),
{
    reveal_with_fuel(bytes_less, 9);
    let a = u64_be_bytes(x);
    let b = u64_be_bytes(y);
    assert(a.drop_first().drop_first().drop_first().drop_first().drop_first().drop_first()
        .drop_first().drop_first().len() == 0);
    let (a0, a1, a2, a3, a4, a5, a6, a7) = (a[0], a[1], a[2], a[3], a[4], a[5], a[6], a[7]);
    let (b0, b1, b2, b3, b4, b5, b6, b7) = (b[0], b[1], b[2], b[3], b[4], b[5], b[6], b[7]);
    assert(bytes_less(a, b) == (if a0 != b0 {
        a0 < b0
    } else if a1 != b1 {
        a1 < b1
    } else if a2 != b2 {
        a2 < b2
    } else if a3 != b3 {
        a3 < b3
    } else if a4 != b4 {
        a4 < b4
    } else if a5 != b5 {
        a5 < b5
    } else if a6 != b6 {
        a6 < b6
    } else if a7 != b7 {
        a7 < b7
    } else {
        false
    }));
    assert((if (x >> 56u64) as u8 != (y >> 56u64) as u8 {
        ((x >> 56u64) as u8) < ((y >> 56u64) as u8)
    } else if (x >> 48u64) as u8 != (y >> 48u64) as u8 {
        ((x >> 48u64) as u8) < ((y >> 48u64) as u8)
    } else if (x >> 40u64) as u8 != (y >> 40u64) as u8 {
        ((x >> 40u64) as u8) < ((y >> 40u64) as u8)
    } else if (x >> 32u64) as u8 != (y >> 32u64) as u8 {
        ((x >> 32u64) as u8) < ((y >> 32u64) as u8)
    } else if (x >> 24u64) as u8 != (y >> 24u64) as u8 {
        ((x >> 24u64) as u8) < ((y >> 24u64) as u8)
    } else if (x >> 16u64) as u8 != (y >> 16u64) as u8 {
        ((x >> 16u64) as u8) < ((y >> 16u64) as u8)
    } else if (x >> 8u64) as u8 != (y >> 8u64) as u8 {
        ((x >> 8u64) as u8) < ((y >> 8u64) as u8)
    } else if x as u8 != y as u8 {
        (x as u8) < (y as u8)
    } else {
        false
    }) == (x < y)) by (bit_vector);
}

/// An error while encoding a value for the store.
#[derive(Clone, Copy, Debug, PartialEq, Eq, Structural)]
pub struct SerializationError;

/// A type that the store can hold: it has one byte encoding per value, and
/// decoding gives back exactly the value that was encoded.
pub trait StorageSerde: Sized + View {
    /// The bytes that stand for the value `v`.
    spec fn spec_encode(v: Self::V) -> Seq<u8>;

    /// The value that `bytes` stand for, if any.
    spec fn spec_decode(bytes: Seq<u8>) -> Option<Self::V>;

    /// A value that this type can hold.
    spec fn spec_valid(v: Self::V) -> bool;

    proof fn lemma_valid(&self)
        ensures
            Self::spec_valid(self@),
    ;

    /// Decoding an encoding gives back the value.
    proof fn lemma_round_trip(v: Self::V)
        requires
            Self::spec_valid(v),
        ensures
            Self::spec_decode(Self::spec_encode(v)) == Some(v),
    ;

    /// Whatever decodes, decodes from its own encoding only.
    proof fn lemma_decode_encodes(bytes: Seq<u8>)
        requires
            Self::spec_decode(bytes) is Some,
        ensures
            Self::spec_valid(Self::spec_decode(bytes)->0),
            Self::spec_encode(Self::spec_decode(bytes)->0) == bytes,
    ;

    fn serialize(&self) -> (r: Result<Vec<u8>, SerializationError>)
        ensures
            r matches Ok(b) && b@ == Self::spec_encode(self@),
    ;

    fn deserialize(bytes: &[u8]) -> (r: Option<Self>)
        ensures
            r is Some == Self::spec_decode(bytes@) is Some,
            r matches Some(v) ==> Self::spec_decode(bytes@) == Some(v@),
    ;
}

/// Decoding the encoding of any value that the store can hold gives back that
/// value.
pub proof fn lemma_decode_of_encode<T: StorageSerde>(x: T)
    ensures
        T::spec_decode(T::spec_encode(x@)) == Some(x@),
{
    x.lemma_valid();
    T::lemma_round_trip(x@);
}

/// Appends the big-endian bytes of `x` to `out`.
pub fn push_u64_be(out: &mut Vec<u8>, x: u64)
    ensures
        final(out)@ == old(out)@ + u64_be_bytes(x),
{
    out.push((x >> 56u64) as u8);
    out.push((x >> 48u64) as u8);
    out.push((x >> 40u64) as u8);
    out.push((x >> 32u64) as u8);
    out.push((x >> 24u64) as u8);
    out.push((x >> 16u64) as u8);
    out.push((x >> 8u64) as u8);
    out.push(x as u8);
    assert(final(out)@ =~= old(out)@ + u64_be_bytes(x));
}

/// Reads the big-endian integer at `bytes[at..at + 8]`.
pub fn read_u64_be(bytes: &[u8], at: usize) -> (r: u64)
    requires
        at + 8 <= bytes@.len(),
    ensures
        r == u64_from_be(bytes@.subrange(at as int, at + 8)),
{
    let r = ((bytes[at] as u64) << 56u64) | ((bytes[at + 1] as u64) << 48u64) | ((bytes[at
        + 2] as u64) << 40u64) | ((bytes[at + 3] as u64) << 32u64) | ((bytes[at + 4] as u64)
        << 24u64) | ((bytes[at + 5] as u64) << 16u64) | ((bytes[at + 6] as u64) << 8u64) | (
    bytes[at + 7] as u64);
    proof {
        reveal(u64_from_be);
    }
    let ghost s = bytes@.subrange(at as int, at + 8);
    assert(s[0] == bytes@[at as int] && s[1] == bytes@[at + 1] && s[2] == bytes@[at + 2] && s[3]
        == bytes@[at + 3] && s[4] == bytes@[at + 4] && s[5] == bytes@[at + 5] && s[6]
        == bytes@[at + 6] && s[7] == bytes@[at + 7]);
    r
}

impl StorageSerde for BlockNumber {
    open spec fn spec_encode(v: BlockNumber) -> Seq<u8> {
        u64_be_bytes(v.0)
    }

    open spec fn spec_decode(bytes: Seq<u8>) -> Option<BlockNumber> {
        if bytes.len() == 8 {
            Some(BlockNumber(u64_from_be(bytes)))
        } else {
            None
        }
    }

    open spec fn spec_valid(v: BlockNumber) -> bool {
        true
    }

    proof fn lemma_valid(&self) {
    }

    proof fn lemma_round_trip(v: BlockNumber) {
        lemma_u64_be_round_trip(v.0);
    }

    proof fn lemma_decode_encodes(bytes: Seq<u8>) {
        lemma_u64_be_bytes_of_decode(bytes);
    }

    fn serialize(&self) -> (r: Result<Vec<u8>, SerializationError>) {
        let mut out: Vec<u8> = Vec::new();
        push_u64_be(&mut out, self.0);
        assert(out@ =~= u64_be_bytes(self.0));
        Ok(out)
    }

    fn deserialize(bytes: &[u8]) -> (r: Option<BlockNumber>) {
        if bytes.len() == 8 {
            let x = read_u64_be(bytes, 0);
            assert(bytes@.subrange(0, 8) =~= bytes@);
            Some(BlockNumber(x))
        } else {
            None
        }
    }
}

/// Eight bytes are the encoding of the integer that they decode to.
pub proof fn lemma_u64_be_bytes_of_decode(b: Seq<u8>)
    requires
        b.len() == 8,
    ensures
        u64_be_bytes(u64_from_be(b)) =~= b,
{
    reveal(u64_from_be);
    let (b0, b1, b2, b3, b4, b5, b6, b7) = (b[0], b[1], b[2], b[3], b[4], b[5], b[6], b[7]);
    let x = u64_from_be(b);
    assert(x == ((b0 as u64) << 56u64) | ((b1 as u64) << 48u64) | ((b2 as u64) << 40u64) | ((
    b3 as u64) << 32u64) | ((b4 as u64) << 24u64) | ((b5 as u64) << 16u64) | ((b6 as u64)
        << 8u64) | (b7 as u64));
    assert((x >> 56u64) as u8 == b0 && (x >> 48u64) as u8 == b1 && (x >> 40u64) as u8 == b2
        && (x >> 32u64) as u8 == b3 && (x >> 24u64) as u8 == b4 && (x >> 16u64) as u8 == b5
        && (x >> 8u64) as u8 == b6 && x as u8 == b7) by (bit_vector)
        requires
            x == ((b0 as u64) << 56u64) | ((b1 as u64) << 48u64) | ((b2 as u64) << 40u64) | ((
            b3 as u64) << 32u64) | ((b4 as u64) << 24u64) | ((b5 as u64) << 16u64) | ((
            b6 as u64) << 8u64) | (b7 as u64),
    ;
}


/// The 32 big-endian bytes of a field element.
pub open spec fn felt_bytes(h: StarkHash) -> Seq<u8> {
    u64_be_bytes(h.0) + u64_be_bytes(h.1) + u64_be_bytes(h.2) + u64_be_bytes(h.3)
}

/// The field element whose big-endian bytes are `b[at..at + 32]`.
pub open spec fn felt_at(b: Seq<u8>, at: int) -> StarkHash {
    StarkHash(
        u64_from_be(b.subrange(at, at + 8)),
        u64_from_be(b.subrange(at + 8, at + 16)),
        u64_from_be(b.subrange(at + 16, at + 24)),
        u64_from_be(b.subrange(at + 24, at + 32)),
    )
}

pub proof fn lemma_felt_round_trip(h: StarkHash, pre: Seq<u8>, post: Seq<u8>)
    ensures
        felt_at(pre + felt_bytes(h) + post, pre.len() as int) == h,
{
    let b = pre + felt_bytes(h) + post;
    let p = pre.len() as int;
    assert(b.subrange(p, p + 8) =~= u64_be_bytes(h.0));
    assert(b.subrange(p + 8, p + 16) =~= u64_be_bytes(h.1));
    assert(b.subrange(p + 16, p + 24) =~= u64_be_bytes(h.2));
    assert(b.subrange(p + 24, p + 32) =~= u64_be_bytes(h.3));
    lemma_u64_be_round_trip(h.0);
    lemma_u64_be_round_trip(h.1);
    lemma_u64_be_round_trip(h.2);
    lemma_u64_be_round_trip(h.3);
}

pub proof fn lemma_felt_bytes_of_decode(b: Seq<u8>, at: int)
    requires
        0 <= at,
        at + 32 <= b.len(),
    ensures
        felt_bytes(felt_at(b, at)) =~= b.subrange(at, at + 32),
{
    lemma_u64_be_bytes_of_decode(b.subrange(at, at + 8));
    lemma_u64_be_bytes_of_decode(b.subrange(at + 8, at + 16));
    lemma_u64_be_bytes_of_decode(b.subrange(at + 16, at + 24));
    lemma_u64_be_bytes_of_decode(b.subrange(at + 24, at + 32));
}

/// Appends the big-endian bytes of `h` to `out`.
pub fn push_felt(out: &mut Vec<u8>, h: &StarkHash)
    ensures
        final(out)@ == old(out)@ + felt_bytes(*h),
{
    push_u64_be(out, h.0);
    push_u64_be(out, h.1);
    push_u64_be(out, h.2);
    push_u64_be(out, h.3);
    assert(final(out)@ =~= old(out)@ + felt_bytes(*h));
}

/// Reads the field element at `bytes[at..at + 32]`.
pub fn read_felt(bytes: &[u8], at: usize) -> (r: StarkHash)
    requires
        at + 32 <= bytes@.len(),
    ensures
        r == felt_at(bytes@, at as int),
{
    let n = bytes.len();
    assert(at + 32 <= n);
    StarkHash(
        read_u64_be(bytes, at),
        read_u64_be(bytes, at + 8),
        read_u64_be(bytes, at + 16),
        read_u64_be(bytes, at + 24),
    )
}

impl StorageSerde for ClassHash {
    open spec fn spec_encode(v: ClassHash) -> Seq<u8> {
        felt_bytes(v.0)
    }

    open spec fn spec_decode(bytes: Seq<u8>) -> Option<ClassHash> {
        if bytes.len() == 32 {
            Some(ClassHash(felt_at(bytes, 0)))
        } else {
            None
        }
    }

    open spec fn spec_valid(v: ClassHash) -> bool {
        true
    }

    proof fn lemma_valid(&self) {
    }

    proof fn lemma_round_trip(v: ClassHash) {
        let e = Seq::<u8>::empty();
        lemma_felt_round_trip(v.0, e, e);
        assert(e + felt_bytes(v.0) + e =~= felt_bytes(v.0));
    }

    proof fn lemma_decode_encodes(bytes: Seq<u8>) {
        lemma_felt_bytes_of_decode(bytes, 0);
        assert(bytes.subrange(0, 32) =~= bytes);
    }

    fn serialize(&self) -> (r: Result<Vec<u8>, SerializationError>) {
        let mut out: Vec<u8> = Vec::new();
        push_felt(&mut out, &self.0);
        assert(out@ =~= felt_bytes(self.0));
        Ok(out)
    }

    fn deserialize(bytes: &[u8]) -> (r: Option<ClassHash>) {
        if bytes.len() == 32 {
            Some(ClassHash(read_felt(bytes, 0)))
        } else {
            None
        }
    }
}

/// The one byte that stands for a marker kind.
pub open spec fn marker_kind_byte(k: MarkerKind) -> u8 {
    match k {
        MarkerKind::Header => 0,
        MarkerKind::Body => 1,
        MarkerKind::State => 2,
        MarkerKind::CompiledClass => 3,
        MarkerKind::BaseLayerBlock => 4,
    }
}

/// The marker kind that a byte stands for, if any.
pub open spec fn marker_kind_of_byte(b: u8) -> Option<MarkerKind> {
    if b == 0 {
        Some(MarkerKind::Header)
    } else if b == 1 {
        Some(MarkerKind::Body)
    } else if b == 2 {
        Some(MarkerKind::State)
    } else if b == 3 {
        Some(MarkerKind::CompiledClass)
    } else if b == 4 {
        Some(MarkerKind::BaseLayerBlock)
    } else {
        None
    }
}

impl StorageSerde for MarkerKind {
    open spec fn spec_encode(v: MarkerKind) -> Seq<u8> {
        seq![marker_kind_byte(v)]
    }

    open spec fn spec_decode(bytes: Seq<u8>) -> Option<MarkerKind> {
        if bytes.len() == 1 {
            marker_kind_of_byte(bytes[0])
        } else {
            None
        }
    }

    open spec fn spec_valid(v: MarkerKind) -> bool {
        true
    }

    proof fn lemma_valid(&self) {
    }

    proof fn lemma_round_trip(v: MarkerKind) {
    }

    proof fn lemma_decode_encodes(bytes: Seq<u8>) {
        assert(seq![marker_kind_byte(marker_kind_of_byte(bytes[0])->0)] =~= bytes);
    }

    fn serialize(&self) -> (r: Result<Vec<u8>, SerializationError>) {
        let b: u8 = match self {
            MarkerKind::Header => 0,
            MarkerKind::Body => 1,
            MarkerKind::State => 2,
            MarkerKind::CompiledClass => 3,
            MarkerKind::BaseLayerBlock => 4,
        };
        let out = vec![b];
        assert(out@ =~= seq![marker_kind_byte(*self)]);
        Ok(out)
    }

    fn deserialize(bytes: &[u8]) -> (r: Option<MarkerKind>) {
        if bytes.len() != 1 {
            return None;
        }
        let b = bytes[0];
        if b == 0 {
            Some(MarkerKind::Header)
        } else if b == 1 {
            Some(MarkerKind::Body)
        } else if b == 2 {
            Some(MarkerKind::State)
        } else if b == 3 {
            Some(MarkerKind::CompiledClass)
        } else if b == 4 {
            Some(MarkerKind::BaseLayerBlock)
        } else {
            None
        }
    }
}

/// A vector holding the bytes of `bytes`.
pub fn copy_bytes(bytes: &[u8]) -> (r: Vec<u8>)
    ensures
        r@ == bytes@,
{
    let mut out: Vec<u8> = Vec::new();
    let mut i: usize = 0;
    while i < bytes.len()
        invariant
            i <= bytes@.len(),
            out@ == bytes@.subrange(0, i as int),
        decreases bytes@.len() - i,
    {
        out.push(bytes[i]);
        i += 1;
        assert(out@ =~= bytes@.subrange(0, i as int));
    }
    assert(bytes@.subrange(0, i as int) =~= bytes@);
    out
}

impl StorageSerde for CasmContractClass {
    open spec fn spec_encode(v: Seq<u8>) -> Seq<u8> {
        v
    }

    open spec fn spec_decode(bytes: Seq<u8>) -> Option<Seq<u8>> {
        Some(bytes)
    }

    open spec fn spec_valid(v: Seq<u8>) -> bool {
        true
    }

    proof fn lemma_valid(&self) {
    }

    proof fn lemma_round_trip(v: Seq<u8>) {
    }

    proof fn lemma_decode_encodes(bytes: Seq<u8>) {
    }

    fn serialize(&self) -> (r: Result<Vec<u8>, SerializationError>) {
        Ok(self.bytes.clone())
    }

    fn deserialize(bytes: &[u8]) -> (r: Option<CasmContractClass>) {
        Some(CasmContractClass { bytes: copy_bytes(bytes) })
    }
}

/// The 64 bytes of one declared class: its hash, then its compiled hash.
pub open spec fn declared_entry_bytes(e: (ClassHash, CompiledClassHash)) -> Seq<u8> {
    felt_bytes(e.0.0) + felt_bytes(e.1.0)
}

/// The entries of `s`, one after the other.
pub open spec fn declared_entries_bytes(s: Seq<(ClassHash, CompiledClassHash)>) -> Seq<u8>
    decreases s.len(),
{
    if s.len() == 0 {
        Seq::empty()
    } else {
        declared_entries_bytes(s.drop_last()) + declared_entry_bytes(s.last())
    }
}

/// The declared class whose 64 bytes start at `b[at]`.
pub open spec fn declared_entry_at(b: Seq<u8>, at: int) -> (ClassHash, CompiledClassHash) {
    (ClassHash(felt_at(b, at)), CompiledClassHash(felt_at(b, at + 32)))
}

proof fn lemma_felt_at_prefix(b: Seq<u8>, c: Seq<u8>, at: int)
    requires
        0 <= at,
        at + 32 <= b.len(),
    ensures
        felt_at(b + c, at) == felt_at(b, at),
{
    assert((b + c).subrange(at, at + 8) =~= b.subrange(at, at + 8));
    assert((b + c).subrange(at + 8, at + 16) =~= b.subrange(at + 8, at + 16));
    assert((b + c).subrange(at + 16, at + 24) =~= b.subrange(at + 16, at + 24));
    assert((b + c).subrange(at + 24, at + 32) =~= b.subrange(at + 24, at + 32));
}

proof fn lemma_declared_entries_len(s: Seq<(ClassHash, CompiledClassHash)>)
    ensures
        declared_entries_bytes(s).len() == 64 * s.len(),
    decreases s.len(),
{
    if s.len() > 0 {
        lemma_declared_entries_len(s.drop_last());
    }
}

proof fn lemma_declared_entries_read(pre: Seq<u8>, s: Seq<(ClassHash, CompiledClassHash)>, i: int)
    requires
        0 <= i < s.len(),
    ensures
        declared_entry_at(pre + declared_entries_bytes(s), pre.len() + 64 * i) == s[i],
    decreases s.len(),
{
    let init = s.drop_last();
    let e = s.last();
    lemma_declared_entries_len(init);
    let body = pre + declared_entries_bytes(init);
    assert(pre + declared_entries_bytes(s) =~= body + declared_entry_bytes(e));
    if i < s.len() - 1 {
        lemma_declared_entries_read(pre, init, i);
        lemma_felt_at_prefix(body, declared_entry_bytes(e), pre.len() + 64 * i);
        lemma_felt_at_prefix(body, declared_entry_bytes(e), pre.len() + 64 * i + 32);
    } else {
        lemma_felt_round_trip(e.0.0, body, felt_bytes(e.1.0));
        assert(body + declared_entry_bytes(e) =~= body + felt_bytes(e.0.0) + felt_bytes(e.1.0));
        lemma_felt_round_trip(e.1.0, body + felt_bytes(e.0.0), Seq::empty());
        assert(body + felt_bytes(e.0.0) + felt_bytes(e.1.0) =~= body + felt_bytes(e.0.0)
            + felt_bytes(e.1.0) + Seq::<u8>::empty());
    }
}

proof fn lemma_declared_entries_of_decode(b: Seq<u8>, k: nat)
    requires
        8 + 64 * k <= b.len(),
    ensures
        declared_entries_bytes(Seq::new(k, |i: int| declared_entry_at(b, 8 + 64 * i)))
            =~= b.subrange(8, 8 + 64 * k as int),
    decreases k,
{
    if k > 0 {
        let f = |i: int| declared_entry_at(b, 8 + 64 * i);
        let j = (k - 1) as nat;
        lemma_declared_entries_of_decode(b, j);
        assert(Seq::new(k, f).drop_last() =~= Seq::new(j, f));
        lemma_felt_bytes_of_decode(b, 8 + 64 * j as int);
        lemma_felt_bytes_of_decode(b, 8 + 64 * j as int + 32);
    }
}

impl StorageSerde for ThinStateDiff {
    open spec fn spec_encode(v: Seq<(ClassHash, CompiledClassHash)>) -> Seq<u8> {
        u64_be_bytes(v.len() as u64) + declared_entries_bytes(v)
    }

    open spec fn spec_decode(bytes: Seq<u8>) -> Option<Seq<(ClassHash, CompiledClassHash)>> {
        if bytes.len() >= 8 && bytes.len() - 8 == 64 * u64_from_be(bytes.subrange(0, 8)) {
            Some(
                Seq::new(
                    u64_from_be(bytes.subrange(0, 8)) as nat,
                    |i: int| declared_entry_at(bytes, 8 + 64 * i),
                ),
            )
        } else {
            None
        }
    }

    open spec fn spec_valid(v: Seq<(ClassHash, CompiledClassHash)>) -> bool {
        v.len() <= u64::MAX
    }

    proof fn lemma_valid(&self) {
        assert(self.declared_classes.len() == self.declared_classes@.len());
    }

    proof fn lemma_round_trip(v: Seq<(ClassHash, CompiledClassHash)>) {
        let b = Self::spec_encode(v);
        let hdr = u64_be_bytes(v.len() as u64);
        lemma_declared_entries_len(v);
        assert(b.subrange(0, 8) =~= hdr);
        lemma_u64_be_round_trip(v.len() as u64);
        let d = Seq::new(v.len(), |i: int| declared_entry_at(b, 8 + 64 * i));
        assert forall|i: int| 0 <= i < v.len() implies d[i] == v[i] by {
            lemma_declared_entries_read(hdr, v, i);
        }
        assert(d =~= v);
    }

    proof fn lemma_decode_encodes(bytes: Seq<u8>) {
        let n = u64_from_be(bytes.subrange(0, 8));
        let d = Seq::new(n as nat, |i: int| declared_entry_at(bytes, 8 + 64 * i));
        lemma_u64_be_bytes_of_decode(bytes.subrange(0, 8));
        lemma_declared_entries_of_decode(bytes, n as nat);
        assert(bytes =~= bytes.subrange(0, 8) + bytes.subrange(8, bytes.len() as int));
    }

    fn serialize(&self) -> (r: Result<Vec<u8>, SerializationError>) {
        let v = &self.declared_classes;
        let mut out: Vec<u8> = Vec::new();
        push_u64_be(&mut out, v.len() as u64);
        assert(out@ =~= u64_be_bytes(v@.len() as u64));
        let mut i: usize = 0;
        while i < v.len()
            invariant
                i <= v@.len(),
                out@ == u64_be_bytes(v@.len() as u64) + declared_entries_bytes(
                    v@.subrange(0, i as int),
                ),
            decreases v@.len() - i,
        {
            let ghost before = out@;
            push_felt(&mut out, &v[i].0.0);
            push_felt(&mut out, &v[i].1.0);
            proof {
                assert(v@.subrange(0, i + 1).drop_last() =~= v@.subrange(0, i as int));
                assert(out@ =~= u64_be_bytes(v@.len() as u64) + declared_entries_bytes(
                    v@.subrange(0, i + 1),
                ));
            }
            i += 1;
        }
        assert(v@.subrange(0, i as int) =~= v@);
        Ok(out)
    }

    fn deserialize(bytes: &[u8]) -> (r: Option<ThinStateDiff>) {
        let n = bytes.len();
        if n < 8 {
            return None;
        }
        let count = read_u64_be(bytes, 0);
        if (n - 8) % 64 != 0 || ((n - 8) / 64) as u64 != count {
            return None;
        }
        let count = (n - 8) / 64;
        let ghost f = |i: int| declared_entry_at(bytes@, 8 + 64 * i);
        let mut out: Vec<(ClassHash, CompiledClassHash)> = Vec::new();
        let mut i: usize = 0;
        while i < count
            invariant
                n == bytes@.len(),
                8 + 64 * count == n,
                i <= count,
                out@ == Seq::new(i as nat, f),
                f == (|j: int| declared_entry_at(bytes@, 8 + 64 * j)),
            decreases count - i,
        {
            let at = 8 + 64 * i;
            let h = read_felt(bytes, at);
            let c = read_felt(bytes, at + 32);
            out.push((ClassHash(h), CompiledClassHash(c)));
            assert(f(i as int) == (ClassHash(h), CompiledClassHash(c)));
            assert(out@ =~= Seq::new((i + 1) as nat, f));
            i += 1;
        }
        Some(ThinStateDiff { declared_classes: out })
    }
}

} // verus!
