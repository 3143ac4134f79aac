use vstd::prelude::*;

verus! {

/// A block height on the chain.
#[derive(Clone, Copy, Debug, PartialEq, Eq, Structural)]
pub struct BlockNumber(pub u64);

impl BlockNumber {
    /// The block that follows this one.
    pub fn next(&self) -> (r: BlockNumber)
        requires
            self.0 < u64::MAX,
        ensures
            r.0 == self.0 + 1,
    {
        BlockNumber(self.0 + 1)
    }
}

impl View for BlockNumber {
    type V = BlockNumber;

    open spec fn view(&self) -> BlockNumber {
        *self
    }
}


/// A field element of the chain, as four 64-bit limbs, most significant first.
#[derive(Clone, Copy, Debug, PartialEq, Eq, Structural)]
pub struct StarkHash(pub u64, pub u64, pub u64, pub u64);

/// The hash of a declared class.
#[derive(Clone, Copy, Debug, PartialEq, Eq, Structural)]
pub struct ClassHash(pub StarkHash);

/// The hash of the compiled form of a class.
#[derive(Clone, Copy, Debug, PartialEq, Eq, Structural)]
pub struct CompiledClassHash(pub StarkHash);

impl View for ClassHash {
    type V = ClassHash;

    open spec fn view(&self) -> ClassHash {
        *self
    }
}

/// What a block changed in the chain's state, as far as this library reads it:
/// the classes that the block declared, in the order of declaration, each with
/// the hash of its compiled form.
#[derive(Clone, Debug)]
pub struct ThinStateDiff {
    pub declared_classes: Vec<(ClassHash, CompiledClassHash)>,
}

impl View for ThinStateDiff {
    type V = Seq<(ClassHash, CompiledClassHash)>;

    open spec fn view(&self) -> Seq<(ClassHash, CompiledClassHash)> {
        self.declared_classes@
    }
}

/// The compiled (assembly-level) form of a class, held as the bytes that the
/// compiler produced.
#[derive(Clone, Debug)]
pub struct CasmContractClass {
    pub bytes: Vec<u8>,
}

impl View for CasmContractClass {
    type V = Seq<u8>;

    open spec fn view(&self) -> Seq<u8> {
        self.bytes@
    }
}

/// The kinds of data whose ingestion progress a marker records.
#[derive(Clone, Copy, Debug, PartialEq, Eq, Structural)]
pub enum MarkerKind {
    Header,
    Body,
    State,
    CompiledClass,
    BaseLayerBlock,
}

impl View for MarkerKind {
    type V = MarkerKind;

    open spec fn view(&self) -> MarkerKind {
        *self
    }
}

} // verus!
