//! The typed table layer: how keys and values pass through the byte encoding
//! on their way to and from the byte store, and how the store's answers become
//! typed results.
use vstd::prelude::*;

use crate::serialization::StorageSerde;

verus! {

/// What the byte store reported when an operation failed.
#[derive(Clone, Copy, Debug, PartialEq, Eq, Structural)]
pub enum BackendError {
    /// A write that must not overwrite found the key already present.
    KeyExist,
    /// The key or table was not found.
    NotFound,
    /// The store has reached its maximum size.
    MapFull,
    /// Any other failure of the store.
    Other,
}

/// An error that can occur when interacting with the database.
#[derive(Clone, Copy, Debug, PartialEq, Eq, Structural)]
pub enum DbError {
    /// An error that the byte store reported.
    Inner(BackendError),
    /// Stored bytes did not decode as the table's type.
    InnerDeserialization,
    /// A value could not be encoded.
    Serialization,
    /// The configured geometry of the store is invalid.
    InvalidGeometry,
}

pub type DbResult<V> = Result<V, DbError>;

/// Marks a read-only transaction.
pub struct RO {}

/// Marks a read-write transaction.
pub struct RW {}

/// Statistics of one table of the store.
#[derive(Clone, Debug)]
pub struct DbTableStats {
    /// The name of the table.
    pub database: String,
    pub branch_pages: usize,
    pub depth: u32,
    pub entries: usize,
    pub leaf_pages: usize,
    pub overflow_pages: usize,
    pub page_size: u32,
}

/// The configuration of the database.
#[derive(Clone, Debug)]
pub struct DbConfig {
    /// The path prefix of the database files. The final path is the path
    /// prefix followed by the chain id.
    pub path_prefix: String,
    /// The chain that the node follows.
    pub chain_id: String,
    /// The minimum size of the database, in bytes.
    pub min_size: u64,
    /// The maximum size of the database, in bytes.
    pub max_size: u64,
    /// The growth step of the database, in bytes.
    pub growth_step: i64,
}

/// Whether a store of this geometry can be opened: it grows by a positive
/// step, and its maximum size is not below its minimum size.
pub open spec fn valid_geometry(min_size: u64, max_size: u64, growth_step: i64) -> bool {
    growth_step > 0 && min_size <= max_size
}

impl DbConfig {
    /// Checks the geometry before the store is opened with it.
    pub fn validate_geometry(&self) -> (r: DbResult<()>)
        ensures
            r is Ok <==> valid_geometry(self.min_size, self.max_size, self.growth_step),
            r is Err ==> r == Err::<(), DbError>(DbError::InvalidGeometry),
    {
        if self.growth_step > 0 && self.min_size <= self.max_size {
            Ok(())
        } else {
            Err(DbError::InvalidGeometry)
        }
    }
}

impl Default for DbConfig {
    fn default() -> (r: DbConfig)
        ensures
            r.path_prefix@ == "./data"@,
            r.chain_id@ == "SN_MAIN"@,
            r.min_size == 1u64 << 20,
            r.max_size == 1u64 << 40,
            r.growth_step == 1i64 << 26,
    {
        DbConfig {
            path_prefix: String::from_str("./data"),
            chain_id: String::from_str("SN_MAIN"),
            min_size: 1u64 << 20,
            max_size: 1u64 << 40,
            growth_step: 1i64 << 26,
        }
    }
}

/// The bytes under which `key` is stored.
pub fn encode_key<K: StorageSerde>(key: &K) -> (r: DbResult<Vec<u8>>)
    ensures
        r matches Ok(b) && b@ == K::spec_encode(key@),
{
    match key.serialize() {
        Ok(b) => Ok(b),
        Err(_) => Err(DbError::Serialization),
    }
}

/// The bytes of a key and of its value, as a write hands them to the store.
pub fn encode_entry<K: StorageSerde, V: StorageSerde>(key: &K, value: &V) -> (r: DbResult<
    (Vec<u8>, Vec<u8>),
>)
    ensures
        r matches Ok(e) && e.0@ == K::spec_encode(key@) && e.1@ == V::spec_encode(value@),
{
    let data = match value.serialize() {
        Ok(b) => b,
        Err(_) => return Err(DbError::Serialization),
    };
    let bin_key = encode_key(key)?;
    Ok((bin_key, data))
}

/// The typed answer to a point lookup, from the bytes that the store found
/// under the key (none if the key is absent).
pub fn decode_value<V: StorageSerde>(raw: Option<&[u8]>) -> (r: DbResult<Option<V>>)
    ensures
        raw is None ==> r matches Ok(None),
        raw matches Some(b) ==> match V::spec_decode(b@) {
            Some(v) => r matches Ok(Some(x)) && x@ == v,
            None => r == Err::<Option<V>, DbError>(DbError::InnerDeserialization),
        },
{
    match raw {
        None => Ok(None),
        Some(bytes) => match V::deserialize(bytes) {
            Some(v) => Ok(Some(v)),
            None => Err(DbError::InnerDeserialization),
        },
    }
}

/// The typed entry at a cursor's new position, from the key and value bytes
/// that the store found there (none past either end).
pub fn decode_entry<K: StorageSerde, V: StorageSerde>(raw: Option<(&[u8], &[u8])>) -> (r:
    DbResult<Option<(K, V)>>)
    ensures
        raw is None ==> r matches Ok(None),
        raw matches Some(e) ==> match (K::spec_decode(e.0@), V::spec_decode(e.1@)) {
            (Some(k), Some(v)) => r matches Ok(Some(x)) && x.0@ == k && x.1@ == v,
            _ => r == Err::<Option<(K, V)>, DbError>(DbError::InnerDeserialization),
        },
{
    match raw {
        None => Ok(None),
        Some((key_bytes, value_bytes)) => {
            let key = match K::deserialize(key_bytes) {
                Some(k) => k,
                None => return Err(DbError::InnerDeserialization),
            };
            let value = match V::deserialize(value_bytes) {
                Some(v) => v,
                None => return Err(DbError::InnerDeserialization),
            };
            Ok(Some((key, value)))
        },
    }
}

} // verus!
