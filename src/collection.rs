use vstd::prelude::*;

use rkyv::api::high::{HighDeserializer, HighSerializer, HighValidator};
use rkyv::bytecheck::CheckBytes;
use rkyv::rancor::Error as CodecError;
use rkyv::ser::allocator::ArenaHandle;
use rkyv::util::AlignedVec;

use crate::keys::Key;

verus! {

/// Why an operation on a collection failed. `S` is the storage engine's own error.
#[derive(Debug, Clone, PartialEq, Eq)]
pub enum Error<S> {
    /// The collection's partition does not exist in the engine.
    CollectionNotRegistered,
    /// The engine failed; its error is handed on as it came.
    RocksDB(S),
    /// Stored bytes could not be read back as a record.
    CorruptRecord,
    /// A record could not be turned into bytes.
    Serialization,
}

/// A record type bound to a partition of the store and to a key type.
///
/// The record is stored in rkyv's archived form, which can be read in place.
pub trait Collection: Sized {
    type KeyType: Key;

    /// The name of the partition that holds the records.
    const CF_NAME: &'static str;

    /// The key a record is stored under.
    fn key(&self) -> &Self::KeyType;
}

/// Relies on `rkyv::to_bytes`: serializes a record into rkyv's archived form.
#[verifier::external_body]
pub(crate) fn encode_record<T>(v: &T) -> (r: Option<Vec<u8>>)
    where
        T: for<'a> rkyv::Serialize<HighSerializer<AlignedVec, ArenaHandle<'a>, CodecError>>,
{
    rkyv::to_bytes::<CodecError>(v).ok().map(|b| b.into_vec())
}

/// Relies on `rkyv::from_bytes`: checks the bytes as an archived record and
/// deserializes it; `None` where the check or the deserialization fails. The
/// bytes are first copied to an aligned buffer, as the check asks.
#[verifier::external_body]
pub(crate) fn decode_record<T>(b: &[u8]) -> (r: Option<T>)
    where
        T: rkyv::Archive,
        T::Archived: for<'a> CheckBytes<HighValidator<'a, CodecError>> + rkyv::Deserialize<
            T,
            HighDeserializer<CodecError>,
        >,
{
    let mut aligned = AlignedVec::<16>::with_capacity(b.len());
    aligned.extend_from_slice(b);
    rkyv::from_bytes::<T, CodecError>(&aligned).ok()
}

/// The record that stored bytes decoded to, or `CorruptRecord` where they did
/// not decode.
pub fn record_or_corrupt<T, S>(decoded: Option<T>) -> (r: Result<T, Error<S>>)
    ensures
        match decoded {
            Some(v) => r == Ok::<T, Error<S>>(v),
            None => r == Err::<T, Error<S>>(Error::CorruptRecord),
        },
{
    match decoded {
        Some(v) => Ok(v),
        None => Err(Error::CorruptRecord),
    }
}

/// A record read from the store, seen in place over the bytes that hold it.
pub struct Value<'db, T> {
    bytes: &'db [u8],
    phantom: core::marker::PhantomData<T>,
}

impl<'db, T> Value<'db, T> {
    /// The stored bytes of the record.
    pub closed spec fn bytes(&self) -> Seq<u8> {
        self.bytes@
    }

    /// A view over stored bytes.
    pub fn new(bytes: &'db [u8]) -> (r: Value<'db, T>)
        ensures
            r.bytes() == bytes@,
    {
        Value { bytes, phantom: core::marker::PhantomData }
    }

    /// The stored bytes of the record.
    pub fn as_bytes(&self) -> (r: &'db [u8])
        ensures
            r@ == self.bytes(),
    {
        self.bytes
    }

    /// An owned copy of the record; `CorruptRecord` where the bytes do not hold one.
    pub fn deser<S>(&self) -> (r: Result<T, Error<S>>)
        where
            T: rkyv::Archive,
            T::Archived: for<'a> CheckBytes<HighValidator<'a, CodecError>> + rkyv::Deserialize<
                T,
                HighDeserializer<CodecError>,
            >,
        ensures
            r is Err ==> r == Err::<T, Error<S>>(Error::CorruptRecord),
    {
        record_or_corrupt(decode_record::<T>(self.bytes))
    }
}

} // verus!
