use vstd::prelude::*;

use rkyv::api::high::{HighDeserializer, HighSerializer, HighValidator};
use rkyv::bytecheck::CheckBytes;
use rkyv::rancor::Error as CodecError;
use rkyv::ser::allocator::ArenaHandle;
use rkyv::util::AlignedVec;

use crate::collection::{decode_record, encode_record, Collection, Error};

verus! {

/// What `modify` asks the engine to do with the key once the modifier has run.
#[derive(Debug, Clone, PartialEq, Eq)]
pub enum WriteOp {
    /// Store these bytes under the key, replacing what was there.
    Put(Vec<u8>),
    /// Remove the key.
    Delete,
}

/// The slot handed to the modifier: empty where the key is absent, the decoded
/// record where it is present, `CorruptRecord` where its bytes did not decode.
pub open spec fn slot_of<T, S>(present: bool, decoded: Option<T>) -> Result<Option<T>, Error<S>> {
    if !present {
        Ok(None)
    } else {
        match decoded {
            Some(v) => Ok(Some(v)),
            None => Err(Error::CorruptRecord),
        }
    }
}

/// The write that commits the modifier's slot: a delete for an empty slot, a
/// put of the record's encoding otherwise, `Serialization` where it had none.
pub open spec fn commit_of<T, S>(out: Option<T>, encoded: Option<Vec<u8>>) -> Result<
    WriteOp,
    Error<S>,
> {
    match out {
        None => Ok(WriteOp::Delete),
        Some(_) => match encoded {
            Some(b) => Ok(WriteOp::Put(b)),
            None => Err(Error::Serialization),
        },
    }
}

/// What `plan_write` returns for stored bytes (if any): the stored record
/// decodes to `decoded`, the modifier turns the slot made of it into `out`, and
/// a record in `out` encodes to `encoded`.
pub open spec fn planned<T, S, F: FnOnce(Option<T>) -> Option<T>>(
    stored: Option<&[u8]>,
    modifier: F,
    r: Result<WriteOp, Error<S>>,
) -> bool {
    exists|decoded: Option<T>, out: Option<T>, encoded: Option<Vec<u8>>|
        #![trigger slot_of::<T, S>(stored is Some, decoded), commit_of::<T, S>(out, encoded)]
        {
            &&& (out is None ==> encoded is None)
            &&& match slot_of::<T, S>(stored is Some, decoded) {
                Err(e) => r == Err::<WriteOp, Error<S>>(e),
                Ok(slot) => modifier.ensures((slot,), out) && r == commit_of::<T, S>(
                    out,
                    encoded,
                ),
            }
        }
}

/// Makes the modifier's slot from a lookup: `present` tells whether the key was
/// found, `decoded` what its bytes decoded to.
pub fn slot_from_decoded<T, S>(present: bool, decoded: Option<T>) -> (r: Result<
    Option<T>,
    Error<S>,
>)
    ensures
        r == slot_of::<T, S>(present, decoded),
{
    if !present {
        Ok(None)
    } else {
        match decoded {
            Some(v) => Ok(Some(v)),
            None => Err(Error::CorruptRecord),
        }
    }
}

/// Turns the modifier's slot into the write that commits it, given the
/// encoding of the record it holds (if it holds one and it encoded).
pub fn plan_commit<T, S>(out: &Option<T>, encoded: Option<Vec<u8>>) -> (r: Result<
    WriteOp,
    Error<S>,
>)
    ensures
        r == commit_of::<T, S>(*out, encoded),
{
    match out {
        None => Ok(WriteOp::Delete),
        Some(_) => match encoded {
            Some(b) => Ok(WriteOp::Put(b)),
            None => Err(Error::Serialization),
        },
    }
}

/// Resolves a collection's partition from the engine's lookup of its name:
/// a partition the engine does not have gives `CollectionNotRegistered`.
pub fn resolve_partition<P, S>(handle: Option<P>) -> (r: Result<P, Error<S>>)
    ensures
        match handle {
            None => r == Err::<P, Error<S>>(Error::CollectionNotRegistered),
            Some(p) => r == Ok::<P, Error<S>>(p),
        },
{
    match handle {
        Some(p) => Ok(p),
        None => Err(Error::CollectionNotRegistered),
    }
}

/// The outcome of an engine call: its own error is handed on as `RocksDB`.
pub fn engine_outcome<B, S>(outcome: Result<B, S>) -> (r: Result<B, Error<S>>)
    ensures
        match outcome {
            Ok(b) => r == Ok::<B, Error<S>>(b),
            Err(e) => r == Err::<B, Error<S>>(Error::RocksDB(e)),
        },
{
    match outcome {
        Ok(b) => Ok(b),
        Err(e) => Err(Error::RocksDB(e)),
    }
}

/// The read-modify-write step of `modify`, from the engine's lookup of the key.
///
/// The stored bytes, if any, are decoded, and the slot that `slot_from_decoded`
/// makes of them is handed to the modifier: `None` where the key is absent.
/// Bytes that do not decode give `CorruptRecord` and the modifier does not run.
/// What the modifier leaves is committed by `plan_commit`: a record is put
/// under the key as its encoding, an empty slot deletes the key.
pub fn plan_write<T, S, F>(stored: Result<Option<&[u8]>, S>, modifier: F) -> (r: Result<
    WriteOp,
    Error<S>,
>)
    where
        T: Collection + rkyv::Archive + for<'a> rkyv::Serialize<
            HighSerializer<AlignedVec, ArenaHandle<'a>, CodecError>,
        >,
        T::Archived: for<'a> CheckBytes<HighValidator<'a, CodecError>> + rkyv::Deserialize<
            T,
            HighDeserializer<CodecError>,
        >,
        F: FnOnce(Option<T>) -> Option<T>,
    requires
        forall|s: Option<T>| #[trigger] modifier.requires((s,)),
    ensures
        match stored {
            Err(e) => r == Err::<WriteOp, Error<S>>(Error::RocksDB(e)),
            Ok(bytes) => planned(bytes, modifier, r),
        },
{
    let bytes = match stored {
        Ok(b) => b,
        Err(e) => {
            return Err(Error::RocksDB(e));
        },
    };
    let decoded: Option<T> = match bytes {
        None => None,
        Some(b) => decode_record::<T>(b),
    };
    let slot = match slot_from_decoded::<T, S>(bytes.is_some(), decoded) {
        Ok(slot) => slot,
        Err(e) => {
            proof {
                let out: Option<T> = None;
                let encoded: Option<Vec<u8>> = None;
                assert(slot_of::<T, S>(bytes is Some, decoded) == Err::<Option<T>, Error<S>>(e));
                assert((out is None ==> encoded is None) && match slot_of::<T, S>(bytes is Some, decoded) {
                    Err(e2) => Err::<WriteOp, Error<S>>(e) == Err::<WriteOp, Error<S>>(e2),
                    Ok(slot) => modifier.ensures((slot,), out) && Err::<WriteOp, Error<S>>(e)
                        == commit_of::<T, S>(out, encoded),
                });
                assert(planned(bytes, modifier, Err::<WriteOp, Error<S>>(e)));
            }
            return Err(e);
        },
    };
    let out = modifier(slot);
    let encoded = match &out {
        None => None,
        Some(v) => encode_record(v),
    };
    let r = plan_commit::<T, S>(&out, encoded);
    proof {
        assert(slot_of::<T, S>(bytes is Some, decoded) == Ok::<Option<T>, Error<S>>(slot));
        assert(commit_of::<T, S>(out, encoded) == r);
        assert(planned(bytes, modifier, r));
    }
    r
}

/// A modifier that always fills the slot never plans a delete: on an absent key
/// it plans a put of the record's encoding (an insert), or fails to serialize it.
pub proof fn lemma_filling_modifier_inserts<T, S, F: FnOnce(Option<T>) -> Option<T>>(
    modifier: F,
    r: Result<WriteOp, Error<S>>,
)
    requires
        forall|s: Option<T>, out: Option<T>| #[trigger] modifier.ensures((s,), out) ==> out is Some,
        planned(None, modifier, r),
    ensures
        r is Ok ==> r->Ok_0 is Put,
        r is Err ==> r == Err::<WriteOp, Error<S>>(Error::Serialization),
{
    let (decoded, out, encoded) = choose|decoded: Option<T>, out: Option<T>, encoded: Option<Vec<u8>>|
        #![trigger slot_of::<T, S>(false, decoded), commit_of::<T, S>(out, encoded)]
        {
            &&& (out is None ==> encoded is None)
            &&& match slot_of::<T, S>(false, decoded) {
                Err(e) => r == Err::<WriteOp, Error<S>>(e),
                Ok(slot) => modifier.ensures((slot,), out) && r == commit_of::<T, S>(
                    out,
                    encoded,
                ),
            }
        };
    assert(modifier.ensures((None::<T>,), out));
}

/// A modifier that always empties the slot plans a delete of an existing key,
/// unless the stored bytes do not decode to a record.
pub proof fn lemma_emptying_modifier_deletes<T, S, F: FnOnce(Option<T>) -> Option<T>>(
    stored: &[u8],
    modifier: F,
    r: Result<WriteOp, Error<S>>,
)
    requires
        forall|s: Option<T>, out: Option<T>| #[trigger] modifier.ensures((s,), out) ==> out is None,
        planned(Some(stored), modifier, r),
    ensures
        r == Ok::<WriteOp, Error<S>>(WriteOp::Delete) || r == Err::<WriteOp, Error<S>>(
            Error::CorruptRecord,
        ),
{
    let (decoded, out, encoded) = choose|decoded: Option<T>, out: Option<T>, encoded: Option<Vec<u8>>|
        #![trigger slot_of::<T, S>(true, decoded), commit_of::<T, S>(out, encoded)]
        {
            &&& (out is None ==> encoded is None)
            &&& match slot_of::<T, S>(true, decoded) {
                Err(e) => r == Err::<WriteOp, Error<S>>(e),
                Ok(slot) => modifier.ensures((slot,), out) && r == commit_of::<T, S>(
                    out,
                    encoded,
                ),
            }
        };
    if decoded is Some {
        assert(modifier.ensures((decoded,), out));
    }
}

} // verus!
