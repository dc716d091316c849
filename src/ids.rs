//! Identifiers: 128-bit values carried on the wire as 16 big-endian bytes.
use vstd::prelude::*;

verus! {

/// The unsigned number that a byte string denotes, most significant byte first.
pub open spec fn be_value(b: Seq<u8>) -> nat
    decreases b.len(),
{
    if b.len() == 0 {
        0
    } else {
        be_value(b.drop_last()) * 256 + b.last() as nat
    }
}

/// Relies on `uuid::Uuid::now_v7` (a version 7 identifier built from the
/// current time and random bits) and `Uuid::as_u128`. Nothing can be promised
/// of a value that depends on the clock.
#[verifier::external_body]
pub(crate) fn time_ordered_id() -> (r: u128) {
    uuid::Uuid::now_v7().as_u128()
}

/// Relies on `uuid::Uuid::from_slice`, which fails exactly when the slice does
/// not hold 16 bytes and otherwise keeps the bytes as they are, and on
/// `Uuid::as_u128`, which reads them most significant first.
#[verifier::external_body]
fn uuid_from_slice(b: &[u8]) -> (r: Option<u128>)
    ensures
        r.is_some() <==> b@.len() == 16,
        r matches Some(v) ==> v as nat == be_value(b@),
{
    uuid::Uuid::from_slice(b).ok().map(|u| u.as_u128())
}

/// Relies on `uuid::Uuid::from_u128`, which stores the value most significant
/// byte first, and on `Uuid::as_bytes`, which hands those 16 bytes out.
#[verifier::external_body]
fn uuid_bytes(v: u128) -> (r: Vec<u8>)
    ensures
        r@.len() == 16,
        be_value(r@) == v as nat,
{
    uuid::Uuid::from_u128(v).as_bytes().to_vec()
}

/// Why an identifier could not be read.
#[derive(Debug, Clone, Copy, PartialEq, Eq, Structural)]
pub enum IdError {
    /// The byte string did not hold exactly 16 bytes; its length is kept.
    ByteLength(usize),
}

/// Reads an identifier from its 16-byte wire form.
pub fn get_uuid(v: &[u8]) -> (r: Result<u128, IdError>)
    ensures
        v@.len() == 16 ==> (r matches Ok(id) && id as nat == be_value(v@)),
        v@.len() != 16 ==> r == Err::<u128, IdError>(IdError::ByteLength(v@.len() as usize)),
{
    match uuid_from_slice(v) {
        Some(id) => Ok(id),
        None => Err(IdError::ByteLength(v.len())),
    }
}

/// Writes an identifier in its 16-byte wire form.
pub fn ret_uuid(v: u128) -> (r: Vec<u8>)
    ensures
        r@.len() == 16,
        be_value(r@) == v as nat,
{
    uuid_bytes(v)
}

/// Reads an optional identifier: absent stays absent, present must be well formed.
pub fn get_opt_uuid(v: Option<&[u8]>) -> (r: Result<Option<u128>, IdError>)
    ensures
        v.is_none() ==> r == Ok::<Option<u128>, IdError>(None),
        v matches Some(b) ==> (b@.len() == 16 ==> (r matches Ok(Some(id)) && id as nat == be_value(b@))),
        v matches Some(b) ==> (b@.len() != 16 ==> r == Err::<Option<u128>, IdError>(IdError::ByteLength(b@.len() as usize))),
{
    match v {
        None => Ok(None),
        Some(b) => match get_uuid(b) {
            Ok(id) => Ok(Some(id)),
            Err(e) => Err(e),
        },
    }
}

} // verus!
