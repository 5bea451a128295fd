//! Header validation and decoding of a whole database.

use vstd::prelude::*;

use crate::endian::{be_u32, le_u32, read_u32_be, read_u32_le};
use crate::magic::{
    decodes_record, record_fault, record_model, Magic, MagicError, MagicModel, RecordFault,
    MAGIC_SIZE,
};
use crate::structs::{record_models, MagicMap};

verus! {

/// The marker that opens every database.
pub const MAGIC_CONSTANT: u32 = 0xF11E041C;

/// The one database format version that is read.
pub const MAGIC_DATABASE_VERSION: u32 = 19;

/// The number of record sets a database declares.
pub const MAGIC_SETS: usize = 2;

#[verifier::external_type_specification]
#[verifier::external_body]
pub struct ExIoError(std::io::Error);

#[derive(Debug)]
pub enum LoaderError {
    /// Reading the file at the path (first) failed.
    Io(String, std::io::Error),
    /// The length (first) is not a multiple of the record size (second).
    InvalidBufferLength(usize, usize),
    /// The header's two counts add up to the first value, where the length
    /// leaves room for the second value of records, header included.
    InvalidDatabaseRecordCount(usize, usize),
    /// The version found (first) is not the one supported (second).
    InvalidDatabaseVersion(u32, u32),
    InvalidEndianness,
    /// The marker found (first) is not the expected one (second).
    InvalidMagicConstant(u32, u32),
    /// The length leaves room for this many records only.
    InvalidRecordCount(usize),
    Magic(MagicError),
}

/// Which failure a `LoaderError` reports, with its values; the system's own
/// diagnostic for a failed read is left out.
pub enum LoadFault {
    Io(Seq<char>),
    InvalidBufferLength(usize, usize),
    InvalidDatabaseRecordCount(usize, usize),
    InvalidDatabaseVersion(u32, u32),
    InvalidEndianness,
    InvalidMagicConstant(u32, u32),
    InvalidRecordCount(usize),
    Magic(RecordFault),
}

impl View for LoaderError {
    type V = LoadFault;

    open spec fn view(&self) -> LoadFault {
        match *self {
            LoaderError::Io(p, _) => LoadFault::Io(p@),
            LoaderError::InvalidBufferLength(n, m) => LoadFault::InvalidBufferLength(n, m),
            LoaderError::InvalidDatabaseRecordCount(n, m) => {
                LoadFault::InvalidDatabaseRecordCount(n, m)
            },
            LoaderError::InvalidDatabaseVersion(v, w) => LoadFault::InvalidDatabaseVersion(v, w),
            LoaderError::InvalidEndianness => LoadFault::InvalidEndianness,
            LoaderError::InvalidMagicConstant(v, w) => LoadFault::InvalidMagicConstant(v, w),
            LoaderError::InvalidRecordCount(n) => LoadFault::InvalidRecordCount(n),
            LoaderError::Magic(e) => LoadFault::Magic(e@),
        }
    }
}

/// The number of records that database bytes `b` have room for, header
/// included.
pub open spec fn record_count(b: Seq<u8>) -> int {
    (b.len() as int) / (MAGIC_SIZE as int)
}

/// The size of the left set that the header of `b` declares.
pub open spec fn left_count(b: Seq<u8>) -> int {
    le_u32(b, 8)
}

/// The size of the right set that the header of `b` declares.
pub open spec fn right_count(b: Seq<u8>) -> int {
    le_u32(b, 12)
}

/// The first failure that the header checks meet on database bytes `b`,
/// in the order they are made; none if the header is valid.
pub open spec fn header_fault(b: Seq<u8>) -> Option<LoadFault> {
    if (b.len() as int) % (MAGIC_SIZE as int) != 0 {
        Some(LoadFault::InvalidBufferLength(b.len() as usize, MAGIC_SIZE))
    } else if record_count(b) < MAGIC_SETS + 1 {
        Some(LoadFault::InvalidRecordCount(record_count(b) as usize))
    } else if le_u32(b, 0) != MAGIC_CONSTANT {
        if be_u32(b, 0) == MAGIC_CONSTANT {
            Some(LoadFault::InvalidEndianness)
        } else {
            Some(LoadFault::InvalidMagicConstant(le_u32(b, 0) as u32, MAGIC_CONSTANT))
        }
    } else if le_u32(b, 4) != MAGIC_DATABASE_VERSION {
        Some(LoadFault::InvalidDatabaseVersion(le_u32(b, 4) as u32, MAGIC_DATABASE_VERSION))
    } else if 1 + left_count(b) + right_count(b) != record_count(b) {
        Some(
            LoadFault::InvalidDatabaseRecordCount(
                (left_count(b) + right_count(b)) as usize,
                record_count(b) as usize,
            ),
        )
    } else {
        None
    }
}

/// The bytes of record `k` of database `b`, counted after the header.
pub open spec fn record_chunk(b: Seq<u8>, k: int) -> Seq<u8> {
    b.subrange((k + 1) * MAGIC_SIZE, (k + 2) * MAGIC_SIZE)
}

/// The first failure among the records of `b` from record `k` on.
pub open spec fn records_fault_from(b: Seq<u8>, k: int) -> Option<RecordFault>
    decreases record_count(b) - 1 - k,
{
    if k >= record_count(b) - 1 {
        None
    } else if record_fault(record_chunk(b, k)) is Some {
        record_fault(record_chunk(b, k))
    } else {
        records_fault_from(b, k + 1)
    }
}

/// What decoding database bytes `b` gives: the first failure, or the left
/// and right sets of records.
pub open spec fn decode_db_spec(b: Seq<u8>) -> Result<
    (Seq<MagicModel>, Seq<MagicModel>),
    LoadFault,
> {
    if header_fault(b) is Some {
        Err(header_fault(b)->Some_0)
    } else if records_fault_from(b, 0) is Some {
        Err(LoadFault::Magic(records_fault_from(b, 0)->Some_0))
    } else {
        Ok(
            (
                Seq::new(left_count(b) as nat, |i: int| record_model(record_chunk(b, i))),
                Seq::new(
                    right_count(b) as nat,
                    |j: int| record_model(record_chunk(b, left_count(b) + j)),
                ),
            ),
        )
    }
}

/// The outcome of a decode as plain values.
pub open spec fn outcome_view(r: Result<MagicMap, LoaderError>) -> Result<
    (Seq<MagicModel>, Seq<MagicModel>),
    LoadFault,
> {
    match r {
        Ok(m) => Ok(m@),
        Err(e) => Err(e@),
    }
}

/// Decodes a whole database from its bytes: checks the header, decodes every
/// record after it in order, and splits them at the declared left count.
pub fn load_db_from_bytes(bytes: &[u8]) -> (r: Result<MagicMap, LoaderError>)
    ensures
        outcome_view(r) == decode_db_spec(bytes@),
{
    let len = bytes.len();
    let num_records = len / MAGIC_SIZE;
    if num_records * MAGIC_SIZE != len {
        return Err(LoaderError::InvalidBufferLength(len, MAGIC_SIZE));
    }
    if num_records < MAGIC_SETS + 1 {
        return Err(LoaderError::InvalidRecordCount(num_records));
    }

    let magic = read_u32_le(bytes, 0);
    if magic != MAGIC_CONSTANT {
        if read_u32_be(bytes, 0) == MAGIC_CONSTANT {
            return Err(LoaderError::InvalidEndianness);
        }
        return Err(LoaderError::InvalidMagicConstant(magic, MAGIC_CONSTANT));
    }

    let version = read_u32_le(bytes, 4);
    if version != MAGIC_DATABASE_VERSION {
        return Err(LoaderError::InvalidDatabaseVersion(version, MAGIC_DATABASE_VERSION));
    }

    let left_num_records = read_u32_le(bytes, 8);
    let right_num_records = read_u32_le(bytes, 12);
    let declared = left_num_records as u64 + right_num_records as u64;
    if declared + 1 != num_records as u64 {
        return Err(LoaderError::InvalidDatabaseRecordCount(declared as usize, num_records));
    }

    let count = num_records - 1;
    let split = left_num_records as usize;
    let mut left: Vec<Magic> = Vec::new();
    let mut right: Vec<Magic> = Vec::new();
    let mut k: usize = 0;
    while k < count
        invariant
            bytes@.len() == len,
            len == num_records * MAGIC_SIZE,
            count == num_records - 1,
            count == record_count(bytes@) - 1,
            split == left_count(bytes@),
            split <= count,
            header_fault(bytes@) is None,
            k <= count,
            records_fault_from(bytes@, 0) == records_fault_from(bytes@, k as int),
            k <= split ==> left@.len() == k && right@.len() == 0,
            k > split ==> left@.len() == split && right@.len() == k - split,
            forall|i: int|
                0 <= i < left@.len() ==> left@[i]@ == record_model(record_chunk(bytes@, i)),
            forall|j: int|
                0 <= j < right@.len() ==> right@[j]@ == record_model(
                    record_chunk(bytes@, split + j),
                ),
        decreases count - k,
    {
        let start = (k + 1) * MAGIC_SIZE;
        let end = start + MAGIC_SIZE;
        let chunk = &bytes[start..end];
        let rec = Magic::from_bytes(chunk);
        assert(chunk@ == record_chunk(bytes@, k as int));
        match rec {
            Ok(m) => {
                if k < split {
                    left.push(m);
                } else {
                    right.push(m);
                }
            },
            Err(e) => {
                return Err(LoaderError::Magic(e));
            },
        }
        k = k + 1;
    }
    let map = MagicMap { left, right };
    assert(map@.0 =~= Seq::new(
        left_count(bytes@) as nat,
        |i: int| record_model(record_chunk(bytes@, i)),
    ));
    assert(map@.1 =~= Seq::new(
        right_count(bytes@) as nat,
        |j: int| record_model(record_chunk(bytes@, left_count(bytes@) + j)),
    ));
    Ok(map)
}

/// Decoding is a function of the bytes alone: two decodes of the same bytes
/// give the same records, or the same failure.
pub proof fn lemma_decode_deterministic(
    b1: Seq<u8>,
    b2: Seq<u8>,
    r1: Result<MagicMap, LoaderError>,
    r2: Result<MagicMap, LoaderError>,
)
    requires
        b1 == b2,
        outcome_view(r1) == decode_db_spec(b1),
        outcome_view(r2) == decode_db_spec(b2),
    ensures
        outcome_view(r1) == outcome_view(r2),
{
}

/// Bytes whose length is not a multiple of the record size are rejected for
/// their length, whatever they hold.
pub proof fn lemma_length_mismatch_rejected(b: Seq<u8>)
    requires
        (b.len() as int) % (MAGIC_SIZE as int) != 0,
    ensures
        decode_db_spec(b) == Err::<(Seq<MagicModel>, Seq<MagicModel>), LoadFault>(
            LoadFault::InvalidBufferLength(b.len() as usize, MAGIC_SIZE),
        ),
{
}

/// Once the length checks pass, a marker whose bytes are those of the
/// expected marker in reverse order is rejected as the wrong byte order.
pub proof fn lemma_reversed_marker_rejected(b: Seq<u8>)
    requires
        (b.len() as int) % (MAGIC_SIZE as int) == 0,
        record_count(b) >= MAGIC_SETS + 1,
        b[0] == 0xF1,
        b[1] == 0x1E,
        b[2] == 0x04,
        b[3] == 0x1C,
    ensures
        decode_db_spec(b) == Err::<(Seq<MagicModel>, Seq<MagicModel>), LoadFault>(
            LoadFault::InvalidEndianness,
        ),
{
}

/// Once the length checks pass, a marker that is the expected one in neither
/// byte order is rejected as a wrong marker, with the marker found.
pub proof fn lemma_wrong_marker_rejected(b: Seq<u8>)
    requires
        (b.len() as int) % (MAGIC_SIZE as int) == 0,
        record_count(b) >= MAGIC_SETS + 1,
        le_u32(b, 0) != MAGIC_CONSTANT,
        be_u32(b, 0) != MAGIC_CONSTANT,
    ensures
        decode_db_spec(b) == Err::<(Seq<MagicModel>, Seq<MagicModel>), LoadFault>(
            LoadFault::InvalidMagicConstant(le_u32(b, 0) as u32, MAGIC_CONSTANT),
        ),
{
}

/// With a valid length, marker and version, the header is accepted exactly
/// when one plus its two counts is the number of records; otherwise the
/// failure carries the counts' sum and that number.
pub proof fn lemma_record_count_cross_check(b: Seq<u8>)
    requires
        (b.len() as int) % (MAGIC_SIZE as int) == 0,
        record_count(b) >= MAGIC_SETS + 1,
        le_u32(b, 0) == MAGIC_CONSTANT,
        le_u32(b, 4) == MAGIC_DATABASE_VERSION,
    ensures
        1 + left_count(b) + right_count(b) == record_count(b) ==> header_fault(b) is None,
        1 + left_count(b) + right_count(b) != record_count(b) ==> decode_db_spec(b) == Err::<
            (Seq<MagicModel>, Seq<MagicModel>),
            LoadFault,
        >(
            LoadFault::InvalidDatabaseRecordCount(
                (left_count(b) + right_count(b)) as usize,
                record_count(b) as usize,
            ),
        ),
{
}

} // verus!
