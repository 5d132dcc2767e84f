//! The header codec. Every data file begins with a fixed 8-byte header:
//! a 4-byte magic tag at offsets 0 to 3, identifying the file's logical
//! kind, and a 4-byte little-endian format version number at offsets 4 to 7.

use crate::serialization::SerializationSink;
use byteorder::{ByteOrder, LittleEndian};
use vstd::prelude::*;

verus! {

/// The format version this codec writes.
pub const CURRENT_FILE_FORMAT_VERSION: u32 = 0;

/// Magic tag of an event-stream file (`MMES`).
pub const FILE_MAGIC_EVENT_STREAM: [u8; 4] = [0x4D, 0x4D, 0x45, 0x53];

/// Magic tag of a string-table data file (`MMSD`).
pub const FILE_MAGIC_STRINGTABLE_DATA: [u8; 4] = [0x4D, 0x4D, 0x53, 0x44];

/// Magic tag of a string-table index file (`MMSI`).
pub const FILE_MAGIC_STRINGTABLE_INDEX: [u8; 4] = [0x4D, 0x4D, 0x53, 0x49];

/// The size of the file header in bytes: 4 bytes of magic, 4 of version.
pub const FILE_HEADER_SIZE: usize = 8;

/// The little-endian byte encoding of a 32-bit integer.
pub open spec fn spec_u32_to_le(v: u32) -> Seq<u8> {
    seq![
        (v % 0x100) as u8,
        ((v / 0x100) % 0x100) as u8,
        ((v / 0x10000) % 0x100) as u8,
        ((v / 0x1000000) % 0x100) as u8,
    ]
}

/// The 32-bit integer that four bytes encode in little-endian order.
pub open spec fn spec_u32_of_le(bytes: Seq<u8>) -> u32
    recommends
        bytes.len() == 4,
{
    (bytes[0] + bytes[1] * 0x100 + bytes[2] * 0x10000 + bytes[3] * 0x1000000) as u32
}

/// The magic tag a header's byte sequence carries: its first four bytes.
pub open spec fn spec_magic(header: Seq<u8>) -> Seq<u8>
    recommends
        header.len() >= FILE_HEADER_SIZE,
{
    header.subrange(0, 4)
}

/// The format version a header's byte sequence carries: its bytes at
/// offsets 4 to 7, decoded little-endian.
pub open spec fn spec_version(header: Seq<u8>) -> u32
    recommends
        header.len() >= FILE_HEADER_SIZE,
{
    spec_u32_of_le(header.subrange(4, 8))
}

/// The full 8-byte header for a magic tag and a version.
pub open spec fn spec_header_bytes(magic: Seq<u8>, version: u32) -> Seq<u8> {
    magic + spec_u32_to_le(version)
}

/// Decoding inverts encoding: the four little-endian bytes of `v` decode
/// back to `v`.
pub proof fn lemma_u32_le_round_trip(v: u32)
    ensures
        spec_u32_to_le(v).len() == 4,
        spec_u32_of_le(spec_u32_to_le(v)) == v,
{
    assert(v % 0x100 + (v / 0x100) % 0x100 * 0x100 + (v / 0x10000) % 0x100 * 0x10000 + (v
        / 0x1000000) % 0x100 * 0x1000000 == v) by (bit_vector);
}

/// Why `read_file_header` rejected a buffer.
#[derive(Clone, Copy, Debug, PartialEq, Eq)]
pub enum HeaderError {
    /// The four magic bytes found in the buffer do not equal the tag the
    /// caller expected. Carries both, so that a log can tell a wrong file
    /// kind from a corrupt file.
    MagicMismatch { actual: [u8; 4], expected: [u8; 4] },
}

/// Relies on `byteorder::LittleEndian::write_u32`: it fills the first four
/// bytes of the buffer with the integer's little-endian encoding. It panics
/// on a buffer shorter than four bytes; the one handed to it here has
/// exactly four.
#[verifier::external_body]
fn u32_to_le(value: u32) -> (encoded: Vec<u8>)
    ensures
        encoded@ == spec_u32_to_le(value),
{
    let mut buf = vec![0u8; 4];
    LittleEndian::write_u32(&mut buf, value);
    buf
}

/// Relies on `byteorder::LittleEndian::read_u32`: it decodes the first four
/// bytes of the buffer as a little-endian unsigned 32-bit integer. It panics
/// on a buffer shorter than four bytes, which the precondition rules out.
#[verifier::external_body]
fn u32_from_le(buf: &[u8]) -> (value: u32)
    requires
        buf@.len() >= 4,
    ensures
        value == spec_u32_of_le(buf@.subrange(0, 4)),
{
    LittleEndian::read_u32(buf)
}

/// Serialize the 8-byte header for `file_magic`: the magic verbatim at
/// offsets 0 to 3, `CURRENT_FILE_FORMAT_VERSION` little-endian at offsets
/// 4 to 7.
pub fn write_header_bytes(file_magic: &[u8; 4]) -> (header: Vec<u8>)
    ensures
        header@ == spec_header_bytes(file_magic@, CURRENT_FILE_FORMAT_VERSION),
        header@.len() == FILE_HEADER_SIZE,
{
    let mut header: Vec<u8> = Vec::new();
    header.push(*vstd::array::array_index_get(file_magic, 0));
    header.push(*vstd::array::array_index_get(file_magic, 1));
    header.push(*vstd::array::array_index_get(file_magic, 2));
    header.push(*vstd::array::array_index_get(file_magic, 3));
    let mut version = u32_to_le(CURRENT_FILE_FORMAT_VERSION);
    header.append(&mut version);
    proof {
        assert(header@ =~= spec_header_bytes(file_magic@, CURRENT_FILE_FORMAT_VERSION));
    }
    header
}

/// Write the 8-byte file header for `file_magic` to the sink as one atomic
/// unit: the magic at offsets 0 to 3, the current format version,
/// little-endian, at offsets 4 to 7. Atomicity is the sink's guarantee; the
/// codec itself performs no locking.
pub fn write_file_header<S: SerializationSink>(s: &mut S, file_magic: &[u8; 4])
    ensures
        final(s).bytes() == old(s).bytes() + spec_header_bytes(
            file_magic@,
            CURRENT_FILE_FORMAT_VERSION,
        ),
{
    let header = write_header_bytes(file_magic);
    s.write_atomic(header.as_slice());
}

/// Validate the header at the start of `bytes` and return the format
/// version it carries. Succeeds exactly when the first four bytes equal
/// `expected_magic`; the version is returned verbatim, without any range
/// check — version policy belongs to the caller. On a mismatch the error
/// carries both the magic found and the one expected.
pub fn read_file_header(bytes: &[u8], expected_magic: &[u8; 4]) -> (result: Result<
    u32,
    HeaderError,
>)
    requires
        bytes@.len() >= FILE_HEADER_SIZE,
    ensures
        match result {
            Ok(version) => spec_magic(bytes@) == expected_magic@ && version == spec_version(
                bytes@,
            ),
            Err(err) => spec_magic(bytes@) != expected_magic@ && err == (
            HeaderError::MagicMismatch {
                actual: [bytes@[0], bytes@[1], bytes@[2], bytes@[3]],
                expected: *expected_magic,
            }),
        },
{
    let b0: u8 = *vstd::slice::slice_index_get(bytes, 0);
    let b1: u8 = *vstd::slice::slice_index_get(bytes, 1);
    let b2: u8 = *vstd::slice::slice_index_get(bytes, 2);
    let b3: u8 = *vstd::slice::slice_index_get(bytes, 3);
    let e0: u8 = *vstd::array::array_index_get(expected_magic, 0);
    let e1: u8 = *vstd::array::array_index_get(expected_magic, 1);
    let e2: u8 = *vstd::array::array_index_get(expected_magic, 2);
    let e3: u8 = *vstd::array::array_index_get(expected_magic, 3);
    if b0 != e0 || b1 != e1 || b2 != e2 || b3 != e3 {
        proof {
            assert(spec_magic(bytes@) != expected_magic@);
        }
        return Err(
            HeaderError::MagicMismatch { actual: [b0, b1, b2, b3], expected: *expected_magic },
        );
    }
    proof {
        assert(spec_magic(bytes@) =~= expected_magic@);
    }
    let version_bytes = vstd::slice::slice_subrange(bytes, 4, FILE_HEADER_SIZE);
    proof {
        assert(version_bytes@.subrange(0, 4) =~= bytes@.subrange(4, 8));
    }
    Ok(u32_from_le(version_bytes))
}

/// Round-trip law: a header written for a given magic tag and version
/// carries back exactly that magic and that version, so reading it with the
/// same expected magic succeeds and returns the version that was written.
pub proof fn lemma_header_round_trip(magic: Seq<u8>, version: u32)
    requires
        magic.len() == 4,
    ensures
        spec_header_bytes(magic, version).len() == FILE_HEADER_SIZE,
        spec_magic(spec_header_bytes(magic, version)) == magic,
        spec_version(spec_header_bytes(magic, version)) == version,
{
    lemma_u32_le_round_trip(version);
    assert(spec_magic(spec_header_bytes(magic, version)) =~= magic);
    assert(spec_header_bytes(magic, version).subrange(4, 8) =~= spec_u32_to_le(version));
}

/// Magic-rejection law: a header written for one magic tag never carries a
/// different expected tag, whatever version it holds, so reading it with
/// that other tag fails.
pub proof fn lemma_magic_mismatch_rejected(written: Seq<u8>, expected: Seq<u8>, version: u32)
    requires
        written.len() == 4,
        expected.len() == 4,
        written != expected,
    ensures
        spec_magic(spec_header_bytes(written, version)) != expected,
{
    lemma_header_round_trip(written, version);
}

/// Version pass-through law: the version field is decoded verbatim and never
/// range-checked; four `0xFF` bytes carry the largest version there is.
pub proof fn lemma_version_not_validated(header: Seq<u8>)
    requires
        header.len() >= FILE_HEADER_SIZE,
        header[4] == 0xFFu8,
        header[5] == 0xFFu8,
        header[6] == 0xFFu8,
        header[7] == 0xFFu8,
    ensures
        spec_version(header) == 0xFFFFFFFFu32,
{
}

/// The payload that follows the header: everything from offset
/// `FILE_HEADER_SIZE` on, as a zero-copy view into the buffer. The caller
/// is expected to have validated the header prefix already.
pub fn strip_file_header(data: &[u8]) -> (payload: &[u8])
    requires
        data@.len() >= FILE_HEADER_SIZE,
    ensures
        payload@ == data@.subrange(FILE_HEADER_SIZE as int, data@.len() as int),
{
    vstd::slice::slice_subrange(data, FILE_HEADER_SIZE, data.len())
}

} // verus!
