use measureme::file_header::{
    read_file_header, strip_file_header, write_file_header, write_header_bytes, HeaderError,
    CURRENT_FILE_FORMAT_VERSION, FILE_HEADER_SIZE, FILE_MAGIC_EVENT_STREAM,
    FILE_MAGIC_STRINGTABLE_DATA, FILE_MAGIC_STRINGTABLE_INDEX,
};
use measureme::serialization::{SerializationSink, VecSink};

#[test]
fn roundtrip() {
    let mut data_sink = VecSink::new();

    write_file_header(&mut data_sink, &FILE_MAGIC_EVENT_STREAM);

    let data = data_sink.into_bytes();

    assert_eq!(
        read_file_header(&data, &FILE_MAGIC_EVENT_STREAM).unwrap(),
        CURRENT_FILE_FORMAT_VERSION
    );
}

#[test]
fn invalid_magic() {
    let mut data_sink = VecSink::new();
    write_file_header(&mut data_sink, &FILE_MAGIC_STRINGTABLE_DATA);
    let mut data = data_sink.into_bytes();

    // Invalidate the filemagic
    data[2] = 0;
    assert!(read_file_header(&data, &FILE_MAGIC_STRINGTABLE_DATA).is_err());
}

#[test]
fn other_version() {
    let mut data_sink = VecSink::new();

    write_file_header(&mut data_sink, &FILE_MAGIC_STRINGTABLE_INDEX);

    let mut data = data_sink.into_bytes();

    // Change version
    data[4] = 0xFF;
    data[5] = 0xFF;
    data[6] = 0xFF;
    data[7] = 0xFF;
    assert_eq!(
        read_file_header(&data, &FILE_MAGIC_STRINGTABLE_INDEX).unwrap(),
        0xFFFF_FFFF
    );
}

#[test]
fn event_stream_header_bytes_are_exact() {
    let header = write_header_bytes(&FILE_MAGIC_EVENT_STREAM);
    assert_eq!(header, vec![0x4D, 0x4D, 0x45, 0x53, 0x00, 0x00, 0x00, 0x00]);
    assert_eq!(
        read_file_header(&header, &FILE_MAGIC_EVENT_STREAM).unwrap(),
        0
    );
    assert!(read_file_header(&header, &FILE_MAGIC_STRINGTABLE_DATA).is_err());
}

#[test]
fn corrupt_magic_byte_is_rejected() {
    let mut data = write_header_bytes(&FILE_MAGIC_STRINGTABLE_INDEX);
    data[2] = 0x00;
    let result = read_file_header(&data, &FILE_MAGIC_STRINGTABLE_INDEX);
    assert_eq!(
        result,
        Err(HeaderError::MagicMismatch {
            actual: [0x4D, 0x4D, 0x00, 0x49],
            expected: FILE_MAGIC_STRINGTABLE_INDEX,
        })
    );
}

#[test]
fn mismatch_error_carries_both_magics() {
    let header = write_header_bytes(&FILE_MAGIC_EVENT_STREAM);
    let result = read_file_header(&header, &FILE_MAGIC_STRINGTABLE_DATA);
    assert_eq!(
        result,
        Err(HeaderError::MagicMismatch {
            actual: FILE_MAGIC_EVENT_STREAM,
            expected: FILE_MAGIC_STRINGTABLE_DATA,
        })
    );
}

#[test]
fn version_bytes_decode_little_endian() {
    let mut data = write_header_bytes(&FILE_MAGIC_STRINGTABLE_DATA);
    data[4] = 0x01;
    data[5] = 0x02;
    data[6] = 0x03;
    data[7] = 0x04;
    assert_eq!(
        read_file_header(&data, &FILE_MAGIC_STRINGTABLE_DATA).unwrap(),
        0x0403_0201
    );
}

#[test]
fn strip_header_returns_payload_after_eight_bytes() {
    let mut data = write_header_bytes(&FILE_MAGIC_EVENT_STREAM);
    data.extend_from_slice(&[0xAA, 0xBB]);
    assert_eq!(strip_file_header(&data), &[0xAA, 0xBB]);

    // The offset is fixed, whatever the buffer holds.
    let arbitrary = vec![9, 8, 7, 6, 5, 4, 3, 2, 1, 0];
    assert_eq!(strip_file_header(&arbitrary), &[1, 0]);
    assert_eq!(strip_file_header(&arbitrary).len(), arbitrary.len() - FILE_HEADER_SIZE);
}

#[test]
fn sink_accumulates_atomic_writes_in_order() {
    let mut sink = VecSink::new();
    sink.write_atomic(&[1, 2, 3]);
    sink.write_atomic(&[]);
    sink.write_atomic(&[4, 5]);
    assert_eq!(sink.into_bytes(), vec![1, 2, 3, 4, 5]);
}

#[test]
fn two_headers_to_one_sink_stay_whole() {
    let mut sink = VecSink::new();
    write_file_header(&mut sink, &FILE_MAGIC_STRINGTABLE_DATA);
    write_file_header(&mut sink, &FILE_MAGIC_STRINGTABLE_INDEX);
    let data = sink.into_bytes();
    assert_eq!(read_file_header(&data, &FILE_MAGIC_STRINGTABLE_DATA).unwrap(), 0);
    let rest = strip_file_header(&data);
    assert_eq!(read_file_header(rest, &FILE_MAGIC_STRINGTABLE_INDEX).unwrap(), 0);
}
