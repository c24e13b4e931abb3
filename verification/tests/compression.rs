use shrek_superslam::classes::error::Error as ClassError;
use shrek_superslam::compression::{compress, decompress};
use shrek_superslam::Error;

#[test]
fn compress_then_decompress() {
    let data = "The quick brown fox jumped over the lazy dog";
    let compressed = compress(&data.as_bytes());
    let decompressed = decompress(&compressed).unwrap();
    assert_eq!(String::from_utf8(decompressed).unwrap(), data);
}

#[test]
fn decompress_minimal_stream() {
    // a block of no literal bytes and one back-reference, which is of length
    // zero and has a length byte of zero: the end of the stream
    let decompressed = decompress(&[0x00, 0x00, 0x00]).unwrap();
    assert!(decompressed.is_empty());
}

#[test]
fn decompress_stream_without_its_last_byte_fails() {
    // the back-reference of length zero lacks its length byte
    match decompress(&[0x00, 0x00]) {
        Err(Error::ClassDeserialiseError(ClassError::NotEnoughBytes {
            requested,
            file_size,
            offset,
        })) => {
            assert_eq!((requested, file_size, offset), (1, 2, 2));
        }
        other => panic!("unexpected result {:?}", other),
    }
}

#[test]
fn compress_empty() {
    assert_eq!(compress(&[]), vec![0x00, 0x00, 0x00]);
    assert_eq!(decompress(&compress(&[])).unwrap(), Vec::<u8>::new());
}

#[test]
fn compress_single_byte() {
    assert_eq!(compress(&[0x41]), vec![0x08, 0x41, 0x00, 0x00]);
    assert_eq!(decompress(&compress(&[0x41])).unwrap(), vec![0x41]);
}

#[test]
fn compress_headers_by_length() {
    // up to 0x1D bytes: the length in the upper five bits of one byte
    let short = vec![7u8; 0x1D];
    assert_eq!(compress(&short)[0], 0x1D << 3);
    assert_eq!(compress(&short).len(), 1 + 0x1D + 2);
    // up to 0x11D bytes: 0xF0 and the length less 0x1E
    let medium = vec![7u8; 0x1E];
    assert_eq!(&compress(&medium)[0..2], &[0xF0, 0x00]);
    let medium = vec![7u8; 0x11D];
    assert_eq!(&compress(&medium)[0..2], &[0xF0, 0xFF]);
    // longer: 0xF8 and the length less 0x11E, low byte first
    let long = vec![7u8; 0x11E];
    assert_eq!(&compress(&long)[0..3], &[0xF8, 0x00, 0x00]);
    let long = vec![7u8; 0x11E + 0x1234];
    assert_eq!(&compress(&long)[0..3], &[0xF8, 0x34, 0x12]);
}

#[test]
fn round_trip_of_each_header_form() {
    for len in [0usize, 1, 0x1D, 0x1E, 0x11D, 0x11E, 0x1000, 0x1011C, 0x1011E, 0x20000] {
        let data: Vec<u8> = (0..len).map(|i| (i * 7 + 3) as u8).collect();
        assert_eq!(decompress(&compress(&data)).unwrap(), data);
    }
}

#[test]
fn compress_splits_long_input_into_blocks() {
    let data: Vec<u8> = (0..0x1011D + 5).map(|i| i as u8).collect();
    let compressed = compress(&data);
    assert_eq!(&compressed[0..3], &[0xF8, 0xFF, 0xFF]);
    assert_eq!(&compressed[3..3 + 0x1011D], &data[0..0x1011D]);
    assert_eq!(compressed[3 + 0x1011D], 5 << 3);
    assert_eq!(compressed.len(), 3 + 0x1011D + 1 + 5 + 2);
}

#[test]
fn round_trip_fails_on_a_full_last_block() {
    // a last block of the greatest length carries no back-reference, so the
    // bytes that end the stream are taken for the start of another block
    let data = vec![1u8; 0x1011D];
    assert!(decompress(&compress(&data)).is_err());
}

#[test]
fn decompress_back_references() {
    // three literal bytes, then a back-reference of length 3 and distance 2
    let stream = [3 << 3, b'a', b'b', b'c', (2 << 3) | 3, 0x00, 0x00];
    // only one back-reference belongs to the block: the next byte opens a
    // block of no literal bytes, whose back-reference ends the stream
    let stream = [stream.as_slice(), &[0x00]].concat();
    assert_eq!(decompress(&stream).unwrap(), b"abcabc".to_vec());
}

#[test]
fn decompress_rolling_copy_reads_its_own_output() {
    // one literal byte, then a back-reference of length 5 and distance 0
    let stream = [1 << 3, b'x', 5, 0x00, 0x00, 0x00];
    assert_eq!(decompress(&stream).unwrap(), b"xxxxxx".to_vec());
}

#[test]
fn decompress_long_back_reference() {
    // a length byte of 1 stands for a length of 8
    let stream = [2 << 3, b'a', b'b', 1 << 3, 1, 0x00, 0x00, 0x00];
    assert_eq!(decompress(&stream).unwrap(), b"ababababab".to_vec());
}

#[test]
fn decompress_extended_distances() {
    // a literal run of 30 + 2 bytes: the upper bits are 30, one byte follows
    let mut stream = vec![0xF0, 2];
    stream.extend(vec![9u8; 32]);
    stream.extend([0x00, 0x00]);
    assert_eq!(decompress(&stream).unwrap(), vec![9u8; 32]);
    // a literal run of 31 + 1 + 255 bytes: the upper bits are 31, two bytes
    // follow
    let mut stream = vec![0xF8, 1, 0];
    stream.extend(vec![9u8; 287]);
    stream.extend([0x00, 0x00]);
    assert_eq!(decompress(&stream).unwrap(), vec![9u8; 287]);
}

#[test]
fn decompress_empty_input_fails() {
    match decompress(&[]) {
        Err(Error::ClassDeserialiseError(ClassError::NotEnoughBytes {
            requested,
            file_size,
            offset,
        })) => {
            assert_eq!((requested, file_size, offset), (1, 0, 0));
        }
        other => panic!("unexpected result {:?}", other),
    }
}

#[test]
fn decompress_truncated_literal_run_fails() {
    match decompress(&[4 << 3, 1, 2]) {
        Err(Error::ClassDeserialiseError(ClassError::NotEnoughBytes {
            requested,
            file_size,
            offset,
        })) => {
            assert_eq!((requested, file_size, offset), (4, 3, 1));
        }
        other => panic!("unexpected result {:?}", other),
    }
}

#[test]
fn decompress_reference_before_start_fails() {
    // a back-reference of distance 3 with only one byte written
    match decompress(&[1 << 3, b'a', (3 << 3) | 1, 0, 0]) {
        Err(Error::ClassDeserialiseError(ClassError::NotEnoughBytes {
            requested,
            file_size,
            offset,
        })) => {
            assert_eq!((requested, file_size, offset), (4, 1, 1));
        }
        other => panic!("unexpected result {:?}", other),
    }
}
