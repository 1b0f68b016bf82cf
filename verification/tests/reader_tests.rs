use idlib_typeinfo::address::ForeignAddress;
use idlib_typeinfo::error::ProcessMemoryError;
use idlib_typeinfo::image::{MemoryImage, UNMAPPED};
use idlib_typeinfo::memory::STRING_WINDOW;
use idlib_typeinfo::reader::{decode_cstring, exact_length, find_terminator, ProcessMemoryReader};

fn image_with(base: u64, bytes: Vec<u8>) -> MemoryImage {
    let mut image = MemoryImage::new();
    image.map(base, bytes);
    image
}

/// `text`, a zero byte, and zero bytes up to a full probe window.
fn window_of(text: &[u8]) -> Vec<u8> {
    let mut window = vec![0u8; STRING_WINDOW];
    window[..text.len()].copy_from_slice(text);
    window
}

#[test]
fn string_window_is_1024_bytes() {
    assert_eq!(STRING_WINDOW, 1024);
}

#[test]
fn read_bytes_returns_the_exact_range() {
    let image = image_with(0x1000, (0u8..=255).collect());
    let reader = ProcessMemoryReader::new(|address, size| image.read(address, size));
    assert_eq!(reader.read_bytes(ForeignAddress(0x1000), 4), Ok(vec![0, 1, 2, 3]));
    assert_eq!(reader.read_bytes(ForeignAddress(0x10fe), 2), Ok(vec![254, 255]));
    assert_eq!(reader.read_bytes(ForeignAddress(0x1010), 0), Ok(vec![]));
}

#[test]
fn read_bytes_passes_the_refusal_code_on() {
    let reader = ProcessMemoryReader::new(|_address: u64, _size: usize| Err::<Vec<u8>, i32>(-5));
    assert_eq!(
        reader.read_bytes(ForeignAddress(0x1000), 16),
        Err(ProcessMemoryError::CouldNotReadProcessMemory { code: -5 })
    );
}

#[test]
fn read_bytes_outside_the_image_is_refused() {
    let image = image_with(0x1000, vec![7; 16]);
    let reader = ProcessMemoryReader::new(|address, size| image.read(address, size));
    assert_eq!(
        reader.read_bytes(ForeignAddress(0x1008), 16),
        Err(ProcessMemoryError::CouldNotReadProcessMemory { code: UNMAPPED })
    );
    assert_eq!(
        reader.read_bytes(ForeignAddress(0x0fff), 2),
        Err(ProcessMemoryError::CouldNotReadProcessMemory { code: UNMAPPED })
    );
}

#[test]
fn short_read_is_an_error_not_a_shorter_result() {
    let reader = ProcessMemoryReader::new(|_address: u64, size: usize| Ok::<Vec<u8>, i32>(vec![1; size - 3]));
    assert_eq!(
        reader.read_bytes(ForeignAddress(0x1000), 16),
        Err(ProcessMemoryError::NotEnoughBytes { expected: 16, actual: 13 })
    );
}

#[test]
fn answer_of_another_length_is_never_handed_on() {
    let reader = ProcessMemoryReader::new(|_address: u64, size: usize| Ok::<Vec<u8>, i32>(vec![1; size + 1]));
    assert_eq!(
        reader.read_bytes(ForeignAddress(0x1000), 16),
        Err(ProcessMemoryError::NotEnoughBytes { expected: 16, actual: 17 })
    );
}

#[test]
fn read_bytes_hands_address_and_size_to_the_source() {
    let reader = ProcessMemoryReader::new(|address: u64, size: usize| {
        if address == 0xdead_beef_0000 && size == 5 {
            Ok::<Vec<u8>, i32>(vec![9; 5])
        } else {
            Err(1)
        }
    });
    assert_eq!(reader.read_bytes(ForeignAddress(0xdead_beef_0000), 5), Ok(vec![9; 5]));
    assert_eq!(
        reader.read_bytes(ForeignAddress(0xdead_beef_0000), 6),
        Err(ProcessMemoryError::CouldNotReadProcessMemory { code: 1 })
    );
}

#[test]
fn read_struct_decodes_a_little_endian_u64() {
    let image = image_with(0x2000, vec![0x08, 0x07, 0x06, 0x05, 0x04, 0x03, 0x02, 0x01]);
    let reader = ProcessMemoryReader::new(|address, size| image.read(address, size));
    assert_eq!(reader.read_struct::<u64>(ForeignAddress(0x2000)), Ok(0x0102_0304_0506_0708));
}

#[test]
fn read_struct_fails_where_the_record_is_cut_off() {
    let image = image_with(0x2000, vec![0xff; 7]);
    let reader = ProcessMemoryReader::new(|address, size| image.read(address, size));
    assert_eq!(
        reader.read_struct::<u64>(ForeignAddress(0x2000)),
        Err(ProcessMemoryError::CouldNotReadProcessMemory { code: UNMAPPED })
    );
}

#[test]
fn read_structs_slices_one_read_into_elements() {
    let mut bytes = Vec::new();
    for value in [1u64, 0x1_0000_0000, u64::MAX] {
        bytes.extend_from_slice(&value.to_le_bytes());
    }
    let image = image_with(0x3000, bytes);
    let reader = ProcessMemoryReader::new(|address, size| image.read(address, size));
    assert_eq!(
        reader.read_structs::<u64>(ForeignAddress(0x3000), 3),
        Ok(vec![1, 0x1_0000_0000, u64::MAX])
    );
    assert_eq!(reader.read_structs::<u64>(ForeignAddress(0x3008), 1), Ok(vec![0x1_0000_0000]));
    assert_eq!(reader.read_structs::<u64>(ForeignAddress(0x3000), 0), Ok(vec![]));
}

#[test]
fn read_structs_is_all_or_nothing() {
    let image = image_with(0x3000, vec![1; 23]);
    let reader = ProcessMemoryReader::new(|address, size| image.read(address, size));
    assert_eq!(
        reader.read_structs::<u64>(ForeignAddress(0x3000), 3),
        Err(ProcessMemoryError::CouldNotReadProcessMemory { code: UNMAPPED })
    );
    let short = ProcessMemoryReader::new(|_address: u64, _size: usize| Ok::<Vec<u8>, i32>(vec![1; 16]));
    assert_eq!(
        short.read_structs::<u64>(ForeignAddress(0x3000), 3),
        Err(ProcessMemoryError::NotEnoughBytes { expected: 24, actual: 16 })
    );
}

#[test]
fn read_structs_asks_for_count_times_size_bytes() {
    let reader = ProcessMemoryReader::new(|_address: u64, size: usize| {
        if size == 40 {
            Ok::<Vec<u8>, i32>(vec![0; 40])
        } else {
            Err(3)
        }
    });
    assert_eq!(reader.read_structs::<u64>(ForeignAddress(0x10), 5), Ok(vec![0; 5]));
}

#[test]
fn read_structs_of_a_table_larger_than_memory_is_an_overflow() {
    let reader = ProcessMemoryReader::new(|_address: u64, size: usize| Ok::<Vec<u8>, i32>(vec![0; size]));
    assert_eq!(
        reader.read_structs::<u64>(ForeignAddress(0x10), usize::MAX),
        Err(ProcessMemoryError::AddressOverflow)
    );
    assert_eq!(
        reader.read_structs::<u64>(ForeignAddress(0x10), usize::MAX / 8 + 1),
        Err(ProcessMemoryError::AddressOverflow)
    );
}

#[test]
fn read_cstring_of_null_is_empty_string_error() {
    let image = image_with(0, vec![b'a'; 2048]);
    let reader = ProcessMemoryReader::new(|address, size| image.read(address, size));
    assert_eq!(reader.read_cstring(ForeignAddress(0)), Err(ProcessMemoryError::EmptyString));
}

#[test]
fn read_cstring_stops_at_the_first_zero_byte() {
    let mut bytes = window_of(b"hello\0world");
    bytes.extend_from_slice(&[b'x'; 64]);
    let image = image_with(0x4000, bytes);
    let reader = ProcessMemoryReader::new(|address, size| image.read(address, size));
    assert_eq!(reader.read_cstring(ForeignAddress(0x4000)), Ok(String::from("hello")));
    assert_eq!(reader.read_cstring(ForeignAddress(0x4002)), Ok(String::from("llo")));
    assert_eq!(reader.read_cstring(ForeignAddress(0x4005)), Ok(String::new()));
    assert_eq!(reader.read_cstring(ForeignAddress(0x4006)), Ok(String::from("world")));
}

#[test]
fn read_cstring_without_zero_byte_is_the_whole_window() {
    let image = image_with(0x5000, vec![b'A'; 4096]);
    let reader = ProcessMemoryReader::new(|address, size| image.read(address, size));
    let text = reader.read_cstring(ForeignAddress(0x5000)).unwrap();
    assert_eq!(text.len(), 1024);
    assert_eq!(text, "A".repeat(1024));
}

#[test]
fn read_cstring_with_zero_byte_just_past_the_window_is_the_whole_window() {
    let mut bytes = vec![b'B'; 1024];
    bytes.push(0);
    let image = image_with(0x5000, bytes);
    let reader = ProcessMemoryReader::new(|address, size| image.read(address, size));
    assert_eq!(reader.read_cstring(ForeignAddress(0x5000)), Ok("B".repeat(1024)));
}

#[test]
fn read_cstring_probes_a_window_of_1024_bytes() {
    let reader = ProcessMemoryReader::new(|address: u64, size: usize| {
        if address == 0x77 && size == 1024 {
            Ok::<Vec<u8>, i32>(vec![0; 1024])
        } else {
            Err(8)
        }
    });
    assert_eq!(reader.read_cstring(ForeignAddress(0x77)), Ok(String::new()));
}

#[test]
fn read_cstring_near_the_end_of_a_region_fails_with_the_read() {
    let image = image_with(0x6000, window_of(b"abc"));
    let reader = ProcessMemoryReader::new(|address, size| image.read(address, size));
    assert_eq!(reader.read_cstring(ForeignAddress(0x6000)), Ok(String::from("abc")));
    assert_eq!(
        reader.read_cstring(ForeignAddress(0x6001)),
        Err(ProcessMemoryError::CouldNotReadProcessMemory { code: UNMAPPED })
    );
}

#[test]
fn read_cstring_of_invalid_utf8_is_invalid_string() {
    let image = image_with(0x7000, window_of(&[b'a', 0xff, b'b']));
    let reader = ProcessMemoryReader::new(|address, size| image.read(address, size));
    assert_eq!(reader.read_cstring(ForeignAddress(0x7000)), Err(ProcessMemoryError::InvalidString));
}

#[test]
fn read_cstring_ignores_invalid_bytes_behind_the_terminator() {
    let image = image_with(0x7000, window_of(&[b'o', b'k', 0, 0xff, 0xfe]));
    let reader = ProcessMemoryReader::new(|address, size| image.read(address, size));
    assert_eq!(reader.read_cstring(ForeignAddress(0x7000)), Ok(String::from("ok")));
}

#[test]
fn read_cstring_decodes_multi_byte_utf8() {
    let image = image_with(0x7000, window_of("h\u{e9}llo \u{20ac} \u{1f600}".as_bytes()));
    let reader = ProcessMemoryReader::new(|address, size| image.read(address, size));
    let text = reader.read_cstring(ForeignAddress(0x7000)).unwrap();
    assert_eq!(text, "h\u{e9}llo \u{20ac} \u{1f600}");
    assert_eq!(text.chars().count(), 9);
}

#[test]
fn read_cstring_of_a_short_window_is_not_enough_bytes() {
    let reader = ProcessMemoryReader::new(|_address: u64, _size: usize| Ok::<Vec<u8>, i32>(b"abc\0".to_vec()));
    assert_eq!(
        reader.read_cstring(ForeignAddress(0x10)),
        Err(ProcessMemoryError::NotEnoughBytes { expected: 1024, actual: 4 })
    );
}

#[test]
fn read_optional_cstring_collapses_every_failure_to_none() {
    let mut image = MemoryImage::new();
    image.map(0x1000, window_of(b"present"));
    image.map(0x2000, window_of(&[0xc3, 0x28]));
    let reader = ProcessMemoryReader::new(|address, size| image.read(address, size));
    assert_eq!(reader.read_optional_cstring(ForeignAddress(0x1000)), Some(String::from("present")));
    assert_eq!(reader.read_optional_cstring(ForeignAddress(0)), None);
    assert_eq!(reader.read_optional_cstring(ForeignAddress(0x2000)), None);
    assert_eq!(reader.read_optional_cstring(ForeignAddress(0x9000)), None);
}

#[test]
fn find_terminator_is_the_index_of_the_first_zero() {
    assert_eq!(find_terminator(&vec![]), 0);
    assert_eq!(find_terminator(&vec![0]), 0);
    assert_eq!(find_terminator(&vec![1, 2, 0, 3, 0]), 2);
    assert_eq!(find_terminator(&vec![1, 2, 3]), 3);
}

#[test]
fn decode_cstring_takes_the_bytes_before_the_terminator() {
    assert_eq!(decode_cstring(b"Entity\0junk".to_vec()), Ok(String::from("Entity")));
    assert_eq!(decode_cstring(b"no terminator".to_vec()), Ok(String::from("no terminator")));
    assert_eq!(decode_cstring(vec![]), Ok(String::new()));
    assert_eq!(decode_cstring(vec![0]), Ok(String::new()));
    assert_eq!(decode_cstring(vec![0xe2, 0x82, 0xac, 0]), Ok(String::from("\u{20ac}")));
}

#[test]
fn decode_cstring_rejects_text_that_is_not_utf8() {
    assert_eq!(decode_cstring(vec![0x80, 0]), Err(ProcessMemoryError::InvalidString));
    assert_eq!(decode_cstring(vec![0xe2, 0x82, 0]), Err(ProcessMemoryError::InvalidString));
    assert_eq!(decode_cstring(vec![0xed, 0xa0, 0x80, 0]), Err(ProcessMemoryError::InvalidString));
    assert_eq!(decode_cstring(vec![0xc0, 0x80]), Err(ProcessMemoryError::InvalidString));
}

#[test]
fn every_read_goes_to_the_source_again() {
    let image = image_with(0x4000, window_of(b"twice"));
    let reads = std::cell::Cell::new(0u32);
    let reader = ProcessMemoryReader::new(|address: u64, size: usize| {
        reads.set(reads.get() + 1);
        image.read(address, size)
    });
    assert_eq!(reader.read_cstring(ForeignAddress(0x4000)), Ok(String::from("twice")));
    assert_eq!(reader.read_cstring(ForeignAddress(0x4000)), Ok(String::from("twice")));
    assert_eq!(reads.get(), 2);
    assert_eq!(reader.read_cstring(ForeignAddress(0)), Err(ProcessMemoryError::EmptyString));
    assert_eq!(reads.get(), 2);
    assert_eq!(reader.read_structs::<u64>(ForeignAddress(0x4000), 4).unwrap().len(), 4);
    assert_eq!(reads.get(), 3);
}

#[test]
fn exact_length_hands_on_only_answers_of_the_length_asked_for() {
    assert_eq!(exact_length(Ok(vec![1, 2, 3]), 3), Ok(vec![1, 2, 3]));
    assert_eq!(exact_length(Ok(vec![]), 0), Ok(vec![]));
    assert_eq!(
        exact_length(Ok(vec![1, 2]), 3),
        Err(ProcessMemoryError::NotEnoughBytes { expected: 3, actual: 2 })
    );
    assert_eq!(
        exact_length(Ok(vec![]), 1),
        Err(ProcessMemoryError::NotEnoughBytes { expected: 1, actual: 0 })
    );
    assert_eq!(
        exact_length(Ok(vec![1, 2, 3, 4]), 3),
        Err(ProcessMemoryError::NotEnoughBytes { expected: 3, actual: 4 })
    );
    assert_eq!(
        exact_length(Err(299), 3),
        Err(ProcessMemoryError::CouldNotReadProcessMemory { code: 299 })
    );
}
