use dice_proto::primitive::{DiceString, DiceStringError};
use dice_proto::wire::{
    i16_of, i32_of, i64_of, i8_of, u16_of, u32_of, u64_of, u8_of, write_i16, write_i32,
    write_i64, write_u64, Fault, Reader,
};

#[test]
fn text_of_32767_units_is_accepted() {
    let s = "a".repeat(32767);
    let string = DiceString::from_str(&s).unwrap();
    assert_eq!(string.len(), 32767);
    assert!(string.is_valid());
    assert_eq!(string.to_string_lossy(), s);
}

#[test]
fn text_of_32768_units_is_too_long() {
    let s = "a".repeat(32768);
    assert_eq!(DiceString::from_str(&s), Err(DiceStringError));
}

#[test]
fn the_bound_counts_units_not_bytes() {
    let s = "é".repeat(20000);
    assert_eq!(s.len(), 40000);
    let string = DiceString::from_str(&s).unwrap();
    assert_eq!(string.len(), 20000);
    assert_eq!(string.units()[0], 0x00E9);
}

#[test]
fn the_bound_counts_units_not_characters() {
    let fits = "𝄞".repeat(16383);
    assert_eq!(DiceString::from_str(&fits).unwrap().len(), 32766);
    let long = "𝄞".repeat(16384);
    assert_eq!(long.chars().count(), 16384);
    assert_eq!(DiceString::from_str(&long), Err(DiceStringError));
}

#[test]
fn a_character_beyond_the_basic_plane_is_two_surrogates() {
    let string = DiceString::from_str("a𝄞").unwrap();
    assert_eq!(string.units(), &vec![0x0061, 0xD834, 0xDD1E]);
    assert_eq!(string.to_string_lossy(), "a𝄞");
}

#[test]
fn the_last_character_of_the_basic_plane_is_one_unit() {
    let string = DiceString::from_str("\u{FFFF}\u{10000}\u{10FFFF}").unwrap();
    assert_eq!(string.units(), &vec![0xFFFF, 0xD800, 0xDC00, 0xDBFF, 0xDFFF]);
}

#[test]
fn a_lone_surrogate_reads_as_the_replacement_character() {
    let string = DiceString::from_units(vec![0x0041, 0xD800, 0x0042]);
    assert_eq!(string.to_string_lossy(), "A\u{FFFD}B");
}

#[test]
fn max_len_is_the_largest_signed_16_bit_value() {
    assert_eq!(DiceString::MAX_LEN, 32767);
    assert_eq!(DiceString::MAX_LEN, i16::MAX as usize);
}

#[test]
fn signed_values_are_two_s_complement() {
    assert_eq!(u8_of(-1), 0xFF);
    assert_eq!(i8_of(0x80), i8::MIN);
    assert_eq!(u16_of(-2), 0xFFFE);
    assert_eq!(i16_of(0x8000), i16::MIN);
    assert_eq!(u32_of(i32::MIN), 0x8000_0000);
    assert_eq!(i32_of(0xFFFF_FFFF), -1);
    assert_eq!(u64_of(-1), u64::MAX);
    assert_eq!(i64_of(0x8000_0000_0000_0000), i64::MIN);
    assert_eq!(i64_of(5), 5);
}

#[test]
fn writers_emit_big_endian() {
    let mut out = vec![0xEE];
    write_i16(&mut out, 0x0102);
    write_i32(&mut out, -2);
    write_i64(&mut out, 0x0102030405060708);
    write_u64(&mut out, 1.0f64.to_bits());
    assert_eq!(
        out,
        vec![
            0xEE, 1, 2, 0xFF, 0xFF, 0xFF, 0xFE, 1, 2, 3, 4, 5, 6, 7, 8, 0x3F, 0xF0, 0, 0, 0, 0,
            0, 0
        ]
    );
}

#[test]
fn reader_reads_big_endian_and_stops_at_the_end() {
    let bytes = [0x12, 0x34, 0xFF, 0xFF, 0xFF, 0xFE, 0x00, 0x02, 0x00, 0x41, 0x00];
    let mut reader = Reader::new(&bytes);
    assert_eq!(reader.read_u16(), Ok(0x1234));
    assert_eq!(reader.read_i32(), Ok(-2));
    assert_eq!(reader.position(), 6);
    assert_eq!(reader.read_string(), Err(Fault::Incomplete));
    let mut reader = Reader::new(&bytes[6..10]);
    assert_eq!(reader.read_count16(), Ok(2));
    assert_eq!(reader.read_u16(), Ok(0x41));
    assert_eq!(reader.read_u8(), Err(Fault::Incomplete));
    let mut reader = Reader::new(&[0xFF, 0xFF]);
    assert_eq!(reader.read_count16(), Err(Fault::Malformed));
}

#[test]
fn reader_reads_runs() {
    let bytes = [1, 2, 0xFF, 0xFE, 3, 0xFF, 4, 9];
    let mut reader = Reader::new(&bytes);
    assert_eq!(reader.read_bytes(2), Ok(vec![1, 2]));
    assert_eq!(reader.read_shorts(1), Ok(vec![-2]));
    assert_eq!(reader.read_triples(1), Ok(vec![[3, -1, 4]]));
    assert_eq!(reader.read_units(1), Err(Fault::Incomplete));
    assert_eq!(reader.read_bytes(1), Ok(vec![9]));
}

#[test]
fn a_string_parses_from_text() {
    let parsed: Result<DiceString, DiceStringError> = "player0".parse();
    assert_eq!(parsed, DiceString::from_str("player0"));
    assert_eq!(parsed.unwrap().units(), &vec![0x70, 0x6C, 0x61, 0x79, 0x65, 0x72, 0x30]);
}
