use std::collections::HashSet;

use cuid2gen::base36::base36_fixed;
use cuid2gen::errors::GenError;
use cuid2gen::generator::{
    encode_id, generate_ids, Generator, COUNTER_BOUND, DEFAULT_LENGTH, ENTROPY_BYTES,
};
use cuid2gen::hashing::hash64;
use cuid2gen::output::{
    check_count, format_output, parse_format, warning_unknown_format, OutputFormat, MAX_COUNT,
};

fn is_identifier_bytes(s: &[u8]) -> bool {
    !s.is_empty() && (b'a'..=b'z').contains(&s[0]) && s[1..].iter().all(|b| {
        (b'a'..=b'z').contains(b) || (b'0'..=b'9').contains(b)
    })
}

fn test_generator() -> Generator {
    Generator::from_parts(b"ab09".to_vec(), 7).unwrap()
}

#[test]
fn generate_lengths_in_range() {
    // Every valid length from 2 to 32 gives exactly that many characters,
    // a letter first, lowercase letters and digits after.
    let mut gen = Generator::new(&Vec::new()).unwrap();
    for len in 2..=32usize {
        let id = gen.generate_with_length(len).unwrap();
        assert_eq!(id.len(), len);
        assert!(is_identifier_bytes(&id));
    }
}

#[test]
fn generate_below_minimum_is_rejected_without_side_effect() {
    let mut gen = test_generator();
    for len in 0..2usize {
        let before = gen.counter;
        let r = gen.generate_with_length(len);
        assert_eq!(r, Err(GenError::ConfigurationError));
        assert_eq!(gen.counter, before);
    }
}

#[test]
fn sequential_generation_yields_no_duplicates() {
    let mut gen = Generator::new(&Vec::new()).unwrap();
    let ids = generate_ids(&mut gen, 100_000).unwrap();
    let distinct: HashSet<&Vec<u8>> = ids.iter().collect();
    assert_eq!(distinct.len(), 100_000);
}

#[test]
fn zero_count_succeeds_with_no_identifiers_and_no_side_effect() {
    let mut gen = test_generator();
    let before = gen.counter;
    let ids = generate_ids(&mut gen, 0).unwrap();
    assert!(ids.is_empty());
    assert_eq!(gen.counter, before);
}

#[test]
fn counter_advances_once_per_identifier() {
    let mut gen = test_generator();
    let before = gen.counter;
    generate_ids(&mut gen, 160).unwrap();
    assert_eq!(gen.counter, before + 160);
}

#[test]
fn counter_wraps_at_bound() {
    let mut gen = Generator::from_parts(b"zzzz".to_vec(), COUNTER_BOUND - 1).unwrap();
    gen.generate().unwrap();
    assert_eq!(gen.counter, 0);
}

#[test]
fn encoding_is_deterministic_for_fixed_inputs() {
    let fingerprint = b"ab09".to_vec();
    let entropy: Vec<u8> = (0..(ENTROPY_BYTES + 1) as u8).collect();
    let first = encode_id(1700000000000, 42, &fingerprint, &entropy, 24);
    let second = encode_id(1700000000000, 42, &fingerprint, &entropy, 24);
    assert_eq!(first, second);
    assert_eq!(first.len(), 24);
    assert!(is_identifier_bytes(&first));
    // The leading letter is selected by the first entropy byte alone.
    assert_eq!(first[0], b'a' + entropy[0] % 26);
    let shifted: Vec<u8> = entropy.iter().map(|b| b.wrapping_add(1)).collect();
    assert_eq!(encode_id(1700000000000, 42, &fingerprint, &shifted, 24)[0], b'b');
}

#[test]
fn hash_matches_known_vectors() {
    // FNV-1a, 64 bit: the digest of the empty input is the offset basis, and
    // the one-byte inputs "a" and "b" have well-known digests.
    assert_eq!(hash64(&Vec::new()), 0xcbf29ce484222325);
    assert_eq!(hash64(&b"a".to_vec()), 0xaf63dc4c8601ec8c);
    assert_eq!(hash64(&b"b".to_vec()), 0xaf63df4c8601f1a5);
}

#[test]
fn base36_renders_fixed_width() {
    assert_eq!(base36_fixed(0, 2), b"00".to_vec());
    assert_eq!(base36_fixed(35, 2), b"0z".to_vec());
    assert_eq!(base36_fixed(36, 2), b"10".to_vec());
    assert_eq!(base36_fixed(1295, 2), b"zz".to_vec());
    assert_eq!(base36_fixed(1296, 2), b"00".to_vec());
    assert_eq!(base36_fixed(0, 0), Vec::<u8>::new());
}

#[test]
fn csv_of_three_defaults_has_two_commas() {
    let mut gen = Generator::new(&Vec::new()).unwrap();
    let ids = generate_ids(&mut gen, 3).unwrap();
    let out = format_output(&ids, OutputFormat::Csv, false);
    assert_eq!(out.iter().filter(|b| **b == b',').count(), 2);
    assert_eq!(*out.last().unwrap(), b'\n');
    let fields: Vec<&[u8]> = out[..out.len() - 1].split(|b| *b == b',').collect();
    assert_eq!(fields.len(), 3);
    for field in fields {
        assert_eq!(field.len(), DEFAULT_LENGTH);
        assert!(is_identifier_bytes(field));
    }
}

#[test]
fn zero_identifiers_render_as_empty_output() {
    let none: Vec<Vec<u8>> = Vec::new();
    for format in [OutputFormat::Line, OutputFormat::Csv, OutputFormat::Json] {
        assert!(format_output(&none, format, false).is_empty());
    }
}

#[test]
fn unrecognized_format_falls_back_to_line() {
    let (format, recognized) = parse_format(&b"xml".to_vec());
    assert_eq!(format, OutputFormat::Line);
    assert!(!recognized);
    assert!(!warning_unknown_format().is_empty());
    assert!(warning_unknown_format().contains("line"));
    // The recognized names parse to their formats.
    assert_eq!(parse_format(&b"line".to_vec()), (OutputFormat::Line, true));
    assert_eq!(parse_format(&b"csv".to_vec()), (OutputFormat::Csv, true));
    assert_eq!(parse_format(&b"json".to_vec()), (OutputFormat::Json, true));
}

#[test]
fn count_above_maximum_is_a_configuration_error() {
    assert_eq!(check_count(MAX_COUNT), Ok(()));
    assert_eq!(check_count(MAX_COUNT + 1), Err(GenError::ConfigurationError));
    assert_eq!(check_count(0), Ok(()));
}

#[test]
fn rejected_fingerprints_are_configuration_errors() {
    // Wrong length, uppercase, and a counter at the bound are all rejected.
    assert_eq!(
        Generator::from_parts(b"abc".to_vec(), 0).err(),
        Some(GenError::ConfigurationError)
    );
    assert_eq!(
        Generator::from_parts(b"AB09".to_vec(), 0).err(),
        Some(GenError::ConfigurationError)
    );
    assert_eq!(
        Generator::from_parts(b"ab09".to_vec(), COUNTER_BOUND).err(),
        Some(GenError::ConfigurationError)
    );
    assert!(Generator::from_parts(b"ab09".to_vec(), COUNTER_BOUND - 1).is_ok());
}

#[test]
fn json_output_parses_as_the_expected_object() {
    let mut gen = Generator::new(&Vec::new()).unwrap();
    let ids = generate_ids(&mut gen, 2).unwrap();
    let out = format_output(&ids, OutputFormat::Json, false);
    let value: serde_json::Value = serde_json::from_slice(&out).unwrap();
    let listed = value["ids"].as_array().unwrap();
    assert_eq!(listed.len(), 2);
    for (given, listed) in ids.iter().zip(listed) {
        assert_eq!(listed.as_str().unwrap().as_bytes(), given.as_slice());
    }
}
