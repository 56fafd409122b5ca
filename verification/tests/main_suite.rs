use cuid2gen::generator::{generate_ids, Generator};
use cuid2gen::output::{format_output, warning_length_unsupported, OutputFormat};

fn fresh_generator_main() -> Generator {
    Generator::new(&Vec::new()).expect("entropy source available")
}

fn all_lower_alnum_main(s: &[u8]) -> bool {
    !s.is_empty() && s.iter().all(|b| (b'a'..=b'z').contains(b) || (b'0'..=b'9').contains(b))
}

#[test]
fn main_test_basic_generation() {
    let mut gen = fresh_generator_main();
    let ids = generate_ids(&mut gen, 1).unwrap();
    let out = format_output(&ids, OutputFormat::Line, false);
    // ^[a-z0-9]+\n$
    assert_eq!(*out.last().unwrap(), b'\n');
    let body = &out[..out.len() - 1];
    assert!(all_lower_alnum_main(body));
    assert!(!body.contains(&b'\n'));
}

#[test]
fn main_test_multiple_ids() {
    let mut gen = fresh_generator_main();
    let ids = generate_ids(&mut gen, 3).unwrap();
    let out = format_output(&ids, OutputFormat::Line, false);
    // ^[a-z0-9]+\n[a-z0-9]+\n[a-z0-9]+\n$
    assert_eq!(*out.last().unwrap(), b'\n');
    let lines: Vec<&[u8]> = out[..out.len() - 1].split(|b| *b == b'\n').collect();
    assert_eq!(lines.len(), 3);
    for line in lines {
        assert!(all_lower_alnum_main(line));
    }
}

#[test]
fn main_test_length_warning() {
    // A request that names a length is answered with a warning on the error
    // stream; the text tells the user the option is not supported.
    assert!(warning_length_unsupported().contains("not supported"));
}

#[test]
fn main_test_json_format() {
    let mut gen = fresh_generator_main();
    let ids = generate_ids(&mut gen, 1).unwrap();
    let out = format_output(&ids, OutputFormat::Json, false);
    // ^\{"ids":\["[a-z0-9]+"\]\}\n$
    let mut expected: Vec<u8> = Vec::new();
    expected.extend_from_slice(b"{\"ids\":[\"");
    expected.extend_from_slice(&ids[0]);
    expected.extend_from_slice(b"\"]}\n");
    assert_eq!(out, expected);
    assert!(all_lower_alnum_main(&ids[0]));
}

#[test]
fn main_test_csv_format() {
    let mut gen = fresh_generator_main();
    let ids = generate_ids(&mut gen, 2).unwrap();
    let out = format_output(&ids, OutputFormat::Csv, false);
    // ^[a-z0-9]+,[a-z0-9]+\n$
    assert_eq!(*out.last().unwrap(), b'\n');
    let fields: Vec<&[u8]> = out[..out.len() - 1].split(|b| *b == b',').collect();
    assert_eq!(fields.len(), 2);
    for field in fields {
        assert!(all_lower_alnum_main(field));
    }
}

#[test]
fn main_test_quiet_mode() {
    let mut gen = fresh_generator_main();
    let ids = generate_ids(&mut gen, 1).unwrap();
    let out = format_output(&ids, OutputFormat::Line, true);
    assert!(out.is_empty());
}
