use cuid2gen::generator::{generate_ids, Generator};
use cuid2gen::output::{format_output, warning_length_unsupported, OutputFormat};

fn fresh_generator_cli() -> Generator {
    Generator::new(&Vec::new()).expect("entropy source available")
}

fn all_lower_alnum_cli(s: &[u8]) -> bool {
    !s.is_empty() && s.iter().all(|b| (b'a'..=b'z').contains(b) || (b'0'..=b'9').contains(b))
}

#[test]
fn cli_test_basic_generation() {
    let mut gen = fresh_generator_cli();
    let ids = generate_ids(&mut gen, 1).unwrap();
    let out = format_output(&ids, OutputFormat::Line, false);
    // ^[a-z0-9]+\n$
    assert_eq!(*out.last().unwrap(), b'\n');
    let body = &out[..out.len() - 1];
    assert!(all_lower_alnum_cli(body));
    assert!(!body.contains(&b'\n'));
}

#[test]
fn cli_test_multiple_ids() {
    let mut gen = fresh_generator_cli();
    let ids = generate_ids(&mut gen, 3).unwrap();
    let out = format_output(&ids, OutputFormat::Line, false);
    // ^[a-z0-9]+\n[a-z0-9]+\n[a-z0-9]+\n$
    assert_eq!(*out.last().unwrap(), b'\n');
    let lines: Vec<&[u8]> = out[..out.len() - 1].split(|b| *b == b'\n').collect();
    assert_eq!(lines.len(), 3);
    for line in lines {
        assert!(all_lower_alnum_cli(line));
    }
}

#[test]
fn cli_test_length_warning() {
    assert!(warning_length_unsupported().contains("not supported"));
}

#[test]
fn cli_test_json_format() {
    let mut gen = fresh_generator_cli();
    let ids = generate_ids(&mut gen, 1).unwrap();
    let out = format_output(&ids, OutputFormat::Json, false);
    // ^\{"ids":\["[a-z0-9]+"\]\}\n$
    assert!(out.starts_with(b"{\"ids\":[\""));
    assert!(out.ends_with(b"\"]}\n"));
    let inner = &out[9..out.len() - 4];
    assert!(all_lower_alnum_cli(inner));
}

#[test]
fn cli_test_csv_format() {
    let mut gen = fresh_generator_cli();
    let ids = generate_ids(&mut gen, 2).unwrap();
    let out = format_output(&ids, OutputFormat::Csv, false);
    // ^[a-z0-9]+,[a-z0-9]+\n$
    assert_eq!(*out.last().unwrap(), b'\n');
    let fields: Vec<&[u8]> = out[..out.len() - 1].split(|b| *b == b',').collect();
    assert_eq!(fields.len(), 2);
    for field in fields {
        assert!(all_lower_alnum_cli(field));
    }
}

#[test]
fn cli_test_quiet_mode() {
    let mut gen = fresh_generator_cli();
    let ids = generate_ids(&mut gen, 2).unwrap();
    for format in [OutputFormat::Line, OutputFormat::Csv, OutputFormat::Json] {
        assert!(format_output(&ids, format, true).is_empty());
    }
}
