//! Output of identifier lists: one per line, one comma-joined line, or a
//! JSON object `{"ids":[...]}` — and the option decisions around them: the
//! repetition-count ceiling, format-name recognition with its fallback, and
//! the warnings a caller prints.

use vstd::prelude::*;

use crate::bytes::push_all;
use crate::errors::GenError;

verus! {

/// The largest repetition count a request may ask for.
pub const MAX_COUNT: u32 = 1000000;

/// The output formats.
#[derive(Clone, Copy, Debug, PartialEq, Eq, Structural)]
pub enum OutputFormat {
    Line,
    Csv,
    Json,
}

/// The bytes of the format name `line`.
pub open spec fn name_line() -> Seq<u8> {
    seq![108u8, 105u8, 110u8, 101u8]
}

/// The bytes of the format name `csv`.
pub open spec fn name_csv() -> Seq<u8> {
    seq![99u8, 115u8, 118u8]
}

/// The bytes of the format name `json`.
pub open spec fn name_json() -> Seq<u8> {
    seq![106u8, 115u8, 111u8, 110u8]
}

/// The format a request named, and whether the name was recognized. `line`,
/// `csv` and `json` are recognized; any other name falls back to line output.
pub open spec fn spec_parse_format(name: Seq<u8>) -> (OutputFormat, bool) {
    if name == name_line() {
        (OutputFormat::Line, true)
    } else if name == name_csv() {
        (OutputFormat::Csv, true)
    } else if name == name_json() {
        (OutputFormat::Json, true)
    } else {
        (OutputFormat::Line, false)
    }
}

/// Recognizes a format name. An unrecognized name is not an error: the
/// result is line format, marked unrecognized so the caller can warn.
pub fn parse_format(name: &Vec<u8>) -> (r: (OutputFormat, bool))
    ensures
        r == spec_parse_format(name@),
{
    proof {
        assert(name_line().len() == 4 && name_line()[0] == 108 && name_line()[1] == 105
            && name_line()[2] == 110 && name_line()[3] == 101);
        assert(name_csv().len() == 3 && name_csv()[0] == 99 && name_csv()[1] == 115
            && name_csv()[2] == 118);
        assert(name_json().len() == 4 && name_json()[0] == 106 && name_json()[1] == 115
            && name_json()[2] == 111 && name_json()[3] == 110);
    }
    if name.len() == 4 && name[0] == 108 && name[1] == 105 && name[2] == 110 && name[3] == 101 {
        proof {
            assert(name@ =~= name_line());
        }
        (OutputFormat::Line, true)
    } else if name.len() == 3 && name[0] == 99 && name[1] == 115 && name[2] == 118 {
        proof {
            assert(name@ =~= name_csv());
        }
        (OutputFormat::Csv, true)
    } else if name.len() == 4 && name[0] == 106 && name[1] == 115 && name[2] == 111 && name[3]
        == 110 {
        proof {
            assert(name@ =~= name_json());
        }
        (OutputFormat::Json, true)
    } else {
        (OutputFormat::Line, false)
    }
}

/// Accepts a repetition count up to `MAX_COUNT`; a larger one is a
/// configuration error, reported before any generation is attempted.
pub fn check_count(count: u32) -> (r: Result<(), GenError>)
    ensures
        r is Ok <==> count <= MAX_COUNT,
        r is Err ==> r == Err::<(), GenError>(GenError::ConfigurationError),
{
    if count > MAX_COUNT {
        Err(GenError::ConfigurationError)
    } else {
        Ok(())
    }
}

/// The warning a caller prints when a request names an identifier length:
/// the length option is surface-only and is not applied to generation.
pub fn warning_length_unsupported() -> (r: &'static str)
    ensures
        r@ == "Warning: Custom length is not supported and was ignored"@,
{
    "Warning: Custom length is not supported and was ignored"
}

/// The warning a caller prints when a request names an unrecognized format
/// and the output falls back to line format.
pub fn warning_unknown_format() -> (r: &'static str)
    ensures
        r@ == "Warning: unrecognized format, falling back to line output"@,
{
    "Warning: unrecognized format, falling back to line output"
}

/// The first `i` identifiers, each followed by a newline.
pub open spec fn lines_upto(ids: Seq<Seq<u8>>, i: int) -> Seq<u8>
    decreases i,
{
    if i <= 0 {
        Seq::empty()
    } else {
        lines_upto(ids, i - 1) + ids[i - 1] + seq![10u8]
    }
}

/// The first `i` identifiers, joined by commas.
pub open spec fn csv_upto(ids: Seq<Seq<u8>>, i: int) -> Seq<u8>
    decreases i,
{
    if i <= 0 {
        Seq::empty()
    } else if i == 1 {
        ids[0]
    } else {
        csv_upto(ids, i - 1) + seq![44u8] + ids[i - 1]
    }
}

/// The first `i` identifiers, each in double quotes, joined by commas.
pub open spec fn json_items_upto(ids: Seq<Seq<u8>>, i: int) -> Seq<u8>
    decreases i,
{
    if i <= 0 {
        Seq::empty()
    } else if i == 1 {
        seq![34u8] + ids[0] + seq![34u8]
    } else {
        json_items_upto(ids, i - 1) + seq![44u8, 34u8] + ids[i - 1] + seq![34u8]
    }
}

/// The opening bytes of the JSON rendering: `{"ids":[`.
pub open spec fn json_head() -> Seq<u8> {
    seq![123u8, 34u8, 105u8, 100u8, 115u8, 34u8, 58u8, 91u8]
}

/// The closing bytes of the JSON rendering: `]}` and a newline.
pub open spec fn json_tail() -> Seq<u8> {
    seq![93u8, 125u8, 10u8]
}

/// The rendering of an identifier list. An empty list renders as empty
/// output in every format. Otherwise `Line` gives one newline-terminated
/// line per identifier; `Csv` one comma-joined, newline-terminated line;
/// `Json` the object `{"ids":[...]}` with each identifier double-quoted,
/// followed by a newline. The JSON quoting does not escape: it assumes
/// identifier-shaped elements (lowercase letters and digits), which hold
/// no quote, backslash or control byte.
pub open spec fn spec_render(ids: Seq<Seq<u8>>, format: OutputFormat) -> Seq<u8> {
    if ids.len() == 0 {
        Seq::empty()
    } else {
        match format {
            OutputFormat::Line => lines_upto(ids, ids.len() as int),
            OutputFormat::Csv => csv_upto(ids, ids.len() as int) + seq![10u8],
            OutputFormat::Json => json_head() + json_items_upto(ids, ids.len() as int)
                + json_tail(),
        }
    }
}

/// Renders the identifier list in the given format, or renders nothing in
/// quiet mode.
pub fn format_output(ids: &Vec<Vec<u8>>, format: OutputFormat, quiet: bool) -> (r: Vec<u8>)
    ensures
        quiet ==> r@ == Seq::<u8>::empty(),
        !quiet ==> r@ == spec_render(ids@.map_values(|v: Vec<u8>| v@), format),
{
    let mut out: Vec<u8> = Vec::new();
    if quiet {
        return out;
    }
    let ghost gids = ids@.map_values(|v: Vec<u8>| v@);
    if ids.len() == 0 {
        return out;
    }
    match format {
        OutputFormat::Line => {
            let mut i: usize = 0;
            while i < ids.len()
                invariant
                    i <= ids@.len(),
                    gids == ids@.map_values(|v: Vec<u8>| v@),
                    out@ == lines_upto(gids, i as int),
                decreases ids@.len() - i,
            {
                push_all(&mut out, &ids[i]);
                out.push(10);
                proof {
                    assert(gids[i as int] == ids@[i as int]@);
                    assert(out@ =~= lines_upto(gids, i as int + 1));
                }
                i = i + 1;
            }
        },
        OutputFormat::Csv => {
            push_all(&mut out, &ids[0]);
            proof {
                assert(gids[0] == ids@[0]@);
                assert(out@ =~= csv_upto(gids, 1));
            }
            let mut i: usize = 1;
            while i < ids.len()
                invariant
                    1 <= i <= ids@.len(),
                    gids == ids@.map_values(|v: Vec<u8>| v@),
                    out@ == csv_upto(gids, i as int),
                decreases ids@.len() - i,
            {
                out.push(44);
                push_all(&mut out, &ids[i]);
                proof {
                    assert(gids[i as int] == ids@[i as int]@);
                    assert(out@ =~= csv_upto(gids, i as int + 1));
                }
                i = i + 1;
            }
            out.push(10);
            proof {
                assert(out@ =~= csv_upto(gids, gids.len() as int) + seq![10u8]);
            }
        },
        OutputFormat::Json => {
            out.push(123);
            out.push(34);
            out.push(105);
            out.push(100);
            out.push(115);
            out.push(34);
            out.push(58);
            out.push(91);
            proof {
                assert(out@ =~= json_head());
            }
            out.push(34);
            push_all(&mut out, &ids[0]);
            out.push(34);
            proof {
                assert(gids[0] == ids@[0]@);
                assert(out@ =~= json_head() + json_items_upto(gids, 1));
            }
            let mut i: usize = 1;
            while i < ids.len()
                invariant
                    1 <= i <= ids@.len(),
                    gids == ids@.map_values(|v: Vec<u8>| v@),
                    out@ == json_head() + json_items_upto(gids, i as int),
                decreases ids@.len() - i,
            {
                out.push(44);
                out.push(34);
                push_all(&mut out, &ids[i]);
                out.push(34);
                proof {
                    assert(gids[i as int] == ids@[i as int]@);
                    assert(out@ =~= json_head() + json_items_upto(gids, i as int + 1));
                }
                i = i + 1;
            }
            out.push(93);
            out.push(125);
            out.push(10);
            proof {
                assert(out@ =~= json_head() + json_items_upto(gids, gids.len() as int)
                    + json_tail());
            }
        },
    }
    out
}

} // verus!
