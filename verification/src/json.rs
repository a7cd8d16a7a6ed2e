//! Building blocks for the wire JSON the client emits: string escaping and
//! decimal formatting, each proved against a spec-level model of the text it
//! produces.

use vstd::prelude::*;
use vstd::string::*;

use crate::utils::spec_digit_char;
use crate::utils::digit_str;

verus! {

/// The escape sequence for a control character, keyed by its scalar value.
pub open spec fn spec_control_escape(v: u32) -> Seq<char>
    recommends
        v < 32,
{
    if v == 0 {
        "\\u0000"@
    } else if v == 1 {
        "\\u0001"@
    } else if v == 2 {
        "\\u0002"@
    } else if v == 3 {
        "\\u0003"@
    } else if v == 4 {
        "\\u0004"@
    } else if v == 5 {
        "\\u0005"@
    } else if v == 6 {
        "\\u0006"@
    } else if v == 7 {
        "\\u0007"@
    } else if v == 8 {
        "\\u0008"@
    } else if v == 9 {
        "\\u0009"@
    } else if v == 10 {
        "\\u000a"@
    } else if v == 11 {
        "\\u000b"@
    } else if v == 12 {
        "\\u000c"@
    } else if v == 13 {
        "\\u000d"@
    } else if v == 14 {
        "\\u000e"@
    } else if v == 15 {
        "\\u000f"@
    } else if v == 16 {
        "\\u0010"@
    } else if v == 17 {
        "\\u0011"@
    } else if v == 18 {
        "\\u0012"@
    } else if v == 19 {
        "\\u0013"@
    } else if v == 20 {
        "\\u0014"@
    } else if v == 21 {
        "\\u0015"@
    } else if v == 22 {
        "\\u0016"@
    } else if v == 23 {
        "\\u0017"@
    } else if v == 24 {
        "\\u0018"@
    } else if v == 25 {
        "\\u0019"@
    } else if v == 26 {
        "\\u001a"@
    } else if v == 27 {
        "\\u001b"@
    } else if v == 28 {
        "\\u001c"@
    } else if v == 29 {
        "\\u001d"@
    } else if v == 30 {
        "\\u001e"@
    } else if v == 31 {
        "\\u001f"@
    } else {
        Seq::<char>::empty()
    }
}

/// What one character of a JSON string becomes inside the quotes: quotes and
/// backslashes gain a backslash, control characters become `\u00XX`, and
/// every other character stands as itself.
pub open spec fn spec_escape_char(c: char) -> Seq<char> {
    if c == '"' {
        "\\\""@
    } else if c == '\\' {
        "\\\\"@
    } else if (c as u32) < 32 {
        spec_control_escape(c as u32)
    } else {
        seq![c]
    }
}

/// The body of a JSON string: each character escaped in order.
pub open spec fn spec_escaped(s: Seq<char>) -> Seq<char>
    decreases s.len(),
{
    if s.len() == 0 {
        Seq::<char>::empty()
    } else {
        spec_escaped(s.drop_last()) + spec_escape_char(s.last())
    }
}

/// A complete JSON string literal: the escaped body between two quotes.
pub open spec fn spec_quoted(s: Seq<char>) -> Seq<char> {
    "\""@ + spec_escaped(s) + "\""@
}

/// The escape sequence for one character that needs escaping.
fn escape_str(c: char) -> (r: &'static str)
    requires
        c == '"' || c == '\\' || (c as u32) < 32,
    ensures
        r@ == spec_escape_char(c),
{
    if c == '"' {
        return "\\\"";
    }
    if c == '\\' {
        return "\\\\";
    }
    let v = c as u32;
    match v {
        0 => "\\u0000",
        1 => "\\u0001",
        2 => "\\u0002",
        3 => "\\u0003",
        4 => "\\u0004",
        5 => "\\u0005",
        6 => "\\u0006",
        7 => "\\u0007",
        8 => "\\u0008",
        9 => "\\u0009",
        10 => "\\u000a",
        11 => "\\u000b",
        12 => "\\u000c",
        13 => "\\u000d",
        14 => "\\u000e",
        15 => "\\u000f",
        16 => "\\u0010",
        17 => "\\u0011",
        18 => "\\u0012",
        19 => "\\u0013",
        20 => "\\u0014",
        21 => "\\u0015",
        22 => "\\u0016",
        23 => "\\u0017",
        24 => "\\u0018",
        25 => "\\u0019",
        26 => "\\u001a",
        27 => "\\u001b",
        28 => "\\u001c",
        29 => "\\u001d",
        30 => "\\u001e",
        31 => "\\u001f",
        _ => "\\u0000",
    }
}

/// Writes a string as a JSON string literal: quoted, with quotes, backslashes
/// and control characters escaped and all other characters unchanged.
pub fn json_quote(s: &str) -> (r: String)
    ensures
        r@ == spec_quoted(s@),
{
    let mut out = String::from_str("\"");
    let n = s.unicode_len();
    let mut i: usize = 0;
    while i < n
        invariant
            n == s@.len(),
            i <= n,
            out@ == "\""@ + spec_escaped(s@.subrange(0, i as int)),
        decreases n - i,
    {
        let c = s.get_char(i);
        if c == '"' || c == '\\' || (c as u32) < 32 {
            out.append(escape_str(c));
        } else {
            out.append(s.substring_char(i, i + 1));
            proof {
                assert(s@.subrange(i as int, i as int + 1) =~= seq![s@[i as int]]);
            }
        }
        proof {
            assert(s@.subrange(0, i as int + 1).drop_last() =~= s@.subrange(0, i as int));
            assert(s@.subrange(0, i as int + 1).last() == s@[i as int]);
        }
        i += 1;
    }
    proof {
        assert(s@.subrange(0, n as int) =~= s@);
    }
    out.append("\"");
    out
}

/// The decimal digits of an unsigned value, most significant first.
pub open spec fn spec_u64_dec(n: nat) -> Seq<char>
    decreases n,
{
    if n < 10 {
        seq![spec_digit_char(n as int)]
    } else {
        spec_u64_dec(n / 10) + seq![spec_digit_char((n % 10) as int)]
    }
}

/// Writes an unsigned value in decimal.
pub fn u64_dec(n: u64) -> (r: String)
    ensures
        r@ == spec_u64_dec(n as nat),
    decreases n,
{
    if n < 10 {
        String::from_str(digit_str((n % 10) as usize))
    } else {
        let mut s = u64_dec(n / 10);
        s.append(digit_str((n % 10) as usize));
        s
    }
}

/// The decimal form of a signed value: a minus sign before the digits of its
/// magnitude when it is negative.
pub open spec fn spec_int_dec(n: int) -> Seq<char> {
    if n >= 0 {
        spec_u64_dec(n as nat)
    } else {
        "-"@ + spec_u64_dec((-n) as nat)
    }
}

/// Writes a signed 32-bit value in decimal.
pub fn i32_dec(n: i32) -> (r: String)
    ensures
        r@ == spec_int_dec(n as int),
{
    if n >= 0 {
        u64_dec(n as u64)
    } else {
        let mag = (-(n as i64)) as u64;
        let mut s = String::from_str("-");
        s.append(u64_dec(mag).as_str());
        s
    }
}

/// Writes an unsigned 32-bit value in decimal.
pub fn u32_dec(n: u32) -> (r: String)
    ensures
        r@ == spec_u64_dec(n as nat),
{
    u64_dec(n as u64)
}

/// The JSON spelling of a boolean.
pub open spec fn spec_bool_json(b: bool) -> Seq<char> {
    if b {
        "true"@
    } else {
        "false"@
    }
}

/// Writes a boolean as JSON.
pub fn bool_json(b: bool) -> (r: &'static str)
    ensures
        r@ == spec_bool_json(b),
{
    if b {
        "true"
    } else {
        "false"
    }
}

/// The views of a list of strings, as one sequence of character sequences.
pub open spec fn spec_string_views(items: Seq<String>) -> Seq<Seq<char>> {
    items.map_values(|s: String| s@)
}

/// The comma-separated body of a JSON array of string literals.
pub open spec fn spec_quoted_list_body(items: Seq<Seq<char>>) -> Seq<char>
    decreases items.len(),
{
    if items.len() == 0 {
        Seq::<char>::empty()
    } else if items.len() == 1 {
        spec_quoted(items[0])
    } else {
        spec_quoted_list_body(items.drop_last()) + ","@ + spec_quoted(items.last())
    }
}

/// A JSON array of string literals.
pub open spec fn spec_string_array(items: Seq<Seq<char>>) -> Seq<char> {
    "["@ + spec_quoted_list_body(items) + "]"@
}

/// Writes a list of strings as a JSON array of string literals, in order.
pub fn string_array_json(items: &Vec<String>) -> (r: String)
    ensures
        r@ == spec_string_array(spec_string_views(items@)),
{
    let mut out = String::from_str("[");
    let mut i: usize = 0;
    while i < items.len()
        invariant
            i <= items@.len(),
            out@ == "["@ + spec_quoted_list_body(spec_string_views(items@).subrange(0, i as int)),
        decreases items@.len() - i,
    {
        if i > 0 {
            out.append(",");
        }
        out.append(json_quote(items[i].as_str()).as_str());
        proof {
            let views = spec_string_views(items@);
            assert(views[i as int] == items@[i as int]@);
            assert(views.subrange(0, i as int + 1).drop_last() =~= views.subrange(0, i as int));
            assert(views.subrange(0, i as int + 1).last() == views[i as int]);
            if i == 0 {
                assert(views.subrange(0, 1) =~= seq![views[0]]);
            }
        }
        i += 1;
    }
    proof {
        assert(spec_string_views(items@).subrange(0, items@.len() as int) =~= spec_string_views(
            items@,
        ));
    }
    out.append("]");
    out
}

} // verus!
