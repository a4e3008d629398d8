use vstd::prelude::*;
use vstd::string::*;

verus! {

// ---------------------------------------------------------------------------
// Decimal rendering
// ---------------------------------------------------------------------------
/// The character for one decimal digit.
pub open spec fn digit_char(d: int) -> char {
    (('0' as int) + d) as char
}

/// The decimal rendering of a natural number, most significant digit first.
pub open spec fn spec_decimal(n: nat) -> Seq<char>
    decreases n,
{
    if n < 10 {
        seq![digit_char(n as int)]
    } else {
        spec_decimal(n / 10) + seq![digit_char((n % 10) as int)]
    }
}

fn append_digit(out: &mut String, d: u8)
    requires
        d < 10,
    ensures
        final(out)@ == old(out)@ + seq![digit_char(d as int)],
{
    match d {
        0 => {
            proof { reveal_strlit("0"); }
            out.append("0");
        },
        1 => {
            proof { reveal_strlit("1"); }
            out.append("1");
        },
        2 => {
            proof { reveal_strlit("2"); }
            out.append("2");
        },
        3 => {
            proof { reveal_strlit("3"); }
            out.append("3");
        },
        4 => {
            proof { reveal_strlit("4"); }
            out.append("4");
        },
        5 => {
            proof { reveal_strlit("5"); }
            out.append("5");
        },
        6 => {
            proof { reveal_strlit("6"); }
            out.append("6");
        },
        7 => {
            proof { reveal_strlit("7"); }
            out.append("7");
        },
        8 => {
            proof { reveal_strlit("8"); }
            out.append("8");
        },
        _ => {
            proof { reveal_strlit("9"); }
            out.append("9");
        },
    }
    proof {
        assert(final(out)@ =~= old(out)@ + seq![digit_char(d as int)]);
    }
}

fn append_decimal(out: &mut String, n: u128)
    ensures
        final(out)@ == old(out)@ + spec_decimal(n as nat),
    decreases n,
{
    if n >= 10 {
        append_decimal(out, n / 10);
    }
    append_digit(out, (n % 10) as u8);
    proof {
        assert(final(out)@ =~= old(out)@ + spec_decimal(n as nat));
    }
}

/// Renders a number in decimal, as the `Display` of the unsigned integer
/// types does.
pub fn decimal_string(n: u128) -> (r: String)
    ensures
        r@ == spec_decimal(n as nat),
{
    let mut out = String::new();
    append_decimal(&mut out, n);
    proof {
        assert(out@ =~= spec_decimal(n as nat));
    }
    out
}

// ---------------------------------------------------------------------------
// JSON string escaping
// ---------------------------------------------------------------------------
/// The character for one hexadecimal digit, lower case.
pub open spec fn hex_digit_char(d: int) -> char {
    if d < 10 {
        (('0' as int) + d) as char
    } else {
        (('a' as int) + d - 10) as char
    }
}

/// How one character appears inside a JSON string literal: quote and
/// backslash are escaped, control characters take the `\u00XX` form, and
/// every other character stands for itself.
pub open spec fn esc_char(c: char) -> Seq<char> {
    if c == '"' {
        "\\\""@
    } else if c == '\\' {
        "\\\\"@
    } else if (c as int) < 0x20 {
        "\\u00"@ + seq![hex_digit_char(c as int / 16), hex_digit_char(c as int % 16)]
    } else {
        seq![c]
    }
}

/// The body of a JSON string literal holding the characters of `s`.
pub open spec fn escape_json(s: Seq<char>) -> Seq<char>
    decreases s.len(),
{
    if s.len() == 0 {
        Seq::empty()
    } else {
        escape_json(s.drop_last()) + esc_char(s.last())
    }
}

fn append_hex_digit(out: &mut String, d: u8)
    requires
        d < 16,
    ensures
        final(out)@ == old(out)@ + seq![hex_digit_char(d as int)],
{
    if d < 10 {
        append_digit(out, d);
    } else {
        match d {
            10 => {
                proof { reveal_strlit("a"); }
                out.append("a");
            },
            11 => {
                proof { reveal_strlit("b"); }
                out.append("b");
            },
            12 => {
                proof { reveal_strlit("c"); }
                out.append("c");
            },
            13 => {
                proof { reveal_strlit("d"); }
                out.append("d");
            },
            14 => {
                proof { reveal_strlit("e"); }
                out.append("e");
            },
            _ => {
                proof { reveal_strlit("f"); }
                out.append("f");
            },
        }
        proof {
            assert(final(out)@ =~= old(out)@ + seq![hex_digit_char(d as int)]);
        }
    }
}

/// Appends the escaped form of `s` to `out`.
pub fn append_escaped(out: &mut String, s: &str)
    ensures
        final(out)@ == old(out)@ + escape_json(s@),
{
    let n: usize = s.unicode_len();
    let mut i: usize = 0;
    while i < n
        invariant
            i <= n,
            n == s@.len(),
            out@ == old(out)@ + escape_json(s@.take(i as int)),
        decreases n - i,
    {
        let ghost prefix = out@;
        let c = s.get_char(i);
        let cu = c as u32;
        if cu == 0x22 {
            proof { reveal_strlit("\\\""); }
            out.append("\\\"");
        } else if cu == 0x5c {
            proof { reveal_strlit("\\\\"); }
            out.append("\\\\");
        } else if cu < 0x20 {
            out.append("\\u00");
            append_hex_digit(out, (cu / 16) as u8);
            append_hex_digit(out, (cu % 16) as u8);
            proof {
                assert(out@ =~= prefix + esc_char(c));
            }
        } else {
            let piece = s.substring_char(i, i + 1);
            proof {
                assert(piece@ =~= seq![c]);
            }
            out.append(piece);
        }
        proof {
            assert(s@.take(i + 1).drop_last() =~= s@.take(i as int));
            assert(s@.take(i + 1).last() == c);
            assert(out@ =~= old(out)@ + escape_json(s@.take(i + 1)));
        }
        i += 1;
    }
    proof {
        assert(s@.take(n as int) =~= s@);
    }
}

// ---------------------------------------------------------------------------
// Base64
// ---------------------------------------------------------------------------
/// The character the standard base64 alphabet assigns to a 6-bit group.
pub open spec fn b64_char(i: int) -> char {
    if i < 26 {
        (('A' as int) + i) as char
    } else if i < 52 {
        (('a' as int) + i - 26) as char
    } else if i < 62 {
        (('0' as int) + i - 52) as char
    } else if i == 62 {
        '+'
    } else {
        '/'
    }
}

/// The base64 rendering of a byte sequence: standard alphabet, padded.
pub open spec fn spec_base64(bytes: Seq<u8>) -> Seq<char>
    decreases bytes.len(),
{
    if bytes.len() == 0 {
        Seq::empty()
    } else if bytes.len() == 1 {
        let b0 = bytes[0] as int;
        seq![b64_char(b0 / 4), b64_char((b0 % 4) * 16), '=', '=']
    } else if bytes.len() == 2 {
        let b0 = bytes[0] as int;
        let b1 = bytes[1] as int;
        seq![b64_char(b0 / 4), b64_char((b0 % 4) * 16 + b1 / 16), b64_char((b1 % 16) * 4), '=']
    } else {
        let b0 = bytes[0] as int;
        let b1 = bytes[1] as int;
        let b2 = bytes[2] as int;
        seq![
            b64_char(b0 / 4),
            b64_char((b0 % 4) * 16 + b1 / 16),
            b64_char((b1 % 16) * 4 + b2 / 64),
            b64_char(b2 % 64),
        ] + spec_base64(bytes.skip(3))
    }
}

/// Relies on char::to_string: a string holding exactly the one character.
#[verifier::external_body]
pub fn char_string(c: char) -> (r: String)
    ensures
        r@ == seq![c],
{
    c.to_string()
}

/// Relies on base64::encode: the standard alphabet with padding, three bytes
/// to four characters.
#[verifier::external_body]
pub fn base64_string(bytes: &Vec<u8>) -> (r: String)
    ensures
        r@ == spec_base64(bytes@),
{
    base64::encode(bytes)
}

} // verus!
