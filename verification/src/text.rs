//! Verified text building blocks: decimal rendering of integers and JSON
//! string escaping, with exact character-level specifications.

use vstd::prelude::*;

verus! {

/// Character-for-character string comparison.
pub(crate) fn str_eq(a: &str, b: &str) -> (r: bool)
    ensures
        r == (a@ == b@),
{
    let an = a.unicode_len();
    let bn = b.unicode_len();
    if an != bn {
        proof {
            assert(a@ != b@) by {
                assert(a@.len() != b@.len());
            }
        }
        return false;
    }
    let mut i: usize = 0;
    while i < an
        invariant
            i <= an,
            an == a@.len(),
            an == b@.len(),
            forall|j: int| 0 <= j < i ==> a@[j] == b@[j],
        decreases an - i,
    {
        if a.get_char(i) != b.get_char(i) {
            return false;
        }
        i = i + 1;
    }
    proof {
        assert(a@ =~= b@);
    }
    true
}

/// The decimal digit character for `n` (0 through 9).
pub open spec fn digit_char(n: int) -> char {
    if n == 0 {
        '0'
    } else if n == 1 {
        '1'
    } else if n == 2 {
        '2'
    } else if n == 3 {
        '3'
    } else if n == 4 {
        '4'
    } else if n == 5 {
        '5'
    } else if n == 6 {
        '6'
    } else if n == 7 {
        '7'
    } else if n == 8 {
        '8'
    } else {
        '9'
    }
}

/// The lower-case hexadecimal digit character for `n` (0 through 15).
pub open spec fn hex_digit_char(n: int) -> char {
    if n < 10 {
        digit_char(n)
    } else if n == 10 {
        'a'
    } else if n == 11 {
        'b'
    } else if n == 12 {
        'c'
    } else if n == 13 {
        'd'
    } else if n == 14 {
        'e'
    } else {
        'f'
    }
}

/// The usual decimal rendering of `n`, without leading zeros (`0` itself
/// renders as "0").
pub open spec fn dec_of_nat(n: nat) -> Seq<char>
    decreases n,
{
    if n < 10 {
        seq![digit_char(n as int)]
    } else {
        dec_of_nat(n / 10) + seq![digit_char((n % 10) as int)]
    }
}

/// The decimal rendering of a possibly negative integer.
pub open spec fn int_label(n: int) -> Seq<char> {
    if n < 0 {
        seq!['-'] + dec_of_nat((-n) as nat)
    } else {
        dec_of_nat(n as nat)
    }
}

/// The characters of the digits in `d`, read from the last to the first:
/// `d` stores a number least-significant digit first.
pub open spec fn rev_digits(d: Seq<u8>) -> Seq<char>
    decreases d.len(),
{
    if d.len() == 0 {
        Seq::empty()
    } else {
        seq![digit_char(d.last() as int)] + rev_digits(d.drop_last())
    }
}

proof fn lemma_rev_digits_index(d: Seq<u8>)
    ensures
        rev_digits(d).len() == d.len(),
        forall|i: int|
            0 <= i < d.len() ==> rev_digits(d)[i] == digit_char(d[d.len() - 1 - i] as int),
    decreases d.len(),
{
    if d.len() > 0 {
        lemma_rev_digits_index(d.drop_last());
        assert forall|i: int| 0 <= i < d.len() implies rev_digits(d)[i] == digit_char(
            d[d.len() - 1 - i] as int,
        ) by {
            if i > 0 {
                assert(rev_digits(d)[i] == rev_digits(d.drop_last())[i - 1]);
                assert(d.drop_last()[d.len() - 1 - i] == d[d.len() - 1 - i]);
            }
        }
    }
}

/// The one-character string for a decimal digit.
fn digit_str(d: u8) -> (r: &'static str)
    requires
        d < 10,
    ensures
        r@ == seq![digit_char(d as int)],
{
    let r: &'static str = match d {
        0 => "0",
        1 => "1",
        2 => "2",
        3 => "3",
        4 => "4",
        5 => "5",
        6 => "6",
        7 => "7",
        8 => "8",
        _ => "9",
    };
    proof {
        reveal_strlit("0");
        reveal_strlit("1");
        reveal_strlit("2");
        reveal_strlit("3");
        reveal_strlit("4");
        reveal_strlit("5");
        reveal_strlit("6");
        reveal_strlit("7");
        reveal_strlit("8");
        reveal_strlit("9");
        assert(r@ =~= seq![digit_char(d as int)]);
    }
    r
}

/// The one-character string for a lower-case hexadecimal digit.
fn hex_digit_str(d: u8) -> (r: &'static str)
    requires
        d < 16,
    ensures
        r@ == seq![hex_digit_char(d as int)],
{
    if d < 10 {
        digit_str(d)
    } else {
        let r: &'static str = match d {
            10 => "a",
            11 => "b",
            12 => "c",
            13 => "d",
            14 => "e",
            _ => "f",
        };
        proof {
            reveal_strlit("a");
            reveal_strlit("b");
            reveal_strlit("c");
            reveal_strlit("d");
            reveal_strlit("e");
            reveal_strlit("f");
            assert(r@ =~= seq![hex_digit_char(d as int)]);
        }
        r
    }
}

/// Renders `m` in decimal.
pub fn u64_to_string(m: u64) -> (r: String)
    ensures
        r@ == dec_of_nat(m as nat),
{
    if m == 0 {
        let r = String::from_str("0");
        proof {
            reveal_strlit("0");
            assert(r@ =~= dec_of_nat(0));
        }
        return r;
    }
    let mut digits: Vec<u8> = Vec::new();
    let mut cur: u64 = m;
    while cur > 0
        invariant
            forall|j: int| 0 <= j < digits@.len() ==> digits@[j] < 10,
            cur > 0 ==> dec_of_nat(m as nat) == dec_of_nat(cur as nat) + rev_digits(digits@),
            cur == 0 ==> dec_of_nat(m as nat) == rev_digits(digits@),
        decreases cur,
    {
        let ghost prev_digits = digits@;
        let ghost prev_cur = cur;
        let d: u8 = (cur % 10) as u8;
        digits.push(d);
        cur = cur / 10;
        proof {
            assert(digits@.drop_last() =~= prev_digits);
            assert(rev_digits(digits@) == seq![digit_char(d as int)] + rev_digits(prev_digits));
            if cur > 0 {
                assert(prev_cur >= 10);
                assert(dec_of_nat(prev_cur as nat) == dec_of_nat((prev_cur / 10) as nat) + seq![
                    digit_char((prev_cur % 10) as int),
                ]);
                assert(dec_of_nat(cur as nat) + rev_digits(digits@) =~= (dec_of_nat(cur as nat)
                    + seq![digit_char(d as int)]) + rev_digits(prev_digits));
            } else {
                assert(prev_cur < 10);
                assert(dec_of_nat(prev_cur as nat) == seq![digit_char(prev_cur as int)]);
                assert(prev_cur % 10 == prev_cur);
                assert(rev_digits(digits@) =~= dec_of_nat(prev_cur as nat) + rev_digits(
                    prev_digits,
                ));
            }
        }
    }
    let mut r = String::new();
    let n = digits.len();
    let mut j: usize = n;
    proof {
        lemma_rev_digits_index(digits@);
    }
    while j > 0
        invariant
            j <= n,
            n == digits@.len(),
            forall|t: int| 0 <= t < digits@.len() ==> digits@[t] < 10,
            rev_digits(digits@).len() == digits@.len(),
            forall|i: int|
                0 <= i < digits@.len() ==> rev_digits(digits@)[i] == digit_char(
                    digits@[digits@.len() - 1 - i] as int,
                ),
            r@ == rev_digits(digits@).take(n - j),
            dec_of_nat(m as nat) == rev_digits(digits@),
        decreases j,
    {
        let ghost prev = r@;
        r.append(digit_str(digits[j - 1]));
        proof {
            assert(r@ =~= rev_digits(digits@).take(n - (j - 1)));
        }
        j = j - 1;
    }
    proof {
        assert(rev_digits(digits@).take(n as int) =~= rev_digits(digits@));
    }
    r
}

/// Renders `n` in decimal, with a leading minus sign when negative.
pub fn i64_to_string(n: i64) -> (r: String)
    ensures
        r@ == int_label(n as int),
{
    if n >= 0 {
        u64_to_string(n as u64)
    } else {
        let mag: u64 = (-(n as i128)) as u64;
        let mut r = String::from_str("-");
        let digits = u64_to_string(mag);
        r.append(digits.as_str());
        proof {
            reveal_strlit("-");
            assert(r@ =~= int_label(n as int));
        }
        r
    }
}

/// How one character is written inside a JSON string literal: quote,
/// backslash and the named control characters get two-character escapes,
/// any other control character a `\u00..` escape, everything else stands
/// as itself.
pub open spec fn json_escape_char(c: char) -> Seq<char> {
    if c == '"' {
        seq!['\\', '"']
    } else if c == '\\' {
        seq!['\\', '\\']
    } else if c == '\n' {
        seq!['\\', 'n']
    } else if c == '\r' {
        seq!['\\', 'r']
    } else if c == '\t' {
        seq!['\\', 't']
    } else if c == '\u{8}' {
        seq!['\\', 'b']
    } else if c == '\u{c}' {
        seq!['\\', 'f']
    } else if (c as u32) < 0x20 {
        seq!['\\', 'u', '0', '0', hex_digit_char((c as u32) as int / 16), hex_digit_char(
            (c as u32) as int % 16,
        )]
    } else {
        seq![c]
    }
}

/// The body of a JSON string literal holding the characters `s`.
pub open spec fn json_escape(s: Seq<char>) -> Seq<char>
    decreases s.len(),
{
    if s.len() == 0 {
        Seq::empty()
    } else {
        json_escape(s.drop_last()) + json_escape_char(s.last())
    }
}

/// Appends the escaped form of `s` to `out`.
pub fn escape_json_into(out: &mut String, s: &str)
    ensures
        final (out)@ == old(out)@ + json_escape(s@),
{
    let n = s.unicode_len();
    let mut i: usize = 0;
    while i < n
        invariant
            i <= n,
            n == s@.len(),
            out@ == old(out)@ + json_escape(s@.take(i as int)),
        decreases n - i,
    {
        let ghost prev = out@;
        let c = s.get_char(i);
        if c == '"' {
            out.append("\\\"");
            proof {
                reveal_strlit("\\\"");
                assert("\\\""@ =~= json_escape_char(c));
            }
        } else if c == '\\' {
            out.append("\\\\");
            proof {
                reveal_strlit("\\\\");
                assert("\\\\"@ =~= json_escape_char(c));
            }
        } else if c == '\n' {
            out.append("\\n");
            proof {
                reveal_strlit("\\n");
                assert("\\n"@ =~= json_escape_char(c));
            }
        } else if c == '\r' {
            out.append("\\r");
            proof {
                reveal_strlit("\\r");
                assert("\\r"@ =~= json_escape_char(c));
            }
        } else if c == '\t' {
            out.append("\\t");
            proof {
                reveal_strlit("\\t");
                assert("\\t"@ =~= json_escape_char(c));
            }
        } else if c == '\u{8}' {
            out.append("\\b");
            proof {
                reveal_strlit("\\b");
                assert("\\b"@ =~= json_escape_char(c));
            }
        } else if (c as u32) < 0x20 {
            let code: u32 = c as u32;
            if c == '\u{c}' {
                out.append("\\f");
                proof {
                    reveal_strlit("\\f");
                    assert("\\f"@ =~= json_escape_char(c));
                }
            } else {
                let ghost mid = out@;
                out.append("\\u00");
                out.append(hex_digit_str((code / 16) as u8));
                out.append(hex_digit_str((code % 16) as u8));
                proof {
                    reveal_strlit("\\u00");
                    assert(out@ =~= mid + json_escape_char(c));
                }
            }
        } else {
            let piece = s.substring_char(i, i + 1);
            out.append(piece);
            proof {
                assert(piece@ =~= seq![s@[i as int]]);
                assert(piece@ =~= json_escape_char(c));
            }
        }
        proof {
            assert(s@.take(i + 1).drop_last() =~= s@.take(i as int));
            assert(s@.take(i + 1).last() == s@[i as int]);
            assert(out@ =~= old(out)@ + json_escape(s@.take(i + 1)));
        }
        i = i + 1;
    }
    proof {
        assert(s@.take(n as int) =~= s@);
    }
}

/// A complete JSON string literal for the characters of `s`: the escaped
/// body between double quotes.
pub open spec fn json_string(s: Seq<char>) -> Seq<char> {
    seq!['"'] + json_escape(s) + seq!['"']
}

/// Appends the JSON string literal for `s` to `out`.
pub fn append_json_string(out: &mut String, s: &str)
    ensures
        final (out)@ == old(out)@ + json_string(s@),
{
    append_quote(out);
    escape_json_into(out, s);
    append_quote(out);
    proof {
        assert(out@ =~= old(out)@ + json_string(s@));
    }
}

/// Appends one double-quote character to `out`.
fn append_quote(out: &mut String)
    ensures
        final (out)@ == old(out)@ + seq!['"'],
{
    out.append("\"");
    proof {
        reveal_strlit("\"");
        assert("\""@ =~= seq!['"']);
        assert(out@ =~= old(out)@ + seq!['"']);
    }
}

} // verus!
