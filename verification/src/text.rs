//! Plain-text building blocks for request framing: decimal notation for
//! numbers carried in JSON bodies, parsing of decimal query parameters, and
//! escaping of strings placed inside JSON string literals.

use vstd::prelude::*;
use vstd::string::StringExecFns;
use vstd::string::StrSliceExecFns;

verus! {

/// The decimal digit characters, in value order.
pub open spec fn decimal_digits() -> Seq<char> {
    seq!['0', '1', '2', '3', '4', '5', '6', '7', '8', '9']
}

/// The character for one decimal digit.
pub open spec fn decimal_digit(d: nat) -> char
    recommends
        d < 10,
{
    decimal_digits()[d as int]
}

/// The decimal notation of `n`: most significant digit first, no sign, no
/// leading zero (a single `0` for zero).
pub open spec fn decimal_of(n: nat) -> Seq<char>
    decreases n,
{
    if n < 10 {
        seq![decimal_digit(n)]
    } else {
        decimal_of(n / 10) + seq![decimal_digit(n % 10)]
    }
}

/// Relies on `String::push` of std: appends exactly the one character.
#[verifier::external_body]
fn push_char(out: &mut String, c: char)
    ensures
        final(out)@ == old(out)@ + seq![c],
{
    out.push(c);
}

fn decimal_digit_char(d: u64) -> (c: char)
    requires
        d < 10,
    ensures
        c == decimal_digit(d as nat),
{
    match d {
        0 => '0',
        1 => '1',
        2 => '2',
        3 => '3',
        4 => '4',
        5 => '5',
        6 => '6',
        7 => '7',
        8 => '8',
        _ => '9',
    }
}

/// Appends the decimal notation of `n` to `out`.
pub fn push_decimal(out: &mut String, n: u64)
    ensures
        final(out)@ == old(out)@ + decimal_of(n as nat),
    decreases n,
{
    if n >= 10 {
        push_decimal(out, n / 10);
    }
    let c = decimal_digit_char(n % 10);
    push_char(out, c);
    proof {
        if n < 10 {
            assert(out@ =~= old(out)@ + decimal_of(n as nat));
        } else {
            assert(out@ =~= old(out)@ + decimal_of(n as nat));
        }
    }
}

/// Whether `c` is one of `0` through `9`.
pub open spec fn is_decimal_digit(c: char) -> bool {
    48 <= (c as int) && (c as int) <= 57
}

/// The numeric value of one digit character.
pub open spec fn decimal_digit_value(c: char) -> nat
    recommends
        is_decimal_digit(c),
{
    (c as int - 48) as nat
}

/// Whether every character of `s` is a decimal digit.
pub open spec fn all_decimal_digits(s: Seq<char>) -> bool {
    forall|i: int| 0 <= i < s.len() ==> is_decimal_digit(#[trigger] s[i])
}

/// The numeric value of a string of decimal digits.
pub open spec fn decimal_value(s: Seq<char>) -> nat
    recommends
        all_decimal_digits(s),
    decreases s.len(),
{
    if s.len() == 0 {
        0
    } else {
        decimal_value(s.drop_last()) * 10 + decimal_digit_value(s.last())
    }
}

/// Each digit character is a digit and denotes its own value.
proof fn lemma_decimal_digit_facts(d: nat)
    requires
        d < 10,
    ensures
        is_decimal_digit(decimal_digit(d)),
        decimal_digit_value(decimal_digit(d)) == d,
{
    if d == 0 {
        assert(decimal_digit(d) == '0');
    } else if d == 1 {
        assert(decimal_digit(d) == '1');
    } else if d == 2 {
        assert(decimal_digit(d) == '2');
    } else if d == 3 {
        assert(decimal_digit(d) == '3');
    } else if d == 4 {
        assert(decimal_digit(d) == '4');
    } else if d == 5 {
        assert(decimal_digit(d) == '5');
    } else if d == 6 {
        assert(decimal_digit(d) == '6');
    } else if d == 7 {
        assert(decimal_digit(d) == '7');
    } else if d == 8 {
        assert(decimal_digit(d) == '8');
    } else {
        assert(decimal_digit(d) == '9');
    }
}

/// The decimal notation of a number denotes that number: it is all digits,
/// and reading them back gives the number again. So a count written into a
/// request body stands for exactly that count.
pub proof fn lemma_decimal_round_trip(n: nat)
    ensures
        all_decimal_digits(decimal_of(n)),
        decimal_value(decimal_of(n)) == n,
    decreases n,
{
    lemma_decimal_digit_facts(n % 10);
    if n < 10 {
        assert(decimal_of(n).drop_last() =~= Seq::<char>::empty());
        assert(decimal_of(n).last() == decimal_digit(n));
        assert(decimal_value(decimal_of(n)) == decimal_value(Seq::<char>::empty()) * 10
            + decimal_digit_value(decimal_digit(n)));
    } else {
        lemma_decimal_round_trip(n / 10);
        assert(decimal_of(n).drop_last() =~= decimal_of(n / 10));
        assert(decimal_of(n).last() == decimal_digit(n % 10));
        assert(decimal_value(decimal_of(n)) == decimal_value(decimal_of(n / 10)) * 10
            + decimal_digit_value(decimal_digit(n % 10)));
        assert(decimal_value(decimal_of(n)) == (n / 10) * 10 + n % 10);
        assert forall|i: int| 0 <= i < decimal_of(n).len() implies is_decimal_digit(
            #[trigger] decimal_of(n)[i],
        ) by {
            if i < decimal_of(n / 10).len() {
                assert(decimal_of(n)[i] == decimal_of(n / 10)[i]);
            }
        }
    }
}

/// A longer digit string never has a smaller value: the value of a prefix is
/// a lower bound for the value of the whole.
proof fn lemma_decimal_value_prefix(s: Seq<char>, i: int, j: int)
    requires
        0 <= i <= j <= s.len(),
    ensures
        decimal_value(s.subrange(0, i)) <= decimal_value(s.subrange(0, j)),
    decreases j - i,
{
    if i < j {
        lemma_decimal_value_prefix(s, i, j - 1);
        assert(s.subrange(0, j).drop_last() =~= s.subrange(0, j - 1));
        assert(decimal_value(s.subrange(0, j)) == decimal_value(s.subrange(0, j - 1)) * 10
            + decimal_digit_value(s.subrange(0, j).last()));
        assert(decimal_value(s.subrange(0, j - 1)) <= decimal_value(s.subrange(0, j - 1)) * 10);
    } else {
        assert(s.subrange(0, i) =~= s.subrange(0, j));
    }
}

/// Parses a decimal number. Returns `Some` exactly when the string is
/// non-empty, holds digits only, and its value fits in a `u64`; the value
/// returned is the numeric value of the digits.
pub fn parse_decimal(s: &str) -> (r: Option<u64>)
    ensures
        r is Some <==> (s@.len() > 0 && all_decimal_digits(s@) && decimal_value(s@) <= u64::MAX),
        r matches Some(n) ==> n == decimal_value(s@),
{
    let len = s.unicode_len();
    if len == 0 {
        return None;
    }
    let mut value: u64 = 0;
    let mut i: usize = 0;
    while i < len
        invariant
            0 < len == s@.len(),
            0 <= i <= len,
            all_decimal_digits(s@.subrange(0, i as int)),
            value == decimal_value(s@.subrange(0, i as int)),
        decreases len - i,
    {
        let c = s.get_char(i);
        let u = c as u32;
        if u < 48 || u > 57 {
            proof {
                assert(!is_decimal_digit(s@[i as int]));
            }
            return None;
        }
        let d = (u - 48) as u64;
        proof {
            assert(s@.subrange(0, i as int + 1).drop_last() =~= s@.subrange(0, i as int));
            assert(s@.subrange(0, i as int + 1).last() == s@[i as int]);
            assert(decimal_value(s@.subrange(0, i as int + 1)) == value * 10 + d);
        }
        let shifted = match value.checked_mul(10) {
            Some(v) => v,
            None => {
                proof {
                    lemma_decimal_value_prefix(s@, i as int + 1, len as int);
                    assert(s@.subrange(0, len as int) =~= s@);
                    assert(decimal_value(s@) > u64::MAX);
                }
                return None;
            },
        };
        let next = match shifted.checked_add(d) {
            Some(v) => v,
            None => {
                proof {
                    lemma_decimal_value_prefix(s@, i as int + 1, len as int);
                    assert(s@.subrange(0, len as int) =~= s@);
                    assert(decimal_value(s@) > u64::MAX);
                }
                return None;
            },
        };
        value = next;
        i = i + 1;
    }
    proof {
        assert(s@.subrange(0, len as int) =~= s@);
    }
    Some(value)
}

/// The hexadecimal digit characters, in value order.
pub open spec fn hex_digits() -> Seq<char> {
    seq!['0', '1', '2', '3', '4', '5', '6', '7', '8', '9', 'a', 'b', 'c', 'd', 'e', 'f']
}

/// The character for one hexadecimal digit.
pub open spec fn hex_digit(d: nat) -> char
    recommends
        d < 16,
{
    hex_digits()[d as int]
}

fn hex_digit_char(d: u32) -> (c: char)
    requires
        d < 16,
    ensures
        c == hex_digit(d as nat),
{
    match d {
        0 => '0',
        1 => '1',
        2 => '2',
        3 => '3',
        4 => '4',
        5 => '5',
        6 => '6',
        7 => '7',
        8 => '8',
        9 => '9',
        10 => 'a',
        11 => 'b',
        12 => 'c',
        13 => 'd',
        14 => 'e',
        _ => 'f',
    }
}

/// How one character appears inside a JSON string literal: quote and
/// backslash take a backslash escape, control characters a `\u00XX` escape,
/// and every other character stands as itself.
pub open spec fn json_escaped_char(c: char) -> Seq<char> {
    if c == '"' {
        seq!['\\', '"']
    } else if c == '\\' {
        seq!['\\', '\\']
    } else if (c as int) < 32 {
        seq!['\\', 'u', '0', '0', hex_digit((c as int / 16) as nat), hex_digit((c as int % 16) as nat)]
    } else {
        seq![c]
    }
}

/// How a whole string appears inside a JSON string literal.
pub open spec fn json_escaped(s: Seq<char>) -> Seq<char>
    decreases s.len(),
{
    if s.len() == 0 {
        Seq::empty()
    } else {
        json_escaped(s.drop_last()) + json_escaped_char(s.last())
    }
}

/// Appends `s` to `out` as `s` appears inside a JSON string literal.
pub fn append_json_escaped(out: &mut String, s: &str)
    ensures
        final(out)@ == old(out)@ + json_escaped(s@),
{
    let len = s.unicode_len();
    let mut i: usize = 0;
    while i < len
        invariant
            0 <= i <= len,
            len == s@.len(),
            out@ == old(out)@ + json_escaped(s@.subrange(0, i as int)),
        decreases len - i,
    {
        let c = s.get_char(i);
        if c == '"' {
            out.append("\\\"");
            proof {
                reveal_strlit("\\\"");
                assert("\\\""@ =~= seq!['\\', '"']);
            }
        } else if c == '\\' {
            out.append("\\\\");
            proof {
                reveal_strlit("\\\\");
                assert("\\\\"@ =~= seq!['\\', '\\']);
            }
        } else {
            let u = c as u32;
            if u < 32 {
                out.append("\\u00");
                let hi = hex_digit_char(u / 16);
                push_char(out, hi);
                let lo = hex_digit_char(u % 16);
                push_char(out, lo);
                proof {
                    reveal_strlit("\\u00");
                    assert("\\u00"@ =~= seq!['\\', 'u', '0', '0']);
                }
            } else {
                push_char(out, c);
            }
        }
        proof {
            assert(s@.subrange(0, i as int + 1).drop_last() =~= s@.subrange(0, i as int));
            assert(s@.subrange(0, i as int + 1).last() == s@[i as int]);
            assert(out@ =~= old(out)@ + json_escaped(s@.subrange(0, i as int + 1)));
        }
        i = i + 1;
    }
    proof {
        assert(s@.subrange(0, len as int) =~= s@);
    }
}

} // verus!
