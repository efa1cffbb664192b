//! The timestamp codec: decimal epoch strings to (seconds, nanoseconds)
//! instants and back.
//!
//! A wire timestamp is a decimal string of exactly 10 characters (whole
//! seconds since the Unix epoch) or exactly 13 characters (milliseconds since
//! the Unix epoch). Decoding a 13-digit string takes its first 10 digits as
//! seconds and its last 3 digits as milliseconds, scaled to nanoseconds.
//! Encoding emits whole seconds only, so sub-second precision is lost on a
//! round trip through the encoder.

use vstd::arithmetic::div_mod::lemma_fundamental_div_mod;
use vstd::arithmetic::div_mod::lemma_fundamental_div_mod_converse;
use vstd::prelude::*;

use crate::error::TimeError;

verus! {

/// Nanoseconds per millisecond: the scale between the last three digits of a
/// 13-digit timestamp and the nanosecond field of an instant.
pub const NANOS_PER_MILLI: u32 = 1000000;

/// True of the ten decimal digit characters.
pub open spec fn is_digit(c: char) -> bool {
    ||| c == '0'
    ||| c == '1'
    ||| c == '2'
    ||| c == '3'
    ||| c == '4'
    ||| c == '5'
    ||| c == '6'
    ||| c == '7'
    ||| c == '8'
    ||| c == '9'
}

/// The numeric value of a decimal digit character.
pub open spec fn digit_val(c: char) -> int
    recommends
        is_digit(c),
{
    if c == '0' {
        0
    } else if c == '1' {
        1
    } else if c == '2' {
        2
    } else if c == '3' {
        3
    } else if c == '4' {
        4
    } else if c == '5' {
        5
    } else if c == '6' {
        6
    } else if c == '7' {
        7
    } else if c == '8' {
        8
    } else {
        9
    }
}

/// The decimal digit character with the given numeric value.
pub open spec fn digit_char(d: int) -> char
    recommends
        0 <= d < 10,
{
    if d == 0 {
        '0'
    } else if d == 1 {
        '1'
    } else if d == 2 {
        '2'
    } else if d == 3 {
        '3'
    } else if d == 4 {
        '4'
    } else if d == 5 {
        '5'
    } else if d == 6 {
        '6'
    } else if d == 7 {
        '7'
    } else if d == 8 {
        '8'
    } else {
        '9'
    }
}

/// True when every character of `s` is a decimal digit.
pub open spec fn digits_only(s: Seq<char>) -> bool {
    forall|i: int| 0 <= i < s.len() ==> is_digit(#[trigger] s[i])
}

/// The number a digit string denotes, read most significant digit first.
pub open spec fn str_to_nat(s: Seq<char>) -> nat
    recommends
        digits_only(s),
    decreases s.len(),
{
    if s.len() == 0 {
        0
    } else {
        (str_to_nat(s.drop_last()) * 10 + digit_val(s.last())) as nat
    }
}

/// The decimal representation of `n`, without leading zeros (`0` is "0").
pub open spec fn dec_str(n: nat) -> Seq<char>
    decreases n,
{
    if n < 10 {
        seq![digit_char(n as int)]
    } else {
        dec_str(n / 10).push(digit_char((n % 10) as int))
    }
}

/// Ten to the power `n`.
pub open spec fn pow10(n: nat) -> nat
    decreases n,
{
    if n == 0 {
        1
    } else {
        10 * pow10((n - 1) as nat)
    }
}

/// True of the strings the codec accepts: exactly 10 or 13 characters, all
/// decimal digits.
pub open spec fn valid_timestamp(s: Seq<char>) -> bool {
    (s.len() == 10 || s.len() == 13) && digits_only(s)
}

/// The seconds a valid timestamp string denotes: its first 10 digits.
pub open spec fn decode_secs(s: Seq<char>) -> nat
    recommends
        valid_timestamp(s),
{
    if s.len() == 13 {
        str_to_nat(s.subrange(0, 10))
    } else {
        str_to_nat(s)
    }
}

/// The nanoseconds a valid timestamp string denotes: its last 3 digits read
/// as milliseconds and scaled, or 0 for a 10-digit string.
pub open spec fn decode_nanos(s: Seq<char>) -> nat
    recommends
        valid_timestamp(s),
{
    if s.len() == 13 {
        str_to_nat(s.subrange(10, 13)) * 1000000
    } else {
        0
    }
}

proof fn lemma_pow10_pos(n: nat)
    ensures
        pow10(n) >= 1,
    decreases n,
{
    if n > 0 {
        lemma_pow10_pos((n - 1) as nat);
    }
}

proof fn lemma_pow10_monotone(a: nat, b: nat)
    requires
        a <= b,
    ensures
        pow10(a) <= pow10(b),
    decreases b,
{
    if a < b {
        lemma_pow10_monotone(a, (b - 1) as nat);
        lemma_pow10_pos((b - 1) as nat);
    }
}

/// A digit string without a leading zero denotes at least ten to the power of
/// one less than its length.
proof fn lemma_str_to_nat_lower(s: Seq<char>)
    requires
        digits_only(s),
        s.len() >= 1,
        s[0] != '0',
    ensures
        str_to_nat(s) >= pow10((s.len() - 1) as nat),
    decreases s.len(),
{
    if s.len() == 1 {
        assert(is_digit(s[0]));
        assert(digit_val(s[0]) >= 1);
    } else {
        let t = s.drop_last();
        assert(digits_only(t)) by {
            assert(forall|i: int| 0 <= i < t.len() ==> t[i] == #[trigger] s[i]);
        }
        assert(t[0] == s[0]);
        lemma_str_to_nat_lower(t);
        assert(digit_val(s.last()) >= 0);
    }
}

/// Reading back the decimal representation of `n` yields `n`.
pub proof fn lemma_str_to_nat_of_dec_str(n: nat)
    ensures
        digits_only(dec_str(n)),
        dec_str(n).len() >= 1,
        str_to_nat(dec_str(n)) == n,
    decreases n,
{
    if n < 10 {
        assert(dec_str(n) == seq![digit_char(n as int)]);
        assert(is_digit(digit_char(n as int)));
        assert(dec_str(n).drop_last() =~= Seq::<char>::empty());
        assert(str_to_nat(Seq::<char>::empty()) == 0);
        assert(digit_val(digit_char(n as int)) == n);
    } else {
        lemma_str_to_nat_of_dec_str(n / 10);
        let t = dec_str(n / 10);
        let d = digit_char((n % 10) as int);
        assert(dec_str(n) == t.push(d));
        assert(t.push(d).drop_last() =~= t);
        assert(t.push(d).last() == d);
        assert(is_digit(d));
        assert(digit_val(d) == n % 10);
        assert(forall|i: int| 0 <= i < t.push(d).len() ==> is_digit(#[trigger] t.push(d)[i]));
        assert(str_to_nat(t.push(d)) == (n / 10) * 10 + n % 10);
        lemma_fundamental_div_mod(n as int, 10);
    }
}

/// Writing back the number a digit string denotes yields the same string,
/// provided the string has no leading zero (a lone "0" included).
pub proof fn lemma_dec_str_of_str_to_nat(s: Seq<char>)
    requires
        digits_only(s),
        s.len() >= 1,
        s.len() == 1 || s[0] != '0',
    ensures
        dec_str(str_to_nat(s)) == s,
    decreases s.len(),
{
    if s.len() == 1 {
        assert(is_digit(s[0]));
        assert(s.drop_last() =~= Seq::<char>::empty());
        assert(str_to_nat(Seq::<char>::empty()) == 0);
        assert(s.last() == s[0]);
        assert(str_to_nat(s) == digit_val(s[0]));
        assert(digit_val(s[0]) < 10);
        assert(digit_char(digit_val(s[0])) == s[0]);
        assert(dec_str(str_to_nat(s)) =~= s);
    } else {
        let t = s.drop_last();
        let d = digit_val(s.last());
        assert(digits_only(t)) by {
            assert(forall|i: int| 0 <= i < t.len() ==> t[i] == #[trigger] s[i]);
        }
        assert(t[0] == s[0]);
        lemma_str_to_nat_lower(t);
        lemma_pow10_pos((t.len() - 1) as nat);
        let v = str_to_nat(t);
        assert(v >= 1);
        let n = str_to_nat(s);
        assert(is_digit(s.last()));
        assert(0 <= d < 10);
        assert(n == v * 10 + d);
        assert(n >= 10) by (nonlinear_arith)
            requires
                n == v * 10 + d,
                v >= 1,
                d >= 0,
        ;
        lemma_fundamental_div_mod_converse(n as int, 10, v as int, d);
        assert(n / 10 == v && n % 10 == d);
        lemma_dec_str_of_str_to_nat(t);
        assert(dec_str(n) == dec_str(v).push(digit_char(d)));
        assert(digit_char(d) == s.last());
        assert(t.push(s.last()) =~= s);
    }
}

/// Law: decoding a 10-digit timestamp without a leading zero and re-encoding
/// its seconds yields the original string.
pub proof fn lemma_seconds_round_trip(s: Seq<char>)
    requires
        valid_timestamp(s),
        s.len() == 10,
        s[0] != '0',
    ensures
        dec_str(decode_secs(s)) == s,
{
    lemma_dec_str_of_str_to_nat(s);
}

/// Law: decoding a 13-digit timestamp without a leading zero and re-encoding
/// its seconds yields the first 10 digits; the millisecond digits are lost.
pub proof fn lemma_millis_round_trip(s: Seq<char>)
    requires
        valid_timestamp(s),
        s.len() == 13,
        s[0] != '0',
    ensures
        dec_str(decode_secs(s)) == s.subrange(0, 10),
{
    let t = s.subrange(0, 10);
    assert(digits_only(t)) by {
        assert(forall|i: int| 0 <= i < t.len() ==> t[i] == #[trigger] s[i]);
    }
    assert(t[0] == s[0]);
    lemma_dec_str_of_str_to_nat(t);
}

/// The numeric value of a decimal digit character, or `None` for any other
/// character.
fn digit_value(c: char) -> (r: Option<u8>)
    ensures
        r is Some <==> is_digit(c),
        r is Some ==> r.unwrap() == digit_val(c) && r.unwrap() < 10,
{
    match c {
        '0' => Some(0),
        '1' => Some(1),
        '2' => Some(2),
        '3' => Some(3),
        '4' => Some(4),
        '5' => Some(5),
        '6' => Some(6),
        '7' => Some(7),
        '8' => Some(8),
        '9' => Some(9),
        _ => None,
    }
}

/// Reads the digits of `s` in `[from, to)` as a decimal number, or `None` if
/// some character there is not a digit.
fn parse_decimal(s: &str, from: usize, to: usize) -> (r: Option<u64>)
    requires
        from <= to <= s@.len(),
        to - from <= 10,
    ensures
        r is Some <==> digits_only(s@.subrange(from as int, to as int)),
        r is Some ==> r.unwrap() == str_to_nat(s@.subrange(from as int, to as int)),
        r is Some ==> r.unwrap() < pow10((to - from) as nat),
{
    let mut i: usize = from;
    let mut acc: u64 = 0;
    proof {
        assert(s@.subrange(from as int, from as int) =~= Seq::<char>::empty());
    }
    while i < to
        invariant
            from <= i <= to <= s@.len(),
            to - from <= 10,
            digits_only(s@.subrange(from as int, i as int)),
            acc == str_to_nat(s@.subrange(from as int, i as int)),
            acc < pow10((i - from) as nat),
        decreases to - i,
    {
        let c = s.get_char(i);
        let d = match digit_value(c) {
            Some(d) => d,
            None => {
                proof {
                    assert(s@.subrange(from as int, to as int)[i - from] == s@[i as int]);
                }
                return None;
            },
        };
        proof {
            lemma_pow10_monotone((i - from) as nat, 9);
            assert(pow10(9) == 1000000000) by {
                reveal_with_fuel(pow10, 10);
            }
            let pre = s@.subrange(from as int, i as int);
            let ext = s@.subrange(from as int, i + 1 as int);
            assert(ext.drop_last() =~= pre);
            assert(ext.last() == s@[i as int]);
            assert(forall|j: int| 0 <= j < ext.len() ==> is_digit(#[trigger] ext[j]));
        }
        acc = acc * 10 + (d as u64);
        i = i + 1;
    }
    Some(acc)
}

/// Decodes a wire timestamp string into a (seconds, nanoseconds) pair: a
/// 10-digit string is whole seconds; a 13-digit string is seconds followed by
/// three millisecond digits, scaled to nanoseconds. Any other string is
/// rejected as `InvalidTimestamp`.
pub fn js_timestamp_to_rs_timestamp(s: &str) -> (r: Result<(u64, u32), TimeError>)
    ensures
        r is Ok <==> valid_timestamp(s@),
        r is Ok ==> r.unwrap().0 == decode_secs(s@) && r.unwrap().1 == decode_nanos(s@),
        r is Ok ==> r.unwrap().1 < 1000000000,
        r is Err ==> r == Err::<(u64, u32), TimeError>(TimeError::InvalidTimestamp),
{
    let len = s.unicode_len();
    if len == 10 {
        match parse_decimal(s, 0, 10) {
            Some(secs) => {
                proof {
                    assert(s@.subrange(0, 10) =~= s@);
                }
                Ok((secs, 0))
            },
            None => {
                proof {
                    assert(s@.subrange(0, 10) =~= s@);
                }
                Err(TimeError::InvalidTimestamp)
            },
        }
    } else if len == 13 {
        match parse_decimal(s, 0, 10) {
            Some(secs) => {
                match parse_decimal(s, 10, 13) {
                    Some(millis) => {
                        proof {
                            assert(pow10(3) == 1000) by {
                                reveal_with_fuel(pow10, 4);
                            }
                            assert(digits_only(s@)) by {
                                let head = s@.subrange(0, 10);
                                let tail = s@.subrange(10, 13);
                                assert(forall|i: int|
                                    0 <= i < 10 ==> #[trigger] s@[i] == head[i]);
                                assert(forall|i: int|
                                    10 <= i < 13 ==> #[trigger] s@[i] == tail[i - 10]);
                            }
                        }
                        Ok((secs, (millis as u32) * NANOS_PER_MILLI))
                    },
                    None => Err(TimeError::InvalidTimestamp),
                }
            },
            None => Err(TimeError::InvalidTimestamp),
        }
    } else {
        Err(TimeError::InvalidTimestamp)
    }
}

/// The decimal digit character with the given value, as a one-character
/// string slice.
fn digit_string(d: u8) -> (r: &'static str)
    requires
        d < 10,
    ensures
        r@ == seq![digit_char(d as int)],
{
    if d == 0 {
        let r = "0";
        proof {
            reveal_strlit("0");
            assert(r@ =~= seq![digit_char(d as int)]);
        }
        r
    } else if d == 1 {
        let r = "1";
        proof {
            reveal_strlit("1");
            assert(r@ =~= seq![digit_char(d as int)]);
        }
        r
    } else if d == 2 {
        let r = "2";
        proof {
            reveal_strlit("2");
            assert(r@ =~= seq![digit_char(d as int)]);
        }
        r
    } else if d == 3 {
        let r = "3";
        proof {
            reveal_strlit("3");
            assert(r@ =~= seq![digit_char(d as int)]);
        }
        r
    } else if d == 4 {
        let r = "4";
        proof {
            reveal_strlit("4");
            assert(r@ =~= seq![digit_char(d as int)]);
        }
        r
    } else if d == 5 {
        let r = "5";
        proof {
            reveal_strlit("5");
            assert(r@ =~= seq![digit_char(d as int)]);
        }
        r
    } else if d == 6 {
        let r = "6";
        proof {
            reveal_strlit("6");
            assert(r@ =~= seq![digit_char(d as int)]);
        }
        r
    } else if d == 7 {
        let r = "7";
        proof {
            reveal_strlit("7");
            assert(r@ =~= seq![digit_char(d as int)]);
        }
        r
    } else if d == 8 {
        let r = "8";
        proof {
            reveal_strlit("8");
            assert(r@ =~= seq![digit_char(d as int)]);
        }
        r
    } else {
        let r = "9";
        proof {
            reveal_strlit("9");
            assert(r@ =~= seq![digit_char(d as int)]);
        }
        r
    }
}

/// Encodes whole seconds since the Unix epoch as their decimal string,
/// without leading zeros. This is the read-side encoder: sub-second
/// precision has already been discarded by the caller.
pub fn encode_seconds(secs: u64) -> (r: String)
    ensures
        r@ == dec_str(secs as nat),
    decreases secs,
{
    if secs < 10 {
        let r = String::from_str(digit_string(secs as u8));
        proof {
            assert(r@ =~= dec_str(secs as nat));
        }
        r
    } else {
        let mut r = encode_seconds(secs / 10);
        let d = digit_string((secs % 10) as u8);
        r.append(d);
        proof {
            assert(dec_str(secs as nat) == dec_str((secs as nat) / 10).push(
                digit_char(((secs as nat) % 10) as int),
            ));
            assert(r@ =~= dec_str(secs as nat));
        }
        r
    }
}

} // verus!
