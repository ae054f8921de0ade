//! Short, human-friendly channel identifiers of the form `CHAT-XXXX`.

use vstd::prelude::*;

verus! {

/// Number of distinct identifiers: the seed is reduced into this range.
pub const ID_SPACE: i64 = 65536;

/// The sixteen uppercase hexadecimal digits, in order of value.
pub open spec fn hex_digits() -> Seq<char> {
    seq!['0', '1', '2', '3', '4', '5', '6', '7', '8', '9', 'A', 'B', 'C', 'D', 'E', 'F']
}

/// The uppercase hexadecimal digit of value `d` (for `0 <= d < 16`).
pub open spec fn hex_digit(d: int) -> char {
    hex_digits()[d]
}

/// Whether `c` is one of the uppercase hexadecimal digits.
pub open spec fn is_upper_hex(c: char) -> bool {
    exists|d: int| 0 <= d < 16 && hex_digit(d) == c
}

/// The value of `v` (for `0 <= v < 65536`) as exactly four uppercase hex digits.
pub open spec fn hex4(v: int) -> Seq<char> {
    seq![hex_digit(v / 4096), hex_digit((v / 256) % 16), hex_digit((v / 16) % 16), hex_digit(v % 16)]
}

/// The fixed prefix of every identifier.
pub open spec fn id_prefix() -> Seq<char> {
    seq!['C', 'H', 'A', 'T', '-']
}

/// The identifier derived from `seed`: the prefix, then `seed mod 65536`
/// (the non-negative remainder) in four uppercase hex digits.
pub open spec fn spec_channel_id(seed: int) -> Seq<char> {
    id_prefix() + hex4(seed % 65536)
}

/// The value of an uppercase hex digit.
pub open spec fn digit_value(c: char) -> int {
    if c == '0' { 0 } else if c == '1' { 1 } else if c == '2' { 2 } else if c == '3' { 3 }
    else if c == '4' { 4 } else if c == '5' { 5 } else if c == '6' { 6 } else if c == '7' { 7 }
    else if c == '8' { 8 } else if c == '9' { 9 } else if c == 'A' { 10 } else if c == 'B' { 11 }
    else if c == 'C' { 12 } else if c == 'D' { 13 } else if c == 'E' { 14 } else { 15 }
}

/// The value of four hex digits, most significant first.
pub open spec fn hex4_value(s: Seq<char>) -> int {
    digit_value(s[0]) * 4096 + digit_value(s[1]) * 256 + digit_value(s[2]) * 16 + digit_value(s[3])
}

proof fn lemma_digit_round_trip(d: int)
    requires
        0 <= d < 16,
    ensures
        digit_value(hex_digit(d)) == d,
        is_upper_hex(hex_digit(d)),
{
    assert(hex_digits().len() == 16);
    if d == 0 {} else if d == 1 {} else if d == 2 {} else if d == 3 {}
    else if d == 4 {} else if d == 5 {} else if d == 6 {} else if d == 7 {}
    else if d == 8 {} else if d == 9 {} else if d == 10 {} else if d == 11 {}
    else if d == 12 {} else if d == 13 {} else if d == 14 {} else {}
}

/// Every identifier is `CHAT-` followed by exactly four uppercase hex digits,
/// and those digits spell `seed mod 65536` (the non-negative remainder).
pub proof fn lemma_channel_id_shape(seed: int)
    ensures
        spec_channel_id(seed).len() == 9,
        spec_channel_id(seed).subrange(0, 5) == id_prefix(),
        forall|i: int| 5 <= i < 9 ==> is_upper_hex(#[trigger] spec_channel_id(seed)[i]),
        hex4_value(spec_channel_id(seed).subrange(5, 9)) == seed % 65536,
{
    let v = seed % 65536;
    let id = spec_channel_id(seed);
    lemma_digit_round_trip(v / 4096);
    lemma_digit_round_trip((v / 256) % 16);
    lemma_digit_round_trip((v / 16) % 16);
    lemma_digit_round_trip(v % 16);
    assert(id.subrange(0, 5) =~= id_prefix());
    assert(id.subrange(5, 9) =~= hex4(v));
    assert(hex4(v)[0] == hex_digit(v / 4096));
    assert(v == (v / 4096) * 4096 + ((v / 256) % 16) * 256 + ((v / 16) % 16) * 16 + v % 16) by (nonlinear_arith)
        requires 0 <= v < 65536;
}

/// Appends the hex digit of value `d` to `s`.
fn push_hex_digit(s: &mut String, d: i64)
    requires
        0 <= d < 16,
    ensures
        final(s)@ == old(s)@.push(hex_digit(d as int)),
{
    let digits = "0123456789ABCDEF";
    proof {
        reveal_strlit("0123456789ABCDEF");
    }
    let digit = digits.substring_char(d as usize, d as usize + 1);
    s.append(digit);
    proof {
        assert(digit@ =~= seq![hex_digit(d as int)]);
    }
}

/// Derives a channel identifier from a timestamp: `CHAT-` followed by the
/// timestamp reduced modulo 65536, written as four uppercase hex digits.
/// The result depends on the timestamp alone.
pub fn generate_channel_id(timestamp: &i64) -> (r: String)
    ensures
        r@ == spec_channel_id(*timestamp as int),
{
    let v: i64 = match timestamp.checked_rem_euclid(ID_SPACE) {
        Some(v) => v,
        None => 0,
    };
    assert(v == *timestamp as int % 65536);
    let prefix = "CHAT-";
    proof {
        reveal_strlit("CHAT-");
    }
    let mut r = String::from_str(prefix);
    push_hex_digit(&mut r, v / 4096);
    push_hex_digit(&mut r, (v / 256) % 16);
    push_hex_digit(&mut r, (v / 16) % 16);
    push_hex_digit(&mut r, v % 16);
    assert(r@ =~= spec_channel_id(*timestamp as int));
    r
}

} // verus!
