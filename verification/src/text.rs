//! Building text: characters, decimal and hexadecimal numerals.

use vstd::prelude::*;

verus! {

/// The digit character for `d` (below 16): `0`-`9`, then `a`-`f`.
pub open spec fn spec_digit(d: nat) -> char {
    if d < 10 {
        (48 + d) as char
    } else {
        (87 + d) as char
    }
}

/// The decimal numeral of `v`, without leading zeros.
pub open spec fn spec_decimal(v: nat) -> Seq<char>
    decreases v,
{
    if v < 10 {
        seq![spec_digit(v)]
    } else {
        spec_decimal(v / 10).push(spec_digit(v % 10))
    }
}

/// The lower-case hexadecimal numeral of `v`, without leading zeros.
pub open spec fn spec_hex(v: nat) -> Seq<char>
    decreases v,
{
    if v < 16 {
        seq![spec_digit(v)]
    } else {
        spec_hex(v / 16).push(spec_digit(v % 16))
    }
}

/// The alternate hexadecimal form of `v`: `0x` followed by its numeral.
pub open spec fn spec_hex_prefixed(v: nat) -> Seq<char> {
    seq!['0', 'x'] + spec_hex(v)
}

/// The number that a decimal numeral stands for.
pub open spec fn spec_decimal_value(d: Seq<char>) -> nat
    decreases d.len(),
{
    if d.len() == 0 {
        0
    } else {
        spec_decimal_value(d.drop_last()) * 10 + ((d.last() as u32) - 48) as nat
    }
}

/// The decimal numeral of `v` is made of the digits `0` to `9` and stands for
/// `v`.
pub proof fn lemma_decimal_reads_back(v: nat)
    ensures
        spec_decimal_value(spec_decimal(v)) == v,
        forall|i: int|
            0 <= i < spec_decimal(v).len() ==> 48 <= #[trigger] (spec_decimal(v)[i] as u32) <= 57,
    decreases v,
{
    if v >= 10 {
        lemma_decimal_reads_back(v / 10);
        let a = spec_decimal(v / 10);
        let d = a.push(spec_digit(v % 10));
        assert(d.drop_last() =~= a);
        assert(d.last() == spec_digit(v % 10));
        assert(spec_digit(v % 10) as u32 == 48 + v % 10);
        assert(spec_decimal_value(d) == spec_decimal_value(a) * 10 + v % 10);
        assert((v / 10) * 10 + v % 10 == v);
        assert forall|i: int| 0 <= i < d.len() implies 48 <= #[trigger] (d[i] as u32) <= 57 by {
            if i < a.len() {
                assert(d[i] == a[i]);
            }
        }
    } else {
        let d = spec_decimal(v);
        assert(d.drop_last() =~= Seq::<char>::empty());
        assert(spec_decimal_value(d.drop_last()) == 0);
        assert(d.last() == spec_digit(v));
        assert(spec_digit(v) as u32 == 48 + v);
    }
}

/// Appends one character to a string (`String::push`).
#[verifier::external_body]
pub fn push_char(s: &mut String, c: char)
    ensures
        final(s)@ == old(s)@.push(c),
{
    s.push(c);
}

pub fn digit_char(d: u8) -> (c: char)
    requires
        d < 16,
    ensures
        c == spec_digit(d as nat),
{
    if d < 10 {
        (48 + d) as char
    } else {
        (87 + d) as char
    }
}

/// Appends the decimal numeral of `v`.
pub fn push_decimal(s: &mut String, v: u128)
    ensures
        final(s)@ == old(s)@ + spec_decimal(v as nat),
    decreases v,
{
    if v >= 10 {
        push_decimal(s, v / 10);
    }
    let d = (v % 10) as u8;
    push_char(s, digit_char(d));
}

/// Appends the lower-case hexadecimal numeral of `v`.
pub fn push_hex(s: &mut String, v: u128)
    ensures
        final(s)@ == old(s)@ + spec_hex(v as nat),
    decreases v,
{
    if v >= 16 {
        push_hex(s, v / 16);
    }
    let d = (v % 16) as u8;
    push_char(s, digit_char(d));
}

} // verus!
