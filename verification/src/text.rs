use vstd::prelude::*;

verus! {

/// The ASCII character of one digit, upper case above nine.
pub open spec fn spec_digit(d: nat) -> u8 {
    if d < 10 {
        (48 + d) as u8
    } else {
        (55 + d) as u8
    }
}

/// The digits of `v` in the given base, most significant first, without
/// sign, prefix or leading zeros; zero is the single digit `0`.
pub open spec fn spec_digits(v: nat, base: nat) -> Seq<u8>
    decreases v,
    via spec_digits_decreases
{
    if base < 2 || v < base {
        seq![spec_digit(v)]
    } else {
        spec_digits(v / base, base).push(spec_digit(v % base))
    }
}

#[via_fn]
proof fn spec_digits_decreases(v: nat, base: nat) {
    if !(base < 2 || v < base) {
        assert(v / base < v) by (nonlinear_arith)
            requires
                base >= 2,
                v >= base,
        ;
    }
}

/// `v` in decimal.
pub open spec fn spec_decimal(v: u64) -> Seq<u8> {
    spec_digits(v as nat, 10)
}

/// `v` in upper-case hexadecimal.
pub open spec fn spec_hex(v: u64) -> Seq<u8> {
    spec_digits(v as nat, 16)
}

/// The ASCII character of the digit `d`.
pub fn digit(d: u64) -> (c: u8)
    requires
        d < 16,
    ensures
        c == spec_digit(d as nat),
{
    if d < 10 {
        (48 + d) as u8
    } else {
        (55 + d) as u8
    }
}

/// Appends the digits of `v` in base `base` to `out`.
pub fn push_digits(out: &mut Vec<u8>, v: u64, base: u64)
    requires
        2 <= base <= 16,
    ensures
        final(out)@ == old(out)@ + spec_digits(v as nat, base as nat),
    decreases v,
{
    if v >= base {
        push_digits(out, v / base, base);
        out.push(digit(v % base));
        assert(final(out)@ =~= old(out)@ + spec_digits(v as nat, base as nat));
    } else {
        out.push(digit(v));
        assert(final(out)@ =~= old(out)@ + spec_digits(v as nat, base as nat));
    }
}

/// Appends `v` in decimal to `out`.
pub fn push_decimal(out: &mut Vec<u8>, v: u64)
    ensures
        final(out)@ == old(out)@ + spec_decimal(v),
{
    push_digits(out, v, 10)
}

/// Appends `v` in upper-case hexadecimal to `out`.
pub fn push_hex(out: &mut Vec<u8>, v: u64)
    ensures
        final(out)@ == old(out)@ + spec_hex(v),
{
    push_digits(out, v, 16)
}

/// Appends the bytes of `word` to `out`.
pub fn push_bytes(out: &mut Vec<u8>, word: &[u8])
    ensures
        final(out)@ == old(out)@ + word@,
{
    out.extend_from_slice(word);
}

} // verus!
