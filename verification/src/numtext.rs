use vstd::prelude::*;
use crate::text::push_char;

verus! {

/// The ASCII decimal digit for `d` (0 to 9).
pub open spec fn digit_char(d: int) -> char {
    if d == 0 { '0' }
    else if d == 1 { '1' }
    else if d == 2 { '2' }
    else if d == 3 { '3' }
    else if d == 4 { '4' }
    else if d == 5 { '5' }
    else if d == 6 { '6' }
    else if d == 7 { '7' }
    else if d == 8 { '8' }
    else { '9' }
}

/// The decimal text of a natural number, without leading zeros.
pub open spec fn nat_text(n: nat) -> Seq<char>
    decreases n,
{
    if n < 10 {
        seq![digit_char(n as int)]
    } else {
        nat_text(n / 10).push(digit_char((n % 10) as int))
    }
}

/// The decimal text of an integer, as `Display` renders it.
pub open spec fn int_text(i: int) -> Seq<char> {
    if i < 0 {
        seq!['-'] + nat_text((-i) as nat)
    } else {
        nat_text(i as nat)
    }
}

/// The last `width` decimal digits of `n`, zero-padded on the left.
pub open spec fn padded_text(n: nat, width: nat) -> Seq<char>
    decreases width,
{
    if width == 0 {
        seq![]
    } else {
        padded_text(n / 10, (width - 1) as nat).push(digit_char((n % 10) as int))
    }
}

pub proof fn lemma_padded_len(n: nat, width: nat)
    ensures
        padded_text(n, width).len() == width,
    decreases width,
{
    if width > 0 {
        lemma_padded_len(n / 10, (width - 1) as nat);
    }
}

/// The ASCII digit for a value below ten.
pub fn digit(d: u64) -> (c: char)
    requires
        d < 10,
    ensures
        c == digit_char(d as int),
{
    if d == 0 { '0' }
    else if d == 1 { '1' }
    else if d == 2 { '2' }
    else if d == 3 { '3' }
    else if d == 4 { '4' }
    else if d == 5 { '5' }
    else if d == 6 { '6' }
    else if d == 7 { '7' }
    else if d == 8 { '8' }
    else { '9' }
}

/// Appends the decimal text of `n` to `out`.
pub fn push_nat(out: &mut String, n: u64)
    ensures
        final(out)@ == old(out)@ + nat_text(n as nat),
    decreases n,
{
    if n < 10 {
        push_char(out, digit(n));
        assert(old(out)@.push(digit_char(n as int)) =~= old(out)@ + nat_text(n as nat));
    } else {
        push_nat(out, n / 10);
        push_char(out, digit(n % 10));
        assert(old(out)@ + nat_text(n as nat) =~= old(out)@ + nat_text((n / 10) as nat) + seq![
            digit_char((n % 10) as int),
        ]);
    }
}

/// Appends the last `width` digits of `n`, zero-padded, to `out`.
pub fn push_padded(out: &mut String, n: u64, width: u64)
    ensures
        final(out)@ == old(out)@ + padded_text(n as nat, width as nat),
    decreases width,
{
    if width == 0 {
        assert(old(out)@ + padded_text(n as nat, 0) =~= old(out)@);
    } else {
        push_padded(out, n / 10, width - 1);
        push_char(out, digit(n % 10));
        assert(old(out)@ + padded_text(n as nat, width as nat) =~= old(out)@ + padded_text(
            (n / 10) as nat,
            (width - 1) as nat,
        ) + seq![digit_char((n % 10) as int)]);
    }
}

/// The decimal text of a signed integer (`i64::to_string`).
pub fn i64_text(i: i64) -> (res: String)
    ensures
        res@ == int_text(i as int),
{
    let mut out = String::new();
    if i < 0 {
        push_char(&mut out, '-');
        let magnitude: u64 = if i == i64::MIN {
            9_223_372_036_854_775_808u64
        } else {
            (-i) as u64
        };
        push_nat(&mut out, magnitude);
        assert(out@ =~= seq!['-'] + nat_text(magnitude as nat));
    } else {
        push_nat(&mut out, i as u64);
        assert(out@ =~= nat_text(i as nat));
    }
    out
}

} // verus!
