//! Decimal rendering of integers into strings, and string equality.
//!
//! Span identifiers are rendered in plain decimal; timestamp components are
//! rendered zero-padded to a fixed width.

use vstd::prelude::*;
use vstd::string::StringExecFns;

verus! {

/// The decimal digit character for a value below ten.
pub open spec fn digit(d: nat) -> char {
    if d == 0 {
        '0'
    } else if d == 1 {
        '1'
    } else if d == 2 {
        '2'
    } else if d == 3 {
        '3'
    } else if d == 4 {
        '4'
    } else if d == 5 {
        '5'
    } else if d == 6 {
        '6'
    } else if d == 7 {
        '7'
    } else if d == 8 {
        '8'
    } else {
        '9'
    }
}

/// The decimal rendering of `n`, without leading zeros (a sole zero for 0).
pub open spec fn dec_str(n: nat) -> Seq<char>
    decreases n,
{
    if n < 10 {
        seq![digit(n)]
    } else {
        dec_str(n / 10).push(digit(n % 10))
    }
}

/// The two-digit zero-padded rendering of `n` (defined for `n < 100`).
pub open spec fn pad2(n: nat) -> Seq<char> {
    seq![digit(n / 10 % 10), digit(n % 10)]
}

/// The four-digit zero-padded rendering of `n` (defined for `n < 10000`).
pub open spec fn pad4(n: nat) -> Seq<char> {
    seq![digit(n / 1000 % 10), digit(n / 100 % 10), digit(n / 10 % 10), digit(n % 10)]
}

/// The six-digit zero-padded rendering of `n` (defined for `n < 1000000`).
pub open spec fn pad6(n: nat) -> Seq<char> {
    seq![
        digit(n / 100000 % 10),
        digit(n / 10000 % 10),
        digit(n / 1000 % 10),
        digit(n / 100 % 10),
        digit(n / 10 % 10),
        digit(n % 10),
    ]
}

/// Relies on `<str as PartialEq>::eq`: two string slices are equal exactly
/// when they hold the same characters.
#[verifier::external_body]
pub fn str_eq(a: &str, b: &str) -> (r: bool)
    ensures
        r == (a@ == b@),
{
    a == b
}

/// Appends the digit character for `d` to `out`.
fn push_digit(out: &mut String, d: u64)
    requires
        d < 10,
    ensures
        final(out)@ == old(out)@ + seq![digit(d as nat)],
{
    if d == 0 {
        proof {
            reveal_strlit("0");
        }
        out.append("0");
        assert(final(out)@ =~= old(out)@ + seq![digit(d as nat)]);
    } else if d == 1 {
        proof {
            reveal_strlit("1");
        }
        out.append("1");
        assert(final(out)@ =~= old(out)@ + seq![digit(d as nat)]);
    } else if d == 2 {
        proof {
            reveal_strlit("2");
        }
        out.append("2");
        assert(final(out)@ =~= old(out)@ + seq![digit(d as nat)]);
    } else if d == 3 {
        proof {
            reveal_strlit("3");
        }
        out.append("3");
        assert(final(out)@ =~= old(out)@ + seq![digit(d as nat)]);
    } else if d == 4 {
        proof {
            reveal_strlit("4");
        }
        out.append("4");
        assert(final(out)@ =~= old(out)@ + seq![digit(d as nat)]);
    } else if d == 5 {
        proof {
            reveal_strlit("5");
        }
        out.append("5");
        assert(final(out)@ =~= old(out)@ + seq![digit(d as nat)]);
    } else if d == 6 {
        proof {
            reveal_strlit("6");
        }
        out.append("6");
        assert(final(out)@ =~= old(out)@ + seq![digit(d as nat)]);
    } else if d == 7 {
        proof {
            reveal_strlit("7");
        }
        out.append("7");
        assert(final(out)@ =~= old(out)@ + seq![digit(d as nat)]);
    } else if d == 8 {
        proof {
            reveal_strlit("8");
        }
        out.append("8");
        assert(final(out)@ =~= old(out)@ + seq![digit(d as nat)]);
    } else {
        proof {
            reveal_strlit("9");
        }
        out.append("9");
        assert(final(out)@ =~= old(out)@ + seq![digit(d as nat)]);
    }
}

/// Appends the plain decimal rendering of `n` to `out`.
pub fn push_dec(out: &mut String, n: u64)
    ensures
        final(out)@ == old(out)@ + dec_str(n as nat),
    decreases n,
{
    if n >= 10 {
        push_dec(out, n / 10);
    }
    push_digit(out, n % 10);
    assert(final(out)@ =~= old(out)@ + dec_str(n as nat));
}

/// Appends the two-digit zero-padded rendering of `n` to `out`.
pub fn push_pad2(out: &mut String, n: u64)
    requires
        n < 100,
    ensures
        final(out)@ == old(out)@ + pad2(n as nat),
{
    push_digit(out, n / 10 % 10);
    push_digit(out, n % 10);
    assert(final(out)@ =~= old(out)@ + pad2(n as nat));
}

/// Appends the four-digit zero-padded rendering of `n` to `out`.
pub fn push_pad4(out: &mut String, n: u64)
    requires
        n < 10000,
    ensures
        final(out)@ == old(out)@ + pad4(n as nat),
{
    push_digit(out, n / 1000 % 10);
    push_digit(out, n / 100 % 10);
    push_digit(out, n / 10 % 10);
    push_digit(out, n % 10);
    assert(final(out)@ =~= old(out)@ + pad4(n as nat));
}

/// Appends the six-digit zero-padded rendering of `n` to `out`.
pub fn push_pad6(out: &mut String, n: u64)
    requires
        n < 1000000,
    ensures
        final(out)@ == old(out)@ + pad6(n as nat),
{
    push_digit(out, n / 100000 % 10);
    push_digit(out, n / 10000 % 10);
    push_digit(out, n / 1000 % 10);
    push_digit(out, n / 100 % 10);
    push_digit(out, n / 10 % 10);
    push_digit(out, n % 10);
    assert(final(out)@ =~= old(out)@ + pad6(n as nat));
}

} // verus!
