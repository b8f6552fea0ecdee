//! Exact decimal rendering of lamport amounts in SOL.

use vstd::prelude::*;
use vstd::string::StringExecFns;

verus! {

/// Number of lamports in one SOL.
pub const LAMPORTS_PER_SOL: u64 = 1_000_000_000;

/// Number of decimal places of one lamport, written in SOL.
pub const SOL_DECIMALS: u64 = 9;

/// The ten decimal digits, in order.
pub open spec fn digit_chars() -> Seq<char> {
    seq!['0', '1', '2', '3', '4', '5', '6', '7', '8', '9']
}

/// The character of the decimal digit `d` (`d < 10`).
pub open spec fn digit_char(d: nat) -> char {
    digit_chars()[d as int]
}

/// The usual decimal notation of `n`: no sign, no leading zeros.
pub open spec fn decimal_text(n: nat) -> Seq<char>
    decreases n,
{
    if n < 10 {
        seq![digit_char(n)]
    } else {
        decimal_text(n / 10).push(digit_char(n % 10))
    }
}

/// `k` zero characters.
pub open spec fn zeros(k: nat) -> Seq<char> {
    Seq::new(k, |i: int| '0')
}

/// `n` in decimal, padded on the left with zeros to `width` characters.
pub open spec fn padded_decimal(n: nat, width: nat) -> Seq<char> {
    zeros((width - decimal_text(n).len()) as nat) + decimal_text(n)
}

/// `s` without its trailing zero characters.
pub open spec fn trim_trailing_zeros(s: Seq<char>) -> Seq<char>
    decreases s.len(),
{
    if s.len() > 0 && s.last() == '0' {
        trim_trailing_zeros(s.drop_last())
    } else {
        s
    }
}

/// `lamports` written in SOL: the whole part in decimal, then, when the
/// amount is not a whole number of SOL, a point and the nine decimals
/// without their trailing zeros (`1_500_000_000` reads `1.5`).
pub open spec fn sol_text(lamports: nat) -> Seq<char> {
    let whole = lamports / (LAMPORTS_PER_SOL as nat);
    let frac = lamports % (LAMPORTS_PER_SOL as nat);
    if frac == 0 {
        decimal_text(whole)
    } else {
        decimal_text(whole) + seq!['.'] + trim_trailing_zeros(
            padded_decimal(frac, SOL_DECIMALS as nat),
        )
    }
}

proof fn lemma_digit_chars()
    ensures
        forall|d: nat| 1 <= d < 10 ==> digit_char(d) != '0',
        digit_char(0) == '0',
{
    assert forall|d: nat| 1 <= d < 10 implies digit_char(d) != '0' by {
        assert(digit_chars()[d as int] != '0');
    }
}

proof fn lemma_decimal_text_last(n: nat)
    ensures
        decimal_text(n).len() >= 1,
        decimal_text(n).last() == digit_char(n % 10),
    decreases n,
{
    if n >= 10 {
        lemma_decimal_text_last(n / 10);
    }
}

/// Dropping a trailing zero digit shortens the padded text by that zero.
proof fn lemma_padded_drop_zero(f: nat, width: nat)
    requires
        f > 0,
        f % 10 == 0,
        decimal_text(f).len() <= width,
    ensures
        width >= 1,
        decimal_text(f / 10).len() <= width - 1,
        padded_decimal(f, width) == padded_decimal(f / 10, (width - 1) as nat).push('0'),
{
    lemma_digit_chars();
    let head = decimal_text(f / 10);
    assert(decimal_text(f) == head.push(digit_char(0)));
    let z = zeros((width - decimal_text(f).len()) as nat);
    assert(z =~= zeros(((width - 1) as nat - head.len()) as nat));
    assert(z + head.push('0') =~= (z + head).push('0'));
}

proof fn lemma_trim_push_zero(s: Seq<char>)
    ensures
        trim_trailing_zeros(s.push('0')) == trim_trailing_zeros(s),
{
    assert(s.push('0').drop_last() =~= s);
}

proof fn lemma_trim_nonzero_last(f: nat, width: nat)
    requires
        f % 10 != 0,
    ensures
        trim_trailing_zeros(padded_decimal(f, width)) == padded_decimal(f, width),
{
    lemma_digit_chars();
    lemma_decimal_text_last(f);
    let p = padded_decimal(f, width);
    assert(p.last() == decimal_text(f).last());
}

/// The text of the digit `d`.
fn digit_str(d: u64) -> (r: &'static str)
    requires
        d < 10,
    ensures
        r@ == seq![digit_char(d as nat)],
{
    proof {
        reveal_strlit("0");
        reveal_strlit("1");
        reveal_strlit("2");
        reveal_strlit("3");
        reveal_strlit("4");
        reveal_strlit("5");
        reveal_strlit("6");
        reveal_strlit("7");
        reveal_strlit("8");
        reveal_strlit("9");
    }
    match d {
        0 => "0",
        1 => "1",
        2 => "2",
        3 => "3",
        4 => "4",
        5 => "5",
        6 => "6",
        7 => "7",
        8 => "8",
        _ => "9",
    }
}

/// Appends the decimal notation of `n` to `s`.
pub fn push_decimal(s: &mut String, n: u64)
    ensures
        final(s)@ == old(s)@ + decimal_text(n as nat),
    decreases n,
{
    if n >= 10 {
        push_decimal(s, n / 10);
    }
    s.append(digit_str(n % 10));
    assert(final(s)@ =~= old(s)@ + decimal_text(n as nat));
}

/// The number of decimal digits of `n`.
fn decimal_len(n: u64) -> (r: u64)
    ensures
        r as nat == decimal_text(n as nat).len(),
        1 <= r <= 20,
    decreases n,
{
    if n < 10 {
        1
    } else {
        let k = decimal_len(n / 10);
        assert(decimal_text(n as nat).len() == decimal_text((n / 10) as nat).len() + 1);
        assert(k < 20) by {
            lemma_decimal_len_bound((n / 10) as nat);
        }
        k + 1
    }
}

proof fn lemma_decimal_len_bound(n: nat)
    requires
        n <= u64::MAX as nat / 10,
    ensures
        decimal_text(n).len() <= 19,
{
    reveal_with_fuel(pow10, 20);
    assert(pow10(19) == 10_000_000_000_000_000_000nat);
    lemma_decimal_len_le(n, 19);
}

/// A number below `10^k` (`k >= 1`) has at most `k` digits.
proof fn lemma_decimal_len_le(n: nat, k: nat)
    requires
        k >= 1,
        n < pow10(k),
    ensures
        decimal_text(n).len() <= k,
    decreases k,
{
    if n >= 10 {
        reveal_with_fuel(pow10, 2);
        assert(k >= 2);
        let p = pow10((k - 1) as nat);
        assert(n < 10 * p);
        assert(n / 10 < p) by (nonlinear_arith)
            requires
                n < 10 * p,
        ;
        lemma_decimal_len_le(n / 10, (k - 1) as nat);
    }
}

/// Ten to the power `k`.
pub open spec fn pow10(k: nat) -> nat
    decreases k,
{
    if k == 0 {
        1
    } else {
        10 * pow10((k - 1) as nat)
    }
}

/// Renders `lamports` in SOL, exactly (see `sol_text`).
pub fn lamports_to_sol_text(lamports: u64) -> (r: String)
    ensures
        r@ == sol_text(lamports as nat),
{
    let whole = lamports / LAMPORTS_PER_SOL;
    let frac = lamports % LAMPORTS_PER_SOL;
    let mut s = String::new();
    push_decimal(&mut s, whole);
    if frac != 0 {
        s.append(".");
        proof {
            reveal_strlit(".");
        }
        let ghost head = s@;
        let mut f: u64 = frac;
        let mut width: u64 = SOL_DECIMALS;
        proof {
            reveal_with_fuel(pow10, 10);
            lemma_decimal_len_le(frac as nat, 9);
        }
        while f % 10 == 0
            invariant
                0 < f <= frac,
                width <= SOL_DECIMALS,
                decimal_text(f as nat).len() <= width,
                trim_trailing_zeros(padded_decimal(f as nat, width as nat))
                    == trim_trailing_zeros(padded_decimal(frac as nat, SOL_DECIMALS as nat)),
            decreases f,
        {
            proof {
                lemma_padded_drop_zero(f as nat, width as nat);
                lemma_trim_push_zero(padded_decimal((f / 10) as nat, (width - 1) as nat));
            }
            f = f / 10;
            width = width - 1;
        }
        proof {
            lemma_trim_nonzero_last(f as nat, width as nat);
        }
        let n_digits = decimal_len(f);
        let mut k: u64 = n_digits;
        while k < width
            invariant
                n_digits <= k <= width,
                s@ == head + zeros((k - n_digits) as nat),
            decreases width - k,
        {
            s.append("0");
            proof {
                reveal_strlit("0");
            }
            assert(s@ =~= head + zeros((k + 1 - n_digits) as nat));
            k = k + 1;
        }
        push_decimal(&mut s, f);
        assert(s@ =~= decimal_text(whole as nat) + seq!['.'] + padded_decimal(f as nat, width as nat));
    }
    s
}

} // verus!
