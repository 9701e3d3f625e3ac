//! Decimal notation of page numbers, as it appears in messages.

use vstd::prelude::*;

verus! {

/// The character of one decimal digit, `0..=9`.
pub open spec fn digit_char(d: nat) -> char
    recommends
        d < 10,
{
    (48 + d) as u8 as char
}

/// `n` in decimal notation: most significant digit first, no leading zero,
/// a single `0` for zero.
pub open spec fn decimal_digits(n: nat) -> Seq<char>
    decreases n,
{
    if n < 10 {
        seq![digit_char(n)]
    } else {
        decimal_digits(n / 10).push(digit_char(n % 10))
    }
}

/// Decimal notation has as many characters as `n` has digits, each of them a
/// digit, and starts with `0` only for zero itself.
pub proof fn lemma_decimal_digits_shape(n: nat)
    ensures
        decimal_digits(n).len() >= 1,
        forall|i: int|
            0 <= i < decimal_digits(n).len() ==> '0' <= #[trigger] decimal_digits(n)[i] <= '9',
        n > 0 ==> decimal_digits(n)[0] != '0',
    decreases n,
{
    if n >= 10 {
        lemma_decimal_digits_shape(n / 10);
    }
}

fn digit(d: u8) -> (c: char)
    requires
        d < 10,
    ensures
        c == digit_char(d as nat),
{
    (48u8 + d) as char
}

/// Writes `n` in decimal notation.
pub fn decimal(n: usize) -> (text: String)
    ensures
        text@ == decimal_digits(n as nat),
{
    // Least significant digit first, then reversed into the text.
    let mut reversed: Vec<char> = Vec::new();
    let mut rest: usize = n;
    while rest >= 10
        invariant
            decimal_digits(n as nat) == decimal_digits(rest as nat) + reversed@.reverse(),
        decreases rest,
    {
        let d: u8 = (rest % 10) as u8;
        let ghost before = reversed@;
        reversed.push(digit(d));
        proof {
            assert(reversed@.reverse() =~= seq![digit_char(d as nat)] + before.reverse());
            assert(decimal_digits(rest as nat) == decimal_digits((rest / 10) as nat).push(
                digit_char(d as nat),
            ));
            assert(decimal_digits((rest / 10) as nat).push(digit_char(d as nat)) + before.reverse()
                =~= decimal_digits((rest / 10) as nat) + reversed@.reverse());
        }
        rest = rest / 10;
    }
    let mut text = String::new();
    crate::text::push_char(&mut text, digit(rest as u8));
    let mut i: usize = reversed.len();
    while i > 0
        invariant
            i <= reversed.len(),
            text@ == decimal_digits(rest as nat) + reversed@.reverse().take(reversed.len() - i),
            rest < 10,
        decreases i,
    {
        i -= 1;
        crate::text::push_char(&mut text, reversed[i]);
        proof {
            let r = reversed@.reverse();
            let k = reversed.len() - i;
            assert(r[k - 1] == reversed@[i as int]);
            assert(r.take(k) =~= r.take(k - 1).push(r[k - 1]));
            assert((decimal_digits(rest as nat) + r.take(k - 1)).push(r[k - 1])
                =~= decimal_digits(rest as nat) + r.take(k));
        }
    }
    proof {
        assert(reversed@.reverse().take(reversed.len() as int) =~= reversed@.reverse());
        assert(decimal_digits(rest as nat) + Seq::<char>::empty() =~= decimal_digits(rest as nat));
    }
    text
}

} // verus!
