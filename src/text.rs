//! Nul-free byte strings, as handed to the operating system.

use vstd::prelude::*;

verus! {

/// A byte string that may stand in an argument or environment vector:
/// it holds no nul byte, so that a terminating nul can be appended.
pub open spec fn is_c_text(s: Seq<u8>) -> bool {
    forall|i: int| 0 <= i < s.len() ==> s[i] != 0u8
}

/// The decimal digits of `n`, most significant first, without leading zeros
/// (zero is written as a single digit).
pub open spec fn decimal_digits(n: nat) -> Seq<u8>
    decreases n,
{
    if n < 10 {
        seq![(n + 48) as u8]
    } else {
        decimal_digits(n / 10).push((n % 10 + 48) as u8)
    }
}

/// The decimal form of an integer, with a leading `-` when it is negative.
pub open spec fn decimal_text(i: int) -> Seq<u8> {
    if i < 0 {
        seq![45u8] + decimal_digits((-i) as nat)
    } else {
        decimal_digits(i as nat)
    }
}

/// Whether `s` holds no nul byte.
pub fn has_no_nul(s: &[u8]) -> (r: bool)
    ensures
        r == is_c_text(s@),
{
    let mut i: usize = 0;
    while i < s.len()
        invariant
            i <= s@.len(),
            forall|j: int| 0 <= j < i ==> s@[j] != 0u8,
        decreases s@.len() - i,
    {
        if s[i] == 0 {
            return false;
        }
        i = i + 1;
    }
    true
}

/// Appends the decimal digits of `n` to `out`.
pub fn push_decimal(out: &mut Vec<u8>, n: u64)
    ensures
        final(out)@ == old(out)@ + decimal_digits(n as nat),
    decreases n,
{
    if n >= 10 {
        push_decimal(out, n / 10);
    }
    let d: u8 = (n % 10) as u8;
    out.push(d + 48);
    assert(final(out)@ =~= old(out)@ + decimal_digits(n as nat));
}

/// The decimal text of a process id, as passed on a command line.
pub fn pid_text(pid: i32) -> (r: Vec<u8>)
    ensures
        r@ == decimal_text(pid as int),
        is_c_text(r@),
{
    let mut out: Vec<u8> = Vec::new();
    if pid < 0 {
        out.push(45u8);
        let magnitude: u64 = (-(pid as i64)) as u64;
        push_decimal(&mut out, magnitude);
        assert(out@ =~= seq![45u8] + decimal_digits((-(pid as int)) as nat));
    } else {
        push_decimal(&mut out, pid as u64);
        assert(out@ =~= decimal_digits(pid as nat));
    }
    proof {
        lemma_decimal_text_is_c_text(pid as int);
    }
    out
}

/// Decimal digits are never nul bytes.
pub proof fn lemma_decimal_digits_is_c_text(n: nat)
    ensures
        is_c_text(decimal_digits(n)),
        decimal_digits(n).len() > 0,
    decreases n,
{
    if n >= 10 {
        lemma_decimal_digits_is_c_text(n / 10);
    }
}

/// The decimal text of an integer holds no nul byte.
pub proof fn lemma_decimal_text_is_c_text(i: int)
    ensures
        is_c_text(decimal_text(i)),
{
    if i < 0 {
        lemma_decimal_digits_is_c_text((-i) as nat);
        let d = decimal_digits((-i) as nat);
        assert forall|k: int| 0 <= k < decimal_text(i).len() implies decimal_text(i)[k] != 0u8 by {
            if k > 0 {
                assert(decimal_text(i)[k] == d[k - 1]);
            }
        }
    } else {
        lemma_decimal_digits_is_c_text(i as nat);
    }
}

} // verus!
