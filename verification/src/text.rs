//! Numbers as text, and pieces of text joined.

use vstd::prelude::*;
use vstd::string::{StrSliceExecFns, StringExecFns};
use vstd::utf8::is_ascii_chars;
use itertools::Itertools;

verus! {

/// The character for a digit value below sixteen; capitals stand for ten to
/// fifteen.
pub open spec fn digit_char(d: nat) -> char {
    "0123456789ABCDEF"@[d as int]
}

/// The digits of `n` in the given base, highest first, with no leading zero;
/// zero is the one digit `0`.
pub open spec fn digits(n: nat, base: nat) -> Seq<char>
    decreases n,
    via digits_decreases
{
    if n < base || base < 2 {
        seq![digit_char(n)]
    } else {
        digits(n / base, base).push(digit_char(n % base))
    }
}

#[via_fn]
proof fn digits_decreases(n: nat, base: nat) {
    if !(n < base || base < 2) {
        lemma_quotient_smaller(n, base);
    }
}

/// Dividing by two or more makes a number that is not zero smaller.
proof fn lemma_quotient_smaller(n: nat, base: nat)
    requires
        2 <= base <= n,
    ensures
        n / base < n,
{
    assert(n / base < n) by (nonlinear_arith)
        requires
            2 <= base <= n,
    ;
}

/// The two capital hexadecimal digits of a byte.
pub open spec fn byte_hex(b: u8) -> Seq<char> {
    seq![digit_char(b as nat / 16), digit_char(b as nat % 16)]
}

/// The pieces in order, with `sep` between each two neighbours.
pub open spec fn joined(parts: Seq<Seq<char>>, sep: Seq<char>) -> Seq<char>
    decreases parts.len(),
{
    if parts.len() == 0 {
        Seq::empty()
    } else if parts.len() == 1 {
        parts[0]
    } else {
        joined(parts.drop_last(), sep) + sep + parts.last()
    }
}

/// The views of the strings of a vector.
pub open spec fn views(parts: Seq<String>) -> Seq<Seq<char>> {
    parts.map_values(|s: String| s@)
}

/// The text of one digit.
fn digit_str(d: u32) -> (s: &'static str)
    requires
        d < 16,
    ensures
        s@ == seq![digit_char(d as nat)],
{
    let all = "0123456789ABCDEF";
    proof {
        reveal_strlit("0123456789ABCDEF");
        assert(all@.len() == 16);
        assert(is_ascii_chars(all@));
        assert(all@.subrange(d as int, d + 1) =~= seq![digit_char(d as nat)]);
    }
    all.substring_ascii(d as usize, d as usize + 1)
}

/// Appends the digits of `n` in the given base to `out`.
fn push_digits(n: u32, base: u32, out: &mut String)
    requires
        2 <= base <= 16,
    ensures
        final(out)@ == old(out)@ + digits(n as nat, base as nat),
    decreases n,
{
    if n >= base {
        proof {
            lemma_quotient_smaller(n as nat, base as nat);
        }
        push_digits(n / base, base, out);
    }
    let ghost higher = out@;
    out.append(digit_str(n % base));
    proof {
        let last = digit_char((n % base) as nat);
        assert(out@ == higher + seq![last]);
        if n >= base {
            assert((n / base) as nat == n as nat / base as nat);
            assert((n % base) as nat == n as nat % base as nat);
            let front = digits(n as nat / base as nat, base as nat);
            assert(digits(n as nat, base as nat) == front.push(last));
            assert((old(out)@ + front) + seq![last] =~= old(out)@ + front.push(last));
        } else {
            assert(n % base == n) by (nonlinear_arith)
                requires
                    n < base,
            ;
        }
    }
}

/// `n` in capital hexadecimal digits, as `{:X}` formats it.
pub fn upper_hex(n: u32) -> (text: String)
    ensures
        text@ == digits(n as nat, 16),
{
    let mut text = String::new();
    push_digits(n, 16, &mut text);
    text
}

/// A byte in two capital hexadecimal digits, as `{:02X}` formats it.
pub fn upper_hex_byte(b: u8) -> (text: String)
    ensures
        text@ == byte_hex(b),
{
    let mut text = String::new();
    text.append(digit_str((b / 16) as u32));
    text.append(digit_str((b % 16) as u32));
    assert(text@ =~= byte_hex(b));
    text
}

/// `n` in decimal digits, as `{}` formats it.
pub fn decimal(n: u32) -> (text: String)
    ensures
        text@ == digits(n as nat, 10),
{
    let mut text = String::new();
    push_digits(n, 10, &mut text);
    text
}

/// `Itertools::join` of itertools, on the strings of a vector: the result
/// is empty for no string, and otherwise the first string followed, for each
/// further string, by `sep` and that string.
#[verifier::external_body]
pub(crate) fn join(parts: &Vec<String>, sep: &str) -> (text: String)
    ensures
        text@ == joined(views(parts@), sep@),
{
    parts.iter().join(sep)
}

} // verus!
