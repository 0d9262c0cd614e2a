//! Rendering of unsigned numbers as decimal and fixed-width hexadecimal
//! text, and of runs of blank spaces, each pinned to a spec function.

use vstd::prelude::*;
use vstd::string::StringExecFns;

verus! {

/// `n` blank spaces.
pub open spec fn spaces(n: nat) -> Seq<char>
    decreases n,
{
    if n == 0 {
        Seq::empty()
    } else {
        spaces((n - 1) as nat).push(' ')
    }
}

/// The character for one digit value below sixteen, lower case.
pub open spec fn digit_char(d: nat) -> char {
    if d == 0 { '0' }
    else if d == 1 { '1' }
    else if d == 2 { '2' }
    else if d == 3 { '3' }
    else if d == 4 { '4' }
    else if d == 5 { '5' }
    else if d == 6 { '6' }
    else if d == 7 { '7' }
    else if d == 8 { '8' }
    else if d == 9 { '9' }
    else if d == 10 { 'a' }
    else if d == 11 { 'b' }
    else if d == 12 { 'c' }
    else if d == 13 { 'd' }
    else if d == 14 { 'e' }
    else { 'f' }
}

/// The decimal digits of `n`, most significant first, no leading zeros.
pub open spec fn dec_digits(n: nat) -> Seq<char>
    decreases n,
{
    if n < 10 {
        seq![digit_char(n)]
    } else {
        dec_digits(n / 10).push(digit_char(n % 10))
    }
}

/// The low `width` hexadecimal digits of `n`, most significant first,
/// zero padded to exactly `width` characters.
pub open spec fn hex_padded(n: nat, width: nat) -> Seq<char>
    decreases width,
{
    if width == 0 {
        Seq::empty()
    } else {
        hex_padded(n / 16, (width - 1) as nat).push(digit_char(n % 16))
    }
}

/// The decimal digits of `n` right-aligned in a field of at least four
/// characters, padded on the left with blank spaces.
pub open spec fn aligned4(n: nat) -> Seq<char> {
    let ds = dec_digits(n);
    if ds.len() < 4 {
        spaces((4 - ds.len()) as nat) + ds
    } else {
        ds
    }
}

/// How many decimal digits `n` has, by the ranges the alignment needs.
pub proof fn lemma_dec_digits_len(n: nat)
    ensures
        n < 10 ==> dec_digits(n).len() == 1,
        10 <= n < 100 ==> dec_digits(n).len() == 2,
        100 <= n < 1000 ==> dec_digits(n).len() == 3,
        1000 <= n ==> dec_digits(n).len() >= 4,
    decreases n,
{
    if n >= 10 {
        lemma_dec_digits_len(n / 10);
    }
}

/// A run of spaces is as long as asked and made of blank spaces only.
pub proof fn lemma_spaces_chars(n: nat)
    ensures
        spaces(n).len() == n,
        forall|i: int| 0 <= i < n ==> #[trigger] spaces(n)[i] == ' ',
    decreases n,
{
    if n > 0 {
        lemma_spaces_chars((n - 1) as nat);
    }
}

/// Decimal digit text is never empty and never contains a blank space.
pub proof fn lemma_dec_digits_chars(n: nat)
    ensures
        dec_digits(n).len() >= 1,
        forall|i: int| 0 <= i < dec_digits(n).len() ==> #[trigger] dec_digits(n)[i] != ' ',
    decreases n,
{
    if n >= 10 {
        lemma_dec_digits_chars(n / 10);
    }
}

/// The single-character string for one digit value below sixteen.
pub fn digit_str(d: u64) -> (r: &'static str)
    requires
        d < 16,
    ensures
        r@ == seq![digit_char(d as nat)],
{
    let r: &'static str = match d {
        0 => "0",
        1 => "1",
        2 => "2",
        3 => "3",
        4 => "4",
        5 => "5",
        6 => "6",
        7 => "7",
        8 => "8",
        9 => "9",
        10 => "a",
        11 => "b",
        12 => "c",
        13 => "d",
        14 => "e",
        _ => "f",
    };
    proof {
        reveal_strlit("0");
        reveal_strlit("1");
        reveal_strlit("2");
        reveal_strlit("3");
        reveal_strlit("4");
        reveal_strlit("5");
        reveal_strlit("6");
        reveal_strlit("7");
        reveal_strlit("8");
        reveal_strlit("9");
        reveal_strlit("a");
        reveal_strlit("b");
        reveal_strlit("c");
        reveal_strlit("d");
        reveal_strlit("e");
        reveal_strlit("f");
        assert(r@ =~= seq![digit_char(d as nat)]);
    }
    r
}

/// Appends the decimal digits of `n` to `out`.
pub fn push_dec(out: &mut String, n: u64)
    ensures
        final(out)@ == old(out)@ + dec_digits(n as nat),
    decreases n,
{
    if n < 10 {
        out.append(digit_str(n));
    } else {
        push_dec(out, n / 10);
        out.append(digit_str(n % 10));
    }
    proof {
        assert(out@ =~= old(out)@ + dec_digits(n as nat));
    }
}

/// Appends `width` zero-padded hexadecimal digits of `n` to `out`.
pub fn push_hex_padded(out: &mut String, n: u64, width: usize)
    ensures
        final(out)@ == old(out)@ + hex_padded(n as nat, width as nat),
    decreases width,
{
    if width > 0 {
        push_hex_padded(out, n / 16, width - 1);
        out.append(digit_str(n % 16));
    }
    proof {
        assert(out@ =~= old(out)@ + hex_padded(n as nat, width as nat));
    }
}

/// Appends `n` blank spaces to `out`.
pub fn push_spaces(out: &mut String, n: usize)
    ensures
        final(out)@ == old(out)@ + spaces(n as nat),
{
    let mut i: usize = 0;
    while i < n
        invariant
            i <= n,
            out@ == old(out)@ + spaces(i as nat),
        decreases n - i,
    {
        out.append(" ");
        i = i + 1;
        proof {
            reveal_strlit(" ");
            assert(out@ =~= old(out)@ + spaces(i as nat));
        }
    }
}

/// Appends the decimal digits of `n` right-aligned to at least four
/// characters, as `aligned4` says.
pub fn push_aligned4(out: &mut String, n: u64)
    ensures
        final(out)@ == old(out)@ + aligned4(n as nat),
{
    proof {
        lemma_dec_digits_len(n as nat);
    }
    if n < 10 {
        push_spaces(out, 3);
    } else if n < 100 {
        push_spaces(out, 2);
    } else if n < 1000 {
        push_spaces(out, 1);
    }
    push_dec(out, n);
    proof {
        assert(out@ =~= old(out)@ + aligned4(n as nat));
    }
}

} // verus!
