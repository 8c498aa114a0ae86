//! Verified text building for the disassembler: decimal rendering of
//! unsigned integers and fixed-width padding.

use vstd::prelude::*;
use vstd::string::StrSliceExecFns;
use vstd::string::StringExecFns;

verus! {

/// The decimal digit character for `d`, which must lie in `0..=9`.
pub open spec fn dec_digit(d: int) -> char {
    if d == 0 {
        '0'
    } else if d == 1 {
        '1'
    } else if d == 2 {
        '2'
    } else if d == 3 {
        '3'
    } else if d == 4 {
        '4'
    } else if d == 5 {
        '5'
    } else if d == 6 {
        '6'
    } else if d == 7 {
        '7'
    } else if d == 8 {
        '8'
    } else {
        '9'
    }
}

/// The decimal rendering of a non-negative integer, without padding or
/// sign: most significant digit first, a single `'0'` for zero.
pub open spec fn dec_spec(n: int) -> Seq<char>
    decreases n,
{
    if n < 10 {
        seq![dec_digit(n)]
    } else {
        dec_spec(n / 10).push(dec_digit(n % 10))
    }
}

/// `s` right-aligned in a field of `width` characters, filled with `fill`
/// on the left; `s` unchanged when it already fills the field.
pub open spec fn pad_left(fill: char, width: int, s: Seq<char>) -> Seq<char> {
    if s.len() >= width {
        s
    } else {
        Seq::new((width - s.len()) as nat, |i: int| fill) + s
    }
}

/// `s` left-aligned in a field of `width` characters, filled with `fill`
/// on the right; `s` unchanged when it already fills the field.
pub open spec fn pad_right(fill: char, width: int, s: Seq<char>) -> Seq<char> {
    if s.len() >= width {
        s
    } else {
        s + Seq::new((width - s.len()) as nat, |i: int| fill)
    }
}

/// The single-character string for one decimal digit.
fn digit_str(d: u64) -> (r: &'static str)
    requires
        d < 10,
    ensures
        r@ == seq![dec_digit(d as int)],
{
    proof {
        reveal_strlit("0");
        reveal_strlit("1");
        reveal_strlit("2");
        reveal_strlit("3");
        reveal_strlit("4");
        reveal_strlit("5");
        reveal_strlit("6");
        reveal_strlit("7");
        reveal_strlit("8");
        reveal_strlit("9");
    }
    let r: &'static str = match d {
        0 => "0",
        1 => "1",
        2 => "2",
        3 => "3",
        4 => "4",
        5 => "5",
        6 => "6",
        7 => "7",
        8 => "8",
        _ => "9",
    };
    assert(r@ =~= seq![dec_digit(d as int)]);
    r
}

/// Appends the decimal rendering of `n` to `out`.
pub fn append_dec(out: &mut String, n: u64)
    ensures
        final(out)@ == old(out)@ + dec_spec(n as int),
    decreases n,
{
    if n >= 10 {
        append_dec(out, n / 10);
    }
    out.append(digit_str(n % 10));
    proof {
        assert(out@ =~= old(out)@ + dec_spec(n as int));
    }
}

/// The number of characters `dec_spec(n)` holds.
fn dec_width(n: u64) -> (w: usize)
    ensures
        w == dec_spec(n as int).len(),
    decreases n,
{
    if n < 10 {
        1
    } else {
        let rest: usize = dec_width(n / 10);
        proof {
            lemma_pow10_20();
            lemma_dec_len_upper((n / 10) as int, 20);
        }
        rest + 1
    }
}

/// Ten to the `k`.
spec fn pow10(k: nat) -> int
    decreases k,
{
    if k == 0 {
        1
    } else {
        10 * pow10((k - 1) as nat)
    }
}

proof fn lemma_pow10_pos(k: nat)
    ensures
        pow10(k) >= 1,
    decreases k,
{
    if k > 0 {
        lemma_pow10_pos((k - 1) as nat);
    }
}

proof fn lemma_pow10_20()
    ensures
        pow10(20) == 100000000000000000000,
{
    assert(pow10(0) == 1);
    assert(pow10(1) == 10);
    assert(pow10(2) == 100);
    assert(pow10(3) == 1000);
    assert(pow10(4) == 10000);
    assert(pow10(5) == 100000);
    assert(pow10(6) == 1000000);
    assert(pow10(7) == 10000000);
    assert(pow10(8) == 100000000);
    assert(pow10(9) == 1000000000);
    assert(pow10(10) == 10000000000);
    assert(pow10(11) == 100000000000);
    assert(pow10(12) == 1000000000000);
    assert(pow10(13) == 10000000000000);
    assert(pow10(14) == 100000000000000);
    assert(pow10(15) == 1000000000000000);
    assert(pow10(16) == 10000000000000000);
    assert(pow10(17) == 100000000000000000);
    assert(pow10(18) == 1000000000000000000);
    assert(pow10(19) == 10000000000000000000);
    assert(pow10(20) == 100000000000000000000);
}

/// A number below `10^k` renders in at most `k` decimal digits.
proof fn lemma_dec_len_upper(n: int, k: nat)
    requires
        0 <= n < pow10(k),
        k >= 1,
    ensures
        dec_spec(n).len() <= k,
    decreases n,
{
    if n >= 10 {
        assert(pow10(k) == 10 * pow10((k - 1) as nat));
        lemma_pow10_pos((k - 1) as nat);
        if k == 1 {
            assert(pow10(1nat) == 10 * pow10(0nat));
            assert(false);
        }
        assert(n / 10 < pow10((k - 1) as nat)) by (nonlinear_arith)
            requires
                n < 10 * pow10((k - 1) as nat),
                pow10((k - 1) as nat) >= 1,
                n >= 10,
        ;
        lemma_dec_len_upper(n / 10, (k - 1) as nat);
    }
}

/// Appends the decimal rendering of `n`, right-aligned in a field of
/// `width` characters filled with `fill` on the left.
fn append_dec_padded(out: &mut String, fill: &str, n: u64, width: usize)
    requires
        fill@.len() == 1,
    ensures
        final(out)@ == old(out)@ + pad_left(fill@[0], width as int, dec_spec(n as int)),
{
    let ghost base: Seq<char> = out@;
    let w: usize = dec_width(n);
    let mut i: usize = w;
    while i < width
        invariant
            fill@.len() == 1,
            w <= i,
            i <= width || i == w,
            out@ == base + Seq::new((i - w) as nat, |j: int| fill@[0]),
        decreases width - i,
    {
        out.append(fill);
        proof {
            assert(out@ =~= base + Seq::new((i + 1 - w) as nat, |j: int| fill@[0]));
        }
        i = i + 1;
    }
    append_dec(out, n);
    proof {
        assert(out@ =~= base + pad_left(fill@[0], width as int, dec_spec(n as int)));
    }
}

/// Appends the decimal rendering of `n`, right-aligned in a field of
/// `width` characters filled with spaces.
pub fn append_dec_spaces(out: &mut String, n: u64, width: usize)
    ensures
        final(out)@ == old(out)@ + pad_left(' ', width as int, dec_spec(n as int)),
{
    proof {
        reveal_strlit(" ");
    }
    assert(" "@ =~= seq![' ']);
    append_dec_padded(out, " ", n, width);
}

/// Appends the decimal rendering of `n`, right-aligned in a field of
/// `width` characters filled with zeros.
pub fn append_dec_zeros(out: &mut String, n: u64, width: usize)
    ensures
        final(out)@ == old(out)@ + pad_left('0', width as int, dec_spec(n as int)),
{
    proof {
        reveal_strlit("0");
    }
    assert("0"@ =~= seq!['0']);
    append_dec_padded(out, "0", n, width);
}

/// Appends `s`, left-aligned in a field of `width` characters filled with
/// spaces on the right.
pub fn append_str_padded(out: &mut String, s: &str, width: usize)
    ensures
        final(out)@ == old(out)@ + pad_right(' ', width as int, s@),
{
    let ghost base: Seq<char> = out@;
    let w: usize = s.unicode_len();
    out.append(s);
    let mut i: usize = w;
    while i < width
        invariant
            w == s@.len(),
            w <= i,
            i <= width || i == w,
            out@ == base + s@ + Seq::new((i - w) as nat, |j: int| ' '),
        decreases width - i,
    {
        out.append(" ");
        proof {
            reveal_strlit(" ");
            assert(" "@ =~= seq![' ']);
            assert(out@ =~= base + s@ + Seq::new((i + 1 - w) as nat, |j: int| ' '));
        }
        i = i + 1;
    }
    proof {
        assert(out@ =~= base + pad_right(' ', width as int, s@));
    }
}

} // verus!
