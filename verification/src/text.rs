//! Text primitives for the snapshot format: fixed-width decimal numbers
//! and length-prefixed character runs, with round-trip proofs.

use vstd::prelude::*;
use vstd::std_specs::iter::IteratorSpec;

verus! {

broadcast use vstd::string::next_postcondition;

/// Ten to the power `w`.
pub open spec fn pow10(w: nat) -> nat
    decreases w,
{
    if w == 0 {
        1
    } else {
        10 * pow10((w - 1) as nat)
    }
}

/// The decimal digit character for a value below ten.
pub open spec fn digit_char(d: nat) -> char {
    if d == 0 {
        '0'
    } else if d == 1 {
        '1'
    } else if d == 2 {
        '2'
    } else if d == 3 {
        '3'
    } else if d == 4 {
        '4'
    } else if d == 5 {
        '5'
    } else if d == 6 {
        '6'
    } else if d == 7 {
        '7'
    } else if d == 8 {
        '8'
    } else {
        '9'
    }
}

/// The value of a decimal digit character; ten marks a non-digit.
pub open spec fn digit_val(c: char) -> nat {
    if c == '0' {
        0
    } else if c == '1' {
        1
    } else if c == '2' {
        2
    } else if c == '3' {
        3
    } else if c == '4' {
        4
    } else if c == '5' {
        5
    } else if c == '6' {
        6
    } else if c == '7' {
        7
    } else if c == '8' {
        8
    } else if c == '9' {
        9
    } else {
        10
    }
}

pub open spec fn is_digit(c: char) -> bool {
    digit_val(c) < 10
}

pub open spec fn all_digits(s: Seq<char>) -> bool {
    forall|i: int| 0 <= i < s.len() ==> is_digit(#[trigger] s[i])
}

/// `n` rendered as exactly `w` decimal digits, most significant first,
/// padded with leading zeros.
pub open spec fn spec_render_num(n: nat, w: nat) -> Seq<char>
    decreases w,
{
    if w == 0 {
        Seq::empty()
    } else {
        spec_render_num(n / 10, (w - 1) as nat).push(digit_char(n % 10))
    }
}

/// The value of a run of decimal digit characters.
pub open spec fn spec_parse_num(s: Seq<char>) -> nat
    decreases s.len(),
{
    if s.len() == 0 {
        0
    } else {
        spec_parse_num(s.drop_last()) * 10 + digit_val(s.last())
    }
}

proof fn lemma_digit_round_trip(d: nat)
    requires
        d < 10,
    ensures
        digit_val(digit_char(d)) == d,
{
}

pub proof fn lemma_render_shape(n: nat, w: nat)
    ensures
        spec_render_num(n, w).len() == w,
        all_digits(spec_render_num(n, w)),
    decreases w,
{
    if w > 0 {
        lemma_render_shape(n / 10, (w - 1) as nat);
        let s = spec_render_num(n, w);
        let prefix = spec_render_num(n / 10, (w - 1) as nat);
        assert forall|i: int| 0 <= i < s.len() implies is_digit(#[trigger] s[i]) by {
            if i < w - 1 {
                assert(s[i] == prefix[i]);
            } else {
                assert(s[i] == digit_char(n % 10));
            }
        }
    }
}

/// A fixed-width rendering parses back to the rendered value.
pub proof fn lemma_render_parse(n: nat, w: nat)
    requires
        n < pow10(w),
    ensures
        spec_parse_num(spec_render_num(n, w)) == n,
    decreases w,
{
    if w == 0 {
        assert(n == 0);
    } else {
        let prefix = spec_render_num(n / 10, (w - 1) as nat);
        let s = spec_render_num(n, w);
        lemma_render_shape(n / 10, (w - 1) as nat);
        assert(s.drop_last() =~= prefix);
        assert(n / 10 < pow10((w - 1) as nat)) by {
            assert(n < 10 * pow10((w - 1) as nat));
        }
        lemma_render_parse(n / 10, (w - 1) as nat);
        lemma_digit_round_trip(n % 10);
        assert(spec_parse_num(s) == (n / 10) * 10 + n % 10);
    }
}

pub proof fn lemma_pow10_mono(a: nat, b: nat)
    requires
        a <= b,
    ensures
        pow10(a) <= pow10(b),
    decreases b,
{
    if a < b {
        lemma_pow10_mono(a, (b - 1) as nat);
    }
}

/// Width of every length field in the snapshot format. Twenty decimal
/// digits hold every value a `usize` can take.
pub const LEN_WIDTH: usize = 20;

/// Width of a status code rendered for display: three digits.
pub const CODE_WIDTH: usize = 3;

pub proof fn lemma_pow10_len_width()
    ensures
        pow10(LEN_WIDTH as nat) == 0x56bc75e2d63100000,
{
    reveal_with_fuel(pow10, 21);
}

pub proof fn lemma_usize_fits_len_width()
    ensures
        usize::MAX < pow10(LEN_WIDTH as nat),
{
    lemma_pow10_len_width();
    assert(usize::MAX as nat <= u64::MAX as nat);
}

/// The decimal digit character, executable form.
pub fn digit_char_of(d: u8) -> (r: char)
    requires
        d < 10,
    ensures
        r == digit_char(d as nat),
{
    if d == 0 {
        '0'
    } else if d == 1 {
        '1'
    } else if d == 2 {
        '2'
    } else if d == 3 {
        '3'
    } else if d == 4 {
        '4'
    } else if d == 5 {
        '5'
    } else if d == 6 {
        '6'
    } else if d == 7 {
        '7'
    } else if d == 8 {
        '8'
    } else {
        '9'
    }
}

/// The value of a digit character, executable form; `None` on a non-digit.
pub fn digit_val_of(c: char) -> (r: Option<u8>)
    ensures
        match r {
            Some(d) => d < 10 && digit_val(c) == d as nat,
            None => !is_digit(c),
        },
{
    if c == '0' {
        Some(0)
    } else if c == '1' {
        Some(1)
    } else if c == '2' {
        Some(2)
    } else if c == '3' {
        Some(3)
    } else if c == '4' {
        Some(4)
    } else if c == '5' {
        Some(5)
    } else if c == '6' {
        Some(6)
    } else if c == '7' {
        Some(7)
    } else if c == '8' {
        Some(8)
    } else if c == '9' {
        Some(9)
    } else {
        None
    }
}

/// Appends `n` as exactly `w` decimal digits to `out`.
pub fn push_num(out: &mut Vec<char>, n: u128, w: usize)
    ensures
        final(out)@ == old(out)@ + spec_render_num(n as nat, w as nat),
    decreases w,
{
    if w == 0 {
        assert(out@ =~= out@ + spec_render_num(n as nat, 0));
    } else {
        let d: u8 = (n % 10) as u8;
        push_num(out, n / 10, w - 1);
        out.push(digit_char_of(d));
        assert(out@ =~= old(out)@ + spec_render_num(n as nat, w as nat));
    }
}

/// Reads exactly `w` decimal digits starting at `pos`; `None` if any
/// character there is not a digit.
pub fn parse_num(cs: &Vec<char>, pos: usize, w: usize) -> (r: Option<u128>)
    requires
        pos + w <= cs@.len(),
        w <= LEN_WIDTH,
    ensures
        match r {
            Some(v) => {
                &&& all_digits(cs@.subrange(pos as int, pos + w))
                &&& v as nat == spec_parse_num(cs@.subrange(pos as int, pos + w))
                &&& (v as nat) < pow10(w as nat)
            },
            None => !all_digits(cs@.subrange(pos as int, pos + w)),
        },
{
    let total: usize = cs.len();
    let mut acc: u128 = 0;
    let mut i: usize = 0;
    proof {
        assert(cs@.subrange(pos as int, pos as int) =~= Seq::<char>::empty());
    }
    while i < w
        invariant
            total == cs@.len(),
            pos + w <= cs@.len(),
            w <= LEN_WIDTH,
            0 <= i <= w,
            all_digits(cs@.subrange(pos as int, pos + i)),
            acc as nat == spec_parse_num(cs@.subrange(pos as int, pos + i)),
            (acc as nat) < pow10(i as nat),
        decreases w - i,
    {
        let c = cs[pos + i];
        match digit_val_of(c) {
            Some(d) => {
                proof {
                    let before = cs@.subrange(pos as int, pos + i);
                    let after = cs@.subrange(pos as int, pos + i + 1);
                    assert(after.drop_last() =~= before);
                    assert(after.last() == c);
                    lemma_pow10_mono((i + 1) as nat, LEN_WIDTH as nat);
                    lemma_pow10_len_width();
                    assert(acc as nat * 10 + digit_val(c) < pow10((i + 1) as nat)) by {
                        assert(acc as nat <= pow10(i as nat) - 1);
                        assert(acc as nat * 10 <= (pow10(i as nat) - 1) * 10) by (nonlinear_arith)
                            requires
                                acc as nat <= pow10(i as nat) - 1,
                        ;
                        assert(pow10((i + 1) as nat) == 10 * pow10(i as nat));
                    }
                }
                acc = acc * 10 + (d as u128);
                i = i + 1;
            },
            None => {
                proof {
                    let whole = cs@.subrange(pos as int, pos + w);
                    assert(whole[i as int] == c);
                    assert(!is_digit(whole[i as int]));
                }
                return None;
            },
        }
    }
    proof {
        assert(cs@.subrange(pos as int, pos + i) =~= cs@.subrange(pos as int, pos + w));
    }
    Some(acc)
}

/// Appends every character of `s` to `out`, in order.
pub fn push_chars(out: &mut Vec<char>, s: &str)
    ensures
        final(out)@ == old(out)@ + s@,
{
    let ghost base = out@;
    let mut it = s.chars();
    proof {
        vstd::string::axiom_spec_iter(s);
        assert(it.remaining() =~= s@.skip(out@.len() - base.len()));
        assert(out@ =~= base + s@.take(out@.len() - base.len()));
    }
    loop
        invariant
            base == old(out)@,
            it.obeys_prophetic_iter_laws(),
            base.len() <= out@.len() <= base.len() + s@.len(),
            out@ == base + s@.take(out@.len() - base.len()),
            it.remaining() =~= s@.skip(out@.len() - base.len()),
        decreases s@.len() - (out@.len() - base.len()),
    {
        let ghost k = out@.len() - base.len();
        match it.next() {
            Some(c) => {
                proof {
                    assert(s@.skip(k).len() > 0);
                    assert(c == s@.skip(k)[0]);
                    assert(c == s@[k]);
                }
                out.push(c);
                proof {
                    assert(out@ =~= base + s@.take(k + 1));
                    assert(it.remaining() =~= s@.skip(k + 1));
                }
            },
            None => {
                proof {
                    assert(s@.skip(k).len() == 0);
                    assert(k == s@.len());
                    assert(s@.take(k) =~= s@);
                    assert(out@ == base + s@.take(k));
                    assert(base == old(out)@);
                }
                return ;
            },
        }
    }
}

/// Relies on `String::push`: appends exactly the given character.
#[verifier::external_body]
fn push_char(s: &mut String, c: char)
    ensures
        final(s)@ == old(s)@.push(c),
{
    s.push(c);
}

/// Builds a string from the characters of `cs` between `from` and `to`.
pub fn string_from_range(cs: &Vec<char>, from: usize, to: usize) -> (r: String)
    requires
        from <= to <= cs@.len(),
    ensures
        r@ == cs@.subrange(from as int, to as int),
{
    let mut s = String::new();
    let mut i: usize = from;
    proof {
        assert(s@ =~= cs@.subrange(from as int, from as int));
    }
    while i < to
        invariant
            from <= i <= to <= cs@.len(),
            s@ == cs@.subrange(from as int, i as int),
        decreases to - i,
    {
        push_char(&mut s, cs[i]);
        i = i + 1;
        proof {
            assert(s@ =~= cs@.subrange(from as int, i as int));
        }
    }
    s
}

/// The characters of `s`, as a vector.
pub fn chars_of(s: &str) -> (r: Vec<char>)
    ensures
        r@ == s@,
{
    let mut v: Vec<char> = Vec::new();
    push_chars(&mut v, s);
    v
}

} // verus!
