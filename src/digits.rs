//! ASCII renderings of numbers (hexadecimal and decimal) used by the wire
//! format, together with the matching decoders.

use vstd::prelude::*;

verus! {

/// The ASCII character of one hexadecimal digit, upper case.
pub open spec fn hex_digit(n: u8) -> u8
    recommends
        n < 16,
{
    if n < 10 {
        (0x30 + n) as u8
    } else {
        (0x37 + n) as u8
    }
}

/// Whether `b` is an ASCII hexadecimal digit (either case).
pub open spec fn is_hex_digit(b: u8) -> bool {
    (0x30 <= b && b <= 0x39) || (0x41 <= b && b <= 0x46) || (0x61 <= b && b <= 0x66)
}

/// The value of an ASCII hexadecimal digit.
pub open spec fn hex_digit_value(b: u8) -> nat {
    if 0x30 <= b && b <= 0x39 {
        (b - 0x30) as nat
    } else if 0x41 <= b && b <= 0x46 {
        (b - 0x37) as nat
    } else {
        (b - 0x57) as nat
    }
}

/// The value of a run of hexadecimal digits, most significant first.
pub open spec fn hex_value(d: Seq<u8>) -> nat
    decreases d.len(),
{
    if d.len() == 0 {
        0
    } else {
        hex_value(d.drop_last()) * 16 + hex_digit_value(d.last())
    }
}

/// A byte as two hexadecimal digits, zero padded on the left.
pub open spec fn hex_byte(b: u8) -> Seq<u8> {
    seq![hex_digit(b / 16), hex_digit(b % 16)]
}

/// A byte as hexadecimal digits, padded on the right with `0` to a width of
/// two: a value below 16 is written as its one digit followed by `0`.
pub open spec fn hex_byte_right_padded(b: u8) -> Seq<u8> {
    if b < 16 {
        seq![hex_digit(b), 0x30u8]
    } else {
        hex_byte(b)
    }
}

/// A 16-bit value as four hexadecimal digits, zero padded on the left.
pub open spec fn hex_word(n: u16) -> Seq<u8> {
    seq![
        hex_digit((n / 4096) as u8),
        hex_digit(((n / 256) % 16) as u8),
        hex_digit(((n / 16) % 16) as u8),
        hex_digit((n % 16) as u8),
    ]
}

/// Whether `b` is an ASCII decimal digit.
pub open spec fn is_decimal_digit(b: u8) -> bool {
    0x30 <= b && b <= 0x39
}

/// The decimal digits of `n`, most significant first, without padding.
pub open spec fn decimal_digits(n: nat) -> Seq<u8>
    decreases n,
{
    if n < 10 {
        seq![(0x30 + n) as u8]
    } else {
        decimal_digits(n / 10).push((0x30 + n % 10) as u8)
    }
}

/// `n` in decimal, zero padded on the left to at least `width` characters.
pub open spec fn decimal_padded(n: nat, width: nat) -> Seq<u8> {
    let d = decimal_digits(n);
    if d.len() < width {
        Seq::new((width - d.len()) as nat, |i: int| 0x30u8) + d
    } else {
        d
    }
}

/// Exec counterpart of [`hex_digit`].
pub fn hex_digit_of(n: u8) -> (r: u8)
    requires
        n < 16,
    ensures
        r == hex_digit(n),
        is_hex_digit(r),
        hex_digit_value(r) == n,
{
    if n < 10 {
        0x30 + n
    } else {
        0x37 + n
    }
}

/// Appends [`hex_byte`] of `b`.
pub fn push_hex_byte(out: &mut Vec<u8>, b: u8)
    ensures
        final(out)@ == old(out)@ + hex_byte(b),
{
    out.push(hex_digit_of(b / 16));
    out.push(hex_digit_of(b % 16));
    assert(final(out)@ =~= old(out)@ + hex_byte(b));
}


/// Appends [`hex_byte_right_padded`] of `b`.
pub fn push_hex_byte_right_padded(out: &mut Vec<u8>, b: u8)
    ensures
        final(out)@ == old(out)@ + hex_byte_right_padded(b),
{
    if b < 16 {
        out.push(hex_digit_of(b));
        out.push(0x30);
    } else {
        out.push(hex_digit_of(b / 16));
        out.push(hex_digit_of(b % 16));
    }
    assert(final(out)@ =~= old(out)@ + hex_byte_right_padded(b));
}

/// Appends [`hex_word`] of `n`.
pub fn push_hex_word(out: &mut Vec<u8>, n: u16)
    ensures
        final(out)@ == old(out)@ + hex_word(n),
{
    out.push(hex_digit_of((n / 4096) as u8));
    out.push(hex_digit_of(((n / 256) % 16) as u8));
    out.push(hex_digit_of(((n / 16) % 16) as u8));
    out.push(hex_digit_of((n % 16) as u8));
    assert(final(out)@ =~= old(out)@ + hex_word(n));
}

/// The decimal digits of `n`, as [`decimal_digits`] gives them.
fn decimal_digits_of(n: u16) -> (r: Vec<u8>)
    ensures
        r@ == decimal_digits(n as nat),
{
    let mut v: u16 = n;
    let mut tail: Vec<u8> = Vec::new();
    while v >= 10
        invariant
            decimal_digits(n as nat) == decimal_digits(v as nat) + tail@,
        decreases v,
    {
        let d: u8 = (v % 10) as u8;
        let ghost before = tail@;
        tail.insert(0, 0x30 + d);
        proof {
            assert(decimal_digits(v as nat) == decimal_digits((v / 10) as nat).push((0x30 + d) as u8));
            assert(decimal_digits(v as nat) + before =~= decimal_digits((v / 10) as nat) + tail@);
        }
        v = v / 10;
    }
    let ghost before = tail@;
    tail.insert(0, 0x30 + v as u8);
    assert(tail@ =~= decimal_digits(v as nat) + before);
    tail
}

/// Appends [`decimal_padded`] of `n` to the width `width`.
pub fn push_decimal_padded(out: &mut Vec<u8>, n: u16, width: usize)
    ensures
        final(out)@ == old(out)@ + decimal_padded(n as nat, width as nat),
{
    let digits = decimal_digits_of(n);
    let ghost start = out@;
    let mut pad: usize = 0;
    if digits.len() < width {
        pad = width - digits.len();
    }
    let mut i: usize = 0;
    while i < pad
        invariant
            i <= pad,
            out@ =~= start + Seq::new(i as nat, |k: int| 0x30u8),
        decreases pad - i,
    {
        out.push(0x30);
        i = i + 1;
    }
    let mut j: usize = 0;
    while j < digits.len()
        invariant
            j <= digits@.len(),
            out@ =~= start + Seq::new(pad as nat, |k: int| 0x30u8) + digits@.subrange(0, j as int),
        decreases digits@.len() - j,
    {
        out.push(digits[j]);
        j = j + 1;
    }
    assert(digits@.subrange(0, digits@.len() as int) =~= digits@);
    if digits.len() < width {
        assert(out@ =~= start + decimal_padded(n as nat, width as nat));
    } else {
        assert(Seq::new(0 as nat, |k: int| 0x30u8) + digits@ =~= digits@);
        assert(out@ =~= start + decimal_padded(n as nat, width as nat));
    }
}

/// Two hexadecimal digits read back give the byte they were written from.
pub proof fn lemma_hex_byte_value(b: u8)
    ensures
        hex_byte(b).len() == 2,
        is_hex_digit(hex_byte(b)[0]),
        is_hex_digit(hex_byte(b)[1]),
        hex_value(hex_byte(b)) == b,
{
    let d = hex_byte(b);
    lemma_hex_digit(b / 16);
    lemma_hex_digit(b % 16);
    let first = d.drop_last();
    assert(first.drop_last() =~= Seq::<u8>::empty());
    assert(first.last() == d[0]);
    assert(hex_value(first) == hex_value(first.drop_last()) * 16 + hex_digit_value(first.last()));
    assert(hex_value(first) == hex_digit_value(d[0]));
}

/// A digit written by [`hex_digit`] is a hexadecimal digit with that value.
pub proof fn lemma_hex_digit(n: u8)
    requires
        n < 16,
    ensures
        is_hex_digit(hex_digit(n)),
        hex_digit_value(hex_digit(n)) == n,
{
}

/// The four characters of a [`hex_word`] are hexadecimal digits.
pub proof fn lemma_hex_word_digits(n: u16)
    ensures
        hex_word(n).len() == 4,
        forall|i: int| 0 <= i < 4 ==> is_hex_digit(#[trigger] hex_word(n)[i]),
{
}

/// Four hexadecimal digits read back give the value they were written from.
pub proof fn lemma_hex_word_value(n: u16)
    ensures
        hex_value(hex_word(n)) == n,
{
    let w = hex_word(n);
    let a = (n / 4096) as u8;
    let b = ((n / 256) % 16) as u8;
    let c = ((n / 16) % 16) as u8;
    let d = (n % 16) as u8;
    lemma_hex_digit(a);
    lemma_hex_digit(b);
    lemma_hex_digit(c);
    lemma_hex_digit(d);
    let w3 = w.drop_last();
    let w2 = w3.drop_last();
    let w1 = w2.drop_last();
    assert(w1.drop_last() =~= Seq::<u8>::empty());
    assert(w1.last() == w[0]);
    assert(w2.last() == w[1]);
    assert(w3.last() == w[2]);
    assert(hex_value(w1) == hex_value(w1.drop_last()) * 16 + hex_digit_value(w1.last()));
    assert(hex_value(w1) == a as nat);
    assert(hex_value(w2) == a as nat * 16 + b as nat);
    assert(hex_value(w3) == (a as nat * 16 + b as nat) * 16 + c as nat);
    assert(hex_value(w) == ((a as nat * 16 + b as nat) * 16 + c as nat) * 16 + d as nat);
    assert((n / 4096) * 4096 + ((n / 256) % 16) * 256 + ((n / 16) % 16) * 16 + n % 16 == n)
        by (bit_vector);
}

/// A number below one hundred, padded to two places, is its tens digit
/// followed by its units digit.
pub proof fn lemma_two_decimal_places(n: nat)
    requires
        n < 100,
    ensures
        decimal_padded(n, 2) == seq![(0x30 + n / 10) as u8, (0x30 + n % 10) as u8],
{
    reveal_with_fuel(decimal_digits, 2);
    if n < 10 {
        assert(decimal_padded(n, 2) =~= seq![(0x30 + n / 10) as u8, (0x30 + n % 10) as u8]);
    } else {
        assert(decimal_digits(n / 10) == seq![(0x30 + n / 10) as u8]);
        assert(decimal_padded(n, 2) =~= seq![(0x30 + n / 10) as u8, (0x30 + n % 10) as u8]);
    }
}


/// Exec counterpart of [`is_hex_digit`].
pub fn is_hex_digit_byte(b: u8) -> (r: bool)
    ensures
        r == is_hex_digit(b),
{
    (0x30 <= b && b <= 0x39) || (0x41 <= b && b <= 0x46) || (0x61 <= b && b <= 0x66)
}

/// The value of the hexadecimal digits of `s` from `from` to `to`.
pub fn hex_value_at(s: &[u8], from: usize, to: usize) -> (r: u32)
    requires
        from <= to <= s@.len(),
        to - from <= 4,
        forall|i: int| from <= i < to ==> is_hex_digit(#[trigger] s@[i]),
    ensures
        r == hex_value(s@.subrange(from as int, to as int)),
{
    let mut i: usize = from;
    let mut v: u32 = 0;
    while i < to
        invariant
            from <= i <= to,
            to <= s@.len(),
            to - from <= 4,
            forall|k: int| from <= k < to ==> is_hex_digit(#[trigger] s@[k]),
            v == hex_value(s@.subrange(from as int, i as int)),
            v < pow16((i - from) as nat),
        decreases to - i,
    {
        let b = s[i];
        let d: u32 = if 0x30 <= b && b <= 0x39 {
            (b - 0x30) as u32
        } else if 0x41 <= b && b <= 0x46 {
            (b - 0x37) as u32
        } else {
            (b - 0x57) as u32
        };
        proof {
            let next = s@.subrange(from as int, i + 1);
            assert(next.drop_last() =~= s@.subrange(from as int, i as int));
            assert(v * 16 + d < pow16((i - from) as nat) * 16) by (nonlinear_arith)
                requires
                    v < pow16((i - from) as nat),
                    d < 16,
            ;
            assert(pow16((i + 1 - from) as nat) == pow16((i - from) as nat) * 16);
        }
        v = v * 16 + d;
        i = i + 1;
    }
    v
}

/// Sixteen to the power `n`, for `n` up to four.
spec fn pow16(n: nat) -> nat {
    if n == 0 {
        1
    } else if n == 1 {
        16
    } else if n == 2 {
        256
    } else if n == 3 {
        4096
    } else {
        65536
    }
}

/// The number of hexadecimal digits in `s` from position `p` on, up to the
/// first byte that is not one.
pub open spec fn hex_run_len(s: Seq<u8>, p: int) -> nat
    decreases s.len() - p,
{
    if 0 <= p < s.len() && is_hex_digit(s[p]) {
        1 + hex_run_len(s, p + 1)
    } else {
        0
    }
}

/// The byte that the hexadecimal run of `s` at `p` denotes: none where the run
/// is empty or its value exceeds 0xFF.
pub open spec fn hex_run_byte(s: Seq<u8>, p: int) -> Option<u8> {
    let n = hex_run_len(s, p);
    let v = hex_value(s.subrange(p, p + n));
    if n > 0 && v <= 0xFF {
        Some(v as u8)
    } else {
        None
    }
}

proof fn lemma_hex_run_bound(s: Seq<u8>, p: int)
    requires
        0 <= p <= s.len(),
    ensures
        p + hex_run_len(s, p) <= s.len(),
        forall|k: int| p <= k < p + hex_run_len(s, p) ==> is_hex_digit(#[trigger] s[k]),
    decreases s.len() - p,
{
    if p < s.len() && is_hex_digit(s[p]) {
        lemma_hex_run_bound(s, p + 1);
    }
}

/// Reads the run of hexadecimal digits at `p`: its length, and the byte it
/// denotes if it denotes one.
pub fn scan_hex_run(s: &[u8], p: usize) -> (r: (usize, Option<u8>))
    requires
        p <= s@.len(),
    ensures
        r.0 == hex_run_len(s@, p as int),
        p + r.0 <= s@.len(),
        r.1 == hex_run_byte(s@, p as int),
{
    proof {
        lemma_hex_run_bound(s@, p as int);
    }
    let mut i: usize = p;
    let mut v: u32 = 0;
    let mut over: bool = false;
    while i < s.len() && is_hex_digit_byte(s[i])
        invariant
            p <= i <= s@.len(),
            hex_run_len(s@, p as int) == (i - p) + hex_run_len(s@, i as int),
            !over ==> v == hex_value(s@.subrange(p as int, i as int)) && v <= 0xFF,
            over ==> hex_value(s@.subrange(p as int, i as int)) > 0xFF,
        decreases s@.len() - i,
    {
        let b = s[i];
        let d: u32 = if 0x30 <= b && b <= 0x39 {
            (b - 0x30) as u32
        } else if 0x41 <= b && b <= 0x46 {
            (b - 0x37) as u32
        } else {
            (b - 0x57) as u32
        };
        proof {
            let next = s@.subrange(p as int, i + 1);
            assert(next.drop_last() =~= s@.subrange(p as int, i as int));
            assert(hex_value(next) == hex_value(s@.subrange(p as int, i as int)) * 16 + d);
        }
        if !over {
            v = v * 16 + d;
            if v > 0xFF {
                over = true;
            }
        }
        i = i + 1;
    }
    let n: usize = i - p;
    if n > 0 && !over {
        (n, Some(v as u8))
    } else {
        (n, None)
    }
}

} // verus!
