//! Character-level codecs for identifier text: unsigned decimal numbers and
//! fixed-width hexadecimal byte strings.
use vstd::prelude::*;

verus! {

pub open spec fn is_digit(c: char) -> bool {
    48 <= c as u32 <= 57
}

pub open spec fn digit_value(c: char) -> int {
    c as u32 - 48
}

/// The character of a decimal or hexadecimal digit value (lowercase letters).
pub open spec fn digit_char(k: int) -> char {
    if k < 10 {
        ((48 + k) as u8) as char
    } else {
        ((87 + k) as u8) as char
    }
}

pub open spec fn all_digits(s: Seq<char>) -> bool {
    forall|i: int| 0 <= i < s.len() ==> is_digit(#[trigger] s[i])
}

/// The number written by a string of decimal digits.
pub open spec fn decimal_value(s: Seq<char>) -> nat
    decreases s.len(),
{
    if s.len() == 0 {
        0
    } else {
        decimal_value(s.drop_last()) * 10 + digit_value(s.last()) as nat
    }
}

/// The text is a decimal number that fits in 64 bits.
pub open spec fn is_u64_text(s: Seq<char>) -> bool {
    s.len() > 0 && all_digits(s) && decimal_value(s) <= u64::MAX
}

/// Why a text is not a 64-bit decimal number, in std's own wording.
pub open spec fn int_reason(s: Seq<char>) -> Seq<char> {
    if s.len() == 0 {
        "cannot parse integer from empty string"@
    } else if !all_digits(s) {
        "invalid digit found in string"@
    } else {
        "number too large to fit in target type"@
    }
}

/// The canonical decimal text of a number: no sign, no leading zeros.
pub open spec fn decimal_text(n: nat) -> Seq<char>
    decreases n,
{
    if n < 10 {
        seq![digit_char(n as int)]
    } else {
        decimal_text(n / 10).push(digit_char((n % 10) as int))
    }
}

pub open spec fn is_hex_digit(c: char) -> bool {
    (48 <= c as u32 <= 57) || (97 <= c as u32 <= 102) || (65 <= c as u32 <= 70)
}

pub open spec fn hex_value(c: char) -> int {
    if c as u32 <= 57 {
        c as u32 - 48
    } else if c as u32 <= 70 {
        c as u32 - 55
    } else {
        c as u32 - 87
    }
}

/// The text holds exactly `n` bytes as hexadecimal digits, in either case.
pub open spec fn is_hex_text(t: Seq<char>, n: nat) -> bool {
    t.len() == 2 * n && forall|i: int| 0 <= i < t.len() ==> is_hex_digit(#[trigger] t[i])
}

/// The bytes written by a string of hexadecimal digit pairs.
pub open spec fn hex_bytes(t: Seq<char>) -> Seq<u8> {
    Seq::new(t.len() / 2, |i: int| (hex_value(t[2 * i]) * 16 + hex_value(t[2 * i + 1])) as u8)
}

/// Why a text is not `n` bytes of hexadecimal.
pub open spec fn hex_reason(t: Seq<char>, n: nat) -> Seq<char> {
    if t.len() != 2 * n {
        "invalid input length"@
    } else {
        "invalid character"@
    }
}

/// The lowercase hexadecimal text of some bytes, two digits per byte.
pub open spec fn hex_text(b: Seq<u8>) -> Seq<char> {
    Seq::new(
        2 * b.len(),
        |i: int|
            if i % 2 == 0 {
                digit_char(b[i / 2] as int / 16)
            } else {
                digit_char(b[i / 2] as int % 16)
            },
    )
}

/// The text starts with the two characters `0x`.
pub open spec fn has_hex_prefix(s: Seq<char>) -> bool {
    s.len() >= 2 && s[0] == '0' && s[1] == 'x'
}

pub open spec fn prefixed_hex(b: Seq<u8>) -> Seq<char> {
    seq!['0', 'x'] + hex_text(b)
}

/// Relies on std's String::push: the character is appended.
#[verifier::external_body]
pub(crate) fn push_char(out: &mut String, c: char)
    ensures
        final(out)@ == old(out)@.push(c),
{
    out.push(c);
}

pub(crate) fn digit_to_char(k: u8) -> (c: char)
    requires
        k < 16,
    ensures
        c == digit_char(k as int),
{
    if k < 10 {
        (48 + k) as char
    } else {
        (87 + k) as char
    }
}

proof fn lemma_decimal_step(s: Seq<char>, c: char)
    requires
        is_digit(c),
    ensures
        decimal_value(s.push(c)) == decimal_value(s) * 10 + digit_value(c),
        decimal_value(s.push(c)) >= decimal_value(s),
{
    assert(s.push(c).drop_last() =~= s);
}

/// Reads a whole text as an unsigned 64-bit decimal number.
pub(crate) fn parse_u64(s: &str) -> (r: Option<u64>)
    ensures
        match r {
            Some(v) => is_u64_text(s@) && v == decimal_value(s@),
            None => !is_u64_text(s@),
        },
{
    let n = s.unicode_len();
    if n == 0 {
        return None;
    }
    let mut acc: u64 = 0;
    let mut too_large = false;
    let mut i: usize = 0;
    while i < n
        invariant
            n == s@.len(),
            0 <= i <= n,
            all_digits(s@.take(i as int)),
            !too_large ==> acc == decimal_value(s@.take(i as int)),
            too_large ==> decimal_value(s@.take(i as int)) > u64::MAX,
        decreases n - i,
    {
        let c = s.get_char(i);
        if !('0' <= c && c <= '9') {
            assert(!all_digits(s@)) by {
                assert(!is_digit(s@[i as int]));
            }
            return None;
        }
        proof {
            assert(s@.take(i + 1) =~= s@.take(i as int).push(c));
            lemma_decimal_step(s@.take(i as int), c);
        }
        let d = (c as u32 - 48) as u64;
        if !too_large {
            if acc > (u64::MAX - d) / 10 {
                too_large = true;
            } else {
                acc = acc * 10 + d;
            }
        }
        i = i + 1;
    }
    assert(s@.take(n as int) =~= s@);
    if too_large {
        None
    } else {
        Some(acc)
    }
}

/// Reads `2 * N` hexadecimal digits of a text, from `start` to its end, as bytes.
pub(crate) fn parse_hex<const N: usize>(s: &str, start: usize) -> (r: Option<[u8; N]>)
    requires
        start <= s@.len(),
    ensures
        match r {
            Some(b) => is_hex_text(s@.skip(start as int), N as nat) && b@ == hex_bytes(
                s@.skip(start as int),
            ),
            None => !is_hex_text(s@.skip(start as int), N as nat),
        },
{
    let n = s.unicode_len();
    let ghost t = s@.skip(start as int);
    let m = n - start;
    if m % 2 != 0 || m / 2 != N {
        return None;
    }
    let mut out: [u8; N] = [0u8; N];
    let mut i: usize = 0;
    while i < N
        invariant
            n == s@.len(),
            t == s@.skip(start as int),
            t.len() == 2 * N,
            start + 2 * N == n,
            0 <= i <= N,
            forall|j: int| 0 <= j < 2 * i ==> is_hex_digit(#[trigger] t[j]),
            forall|j: int| 0 <= j < i ==> out@[j] == #[trigger] hex_bytes(t)[j],
        decreases N - i,
    {
        let hi = s.get_char(start + 2 * i);
        let lo = s.get_char(start + 2 * i + 1);
        let hv = match hex_digit_value(hi) {
            Some(v) => v,
            None => {
                assert(!is_hex_digit(t[2 * i as int]));
                return None;
            },
        };
        let lv = match hex_digit_value(lo) {
            Some(v) => v,
            None => {
                assert(!is_hex_digit(t[2 * i + 1]));
                return None;
            },
        };
        out[i] = hv * 16 + lv;
        i = i + 1;
    }
    assert(out@ =~= hex_bytes(t));
    Some(out)
}

fn hex_digit_value(c: char) -> (r: Option<u8>)
    ensures
        match r {
            Some(v) => is_hex_digit(c) && v == hex_value(c) && v < 16,
            None => !is_hex_digit(c),
        },
{
    let k = c as u32;
    if 48 <= k && k <= 57 {
        Some((k - 48) as u8)
    } else if 65 <= k && k <= 70 {
        Some((k - 55) as u8)
    } else if 97 <= k && k <= 102 {
        Some((k - 87) as u8)
    } else {
        None
    }
}

/// Appends the decimal text of `n`.
pub(crate) fn write_decimal(out: &mut String, n: u64)
    ensures
        final(out)@ == old(out)@ + decimal_text(n as nat),
    decreases n,
{
    if n >= 10 {
        write_decimal(out, n / 10);
    }
    push_char(out, digit_to_char((n % 10) as u8));
    assert(out@ =~= old(out)@ + decimal_text(n as nat));
}

/// Appends `0x` and the lowercase hexadecimal text of the bytes.
pub(crate) fn write_prefixed_hex(out: &mut String, b: &[u8])
    ensures
        final(out)@ == old(out)@ + prefixed_hex(b@),
{
    let ghost start = out@;
    push_char(out, '0');
    push_char(out, 'x');
    let ghost base: int = start.len() as int + 2;
    assert(out@ =~= start + seq!['0', 'x']);
    let mut i: usize = 0;
    while i < b.len()
        invariant
            0 <= i <= b@.len(),
            base == start.len() + 2,
            out@.len() == base + 2 * i,
            out@.subrange(0, base) == start + seq!['0', 'x'],
            forall|j: int| 0 <= j < 2 * i ==> out@[base + j] == #[trigger] hex_text(b@)[j],
        decreases b@.len() - i,
    {
        let v = b[i];
        let ghost prev = out@;
        push_char(out, digit_to_char(v / 16));
        push_char(out, digit_to_char(v % 16));
        proof {
            assert(out@.subrange(0, base) =~= prev.subrange(0, base));
            assert forall|j: int| 0 <= j < 2 * (i + 1) implies out@[base + j]
                == #[trigger] hex_text(b@)[j] by {
                if j < 2 * i {
                    assert(out@[base + j] == prev[base + j]);
                } else if j == 2 * i {
                    assert(j / 2 == i && j % 2 == 0);
                } else {
                    assert(j / 2 == i && j % 2 == 1);
                }
            }
        }
        i = i + 1;
    }
    assert(out@ =~= start + prefixed_hex(b@)) by {
        assert forall|j: int| 0 <= j < out@.len() implies out@[j] == (start + prefixed_hex(
            b@,
        ))[j] by {
            if j < base {
                assert(out@[j] == out@.subrange(0, base)[j]);
            } else {
                assert(out@[base + (j - base)] == hex_text(b@)[j - base]);
            }
        }
    }
}


proof fn lemma_digit_char(k: int)
    requires
        0 <= k < 16,
    ensures
        is_hex_digit(digit_char(k)),
        hex_value(digit_char(k)) == k,
        digit_char(k) != 'x',
        k < 10 ==> is_digit(digit_char(k)) && digit_value(digit_char(k)) == k,
{
}

/// The decimal text of a number is a non-empty digit string that reads back
/// as the number.
pub proof fn lemma_decimal_text(n: nat)
    ensures
        decimal_text(n).len() > 0,
        all_digits(decimal_text(n)),
        decimal_value(decimal_text(n)) == n,
    decreases n,
{
    let s = decimal_text(n);
    if n < 10 {
        lemma_digit_char(n as int);
        assert(s.drop_last() =~= Seq::<char>::empty());
        assert(decimal_value(Seq::<char>::empty()) == 0);
    } else {
        lemma_decimal_text(n / 10);
        lemma_digit_char((n % 10) as int);
        let t = decimal_text(n / 10);
        assert(s.drop_last() =~= t);
        assert(s.last() == digit_char((n % 10) as int));
        assert(decimal_value(s) == decimal_value(t) * 10 + digit_value(s.last()));
        assert((n / 10) * 10 + n % 10 == n) by (nonlinear_arith);
        assert forall|i: int| 0 <= i < s.len() implies is_digit(#[trigger] s[i]) by {
            if i < t.len() {
                assert(s[i] == t[i]);
            }
        }
    }
}

/// The hexadecimal text of some bytes is well formed and reads back as the
/// same bytes.
pub proof fn lemma_hex_text(b: Seq<u8>)
    ensures
        is_hex_text(hex_text(b), b.len()),
        hex_bytes(hex_text(b)) == b,
{
    let t = hex_text(b);
    assert forall|i: int| 0 <= i < t.len() implies is_hex_digit(#[trigger] t[i]) by {
        lemma_digit_char(b[i / 2] as int / 16);
        lemma_digit_char(b[i / 2] as int % 16);
    }
    assert forall|i: int| 0 <= i < b.len() implies #[trigger] hex_bytes(t)[i] == b[i] by {
        assert((2 * i) / 2 == i && (2 * i) % 2 == 0);
        assert((2 * i + 1) / 2 == i && (2 * i + 1) % 2 == 1);
        lemma_digit_char(b[i] as int / 16);
        lemma_digit_char(b[i] as int % 16);
    }
    assert(hex_bytes(t) =~= b);
}

/// Compares two texts character by character.
pub(crate) fn text_equals(s: &str, w: &str) -> (r: bool)
    ensures
        r == (s@ == w@),
{
    let n = s.unicode_len();
    if n != w.unicode_len() {
        return false;
    }
    let mut i: usize = 0;
    while i < n
        invariant
            n == s@.len() == w@.len(),
            0 <= i <= n,
            forall|j: int| 0 <= j < i ==> s@[j] == w@[j],
        decreases n - i,
    {
        if s.get_char(i) != w.get_char(i) {
            return false;
        }
        i = i + 1;
    }
    assert(s@ =~= w@);
    true
}

/// Tells whether a text starts with `0x`.
pub(crate) fn starts_with_hex_prefix(s: &str) -> (r: bool)
    ensures
        r == has_hex_prefix(s@),
{
    s.unicode_len() >= 2 && s.get_char(0) == '0' && s.get_char(1) == 'x'
}


/// Reads `0x` followed by exactly `N` bytes of hexadecimal, in either case.
pub fn decode_prefixed_hex<const N: usize>(s: &str) -> (r: Option<[u8; N]>)
    ensures
        match r {
            Some(b) => has_hex_prefix(s@) && is_hex_text(s@.skip(2), N as nat) && b@ == hex_bytes(
                s@.skip(2),
            ),
            None => !(has_hex_prefix(s@) && is_hex_text(s@.skip(2), N as nat)),
        },
{
    if starts_with_hex_prefix(s) {
        parse_hex::<N>(s, 2)
    } else {
        None
    }
}

/// Writes `0x` followed by the lowercase hexadecimal of the bytes.
pub fn encode_prefixed_hex(b: &[u8]) -> (r: String)
    ensures
        r@ == prefixed_hex(b@),
{
    let mut out = String::new();
    write_prefixed_hex(&mut out, b);
    out
}

} // verus!
