//! Parsing one line of text into a guess: the line's bytes are trimmed of
//! surrounding whitespace and read as an unsigned decimal number. An empty
//! or non-numeric line, or one whose value does not fit in `u32`, parses to
//! `None`.

use vstd::prelude::*;

verus! {

use vstd::string::StringSliceAdditionalSpecFns;

/// Whether a byte is trimmable whitespace: space, tab, line feed or
/// carriage return.
pub open spec fn is_space(b: u8) -> bool {
    b == 32 || b == 9 || b == 10 || b == 13
}

/// Whether a byte is an ASCII decimal digit.
pub open spec fn is_digit(b: u8) -> bool {
    48 <= b && b <= 57
}

/// Whether every byte of `s` is an ASCII decimal digit.
pub open spec fn all_digits(s: Seq<u8>) -> bool {
    forall|i: int| 0 <= i < s.len() ==> is_digit(#[trigger] s[i])
}

/// The value of `s` read as a decimal numeral, most significant digit
/// first.
pub open spec fn dec_value(s: Seq<u8>) -> int
    decreases s.len(),
{
    if s.len() == 0 {
        0
    } else {
        dec_value(s.drop_last()) * 10 + (s.last() - 48)
    }
}

/// `s` without its leading whitespace.
pub open spec fn trim_front(s: Seq<u8>) -> Seq<u8>
    decreases s.len(),
{
    if s.len() > 0 && is_space(s[0]) {
        trim_front(s.drop_first())
    } else {
        s
    }
}

/// `s` without its trailing whitespace.
pub open spec fn trim_back(s: Seq<u8>) -> Seq<u8>
    decreases s.len(),
{
    if s.len() > 0 && is_space(s.last()) {
        trim_back(s.drop_last())
    } else {
        s
    }
}

/// `s` without its leading and trailing whitespace.
pub open spec fn trimmed(s: Seq<u8>) -> Seq<u8> {
    trim_back(trim_front(s))
}

/// What a line of bytes parses to: the value of its trimmed digits, or
/// `None` when the trimmed line is empty, holds a non-digit, or exceeds
/// `u32::MAX`.
pub open spec fn parse_guess_spec(s: Seq<u8>) -> Option<u32> {
    let t = trimmed(s);
    if t.len() > 0 && all_digits(t) && dec_value(t) <= u32::MAX {
        Some(dec_value(t) as u32)
    } else {
        None
    }
}

/// Trimming the front of `s` removes exactly its leading whitespace: if the
/// first `k` bytes are whitespace and the byte after them (if any) is not,
/// what remains is the suffix from `k`.
proof fn lemma_trim_front_is_suffix(s: Seq<u8>, k: int)
    requires
        0 <= k <= s.len(),
        forall|i: int| 0 <= i < k ==> is_space(#[trigger] s[i]),
        k == s.len() || !is_space(s[k]),
    ensures
        trim_front(s) =~= s.subrange(k, s.len() as int),
    decreases k,
{
    if k == 0 {
        assert(s.subrange(0, s.len() as int) =~= s);
    } else {
        let s1 = s.drop_first();
        assert(forall|i: int| 0 <= i < k - 1 ==> is_space(#[trigger] s1[i]));
        lemma_trim_front_is_suffix(s1, k - 1);
        assert(s1.subrange(k - 1, s1.len() as int) =~= s.subrange(k, s.len() as int));
    }
}

/// Trimming the back of `s` removes exactly its trailing whitespace: if the
/// bytes from `m` on are whitespace and the byte before them (if any) is
/// not, what remains is the prefix up to `m`.
proof fn lemma_trim_back_is_prefix(s: Seq<u8>, m: int)
    requires
        0 <= m <= s.len(),
        forall|i: int| m <= i < s.len() ==> is_space(#[trigger] s[i]),
        m == 0 || !is_space(s[m - 1]),
    ensures
        trim_back(s) =~= s.subrange(0, m),
    decreases s.len(),
{
    if m == s.len() {
        assert(s.subrange(0, m) =~= s);
    } else {
        let s1 = s.drop_last();
        assert(forall|i: int| m <= i < s1.len() ==> is_space(#[trigger] s1[i]));
        lemma_trim_back_is_prefix(s1, m);
        assert(s1.subrange(0, m) =~= s.subrange(0, m));
    }
}

/// A sequence of digits has a non-negative decimal value.
proof fn lemma_dec_value_nonneg(s: Seq<u8>)
    requires
        all_digits(s),
    ensures
        dec_value(s) >= 0,
    decreases s.len(),
{
    if s.len() > 0 {
        assert(forall|i: int| 0 <= i < s.len() - 1 ==> is_digit(#[trigger] s.drop_last()[i]));
        lemma_dec_value_nonneg(s.drop_last());
    }
}

/// Extending a numeral's prefix by one digit multiplies its value by ten
/// and adds that digit.
proof fn lemma_dec_value_step(s: Seq<u8>, j: int)
    requires
        0 <= j < s.len(),
    ensures
        dec_value(s.subrange(0, j + 1)) == dec_value(s.subrange(0, j)) * 10 + (s[j] - 48),
{
    let p = s.subrange(0, j + 1);
    assert(p.drop_last() =~= s.subrange(0, j));
    assert(p.last() == s[j]);
}

/// A prefix of a digit sequence never exceeds the whole sequence's value.
proof fn lemma_dec_value_prefix_le(s: Seq<u8>, j: int)
    requires
        0 <= j <= s.len(),
        all_digits(s),
    ensures
        dec_value(s.subrange(0, j)) <= dec_value(s),
    decreases s.len() - j,
{
    if j == s.len() {
        assert(s.subrange(0, j) =~= s);
    } else {
        assert(forall|i: int| 0 <= i < j ==> is_digit(#[trigger] s.subrange(0, j)[i]));
        lemma_dec_value_nonneg(s.subrange(0, j));
        lemma_dec_value_step(s, j);
        lemma_dec_value_prefix_le(s, j + 1);
    }
}

/// Whether a byte is trimmable whitespace.
fn space(b: u8) -> (r: bool)
    ensures
        r == is_space(b),
{
    b == 32 || b == 9 || b == 10 || b == 13
}

/// Parses a line as a guess: trims surrounding whitespace, then reads the
/// rest as an unsigned decimal number. Returns `None` when the trimmed
/// line is empty, holds a byte that is not a digit, or names a value above
/// `u32::MAX`.
pub fn parse_guess(line: &str) -> (r: Option<u32>)
    ensures
        r == parse_guess_spec(line.spec_bytes()),
{
    let bytes = line.as_bytes();
    let ghost s = line.spec_bytes();
    let n = bytes.len();
    let mut start: usize = 0;
    while start < n && space(bytes[start])
        invariant
            bytes@ == s,
            n == s.len(),
            0 <= start <= n,
            forall|i: int| 0 <= i < start ==> is_space(#[trigger] s[i]),
        decreases n - start,
    {
        start += 1;
    }
    proof {
        lemma_trim_front_is_suffix(s, start as int);
    }
    let ghost f = s.subrange(start as int, n as int);
    let mut end: usize = n;
    while end > start && space(bytes[end - 1])
        invariant
            bytes@ == s,
            n == s.len(),
            start <= end <= n,
            forall|i: int| end <= i < n ==> is_space(#[trigger] s[i]),
        decreases end,
    {
        end -= 1;
    }
    proof {
        assert(forall|i: int|
            end - start <= i < f.len() ==> is_space(#[trigger] f[i]));
        lemma_trim_back_is_prefix(f, end - start);
        assert(f.subrange(0, end - start) =~= s.subrange(start as int, end as int));
    }
    let ghost t = trimmed(s);
    assert(t =~= s.subrange(start as int, end as int));
    if start == end {
        return None;
    }
    let mut i = start;
    let mut acc: u64 = 0;
    while i < end
        invariant
            bytes@ == s,
            s == line.spec_bytes(),
            n == s.len(),
            start <= i <= end <= n,
            start < end,
            t == trimmed(s),
            t == s.subrange(start as int, end as int),
            forall|k: int| 0 <= k < i - start ==> is_digit(#[trigger] t[k]),
            acc == dec_value(t.subrange(0, i - start)),
            acc <= u32::MAX,
        decreases end - i,
    {
        let b = bytes[i];
        let ghost j = i - start;
        assert(t[j] == s[i as int]);
        if b < 48 || b > 57 {
            proof {
                assert(!is_digit(t[j]));
                assert(!all_digits(t));
                assert(parse_guess_spec(s) is None);
            }
            return None;
        }
        let d: u64 = (b - 48) as u64;
        acc = acc * 10 + d;
        proof {
            lemma_dec_value_step(t, j);
            assert(t.subrange(0, j + 1)[j] == t[j]);
            assert(acc == dec_value(t.subrange(0, j + 1)));
        }
        if acc > 0xffff_ffff {
            proof {
                if all_digits(t) {
                    lemma_dec_value_prefix_le(t, j + 1);
                    assert(dec_value(t) > u32::MAX);
                }
                assert(parse_guess_spec(s) is None);
            }
            return None;
        }
        i += 1;
    }
    proof {
        assert(t.subrange(0, end - start) =~= t);
        assert(all_digits(t));
    }
    Some(acc as u32)
}

} // verus!
