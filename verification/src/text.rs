//! Characters and strings: equality, white space, trimming and ASCII case.

use vstd::prelude::*;
use vstd::std_specs::iter::IteratorSpec;
use vstd::string::StringSliceAdditionalSpecFns;
use vstd::utf8::{encode_utf8, encode_utf8_decode_utf8};

verus! {

/// Two character sequences with the same UTF-8 encoding are the same sequence.
pub proof fn lemma_same_bytes_same_chars(a: Seq<char>, b: Seq<char>)
    requires
        encode_utf8(a) == encode_utf8(b),
    ensures
        a == b,
{
    encode_utf8_decode_utf8(a);
    encode_utf8_decode_utf8(b);
}

/// Whether two string slices hold the same characters.
pub fn str_eq(a: &str, b: &str) -> (same: bool)
    ensures
        same == (a@ == b@),
{
    let x = a.as_bytes();
    let y = b.as_bytes();
    if x.len() != y.len() {
        return false;
    }
    let mut i: usize = 0;
    while i < x.len()
        invariant
            x@.len() == y@.len(),
            i <= x@.len(),
            x@ == a.spec_bytes(),
            y@ == b.spec_bytes(),
            forall|k: int| 0 <= k < i ==> x@[k] == y@[k],
        decreases x@.len() - i,
    {
        if x[i] != y[i] {
            return false;
        }
        i += 1;
    }
    proof {
        assert(x@ =~= y@);
        lemma_same_bytes_same_chars(a@, b@);
    }
    true
}

/// Whether `c` has the Unicode property `White_Space`.
pub open spec fn is_white_space(c: char) -> bool {
    let n = c as u32;
    ||| 0x09 <= n <= 0x0D
    ||| n == 0x20
    ||| n == 0x85
    ||| n == 0xA0
    ||| n == 0x1680
    ||| 0x2000 <= n <= 0x200A
    ||| n == 0x2028
    ||| n == 0x2029
    ||| n == 0x202F
    ||| n == 0x205F
    ||| n == 0x3000
}

/// Executable form of [`is_white_space`].
pub fn white_space(c: char) -> (yes: bool)
    ensures
        yes == is_white_space(c),
{
    let n: u32 = c as u32;
    (0x09 <= n && n <= 0x0D) || n == 0x20 || n == 0x85 || n == 0xA0 || n == 0x1680 || (0x2000 <= n
        && n <= 0x200A) || n == 0x2028 || n == 0x2029 || n == 0x202F || n == 0x205F || n == 0x3000
}

/// `c` with an upper-case ASCII letter replaced by its lower-case form.
pub open spec fn ascii_lower(c: char) -> char {
    if 'A' as u32 <= c as u32 <= 'Z' as u32 {
        ((c as u32 + 32) as u8) as char
    } else {
        c
    }
}

/// Executable form of [`ascii_lower`].
pub fn to_ascii_lower(c: char) -> (low: char)
    ensures
        low == ascii_lower(c),
{
    let n: u32 = c as u32;
    if 65 <= n && n <= 90 {
        let m: u8 = (n + 32) as u8;
        m as char
    } else {
        c
    }
}


/// The characters of `s`, in order.
pub fn chars_of(s: &str) -> (out: Vec<char>)
    ensures
        out@ == s@,
{
    let mut out: Vec<char> = Vec::new();
    let mut it = s.chars();
    loop
        invariant_except_break
            out@ + it.remaining() == s@,
        invariant
            it.decrease() is Some,
        ensures
            out@ == s@,
        decreases it.decrease()->0,
    {
        let ghost before = it.remaining();
        let ghost taken = out@;
        match it.next() {
            Some(c) => {
                out.push(c);
                assert(out@ + it.remaining() =~= taken + before);
            },
            None => {
                assert(out@ + before =~= out@);
                break ;
            },
        }
    }
    out
}


/// The characters that lower to a lower-case ASCII letter are that letter
/// and its upper-case form.
pub proof fn lemma_lowers_to(c: char, low: char, up: char)
    requires
        'a' as u32 <= low as u32 <= 'z' as u32,
        up as u32 + 32 == low as u32,
    ensures
        ascii_lower(c) == low <==> c == low || c == up,
{
    if 'A' as u32 <= c as u32 <= 'Z' as u32 {
        let n = (c as u32 + 32) as u8;
        assert(n as char as u32 == c as u32 + 32);
    }
}

/// `s` without its leading white space.
pub open spec fn trim_start(s: Seq<char>) -> Seq<char>
    decreases s.len(),
{
    if s.len() > 0 && is_white_space(s.first()) {
        trim_start(s.drop_first())
    } else {
        s
    }
}

/// `s` without its trailing white space.
pub open spec fn trim_end(s: Seq<char>) -> Seq<char>
    decreases s.len(),
{
    if s.len() > 0 && is_white_space(s.last()) {
        trim_end(s.drop_last())
    } else {
        s
    }
}

/// `s` without its leading and trailing white space.
pub open spec fn trim(s: Seq<char>) -> Seq<char> {
    trim_end(trim_start(s))
}

/// Leading white space does not change what `trim_start` gives.
pub proof fn lemma_trim_start_skips(s: Seq<char>, i: int)
    requires
        0 <= i <= s.len(),
        forall|k: int| 0 <= k < i ==> is_white_space(s[k]),
    ensures
        trim_start(s) == trim_start(s.subrange(i, s.len() as int)),
    decreases i,
{
    if i == 0 {
        assert(s.subrange(0, s.len() as int) =~= s);
    } else {
        let rest = s.drop_first();
        lemma_trim_start_skips(rest, i - 1);
        assert(rest.subrange(i - 1, rest.len() as int) =~= s.subrange(i, s.len() as int));
    }
}

/// Trailing white space does not change what `trim_end` gives.
pub proof fn lemma_trim_end_skips(s: Seq<char>, j: int)
    requires
        0 <= j <= s.len(),
        forall|k: int| j <= k < s.len() ==> is_white_space(s[k]),
    ensures
        trim_end(s) == trim_end(s.subrange(0, j)),
    decreases s.len() - j,
{
    if j == s.len() {
        assert(s.subrange(0, j) =~= s);
    } else {
        let rest = s.drop_last();
        lemma_trim_end_skips(rest, j);
        assert(rest.subrange(0, j) =~= s.subrange(0, j));
    }
}

/// The bounds of `trim(v@)` within `v`.
pub fn trim_bounds(v: &Vec<char>) -> (b: (usize, usize))
    ensures
        b.0 <= b.1 <= v.len(),
        v@.subrange(b.0 as int, b.1 as int) == trim(v@),
{
    let mut start: usize = 0;
    while start < v.len() && white_space(v[start])
        invariant
            start <= v.len(),
            forall|k: int| 0 <= k < start ==> is_white_space(v@[k]),
        decreases v.len() - start,
    {
        start += 1;
    }
    let mut end: usize = v.len();
    while end > start && white_space(v[end - 1])
        invariant
            start <= end <= v.len(),
            forall|k: int| end <= k < v.len() ==> is_white_space(v@[k]),
        decreases end,
    {
        end -= 1;
    }
    proof {
        let tail = v@.subrange(start as int, v.len() as int);
        lemma_trim_start_skips(v@, start as int);
        assert(trim_start(v@) == tail);
        lemma_trim_end_skips(tail, end - start);
        assert(tail.subrange(0, end - start) =~= v@.subrange(start as int, end as int));
    }
    (start, end)
}

} // verus!
