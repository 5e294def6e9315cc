//! Small operations on strings and byte strings.
use vstd::prelude::*;
use vstd::string::*;

verus! {

/// Whether every byte of `s` in `[from, to)` is zero.
pub open spec fn all_zero(s: Seq<u8>, from: int, to: int) -> bool {
    forall|i: int| from <= i < to ==> s[i] == 0
}

/// What remains of `s` once its leading and trailing zero bytes are removed.
pub open spec fn is_trim_of(r: Seq<u8>, s: Seq<u8>) -> bool {
    if all_zero(s, 0, s.len() as int) {
        r.len() == 0
    } else {
        exists|first: int, last: int|
            #![trigger s.subrange(first, last)]
            0 <= first < last <= s.len() && s[first] != 0 && s[last - 1] != 0 && all_zero(
                s,
                0,
                first,
            ) && all_zero(s, last, s.len() as int) && r == s.subrange(first, last)
    }
}

/// Remove leading and trailing 0 bytes.
pub fn trim(bytes: &[u8]) -> (r: &[u8])
    ensures
        is_trim_of(r@, bytes@),
{
    let len = bytes.len();
    let mut first: usize = 0;
    while first < len && bytes[first] == 0
        invariant
            len == bytes@.len(),
            first <= len,
            all_zero(bytes@, 0, first as int),
        decreases len - first,
    {
        first = first + 1;
    }
    if first == len {
        let empty: &[u8] = &[];
        assert(empty@.len() == 0);
        return empty;
    }
    let mut last: usize = len;
    while last > first + 1 && bytes[last - 1] == 0
        invariant
            len == bytes@.len(),
            first < last <= len,
            bytes@[first as int] != 0,
            all_zero(bytes@, last as int, len as int),
        decreases last,
    {
        last = last - 1;
    }
    let r = &bytes[first..last];
    assert(r@ == bytes@.subrange(first as int, last as int));
    r
}

/// Whether `prefix` is a prefix of `s`.
pub fn starts_with(s: &str, prefix: &str) -> (r: bool)
    ensures
        r == prefix@.is_prefix_of(s@),
{
    let n = prefix.unicode_len();
    let m = s.unicode_len();
    if n > m {
        return false;
    }
    let mut i: usize = 0;
    while i < n
        invariant
            n == prefix@.len(),
            m == s@.len(),
            n <= m,
            i <= n,
            forall|j: int| 0 <= j < i ==> prefix@[j] == s@[j],
        decreases n - i,
    {
        if prefix.get_char(i) != s.get_char(i) {
            assert(prefix@[i as int] != s@.subrange(0, n as int)[i as int]);
            return false;
        }
        i = i + 1;
    }
    assert(prefix@ =~= s@.subrange(0, n as int));
    true
}

/// The concatenation of two strings.
pub fn concat(a: &str, b: &str) -> (r: String)
    ensures
        r@ == a@ + b@,
{
    let mut r = String::from_str(a);
    r.append(b);
    r
}

} // verus!
