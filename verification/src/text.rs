//! Case-insensitive substring matching on UTF-8 bytes.
//!
//! Section names and error messages are compared after ASCII case folding,
//! so the specification works on the UTF-8 byte sequence of a string:
//! folding touches single-byte (ASCII) characters only and leaves every
//! other byte as it is.

use vstd::prelude::*;

verus! {

/// The UTF-8 bytes of a string value, as specifications see it.
pub open spec fn byte_view(s: Seq<char>) -> Seq<u8> {
    vstd::utf8::encode_utf8(s)
}

/// ASCII case folding of one byte: an upper-case letter becomes lower-case,
/// every other byte is unchanged.
pub open spec fn fold_byte(b: u8) -> u8 {
    if 65 <= b && b <= 90 {
        (b + 32) as u8
    } else {
        b
    }
}

/// ASCII case folding of a byte sequence.
pub open spec fn fold_bytes(s: Seq<u8>) -> Seq<u8> {
    s.map_values(|b: u8| fold_byte(b))
}

/// `needle` occurs in `hay` at position `i`, ignoring ASCII case.
pub open spec fn matches_at(hay: Seq<u8>, needle: Seq<u8>, i: int) -> bool {
    &&& 0 <= i
    &&& i + needle.len() <= hay.len()
    &&& fold_bytes(hay.subrange(i, i + needle.len())) == fold_bytes(needle)
}

/// `hay` contains `needle` somewhere, ignoring ASCII case.
pub open spec fn contains_ci(hay: Seq<u8>, needle: Seq<u8>) -> bool {
    exists|i: int| matches_at(hay, needle, i)
}

/// Two bytes are equal up to ASCII case.
fn byte_eq_ci(a: u8, b: u8) -> (r: bool)
    ensures
        r == (fold_byte(a) == fold_byte(b)),
{
    let fa: u8 = if 65 <= a && a <= 90 {
        a + 32
    } else {
        a
    };
    let fb: u8 = if 65 <= b && b <= 90 {
        b + 32
    } else {
        b
    };
    fa == fb
}

/// `needle` occurs in `hay` at position `i`, ignoring ASCII case.
fn slice_matches_at(hay: &[u8], needle: &[u8], i: usize) -> (r: bool)
    requires
        i + needle@.len() <= hay@.len(),
    ensures
        r == matches_at(hay@, needle@, i as int),
{
    let n = needle.len();
    let m = hay.len();
    let mut j: usize = 0;
    while j < n
        invariant
            n == needle@.len(),
            m == hay@.len(),
            i + n <= m,
            j <= n,
            forall|k: int| 0 <= k < j ==> fold_byte(hay@[i + k]) == fold_byte(needle@[k]),
        decreases n - j,
    {
        if !byte_eq_ci(hay[i + j], needle[j]) {
            proof {
                if matches_at(hay@, needle@, i as int) {
                    assert(fold_bytes(hay@.subrange(i as int, i + needle@.len()))[j as int]
                        == fold_bytes(needle@)[j as int]);
                }
            }
            return false;
        }
        j += 1;
    }
    proof {
        assert(fold_bytes(hay@.subrange(i as int, i + needle@.len())) =~= fold_bytes(needle@));
    }
    true
}

/// `hay` contains `needle` somewhere, ignoring ASCII case.
pub fn slice_contains_ci(hay: &[u8], needle: &[u8]) -> (r: bool)
    ensures
        r == contains_ci(hay@, needle@),
{
    if needle.len() > hay.len() {
        return false;
    }
    if needle.len() == 0 {
        proof {
            assert(fold_bytes(hay@.subrange(0, 0)) =~= fold_bytes(needle@));
            assert(matches_at(hay@, needle@, 0));
        }
        return true;
    }
    let last = hay.len() - needle.len();
    let mut i: usize = 0;
    while i <= last
        invariant
            1 <= needle@.len() <= hay@.len(),
            last == hay@.len() - needle@.len(),
            i <= last + 1,
            last < usize::MAX,
            forall|k: int| 0 <= k < i ==> !matches_at(hay@, needle@, k),
        decreases last + 1 - i,
    {
        if slice_matches_at(hay, needle, i) {
            return true;
        }
        i += 1;
    }
    false
}

/// `hay` contains `needle` as a substring, ignoring ASCII case.
pub fn str_contains_ci(hay: &str, needle: &str) -> (r: bool)
    ensures
        r == contains_ci(byte_view(hay@), byte_view(needle@)),
{
    slice_contains_ci(hay.as_bytes(), needle.as_bytes())
}

/// An ASCII whitespace byte: tab through carriage return, or space.
pub open spec fn is_ascii_space(b: u8) -> bool {
    b == 32 || (9 <= b && b <= 13)
}

/// The sequence without its leading ASCII whitespace.
pub open spec fn trim_front(s: Seq<u8>) -> Seq<u8>
    decreases s.len(),
{
    if s.len() > 0 && is_ascii_space(s[0]) {
        trim_front(s.drop_first())
    } else {
        s
    }
}

/// The sequence without its trailing ASCII whitespace.
pub open spec fn trim_back(s: Seq<u8>) -> Seq<u8>
    decreases s.len(),
{
    if s.len() > 0 && is_ascii_space(s.last()) {
        trim_back(s.drop_last())
    } else {
        s
    }
}

/// The sequence without leading and trailing ASCII whitespace.
pub open spec fn trimmed(s: Seq<u8>) -> Seq<u8> {
    trim_back(trim_front(s))
}

/// A console answer that means yes: after trimming ASCII whitespace and
/// folding ASCII case it is empty, "y" or "yes".
pub open spec fn affirmative(s: Seq<u8>) -> bool {
    ||| fold_bytes(trimmed(s)) == Seq::<u8>::empty()
    ||| fold_bytes(trimmed(s)) == seq![121u8]
    ||| fold_bytes(trimmed(s)) == seq![121u8, 101u8, 115u8]
}

/// Whether a console answer means yes; an empty answer does.
pub fn is_affirmative(answer: &str) -> (r: bool)
    ensures
        r == affirmative(byte_view(answer@)),
{
    let b = answer.as_bytes();
    let n = b.len();
    proof {
        assert(b@.subrange(0, n as int) =~= b@);
    }
    let mut start: usize = 0;
    while start < n && (b[start] == 32 || (9 <= b[start] && b[start] <= 13))
        invariant
            n == b@.len(),
            start <= n,
            trim_front(b@) == trim_front(b@.subrange(start as int, n as int)),
        decreases n - start,
    {
        proof {
            let s = b@.subrange(start as int, n as int);
            assert(s.len() > 0 && is_ascii_space(s[0]));
            assert(s.drop_first() =~= b@.subrange(start + 1, n as int));
        }
        start += 1;
    }
    proof {
        assert(trim_front(b@) == b@.subrange(start as int, n as int));
    }
    let mut end: usize = n;
    while end > start && (b[end - 1] == 32 || (9 <= b[end - 1] && b[end - 1] <= 13))
        invariant
            n == b@.len(),
            start <= end <= n,
            trim_front(b@) == b@.subrange(start as int, n as int),
            trim_back(b@.subrange(start as int, n as int)) == trim_back(
                b@.subrange(start as int, end as int),
            ),
        decreases end,
    {
        proof {
            let s = b@.subrange(start as int, end as int);
            assert(s.len() > 0 && is_ascii_space(s.last()));
            assert(s.drop_last() =~= b@.subrange(start as int, end - 1));
        }
        end -= 1;
    }
    proof {
        assert(trimmed(b@) == b@.subrange(start as int, end as int));
    }
    let ghost f = fold_bytes(trimmed(b@));
    let len = end - start;
    proof {
        assert(f.len() == end - start);
        assert(forall|t: int|
            0 <= t < f.len() ==> f[t] == fold_byte(b@[start + t]));
    }
    if len == 0 {
        proof {
            assert(f =~= Seq::<u8>::empty());
        }
        return true;
    }
    if len == 1 {
        let c0 = byte_eq_ci(b[start], 121u8);
        proof {
            if c0 {
                assert(f =~= seq![121u8]);
            } else {
                assert(f != seq![121u8]) by {
                    if f == seq![121u8] {
                        assert(f[0] == 121u8);
                    }
                }
            }
        }
        return c0;
    }
    if len == 3 {
        let c0 = byte_eq_ci(b[start], 121u8);
        let c1 = byte_eq_ci(b[start + 1], 101u8);
        let c2 = byte_eq_ci(b[start + 2], 115u8);
        let r = c0 && c1 && c2;
        proof {
            if r {
                assert(f =~= seq![121u8, 101u8, 115u8]);
            } else {
                assert(f != seq![121u8, 101u8, 115u8]) by {
                    if f == seq![121u8, 101u8, 115u8] {
                        assert(f[0] == 121u8 && f[1] == 101u8 && f[2] == 115u8);
                    }
                }
            }
        }
        return r;
    }
    false
}

} // verus!
