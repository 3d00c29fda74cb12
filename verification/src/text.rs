//! Texts as sequences of characters.

use vstd::prelude::*;
use vstd::std_specs::iter::IteratorSpec;
use vstd::string::*;

verus! {

broadcast use vstd::string::group_string_axioms;

/// The characters of each string of a list.
pub open spec fn texts(list: Seq<String>) -> Seq<Seq<char>> {
    list.map_values(|s: String| s@)
}

/// The characters of a string that may be absent.
pub open spec fn optional_text(s: Option<String>) -> Option<Seq<char>> {
    match s {
        Some(s) => Some(s@),
        None => None,
    }
}

/// Whether two strings hold the same characters.
pub fn same_text(a: &str, b: &str) -> (r: bool)
    ensures
        r == (a@ == b@),
{
    let mut left = a.chars();
    let mut right = b.chars();
    let ghost mut n: int = 0;
    loop
        invariant
            0 <= n <= a@.len(),
            n <= b@.len(),
            left.remaining() == a@.skip(n),
            right.remaining() == b@.skip(n),
            a@.take(n) == b@.take(n),
        decreases a@.len() - n,
    {
        let x = left.next();
        let y = right.next();
        match x {
            Some(c) => {
                match y {
                    Some(d) => {
                        if c != d {
                            assert(a@[n] != b@[n]);
                            return false;
                        }
                        proof {
                            assert(a@.take(n + 1) == a@.take(n).push(a@[n]));
                            assert(b@.take(n + 1) == b@.take(n).push(b@[n]));
                            n = n + 1;
                        }
                    },
                    None => {
                        return false;
                    },
                }
            },
            None => {
                proof {
                    assert(a@.take(n) == a@);
                    if y is None {
                        assert(b@.take(n) == b@);
                    }
                }
                return y.is_none();
            },
        }
    }
}

/// Whether `word` stands somewhere in `text`, its characters in a row.
pub open spec fn holds_text(text: Seq<char>, word: Seq<char>) -> bool {
    exists|i: int|
        0 <= i && i + word.len() <= text.len() && #[trigger] text.subrange(i, i + word.len())
            == word
}

/// The characters of a string.
pub fn chars_of(s: &str) -> (v: Vec<char>)
    ensures
        v@ == s@,
{
    let mut v: Vec<char> = Vec::new();
    let mut rest = s.chars();
    loop
        invariant_except_break
            rest.remaining() == s@.skip(v@.len() as int),
        invariant
            v@.len() <= s@.len(),
            v@ == s@.take(v@.len() as int),
        ensures
            v@ == s@,
        decreases s@.len() - v@.len(),
    {
        match rest.next() {
            Some(c) => {
                proof {
                    let n = v@.len() as int;
                    assert(s@.take(n + 1) == s@.take(n).push(c));
                }
                v.push(c);
            },
            None => {
                proof {
                    assert(s@.take(v@.len() as int) == s@);
                }
                break;
            },
        }
    }
    v
}

/// Whether `word` stands somewhere in `text`.
pub fn contains_text(text: &str, word: &str) -> (r: bool)
    ensures
        r == holds_text(text@, word@),
{
    let hay = chars_of(text);
    let needle = chars_of(word);
    let n = hay.len();
    let m = needle.len();
    if m > n {
        return false;
    }
    let mut i: usize = 0;
    while i <= n - m
        invariant
            m <= n,
            n == hay@.len(),
            m == needle@.len(),
            hay@ == text@,
            needle@ == word@,
            i <= n - m + 1,
            forall|k: int| 0 <= k < i ==> #[trigger] hay@.subrange(k, k + m) != needle@,
        decreases n - m + 1 - i,
    {
        let mut j: usize = 0;
        while j < m && hay[i + j] == needle[j]
            invariant
                i + m <= n,
                n == hay@.len(),
                m == needle@.len(),
                j <= m,
                forall|k: int| 0 <= k < j ==> hay@[i + k] == needle@[k],
            decreases m - j,
        {
            j = j + 1;
        }
        if j == m {
            proof {
                assert(hay@.subrange(i as int, i + m) == needle@);
            }
            return true;
        }
        proof {
            assert(hay@.subrange(i as int, i + m)[j as int] != needle@[j as int]);
        }
        i = i + 1;
    }
    false
}

} // verus!
