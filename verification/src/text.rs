//! Character sequences: the text operations the file filters are built from.
//!
//! Contracts are stated over `Seq<char>`, the view of `str` and `String`.

use vstd::prelude::*;

verus! {

/// An ASCII upper-case letter stands for its lower-case form, every other
/// character for itself.
pub open spec fn ascii_lower(c: char) -> char {
    if 'A' <= c && c <= 'Z' {
        ((c as u8) + 32) as char
    } else {
        c
    }
}

/// Two texts are equal up to the case of their ASCII letters.
pub open spec fn eq_ignoring_ascii_case(a: Seq<char>, b: Seq<char>) -> bool {
    &&& a.len() == b.len()
    &&& forall|i: int| 0 <= i < a.len() ==> ascii_lower(#[trigger] a[i]) == ascii_lower(b[i])
}

/// `k` is the position of the dot that separates a stem from an extension:
/// the last dot of `name`, and not its first character.
pub open spec fn extension_dot(name: Seq<char>, k: int) -> bool {
    &&& 0 < k < name.len()
    &&& name[k] == '.'
    &&& forall|j: int| k < j < name.len() ==> name[j] != '.'
}

/// The extension of a file name: what follows its last dot, unless the name
/// has no dot or its last dot is its first character (a hidden file). The
/// name is that of one directory entry: no character of it is taken as a
/// path separator.
pub open spec fn extension(name: Seq<char>) -> Option<Seq<char>> {
    if exists|k: int| extension_dot(name, k) {
        Some(name.skip((choose|k: int| extension_dot(name, k)) + 1))
    } else {
        None
    }
}

/// `needle` occurs in `haystack` as a contiguous run of characters.
pub open spec fn is_substring(needle: Seq<char>, haystack: Seq<char>) -> bool {
    exists|i: int| occurs_at(needle, haystack, i)
}

/// `needle` occurs in `haystack` starting at position `i`.
pub open spec fn occurs_at(needle: Seq<char>, haystack: Seq<char>, i: int) -> bool {
    &&& 0 <= i
    &&& i + needle.len() <= haystack.len()
    &&& haystack.subrange(i, i + needle.len()) == needle
}

/// The lower-case form of a text under Unicode's case mapping, as
/// `str::to_lowercase` computes it.
pub uninterp spec fn lowercase(s: Seq<char>) -> Seq<char>;

/// The extension is what follows the dot that separates it from the stem.
pub proof fn lemma_extension_follows_dot(name: Seq<char>, k: int)
    requires
        extension_dot(name, k),
    ensures
        extension(name) == Some(name.skip(k + 1)),
{
    let chosen = choose|m: int| extension_dot(name, m);
    assert(chosen == k);
}

/// The characters of `s`, in order.
pub fn chars_of(s: &str) -> (v: Vec<char>)
    ensures
        v@ == s@,
{
    let mut v: Vec<char> = Vec::new();
    for c in it: s.chars()
        invariant
            v@ == it.seq().take(it.index() as int),
            it.seq() == s@,
    {
        v.push(c);
    }
    v
}

/// Folds one character to ASCII lower case.
pub fn to_ascii_lower(c: char) -> (r: char)
    ensures
        r == ascii_lower(c),
{
    if 'A' <= c && c <= 'Z' {
        let b: u8 = c as u8;
        (b + 32) as char
    } else {
        c
    }
}

/// Compares two texts up to the case of their ASCII letters.
pub fn eq_ignore_ascii_case(a: &Vec<char>, b: &Vec<char>) -> (r: bool)
    ensures
        r == eq_ignoring_ascii_case(a@, b@),
{
    if a.len() != b.len() {
        return false;
    }
    let mut i: usize = 0;
    while i < a.len()
        invariant
            a.len() == b.len(),
            i <= a.len(),
            forall|j: int| 0 <= j < i ==> ascii_lower(#[trigger] a@[j]) == ascii_lower(b@[j]),
        decreases a.len() - i,
    {
        if to_ascii_lower(a[i]) != to_ascii_lower(b[i]) {
            return false;
        }
        i += 1;
    }
    true
}

/// Finds the extension of a file name.
pub fn find_extension(name: &Vec<char>) -> (r: Option<Vec<char>>)
    ensures
        match r {
            Some(ext) => extension(name@) == Some(ext@),
            None => extension(name@) is None,
        },
{
    let n: usize = name.len();
    let mut k: usize = n;
    while k > 0 && name[k - 1] != '.'
        invariant
            k <= n,
            n == name.len(),
            forall|j: int| k <= j < n ==> name@[j] != '.',
        decreases k,
    {
        k -= 1;
    }
    if k <= 1 {
        // No dot at all, or the last dot leads the name.
        return None;
    }
    let dot: usize = k - 1;
    proof {
        lemma_extension_follows_dot(name@, dot as int);
    }
    let mut ext: Vec<char> = Vec::new();
    let mut i: usize = k;
    while i < n
        invariant
            k <= i <= n,
            n == name.len(),
            ext@ == name@.subrange(k as int, i as int),
        decreases n - i,
    {
        ext.push(name[i]);
        i += 1;
    }
    Some(ext)
}

/// Tells whether `needle` occurs in `haystack`.
pub fn contains(haystack: &Vec<char>, needle: &Vec<char>) -> (r: bool)
    ensures
        r == is_substring(needle@, haystack@),
{
    let h: usize = haystack.len();
    let n: usize = needle.len();
    if n == 0 {
        assert(occurs_at(needle@, haystack@, 0)) by {
            assert(haystack@.subrange(0, 0) =~= needle@);
        }
        return true;
    }
    if n > h {
        return false;
    }
    let last: usize = h - n;
    let mut i: usize = 0;
    while i <= last
        invariant
            h == haystack.len(),
            n == needle.len(),
            0 < n <= h,
            last == h - n,
            i <= last + 1,
            forall|j: int| 0 <= j < i ==> !occurs_at(needle@, haystack@, j),
        decreases last + 1 - i,
    {
        if matches_at(haystack, needle, i) {
            return true;
        }
        i += 1;
    }
    false
}

/// Tells whether `needle` occurs in `haystack` at position `start`.
fn matches_at(haystack: &Vec<char>, needle: &Vec<char>, start: usize) -> (r: bool)
    requires
        start + needle.len() <= haystack.len(),
    ensures
        r == occurs_at(needle@, haystack@, start as int),
{
    let n: usize = needle.len();
    let mut j: usize = 0;
    while j < n
        invariant
            n == needle.len(),
            start + n <= haystack.len(),
            j <= n,
            forall|t: int| 0 <= t < j ==> haystack@[start + t] == needle@[t],
        decreases n - j,
    {
        if haystack[start + j] != needle[j] {
            return false;
        }
        j += 1;
    }
    assert(haystack@.subrange(start as int, start + n) =~= needle@);
    true
}

/// Calls `str::to_lowercase`, which maps a text to its lower-case form by
/// Unicode's case mapping. The mapping depends on the text alone, so the
/// result is named by `lowercase`; nothing more is claimed of it.
#[verifier::external_body]
pub(crate) fn to_lowercase(s: &str) -> (r: String)
    ensures
        r@ == lowercase(s@),
{
    s.to_lowercase()
}

} // verus!
