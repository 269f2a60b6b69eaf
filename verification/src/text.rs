//! Character-level helpers shared by the validators of the library.
//!
//! A `&str` is viewed as the sequence of its characters (`s@`). Byte lengths, where a rule is
//! stated over them, are the lengths of the UTF-8 encoding (`s.spec_bytes()`).
use vstd::prelude::*;
use vstd::string::*;

verus! {

/// Unicode `White_Space`, the set that `char::is_whitespace` and `str::trim` use.
pub open spec fn is_whitespace(c: char) -> bool {
    ||| ('\u{9}' <= c && c <= '\u{d}')
    ||| c == ' '
    ||| c == '\u{85}'
    ||| c == '\u{a0}'
    ||| c == '\u{1680}'
    ||| ('\u{2000}' <= c && c <= '\u{200a}')
    ||| c == '\u{2028}'
    ||| c == '\u{2029}'
    ||| c == '\u{202f}'
    ||| c == '\u{205f}'
    ||| c == '\u{3000}'
}

pub open spec fn is_ascii_lowercase(c: char) -> bool {
    'a' <= c && c <= 'z'
}

pub open spec fn is_ascii_uppercase(c: char) -> bool {
    'A' <= c && c <= 'Z'
}

pub open spec fn is_ascii_digit(c: char) -> bool {
    '0' <= c && c <= '9'
}

pub open spec fn is_ascii_alphanumeric(c: char) -> bool {
    is_ascii_lowercase(c) || is_ascii_uppercase(c) || is_ascii_digit(c)
}

pub open spec fn is_ascii_hexdigit(c: char) -> bool {
    is_ascii_digit(c) || ('a' <= c && c <= 'f') || ('A' <= c && c <= 'F')
}

/// The sequence with its leading whitespace removed.
pub open spec fn trim_start_seq(s: Seq<char>) -> Seq<char>
    decreases s.len(),
{
    if s.len() > 0 && is_whitespace(s[0]) {
        trim_start_seq(s.drop_first())
    } else {
        s
    }
}

/// The sequence with its trailing whitespace removed.
pub open spec fn trim_end_seq(s: Seq<char>) -> Seq<char>
    decreases s.len(),
{
    if s.len() > 0 && is_whitespace(s.last()) {
        trim_end_seq(s.drop_last())
    } else {
        s
    }
}

/// What `str::trim` gives back: leading and trailing whitespace removed.
pub open spec fn trim_seq(s: Seq<char>) -> Seq<char> {
    trim_end_seq(trim_start_seq(s))
}

pub open spec fn ascii_lower_char(c: char) -> char {
    if is_ascii_uppercase(c) {
        ((c as u32) + 32) as char
    } else {
        c
    }
}

/// What `str::to_ascii_lowercase` gives back.
pub open spec fn ascii_lowercase_seq(s: Seq<char>) -> Seq<char> {
    s.map_values(|c: char| ascii_lower_char(c))
}

pub open spec fn has_prefix(s: Seq<char>, prefix: Seq<char>) -> bool {
    prefix.len() <= s.len() && s.subrange(0, prefix.len() as int) == prefix
}

pub open spec fn has_suffix(s: Seq<char>, suffix: Seq<char>) -> bool {
    suffix.len() <= s.len() && s.subrange(s.len() - suffix.len(), s.len() as int) == suffix
}

pub open spec fn occurs_at(s: Seq<char>, pattern: Seq<char>, i: int) -> bool {
    0 <= i && i + pattern.len() <= s.len() && s.subrange(i, i + pattern.len()) == pattern
}

/// `pattern` occurs somewhere in `s` (what `str::contains` with a string pattern decides).
pub open spec fn has_infix(s: Seq<char>, pattern: Seq<char>) -> bool {
    exists|i: int| occurs_at(s, pattern, i)
}

/// The number of times `c` occurs in `s`.
pub open spec fn count_char(s: Seq<char>, c: char) -> nat
    decreases s.len(),
{
    if s.len() == 0 {
        0
    } else {
        count_char(s.drop_last(), c) + if s.last() == c {
            1nat
        } else {
            0nat
        }
    }
}

/// The length in bytes of the UTF-8 encoding of `s` (what `str::len` counts).
pub open spec fn utf8_len(s: Seq<char>) -> nat {
    vstd::utf8::encode_utf8(s).len()
}

/// What `str::to_lowercase` gives back: the Unicode lowercase mapping of every character.
pub uninterp spec fn unicode_lowercase(s: Seq<char>) -> Seq<char>;

/// The lowercase of an ASCII character: `A` to `Z` become `a` to `z`, any other is kept.
pub open spec fn ascii_lowercase_char(c: char) -> char {
    if 'A' <= c && c <= 'Z' {
        ((c as int) + 32) as char
    } else {
        c
    }
}

/// Every character of `s` is ASCII.
pub open spec fn all_ascii(s: Seq<char>) -> bool {
    forall|i: int| 0 <= i < s.len() ==> (#[trigger] s[i] as int) < 128
}

/// `str::to_lowercase`. On ASCII text the Unicode lowercase mapping lowers `A` to `Z` and keeps
/// every other character.
#[verifier::external_body]
pub(crate) fn to_lowercase(s: &str) -> (r: String)
    ensures
        r@ == unicode_lowercase(s@),
        all_ascii(s@) ==> r@ == s@.map_values(|c: char| ascii_lowercase_char(c)),
{
    s.to_lowercase()
}

/// The byte length of `s`.
pub fn byte_len(s: &str) -> (r: usize)
    ensures
        r == utf8_len(s@),
{
    s.as_bytes().len()
}

/// Whether two strings hold the same characters.
pub fn str_equals(a: &str, b: &str) -> (r: bool)
    ensures
        r == (a@ == b@),
{
    let x = chars_of(a);
    let y = chars_of(b);
    if x.len() != y.len() {
        return false;
    }
    let mut i: usize = 0;
    while i < x.len()
        invariant
            x@ == a@,
            y@ == b@,
            x@.len() == y@.len(),
            i <= x.len(),
            forall|j: int| 0 <= j < i ==> x@[j] == y@[j],
        decreases x.len() - i,
    {
        if x[i] != y[i] {
            return false;
        }
        i += 1;
    }
    proof {
        assert(a@ =~= b@);
    }
    true
}

/// Copies the characters of `s` into a vector.
pub fn chars_of(s: &str) -> (v: Vec<char>)
    ensures
        v@ == s@,
{
    let mut v: Vec<char> = Vec::new();
    let ghost g = s@;
    for c in it: s.chars()
        invariant
            it.seq() == g,
            g == s@,
            v@ == g.subrange(0, it.index() as int),
    {
        proof {
            assert(g.subrange(0, it.index() + 1) == g.subrange(0, it.index() as int).push(c));
        }
        v.push(c);
    }
    proof {
        assert(g.subrange(0, g.len() as int) == g);
    }
    v
}

pub fn char_is_whitespace(c: char) -> (r: bool)
    ensures
        r == is_whitespace(c),
{
    ('\u{9}' <= c && c <= '\u{d}') || c == ' ' || c == '\u{85}' || c == '\u{a0}' || c
        == '\u{1680}' || ('\u{2000}' <= c && c <= '\u{200a}') || c == '\u{2028}' || c
        == '\u{2029}' || c == '\u{202f}' || c == '\u{205f}' || c == '\u{3000}'
}

proof fn lemma_trim_start_skip(s: Seq<char>, i: int)
    requires
        0 <= i < s.len(),
        is_whitespace(s[i]),
    ensures
        trim_start_seq(s.subrange(i, s.len() as int)) == trim_start_seq(
            s.subrange(i + 1, s.len() as int),
        ),
{
    let t = s.subrange(i, s.len() as int);
    assert(t.drop_first() == s.subrange(i + 1, s.len() as int));
}

/// `str::trim`: the string without leading and trailing Unicode whitespace.
pub fn trim(s: &str) -> (r: &str)
    ensures
        r@ == trim_seq(s@),
{
    let chars = chars_of(s);
    let n = chars.len();
    let mut start: usize = 0;
    proof {
        assert(s@.subrange(0, n as int) == s@);
    }
    while start < n && char_is_whitespace(chars[start])
        invariant
            chars@ == s@,
            n == chars@.len(),
            start <= n,
            trim_start_seq(s@) == trim_start_seq(s@.subrange(start as int, n as int)),
        decreases n - start,
    {
        proof {
            lemma_trim_start_skip(s@, start as int);
        }
        start += 1;
    }
    let ghost front = s@.subrange(start as int, n as int);
    proof {
        assert(s@.subrange(start as int, n as int).subrange(0, 0) =~= Seq::<char>::empty());
        if start < n {
            assert(front[0] == chars@[start as int]);
        }
        assert(trim_start_seq(front) == front);
    }
    let mut end: usize = n;
    while end > start && char_is_whitespace(chars[end - 1])
        invariant
            chars@ == s@,
            n == chars@.len(),
            start <= end <= n,
            front == s@.subrange(start as int, n as int),
            trim_end_seq(front) == trim_end_seq(s@.subrange(start as int, end as int)),
        decreases end - start,
    {
        proof {
            let t = s@.subrange(start as int, end as int);
            assert(t.drop_last() == s@.subrange(start as int, end - 1));
        }
        end -= 1;
    }
    proof {
        let t = s@.subrange(start as int, end as int);
        if end > start {
            assert(t.last() == chars@[end - 1]);
        }
        assert(trim_end_seq(t) == t);
    }
    s.substring_char(start, end)
}


/// `String::push`: appends one character to the string.
#[verifier::external_body]
pub fn push_char(s: &mut String, c: char)
    ensures
        final(s)@ == old(s)@.push(c),
{
    s.push(c);
}

/// An owned copy of a character sequence held in a vector.
pub fn string_from_chars(chars: &Vec<char>) -> (r: String)
    ensures
        r@ == chars@,
{
    let mut r = String::new();
    let mut i: usize = 0;
    while i < chars.len()
        invariant
            i <= chars.len(),
            r@ == chars@.subrange(0, i as int),
        decreases chars.len() - i,
    {
        proof {
            assert(chars@.subrange(0, i + 1) == chars@.subrange(0, i as int).push(chars@[i as int]));
        }
        push_char(&mut r, chars[i]);
        i += 1;
    }
    proof {
        assert(chars@.subrange(0, chars@.len() as int) == chars@);
    }
    r
}

/// An owned copy of `s`.
pub fn owned(s: &str) -> (r: String)
    ensures
        r@ == s@,
{
    s.to_owned()
}

/// `str::to_ascii_lowercase`: ASCII capitals become small letters, every other character stays.
pub fn to_ascii_lowercase(s: &str) -> (r: String)
    ensures
        r@ == ascii_lowercase_seq(s@),
{
    let chars = chars_of(s);
    let mut r = String::new();
    let mut i: usize = 0;
    while i < chars.len()
        invariant
            chars@ == s@,
            i <= chars.len(),
            r@ == ascii_lowercase_seq(s@.subrange(0, i as int)),
        decreases chars.len() - i,
    {
        let c = chars[i];
        let lower = if 'A' <= c && c <= 'Z' {
            proof {
                assert(((c as u32) + 32) as char == ascii_lower_char(c));
            }
            ((c as u32 + 32) as u8) as char
        } else {
            c
        };
        proof {
            assert(lower == ascii_lower_char(c)) by {
                if 'A' <= c && c <= 'Z' {
                    assert((c as u32) + 32 < 128);
                }
            }
            assert(ascii_lowercase_seq(s@.subrange(0, i + 1)) == ascii_lowercase_seq(
                s@.subrange(0, i as int),
            ).push(ascii_lower_char(c)));
        }
        push_char(&mut r, lower);
        i += 1;
    }
    proof {
        assert(s@.subrange(0, s@.len() as int) == s@);
    }
    r
}

/// Whether `s` ends with `suffix`.
pub fn ends_with(s: &str, suffix: &str) -> (r: bool)
    ensures
        r == has_suffix(s@, suffix@),
{
    let a = chars_of(s);
    let b = chars_of(suffix);
    if b.len() > a.len() {
        return false;
    }
    let offset = a.len() - b.len();
    let mut i: usize = 0;
    while i < b.len()
        invariant
            a@ == s@,
            b@ == suffix@,
            offset == a@.len() - b@.len(),
            offset + b.len() == a.len(),
            i <= b.len(),
            forall|j: int| 0 <= j < i ==> a@[offset + j] == b@[j],
        decreases b.len() - i,
    {
        if a[offset + i] != b[i] {
            proof {
                let t = s@.subrange(offset as int, s@.len() as int);
                assert(t[i as int] == a@[offset + i]);
            }
            return false;
        }
        i += 1;
    }
    proof {
        assert(s@.subrange(offset as int, s@.len() as int) =~= suffix@);
    }
    true
}

/// Whether `s` starts with `prefix`.
pub fn starts_with(s: &str, prefix: &str) -> (r: bool)
    ensures
        r == has_prefix(s@, prefix@),
{
    let a = chars_of(s);
    let b = chars_of(prefix);
    if b.len() > a.len() {
        return false;
    }
    let mut i: usize = 0;
    while i < b.len()
        invariant
            a@ == s@,
            b@ == prefix@,
            b@.len() <= a@.len(),
            i <= b.len(),
            forall|j: int| 0 <= j < i ==> a@[j] == b@[j],
        decreases b.len() - i,
    {
        if a[i] != b[i] {
            proof {
                let t = s@.subrange(0, prefix@.len() as int);
                assert(t[i as int] == a@[i as int]);
            }
            return false;
        }
        i += 1;
    }
    proof {
        assert(s@.subrange(0, prefix@.len() as int) =~= prefix@);
    }
    true
}

fn occurs_in_at(a: &Vec<char>, b: &Vec<char>, i: usize) -> (r: bool)
    requires
        i + b.len() <= a.len(),
    ensures
        r == occurs_at(a@, b@, i as int),
{
    let mut j: usize = 0;
    while j < b.len()
        invariant
            i + b.len() <= a.len(),
            j <= b.len(),
            forall|k: int| 0 <= k < j ==> a@[i + k] == b@[k],
        decreases b.len() - j,
    {
        if a[i + j] != b[j] {
            proof {
                let t = a@.subrange(i as int, i + b@.len());
                assert(t[j as int] == a@[i + j]);
            }
            return false;
        }
        j += 1;
    }
    proof {
        assert(a@.subrange(i as int, i + b@.len()) =~= b@);
    }
    true
}

/// Whether `pattern` occurs in `s` (`str::contains` with a string pattern).
pub fn contains(s: &str, pattern: &str) -> (r: bool)
    ensures
        r == has_infix(s@, pattern@),
{
    let a = chars_of(s);
    let b = chars_of(pattern);
    if b.len() > a.len() {
        proof {
            assert forall|i: int| !occurs_at(s@, pattern@, i) by {}
        }
        return false;
    }
    if b.len() == 0 {
        proof {
            assert(s@.subrange(0, 0) =~= pattern@);
            assert(occurs_at(s@, pattern@, 0));
        }
        return true;
    }
    let last = a.len() - b.len();
    let mut i: usize = 0;
    while i <= last
        invariant
            a@ == s@,
            b@ == pattern@,
            last == a@.len() - b@.len(),
            last < a.len(),
            i <= last + 1,
            forall|k: int| 0 <= k < i ==> !occurs_at(s@, pattern@, k),
        decreases last + 1 - i,
    {
        if occurs_in_at(&a, &b, i) {
            return true;
        }
        i += 1;
    }
    proof {
        assert forall|k: int| !occurs_at(s@, pattern@, k) by {
            if 0 <= k < i {
            }
        }
    }
    false
}

/// Whether the character `c` occurs in `s`.
pub fn contains_char(s: &str, c: char) -> (r: bool)
    ensures
        r == s@.contains(c),
{
    let a = chars_of(s);
    let mut i: usize = 0;
    while i < a.len()
        invariant
            a@ == s@,
            i <= a.len(),
            forall|k: int| 0 <= k < i ==> a@[k] != c,
        decreases a.len() - i,
    {
        if a[i] == c {
            return true;
        }
        i += 1;
    }
    false
}

/// The first `n` characters of `s` (`s.chars().take(n).collect()`).
pub fn take_chars(s: &str, n: usize) -> (r: String)
    ensures
        r@ == if n < s@.len() {
            s@.subrange(0, n as int)
        } else {
            s@
        },
{
    let len = s.unicode_len();
    if n < len {
        s.substring_char(0, n).to_owned()
    } else {
        proof {
            assert(s@.subrange(0, s@.len() as int) == s@);
        }
        s.substring_char(0, len).to_owned()
    }
}

} // verus!
