//! Character classes and string building blocks used by every other module.

use vstd::prelude::*;

verus! {

/// `char::is_ascii_alphanumeric`.
pub open spec fn is_ascii_alnum(c: char) -> bool {
    ('0' <= c && c <= '9') || ('a' <= c && c <= 'z') || ('A' <= c && c <= 'Z')
}

/// `char::to_ascii_lowercase`: `A`..`Z` become `a`..`z`, every other char is kept.
pub open spec fn ascii_lower(c: char) -> char {
    if 'A' <= c && c <= 'Z' {
        ((c as u32) + 32) as char
    } else {
        c
    }
}

pub fn exec_is_ascii_alnum(c: char) -> (r: bool)
    ensures
        r == is_ascii_alnum(c),
{
    ('0' <= c && c <= '9') || ('a' <= c && c <= 'z') || ('A' <= c && c <= 'Z')
}

pub fn exec_ascii_lower(c: char) -> (r: char)
    ensures
        r == ascii_lower(c),
{
    if 'A' <= c && c <= 'Z' {
        let b: u8 = (c as u8) + 32;
        b as char
    } else {
        c
    }
}

/// Appends one char to a `String` (`String::push`).
pub assume_specification[ String::push ](s: &mut String, ch: char)
    ensures
        final(s)@ == old(s)@.push(ch),
;

/// The chars of `s`, in order.
pub fn chars_of(s: &str) -> (v: Vec<char>)
    ensures
        v@ == s@,
{
    let n = s.unicode_len();
    let mut v: Vec<char> = Vec::new();
    let mut i: usize = 0;
    while i < n
        invariant
            n == s@.len(),
            i <= n,
            v@ == s@.subrange(0, i as int),
        decreases n - i,
    {
        v.push(s.get_char(i));
        i = i + 1;
    }
    v
}

/// `char::is_whitespace`: the chars with the Unicode `White_Space` property.
pub open spec fn is_white(c: char) -> bool {
    ||| '\u{9}' <= c && c <= '\u{d}'
    ||| c == ' '
    ||| c == '\u{85}'
    ||| c == '\u{a0}'
    ||| c == '\u{1680}'
    ||| '\u{2000}' <= c && c <= '\u{200a}'
    ||| c == '\u{2028}'
    ||| c == '\u{2029}'
    ||| c == '\u{202f}'
    ||| c == '\u{205f}'
    ||| c == '\u{3000}'
}

pub fn exec_is_white(c: char) -> (r: bool)
    ensures
        r == is_white(c),
{
    ('\u{9}' <= c && c <= '\u{d}') || c == ' ' || c == '\u{85}' || c == '\u{a0}' || c
        == '\u{1680}' || ('\u{2000}' <= c && c <= '\u{200a}') || c == '\u{2028}' || c
        == '\u{2029}' || c == '\u{202f}' || c == '\u{205f}' || c == '\u{3000}'
}

/// `s` without its leading whitespace.
pub open spec fn trim_start(s: Seq<char>) -> Seq<char>
    decreases s.len(),
{
    if s.len() > 0 && is_white(s[0]) {
        trim_start(s.skip(1))
    } else {
        s
    }
}

/// `s` without its trailing whitespace.
pub open spec fn trim_end(s: Seq<char>) -> Seq<char>
    decreases s.len(),
{
    if s.len() > 0 && is_white(s[s.len() - 1]) {
        trim_end(s.drop_last())
    } else {
        s
    }
}

/// `str::trim`: `s` without leading and trailing whitespace.
pub open spec fn trimmed(s: Seq<char>) -> Seq<char> {
    trim_end(trim_start(s))
}

proof fn lemma_trim_start(s: Seq<char>, a: int)
    requires
        0 <= a <= s.len(),
        forall|j: int| 0 <= j < a ==> is_white(#[trigger] s[j]),
        a == s.len() || !is_white(s[a]),
    ensures
        trim_start(s) == s.skip(a),
    decreases a,
{
    if a == 0 {
        assert(s.skip(0) =~= s);
    } else {
        let t = s.skip(1);
        assert forall|j: int| 0 <= j < a - 1 implies is_white(#[trigger] t[j]) by {
            assert(t[j] == s[j + 1]);
        }
        lemma_trim_start(t, a - 1);
        assert(t.skip(a - 1) =~= s.skip(a));
    }
}

proof fn lemma_trim_end(s: Seq<char>, b: int)
    requires
        0 <= b <= s.len(),
        forall|j: int| b <= j < s.len() ==> is_white(#[trigger] s[j]),
        b == 0 || !is_white(s[b - 1]),
    ensures
        trim_end(s) == s.take(b),
    decreases s.len() - b,
{
    if b == s.len() {
        assert(s.take(b) =~= s);
    } else {
        let t = s.drop_last();
        assert forall|j: int| b <= j < t.len() implies is_white(#[trigger] t[j]) by {
            assert(t[j] == s[j]);
        }
        lemma_trim_end(t, b);
        assert(t.take(b) =~= s.take(b));
    }
}

/// What `trim_start` leaves is a suffix of `s` that is empty or starts with
/// a non-whitespace char.
proof fn lemma_trim_start_shape(s: Seq<char>)
    ensures
        trim_start(s).len() <= s.len(),
        trim_start(s) == s.skip(s.len() - trim_start(s).len()),
        trim_start(s).len() == 0 || !is_white(trim_start(s)[0]),
    decreases s.len(),
{
    if s.len() > 0 && is_white(s[0]) {
        lemma_trim_start_shape(s.skip(1));
        let t = trim_start(s.skip(1));
        assert(s.skip(1).skip(s.len() - 1 - t.len()) =~= s.skip(s.len() - t.len()));
    } else {
        assert(s.skip(0) =~= s);
    }
}

/// What `trim_end` leaves is a prefix of `s` that is empty or ends with a
/// non-whitespace char.
proof fn lemma_trim_end_shape(s: Seq<char>)
    ensures
        trim_end(s).len() <= s.len(),
        trim_end(s) == s.take(trim_end(s).len() as int),
        trim_end(s).len() == 0 || !is_white(trim_end(s)[trim_end(s).len() - 1]),
    decreases s.len(),
{
    if s.len() > 0 && is_white(s[s.len() - 1]) {
        lemma_trim_end_shape(s.drop_last());
        let t = trim_end(s.drop_last());
        assert(s.drop_last().take(t.len() as int) =~= s.take(t.len() as int));
    } else {
        assert(s.take(s.len() as int) =~= s);
    }
}

/// A trimmed text is empty or starts and ends with a non-whitespace char.
pub proof fn lemma_trimmed_shape(s: Seq<char>)
    ensures
        trimmed(s).len() == 0 || (!is_white(trimmed(s)[0]) && !is_white(
            trimmed(s)[trimmed(s).len() - 1],
        )),
{
    lemma_trim_start_shape(s);
    lemma_trim_end_shape(trim_start(s));
    let t = trimmed(s);
    if t.len() > 0 {
        assert(t[0] == trim_start(s)[0]);
    }
}

/// Law: trimming twice is trimming once.
pub proof fn law_trim_idempotent(s: Seq<char>)
    ensures
        trimmed(trimmed(s)) == trimmed(s),
{
    lemma_trimmed_shape(s);
    let t = trimmed(s);
    assert(trim_start(t) == t);
    assert(trim_end(t) == t);
}

/// `str::trim`: `s` without leading and trailing whitespace.
pub fn trim(s: &str) -> (r: &str)
    ensures
        r@ == trimmed(s@),
{
    let v = chars_of(s);
    let n = v.len();
    let mut a: usize = 0;
    while a < n && exec_is_white(v[a])
        invariant
            n == v.len(),
            v@ == s@,
            a <= n,
            forall|j: int| 0 <= j < a ==> is_white(#[trigger] s@[j]),
        decreases n - a,
    {
        a = a + 1;
    }
    let mut b: usize = n;
    while b > a && exec_is_white(v[b - 1])
        invariant
            n == v.len(),
            v@ == s@,
            a <= b <= n,
            forall|j: int| b <= j < n ==> is_white(#[trigger] s@[j]),
        decreases b - a,
    {
        b = b - 1;
    }
    proof {
        lemma_trim_start(s@, a as int);
        let t = s@.skip(a as int);
        assert forall|j: int| b - a <= j < t.len() implies is_white(#[trigger] t[j]) by {
            assert(t[j] == s@[a + j]);
        }
        if b > a {
            assert(t[b - a - 1] == s@[b - 1]);
        }
        lemma_trim_end(t, b - a);
        assert(t.take(b - a) =~= s@.subrange(a as int, b as int));
    }
    s.substring_char(a, b)
}

/// `needle` occurs in `hay` as a contiguous run.
pub open spec fn has_infix(hay: Seq<char>, needle: Seq<char>) -> bool {
    exists|i: int| 0 <= i && i + needle.len() <= hay.len() && #[trigger] hay.subrange(i, i + needle.len()) == needle
}

/// `str::contains` for a string pattern.
pub fn contains_str(hay: &str, needle: &str) -> (r: bool)
    ensures
        r == has_infix(hay@, needle@),
{
    let h = chars_of(hay);
    let w = chars_of(needle);
    if w.len() > h.len() {
        assert(!has_infix(hay@, needle@)) by {
            if has_infix(hay@, needle@) {
                let i = choose|i: int| 0 <= i && i + needle@.len() <= hay@.len() && #[trigger] hay@.subrange(i, i + needle@.len()) == needle@;
            }
        }
        return false;
    }
    let last = h.len() - w.len();
    let mut i: usize = 0;
    while i <= last
        invariant
            h@ == hay@,
            w@ == needle@,
            last == h.len() - w.len(),
            w.len() <= h.len(),
            i <= last + 1,
            forall|k: int| 0 <= k < i ==> #[trigger] hay@.subrange(k, k + needle@.len()) != needle@,
        decreases last + 1 - i,
    {
        let mut j: usize = 0;
        let mut same = true;
        while j < w.len()
            invariant
                h@ == hay@,
                w@ == needle@,
                i + w.len() <= h.len(),
                j <= w.len(),
                same == forall|m: int| 0 <= m < j ==> h@[i + m] == w@[m],
            decreases w.len() - j,
        {
            if h[i + j] != w[j] {
                same = false;
            }
            j = j + 1;
        }
        if same {
            assert(hay@.subrange(i as int, i + needle@.len()) =~= needle@);
            return true;
        }
        assert(hay@.subrange(i as int, i + needle@.len()) != needle@) by {
            let m = choose|m: int| 0 <= m < w.len() && h@[i + m] != w@[m];
            assert(hay@.subrange(i as int, i + needle@.len())[m] == h@[i + m]);
        }
        i = i + 1;
    }
    false
}

/// `==` on two string slices.
pub fn str_eq(a: &str, b: &str) -> (r: bool)
    ensures
        r == (a@ == b@),
{
    let x = a.to_owned();
    let y = b.to_owned();
    x == y
}

/// What `{:?}` (`Debug`) writes for a string: the text in double quotes,
/// with quotes, backslashes and unprintable chars escaped.
pub uninterp spec fn debug_text(s: Seq<char>) -> Seq<char>;

/// `Debug` of `str`, as `format!("{s:?}")` writes it. The result is
/// `debug_text(s)`.
#[verifier::external_body]
pub(crate) fn debug_quoted(s: &str) -> (r: String)
    ensures
        r@ == debug_text(s@),
{
    format!("{s:?}")
}

/// `Path::join` of a relative component on Unix: the component is added after
/// a `/`, unless the base is empty or already ends with `/`.
pub open spec fn path_join(base: Seq<char>, part: Seq<char>) -> Seq<char> {
    if base.len() == 0 || base[base.len() - 1] == '/' {
        base + part
    } else {
        base + seq!['/'] + part
    }
}

/// Joins a relative component onto a path, as [`path_join`] says.
pub fn join_path(base: &str, part: &str) -> (r: String)
    ensures
        r@ == path_join(base@, part@),
{
    let v = chars_of(base);
    let mut out = base.to_owned();
    if v.len() > 0 && v[v.len() - 1] != '/' {
        out.push('/');
    }
    out.append(part);
    out
}

} // verus!
