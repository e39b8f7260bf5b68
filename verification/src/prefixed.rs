//! `name` or `channel/name`: a registry contract name with an optional channel.

use vstd::prelude::*;

use crate::common::{canonicalize, spec_canonicalize};
use crate::error::{NameError, NameErrorView};
use crate::text::{ascii_lower, chars_of, exec_ascii_lower, exec_is_ascii_alnum, is_ascii_alnum};

verus! {

/// A char allowed in a name segment: an ASCII letter or digit, `-` or `_`.
pub open spec fn is_name_char(c: char) -> bool {
    is_ascii_alnum(c) || c == '-' || c == '_'
}

/// A non-empty run of name chars.
pub open spec fn is_segment(s: Seq<char>) -> bool {
    s.len() > 0 && forall|i: int| 0 <= i < s.len() ==> #[trigger] is_name_char(s[i])
}

/// A char that no registry name may hold anywhere: not a name char and not `/`.
pub open spec fn is_foreign(c: char) -> bool {
    !is_name_char(c) && c != '/'
}

/// `s` has a foreign char at `i` and none before it.
pub open spec fn is_first_foreign(s: Seq<char>, i: int) -> bool {
    &&& 0 <= i < s.len()
    &&& is_foreign(s[i])
    &&& forall|j: int| 0 <= j < i ==> !is_foreign(#[trigger] s[j])
}

/// The first foreign char of `s` (meaningful when `s` has one).
pub open spec fn first_foreign(s: Seq<char>) -> char {
    s[choose|i: int| is_first_foreign(s, i)]
}

/// `s` holds at least two `/`.
pub open spec fn has_two_slashes(s: Seq<char>) -> bool {
    exists|i: int, j: int| 0 <= i < j < s.len() && s[i] == '/' && s[j] == '/'
}

/// The parts of a registry name: the optional channel and the bare name.
pub struct PrefixedView {
    pub channel: Option<Seq<char>>,
    pub name: Seq<char>,
}

/// Every parsed name has this shape: segments of name chars, none empty.
pub open spec fn valid_prefixed(p: PrefixedView) -> bool {
    &&& is_segment(p.name)
    &&& p.channel matches Some(c) ==> is_segment(c)
}

/// The text of a name: `channel/name`, or `name` without a channel.
pub open spec fn prefixed_text(p: PrefixedView) -> Seq<char> {
    match p.channel {
        Some(c) => c + seq!['/'] + p.name,
        None => p.name,
    }
}

/// What parsing `s` as a registry name gives: the checks run in this order,
/// and the first that fails names the error.
pub open spec fn spec_parse_prefixed(s: Seq<char>) -> Result<PrefixedView, NameErrorView> {
    if s.len() == 0 {
        Err(NameErrorView::Empty)
    } else if s.contains('@') {
        Err(NameErrorView::UnexpectedVersion(s))
    } else if s[0] == '/' || s[s.len() - 1] == '/' {
        Err(NameErrorView::LeadingOrTrailingSlash(s))
    } else if has_two_slashes(s) {
        Err(NameErrorView::TooManySlashes(s))
    } else if exists|i: int| 0 <= i < s.len() && is_foreign(s[i]) {
        Err(NameErrorView::InvalidCharacter(s, first_foreign(s)))
    } else if s.contains('/') {
        let k = s.index_of('/');
        Ok(PrefixedView { channel: Some(s.take(k)), name: s.skip(k + 1) })
    } else {
        Ok(PrefixedView { channel: None, name: s })
    }
}

/// The module-name form of one char: `-` becomes `_`, ASCII letters are lowered.
pub open spec fn module_char(c: char) -> char {
    ascii_lower(if c == '-' { '_' } else { c })
}

/// Rust module identifier derived from a name: `-` → `_` and chars to lowercase.
pub open spec fn spec_mod_name(name: Seq<char>) -> Seq<char> {
    name.map_values(|c: char| module_char(c))
}

/// A registry contract name with an optional channel prefix, e.g. `our-dao`
/// or `unverified/our-dao`.
///
/// Only constructible by parsing, which enforces: non-empty, at most one `/`
/// (splitting `channel/name`), no `@` (deployed contracts have no version),
/// and every segment made of ASCII letters, digits, `-` or `_`.
#[derive(Clone, Debug, PartialEq, Eq)]
pub struct Prefixed {
    channel: Option<String>,
    name: String,
}

impl View for Prefixed {
    type V = PrefixedView;

    closed spec fn view(&self) -> PrefixedView {
        PrefixedView {
            channel: match self.channel {
                Some(c) => Some(c@),
                None => None,
            },
            name: self.name@,
        }
    }
}

/// The first index at or after `start` where `v` holds `c`.
pub(crate) fn find_char_from(v: &Vec<char>, start: usize, c: char) -> (r: Option<usize>)
    requires
        start <= v.len(),
    ensures
        match r {
            Some(i) => start <= i < v.len() && v@[i as int] == c && forall|j: int|
                start <= j < i ==> v@[j] != c,
            None => forall|j: int| start <= j < v.len() ==> v@[j] != c,
        },
{
    let mut i = start;
    while i < v.len()
        invariant
            start <= i <= v.len(),
            forall|j: int| start <= j < i ==> v@[j] != c,
        decreases v.len() - i,
    {
        if v[i] == c {
            return Some(i);
        }
        i = i + 1;
    }
    None
}

fn exec_is_name_char(c: char) -> (r: bool)
    ensures
        r == is_name_char(c),
{
    exec_is_ascii_alnum(c) || c == '-' || c == '_'
}

/// The first index where `v` holds a foreign char.
fn find_foreign(v: &Vec<char>) -> (r: Option<usize>)
    ensures
        match r {
            Some(i) => is_first_foreign(v@, i as int),
            None => forall|j: int| 0 <= j < v.len() ==> !is_foreign(#[trigger] v@[j]),
        },
{
    let mut i: usize = 0;
    while i < v.len()
        invariant
            i <= v.len(),
            forall|j: int| 0 <= j < i ==> !is_foreign(#[trigger] v@[j]),
        decreases v.len() - i,
    {
        let c = v[i];
        if !exec_is_name_char(c) && c != '/' {
            return Some(i);
        }
        i = i + 1;
    }
    None
}

proof fn lemma_first_foreign(s: Seq<char>, i: int)
    requires
        is_first_foreign(s, i),
    ensures
        first_foreign(s) == s[i],
{
    let k = choose|k: int| is_first_foreign(s, k);
    assert(is_first_foreign(s, k));
    if k < i {
        assert(!is_foreign(s[k]));
    } else if i < k {
        assert(!is_foreign(s[i]));
    }
}

impl Prefixed {
    /// Parses `name` or `channel/name`, refusing an empty name, an `@`, a
    /// leading or trailing `/`, more than one `/`, and any char other than
    /// ASCII letters, digits, `-` and `_` (checked in that order).
    pub fn parse(s: &str) -> (r: Result<Prefixed, NameError>)
        ensures
            match r {
                Ok(p) => spec_parse_prefixed(s@) == Ok::<PrefixedView, NameErrorView>(p@),
                Err(e) => spec_parse_prefixed(s@) == Err::<PrefixedView, NameErrorView>(e@),
            },
            r matches Ok(p) ==> valid_prefixed(p@),
    {
        let v = chars_of(s);
        let n = v.len();
        if n == 0 {
            return Err(NameError::Empty);
        }
        if let Some(_) = find_char_from(&v, 0, '@') {
            return Err(NameError::UnexpectedVersion(s.to_owned()));
        }
        assert(!s@.contains('@'));
        if v[0] == '/' || v[n - 1] == '/' {
            return Err(NameError::LeadingOrTrailingSlash(s.to_owned()));
        }
        let first_slash = find_char_from(&v, 0, '/');
        if let Some(k) = first_slash {
            if let Some(k2) = find_char_from(&v, k + 1, '/') {
                assert(s@[k as int] == '/' && s@[k2 as int] == '/');
                return Err(NameError::TooManySlashes(s.to_owned()));
            }
        }
        assert(!has_two_slashes(s@)) by {
            if has_two_slashes(s@) {
                let (i, j) = choose|i: int, j: int|
                    0 <= i < j < s@.len() && s@[i] == '/' && s@[j] == '/';
                let k = first_slash.unwrap();
                assert(k <= i);
            }
        }
        if let Some(i) = find_foreign(&v) {
            proof {
                lemma_first_foreign(s@, i as int);
            }
            return Err(NameError::InvalidCharacter(s.to_owned(), v[i]));
        }
        match first_slash {
            Some(k) => {
                assert(s@.contains('/'));
                let ghost kk = s@.index_of('/');
                assert(kk == k) by {
                    if kk < k {
                    } else if k < kk {
                        assert(has_two_slashes(s@)) by {
                            assert(s@[k as int] == '/' && s@[kk] == '/');
                        }
                    }
                }
                let channel = s.substring_char(0, k).to_owned();
                let name = s.substring_char(k + 1, n).to_owned();
                let p = Prefixed { channel: Some(channel), name };
                proof {
                    assert(p@.name == s@.skip(k + 1));
                    assert(p@.channel == Some(s@.take(k as int)));
                    assert forall|i: int| 0 <= i < s@.len() implies s@[i] == '/' || is_name_char(
                        s@[i],
                    ) by {
                        assert(!is_foreign(v@[i]));
                    }
                    assert forall|i: int| 0 <= i < p@.name.len() implies #[trigger] is_name_char(
                        p@.name[i],
                    ) by {
                        assert(p@.name[i] == s@[k + 1 + i]);
                        assert(s@[k + 1 + i] != '/');
                    }
                    assert forall|i: int| 0 <= i < k implies #[trigger] is_name_char(s@.take(k as int)[i]) by {
                        assert(s@.take(k as int)[i] == s@[i]);
                        assert(s@[i] != '/');
                    }
                }
                Ok(p)
            },
            None => {
                assert(!s@.contains('/'));
                let p = Prefixed { channel: None, name: s.to_owned() };
                proof {
                    assert forall|i: int| 0 <= i < p@.name.len() implies #[trigger] is_name_char(
                        p@.name[i],
                    ) by {
                        assert(!is_foreign(v@[i]));
                        assert(s@[i] != '/');
                    }
                }
                Ok(p)
            },
        }
    }

    /// The bare contract name, without the channel prefix.
    pub fn name(&self) -> (r: &str)
        ensures
            r@ == self@.name,
    {
        self.name.as_str()
    }

    /// The channel prefix, if any (`unverified` in `unverified/our-dao`).
    pub fn channel(&self) -> (r: Option<&str>)
        ensures
            match r {
                Some(c) => self@.channel == Some(c@),
                None => self@.channel is None,
            },
    {
        match &self.channel {
            Some(c) => Some(c.as_str()),
            None => None,
        }
    }

    /// Rust module identifier derived from the name: `-` → `_` and chars to lowercase.
    pub fn mod_name(&self) -> (r: String)
        ensures
            r@ == spec_mod_name(self@.name),
    {
        let chars = chars_of(self.name.as_str());
        let ghost name = self@.name;
        let mut out = String::new();
        let mut i: usize = 0;
        while i < chars.len()
            invariant
                chars@ == name,
                name == self@.name,
                i <= chars.len(),
                out@ == spec_mod_name(name.subrange(0, i as int)),
            decreases chars.len() - i,
        {
            let c = chars[i];
            let d = exec_ascii_lower(if c == '-' { '_' } else { c });
            out.push(d);
            assert(name.subrange(0, i + 1) == name.subrange(0, i as int).push(c));
            i = i + 1;
        }
        assert(name.subrange(0, chars.len() as int) == name);
        out
    }

    /// Canonical on-chain form of the bare name (see [`canonicalize`]).
    pub fn canonical_name(&self) -> (r: String)
        ensures
            r@ == spec_canonicalize(self@.name),
    {
        canonicalize(self.name.as_str())
    }

    /// The name as written: `channel/name`, or `name` without a channel.
    pub fn to_string(&self) -> (r: String)
        ensures
            r@ == prefixed_text(self@),
    {
        match &self.channel {
            Some(c) => {
                let mut out = c.clone();
                out.push('/');
                out.append(self.name.as_str());
                out
            },
            None => self.name.clone(),
        }
    }
}

impl std::str::FromStr for Prefixed {
    type Err = NameError;

    fn from_str(s: &str) -> (r: Result<Self, Self::Err>)
        ensures
            match r {
                Ok(p) => spec_parse_prefixed(s@) == Ok::<PrefixedView, NameErrorView>(p@),
                Err(e) => spec_parse_prefixed(s@) == Err::<PrefixedView, NameErrorView>(e@),
            },
    {
        Prefixed::parse(s)
    }
}

/// Law: the text of a parsed name is the text it was parsed from, so
/// `to_string` gives back exactly what `parse` accepted.
pub proof fn law_parse_then_text(s: Seq<char>)
    requires
        spec_parse_prefixed(s) is Ok,
    ensures
        prefixed_text(spec_parse_prefixed(s)->Ok_0) == s,
        valid_prefixed(spec_parse_prefixed(s)->Ok_0),
{
    let p = spec_parse_prefixed(s)->Ok_0;
    assert forall|i: int| 0 <= i < s.len() implies s[i] == '/' || is_name_char(s[i]) by {
        assert(!is_foreign(s[i]));
    }
    if s.contains('/') {
        let k = s.index_of('/');
        assert(s.take(k) + seq!['/'] + s.skip(k + 1) =~= s);
        assert forall|i: int| 0 <= i < p.name.len() implies #[trigger] is_name_char(p.name[i]) by {
            assert(p.name[i] == s[k + 1 + i]);
            if s[k + 1 + i] == '/' {
                assert(has_two_slashes(s));
            }
        }
        assert forall|i: int| 0 <= i < k implies #[trigger] is_name_char(s.take(k)[i]) by {
            assert(s.take(k)[i] == s[i]);
            if s[i] == '/' {
                assert(has_two_slashes(s));
            }
        }
    } else {
        assert forall|i: int| 0 <= i < p.name.len() implies #[trigger] is_name_char(p.name[i]) by {
            assert(s[i] != '/');
        }
    }
}

/// Law: every well-formed name is accepted when written out, and parsing its
/// text gives back the same name.
pub proof fn law_text_then_parse(p: PrefixedView)
    requires
        valid_prefixed(p),
    ensures
        spec_parse_prefixed(prefixed_text(p)) == Ok::<PrefixedView, NameErrorView>(p),
{
    let t = prefixed_text(p);
    match p.channel {
        Some(c) => {
            let k = c.len() as int;
            assert(t[k] == '/');
            assert forall|i: int| 0 <= i < t.len() && i != k implies #[trigger] is_name_char(t[i]) by {
                if i < k {
                    assert(t[i] == c[i]);
                } else {
                    assert(t[i] == p.name[i - k - 1]);
                }
            }
            assert(!t.contains('@')) by {
                if t.contains('@') {
                    let i = t.index_of('@');
                    if i != k {
                        assert(is_name_char(t[i]));
                    }
                }
            }
            assert(t[0] != '/') by {
                assert(t[0] == c[0]);
                assert(is_name_char(c[0]));
            }
            assert(t[t.len() - 1] != '/') by {
                assert(t[t.len() - 1] == p.name[p.name.len() - 1]);
                assert(is_name_char(p.name[p.name.len() - 1]));
            }
            assert(!has_two_slashes(t)) by {
                if has_two_slashes(t) {
                    let (i, j) = choose|i: int, j: int|
                        0 <= i < j < t.len() && t[i] == '/' && t[j] == '/';
                    if i != k {
                        assert(is_name_char(t[i]));
                    } else {
                        assert(is_name_char(t[j]));
                    }
                }
            }
            assert(!(exists|i: int| 0 <= i < t.len() && is_foreign(t[i]))) by {
                if exists|i: int| 0 <= i < t.len() && is_foreign(t[i]) {
                    let i = choose|i: int| 0 <= i < t.len() && is_foreign(t[i]);
                    if i != k {
                        assert(is_name_char(t[i]));
                    }
                }
            }
            assert(t.contains('/'));
            let kk = t.index_of('/');
            assert(kk == k) by {
                if kk != k {
                    assert(is_name_char(t[kk]));
                }
            }
            assert(t.take(k) =~= c);
            assert(t.skip(k + 1) =~= p.name);
        },
        None => {
            assert(t == p.name);
            assert forall|i: int| 0 <= i < t.len() implies #[trigger] is_name_char(t[i]) by {}
            assert(!t.contains('@')) by {
                if t.contains('@') {
                    let i = t.index_of('@');
                    assert(is_name_char(t[i]));
                }
            }
            assert(!t.contains('/')) by {
                if t.contains('/') {
                    let i = t.index_of('/');
                    assert(is_name_char(t[i]));
                }
            }
            assert(!has_two_slashes(t)) by {
                if has_two_slashes(t) {
                    let (i, j) = choose|i: int, j: int|
                        0 <= i < j < t.len() && t[i] == '/' && t[j] == '/';
                    assert(is_name_char(t[i]));
                }
            }
            assert(!(exists|i: int| 0 <= i < t.len() && is_foreign(t[i]))) by {
                if exists|i: int| 0 <= i < t.len() && is_foreign(t[i]) {
                    let i = choose|i: int| 0 <= i < t.len() && is_foreign(t[i]);
                    assert(is_name_char(t[i]));
                }
            }
        },
    }
}

/// Law: every non-empty run of ASCII letters, digits, `-` and `_` is a name
/// without a channel, read exactly as written.
pub proof fn law_plain_names_accepted(s: Seq<char>)
    requires
        s.len() > 0,
        forall|i: int|
            0 <= i < s.len() ==> {
                let c = #[trigger] s[i];
                ('0' <= c && c <= '9') || ('a' <= c && c <= 'z') || ('A' <= c && c <= 'Z') || c
                    == '-' || c == '_'
            },
    ensures
        spec_parse_prefixed(s) == Ok::<PrefixedView, NameErrorView>(
            PrefixedView { channel: None, name: s },
        ),
{
    assert forall|i: int| 0 <= i < s.len() implies #[trigger] is_name_char(s[i]) by {}
    law_text_then_parse(PrefixedView { channel: None, name: s });
}

/// Law: two non-empty runs of ASCII letters, digits, `-` and `_` joined by
/// one `/` are a channel and a name, read exactly as written.
pub proof fn law_channel_names_accepted(channel: Seq<char>, name: Seq<char>)
    requires
        channel.len() > 0,
        name.len() > 0,
        forall|i: int|
            0 <= i < channel.len() ==> {
                let c = #[trigger] channel[i];
                ('0' <= c && c <= '9') || ('a' <= c && c <= 'z') || ('A' <= c && c <= 'Z') || c
                    == '-' || c == '_'
            },
        forall|i: int|
            0 <= i < name.len() ==> {
                let c = #[trigger] name[i];
                ('0' <= c && c <= '9') || ('a' <= c && c <= 'z') || ('A' <= c && c <= 'Z') || c
                    == '-' || c == '_'
            },
    ensures
        spec_parse_prefixed(channel + seq!['/'] + name) == Ok::<PrefixedView, NameErrorView>(
            PrefixedView { channel: Some(channel), name },
        ),
{
    assert forall|i: int| 0 <= i < channel.len() implies #[trigger] is_name_char(channel[i]) by {}
    assert forall|i: int| 0 <= i < name.len() implies #[trigger] is_name_char(name[i]) by {}
    law_text_then_parse(PrefixedView { channel: Some(channel), name });
}

/// Law: a name holding a char that is not an ASCII letter or digit, `-`,
/// `_` or `/` is refused.
pub proof fn law_other_chars_refused(s: Seq<char>, i: int)
    requires
        0 <= i < s.len(),
        ({
            let c = s[i];
            !(('0' <= c && c <= '9') || ('a' <= c && c <= 'z') || ('A' <= c && c <= 'Z') || c
                == '-' || c == '_' || c == '/')
        }),
    ensures
        spec_parse_prefixed(s) is Err,
{
    assert(is_foreign(s[i]));
}

/// Law: a name that holds `@` is refused as carrying a version (deployed
/// contracts have no version).
pub proof fn law_version_refused(s: Seq<char>)
    requires
        s.contains('@'),
    ensures
        spec_parse_prefixed(s) == Err::<PrefixedView, NameErrorView>(NameErrorView::UnexpectedVersion(s)),
{
}

/// Law: the module name of a parsed name is a valid Rust identifier body made
/// of lowercase ASCII letters, digits and `_`, as long as the name.
pub proof fn law_mod_name_chars(name: Seq<char>)
    requires
        is_segment(name),
    ensures
        spec_mod_name(name).len() == name.len(),
        forall|i: int| 0 <= i < name.len() ==> {
            let c = #[trigger] spec_mod_name(name)[i];
            ('a' <= c && c <= 'z') || ('0' <= c && c <= '9') || c == '_'
        },
{
    assert forall|i: int| 0 <= i < name.len() implies {
        let c = #[trigger] spec_mod_name(name)[i];
        ('a' <= c && c <= 'z') || ('0' <= c && c <= '9') || c == '_'
    } by {
        assert(is_name_char(name[i]));
        let d = name[i];
        if 'A' <= d && d <= 'Z' {
            assert('a' <= ((d as u32) + 32) as char <= 'z');
        }
    }
}

} // verus!
