//! `name@version`: a registry name with an optional published version.

use vstd::prelude::*;

use crate::error::{NameError, NameErrorView};
use crate::prefixed::{
    find_char_from, prefixed_text, spec_parse_prefixed, valid_prefixed, Prefixed, PrefixedView,
};
use crate::text::chars_of;
use crate::version::{semver_parse, strip_leading_v, strip_v, version_text, Version, VersionView};

verus! {

/// `s` holds `c` at `i` and nowhere before.
pub open spec fn is_first_index(s: Seq<char>, c: char, i: int) -> bool {
    &&& 0 <= i < s.len()
    &&& s[i] == c
    &&& forall|j: int| 0 <= j < i ==> s[j] != c
}

/// The index of the first `c` in `s` (meaningful when `s` holds one).
pub open spec fn first_index(s: Seq<char>, c: char) -> int {
    choose|i: int| is_first_index(s, c, i)
}

/// The parts of a versioned name.
pub struct VersionedView {
    pub name: PrefixedView,
    pub version: Option<VersionView>,
}

/// What parsing `s` as a versioned name gives: without `@`, a bare
/// [`Prefixed`]; with one, the text before the first `@` is the name and the
/// text after it, less one leading `v`, must be a semantic version.
pub open spec fn spec_parse_versioned(s: Seq<char>) -> Result<VersionedView, NameErrorView> {
    if s.contains('@') {
        let k = first_index(s, '@');
        let version = s.skip(k + 1);
        match spec_parse_prefixed(s.take(k)) {
            Err(e) => Err(e),
            Ok(name) => match semver_parse(strip_v(version)) {
                Ok(v) => Ok(VersionedView { name, version: Some(v) }),
                Err(_) => Err(NameErrorView::InvalidVersion { input: s, version }),
            },
        }
    } else {
        match spec_parse_prefixed(s) {
            Err(e) => Err(e),
            Ok(name) => Ok(VersionedView { name, version: None }),
        }
    }
}

/// The text of a versioned name: the name, then `@` and the version if any.
pub open spec fn versioned_text(v: VersionedView) -> Seq<char> {
    match v.version {
        Some(ver) => prefixed_text(v.name) + seq!['@'] + version_text(ver),
        None => prefixed_text(v.name),
    }
}

/// A registry wasm name, [`Prefixed`] plus an optional `@version`.
#[derive(Clone, Debug)]
pub struct Versioned {
    name: Prefixed,
    version: Option<Version>,
}

impl View for Versioned {
    type V = VersionedView;

    closed spec fn view(&self) -> VersionedView {
        VersionedView {
            name: self.name@,
            version: match self.version {
                Some(v) => Some(v@),
                None => None,
            },
        }
    }
}

proof fn lemma_first_index(s: Seq<char>, c: char, i: int)
    requires
        is_first_index(s, c, i),
    ensures
        first_index(s, c) == i,
{
    let k = choose|k: int| is_first_index(s, c, k);
    assert(is_first_index(s, c, k));
    if k < i {
        assert(s[k] != c);
    } else if i < k {
        assert(s[i] != c);
    }
}

impl Versioned {
    /// Parses `name`, `channel/name`, `name@version` or `channel/name@version`.
    /// A leading `v` on the version is tolerated; a malformed version is an
    /// error, never silently "latest".
    pub fn parse(s: &str) -> (r: Result<Versioned, NameError>)
        ensures
            match r {
                Ok(v) => spec_parse_versioned(s@) == Ok::<VersionedView, NameErrorView>(v@),
                Err(e) => spec_parse_versioned(s@) == Err::<VersionedView, NameErrorView>(e@),
            },
            r matches Ok(v) ==> valid_prefixed(v@.name),
    {
        let chars = chars_of(s);
        let n = chars.len();
        match find_char_from(&chars, 0, '@') {
            None => {
                assert(!s@.contains('@'));
                let name = Prefixed::parse(s)?;
                Ok(Versioned { name, version: None })
            },
            Some(k) => {
                proof {
                    lemma_first_index(s@, '@', k as int);
                }
                let name_text = s.substring_char(0, k);
                let version_text = s.substring_char(k + 1, n);
                assert(name_text@ == s@.take(k as int));
                assert(version_text@ == s@.skip(k + 1));
                let name = Prefixed::parse(name_text)?;
                let bare = strip_leading_v(version_text);
                match Version::parse(bare) {
                    Ok(version) => Ok(Versioned { name, version: Some(version) }),
                    Err(source) => Err(
                        NameError::InvalidVersion {
                            input: s.to_owned(),
                            version: version_text.to_owned(),
                            source,
                        },
                    ),
                }
            },
        }
    }

    /// The registry name, without the version.
    pub fn name(&self) -> (r: &Prefixed)
        ensures
            r@ == self@.name,
    {
        &self.name
    }

    /// The requested version, if any; `None` means the latest.
    pub fn version(&self) -> (r: Option<&Version>)
        ensures
            match r {
                Some(v) => self@.version == Some(v@),
                None => self@.version is None,
            },
    {
        match &self.version {
            Some(v) => Some(v),
            None => None,
        }
    }

    /// The name as written: the name, then `@` and the version if any.
    pub fn to_string(&self) -> (r: String)
        ensures
            r@ == versioned_text(self@),
    {
        let mut out = self.name.to_string();
        if let Some(v) = &self.version {
            out.push('@');
            let t = v.to_string();
            out.append(t.as_str());
        }
        out
    }
}

impl std::str::FromStr for Versioned {
    type Err = NameError;

    fn from_str(s: &str) -> (r: Result<Self, Self::Err>)
        ensures
            match r {
                Ok(v) => spec_parse_versioned(s@) == Ok::<VersionedView, NameErrorView>(v@),
                Err(e) => spec_parse_versioned(s@) == Err::<VersionedView, NameErrorView>(e@),
            },
    {
        Versioned::parse(s)
    }
}

/// Law: a name that carries `@` is never read as "latest": either it is
/// refused or its version is there.
pub proof fn law_version_never_dropped(s: Seq<char>)
    requires
        s.contains('@'),
        spec_parse_versioned(s) is Ok,
    ensures
        spec_parse_versioned(s)->Ok_0.version is Some,
{
}

/// Law: without `@`, a versioned name is exactly a [`Prefixed`] name with no
/// version, and its text is the text it was parsed from.
pub proof fn law_unversioned_is_prefixed(s: Seq<char>)
    requires
        !s.contains('@'),
    ensures
        match spec_parse_prefixed(s) {
            Ok(p) => spec_parse_versioned(s) == Ok::<VersionedView, NameErrorView>(
                VersionedView { name: p, version: None },
            ) && versioned_text(VersionedView { name: p, version: None }) == s,
            Err(e) => spec_parse_versioned(s) == Err::<VersionedView, NameErrorView>(e),
        },
{
    if spec_parse_prefixed(s) is Ok {
        crate::prefixed::law_parse_then_text(s);
    }
}

/// Law: with an `@`, the name part of a versioned name is the registry name
/// read from the text before the `@`, channel and all, and is written back as
/// that text; the version is what `semver` reads from the rest, less a
/// leading `v`.
pub proof fn law_versioned_name_before_at(name: Seq<char>, version: Seq<char>)
    requires
        !name.contains('@'),
    ensures
        ({
            let s = name + seq!['@'] + version;
            spec_parse_versioned(s) matches Ok(v) ==> {
                &&& spec_parse_prefixed(name) == Ok::<PrefixedView, NameErrorView>(v.name)
                &&& prefixed_text(v.name) == name
                &&& v.version == Some(semver_parse(strip_v(version))->Ok_0)
                &&& versioned_text(v) == name + seq!['@'] + version_text(
                    semver_parse(strip_v(version))->Ok_0,
                )
            }
        }),
        spec_parse_prefixed(name) is Err ==> spec_parse_versioned(name + seq!['@'] + version)
            is Err,
{
    let s = name + seq!['@'] + version;
    let k = name.len() as int;
    assert forall|j: int| 0 <= j < k implies s[j] != '@' by {
        assert(s[j] == name[j]);
    }
    assert(s[k] == '@');
    lemma_first_index(s, '@', k);
    assert(s.contains('@'));
    assert(s.take(k) =~= name);
    assert(s.skip(k + 1) =~= version);
    if spec_parse_prefixed(name) is Ok {
        crate::prefixed::law_parse_then_text(name);
    }
}

/// Law: a leading `v` on the version is tolerated: `name@v1.2.3` reads as
/// `name@1.2.3` does.
pub proof fn law_leading_v_tolerated(name: Seq<char>, version: Seq<char>)
    requires
        !name.contains('@'),
        !(version.len() > 0 && version[0] == 'v'),
    ensures
        (spec_parse_versioned(name + seq!['@', 'v'] + version) is Ok) == (spec_parse_versioned(
            name + seq!['@'] + version,
        ) is Ok),
        spec_parse_versioned(name + seq!['@'] + version) is Ok ==> spec_parse_versioned(
            name + seq!['@', 'v'] + version,
        ) == spec_parse_versioned(name + seq!['@'] + version),
{
    let plain = name + seq!['@'] + version;
    let with_v = name + seq!['@', 'v'] + version;
    let k = name.len() as int;
    assert forall|j: int| 0 <= j < k implies plain[j] != '@' && with_v[j] != '@' by {
        assert(plain[j] == name[j]);
        assert(with_v[j] == name[j]);
    }
    assert(plain[k] == '@');
    assert(with_v[k] == '@');
    lemma_first_index(plain, '@', k);
    lemma_first_index(with_v, '@', k);
    assert(plain.contains('@'));
    assert(with_v.contains('@'));
    assert(plain.take(k) =~= name);
    assert(with_v.take(k) =~= name);
    assert(plain.skip(k + 1) =~= version);
    assert(with_v.skip(k + 1) =~= seq!['v'] + version);
    assert(strip_v(seq!['v'] + version) =~= version);
}

} // verus!
