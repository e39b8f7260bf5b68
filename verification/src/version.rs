//! Semantic versions as plain values, read by the `semver` crate.

use vstd::prelude::*;

verus! {

/// The parts of a semantic version.
pub struct VersionView {
    pub major: u64,
    pub minor: u64,
    pub patch: u64,
    pub pre: Seq<char>,
    pub build: Seq<char>,
}

/// What `semver::Version::parse` reads from a text: the version's numbers and
/// its pre-release and build texts, or, where it refuses the text, the text
/// (`Display`) of the error it returns.
pub uninterp spec fn semver_parse(text: Seq<char>) -> Result<VersionView, Seq<char>>;

/// A semantic version `major.minor.patch[-pre][+build]`.
#[derive(Clone, Debug)]
pub struct Version {
    pub major: u64,
    pub minor: u64,
    pub patch: u64,
    pub pre: String,
    pub build: String,
}

impl View for Version {
    type V = VersionView;

    open spec fn view(&self) -> VersionView {
        VersionView {
            major: self.major,
            minor: self.minor,
            patch: self.patch,
            pre: self.pre@,
            build: self.build@,
        }
    }
}

/// `semver::Version::parse`: reads `text` as a semantic version. The version,
/// or the text of the error beside the error itself, is `semver_parse(text)`.
#[verifier::external_body]
fn semver_version_parse(text: &str) -> (r: Result<Version, (semver::Error, String)>)
    ensures
        match r {
            Ok(v) => semver_parse(text@) == Ok::<VersionView, Seq<char>>(v@),
            Err((_, t)) => semver_parse(text@) == Err::<VersionView, Seq<char>>(t@),
        },
{
    match semver::Version::parse(text) {
        Ok(v) => Ok(Version {
            major: v.major,
            minor: v.minor,
            patch: v.patch,
            pre: v.pre.as_str().to_string(),
            build: v.build.as_str().to_string(),
        }),
        Err(e) => {
            let t = e.to_string();
            Err((e, t))
        },
    }
}

/// What `semver` says against `text`, if it refuses it.
pub(crate) fn semver_refusal(text: &str) -> (r: Option<String>)
    ensures
        match semver_parse(text@) {
            Ok(_) => r is None,
            Err(t) => r matches Some(m) && m@ == t,
        },
{
    match semver_version_parse(text) {
        Ok(_) => None,
        Err((_, t)) => Some(t),
    }
}

/// The version text with one leading `v` dropped, if it has one.
pub open spec fn strip_v(t: Seq<char>) -> Seq<char> {
    if t.len() > 0 && t[0] == 'v' {
        t.skip(1)
    } else {
        t
    }
}

/// Drops one leading `v` from a version text (`v1.0.0` is `1.0.0`).
pub(crate) fn strip_leading_v(t: &str) -> (r: &str)
    ensures
        r@ == strip_v(t@),
{
    let n = t.unicode_len();
    if n > 0 && t.get_char(0) == 'v' {
        t.substring_char(1, n)
    } else {
        t
    }
}

/// The decimal digit of `d` (which is below 10).
pub open spec fn digit_char(d: nat) -> char {
    ((48 + d) as u8) as char
}

/// The decimal text of `n`, without leading zeros.
pub open spec fn decimal(n: nat) -> Seq<char>
    decreases n,
{
    if n < 10 {
        seq![digit_char(n)]
    } else {
        decimal(n / 10).push(digit_char(n % 10))
    }
}

/// The text of a version: `major.minor.patch`, then `-pre` and `+build`
/// where those are not empty.
pub open spec fn version_text(v: VersionView) -> Seq<char> {
    let core = decimal(v.major as nat) + seq!['.'] + decimal(v.minor as nat) + seq!['.'] + decimal(
        v.patch as nat,
    );
    let with_pre = if v.pre.len() > 0 {
        core + seq!['-'] + v.pre
    } else {
        core
    };
    if v.build.len() > 0 {
        with_pre + seq!['+'] + v.build
    } else {
        with_pre
    }
}

/// Law: the text of a version starts with `major.minor.patch`; a non-empty
/// pre-release follows it as `-pre` whether or not there is build metadata;
/// non-empty build metadata ends it as `+build`; and a version with neither
/// is just its numbers.
pub proof fn law_version_text_parts(v: VersionView)
    ensures
        ({
            let core = decimal(v.major as nat) + seq!['.'] + decimal(v.minor as nat) + seq!['.']
                + decimal(v.patch as nat);
            let t = version_text(v);
            &&& t.len() >= core.len()
            &&& t.take(core.len() as int) == core
            &&& v.pre.len() > 0 ==> t.len() >= core.len() + 1 + v.pre.len() && t.subrange(
                core.len() as int,
                (core.len() + 1 + v.pre.len()) as int,
            ) == seq!['-'] + v.pre
            &&& v.pre.len() == 0 && v.build.len() > 0 ==> t.len() > core.len() && t[core.len() as int] == '+'
            &&& v.build.len() > 0 ==> t.len() >= v.build.len() + 1 && t.skip(
                t.len() - v.build.len() - 1,
            ) == seq!['+'] + v.build
            &&& v.pre.len() == 0 && v.build.len() == 0 ==> t == core
        }),
{
    let core = decimal(v.major as nat) + seq!['.'] + decimal(v.minor as nat) + seq!['.'] + decimal(
        v.patch as nat,
    );
    let t = version_text(v);
    let with_pre = if v.pre.len() > 0 {
        core + seq!['-'] + v.pre
    } else {
        core
    };
    if v.pre.len() > 0 {
        assert(with_pre.subrange(core.len() as int, (core.len() + 1 + v.pre.len()) as int) =~= seq!['-'] + v.pre);
        assert(with_pre.take(core.len() as int) =~= core);
    } else {
        assert(with_pre.take(core.len() as int) =~= core);
    }
    if v.build.len() > 0 {
        assert(t == with_pre + seq!['+'] + v.build);
        assert(t.take(core.len() as int) =~= with_pre.take(core.len() as int));
        assert(t.skip(t.len() - v.build.len() - 1) =~= seq!['+'] + v.build);
        if v.pre.len() > 0 {
            assert(t.subrange(core.len() as int, (core.len() + 1 + v.pre.len()) as int) =~= with_pre.subrange(
                core.len() as int,
                (core.len() + 1 + v.pre.len()) as int,
            ));
        } else {
            assert(t[core.len() as int] == '+');
        }
    } else {
        assert(t == with_pre);
    }
}

/// The number that a run of decimal digits spells.
pub open spec fn decimal_value(s: Seq<char>) -> int
    decreases s.len(),
{
    if s.len() == 0 {
        0
    } else {
        decimal_value(s.drop_last()) * 10 + (s.last() as int - '0' as int)
    }
}

/// The digit char of `d` stands for `d`.
proof fn lemma_digit_char(d: nat)
    requires
        d < 10,
    ensures
        digit_char(d) as int - '0' as int == d,
        '0' <= digit_char(d) <= '9',
{
    let b: u8 = (48 + d) as u8;
    assert(b as int == 48 + d);
    assert(('0' as int) == 48);
}

/// Law: the decimal text of `n` is a non-empty run of digits, with no
/// leading zero unless it is `0`, that spells `n` back.
pub proof fn law_decimal_reads_back(n: nat)
    ensures
        decimal(n).len() > 0,
        forall|i: int| 0 <= i < decimal(n).len() ==> '0' <= #[trigger] decimal(n)[i] <= '9',
        decimal(n)[0] == '0' ==> n == 0,
        decimal_value(decimal(n)) == n,
    decreases n,
{
    if n < 10 {
        lemma_digit_char(n);
        assert(decimal(n) == seq![digit_char(n)]);
        assert(decimal(n).drop_last() =~= Seq::<char>::empty());
        assert(decimal_value(Seq::<char>::empty()) == 0);
        assert(decimal(n).last() == digit_char(n));
    } else {
        let q = n / 10;
        let r = n % 10;
        law_decimal_reads_back(q);
        lemma_digit_char(r);
        let t = decimal(q).push(digit_char(r));
        assert(t.drop_last() =~= decimal(q));
        assert(t.last() == digit_char(r));
        assert(decimal(n) == t);
        assert(decimal_value(t) == decimal_value(decimal(q)) * 10 + r);
        assert(t[0] == decimal(q)[0]);
        assert forall|i: int| 0 <= i < t.len() implies '0' <= #[trigger] t[i] <= '9' by {
            if i < decimal(q).len() {
                assert(t[i] == decimal(q)[i]);
            }
        }
        assert(q * 10 + r == n) by (nonlinear_arith)
            requires
                q == n / 10,
                r == n % 10,
        ;
        assert(q > 0);
    }
}

/// Appends the decimal text of `n` to `out`.
fn push_decimal(out: &mut String, n: u64)
    ensures
        final(out)@ == old(out)@ + decimal(n as nat),
    decreases n,
{
    if n < 10 {
        let d: u8 = n as u8;
        out.push((48 + d) as char);
    } else {
        push_decimal(out, n / 10);
        let d: u8 = (n % 10) as u8;
        out.push((48 + d) as char);
    }
}

impl Version {
    /// Reads `text` as a semantic version, with `semver`'s rules.
    pub fn parse(text: &str) -> (r: Result<Version, semver::Error>)
        ensures
            r is Ok <==> semver_parse(text@) is Ok,
            r matches Ok(v) ==> semver_parse(text@) == Ok::<VersionView, Seq<char>>(v@),
    {
        match semver_version_parse(text) {
            Ok(v) => Ok(v),
            Err((e, _)) => Err(e),
        }
    }

    /// The version as `semver` writes it: `major.minor.patch[-pre][+build]`.
    pub fn to_string(&self) -> (r: String)
        ensures
            r@ == version_text(self@),
    {
        let mut out = String::new();
        push_decimal(&mut out, self.major);
        out.push('.');
        push_decimal(&mut out, self.minor);
        out.push('.');
        push_decimal(&mut out, self.patch);
        if !self.pre.as_str().is_empty() {
            out.push('-');
            out.append(self.pre.as_str());
        }
        if !self.build.as_str().is_empty() {
            out.push('+');
            out.append(self.build.as_str());
        }
        out
    }
}

} // verus!
