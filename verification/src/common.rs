use vstd::prelude::*;

use crate::text::{ascii_lower, chars_of, exec_ascii_lower};
use vstd::utf8::encode_utf8;

verus! {

/// The canonical form of one char: `_` becomes `-`, ASCII letters are lowered.
pub open spec fn canonical_char(c: char) -> char {
    if c == '_' {
        '-'
    } else {
        ascii_lower(c)
    }
}

/// Canonical on-chain form of a registry name: lowercase with `_` → `-`.
pub open spec fn spec_canonicalize(name: Seq<char>) -> Seq<char> {
    name.map_values(|c: char| canonical_char(c))
}

/// Canonical on-chain form of a registry name: lowercase with `_` → `-`.
/// The registry contract stores names in this form.
pub fn canonicalize(name: &str) -> (r: String)
    ensures
        r@ == spec_canonicalize(name@),
{
    let chars = chars_of(name);
    let mut out = String::new();
    let mut i: usize = 0;
    while i < chars.len()
        invariant
            chars@ == name@,
            i <= chars.len(),
            out@ == spec_canonicalize(name@.subrange(0, i as int)),
        decreases chars.len() - i,
    {
        let c = chars[i];
        let d = if c == '_' { '-' } else { exec_ascii_lower(c) };
        out.push(d);
        assert(name@.subrange(0, i + 1) == name@.subrange(0, i as int).push(c));
        i = i + 1;
    }
    assert(name@.subrange(0, chars.len() as int) == name@);
    out
}

/// Law: canonicalizing twice is canonicalizing once.
pub proof fn law_canonicalize_idempotent(name: Seq<char>)
    ensures
        spec_canonicalize(spec_canonicalize(name)) == spec_canonicalize(name),
{
    let once = spec_canonicalize(name);
    assert forall|i: int| 0 <= i < once.len() implies canonical_char(once[i]) == once[i] by {
        let c = name[i];
        if 'A' <= c && c <= 'Z' {
            assert('a' <= ((c as u32) + 32) as char <= 'z');
        }
    }
    assert(spec_canonicalize(once) =~= once);
}

/// Law: the canonical form keeps the length and holds neither `_` nor an
/// ASCII uppercase letter.
pub proof fn law_canonical_form(name: Seq<char>)
    ensures
        spec_canonicalize(name).len() == name.len(),
        forall|i: int|
            0 <= i < name.len() ==> {
                let c = #[trigger] spec_canonicalize(name)[i];
                c != '_' && !('A' <= c && c <= 'Z')
            },
{
    assert forall|i: int| 0 <= i < name.len() implies {
        let c = #[trigger] spec_canonicalize(name)[i];
        c != '_' && !('A' <= c && c <= 'Z')
    } by {
        let c = name[i];
        if 'A' <= c && c <= 'Z' {
            assert('a' <= ((c as u32) + 32) as char <= 'z');
        }
    }
}

/// The canonical form of a name has as many UTF-8 bytes as the name: only
/// ASCII chars change, into ASCII chars.
pub proof fn lemma_canonical_bytes(name: Seq<char>)
    ensures
        encode_utf8(spec_canonicalize(name)).len() == encode_utf8(name).len(),
    decreases name.len(),
{
    if name.len() > 0 {
        let c = name[0];
        let d = canonical_char(c);
        if 'A' <= c && c <= 'Z' {
            assert('a' <= ((c as u32) + 32) as char <= 'z');
        }
        assert((c as u32) <= 0x7F <==> (d as u32) <= 0x7F);
        assert(spec_canonicalize(name)[0] == d);
        assert(spec_canonicalize(name).drop_first() =~= spec_canonicalize(name.drop_first()));
        lemma_canonical_bytes(name.drop_first());
        if (c as u32) > 0x7F {
            assert(d == c);
        }
    }
}

} // verus!
