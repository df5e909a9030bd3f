//! ASCII case folding on bytes, and the prefix test that is built on it.
//!
//! Language tags and the prefixes they are held against are ASCII text whose
//! case carries no meaning. Strings are compared byte by byte, on their UTF-8
//! encoding, so that no character boundary has to be looked for: a byte of a
//! character outside ASCII is never a letter and is left as it is.

use vstd::prelude::*;
use vstd::string::StringSliceAdditionalSpecFns;

verus! {

/// The byte `b` with an ASCII capital letter replaced by its small letter.
pub open spec fn ascii_lower(b: u8) -> u8 {
    if 0x41 <= b <= 0x5a {
        (b + 0x20) as u8
    } else {
        b
    }
}

/// Whether `a` and `b` are the same bytes once ASCII letters are folded to
/// one case.
pub open spec fn eq_ignore_ascii_case(a: Seq<u8>, b: Seq<u8>) -> bool {
    &&& a.len() == b.len()
    &&& forall|i: int| 0 <= i < a.len() ==> ascii_lower(#[trigger] a[i]) == ascii_lower(b[i])
}

/// Whether `s` begins with `prefix`, ASCII letters compared without regard to
/// case.
pub open spec fn begins_with_ignore_ascii_case(s: Seq<u8>, prefix: Seq<u8>) -> bool {
    &&& prefix.len() <= s.len()
    &&& eq_ignore_ascii_case(s.take(prefix.len() as int), prefix)
}

/// Folds an ASCII capital letter to its small letter and returns every other
/// byte unchanged.
pub fn to_ascii_lowercase(b: u8) -> (r: u8)
    ensures
        r == ascii_lower(b),
{
    if 0x41 <= b && b <= 0x5a {
        b + 0x20
    } else {
        b
    }
}

/// Tests whether `s` starts with `prefix`, ignoring the case of ASCII
/// letters. Both strings are read as their UTF-8 bytes.
pub fn starts_with_ignore_ascii_case(s: &str, prefix: &str) -> (b: bool)
    ensures
        b == begins_with_ignore_ascii_case(s.spec_bytes(), prefix.spec_bytes()),
{
    let tag = s.as_bytes();
    let pre = prefix.as_bytes();
    if pre.len() > tag.len() {
        return false;
    }
    let ghost head = tag@.take(pre@.len() as int);
    let mut i: usize = 0;
    while i < pre.len()
        invariant
            i <= pre.len() <= tag.len(),
            tag@ == s.spec_bytes(),
            pre@ == prefix.spec_bytes(),
            head == tag@.take(pre@.len() as int),
            forall|j: int| 0 <= j < i ==> ascii_lower(#[trigger] head[j]) == ascii_lower(pre@[j]),
        decreases pre.len() - i,
    {
        assert(head[i as int] == tag@[i as int]);
        if to_ascii_lowercase(tag[i]) != to_ascii_lowercase(pre[i]) {
            return false;
        }
        i += 1;
    }
    true
}

/// Equality without regard to ASCII case is an equivalence: every string
/// equals itself, the relation is symmetric, and it is transitive.
pub proof fn lemma_eq_ignore_ascii_case_is_equivalence(a: Seq<u8>, b: Seq<u8>, c: Seq<u8>)
    ensures
        eq_ignore_ascii_case(a, a),
        eq_ignore_ascii_case(a, b) ==> eq_ignore_ascii_case(b, a),
        eq_ignore_ascii_case(a, b) && eq_ignore_ascii_case(b, c) ==> eq_ignore_ascii_case(a, c),
{
    if eq_ignore_ascii_case(a, b) && eq_ignore_ascii_case(b, c) {
        assert forall|i: int| 0 <= i < a.len() implies ascii_lower(#[trigger] a[i]) == ascii_lower(
            c[i],
        ) by {
            assert(ascii_lower(a[i]) == ascii_lower(b[i]));
            assert(ascii_lower(b[i]) == ascii_lower(c[i]));
        }
    }
}

/// Two strings that differ in the case of ASCII letters only begin with the
/// same prefixes.
pub proof fn lemma_prefix_test_ignores_case(a: Seq<u8>, b: Seq<u8>, prefix: Seq<u8>)
    requires
        eq_ignore_ascii_case(a, b),
    ensures
        begins_with_ignore_ascii_case(a, prefix) == begins_with_ignore_ascii_case(b, prefix),
{
    if prefix.len() <= a.len() {
        let n = prefix.len() as int;
        assert forall|i: int| 0 <= i < n implies ascii_lower(#[trigger] a.take(n)[i])
            == ascii_lower(b.take(n)[i]) by {
            assert(a.take(n)[i] == a[i]);
            assert(b.take(n)[i] == b[i]);
        }
        assert(eq_ignore_ascii_case(a.take(n), b.take(n)));
        lemma_eq_ignore_ascii_case_is_equivalence(a.take(n), b.take(n), prefix);
        lemma_eq_ignore_ascii_case_is_equivalence(b.take(n), a.take(n), prefix);
    }
}

/// Every string begins with itself and with the empty string, and what begins
/// with a prefix is at least as long.
pub proof fn lemma_begins_with_basics(s: Seq<u8>, prefix: Seq<u8>)
    ensures
        begins_with_ignore_ascii_case(s, s),
        begins_with_ignore_ascii_case(s, Seq::<u8>::empty()),
        begins_with_ignore_ascii_case(s, prefix) ==> prefix.len() <= s.len(),
{
    assert(s.take(s.len() as int) =~= s);
}

/// A string whose byte at `i` differs from that of `prefix`, also after
/// folding, does not begin with `prefix`.
pub proof fn lemma_differing_byte_excludes_prefix(s: Seq<u8>, prefix: Seq<u8>, i: int)
    requires
        0 <= i < prefix.len(),
        i < s.len() ==> ascii_lower(s[i]) != ascii_lower(prefix[i]),
    ensures
        !begins_with_ignore_ascii_case(s, prefix),
{
    if prefix.len() <= s.len() {
        assert(s.take(prefix.len() as int)[i] == s[i]);
    }
}

} // verus!
