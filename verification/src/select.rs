//! Selection of the language, and the accessor that reads the catalog in it.
//!
//! The language is selected once, from the user's preferred language tags in
//! the order of preference. A tag asks for the language of the first
//! association whose prefix it begins with. The tags are gone through in
//! order and each one that asks for a language replaces the choice made so
//! far, so the last tag that asks for a language decides. Where no tag asks for
//! one, the base language is selected.

use vstd::prelude::*;
use vstd::string::StringSliceAdditionalSpecFns;
use crate::ascii::{begins_with_ignore_ascii_case, starts_with_ignore_ascii_case};
use crate::catalog::{cell, text};
use crate::ids::{LangId, LocId};

verus! {

/// Number of associations in [`LANG_MAP`].
pub const LANG_MAP_LEN: usize = 13;

/// The associations of tag prefixes with languages, in the order in which a
/// tag is held against them. A prefix that extends another one stands before
/// it: otherwise the shorter one would answer for both.
pub const LANG_MAP: [(&'static str, LangId); LANG_MAP_LEN] = [
    ("en", LangId::en),
    // ----------------
    ("de", LangId::de),
    ("es", LangId::es),
    ("fr", LangId::fr),
    ("it", LangId::it),
    ("ja", LangId::ja),
    ("ko", LangId::ko),
    ("pt-br", LangId::pt_br),
    ("ru", LangId::ru),
    ("zh-hant", LangId::zh_hant),
    ("zh-tw", LangId::zh_hant),
    ("zh", LangId::zh_hans),
    ("vi", LangId::vi),
];

/// The UTF-8 bytes of the prefix of association `k`.
pub open spec fn prefix_bytes(k: int) -> Seq<u8>
    recommends
        0 <= k < LANG_MAP_LEN,
{
    LANG_MAP[k].0.spec_bytes()
}

/// Whether `tag` begins with the prefix of association `k`.
pub open spec fn matches_at(tag: Seq<u8>, k: int) -> bool
    recommends
        0 <= k < LANG_MAP_LEN,
{
    begins_with_ignore_ascii_case(tag, prefix_bytes(k))
}

/// Whether association `k` is the first one whose prefix `tag` begins with.
pub open spec fn is_first_match(tag: Seq<u8>, k: int) -> bool {
    &&& 0 <= k < LANG_MAP_LEN
    &&& matches_at(tag, k)
    &&& forall|j: int| 0 <= j < k ==> !matches_at(tag, j)
}

/// The language that `tag` asks for: that of the first association whose
/// prefix `tag` begins with, or `None` where there is no such association.
pub open spec fn tag_language(tag: Seq<u8>) -> Option<LangId> {
    if exists|k: int| is_first_match(tag, k) {
        Some(LANG_MAP[choose|k: int| is_first_match(tag, k)].1)
    } else {
        None
    }
}

/// Whether `tags[i]` asks for a language and no later tag does.
pub open spec fn is_last_match(tags: Seq<Seq<u8>>, i: int) -> bool {
    &&& 0 <= i < tags.len()
    &&& tag_language(tags[i]) is Some
    &&& forall|j: int| i < j < tags.len() ==> tag_language(#[trigger] tags[j]) is None
}

/// The language that is selected for the preferences `tags`, most preferred
/// first: the one that the last tag asking for a language asks for, or the
/// base language where no tag asks for one.
pub open spec fn selected_language(tags: Seq<Seq<u8>>) -> LangId {
    if exists|i: int| is_last_match(tags, i) {
        tag_language(tags[choose|i: int| is_last_match(tags, i)])->0
    } else {
        LangId::base()
    }
}

/// The UTF-8 bytes of each of `tags`.
pub open spec fn tag_bytes(tags: Seq<&str>) -> Seq<Seq<u8>> {
    Seq::new(tags.len(), |i: int| tags[i].spec_bytes())
}

/// The first association whose prefix a tag begins with gives the tag's
/// language.
pub proof fn lemma_first_match_decides(tag: Seq<u8>, k: int)
    requires
        is_first_match(tag, k),
    ensures
        tag_language(tag) == Some(LANG_MAP[k].1),
{
    let c = choose|c: int| is_first_match(tag, c);
    assert(is_first_match(tag, c));
    assert(c == k) by {
        if c < k {
            assert(!matches_at(tag, c));
        }
        if k < c {
            assert(!matches_at(tag, k));
        }
    }
}

/// A tag asks for no language exactly when it begins with no prefix of the
/// associations.
pub proof fn lemma_no_match_iff_no_prefix(tag: Seq<u8>)
    ensures
        tag_language(tag) is None <==> forall|k: int|
            0 <= k < LANG_MAP_LEN ==> !matches_at(tag, k),
{
    if exists|k: int| 0 <= k < LANG_MAP_LEN && matches_at(tag, k) {
        let k = choose|k: int| 0 <= k < LANG_MAP_LEN && matches_at(tag, k);
        lemma_some_match_has_first(tag, k);
    }
    if tag_language(tag) is Some {
        let c = choose|c: int| is_first_match(tag, c);
        assert(matches_at(tag, c));
    }
}

/// Where a tag begins with the prefix of association `k`, some association at
/// or before `k` is the first one that it begins with.
pub proof fn lemma_some_match_has_first(tag: Seq<u8>, k: int)
    requires
        0 <= k < LANG_MAP_LEN,
        matches_at(tag, k),
    ensures
        exists|f: int| 0 <= f <= k && is_first_match(tag, f),
    decreases k,
{
    if exists|j: int| 0 <= j < k && matches_at(tag, j) {
        let j = choose|j: int| 0 <= j < k && matches_at(tag, j);
        lemma_some_match_has_first(tag, j);
    } else {
        assert(is_first_match(tag, k));
    }
}

/// The language that a tag asks for is a language: never the closing member
/// of the enumeration.
pub proof fn lemma_tag_language_is_language(tag: Seq<u8>)
    ensures
        tag_language(tag) matches Some(lang) ==> lang.is_language(),
{
    if tag_language(tag) is Some {
        let c = choose|c: int| is_first_match(tag, c);
        assert(0 <= c < LANG_MAP_LEN);
    }
}

/// A further, less preferred tag replaces the selection if it asks for a
/// language, and leaves the selection as it is if it does not: of the tags
/// that ask for a language, the last one decides.
pub proof fn lemma_last_match_wins(tags: Seq<Seq<u8>>, tag: Seq<u8>)
    ensures
        selected_language(tags.push(tag)) == match tag_language(tag) {
            Some(lang) => lang,
            None => selected_language(tags),
        },
{
    let more = tags.push(tag);
    let n = tags.len() as int;
    assert(more[n] == tag);
    assert forall|j: int| 0 <= j < n implies more[j] == tags[j] by {}
    if tag_language(tag) is Some {
        assert(is_last_match(more, n));
        let c = choose|i: int| is_last_match(more, i);
        assert(is_last_match(more, c));
        if c < n {
            assert(tag_language(more[n]) is None);
        }
        assert(c == n);
    } else {
        if exists|i: int| is_last_match(tags, i) {
            let c = choose|i: int| is_last_match(tags, i);
            assert(is_last_match(tags, c));
            assert(more[c] == tags[c]);
            assert forall|j: int| c < j < more.len() implies tag_language(
                #[trigger] more[j],
            ) is None by {
                if j < n {
                    assert(more[j] == tags[j]);
                    assert(tag_language(tags[j]) is None);
                }
            }
            assert(is_last_match(more, c));
            let d = choose|i: int| is_last_match(more, i);
            assert(is_last_match(more, d));
            lemma_last_match_is_unique(more, c, d);
        } else {
            if exists|i: int| is_last_match(more, i) {
                let d = choose|i: int| is_last_match(more, i);
                assert(is_last_match(more, d));
                assert(d < n);
                assert(more[d] == tags[d]);
                assert forall|j: int| d < j < tags.len() implies tag_language(
                    #[trigger] tags[j],
                ) is None by {
                    assert(more[j] == tags[j]);
                    assert(tag_language(more[j]) is None);
                }
                assert(is_last_match(tags, d));
            }
        }
    }
}

/// At most one tag is the last one that asks for a language.
pub proof fn lemma_last_match_is_unique(tags: Seq<Seq<u8>>, a: int, b: int)
    requires
        is_last_match(tags, a),
        is_last_match(tags, b),
    ensures
        a == b,
{
    if a < b {
        assert(tag_language(tags[b]) is None);
    }
    if b < a {
        assert(tag_language(tags[a]) is None);
    }
}

/// The language that was selected for the life of the program.
///
/// A value is made by [`init`], or stands for the base language by default,
/// and is never changed afterwards. It always holds a language, never the
/// closing member of the enumeration.
#[derive(Clone, Copy, Debug)]
pub struct Localization {
    lang: LangId,
}

impl Localization {
    #[verifier::type_invariant]
    spec fn holds_a_language(self) -> bool {
        self.lang.is_language()
    }

    /// The selected language.
    pub closed spec fn lang(self) -> LangId {
        self.lang
    }

    /// Returns the selected language.
    pub fn language(&self) -> (lang: LangId)
        ensures
            lang == self.lang(),
            lang.is_language(),
    {
        proof {
            use_type_invariant(self);
        }
        self.lang
    }
}

impl Default for Localization {
    /// The selection before any preference is known: the base language.
    fn default() -> (l: Localization)
        ensures
            l.lang() == LangId::base(),
    {
        Localization { lang: LangId::en }
    }
}

/// Finds the language that `tag` asks for: the language of the first
/// association in [`LANG_MAP`] whose prefix `tag` begins with, without regard
/// to ASCII case.
pub fn match_tag(tag: &str) -> (found: Option<LangId>)
    ensures
        found == tag_language(tag.spec_bytes()),
        found matches Some(lang) ==> lang.is_language(),
{
    let mut k: usize = 0;
    while k < LANG_MAP_LEN
        invariant
            k <= LANG_MAP_LEN,
            forall|j: int| 0 <= j < k ==> !matches_at(tag.spec_bytes(), j),
        decreases LANG_MAP_LEN - k,
    {
        if starts_with_ignore_ascii_case(tag, LANG_MAP[k].0) {
            proof {
                lemma_first_match_decides(tag.spec_bytes(), k as int);
            }
            return Some(LANG_MAP[k].1);
        }
        k += 1;
    }
    proof {
        lemma_no_match_iff_no_prefix(tag.spec_bytes());
    }
    None
}

/// Selects the language for the preferred language tags `langs`, most
/// preferred first.
///
/// Every tag that asks for a supported language replaces the choice made by
/// the tags before it, so the last such tag decides. A tag that asks for none
/// is passed over. Without any such tag the base language is selected.
pub fn init(langs: &[&str]) -> (l: Localization)
    ensures
        l.lang() == selected_language(tag_bytes(langs@)),
        l.lang().is_language(),
{
    let mut lang = LangId::en;
    let mut i: usize = 0;
    while i < langs.len()
        invariant
            i <= langs.len(),
            lang.is_language(),
            lang == selected_language(tag_bytes(langs@).take(i as int)),
        decreases langs.len() - i,
    {
        proof {
            let all = tag_bytes(langs@);
            assert(all.take(i as int + 1) =~= all.take(i as int).push(all[i as int]));
            lemma_last_match_wins(all.take(i as int), all[i as int]);
        }
        match match_tag(langs[i]) {
            Some(id) => {
                lang = id;
            },
            None => {},
        }
        i += 1;
    }
    proof {
        let all = tag_bytes(langs@);
        assert(all.take(i as int) =~= all);
    }
    Localization { lang }
}

/// Returns the text of message `id` in the selected language.
pub fn loc(l: &Localization, id: LocId) -> (s: &'static str)
    requires
        id.is_message(),
    ensures
        s@ == cell(id, l.lang()),
        s@.len() > 0,
{
    text(id, l.language())
}

} // verus!
