//! What holds of the selection and of the lookups, for every input.

use vstd::prelude::*;
use vstd::string::StringSliceAdditionalSpecFns;
use crate::ascii::{
    ascii_lower, begins_with_ignore_ascii_case, eq_ignore_ascii_case, lemma_begins_with_basics,
    lemma_differing_byte_excludes_prefix, lemma_prefix_test_ignores_case,
};
use crate::catalog::{cell, lemma_every_cell_holds_text};
use crate::ids::{LangId, LocId};
use crate::select::{
    is_first_match, is_last_match, lemma_first_match_decides, lemma_last_match_wins,
    lemma_tag_language_is_language, matches_at, prefix_bytes, selected_language, tag_language,
    Localization, LANG_MAP, LANG_MAP_LEN,
};

verus! {

/// The prefixes of the associations, byte by byte.
pub proof fn lemma_prefix_bytes()
    ensures
        prefix_bytes(0) == seq![0x65u8, 0x6e],  // en
        prefix_bytes(1) == seq![0x64u8, 0x65],  // de
        prefix_bytes(2) == seq![0x65u8, 0x73],  // es
        prefix_bytes(3) == seq![0x66u8, 0x72],  // fr
        prefix_bytes(4) == seq![0x69u8, 0x74],  // it
        prefix_bytes(5) == seq![0x6au8, 0x61],  // ja
        prefix_bytes(6) == seq![0x6bu8, 0x6f],  // ko
        prefix_bytes(7) == seq![0x70u8, 0x74, 0x2d, 0x62, 0x72],  // pt-br
        prefix_bytes(8) == seq![0x72u8, 0x75],  // ru
        prefix_bytes(9) == seq![0x7au8, 0x68, 0x2d, 0x68, 0x61, 0x6e, 0x74],  // zh-hant
        prefix_bytes(10) == seq![0x7au8, 0x68, 0x2d, 0x74, 0x77],  // zh-tw
        prefix_bytes(11) == seq![0x7au8, 0x68],  // zh
        prefix_bytes(12) == seq![0x76u8, 0x69],  // vi
{
    broadcast use vstd::string::is_ascii_spec_bytes;

    assert(prefix_bytes(0) =~= seq![0x65u8, 0x6e]) by {
        reveal_strlit("en");
        assert(vstd::string::is_ascii(LANG_MAP[0].0));
    }
    assert(prefix_bytes(1) =~= seq![0x64u8, 0x65]) by {
        reveal_strlit("de");
        assert(vstd::string::is_ascii(LANG_MAP[1].0));
    }
    assert(prefix_bytes(2) =~= seq![0x65u8, 0x73]) by {
        reveal_strlit("es");
        assert(vstd::string::is_ascii(LANG_MAP[2].0));
    }
    assert(prefix_bytes(3) =~= seq![0x66u8, 0x72]) by {
        reveal_strlit("fr");
        assert(vstd::string::is_ascii(LANG_MAP[3].0));
    }
    assert(prefix_bytes(4) =~= seq![0x69u8, 0x74]) by {
        reveal_strlit("it");
        assert(vstd::string::is_ascii(LANG_MAP[4].0));
    }
    assert(prefix_bytes(5) =~= seq![0x6au8, 0x61]) by {
        reveal_strlit("ja");
        assert(vstd::string::is_ascii(LANG_MAP[5].0));
    }
    assert(prefix_bytes(6) =~= seq![0x6bu8, 0x6f]) by {
        reveal_strlit("ko");
        assert(vstd::string::is_ascii(LANG_MAP[6].0));
    }
    assert(prefix_bytes(7) =~= seq![0x70u8, 0x74, 0x2d, 0x62, 0x72]) by {
        reveal_strlit("pt-br");
        assert(vstd::string::is_ascii(LANG_MAP[7].0));
    }
    assert(prefix_bytes(8) =~= seq![0x72u8, 0x75]) by {
        reveal_strlit("ru");
        assert(vstd::string::is_ascii(LANG_MAP[8].0));
    }
    assert(prefix_bytes(9) =~= seq![0x7au8, 0x68, 0x2d, 0x68, 0x61, 0x6e, 0x74]) by {
        reveal_strlit("zh-hant");
        assert(vstd::string::is_ascii(LANG_MAP[9].0));
    }
    assert(prefix_bytes(10) =~= seq![0x7au8, 0x68, 0x2d, 0x74, 0x77]) by {
        reveal_strlit("zh-tw");
        assert(vstd::string::is_ascii(LANG_MAP[10].0));
    }
    assert(prefix_bytes(11) =~= seq![0x7au8, 0x68]) by {
        reveal_strlit("zh");
        assert(vstd::string::is_ascii(LANG_MAP[11].0));
    }
    assert(prefix_bytes(12) =~= seq![0x76u8, 0x69]) by {
        reveal_strlit("vi");
        assert(vstd::string::is_ascii(LANG_MAP[12].0));
    }
}

/// No association is shadowed by an earlier one: the prefix of each, taken as
/// a tag, asks for the language of that association. In particular the
/// prefixes `zh-hant` and `zh-tw` are answered before the shorter `zh` is
/// tried.
pub proof fn lemma_no_association_is_shadowed(k: int)
    requires
        0 <= k < LANG_MAP_LEN,
    ensures
        is_first_match(prefix_bytes(k), k),
        tag_language(prefix_bytes(k)) == Some(LANG_MAP[k].1),
{
    lemma_prefix_bytes();
    let tag = prefix_bytes(k);
    lemma_begins_with_basics(tag, tag);
    assert forall|j: int| 0 <= j < k implies !matches_at(tag, j) by {
        let earlier = prefix_bytes(j);
        if earlier.len() <= tag.len() {
            if ascii_lower(tag[0]) != ascii_lower(earlier[0]) {
                lemma_differing_byte_excludes_prefix(tag, earlier, 0);
            } else if ascii_lower(tag[1]) != ascii_lower(earlier[1]) {
                lemma_differing_byte_excludes_prefix(tag, earlier, 1);
            } else {
                lemma_differing_byte_excludes_prefix(tag, earlier, 3);
            }
        }
    }
    lemma_first_match_decides(tag, k);
}

/// A tag that begins with a prefix of the associations asks for the language
/// of that prefix, whatever follows the prefix in the tag. The one exception
/// is the bare prefix `zh`, which stands for the simplified script: a tag
/// that begins with it asks for the traditional script where it begins with
/// `zh-hant` or `zh-tw`, and for the simplified script only where it begins
/// with neither.
pub proof fn lemma_prefix_priority(tag: Seq<u8>, k: int)
    requires
        0 <= k < LANG_MAP_LEN,
        matches_at(tag, k),
    ensures
        tag_language(tag) == Some(
            if LANG_MAP[k].1 == LangId::zh_hans && (begins_with_ignore_ascii_case(
                tag,
                "zh-hant".spec_bytes(),
            ) || begins_with_ignore_ascii_case(tag, "zh-tw".spec_bytes())) {
                LangId::zh_hant
            } else {
                LANG_MAP[k].1
            },
        ),
{
    lemma_prefix_bytes();
    assert("zh-hant".spec_bytes() == prefix_bytes(9));
    assert("zh-tw".spec_bytes() == prefix_bytes(10));
    let own = prefix_bytes(k);
    assert forall|i: int| 0 <= i < own.len() implies ascii_lower(tag[i]) == ascii_lower(
        own[i],
    ) by {
        assert(tag.take(own.len() as int)[i] == tag[i]);
    }
    let first = if k != 11 {
        k
    } else if matches_at(tag, 9) {
        9
    } else if matches_at(tag, 10) {
        10
    } else {
        11
    };
    assert forall|j: int| 0 <= j < first implies !matches_at(tag, j) by {
        let earlier = prefix_bytes(j);
        if k == 11 && j >= 9 {
        } else if ascii_lower(own[0]) != ascii_lower(earlier[0]) {
            lemma_differing_byte_excludes_prefix(tag, earlier, 0);
        } else if ascii_lower(own[1]) != ascii_lower(earlier[1]) {
            lemma_differing_byte_excludes_prefix(tag, earlier, 1);
        } else {
            lemma_differing_byte_excludes_prefix(tag, earlier, 3);
        }
    }
    lemma_first_match_decides(tag, first);
}

/// The case of ASCII letters in a tag does not matter: two tags that differ
/// in it only ask for the same language.
pub proof fn lemma_tag_language_ignores_case(a: Seq<u8>, b: Seq<u8>)
    requires
        eq_ignore_ascii_case(a, b),
    ensures
        tag_language(a) == tag_language(b),
{
    assert forall|k: int| matches_at(a, k) == matches_at(b, k) by {
        lemma_prefix_test_ignores_case(a, b, prefix_bytes(k));
    }
    assert forall|k: int| is_first_match(a, k) == is_first_match(b, k) by {}
    if exists|k: int| is_first_match(a, k) {
        let k = choose|k: int| is_first_match(a, k);
        lemma_first_match_decides(a, k);
        lemma_first_match_decides(b, k);
    } else if exists|k: int| is_first_match(b, k) {
        let k = choose|k: int| is_first_match(b, k);
        assert(is_first_match(a, k));
    }
}

/// Two lists of preferences that differ only in the case of ASCII letters
/// within their tags select the same language.
pub proof fn lemma_selection_ignores_case(xs: Seq<Seq<u8>>, ys: Seq<Seq<u8>>)
    requires
        xs.len() == ys.len(),
        forall|i: int| 0 <= i < xs.len() ==> eq_ignore_ascii_case(#[trigger] xs[i], ys[i]),
    ensures
        selected_language(xs) == selected_language(ys),
    decreases xs.len(),
{
    if xs.len() == 0 {
        assert(xs =~= ys);
    } else {
        let x = xs.last();
        let y = ys.last();
        assert(eq_ignore_ascii_case(xs[xs.len() - 1], ys[xs.len() - 1]));
        lemma_tag_language_ignores_case(x, y);
        assert forall|i: int| 0 <= i < xs.drop_last().len() implies eq_ignore_ascii_case(
            #[trigger] xs.drop_last()[i],
            ys.drop_last()[i],
        ) by {
            assert(eq_ignore_ascii_case(xs[i], ys[i]));
        }
        lemma_selection_ignores_case(xs.drop_last(), ys.drop_last());
        assert(xs =~= xs.drop_last().push(x));
        assert(ys =~= ys.drop_last().push(y));
        lemma_last_match_wins(xs.drop_last(), x);
        lemma_last_match_wins(ys.drop_last(), y);
    }
}

/// Where some tag asks for a language, the selected language is the one that
/// the last such tag asks for.
pub proof fn lemma_selection_is_last_request(tags: Seq<Seq<u8>>, i: int)
    requires
        is_last_match(tags, i),
    ensures
        tag_language(tags[i]) == Some(selected_language(tags)),
{
    let c = choose|c: int| is_last_match(tags, c);
    assert(is_last_match(tags, c));
    crate::select::lemma_last_match_is_unique(tags, c, i);
}

/// Whatever the preferences were, every message has a text in the selected
/// language, and that text is not empty.
pub proof fn lemma_every_lookup_holds_text(tags: Seq<Seq<u8>>, id: LocId)
    requires
        id.is_message(),
    ensures
        selected_language(tags).is_language(),
        cell(id, selected_language(tags)).len() > 0,
{
    lemma_selected_is_language(tags);
    lemma_every_cell_holds_text(id, selected_language(tags));
}

/// A lookup depends on the message and on the selected language and on
/// nothing else: two texts that are each what a lookup of `id` returns under
/// the selection `l` are the same text.
pub proof fn lemma_lookup_is_deterministic(l: Localization, id: LocId, first: &str, second: &str)
    requires
        first@ == cell(id, l.lang()),
        second@ == cell(id, l.lang()),
    ensures
        first@ == second@,
{
}

/// With no preferences the base language is selected, and every lookup reads
/// the column of the base language.
pub proof fn lemma_no_preference_selects_base()
    ensures
        selected_language(Seq::<Seq<u8>>::empty()) == LangId::base(),
        forall|id: LocId| #[trigger]
            cell(id, selected_language(Seq::<Seq<u8>>::empty())) == cell(id, LangId::en),
{
}

/// Tags that ask for no language are ignored: where none of the tags asks for
/// one, the base language is selected.
pub proof fn lemma_unmatched_tags_select_base(tags: Seq<Seq<u8>>)
    requires
        forall|i: int| 0 <= i < tags.len() ==> tag_language(#[trigger] tags[i]) is None,
    ensures
        selected_language(tags) == LangId::base(),
{
    if exists|i: int| is_last_match(tags, i) {
        let c = choose|i: int| is_last_match(tags, i);
        assert(tag_language(tags[c]) is None);
    }
}

/// The selected language is a language: never the closing member of the
/// enumeration.
pub proof fn lemma_selected_is_language(tags: Seq<Seq<u8>>)
    ensures
        selected_language(tags).is_language(),
{
    if exists|i: int| is_last_match(tags, i) {
        let c = choose|i: int| is_last_match(tags, i);
        lemma_tag_language_is_language(tags[c]);
    }
}

} // verus!
