//! Properties of the slugs the API makes, for every display name.
use vstd::prelude::*;
use crate::api::slug::{slug_filtered, slug_of, trim_dashes_end, trim_dashes_start, unicode_alphanumeric, unicode_lowercase};

verus! {

proof fn lemma_filtered_has_no_space(s: Seq<char>)
    ensures
        forall|i: int| 0 <= i < slug_filtered(s).len() ==> slug_filtered(s)[i] != ' ',
    decreases s.len(),
{
    if s.len() > 0 {
        lemma_filtered_has_no_space(s.drop_last());
        let p = slug_filtered(s.drop_last());
        assert forall|i: int| 0 <= i < slug_filtered(s).len() implies slug_filtered(s)[i] != ' ' by {
            if i < p.len() {
                assert(slug_filtered(s)[i] == p[i]);
            }
        }
    }
}

proof fn lemma_trim_start_suffix(s: Seq<char>) -> (k: int)
    ensures
        0 <= k <= s.len(),
        trim_dashes_start(s) == s.subrange(k, s.len() as int),
        trim_dashes_start(s).len() == 0 || trim_dashes_start(s)[0] != '-',
    decreases s.len(),
{
    if s.len() > 0 && s[0] == '-' {
        let j = lemma_trim_start_suffix(s.drop_first());
        assert(s.drop_first().subrange(j, s.drop_first().len() as int) =~= s.subrange(j + 1, s.len() as int));
        j + 1
    } else {
        assert(s.subrange(0, s.len() as int) =~= s);
        0
    }
}

proof fn lemma_trim_end_prefix(s: Seq<char>) -> (k: int)
    ensures
        0 <= k <= s.len(),
        trim_dashes_end(s) == s.subrange(0, k),
        trim_dashes_end(s).len() == 0 || trim_dashes_end(s).last() != '-',
    decreases s.len(),
{
    if s.len() > 0 && s.last() == '-' {
        let j = lemma_trim_end_prefix(s.drop_last());
        assert(s.drop_last().subrange(0, j) =~= s.subrange(0, j));
        j
    } else {
        assert(s.subrange(0, s.len() as int) =~= s);
        s.len() as int
    }
}

/// A slug is never empty, neither starts nor ends with `-`, and holds no space.
pub proof fn lemma_slug_well_formed(name: Seq<char>)
    ensures
        slug_of(name).len() > 0,
        slug_of(name)[0] != '-',
        slug_of(name).last() != '-',
        forall|i: int| 0 <= i < slug_of(name).len() ==> slug_of(name)[i] != ' ',
{
    let f = slug_filtered(unicode_lowercase(name));
    lemma_filtered_has_no_space(unicode_lowercase(name));
    let a = lemma_trim_start_suffix(f);
    let s = trim_dashes_start(f);
    let b = lemma_trim_end_prefix(s);
    let t = trim_dashes_end(s);
    if t.len() == 0 {
        reveal_strlit("user");
    } else {
        assert(t[0] == s[0]);
        assert forall|i: int| 0 <= i < t.len() implies t[i] != ' ' by {
            assert(t[i] == s[i]);
            assert(s[i] == f[i + a]);
        }
    }
}

/// `s` with every space turned into `-`.
pub open spec fn spaces_dashed(s: Seq<char>) -> Seq<char> {
    Seq::new(s.len(), |i: int| if s[i] == ' ' { '-' } else { s[i] })
}

/// A word character: alphanumeric or `_`, and neither `-` nor a space.
pub open spec fn word_char(c: char) -> bool {
    (unicode_alphanumeric(c) || c == '_') && c != '-' && c != ' '
}

/// Text of word characters and spaces loses nothing when its slug characters
/// are kept: every character stays, spaces becoming `-`.
proof fn lemma_filtered_words(s: Seq<char>)
    requires
        forall|i: int| 0 <= i < s.len() ==> word_char(#[trigger] s[i]) || s[i] == ' ',
    ensures
        slug_filtered(s) == spaces_dashed(s),
    decreases s.len(),
{
    if s.len() > 0 {
        let t = s.drop_last();
        assert forall|i: int| 0 <= i < t.len() implies word_char(#[trigger] t[i]) || t[i] == ' ' by {
            assert(t[i] == s[i]);
        }
        lemma_filtered_words(t);
        assert(s.last() == s[s.len() - 1]);
        assert(spaces_dashed(s) =~= spaces_dashed(t).push(if s.last() == ' ' { '-' } else { s.last() }));
    }
}

/// A name whose lower-cased form is words of alphanumeric characters (and
/// `_`) separated by spaces, beginning and ending with such a character,
/// keeps every character in its slug: the slug is the lower-cased name with
/// each space turned into `-` (so `Team 42` gives `team-42`).
pub proof fn lemma_slug_keeps_words(name: Seq<char>)
    requires
        unicode_lowercase(name).len() > 0,
        forall|i: int| 0 <= i < unicode_lowercase(name).len()
            ==> word_char(#[trigger] unicode_lowercase(name)[i]) || unicode_lowercase(name)[i] == ' ',
        word_char(unicode_lowercase(name)[0]),
        word_char(unicode_lowercase(name).last()),
    ensures
        slug_of(name) == spaces_dashed(unicode_lowercase(name)),
{
    let l = unicode_lowercase(name);
    lemma_filtered_words(l);
    let f = slug_filtered(l);
    assert(f[0] == l[0]);
    assert(trim_dashes_start(f) == f);
    assert(f.last() == f[f.len() - 1]);
    assert(l.last() == l[l.len() - 1]);
    assert(trim_dashes_end(f) == f);
}

} // verus!
