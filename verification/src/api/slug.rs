//! URL slugs of organizations and projects.
use vstd::prelude::*;
use vstd::string::StringExecFns;
use crate::text::{chars_of, string_from_chars};

verus! {

/// The lower-cased form of a string (`str::to_lowercase`).
pub uninterp spec fn unicode_lowercase(s: Seq<char>) -> Seq<char>;

/// Whether a character is alphabetic or numeric (`char::is_alphanumeric`).
pub uninterp spec fn unicode_alphanumeric(c: char) -> bool;

/// `c` is an ASCII letter or digit.
pub open spec fn ascii_alphanumeric(c: char) -> bool {
    ('a' <= c && c <= 'z') || ('A' <= c && c <= 'Z') || ('0' <= c && c <= '9')
}

/// `str::to_lowercase`.
#[verifier::external_body]
fn to_lowercase(s: &str) -> (r: String)
    ensures
        r@ == unicode_lowercase(s@),
{
    s.to_lowercase()
}

/// `char::is_alphanumeric`; among ASCII characters exactly the letters and
/// digits are alphanumeric.
#[verifier::external_body]
fn is_alphanumeric(c: char) -> (r: bool)
    ensures
        r == unicode_alphanumeric(c),
        (c as u32) < 128 ==> (r == ascii_alphanumeric(c)),
{
    c.is_alphanumeric()
}

/// A character a slug keeps: alphanumeric, `-`, `_` or a space.
pub open spec fn slug_keeps(c: char) -> bool {
    unicode_alphanumeric(c) || c == '-' || c == '_' || c == ' '
}

/// A kept character in a slug: a space becomes `-`.
pub open spec fn slug_char(c: char) -> char {
    if c == ' ' { '-' } else { c }
}

/// The kept characters of `s`, spaces turned into `-`.
pub open spec fn slug_filtered(s: Seq<char>) -> Seq<char>
    decreases s.len(),
{
    if s.len() == 0 {
        Seq::empty()
    } else if slug_keeps(s.last()) {
        slug_filtered(s.drop_last()).push(slug_char(s.last()))
    } else {
        slug_filtered(s.drop_last())
    }
}

/// `s` without its leading dashes.
pub open spec fn trim_dashes_start(s: Seq<char>) -> Seq<char>
    decreases s.len(),
{
    if s.len() > 0 && s[0] == '-' {
        trim_dashes_start(s.drop_first())
    } else {
        s
    }
}

/// `s` without its trailing dashes.
pub open spec fn trim_dashes_end(s: Seq<char>) -> Seq<char>
    decreases s.len(),
{
    if s.len() > 0 && s.last() == '-' {
        trim_dashes_end(s.drop_last())
    } else {
        s
    }
}

/// The slug of a display name: lower-cased, only alphanumerics, `-`, `_` and
/// spaces kept, spaces turned into `-`, dashes trimmed from both ends; `user`
/// when nothing is left.
pub open spec fn slug_of(name: Seq<char>) -> Seq<char> {
    let t = trim_dashes_end(trim_dashes_start(slug_filtered(unicode_lowercase(name))));
    if t.len() == 0 { "user"@ } else { t }
}

/// The slug of a display name, as `slug_of`.
pub fn slugify(name: &str) -> (r: String)
    ensures
        r@ == slug_of(name@),
{
    let lowered = to_lowercase(name);
    let cs = chars_of(lowered.as_str());
    let mut kept: Vec<char> = Vec::new();
    let mut i: usize = 0;
    proof {
        assert(cs@.take(0) =~= Seq::<char>::empty());
    }
    while i < cs.len()
        invariant
            i <= cs.len(),
            kept@ == slug_filtered(cs@.take(i as int)),
        decreases cs.len() - i,
    {
        let c = cs[i];
        proof {
            assert(cs@.take(i + 1).drop_last() =~= cs@.take(i as int));
            assert(cs@.take(i + 1).last() == c);
        }
        if is_alphanumeric(c) || c == '-' || c == '_' || c == ' ' {
            if c == ' ' {
                kept.push('-');
            } else {
                kept.push(c);
            }
        }
        i = i + 1;
    }
    proof {
        assert(cs@.take(cs@.len() as int) =~= cs@);
    }
    let n = kept.len();
    let mut a: usize = 0;
    proof {
        assert(kept@.subrange(0, n as int) =~= kept@);
    }
    while a < n && kept[a] == '-'
        invariant
            a <= n,
            n == kept@.len(),
            trim_dashes_start(kept@) == trim_dashes_start(kept@.subrange(a as int, n as int)),
        decreases n - a,
    {
        proof {
            assert(kept@.subrange(a as int, n as int).drop_first() =~= kept@.subrange(a + 1, n as int));
        }
        a = a + 1;
    }
    let ghost start = kept@.subrange(a as int, n as int);
    assert(trim_dashes_start(kept@) == start);
    let mut b: usize = n;
    proof {
        assert(start.subrange(0, (b - a) as int) =~= start);
    }
    while b > a && kept[b - 1] == '-'
        invariant
            a <= b <= n,
            n == kept@.len(),
            start == kept@.subrange(a as int, n as int),
            trim_dashes_end(start) == trim_dashes_end(kept@.subrange(a as int, b as int)),
        decreases b - a,
    {
        proof {
            assert(kept@.subrange(a as int, b as int).drop_last() =~= kept@.subrange(a as int, b - 1));
        }
        b = b - 1;
    }
    if a == b {
        return String::from_str("user");
    }
    let mut t: Vec<char> = Vec::new();
    let mut j: usize = a;
    while j < b
        invariant
            a <= j <= b <= n,
            n == kept@.len(),
            t@ == kept@.subrange(a as int, j as int),
        decreases b - j,
    {
        t.push(kept[j]);
        proof {
            assert(kept@.subrange(a as int, j as int).push(kept@[j as int]) =~= kept@.subrange(a as int, j + 1));
        }
        j = j + 1;
    }
    string_from_chars(&t)
}

/// `s` with every space turned into `-`.
pub open spec fn dashed(s: Seq<char>) -> Seq<char> {
    Seq::new(s.len(), |i: int| if s[i] == ' ' { '-' } else { s[i] })
}

/// The slug of a project name: lower-cased, spaces turned into `-`.
pub fn project_slug(name: &str) -> (r: String)
    ensures
        r@ == dashed(unicode_lowercase(name@)),
{
    let lowered = to_lowercase(name);
    let cs = chars_of(lowered.as_str());
    let mut out: Vec<char> = Vec::new();
    let mut i: usize = 0;
    while i < cs.len()
        invariant
            i <= cs.len(),
            out@ == dashed(cs@).take(i as int),
        decreases cs.len() - i,
    {
        let c = cs[i];
        if c == ' ' {
            out.push('-');
        } else {
            out.push(c);
        }
        proof {
            assert(dashed(cs@).take(i + 1) =~= dashed(cs@).take(i as int).push(if c == ' ' { '-' } else { c }));
        }
        i = i + 1;
    }
    proof {
        assert(dashed(cs@).take(cs@.len() as int) =~= dashed(cs@));
    }
    string_from_chars(&out)
}

} // verus!
