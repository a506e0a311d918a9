//! Character-level helpers shared by the parsers of the library.
use vstd::prelude::*;

verus! {

/// The code point of `c` after ASCII lower-casing (other characters are unchanged).
pub open spec fn ascii_lower_code(c: char) -> u32 {
    if 65 <= (c as u32) && (c as u32) <= 90 {
        ((c as u32) + 32) as u32
    } else {
        c as u32
    }
}

/// `s` with its ASCII letters lower-cased (other characters unchanged).
pub open spec fn ascii_lowered(s: Seq<char>) -> Seq<char> {
    Seq::new(s.len(), |i: int| if 65 <= (s[i] as u32) && (s[i] as u32) <= 90 { ascii_lower_code(s[i]) as char } else { s[i] })
}

/// `s` equals the lowercase ASCII keyword `kw` when ASCII letters are compared
/// without regard to case.
pub open spec fn matches_ignore_ascii_case(s: Seq<char>, kw: Seq<char>) -> bool {
    &&& s.len() == kw.len()
    &&& forall|i: int| 0 <= i < s.len() ==> ascii_lower_code(#[trigger] s[i]) == kw[i] as u32
}

/// Comparing with a keyword without regard to ASCII case gives the same answer
/// for a string and for its ASCII lower-cased form.
pub proof fn lemma_match_ascii_lowered(s: Seq<char>, kw: Seq<char>)
    ensures
        matches_ignore_ascii_case(ascii_lowered(s), kw) == matches_ignore_ascii_case(s, kw),
{
    let t = ascii_lowered(s);
    assert forall|i: int| 0 <= i < s.len() implies ascii_lower_code(#[trigger] t[i]) == ascii_lower_code(s[i]) by {
        let c = s[i];
        if 65 <= (c as u32) && (c as u32) <= 90 {
            assert((((c as u32) + 32) as u32) as char as u32 == (c as u32) + 32);
        }
    }
    if matches_ignore_ascii_case(s, kw) {
        assert forall|i: int| 0 <= i < t.len() implies ascii_lower_code(#[trigger] t[i]) == kw[i] as u32 by {
            assert(ascii_lower_code(s[i]) == kw[i] as u32);
        }
    }
    if matches_ignore_ascii_case(t, kw) {
        assert forall|i: int| 0 <= i < s.len() implies ascii_lower_code(#[trigger] s[i]) == kw[i] as u32 by {
            assert(ascii_lower_code(t[i]) == kw[i] as u32);
        }
    }
}

/// A string matches a keyword without regard to ASCII case exactly when its
/// ASCII lower-cased form is the keyword.
pub proof fn lemma_match_iff_lowered(s: Seq<char>, kw: Seq<char>)
    ensures
        matches_ignore_ascii_case(s, kw) <==> ascii_lowered(s) == kw,
{
    let t = ascii_lowered(s);
    if matches_ignore_ascii_case(s, kw) {
        assert forall|i: int| 0 <= i < t.len() implies #[trigger] t[i] == kw[i] by {
            assert(ascii_lower_code(s[i]) == kw[i] as u32);
            let c = s[i];
            if 65 <= (c as u32) && (c as u32) <= 90 {
                assert((((c as u32) + 32) as u32) as char as u32 == (c as u32) + 32);
                assert(t[i] as u32 == kw[i] as u32);
            } else {
                assert(t[i] == c);
            }
            vstd::utf8::char_u32_cast(t[i], t[i] as u32);
            vstd::utf8::char_u32_cast(kw[i], kw[i] as u32);
        }
        assert(t =~= kw);
    }
    if t == kw {
        assert forall|i: int| 0 <= i < s.len() implies ascii_lower_code(#[trigger] s[i]) == kw[i] as u32 by {
            assert(t[i] == kw[i]);
            let c = s[i];
            if 65 <= (c as u32) && (c as u32) <= 90 {
                assert((((c as u32) + 32) as u32) as char as u32 == (c as u32) + 32);
            }
        }
    }
}

/// Compares `s` with the keyword `kw`, ignoring the case of ASCII letters in `s`.
pub fn eq_ignore_ascii_case(s: &str, kw: &str) -> (r: bool)
    ensures
        r == matches_ignore_ascii_case(s@, kw@),
{
    let n = s.unicode_len();
    let m = kw.unicode_len();
    if n != m {
        return false;
    }
    let mut i: usize = 0;
    while i < n
        invariant
            n == s@.len(),
            m == kw@.len(),
            n == m,
            i <= n,
            forall|j: int| 0 <= j < i ==> ascii_lower_code(#[trigger] s@[j]) == kw@[j] as u32,
        decreases n - i,
    {
        let c = s.get_char(i);
        let k = kw.get_char(i);
        let code: u32 = c as u32;
        let lowered: u32 = if 65 <= code && code <= 90 { code + 32 } else { code };
        if lowered != k as u32 {
            return false;
        }
        i = i + 1;
    }
    true
}


/// The characters of `s`, in order.
pub fn chars_of(s: &str) -> (v: Vec<char>)
    ensures
        v@ == s@,
{
    let mut v: Vec<char> = Vec::new();
    for c in it: s.chars()
        invariant
            it.seq() == s@,
            v@ == it.seq().take(it.index() as int),
    {
        v.push(c);
    }
    v
}


/// The view of an optional string.
pub open spec fn opt_view(o: Option<String>) -> Option<Seq<char>> {
    match o {
        Some(s) => Some(s@),
        None => None,
    }
}

/// Appends one character to a string (`String::push`).
#[verifier::external_body]
pub(crate) fn push_char(s: &mut String, c: char)
    ensures
        final(s)@ == old(s)@.push(c),
{
    s.push(c);
}

/// The string whose characters are `v`.
pub fn string_from_chars(v: &Vec<char>) -> (r: String)
    ensures
        r@ == v@,
{
    let mut r = String::new();
    let mut i: usize = 0;
    while i < v.len()
        invariant
            i <= v.len(),
            r@ == v@.take(i as int),
        decreases v.len() - i,
    {
        push_char(&mut r, v[i]);
        proof {
            assert(v@.take(i as int).push(v@[i as int]) =~= v@.take(i + 1));
        }
        i = i + 1;
    }
    proof {
        assert(v@.take(v@.len() as int) =~= v@);
    }
    r
}

/// Three-way lexicographic comparison of character sequences by code point:
/// -1, 0 or 1 as `a` sorts before, equal to, or after `b`.
pub open spec fn seq_order(a: Seq<char>, b: Seq<char>) -> int
    decreases a.len(),
{
    if a.len() == 0 {
        if b.len() == 0 { 0 } else { -1 }
    } else if b.len() == 0 {
        1
    } else if (a[0] as u32) < (b[0] as u32) {
        -1
    } else if (a[0] as u32) > (b[0] as u32) {
        1
    } else {
        seq_order(a.drop_first(), b.drop_first())
    }
}

/// Sequences compare by their first difference: where `a` and `b` agree on
/// their first `k` characters and then `a` has the smaller character, or ends,
/// `a` sorts first.
pub proof fn lemma_seq_order_first_difference(a: Seq<char>, b: Seq<char>, k: int)
    requires
        0 <= k <= a.len(),
        k <= b.len(),
        a.take(k) == b.take(k),
        (k < a.len() && k < b.len() && (a[k] as u32) < (b[k] as u32)) || (k == a.len() && k < b.len()),
    ensures
        seq_order(a, b) == -1,
    decreases k,
{
    if k > 0 {
        assert(a[0] == a.take(k)[0]);
        assert(b[0] == b.take(k)[0]);
        assert(a.drop_first().take(k - 1) =~= a.take(k).drop_first());
        assert(b.drop_first().take(k - 1) =~= b.take(k).drop_first());
        if k < a.len() {
            assert(a.drop_first()[k - 1] == a[k]);
            assert(b.drop_first()[k - 1] == b[k]);
        }
        lemma_seq_order_first_difference(a.drop_first(), b.drop_first(), k - 1);
    }
}

/// Swapping the arguments negates the comparison.
pub proof fn lemma_seq_order_antisym(a: Seq<char>, b: Seq<char>)
    ensures
        seq_order(a, b) == -seq_order(b, a),
        -1 <= seq_order(a, b) <= 1,
    decreases a.len(),
{
    if a.len() > 0 && b.len() > 0 && (a[0] as u32) == (b[0] as u32) {
        lemma_seq_order_antisym(a.drop_first(), b.drop_first());
    }
}

/// The comparison is 0 exactly on equal sequences.
pub proof fn lemma_seq_order_eq(a: Seq<char>, b: Seq<char>)
    ensures
        seq_order(a, b) == 0 <==> a == b,
    decreases a.len(),
{
    if a.len() > 0 && b.len() > 0 && (a[0] as u32) == (b[0] as u32) {
        lemma_seq_order_eq(a.drop_first(), b.drop_first());
        vstd::utf8::char_u32_cast(a[0], a[0] as u32);
        vstd::utf8::char_u32_cast(b[0], b[0] as u32);
        assert(a[0] == b[0]);
        if a.drop_first() == b.drop_first() {
            assert(a =~= seq![a[0]] + a.drop_first());
            assert(b =~= seq![b[0]] + b.drop_first());
        }
        if a == b {
            assert(a.drop_first() =~= b.drop_first());
        }
    } else if a.len() > 0 && b.len() > 0 {
        if a == b {
            assert(a[0] == b[0]);
        }
    } else if a.len() == 0 && b.len() == 0 {
        assert(a =~= b);
    }
}

/// The order the comparison induces is transitive.
pub proof fn lemma_seq_order_trans(a: Seq<char>, b: Seq<char>, c: Seq<char>)
    requires
        seq_order(a, b) < 0,
        seq_order(b, c) < 0,
    ensures
        seq_order(a, c) < 0,
    decreases a.len(),
{
    if a.len() > 0 && b.len() > 0 && c.len() > 0 {
        if (a[0] as u32) == (b[0] as u32) && (b[0] as u32) == (c[0] as u32) {
            lemma_seq_order_trans(a.drop_first(), b.drop_first(), c.drop_first());
        }
    }
}

/// Three-way comparison of two character vectors, as `seq_order`.
pub fn compare_chars(a: &Vec<char>, b: &Vec<char>) -> (r: i8)
    ensures
        r as int == seq_order(a@, b@),
{
    let mut i: usize = 0;
    proof {
        assert(a@.skip(0) =~= a@);
        assert(b@.skip(0) =~= b@);
    }
    while i < a.len() && i < b.len()
        invariant
            i <= a.len(),
            i <= b.len(),
            seq_order(a@, b@) == seq_order(a@.skip(i as int), b@.skip(i as int)),
        decreases a.len() - i,
    {
        let x: u32 = a[i] as u32;
        let y: u32 = b[i] as u32;
        if x < y {
            return -1;
        } else if x > y {
            return 1;
        }
        proof {
            assert(a@.skip(i as int).drop_first() =~= a@.skip(i + 1));
            assert(b@.skip(i as int).drop_first() =~= b@.skip(i + 1));
        }
        i = i + 1;
    }
    if a.len() == b.len() {
        0
    } else if i == a.len() {
        -1
    } else {
        1
    }
}

/// Three-way comparison of two strings by code point, as `seq_order`.
pub fn compare_str(a: &str, b: &str) -> (r: i8)
    ensures
        r as int == seq_order(a@, b@),
{
    let av = chars_of(a);
    let bv = chars_of(b);
    compare_chars(&av, &bv)
}

/// Whether two strings hold the same characters.
pub fn str_eq(a: &str, b: &str) -> (r: bool)
    ensures
        r == (a@ == b@),
{
    let c = compare_str(a, b);
    proof {
        lemma_seq_order_eq(a@, b@);
    }
    c == 0
}


/// The decimal digits of `n`, most significant first, without leading zeros.
pub open spec fn decimal_text(n: nat) -> Seq<char>
    decreases n,
{
    if n < 10 {
        seq![digit_char(n)]
    } else {
        decimal_text(n / 10).push(digit_char(n % 10))
    }
}

/// The ASCII digit for a value below ten.
pub open spec fn digit_char(d: nat) -> char {
    if d == 0 { '0' } else if d == 1 { '1' } else if d == 2 { '2' } else if d == 3 { '3' }
    else if d == 4 { '4' } else if d == 5 { '5' } else if d == 6 { '6' } else if d == 7 { '7' }
    else if d == 8 { '8' } else { '9' }
}

fn digit(d: u64) -> (c: char)
    requires
        d < 10,
    ensures
        c == digit_char(d as nat),
{
    if d == 0 { '0' } else if d == 1 { '1' } else if d == 2 { '2' } else if d == 3 { '3' }
    else if d == 4 { '4' } else if d == 5 { '5' } else if d == 6 { '6' } else if d == 7 { '7' }
    else if d == 8 { '8' } else { '9' }
}

/// Writes `n` in decimal.
pub fn u64_to_decimal(n: u64) -> (r: String)
    ensures
        r@ == decimal_text(n as nat),
    decreases n,
{
    if n < 10 {
        let mut r = String::new();
        push_char(&mut r, digit(n));
        proof {
            assert(r@ =~= seq![digit_char(n as nat)]);
        }
        r
    } else {
        let mut r = u64_to_decimal(n / 10);
        push_char(&mut r, digit(n % 10));
        r
    }
}

/// Writes an integer in decimal, with a leading `-` when negative.
pub open spec fn signed_decimal_text(v: int) -> Seq<char> {
    if v < 0 {
        seq!['-'] + decimal_text((-v) as nat)
    } else {
        decimal_text(v as nat)
    }
}

/// Writes `v` in decimal, as `signed_decimal_text`.
pub fn i64_to_decimal(v: i64) -> (r: String)
    ensures
        r@ == signed_decimal_text(v as int),
{
    if v < 0 {
        let wide: i128 = v as i128;
        let m: u64 = (0 - wide) as u64;
        let d = u64_to_decimal(m);
        let mut r = String::new();
        push_char(&mut r, '-');
        let mut i: usize = 0;
        let dv = chars_of(d.as_str());
        while i < dv.len()
            invariant
                i <= dv.len(),
                dv@ == decimal_text(m as nat),
                r@ == seq!['-'] + dv@.take(i as int),
            decreases dv.len() - i,
        {
            push_char(&mut r, dv[i]);
            proof {
                assert(dv@.take(i as int).push(dv@[i as int]) =~= dv@.take(i + 1));
            }
            i = i + 1;
        }
        proof {
            assert(dv@.take(dv@.len() as int) =~= dv@);
        }
        r
    } else {
        u64_to_decimal(v as u64)
    }
}

/// `s` begins with `prefix`.
pub open spec fn has_prefix(s: Seq<char>, prefix: Seq<char>) -> bool {
    prefix.len() <= s.len() && s.subrange(0, prefix.len() as int) == prefix
}

/// Whether `s` begins with `prefix`.
pub fn starts_with(s: &str, prefix: &str) -> (r: bool)
    ensures
        r == has_prefix(s@, prefix@),
{
    let n = s.unicode_len();
    let m = prefix.unicode_len();
    if m > n {
        return false;
    }
    let mut i: usize = 0;
    while i < m
        invariant
            i <= m <= n,
            n == s@.len(),
            m == prefix@.len(),
            forall|j: int| 0 <= j < i ==> s@[j] == prefix@[j],
        decreases m - i,
    {
        if s.get_char(i) != prefix.get_char(i) {
            proof {
                assert(s@.subrange(0, m as int)[i as int] != prefix@[i as int]);
            }
            return false;
        }
        i = i + 1;
    }
    proof {
        assert(s@.subrange(0, m as int) =~= prefix@);
    }
    true
}

/// The rest of `s` after `prefix`, if `s` begins with it.
pub fn strip_prefix(s: &str, prefix: &str) -> (r: Option<String>)
    ensures
        match r {
            Some(t) => has_prefix(s@, prefix@) && t@ == s@.subrange(prefix@.len() as int, s@.len() as int),
            None => !has_prefix(s@, prefix@),
        },
{
    if !starts_with(s, prefix) {
        return None;
    }
    let n = s.unicode_len();
    let m = prefix.unicode_len();
    let mut t = String::new();
    let mut i: usize = m;
    while i < n
        invariant
            m <= i <= n,
            n == s@.len(),
            m == prefix@.len(),
            t@ == s@.subrange(m as int, i as int),
        decreases n - i,
    {
        push_char(&mut t, s.get_char(i));
        proof {
            assert(s@.subrange(m as int, i as int).push(s@[i as int]) =~= s@.subrange(m as int, i + 1));
        }
        i = i + 1;
    }
    Some(t)
}

} // verus!
