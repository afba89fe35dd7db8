//! Character-level helpers shared by the matchers and naming rules.

use vstd::prelude::*;
use vstd::string::*;

verus! {

/// Result of `str::to_lowercase` (full Unicode case mapping), as characters.
pub uninterp spec fn lowercase(s: Seq<char>) -> Seq<char>;

/// Whether every character is ASCII.
pub open spec fn all_ascii(s: Seq<char>) -> bool {
    forall|i: int| 0 <= i < s.len() ==> #[trigger] s[i] < '\u{80}'
}

/// ASCII lowercase of one character: `A`..`Z` become `a`..`z`.
pub open spec fn ascii_lower_char(c: char) -> char {
    if 'A' <= c <= 'Z' { ((c as u32) + 32) as char } else { c }
}

/// Lowercases a string with `str::to_lowercase` (std): the result is the
/// Unicode lowercase mapping of the argument, a function of it alone. The
/// contract names that mapping, and states what it is on ASCII text (the
/// Unicode lowercase of an ASCII letter is its ASCII lowercase, and other
/// ASCII characters have none); of other text it states nothing more.
#[verifier::external_body]
pub fn to_lower(s: &str) -> (r: String)
    ensures
        r@ == lowercase(s@),
        all_ascii(s@) ==> r@ == s@.map_values(|c: char| ascii_lower_char(c)),
{
    s.to_lowercase()
}

/// UTF-8 byte length of a character sequence, as `str::len` reports it.
pub open spec fn byte_len(s: Seq<char>) -> int {
    (vstd::utf8::encode_utf8(s).len() as usize) as int
}

/// The characters of a string.
pub fn chars_of(s: &str) -> (v: Vec<char>)
    ensures
        v@ == s@,
{
    let n = s.unicode_len();
    let mut v: Vec<char> = Vec::new();
    let mut i: usize = 0;
    while i < n
        invariant
            n == s@.len(),
            i <= n,
            v@ == s@.subrange(0, i as int),
        decreases n - i,
    {
        let c = s.get_char(i);
        v.push(c);
        i = i + 1;
        assert(v@ =~= s@.subrange(0, i as int));
    }
    assert(v@ =~= s@);
    v
}

/// An owned copy of a string slice.
pub fn owned(s: &str) -> (r: String)
    ensures
        r@ == s@,
{
    s.to_string()
}

/// True when `p` is a prefix of `s`.
pub open spec fn is_prefix(p: Seq<char>, s: Seq<char>) -> bool {
    p.len() <= s.len() && s.subrange(0, p.len() as int) == p
}

/// True when `p` occurs in `s` at some position.
pub open spec fn occurs_in(p: Seq<char>, s: Seq<char>) -> bool {
    exists|i: int| 0 <= i && i + p.len() <= s.len() && #[trigger] s.subrange(i, i + p.len()) == p
}

/// Whether `p` is a prefix of `s`.
pub fn starts_with(s: &Vec<char>, p: &Vec<char>) -> (b: bool)
    ensures
        b == is_prefix(p@, s@),
{
    if p.len() > s.len() {
        return false;
    }
    let mut i: usize = 0;
    while i < p.len()
        invariant
            p@.len() <= s@.len(),
            i <= p@.len(),
            forall|j: int| 0 <= j < i ==> s@[j] == p@[j],
        decreases p@.len() - i,
    {
        if s[i] != p[i] {
            assert(s@.subrange(0, p@.len() as int)[i as int] != p@[i as int]);
            return false;
        }
        i = i + 1;
    }
    assert(s@.subrange(0, p@.len() as int) =~= p@);
    true
}

/// Whether `p` occurs at position `at` of `s`.
fn occurs_at(s: &Vec<char>, p: &Vec<char>, at: usize) -> (b: bool)
    requires
        at + p@.len() <= s@.len(),
    ensures
        b == (s@.subrange(at as int, at + p@.len()) == p@),
{
    let n = s.len();
    let mut i: usize = 0;
    while i < p.len()
        invariant
            n == s@.len(),
            at + p@.len() <= s@.len(),
            i <= p@.len(),
            forall|j: int| 0 <= j < i ==> s@[at + j] == p@[j],
        decreases p@.len() - i,
    {
        assert(at + i < s@.len());
        if s[at + i] != p[i] {
            assert(s@.subrange(at as int, at + p@.len())[i as int] != p@[i as int]);
            return false;
        }
        i = i + 1;
    }
    assert(s@.subrange(at as int, at + p@.len()) =~= p@);
    true
}

/// Whether `p` occurs anywhere in `s`.
pub fn contains_seq(s: &Vec<char>, p: &Vec<char>) -> (b: bool)
    ensures
        b == occurs_in(p@, s@),
{
    if p.len() > s.len() {
        assert(!occurs_in(p@, s@));
        return false;
    }
    if p.len() == 0 {
        assert(s@.subrange(0, 0int + p@.len()) =~= p@);
        return true;
    }
    let n = s.len();
    let last = n - p.len();
    let mut at: usize = 0;
    while at <= last
        invariant
            n == s@.len(),
            last + p@.len() == s@.len(),
            p@.len() >= 1,
            at <= last + 1,
            forall|k: int| 0 <= k < at ==> #[trigger] s@.subrange(k, k + p@.len()) != p@,
        decreases last + 1 - at,
    {
        if occurs_at(s, p, at) {
            return true;
        }
        at = at + 1;
    }
    false
}

/// Whether two character vectors are equal.
pub fn seq_eq(a: &Vec<char>, b: &Vec<char>) -> (r: bool)
    ensures
        r == (a@ == b@),
{
    if a.len() != b.len() {
        return false;
    }
    let r = starts_with(a, b);
    proof {
        if r {
            assert(a@.subrange(0, b@.len() as int) =~= a@);
        } else {
            assert(a@.subrange(0, b@.len() as int) =~= a@);
        }
    }
    r
}


/// Lexicographic order of character sequences by code point (the order of
/// `str` comparison, since UTF-8 preserves code-point order).
pub open spec fn lex_le(a: Seq<char>, b: Seq<char>) -> bool
    decreases a.len(),
{
    if a.len() == 0 {
        true
    } else if b.len() == 0 {
        false
    } else if a[0] != b[0] {
        a[0] < b[0]
    } else {
        lex_le(a.drop_first(), b.drop_first())
    }
}

/// Whether `a` sorts no later than `b`.
pub fn lex_le_exec(a: &Vec<char>, b: &Vec<char>) -> (r: bool)
    ensures
        r == lex_le(a@, b@),
{
    let mut i: usize = 0;
    assert(a@.skip(0) =~= a@ && b@.skip(0) =~= b@);
    while i < a.len() && i < b.len()
        invariant
            i <= a@.len(),
            i <= b@.len(),
            lex_le(a@, b@) == lex_le(a@.skip(i as int), b@.skip(i as int)),
        decreases a@.len() - i,
    {
        if a[i] != b[i] {
            let x = a[i];
            let y = b[i];
            assert(a@.skip(i as int)[0] == a@[i as int]);
            assert(b@.skip(i as int)[0] == b@[i as int]);
            return x < y;
        }
        assert(a@.skip(i as int).drop_first() =~= a@.skip(i + 1));
        assert(b@.skip(i as int).drop_first() =~= b@.skip(i + 1));
        i = i + 1;
    }
    i == a.len()
}

/// Inserts `x` after the last element that sorts no later than it.
pub open spec fn insert_sorted(s: Seq<Seq<char>>, x: Seq<char>) -> Seq<Seq<char>>
    decreases s.len(),
{
    if s.len() == 0 {
        seq![x]
    } else if lex_le(s.last(), x) {
        s.push(x)
    } else {
        insert_sorted(s.drop_last(), x).push(s.last())
    }
}

/// Stable ascending sort by [`lex_le`], as `<[String]>::sort` orders.
pub open spec fn sort_names(s: Seq<Seq<char>>) -> Seq<Seq<char>>
    decreases s.len(),
{
    if s.len() == 0 {
        s
    } else {
        insert_sorted(sort_names(s.drop_last()), s.last())
    }
}

/// Every name sorts no later than every name after it.
pub open spec fn sorted_names(s: Seq<Seq<char>>) -> bool {
    forall|i: int, j: int| 0 <= i < j < s.len() ==> lex_le(#[trigger] s[i], #[trigger] s[j])
}

proof fn lemma_lex_total(a: Seq<char>, b: Seq<char>)
    ensures
        lex_le(a, b) || lex_le(b, a),
    decreases a.len(),
{
    if a.len() > 0 && b.len() > 0 && a[0] == b[0] {
        lemma_lex_total(a.drop_first(), b.drop_first());
    }
}

proof fn lemma_lex_trans(a: Seq<char>, b: Seq<char>, c: Seq<char>)
    requires
        lex_le(a, b),
        lex_le(b, c),
    ensures
        lex_le(a, c),
    decreases a.len(),
{
    if a.len() > 0 && b.len() > 0 && c.len() > 0 && a[0] == b[0] && b[0] == c[0] {
        lemma_lex_trans(a.drop_first(), b.drop_first(), c.drop_first());
    }
}

proof fn lemma_insert_bounded(s: Seq<Seq<char>>, x: Seq<char>, b: Seq<char>)
    requires
        forall|i: int| 0 <= i < s.len() ==> lex_le(#[trigger] s[i], b),
        lex_le(x, b),
    ensures
        forall|k: int| 0 <= k < insert_sorted(s, x).len() ==> lex_le(#[trigger] insert_sorted(s, x)[k], b),
        insert_sorted(s, x).len() == s.len() + 1,
    decreases s.len(),
{
    if s.len() == 0 {
    } else if lex_le(s.last(), x) {
        assert forall|k: int| 0 <= k < insert_sorted(s, x).len() implies lex_le(#[trigger] insert_sorted(s, x)[k], b) by {
            if k < s.len() {
                assert(insert_sorted(s, x)[k] == s[k]);
            }
        }
    } else {
        let d = s.drop_last();
        assert forall|i: int| 0 <= i < d.len() implies lex_le(#[trigger] d[i], b) by {
            assert(d[i] == s[i]);
        }
        lemma_insert_bounded(d, x, b);
        let r = insert_sorted(d, x);
        assert forall|k: int| 0 <= k < insert_sorted(s, x).len() implies lex_le(#[trigger] insert_sorted(s, x)[k], b) by {
            if k < r.len() {
                assert(insert_sorted(s, x)[k] == r[k]);
            } else {
                assert(insert_sorted(s, x)[k] == s[s.len() - 1]);
            }
        }
    }
}

proof fn lemma_insert_sorted_sorted(s: Seq<Seq<char>>, x: Seq<char>)
    requires
        sorted_names(s),
    ensures
        sorted_names(insert_sorted(s, x)),
        insert_sorted(s, x).len() == s.len() + 1,
    decreases s.len(),
{
    if s.len() == 0 {
    } else if lex_le(s.last(), x) {
        let r = s.push(x);
        assert forall|i: int, j: int| 0 <= i < j < r.len() implies lex_le(#[trigger] r[i], #[trigger] r[j]) by {
            if j == s.len() {
                if i < s.len() - 1 {
                    lemma_lex_trans(s[i], s.last(), x);
                }
            }
        }
    } else {
        let d = s.drop_last();
        let last = s.last();
        assert(sorted_names(d)) by {
            assert forall|i: int, j: int| 0 <= i < j < d.len() implies lex_le(#[trigger] d[i], #[trigger] d[j]) by {
                assert(d[i] == s[i] && d[j] == s[j]);
            }
        }
        lemma_insert_sorted_sorted(d, x);
        lemma_lex_total(last, x);
        assert forall|i: int| 0 <= i < d.len() implies lex_le(#[trigger] d[i], last) by {
            assert(d[i] == s[i]);
        }
        lemma_insert_bounded(d, x, last);
        let r = insert_sorted(d, x);
        let t = r.push(last);
        assert forall|i: int, j: int| 0 <= i < j < t.len() implies lex_le(#[trigger] t[i], #[trigger] t[j]) by {
            if j < r.len() {
                assert(t[i] == r[i] && t[j] == r[j]);
            } else {
                assert(t[i] == r[i]);
            }
        }
    }
}

/// The sort puts names in ascending code-point order.
pub proof fn lemma_sort_names_sorted(s: Seq<Seq<char>>)
    ensures
        sorted_names(sort_names(s)),
        sort_names(s).len() == s.len(),
    decreases s.len(),
{
    if s.len() > 0 {
        lemma_sort_names_sorted(s.drop_last());
        lemma_insert_sorted_sorted(sort_names(s.drop_last()), s.last());
    }
}

proof fn lemma_insert_sorted_multiset(s: Seq<Seq<char>>, x: Seq<char>)
    ensures
        insert_sorted(s, x).to_multiset() =~= s.to_multiset().insert(x),
    decreases s.len(),
{
    broadcast use vstd::seq_lib::group_to_multiset_ensures;
    if s.len() == 0 {
        assert(seq![x] =~= s.push(x));
    } else if lex_le(s.last(), x) {
    } else {
        let d = s.drop_last();
        lemma_insert_sorted_multiset(d, x);
        assert(s =~= d.push(s.last()));
    }
}

/// The sort keeps every name, as often as it occurs: its result is a
/// rearrangement of its input.
pub proof fn lemma_sort_names_permutes(s: Seq<Seq<char>>)
    ensures
        sort_names(s).to_multiset() =~= s.to_multiset(),
    decreases s.len(),
{
    broadcast use vstd::seq_lib::group_to_multiset_ensures;
    if s.len() > 0 {
        let d = s.drop_last();
        lemma_sort_names_permutes(d);
        lemma_insert_sorted_multiset(sort_names(d), s.last());
        assert(s =~= d.push(s.last()));
    }
}

proof fn lemma_lex_prefix(a: Seq<char>, b: Seq<char>)
    ensures
        lex_le(a, a + b),
    decreases a.len(),
{
    if a.len() > 0 {
        assert((a + b)[0] == a[0]);
        assert((a + b).drop_first() =~= a.drop_first() + b);
        lemma_lex_prefix(a.drop_first(), b);
    }
}

proof fn lemma_lex_antisym(a: Seq<char>, b: Seq<char>)
    requires
        lex_le(a, b),
        lex_le(b, a),
    ensures
        a == b,
    decreases a.len(),
{
    if a.len() > 0 && b.len() > 0 {
        lemma_lex_antisym(a.drop_first(), b.drop_first());
        assert(a =~= seq![a[0]] + a.drop_first());
        assert(b =~= seq![b[0]] + b.drop_first());
    } else {
        assert(a =~= b);
    }
}

/// The name order is a total order: any two names compare, two names that
/// each sort no later than the other are equal, it is transitive, a name
/// sorts no later than every extension of it, and names that differ first
/// at some character are ordered by that character's code point.
pub proof fn lemma_lex_order(a: Seq<char>, b: Seq<char>, c: Seq<char>, p: Seq<char>, x: char, y: char)
    ensures
        lex_le(a, b) || lex_le(b, a),
        (lex_le(a, b) && lex_le(b, a)) ==> a == b,
        (lex_le(a, b) && lex_le(b, c)) ==> lex_le(a, c),
        lex_le(a, a + b),
        x < y ==> lex_le(p + seq![x] + a, p + seq![y] + b) && !lex_le(p + seq![y] + b, p + seq![x] + a),
    decreases p.len(),
{
    lemma_lex_total(a, b);
    if lex_le(a, b) && lex_le(b, a) {
        lemma_lex_antisym(a, b);
    }
    if lex_le(a, b) && lex_le(b, c) {
        lemma_lex_trans(a, b, c);
    }
    lemma_lex_prefix(a, b);
    if x < y {
        let l = p + seq![x] + a;
        let r = p + seq![y] + b;
        if p.len() == 0 {
            assert(l[0] == x && r[0] == y);
        } else {
            assert(l[0] == p[0] && r[0] == p[0]);
            assert(l.drop_first() =~= p.drop_first() + seq![x] + a);
            assert(r.drop_first() =~= p.drop_first() + seq![y] + b);
            lemma_lex_order(a, b, c, p.drop_first(), x, y);
        }
    }
}

/// The characters of each string.
pub open spec fn views(v: Seq<String>) -> Seq<Seq<char>> {
    v.map_values(|s: String| s@)
}

proof fn lemma_insert_sorted_at(s: Seq<Seq<char>>, x: Seq<char>, p: int)
    requires
        0 <= p <= s.len(),
        p == 0 || lex_le(s[p - 1], x),
        forall|j: int| p <= j < s.len() ==> !lex_le(#[trigger] s[j], x),
    ensures
        insert_sorted(s, x) == s.insert(p, x),
    decreases s.len(),
{
    if s.len() == 0 {
        assert(s.insert(p, x) =~= seq![x]);
    } else if lex_le(s.last(), x) {
        if p < s.len() {
            assert(!lex_le(s[s.len() - 1], x));
        }
        assert(s.insert(p, x) =~= s.push(x));
    } else {
        let d = s.drop_last();
        assert forall|j: int| p <= j < d.len() implies !lex_le(#[trigger] d[j], x) by {
            assert(d[j] == s[j]);
        }
        if p > 0 {
            assert(d[p - 1] == s[p - 1]);
        }
        lemma_insert_sorted_at(d, x, p);
        assert(d.insert(p, x).push(s.last()) =~= s.insert(p, x));
    }
}

/// Sorts strings in ascending code-point order (stable).
pub fn sort_strings(v: Vec<String>) -> (r: Vec<String>)
    ensures
        views(r@) == sort_names(views(v@)),
        sorted_names(views(r@)),
{
    proof {
        lemma_sort_names_sorted(views(v@));
    }
    let mut out: Vec<String> = Vec::new();
    let n = v.len();
    let mut i: usize = 0;
    let ghost src = views(v@);
    assert(src.subrange(0, 0) =~= Seq::<Seq<char>>::empty());
    assert(views(out@) =~= Seq::<Seq<char>>::empty());
    while i < n
        invariant
            n == v@.len(),
            src == views(v@),
            i <= n,
            views(out@) == sort_names(src.subrange(0, i as int)),
        decreases n - i,
    {
        let x = v[i].clone();
        let xc = chars_of(x.as_str());
        let ghost before = out@;
        let mut p = out.len();
        while p > 0 && !lex_le_exec(&chars_of(out[p - 1].as_str()), &xc)
            invariant
                p <= out@.len(),
                out@ == before,
                xc@ == x@,
                forall|j: int| p <= j < out@.len() ==> !lex_le((#[trigger] out@[j])@, x@),
            decreases p,
        {
            p = p - 1;
        }
        proof {
            let sv = views(before);
            assert forall|j: int| p <= j < sv.len() implies !lex_le(#[trigger] sv[j], x@) by {
                assert(sv[j] == before[j]@);
            }
            if p > 0 {
                assert(sv[p - 1] == before[p - 1]@);
            }
            lemma_insert_sorted_at(sv, x@, p as int);
        }
        out.insert(p, x);
        let ghost pre = src.subrange(0, i as int);
        let ghost post = src.subrange(0, i + 1);
        assert(post.drop_last() =~= pre);
        assert(post.last() == v@[i as int]@);
        assert(views(out@) =~= views(before).insert(p as int, x@));
        i = i + 1;
    }
    assert(src.subrange(0, n as int) =~= src);
    out
}


/// Index of the last `.` in `n` before position `i`, or -1.
pub open spec fn last_dot_before(n: Seq<char>, i: int) -> int
    decreases i,
{
    if i <= 0 {
        -1
    } else if n[i - 1] == '.' {
        i - 1
    } else {
        last_dot_before(n, i - 1)
    }
}

/// The stem of a file name, as `Path::file_stem` gives it: the part before
/// the last `.`, or the whole name when it has no `.` past its first
/// character.
pub open spec fn file_stem(n: Seq<char>) -> Seq<char> {
    let p = last_dot_before(n, n.len() as int);
    if p > 0 { n.subrange(0, p) } else { n }
}

/// The extension of a file name, as `Path::extension` gives it: the part
/// after the last `.`, when that `.` is past the first character.
pub open spec fn file_ext(n: Seq<char>) -> Option<Seq<char>> {
    let p = last_dot_before(n, n.len() as int);
    if p > 0 { Some(n.subrange(p + 1, n.len() as int)) } else { None }
}

proof fn lemma_last_dot_range(n: Seq<char>, i: int)
    requires
        0 <= i <= n.len(),
    ensures
        -1 <= last_dot_before(n, i) < i,
    decreases i,
{
    if i > 0 && n[i - 1] != '.' {
        lemma_last_dot_range(n, i - 1);
    }
}

/// Splits a file name into its stem and extension.
pub fn split_file_name(name: &str) -> (r: (String, Option<String>))
    ensures
        r.0@ == file_stem(name@),
        r.1 matches Some(e) ==> file_ext(name@) == Some(e@),
        r.1 is None ==> file_ext(name@) is None,
{
    let n = name.unicode_len();
    let v = chars_of(name);
    let mut i: usize = n;
    while i > 0 && v[i - 1] != '.'
        invariant
            n == name@.len(),
            v@ == name@,
            i <= n,
            last_dot_before(name@, n as int) == last_dot_before(name@, i as int),
        decreases i,
    {
        i = i - 1;
    }
    proof {
        lemma_last_dot_range(name@, n as int);
    }
    if i > 1 {
        let stem = owned(name.substring_char(0, i - 1));
        let ext = owned(name.substring_char(i, n));
        (stem, Some(ext))
    } else {
        (owned(name), None)
    }
}


/// The Unicode `White_Space` characters, those for which
/// `char::is_whitespace` holds.
pub open spec fn spec_is_whitespace(c: char) -> bool {
    ||| '\u{9}' <= c <= '\u{d}'
    ||| c == ' '
    ||| c == '\u{85}'
    ||| c == '\u{a0}'
    ||| c == '\u{1680}'
    ||| '\u{2000}' <= c <= '\u{200a}'
    ||| c == '\u{2028}'
    ||| c == '\u{2029}'
    ||| c == '\u{202f}'
    ||| c == '\u{205f}'
    ||| c == '\u{3000}'
}

/// Whether `c` is a Unicode white-space character.
pub fn is_whitespace(c: char) -> (b: bool)
    ensures
        b == spec_is_whitespace(c),
{
    ('\u{9}' <= c && c <= '\u{d}') || c == ' ' || c == '\u{85}' || c == '\u{a0}' || c == '\u{1680}'
        || ('\u{2000}' <= c && c <= '\u{200a}') || c == '\u{2028}' || c == '\u{2029}' || c == '\u{202f}'
        || c == '\u{205f}' || c == '\u{3000}'
}

/// `s` without its leading white space.
pub open spec fn spec_trim_start(s: Seq<char>) -> Seq<char>
    decreases s.len(),
{
    if s.len() > 0 && spec_is_whitespace(s[0]) {
        spec_trim_start(s.drop_first())
    } else {
        s
    }
}

/// `s` without its trailing white space.
pub open spec fn spec_trim_end(s: Seq<char>) -> Seq<char>
    decreases s.len(),
{
    if s.len() > 0 && spec_is_whitespace(s.last()) {
        spec_trim_end(s.drop_last())
    } else {
        s
    }
}

/// `s` without leading and trailing white space, as `str::trim` gives it.
pub open spec fn spec_trim(s: Seq<char>) -> Seq<char> {
    spec_trim_end(spec_trim_start(s))
}

/// Removes leading and trailing white space.
pub fn trim(v: &Vec<char>) -> (r: Vec<char>)
    ensures
        r@ == spec_trim(v@),
{
    let n = v.len();
    let mut a: usize = 0;
    assert(v@.skip(0) =~= v@);
    while a < n && is_whitespace(v[a])
        invariant
            n == v@.len(),
            a <= n,
            spec_trim_start(v@) == spec_trim_start(v@.skip(a as int)),
        decreases n - a,
    {
        assert(v@.skip(a as int).drop_first() =~= v@.skip(a + 1));
        a = a + 1;
    }
    assert(spec_trim_start(v@) == v@.skip(a as int));
    let mut b: usize = n;
    assert(v@.skip(a as int) =~= v@.subrange(a as int, n as int));
    while b > a && is_whitespace(v[b - 1])
        invariant
            n == v@.len(),
            a <= b <= n,
            spec_trim(v@) == spec_trim_end(v@.subrange(a as int, b as int)),
        decreases b,
    {
        assert(v@.subrange(a as int, b as int).drop_last() =~= v@.subrange(a as int, b - 1));
        b = b - 1;
    }
    let mut r: Vec<char> = Vec::new();
    let mut k: usize = a;
    while k < b
        invariant
            n == v@.len(),
            a <= k <= b <= n,
            r@ == v@.subrange(a as int, k as int),
        decreases b - k,
    {
        r.push(v[k]);
        k = k + 1;
        assert(r@ =~= v@.subrange(a as int, k as int));
    }
    assert(b > a ==> v@.subrange(a as int, b as int).last() == v@[b - 1]);
    r
}

/// What separates the fields of a text.
#[derive(Debug, Clone, Copy, PartialEq, Eq, Structural)]
pub enum Separator {
    /// Line breaks (`\n`).
    Newline,
    /// White space.
    Whitespace,
    /// White space or commas.
    WhitespaceOrComma,
}

pub open spec fn spec_is_separator(sep: Separator, c: char) -> bool {
    match sep {
        Separator::Newline => c == '\n',
        Separator::Whitespace => spec_is_whitespace(c),
        Separator::WhitespaceOrComma => spec_is_whitespace(c) || c == ',',
    }
}

/// Whether `c` separates fields.
pub fn is_separator(sep: Separator, c: char) -> (b: bool)
    ensures
        b == spec_is_separator(sep, c),
{
    match sep {
        Separator::Newline => c == '\n',
        Separator::Whitespace => is_whitespace(c),
        Separator::WhitespaceOrComma => is_whitespace(c) || c == ',',
    }
}

/// The field `cur` as it is kept: trimmed, and dropped when nothing is
/// left.
pub open spec fn spec_emit(cur: Seq<char>) -> Seq<Seq<char>> {
    if spec_trim(cur).len() == 0 { seq![] } else { seq![spec_trim(cur)] }
}

/// The fields of `s`, where `cur` is the field read so far.
pub open spec fn spec_fields_from(s: Seq<char>, sep: Separator, cur: Seq<char>) -> Seq<Seq<char>>
    decreases s.len(),
{
    if s.len() == 0 {
        spec_emit(cur)
    } else if spec_is_separator(sep, s[0]) {
        spec_emit(cur) + spec_fields_from(s.drop_first(), sep, seq![])
    } else {
        spec_fields_from(s.drop_first(), sep, cur.push(s[0]))
    }
}

/// The pieces of `s` between separators, each trimmed of white space, the
/// empty ones left out. With line breaks as separators these are the
/// non-blank lines of `str::lines`, trimmed; with white space they are the
/// words of `str::split_whitespace`.
pub open spec fn spec_fields(s: Seq<char>, sep: Separator) -> Seq<Seq<char>> {
    spec_fields_from(s, sep, seq![])
}

/// The characters of each field.
pub open spec fn field_views(v: Seq<Vec<char>>) -> Seq<Seq<char>> {
    v.map_values(|f: Vec<char>| f@)
}

/// Splits `v` into its non-empty trimmed fields.
pub fn fields(v: &Vec<char>, sep: Separator) -> (r: Vec<Vec<char>>)
    ensures
        field_views(r@) == spec_fields(v@, sep),
{
    let n = v.len();
    let mut out: Vec<Vec<char>> = Vec::new();
    let mut cur: Vec<char> = Vec::new();
    let mut i: usize = 0;
    assert(v@.skip(0) =~= v@);
    assert(field_views(out@) =~= Seq::<Seq<char>>::empty());
    while i < n
        invariant
            n == v@.len(),
            i <= n,
            spec_fields(v@, sep) == field_views(out@) + spec_fields_from(v@.skip(i as int), sep, cur@),
        decreases n - i,
    {
        let c = v[i];
        let ghost rest = v@.skip(i as int);
        assert(rest[0] == c);
        assert(rest.drop_first() =~= v@.skip(i + 1));
        if is_separator(sep, c) {
            let t = trim(&cur);
            let ghost before = field_views(out@);
            if t.len() > 0 {
                out.push(t);
            }
            assert(field_views(out@) =~= before + spec_emit(cur@));
            assert(before + (spec_emit(cur@) + spec_fields_from(v@.skip(i + 1), sep, seq![]))
                =~= (before + spec_emit(cur@)) + spec_fields_from(v@.skip(i + 1), sep, seq![]));
            cur = Vec::new();
            assert(cur@ =~= Seq::<char>::empty());
        } else {
            cur.push(c);
        }
        i = i + 1;
    }
    let t = trim(&cur);
    let ghost before = field_views(out@);
    if t.len() > 0 {
        out.push(t);
    }
    assert(field_views(out@) =~= before + spec_emit(cur@));
    out
}

} // verus!
