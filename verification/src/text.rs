//! Character-level text utilities: Unicode whitespace, substring search,
//! trimming, splitting into words and joining lines, all over `Seq<char>`.
use vstd::prelude::*;

verus! {

broadcast use vstd::string::group_string_axioms;

/// Unicode `White_Space`, the property that `char::is_whitespace` tests.
pub open spec fn is_white(c: char) -> bool {
    let u = c as u32;
    ||| 0x09 <= u <= 0x0d
    ||| u == 0x20
    ||| u == 0x85
    ||| u == 0xa0
    ||| u == 0x1680
    ||| 0x2000 <= u <= 0x200a
    ||| u == 0x2028
    ||| u == 0x2029
    ||| u == 0x202f
    ||| u == 0x205f
    ||| u == 0x3000
}

/// Whether `c` is Unicode whitespace.
pub fn is_white_char(c: char) -> (r: bool)
    ensures
        r == is_white(c),
{
    let u = c as u32;
    (0x09 <= u && u <= 0x0d) || u == 0x20 || u == 0x85 || u == 0xa0 || u == 0x1680 || (0x2000
        <= u && u <= 0x200a) || u == 0x2028 || u == 0x2029 || u == 0x202f || u == 0x205f || u
        == 0x3000
}

/// The characters of `s`, in order.
pub fn chars_of(s: &str) -> (v: Vec<char>)
    ensures
        v@ == s@,
{
    let mut v: Vec<char> = Vec::new();
    for c in it: s.chars()
        invariant
            v@ == it.seq().take(it.index() as int),
    {
        v.push(c);
    }
    v
}


/// The string made of the characters `cs`, collected with
/// `Iterator::collect` into a `String`; the contract claims that the string
/// holds exactly those characters, in order.
#[verifier::external_body]
pub(crate) fn string_of(cs: &[char]) -> (s: String)
    ensures
        s@ == cs@,
{
    cs.iter().collect()
}

/// `t` occurs in `s` at position `i`.
pub open spec fn occurs_at(s: Seq<char>, t: Seq<char>, i: int) -> bool {
    0 <= i && i + t.len() <= s.len() && s.subrange(i, i + t.len()) == t
}

/// `t` is a substring of `s` (what `str::contains` tests for a string pattern).
pub open spec fn has_sub(s: Seq<char>, t: Seq<char>) -> bool {
    exists|i: int| occurs_at(s, t, i)
}

/// `p` is a prefix of `s`.
pub open spec fn has_prefix(s: Seq<char>, p: Seq<char>) -> bool {
    p.len() <= s.len() && s.subrange(0, p.len() as int) == p
}

fn occurs_at_exec(s: &[char], t: &[char], i: usize) -> (r: bool)
    requires
        i + t@.len() <= s@.len(),
    ensures
        r == occurs_at(s@, t@, i as int),
{
    let mut k: usize = 0;
    while k < t.len()
        invariant
            i + t@.len() <= s@.len(),
            s@.len() == s.len(),
            k <= t@.len(),
            forall|j: int| 0 <= j < k ==> s@[i + j] == t@[j],
        decreases t@.len() - k,
    {
        if s[i + k] != t[k] {
            assert(s@.subrange(i as int, i + t@.len())[k as int] != t@[k as int]);
            return false;
        }
        k = k + 1;
    }
    assert(s@.subrange(i as int, i + t@.len()) =~= t@);
    true
}

/// Whether `t` occurs in `s`.
pub fn contains_chars(s: &[char], t: &[char]) -> (r: bool)
    ensures
        r == has_sub(s@, t@),
{
    if t.len() > s.len() {
        assert(!has_sub(s@, t@));
        return false;
    }
    let last = s.len() - t.len();
    let mut i: usize = 0;
    loop
        invariant
            last == s@.len() - t@.len(),
            t@.len() <= s@.len(),
            i <= last,
            forall|j: int| 0 <= j < i ==> !occurs_at(s@, t@, j),
        ensures
            forall|j: int| 0 <= j <= last ==> !occurs_at(s@, t@, j),
        decreases last - i,
    {
        if occurs_at_exec(s, t, i) {
            return true;
        }
        if i == last {
            break;
        }
        i = i + 1;
    }
    assert forall|j: int| !occurs_at(s@, t@, j) by {
        if 0 <= j && j + t@.len() <= s@.len() {
            assert(j <= last);
        }
    }
    false
}

/// Whether `p` is a prefix of `s`.
pub fn starts_with_chars(s: &[char], p: &[char]) -> (r: bool)
    ensures
        r == has_prefix(s@, p@),
{
    if p.len() > s.len() {
        return false;
    }
    let r = occurs_at_exec(s, p, 0);
    r
}

/// Whether `needle` occurs in `hay`.
pub fn str_contains(hay: &str, needle: &str) -> (r: bool)
    ensures
        r == has_sub(hay@, needle@),
{
    let h = chars_of(hay);
    let n = chars_of(needle);
    contains_chars(h.as_slice(), n.as_slice())
}


/// `s` without its leading whitespace.
pub open spec fn trim_start(s: Seq<char>) -> Seq<char>
    decreases s.len(),
{
    if s.len() > 0 && is_white(s[0]) {
        trim_start(s.drop_first())
    } else {
        s
    }
}

/// `s` without its trailing whitespace.
pub open spec fn trim_end(s: Seq<char>) -> Seq<char>
    decreases s.len(),
{
    if s.len() > 0 && is_white(s.last()) {
        trim_end(s.drop_last())
    } else {
        s
    }
}

/// `s` without leading and trailing whitespace (what `str::trim` gives).
pub open spec fn trim(s: Seq<char>) -> Seq<char> {
    trim_end(trim_start(s))
}

proof fn lemma_trim_start_skip(s: Seq<char>, i: int)
    requires
        0 <= i <= s.len(),
        forall|j: int| 0 <= j < i ==> is_white(#[trigger] s[j]),
    ensures
        trim_start(s) == trim_start(s.subrange(i, s.len() as int)),
    decreases i,
{
    if i == 0 {
        assert(s.subrange(0, s.len() as int) =~= s);
    } else {
        let d = s.drop_first();
        assert forall|j: int| 0 <= j < i - 1 implies is_white(#[trigger] d[j]) by {
            assert(d[j] == s[j + 1]);
        }
        lemma_trim_start_skip(d, i - 1);
        assert(d.subrange(i - 1, d.len() as int) =~= s.subrange(i, s.len() as int));
    }
}

proof fn lemma_trim_end_skip(s: Seq<char>, b: int)
    requires
        0 <= b <= s.len(),
        forall|j: int| b <= j < s.len() ==> is_white(#[trigger] s[j]),
    ensures
        trim_end(s) == trim_end(s.subrange(0, b)),
    decreases s.len() - b,
{
    if b == s.len() {
        assert(s.subrange(0, b) =~= s);
    } else {
        let d = s.drop_last();
        assert(is_white(s.last()));
        lemma_trim_end_skip(d, b);
        assert(d.subrange(0, b) =~= s.subrange(0, b));
    }
}

/// The characters of `s` with leading and trailing whitespace removed.
pub fn trim_chars(s: &[char]) -> (r: Vec<char>)
    ensures
        r@ == trim(s@),
{
    let n = s.len();
    let mut a: usize = 0;
    while a < n && is_white_char(s[a])
        invariant
            n == s@.len(),
            a <= n,
            forall|j: int| 0 <= j < a ==> is_white(#[trigger] s@[j]),
        decreases n - a,
    {
        a = a + 1;
    }
    proof {
        lemma_trim_start_skip(s@, a as int);
    }
    let ghost t = s@.subrange(a as int, n as int);
    assert(trim_start(t) == t);
    let mut b: usize = n;
    while b > a && is_white_char(s[b - 1])
        invariant
            n == s@.len(),
            a <= b <= n,
            t == s@.subrange(a as int, n as int),
            forall|j: int| b <= j < n ==> is_white(#[trigger] s@[j]),
        decreases b - a,
    {
        b = b - 1;
    }
    proof {
        assert forall|j: int| b - a <= j < t.len() implies is_white(#[trigger] t[j]) by {
            assert(t[j] == s@[j + a]);
        }
        lemma_trim_end_skip(t, b - a);
        assert(t.subrange(0, b - a) =~= s@.subrange(a as int, b as int));
    }
    let mut r: Vec<char> = Vec::new();
    let mut k: usize = a;
    while k < b
        invariant
            n == s@.len(),
            a <= k <= b <= n,
            r@ == s@.subrange(a as int, k as int),
        decreases b - k,
    {
        r.push(s[k]);
        k = k + 1;
        assert(r@ =~= s@.subrange(a as int, k as int));
    }
    r
}


/// The characters `s[a..b]`.
pub fn copy_range(s: &[char], a: usize, b: usize) -> (r: Vec<char>)
    requires
        a <= b <= s@.len(),
    ensures
        r@ == s@.subrange(a as int, b as int),
{
    let mut r: Vec<char> = Vec::new();
    let mut k: usize = a;
    while k < b
        invariant
            a <= k <= b <= s@.len(),
            r@ == s@.subrange(a as int, k as int),
        decreases b - k,
    {
        r.push(s[k]);
        k = k + 1;
        assert(r@ =~= s@.subrange(a as int, k as int));
    }
    r
}

/// The length of the run of non-whitespace characters that starts `s`.
pub open spec fn run_len(s: Seq<char>) -> nat
    decreases s.len(),
{
    if s.len() == 0 || is_white(s[0]) {
        0
    } else {
        1 + run_len(s.drop_first())
    }
}

proof fn lemma_run_len_bound(s: Seq<char>)
    ensures
        run_len(s) <= s.len(),
        forall|j: int| 0 <= j < run_len(s) ==> !is_white(#[trigger] s[j]),
        run_len(s) < s.len() ==> is_white(s[run_len(s) as int]),
    decreases s.len(),
{
    if s.len() > 0 && !is_white(s[0]) {
        lemma_run_len_bound(s.drop_first());
        assert forall|j: int| 0 <= j < run_len(s) implies !is_white(#[trigger] s[j]) by {
            if j > 0 {
                assert(s[j] == s.drop_first()[j - 1]);
            }
        }
    }
}

proof fn lemma_run_len_exact(s: Seq<char>, k: int)
    requires
        0 <= k <= s.len(),
        forall|j: int| 0 <= j < k ==> !is_white(#[trigger] s[j]),
        k == s.len() || is_white(s[k]),
    ensures
        run_len(s) == k,
    decreases k,
{
    if k > 0 {
        let d = s.drop_first();
        assert forall|j: int| 0 <= j < k - 1 implies !is_white(#[trigger] d[j]) by {
            assert(d[j] == s[j + 1]);
        }
        lemma_run_len_exact(d, k - 1);
    }
}

/// The words of `s`: its maximal runs of non-whitespace characters, in order
/// (what `str::split_whitespace` yields).
pub open spec fn words(s: Seq<char>) -> Seq<Seq<char>>
    decreases s.len(),
{
    if s.len() == 0 {
        Seq::empty()
    } else if is_white(s[0]) {
        words(s.drop_first())
    } else {
        let k = run_len(s);
        if 0 < k <= s.len() {
            seq![s.subrange(0, k as int)] + words(s.subrange(k as int, s.len() as int))
        } else {
            Seq::empty()
        }
    }
}

/// The views of a sequence of character vectors.
pub open spec fn views_of(v: Seq<Vec<char>>) -> Seq<Seq<char>> {
    v.map_values(|w: Vec<char>| w@)
}

/// The words of `s`, in order.
pub fn split_words(s: &[char]) -> (r: Vec<Vec<char>>)
    ensures
        views_of(r@) == words(s@),
{
    let n = s.len();
    let mut r: Vec<Vec<char>> = Vec::new();
    let mut i: usize = 0;
    proof {
        assert(s@.subrange(0, n as int) =~= s@);
    }
    while i < n
        invariant
            n == s@.len(),
            i <= n,
            views_of(r@) + words(s@.subrange(i as int, n as int)) == words(s@),
        decreases n - i,
    {
        let ghost rest = s@.subrange(i as int, n as int);
        if is_white_char(s[i]) {
            assert(rest.drop_first() =~= s@.subrange(i + 1, n as int));
            i = i + 1;
        } else {
            let mut j: usize = i + 1;
            while j < n && !is_white_char(s[j])
                invariant
                    n == s@.len(),
                    i < j <= n,
                    forall|q: int| i <= q < j ==> !is_white(#[trigger] s@[q]),
                decreases n - j,
            {
                j = j + 1;
            }
            proof {
                assert forall|q: int| 0 <= q < j - i implies !is_white(#[trigger] rest[q]) by {
                    assert(rest[q] == s@[q + i]);
                }
                lemma_run_len_exact(rest, j - i);
                assert(rest.subrange(0, j - i) =~= s@.subrange(i as int, j as int));
                assert(rest.subrange(j - i, rest.len() as int) =~= s@.subrange(j as int, n as int));
            }
            let w = copy_range(s, i, j);
            let ghost before = views_of(r@);
            r.push(w);
            assert(views_of(r@) =~= before.push(w@));
            assert(views_of(r@) + words(s@.subrange(j as int, n as int)) =~= before + words(rest));
            i = j;
        }
    }
    assert(views_of(r@) + Seq::<Seq<char>>::empty() =~= views_of(r@));
    r
}


/// `ws` joined with `sep` between consecutive items (what `join` gives).
pub open spec fn join(ws: Seq<Seq<char>>, sep: Seq<char>) -> Seq<char>
    decreases ws.len(),
{
    if ws.len() == 0 {
        Seq::empty()
    } else if ws.len() == 1 {
        ws[0]
    } else {
        join(ws.drop_last(), sep) + sep + ws.last()
    }
}

/// The items of `ws` joined with `sep`.
pub fn join_chars(ws: &Vec<Vec<char>>, sep: &[char]) -> (r: Vec<char>)
    ensures
        r@ == join(views_of(ws@), sep@),
{
    let mut r: Vec<char> = Vec::new();
    let mut i: usize = 0;
    while i < ws.len()
        invariant
            i <= ws@.len(),
            r@ == join(views_of(ws@).take(i as int), sep@),
        decreases ws@.len() - i,
    {
        let ghost before = r@;
        if i > 0 {
            append_chars(&mut r, sep);
        }
        append_chars(&mut r, ws[i].as_slice());
        proof {
            let vs = views_of(ws@);
            assert(vs.take(i + 1).drop_last() =~= vs.take(i as int));
            assert(vs.take(i + 1).last() == ws@[i as int]@);
            if i == 0 {
                assert(r@ =~= ws@[0]@);
            }
        }
        i = i + 1;
    }
    assert(views_of(ws@).take(ws@.len() as int) =~= views_of(ws@));
    r
}

/// Appends the characters `t` to `r`.
pub fn append_chars(r: &mut Vec<char>, t: &[char])
    ensures
        final(r)@ == old(r)@ + t@,
{
    let mut k: usize = 0;
    while k < t.len()
        invariant
            k <= t@.len(),
            r@ == old(r)@ + t@.subrange(0, k as int),
        decreases t@.len() - k,
    {
        r.push(t[k]);
        k = k + 1;
        assert(r@ =~= old(r)@ + t@.subrange(0, k as int));
    }
    assert(t@.subrange(0, t@.len() as int) =~= t@);
}

/// The number of bytes of `c` in UTF-8.
pub open spec fn utf8_width(c: char) -> nat {
    let u = c as u32;
    if u < 0x80 {
        1
    } else if u < 0x800 {
        2
    } else if u < 0x10000 {
        3
    } else {
        4
    }
}

/// The number of bytes of `s` in UTF-8 (what `str::len` gives).
pub open spec fn utf8_len(s: Seq<char>) -> nat
    decreases s.len(),
{
    if s.len() == 0 {
        0
    } else {
        utf8_len(s.drop_last()) + utf8_width(s.last())
    }
}

/// The number of bytes of `c` in UTF-8.
pub fn utf8_width_of(c: char) -> (w: usize)
    ensures
        w == utf8_width(c),
{
    let u = c as u32;
    if u < 0x80 {
        1
    } else if u < 0x800 {
        2
    } else if u < 0x10000 {
        3
    } else {
        4
    }
}

proof fn lemma_utf8_len_monotone(s: Seq<char>, a: int, b: int)
    requires
        0 <= a < b <= s.len(),
    ensures
        utf8_len(s.take(a)) < utf8_len(s.take(b)),
    decreases b - a,
{
    assert(s.take(b).drop_last() =~= s.take(b - 1));
    if a < b - 1 {
        lemma_utf8_len_monotone(s, a, b - 1);
    }
}

/// Whether `a` and `b` hold the same characters.
pub fn chars_equal(a: &[char], b: &[char]) -> (r: bool)
    ensures
        r == (a@ == b@),
{
    if a.len() != b.len() {
        return false;
    }
    let mut i: usize = 0;
    while i < a.len()
        invariant
            a@.len() == b@.len(),
            i <= a@.len(),
            forall|j: int| 0 <= j < i ==> a@[j] == b@[j],
        decreases a@.len() - i,
    {
        if a[i] != b[i] {
            return false;
        }
        i = i + 1;
    }
    assert(a@ =~= b@);
    true
}

/// Whether `a` and `b` are the same string.
pub fn str_equal(a: &str, b: &str) -> (r: bool)
    ensures
        r == (a@ == b@),
{
    let x = chars_of(a);
    let y = chars_of(b);
    chars_equal(x.as_slice(), y.as_slice())
}

/// An owned copy of `s`.
pub fn owned(s: &str) -> (r: String)
    ensures
        r@ == s@,
{
    s.to_owned()
}


/// The lowercase form of `s` (what `str::to_lowercase` gives, by the
/// Unicode lowercase mapping).
pub uninterp spec fn lowercase(s: Seq<char>) -> Seq<char>;

/// Lowercases `s` with `str::to_lowercase`. The contract claims only that
/// the result is `lowercase` of `s`: the Unicode case tables are not stated.
#[verifier::external_body]
pub(crate) fn to_lowercase(s: &str) -> (r: String)
    ensures
        r@ == lowercase(s@),
{
    s.to_lowercase()
}


/// Whether the characters `a` spell `lit`.
pub fn eq_str(a: &[char], lit: &str) -> (r: bool)
    ensures
        r == (a@ == lit@),
{
    let l = chars_of(lit);
    chars_equal(a, l.as_slice())
}

/// Whether `lit` occurs in the characters `a`.
pub fn has_str(a: &[char], lit: &str) -> (r: bool)
    ensures
        r == has_sub(a@, lit@),
{
    let l = chars_of(lit);
    contains_chars(a, l.as_slice())
}


/// A copy of the characters `v`.
pub fn clone_chars(v: &[char]) -> (r: Vec<char>)
    ensures
        r@ == v@,
{
    let r = copy_range(v, 0, v.len());
    assert(v@.subrange(0, v@.len() as int) =~= v@);
    r
}


/// The position of the first occurrence of `t` in `s`.
pub open spec fn first_occurrence(s: Seq<char>, t: Seq<char>) -> int {
    choose|i: int| occurs_at(s, t, i) && forall|j: int| 0 <= j < i ==> !occurs_at(s, t, j)
}

/// The position of the first occurrence of `t` in `s`, if `t` occurs.
pub fn find_chars(s: &[char], t: &[char]) -> (r: Option<usize>)
    ensures
        r matches Some(i) ==> occurs_at(s@, t@, i as int) && forall|j: int|
            0 <= j < i ==> !occurs_at(s@, t@, j),
        r matches Some(i) ==> i == first_occurrence(s@, t@),
        r is None ==> !has_sub(s@, t@),
{
    if t.len() > s.len() {
        assert forall|j: int| !occurs_at(s@, t@, j) by {}
        return None;
    }
    let last = s.len() - t.len();
    let mut i: usize = 0;
    loop
        invariant
            t@.len() <= s@.len(),
            last == s@.len() - t@.len(),
            i <= last,
            forall|j: int| 0 <= j < i ==> !occurs_at(s@, t@, j),
        decreases last - i,
    {
        if occurs_at_exec(s, t, i) {
            proof {
                let w = choose|w: int| occurs_at(s@, t@, w) && forall|j: int| 0 <= j < w ==> !occurs_at(s@, t@, j);
                assert(occurs_at(s@, t@, i as int) && forall|j: int| 0 <= j < i ==> !occurs_at(s@, t@, j));
                if w < i {
                } else if w > i {
                    assert(!occurs_at(s@, t@, i as int));
                }
            }
            return Some(i);
        }
        if i == last {
            assert forall|j: int| !occurs_at(s@, t@, j) by {
                if 0 <= j <= i {
                }
            }
            return None;
        }
        i = i + 1;
    }
}

/// The number of words of `s` (what `split_whitespace().count()` gives).
pub fn word_count(s: &str) -> (n: usize)
    ensures
        n == words(s@).len(),
{
    let cs = chars_of(s);
    let ws = split_words(cs.as_slice());
    ws.len()
}

/// The first `n` characters of `s` (all of them when it is shorter).
pub open spec fn take_chars(s: Seq<char>, n: nat) -> Seq<char> {
    if s.len() > n {
        s.take(n as int)
    } else {
        s
    }
}

/// The first `n` characters of `s`.
pub fn first_chars(s: &str, n: usize) -> (r: String)
    ensures
        r@ == take_chars(s@, n as nat),
{
    let cs = chars_of(s);
    if cs.len() > n {
        let t = copy_range(cs.as_slice(), 0, n);
        assert(cs@.subrange(0, n as int) =~= s@.take(n as int));
        string_of(t.as_slice())
    } else {
        owned(s)
    }
}


/// Whether the first `k` characters of `s` take at most `n` bytes in UTF-8.
pub open spec fn fits_in(s: Seq<char>, n: nat, k: int) -> bool {
    0 <= k <= s.len() && utf8_len(s.take(k)) <= n
}

/// The longest prefix of `s` that takes at most `n` bytes in UTF-8: `s`
/// cut at the last character boundary at or before byte `n`.
pub open spec fn floor_prefix(s: Seq<char>, n: nat) -> Seq<char> {
    s.take(choose|k: int| fits_in(s, n, k) && forall|j: int| fits_in(s, n, j) ==> j <= k)
}

/// `s` cut at the last character boundary at or before byte `n`.
pub fn floor_prefix_of(s: &[char], n: usize) -> (r: Vec<char>)
    ensures
        r@ == floor_prefix(s@, n as nat),
{
    let mut i: usize = 0;
    let mut bytes: usize = 0;
    proof {
        assert(s@.take(0) =~= Seq::<char>::empty());
    }
    while i < s.len() && utf8_width_of(s[i]) <= n - bytes
        invariant
            i <= s@.len(),
            bytes <= n,
            bytes == utf8_len(s@.take(i as int)),
        decreases s@.len() - i,
    {
        proof {
            assert(s@.take(i + 1).drop_last() =~= s@.take(i as int));
        }
        bytes = bytes + utf8_width_of(s[i]);
        i = i + 1;
    }
    proof {
        assert(fits_in(s@, n as nat, i as int));
        assert forall|j: int| fits_in(s@, n as nat, j) implies j <= i by {
            if j > i {
                assert(s@.take(i + 1).drop_last() =~= s@.take(i as int));
                if j > i + 1 {
                    lemma_utf8_len_monotone(s@, i + 1, j);
                }
            }
        }
        let k = choose|k: int| fits_in(s@, n as nat, k) && forall|j: int| fits_in(s@, n as nat, j) ==> j <= k;
        assert(k == i);
    }
    copy_range(s, 0, i)
}

/// Where `s` ends at byte `n` or earlier, the cut keeps all of `s`; where
/// byte `n` is a character boundary of `s`, the cut is exactly the first
/// `n` bytes of `s`.
pub proof fn lemma_floor_prefix_exact(s: Seq<char>, n: nat, k: int)
    requires
        0 <= k <= s.len(),
        utf8_len(s.take(k)) == n || (k == s.len() && utf8_len(s) <= n),
    ensures
        floor_prefix(s, n) == s.take(k),
{
    assert(s.take(s.len() as int) =~= s);
    assert(fits_in(s, n, k));
    assert forall|j: int| fits_in(s, n, j) implies j <= k by {
        if j > k {
            lemma_utf8_len_monotone(s, k, j);
        }
    }
    let m = choose|m: int| fits_in(s, n, m) && forall|j: int| fits_in(s, n, j) ==> j <= m;
    assert(m == k);
}

proof fn lemma_trim_start_shape(s: Seq<char>) -> (a: int)
    ensures
        0 <= a <= s.len(),
        trim_start(s) == s.subrange(a, s.len() as int),
        forall|j: int| 0 <= j < a ==> is_white(#[trigger] s[j]),
        a < s.len() ==> !is_white(s[a]),
    decreases s.len(),
{
    if s.len() > 0 && is_white(s[0]) {
        let d = s.drop_first();
        let a0 = lemma_trim_start_shape(d);
        assert(d.subrange(a0, d.len() as int) =~= s.subrange(a0 + 1, s.len() as int));
        assert forall|j: int| 0 <= j < a0 + 1 implies is_white(#[trigger] s[j]) by {
            if j > 0 {
                assert(s[j] == d[j - 1]);
            }
        }
        a0 + 1
    } else {
        assert(s.subrange(0, s.len() as int) =~= s);
        0
    }
}

proof fn lemma_trim_end_shape(s: Seq<char>) -> (b: int)
    ensures
        0 <= b <= s.len(),
        trim_end(s) == s.subrange(0, b),
        forall|j: int| b <= j < s.len() ==> is_white(#[trigger] s[j]),
        b > 0 ==> !is_white(s[b - 1]),
    decreases s.len(),
{
    if s.len() > 0 && is_white(s.last()) {
        let d = s.drop_last();
        let b0 = lemma_trim_end_shape(d);
        assert(d.subrange(0, b0) =~= s.subrange(0, b0));
        assert forall|j: int| b0 <= j < s.len() implies is_white(#[trigger] s[j]) by {
            if j < s.len() - 1 {
                assert(s[j] == d[j]);
            }
        }
        b0
    } else {
        assert(s.subrange(0, s.len() as int) =~= s);
        s.len() as int
    }
}

/// Trimming removes exactly the leading and trailing whitespace: what is
/// left is a contiguous part of `s`, everything before and after it is
/// whitespace, and it neither starts nor ends with whitespace.
pub proof fn lemma_trim_strips(s: Seq<char>)
    ensures
        exists|a: int, b: int| {
            &&& 0 <= a <= b <= s.len()
            &&& trim(s) == s.subrange(a, b)
            &&& forall|j: int| 0 <= j < a ==> is_white(#[trigger] s[j])
            &&& forall|j: int| b <= j < s.len() ==> is_white(#[trigger] s[j])
            &&& a < b ==> !is_white(s[a]) && !is_white(s[b - 1])
        },
{
    let a = lemma_trim_start_shape(s);
    let t = trim_start(s);
    let b0 = lemma_trim_end_shape(t);
    let b = a + b0;
    assert(t.subrange(0, b0) =~= s.subrange(a, b));
    assert forall|j: int| b <= j < s.len() implies is_white(#[trigger] s[j]) by {
        assert(s[j] == t[j - a]);
    }
    if a < b {
        assert(t[0] == s[a]);
        assert(t[b0 - 1] == s[b - 1]);
    }
    assert(trim(s) == s.subrange(a, b));
}

proof fn lemma_words_shape(s: Seq<char>)
    ensures
        forall|i: int| 0 <= i < words(s).len() ==> (#[trigger] words(s)[i]).len() > 0
            && forall|j: int| 0 <= j < words(s)[i].len() ==> !is_white(#[trigger] words(s)[i][j]),
    decreases s.len(),
{
    if s.len() > 0 {
        if is_white(s[0]) {
            lemma_words_shape(s.drop_first());
            assert(words(s) == words(s.drop_first()));
        } else {
            let k = run_len(s);
            lemma_run_len_bound(s);
            assert(run_len(s) == 1 + run_len(s.drop_first()));
            if 0 < k <= s.len() {
                let rest = s.subrange(k as int, s.len() as int);
                lemma_words_shape(rest);
                let w = s.subrange(0, k as int);
                assert(words(s) == seq![w] + words(rest));
                assert forall|i: int| 0 <= i < words(s).len() implies (#[trigger] words(s)[i]).len() > 0
                    && forall|j: int| 0 <= j < words(s)[i].len() ==> !is_white(#[trigger] words(s)[i][j]) by {
                    if i == 0 {
                        assert(words(s)[0] == w);
                        assert forall|j: int| 0 <= j < w.len() implies !is_white(#[trigger] w[j]) by {
                            assert(w[j] == s[j]);
                        }
                    } else {
                        assert(words(s)[i] == words(rest)[i - 1]);
                    }
                }
            }
        }
    }
}

/// The words of a text are non-empty and hold no whitespace, and a text
/// without whitespace that is not empty is a single word.
pub proof fn lemma_words_are_runs(s: Seq<char>)
    ensures
        forall|i: int| 0 <= i < words(s).len() ==> (#[trigger] words(s)[i]).len() > 0
            && forall|j: int| 0 <= j < words(s)[i].len() ==> !is_white(#[trigger] words(s)[i][j]),
        s.len() > 0 && (forall|j: int| 0 <= j < s.len() ==> !is_white(#[trigger] s[j])) ==> words(s) == seq![s],
{
    lemma_words_shape(s);
    if s.len() > 0 && (forall|j: int| 0 <= j < s.len() ==> !is_white(#[trigger] s[j])) {
        lemma_run_len_exact(s, s.len() as int);
        assert(s.subrange(0, s.len() as int) =~= s);
        assert(s.subrange(s.len() as int, s.len() as int) =~= Seq::<char>::empty());
        assert(words(Seq::<char>::empty()) =~= Seq::<Seq<char>>::empty());
        assert(seq![s] + Seq::<Seq<char>>::empty() =~= seq![s]);
    }
}

proof fn lemma_longest_fit(s: Seq<char>, n: nat) -> (k: int)
    ensures
        fits_in(s, n, k),
        forall|j: int| fits_in(s, n, j) ==> j <= k,
    decreases s.len(),
{
    if s.len() == 0 {
        assert(s.take(0) =~= Seq::<char>::empty());
        0
    } else {
        let d = s.drop_last();
        let k0 = lemma_longest_fit(d, n);
        assert(s.take(k0) =~= d.take(k0));
        assert forall|j: int| 0 <= j < s.len() implies #[trigger] s.take(j) == d.take(j) by {
            assert(s.take(j) =~= d.take(j));
        }
        if k0 == d.len() && utf8_len(s) <= n {
            assert(s.take(s.len() as int) =~= s);
            s.len() as int
        } else {
            assert forall|j: int| fits_in(s, n, j) implies j <= k0 by {
                if j == s.len() {
                    assert(s.take(j) =~= s);
                    if k0 < d.len() {
                        assert(fits_in(d, n, k0 + 1) == false);
                        assert(s.take(k0 + 1) == d.take(k0 + 1));
                        lemma_utf8_len_monotone(s, k0 + 1, j);
                    } else {
                        assert(d.take(d.len() as int) =~= d);
                    }
                } else {
                    assert(s.take(j) == d.take(j));
                    assert(fits_in(d, n, j));
                }
            }
            k0
        }
    }
}

/// Cutting `s` at byte `n` keeps the longest start of `s` that takes at
/// most `n` bytes: it is a prefix of `s`, it fits in `n` bytes, and taking
/// one more character would not.
pub proof fn lemma_floor_prefix_longest(s: Seq<char>, n: nat)
    ensures
        exists|k: int| {
            &&& 0 <= k <= s.len()
            &&& floor_prefix(s, n) == #[trigger] s.take(k)
            &&& utf8_len(s.take(k)) <= n
            &&& k < s.len() ==> utf8_len(s.take(k + 1)) > n
        },
{
    let k = lemma_longest_fit(s, n);
    let m = choose|m: int| fits_in(s, n, m) && forall|j: int| fits_in(s, n, j) ==> j <= m;
    assert(m == k);
    if k < s.len() {
        assert(!fits_in(s, n, k + 1));
    }
}

proof fn lemma_first_occurrence_from(s: Seq<char>, t: Seq<char>, lo: int) -> (i: int)
    requires
        0 <= lo,
        forall|j: int| 0 <= j < lo ==> !occurs_at(s, t, j),
        exists|i: int| lo <= i && occurs_at(s, t, i),
    ensures
        occurs_at(s, t, i) && forall|j: int| 0 <= j < i ==> !occurs_at(s, t, j),
    decreases s.len() - lo,
{
    if occurs_at(s, t, lo) {
        lo
    } else {
        let w = choose|i: int| lo <= i && occurs_at(s, t, i);
        assert(lo + 1 <= w);
        lemma_first_occurrence_from(s, t, lo + 1)
    }
}

/// Where a non-empty `t` occurs in `s`, `first_occurrence` is where it
/// first occurs: it occurs there and nowhere before, so the part of `s`
/// before it does not contain `t`.
pub proof fn lemma_first_occurrence(s: Seq<char>, t: Seq<char>)
    requires
        has_sub(s, t),
        t.len() > 0,
    ensures
        occurs_at(s, t, first_occurrence(s, t)),
        forall|j: int| 0 <= j < first_occurrence(s, t) ==> !occurs_at(s, t, j),
        !has_sub(s.take(first_occurrence(s, t)), t),
{
    let w = choose|i: int| occurs_at(s, t, i);
    let f0 = lemma_first_occurrence_from(s, t, 0);
    let f = first_occurrence(s, t);
    assert(occurs_at(s, t, f) && forall|j: int| 0 <= j < f ==> !occurs_at(s, t, j));
    let p = s.take(f);
    if has_sub(p, t) {
        let i = choose|i: int| occurs_at(p, t, i);
        assert(p.len() == f);
        assert(i < f);
        assert(p.subrange(i, i + t.len()) =~= s.subrange(i, i + t.len()));
        assert(occurs_at(s, t, i));
    }
}

} // verus!
