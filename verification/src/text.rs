//! Character-level text helpers with mathematical specifications.
//!
//! Strings are reasoned about through their views, `Seq<char>`. The
//! whitespace notion is Unicode `White_Space`, the one that `str::trim`
//! and `char::is_whitespace` use.

use vstd::prelude::*;

verus! {

/// Unicode `White_Space`.
pub open spec fn is_ws(c: char) -> bool {
    let n = c as u32;
    ||| 0x09 <= n <= 0x0D
    ||| n == 0x20
    ||| n == 0x85
    ||| n == 0xA0
    ||| n == 0x1680
    ||| 0x2000 <= n <= 0x200A
    ||| n == 0x2028
    ||| n == 0x2029
    ||| n == 0x202F
    ||| n == 0x205F
    ||| n == 0x3000
}

/// `s` without its leading whitespace.
pub open spec fn trim_start(s: Seq<char>) -> Seq<char>
    decreases s.len(),
{
    if s.len() > 0 && is_ws(s[0]) {
        trim_start(s.drop_first())
    } else {
        s
    }
}

/// `s` without its trailing whitespace.
pub open spec fn trim_end(s: Seq<char>) -> Seq<char>
    decreases s.len(),
{
    if s.len() > 0 && is_ws(s.last()) {
        trim_end(s.drop_last())
    } else {
        s
    }
}

/// `s` without leading and trailing whitespace.
pub open spec fn trim(s: Seq<char>) -> Seq<char> {
    trim_end(trim_start(s))
}

/// A string is blank when it holds nothing but whitespace.
pub open spec fn is_blank(s: Seq<char>) -> bool {
    forall|i: int| 0 <= i < s.len() ==> is_ws(#[trigger] s[i])
}

/// ASCII lower-casing of one character; other characters stay.
pub open spec fn lower_char(c: char) -> char {
    if 'A' <= c && c <= 'Z' {
        ((c as u32) + 32) as char
    } else {
        c
    }
}

/// ASCII lower-casing of a string.
pub open spec fn lower(s: Seq<char>) -> Seq<char> {
    s.map_values(|c: char| lower_char(c))
}

/// Equality up to ASCII case.
pub open spec fn eq_ignore_case(a: Seq<char>, b: Seq<char>) -> bool {
    lower(a) == lower(b)
}

/// `p` is a prefix of `s`.
pub open spec fn has_prefix(s: Seq<char>, p: Seq<char>) -> bool {
    p.len() <= s.len() && s.subrange(0, p.len() as int) == p
}

/// `p` is a suffix of `s`.
pub open spec fn has_suffix(s: Seq<char>, p: Seq<char>) -> bool {
    p.len() <= s.len() && s.subrange(s.len() - p.len(), s.len() as int) == p
}

/// `p` occurs in `s` starting at index `i`.
pub open spec fn occurs_at(s: Seq<char>, p: Seq<char>, i: int) -> bool {
    0 <= i && i + p.len() <= s.len() && s.subrange(i, i + p.len()) == p
}

/// `p` occurs somewhere in `s`.
pub open spec fn contains(s: Seq<char>, p: Seq<char>) -> bool {
    exists|i: int| occurs_at(s, p, i)
}

/// `c` occurs in `s`.
pub open spec fn has_char(s: Seq<char>, c: char) -> bool {
    exists|i: int| 0 <= i < s.len() && s[i] == c
}

/// The pieces of `s` between occurrences of `sep`, as `str::split` gives them.
pub open spec fn split(s: Seq<char>, sep: char) -> Seq<Seq<char>>
    decreases s.len(),
{
    if s.len() == 0 {
        seq![Seq::<char>::empty()]
    } else {
        let r = split(s.drop_last(), sep);
        if s.last() == sep {
            r.push(Seq::<char>::empty())
        } else {
            r.update(r.len() - 1, r.last().push(s.last()))
        }
    }
}

/// The pieces joined with `sep` between them.
pub open spec fn join(pieces: Seq<Seq<char>>, sep: Seq<char>) -> Seq<char>
    decreases pieces.len(),
{
    if pieces.len() == 0 {
        Seq::<char>::empty()
    } else if pieces.len() == 1 {
        pieces[0]
    } else {
        join(pieces.drop_last(), sep) + sep + pieces.last()
    }
}

/// A string is built from a sequence of characters.
#[verifier::external_body]
fn push_char(s: &mut String, c: char)
    ensures
        final(s)@ == old(s)@.push(c),
{
    s.push(c);
}

/// The characters of `s`, in order.
pub fn chars_of(s: &str) -> (v: Vec<char>)
    ensures
        v@ == s@,
{
    let mut v: Vec<char> = Vec::new();
    for c in it: s.chars()
        invariant
            v@ == it.seq().subrange(0, it.index() as int),
            it.seq() == s@,
    {
        v.push(c);
    }
    v
}

/// The string made of the characters of `v`.
pub fn string_of(v: &Vec<char>) -> (s: String)
    ensures
        s@ == v@,
{
    let mut s = String::new();
    let mut i: usize = 0;
    while i < v.len()
        invariant
            i <= v.len(),
            s@ == v@.subrange(0, i as int),
        decreases v.len() - i,
    {
        push_char(&mut s, v[i]);
        i = i + 1;
    }
    s
}

/// The string made of the characters `v[from..to]`.
pub fn string_of_range(v: &Vec<char>, from: usize, to: usize) -> (s: String)
    requires
        from <= to <= v.len(),
    ensures
        s@ == v@.subrange(from as int, to as int),
{
    let mut s = String::new();
    let mut i: usize = from;
    while i < to
        invariant
            from <= i <= to <= v.len(),
            s@ == v@.subrange(from as int, i as int),
        decreases to - i,
    {
        push_char(&mut s, v[i]);
        i = i + 1;
    }
    s
}

/// `s` followed by `t`.
pub fn concat(s: &str, t: &str) -> (r: String)
    ensures
        r@ == s@ + t@,
{
    let mut r = String::from_str(s);
    r.append(t);
    r
}

/// Whether `c` is Unicode whitespace.
pub fn char_is_ws(c: char) -> (b: bool)
    ensures
        b == is_ws(c),
{
    let n = c as u32;
    (0x09 <= n && n <= 0x0D) || n == 0x20 || n == 0x85 || n == 0xA0 || n == 0x1680 || (0x2000
        <= n && n <= 0x200A) || n == 0x2028 || n == 0x2029 || n == 0x202F || n == 0x205F || n
        == 0x3000
}

proof fn lemma_trim_start_skip(s: Seq<char>, i: int)
    requires
        0 <= i <= s.len(),
        forall|j: int| 0 <= j < i ==> is_ws(#[trigger] s[j]),
    ensures
        trim_start(s) == trim_start(s.subrange(i, s.len() as int)),
    decreases i,
{
    if i > 0 {
        assert(s.drop_first().subrange(i - 1, s.drop_first().len() as int) =~= s.subrange(
            i,
            s.len() as int,
        ));
        lemma_trim_start_skip(s.drop_first(), i - 1);
    } else {
        assert(s.subrange(0, s.len() as int) =~= s);
    }
}

proof fn lemma_trim_end_skip(s: Seq<char>, k: int)
    requires
        0 <= k <= s.len(),
        forall|j: int| k <= j < s.len() ==> is_ws(#[trigger] s[j]),
    ensures
        trim_end(s) == trim_end(s.subrange(0, k)),
    decreases s.len() - k,
{
    if k < s.len() {
        assert(s.drop_last().subrange(0, k) =~= s.subrange(0, k));
        lemma_trim_end_skip(s.drop_last(), k);
    } else {
        assert(s.subrange(0, k) =~= s);
    }
}

/// The bounds `(start, end)` such that `trim(v) == v[start..end]`.
pub fn trim_bounds(v: &Vec<char>) -> (r: (usize, usize))
    ensures
        r.0 <= r.1 <= v.len(),
        trim(v@) == v@.subrange(r.0 as int, r.1 as int),
        trim_start(v@) == v@.subrange(r.0 as int, v.len() as int),
{
    let n = v.len();
    let mut i: usize = 0;
    while i < n && char_is_ws(v[i])
        invariant
            i <= n == v.len(),
            forall|j: int| 0 <= j < i ==> is_ws(#[trigger] v@[j]),
        decreases n - i,
    {
        i = i + 1;
    }
    proof {
        lemma_trim_start_skip(v@, i as int);
        let t = v@.subrange(i as int, n as int);
        assert(t.len() == 0 || !is_ws(t[0]));
    }
    let ghost t = v@.subrange(i as int, n as int);
    let mut k: usize = n;
    while k > i && char_is_ws(v[k - 1])
        invariant
            i <= k <= n == v.len(),
            t == v@.subrange(i as int, n as int),
            forall|j: int| k <= j < n ==> is_ws(#[trigger] v@[j]),
        decreases k,
    {
        k = k - 1;
    }
    proof {
        assert forall|j: int| (k - i) <= j < t.len() implies is_ws(#[trigger] t[j]) by {
            assert(t[j] == v@[j + i]);
        }
        lemma_trim_end_skip(t, k - i);
        let u = t.subrange(0, k - i);
        assert(u =~= v@.subrange(i as int, k as int));
        assert(u.len() == 0 || !is_ws(u.last()));
    }
    (i, k)
}

/// `s` without leading and trailing whitespace (`str::trim`).
pub fn trim_str(s: &str) -> (r: String)
    ensures
        r@ == trim(s@),
{
    let v = chars_of(s);
    let (a, b) = trim_bounds(&v);
    string_of_range(&v, a, b)
}

/// Whether `s` is empty once trimmed.
pub fn is_blank_str(s: &str) -> (b: bool)
    ensures
        b == (trim(s@).len() == 0),
{
    let v = chars_of(s);
    let (a, b) = trim_bounds(&v);
    a == b
}

/// ASCII lower-casing of one character.
pub fn lower_char_exec(c: char) -> (r: char)
    ensures
        r == lower_char(c),
{
    if 'A' <= c && c <= 'Z' {
        let n = (c as u32) + 32;
        let r = if n == 97 { 'a' } else if n == 98 { 'b' } else if n == 99 { 'c' } else if n
            == 100 { 'd' } else if n == 101 { 'e' } else if n == 102 { 'f' } else if n == 103 {
            'g'
        } else if n == 104 { 'h' } else if n == 105 { 'i' } else if n == 106 { 'j' } else if n
            == 107 { 'k' } else if n == 108 { 'l' } else if n == 109 { 'm' } else if n == 110 {
            'n'
        } else if n == 111 { 'o' } else if n == 112 { 'p' } else if n == 113 { 'q' } else if n
            == 114 { 'r' } else if n == 115 { 's' } else if n == 116 { 't' } else if n == 117 {
            'u'
        } else if n == 118 { 'v' } else if n == 119 { 'w' } else if n == 120 { 'x' } else if n
            == 121 { 'y' } else { 'z' };
        r
    } else {
        c
    }
}

/// ASCII lower-casing of the characters of `v`.
pub fn lower_vec(v: &Vec<char>) -> (r: Vec<char>)
    ensures
        r@ == lower(v@),
{
    let mut r: Vec<char> = Vec::new();
    let mut i: usize = 0;
    while i < v.len()
        invariant
            i <= v.len(),
            r@ == lower(v@.subrange(0, i as int)),
        decreases v.len() - i,
    {
        let c = lower_char_exec(v[i]);
        r.push(c);
        i = i + 1;
        assert(lower(v@.subrange(0, i as int)) =~= lower(v@.subrange(0, i - 1)).push(
            lower_char(v@[i - 1]),
        ));
    }
    assert(v@.subrange(0, v.len() as int) =~= v@);
    r
}

/// `str::to_ascii_lowercase`.
pub fn to_lower_str(s: &str) -> (r: String)
    ensures
        r@ == lower(s@),
{
    let v = chars_of(s);
    let l = lower_vec(&v);
    string_of(&l)
}

/// Whether two character sequences are equal.
pub fn vec_eq(a: &Vec<char>, b: &Vec<char>) -> (r: bool)
    ensures
        r == (a@ == b@),
{
    if a.len() != b.len() {
        return false;
    }
    let mut i: usize = 0;
    while i < a.len()
        invariant
            i <= a.len() == b.len(),
            forall|j: int| 0 <= j < i ==> a@[j] == b@[j],
        decreases a.len() - i,
    {
        if a[i] != b[i] {
            return false;
        }
        i = i + 1;
    }
    assert(a@ =~= b@);
    true
}

/// Equality of strings.
pub fn str_eq(a: &str, b: &str) -> (r: bool)
    ensures
        r == (a@ == b@),
{
    let va = chars_of(a);
    let vb = chars_of(b);
    vec_eq(&va, &vb)
}

/// `str::eq_ignore_ascii_case`.
pub fn eq_ignore_case_str(a: &str, b: &str) -> (r: bool)
    ensures
        r == eq_ignore_case(a@, b@),
{
    let va = chars_of(a);
    let vb = chars_of(b);
    let la = lower_vec(&va);
    let lb = lower_vec(&vb);
    vec_eq(&la, &lb)
}

/// Whether `p` occurs in `s` at index `i`.
pub fn occurs_at_vec(s: &Vec<char>, p: &Vec<char>, i: usize) -> (r: bool)
    ensures
        r == occurs_at(s@, p@, i as int),
{
    if p.len() > s.len() || i > s.len() - p.len() {
        return false;
    }
    let mut j: usize = 0;
    while j < p.len()
        invariant
            j <= p.len(),
            i + p.len() <= s.len(),
            forall|k: int| 0 <= k < j ==> s@[i + k] == p@[k],
        decreases p.len() - j,
    {
        if s[i + j] != p[j] {
            assert(s@.subrange(i as int, i + p.len())[j as int] != p@[j as int]);
            return false;
        }
        j = j + 1;
    }
    assert(s@.subrange(i as int, i + p.len()) =~= p@);
    true
}

/// `str::starts_with`.
pub fn starts_with_str(s: &str, p: &str) -> (r: bool)
    ensures
        r == has_prefix(s@, p@),
{
    let vs = chars_of(s);
    let vp = chars_of(p);
    occurs_at_vec(&vs, &vp, 0)
}

/// `str::ends_with`.
pub fn ends_with_str(s: &str, p: &str) -> (r: bool)
    ensures
        r == has_suffix(s@, p@),
{
    let vs = chars_of(s);
    let vp = chars_of(p);
    if vp.len() > vs.len() {
        false
    } else {
        occurs_at_vec(&vs, &vp, vs.len() - vp.len())
    }
}

/// The least index at or after `from` where `p` occurs in `s`, if any.
pub fn find_from(s: &Vec<char>, p: &Vec<char>, from: usize) -> (r: Option<usize>)
    ensures
        match r {
            Some(i) => from <= i && occurs_at(s@, p@, i as int) && forall|j: int|
                from <= j < i ==> !occurs_at(s@, p@, j),
            None => forall|j: int| from <= j ==> !occurs_at(s@, p@, j),
        },
{
    if p.len() > s.len() || from > s.len() - p.len() {
        return None;
    }
    let last = s.len() - p.len();
    let mut i: usize = from;
    loop
        invariant
            from <= i <= last,
            last + p.len() == s.len(),
            forall|j: int| from <= j < i ==> !occurs_at(s@, p@, j),
        decreases last - i,
    {
        if occurs_at_vec(s, p, i) {
            return Some(i);
        }
        if i >= last {
            return None;
        }
        i = i + 1;
    }
}

/// Whether `p` occurs in `s` (`str::contains`).
pub fn contains_str(s: &str, p: &str) -> (r: bool)
    ensures
        r == contains(s@, p@),
{
    let vs = chars_of(s);
    let vp = chars_of(p);
    match find_from(&vs, &vp, 0) {
        Some(_) => true,
        None => {
            assert forall|j: int| !occurs_at(s@, p@, j) by {
                if j < 0 {
                }
            }
            false
        },
    }
}

/// Whether `c` occurs in `v`.
pub fn vec_has_char(v: &Vec<char>, c: char) -> (r: bool)
    ensures
        r == has_char(v@, c),
{
    let mut i: usize = 0;
    while i < v.len()
        invariant
            i <= v.len(),
            forall|j: int| 0 <= j < i ==> v@[j] != c,
        decreases v.len() - i,
    {
        if v[i] == c {
            return true;
        }
        i = i + 1;
    }
    false
}

/// The views of a vector of strings.
pub open spec fn views(v: Seq<String>) -> Seq<Seq<char>> {
    v.map_values(|x: String| x@)
}

/// `str::split` on one separator character.
pub fn split_char(s: &str, sep: char) -> (r: Vec<String>)
    ensures
        views(r@) == split(s@, sep),
{
    let v = chars_of(s);
    let mut pieces: Vec<String> = Vec::new();
    let mut cur: Vec<char> = Vec::new();
    let mut i: usize = 0;
    assert(views(pieces@).push(cur@) =~= split(v@.subrange(0, 0), sep));
    while i < v.len()
        invariant
            i <= v.len(),
            v@ == s@,
            views(pieces@).push(cur@) == split(v@.subrange(0, i as int), sep),
        decreases v.len() - i,
    {
        let ghost before = v@.subrange(0, i as int);
        let ghost old_views = views(pieces@);
        let ghost old_cur = cur@;
        let c = v[i];
        assert(v@.subrange(0, i + 1).drop_last() =~= before);
        assert(v@.subrange(0, i + 1).last() == c);
        if c == sep {
            let piece = string_of(&cur);
            pieces.push(piece);
            cur = Vec::new();
            assert(views(pieces@) =~= old_views.push(old_cur));
            assert(views(pieces@).push(cur@) =~= split(before, sep).push(Seq::<char>::empty()));
        } else {
            cur.push(c);
            let ghost r = split(before, sep);
            assert(views(pieces@).push(cur@) =~= r.update(r.len() - 1, r.last().push(c)));
        }
        i = i + 1;
    }
    assert(v@.subrange(0, v.len() as int) =~= v@);
    let ghost old_views = views(pieces@);
    let last = string_of(&cur);
    pieces.push(last);
    assert(views(pieces@) =~= old_views.push(cur@));
    pieces
}

/// The pieces of `s` separated by runs of whitespace (`str::split_whitespace`).
pub open spec fn words(s: Seq<char>) -> Seq<Seq<char>>
    decreases s.len(),
{
    if s.len() == 0 {
        Seq::<Seq<char>>::empty()
    } else {
        let r = words(s.drop_last());
        if is_ws(s.last()) {
            r
        } else if s.len() >= 2 && !is_ws(s[s.len() - 2]) {
            r.update(r.len() - 1, r.last().push(s.last()))
        } else {
            r.push(seq![s.last()])
        }
    }
}

proof fn lemma_words_nonempty(s: Seq<char>)
    requires
        s.len() > 0,
        !is_ws(s.last()),
    ensures
        words(s).len() > 0,
    decreases s.len(),
{
    if s.len() >= 2 && !is_ws(s[s.len() - 2]) {
        lemma_words_nonempty(s.drop_last());
    }
}

/// `str::split_whitespace`.
pub fn split_ws(s: &str) -> (r: Vec<String>)
    ensures
        views(r@) == words(s@),
{
    let v = chars_of(s);
    let mut pieces: Vec<String> = Vec::new();
    let mut cur: Vec<char> = Vec::new();
    let mut i: usize = 0;
    assert(v@.subrange(0, 0) =~= Seq::<char>::empty());
    while i < v.len()
        invariant
            i <= v.len(),
            v@ == s@,
            cur@.len() == 0 ==> views(pieces@) == words(v@.subrange(0, i as int)),
            cur@.len() > 0 ==> views(pieces@).push(cur@) == words(v@.subrange(0, i as int)),
            cur@.len() > 0 ==> i > 0 && !is_ws(v@[i - 1]),
            cur@.len() == 0 && i > 0 ==> is_ws(v@[i - 1]),
        decreases v.len() - i,
    {
        let ghost before = v@.subrange(0, i as int);
        let ghost old_views = views(pieces@);
        let ghost old_cur = cur@;
        let c = v[i];
        let ghost after = v@.subrange(0, i + 1);
        assert(after.drop_last() =~= before);
        assert(after.last() == c);
        if char_is_ws(c) {
            if cur.len() > 0 {
                let piece = string_of(&cur);
                pieces.push(piece);
                cur = Vec::new();
                assert(views(pieces@) =~= old_views.push(old_cur));
            }
        } else {
            let had = cur.len() > 0;
            cur.push(c);
            if had {
                let ghost r = words(before);
                assert(after[after.len() - 2] == v@[i - 1]);
                assert(views(pieces@).push(cur@) =~= r.update(r.len() - 1, r.last().push(c)));
            } else {
                if i > 0 {
                    assert(after[after.len() - 2] == v@[i - 1]);
                }
                assert(old_cur.len() == 0);
                assert(cur@ =~= seq![c]);
                assert(views(pieces@) == words(before));
                assert(views(pieces@).push(cur@) =~= words(before).push(seq![c]));
            }
        }
        i = i + 1;
    }
    assert(v@.subrange(0, v.len() as int) =~= v@);
    if cur.len() > 0 {
        let ghost old_views = views(pieces@);
        let last = string_of(&cur);
        pieces.push(last);
        assert(views(pieces@) =~= old_views.push(cur@));
    }
    pieces
}

/// `pieces` joined with `sep` between them (`[String]::join`).
pub fn join_strs(pieces: &Vec<String>, sep: &str) -> (r: String)
    ensures
        r@ == join(views(pieces@), sep@),
{
    let mut r = String::new();
    let mut i: usize = 0;
    while i < pieces.len()
        invariant
            i <= pieces.len(),
            r@ == join(views(pieces@.subrange(0, i as int)), sep@),
        decreases pieces.len() - i,
    {
        let ghost prev = views(pieces@.subrange(0, i as int));
        let ghost next = views(pieces@.subrange(0, i + 1));
        assert(next.drop_last() =~= prev);
        if i > 0 {
            r.append(sep);
        }
        r.append(pieces[i].as_str());
        i = i + 1;
        if i == 1 {
            assert(r@ =~= next[0]);
        }
    }
    assert(pieces@.subrange(0, pieces.len() as int) =~= pieces@);
    r
}

/// `s` with every leftmost non-overlapping occurrence of `p` replaced by `r`
/// (`str::replace` with a non-empty pattern).
pub open spec fn replace_all(s: Seq<char>, p: Seq<char>, r: Seq<char>) -> Seq<char>
    decreases s.len(),
{
    if s.len() == 0 || p.len() == 0 {
        s
    } else if has_prefix(s, p) {
        r + replace_all(s.skip(p.len() as int), p, r)
    } else {
        seq![s[0]] + replace_all(s.drop_first(), p, r)
    }
}

/// `str::replace` with a non-empty pattern.
pub fn replace_str(s: &str, p: &str, r: &str) -> (out: String)
    requires
        p@.len() > 0,
    ensures
        out@ == replace_all(s@, p@, r@),
{
    let v = chars_of(s);
    let pv = chars_of(p);
    let mut out = String::new();
    let mut i: usize = 0;
    assert(v@.skip(0) =~= v@);
    while i < v.len()
        invariant
            i <= v.len(),
            v@ == s@,
            pv@ == p@,
            pv@.len() > 0,
            out@ + replace_all(v@.skip(i as int), p@, r@) == replace_all(s@, p@, r@),
        decreases v.len() - i,
    {
        let ghost rest = v@.skip(i as int);
        if occurs_at_vec(&v, &pv, i) {
            assert(rest.subrange(0, pv@.len() as int) =~= v@.subrange(i as int, i + pv@.len()));
            assert(rest.skip(pv@.len() as int) =~= v@.skip(i + pv@.len()));
            assert(out@ + r@ + replace_all(v@.skip(i + pv@.len()), p@, r@) =~= out@ + (r@
                + replace_all(rest.skip(pv@.len() as int), p@, r@)));
            out.append(r);
            i = i + pv.len();
        } else {
            assert(!has_prefix(rest, p@)) by {
                if has_prefix(rest, p@) {
                    assert(rest.subrange(0, pv@.len() as int) =~= v@.subrange(
                        i as int,
                        i + pv@.len(),
                    ));
                }
            }
            assert(rest.drop_first() =~= v@.skip(i + 1));
            assert(out@.push(v@[i as int]) + replace_all(v@.skip(i + 1), p@, r@) =~= out@ + (seq![
                rest[0]] + replace_all(rest.drop_first(), p@, r@)));
            push_char(&mut out, v[i]);
            i = i + 1;
        }
    }
    assert(v@.skip(i as int).len() == 0);
    assert(out@ + replace_all(v@.skip(i as int), p@, r@) =~= out@);
    out
}

/// `l` without one trailing carriage return.
pub open spec fn strip_cr(l: Seq<char>) -> Seq<char> {
    if l.len() > 0 && l.last() == '\r' {
        l.drop_last()
    } else {
        l
    }
}

/// The lines of `s`, as `str::lines` gives them.
pub open spec fn lines(s: Seq<char>) -> Seq<Seq<char>> {
    let parts = split(s, '\n');
    let kept = if parts.last().len() == 0 {
        parts.drop_last()
    } else {
        parts
    };
    kept.map_values(|l: Seq<char>| strip_cr(l))
}

proof fn lemma_split_nonempty(s: Seq<char>, sep: char)
    ensures
        split(s, sep).len() > 0,
    decreases s.len(),
{
    if s.len() > 0 {
        lemma_split_nonempty(s.drop_last(), sep);
    }
}

/// `l` without one trailing carriage return.
pub fn strip_cr_str(l: &String) -> (r: String)
    ensures
        r@ == strip_cr(l@),
{
    let v = chars_of(l.as_str());
    if v.len() > 0 && v[v.len() - 1] == '\r' {
        string_of_range(&v, 0, v.len() - 1)
    } else {
        string_of(&v)
    }
}

/// `str::lines`.
pub fn lines_str(s: &str) -> (r: Vec<String>)
    ensures
        views(r@) == lines(s@),
{
    let parts = split_char(s, '\n');
    proof {
        lemma_split_nonempty(s@, '\n');
    }
    let ghost pv = views(parts@);
    let ghost kept = if pv.last().len() == 0 {
        pv.drop_last()
    } else {
        pv
    };
    let n = if parts[parts.len() - 1].as_str().is_empty() {
        parts.len() - 1
    } else {
        parts.len()
    };
    assert(kept.len() == n);
    let mut r: Vec<String> = Vec::new();
    let mut i: usize = 0;
    while i < n
        invariant
            i <= n <= parts.len(),
            kept.len() == n,
            pv == views(parts@),
            forall|k: int| 0 <= k < n ==> kept[k] == pv[k],
            views(r@) == kept.subrange(0, i as int).map_values(|l: Seq<char>| strip_cr(l)),
        decreases n - i,
    {
        let ghost old_r = views(r@);
        let line = strip_cr_str(&parts[i]);
        r.push(line);
        assert(views(r@) =~= old_r.push(line@));
        i = i + 1;
        assert(kept.subrange(0, i as int).map_values(|l: Seq<char>| strip_cr(l)) =~= kept.subrange(
            0,
            i - 1,
        ).map_values(|l: Seq<char>| strip_cr(l)).push(strip_cr(kept[i - 1])));
    }
    assert(kept.subrange(0, n as int) =~= kept);
    r
}

/// The view of an optional string.
pub open spec fn opt_view(o: Option<String>) -> Option<Seq<char>> {
    match o {
        Some(s) => Some(s@),
        None => None,
    }
}

/// A copy of an optional string.
pub fn clone_opt(o: &Option<String>) -> (r: Option<String>)
    ensures
        opt_view(r) == opt_view(*o),
{
    match o {
        Some(s) => Some(s.clone()),
        None => None,
    }
}

/// Whether the characters of `v` spell `lit`.
pub fn vec_is(v: &Vec<char>, lit: &str) -> (r: bool)
    ensures
        r == (v@ == lit@),
{
    let l = chars_of(lit);
    vec_eq(v, &l)
}

/// The ASCII-lower-cased, trimmed characters of `s`.
pub fn normalized_key(s: &str) -> (r: Vec<char>)
    ensures
        r@ == lower(trim(s@)),
{
    let t = trim_str(s);
    let v = chars_of(t.as_str());
    lower_vec(&v)
}

/// The non-blank value of an optional string, trimmed-or-not as given.
pub open spec fn non_blank(o: Option<Seq<char>>) -> Option<Seq<char>> {
    match o {
        Some(s) => if trim(s).len() > 0 {
            Some(s)
        } else {
            None
        },
        None => None,
    }
}

/// A copy of `o` when it holds a non-blank string.
pub fn non_blank_exec(o: &Option<String>) -> (r: Option<String>)
    ensures
        opt_view(r) == non_blank(opt_view(*o)),
{
    match o {
        Some(s) => if is_blank_str(s.as_str()) {
            None
        } else {
            Some(s.clone())
        },
        None => None,
    }
}

/// A non-empty text without whitespace or ASCII capitals is its own
/// normalised key: trimming and lower-casing leave it unchanged.
pub proof fn lemma_plain_key(s: Seq<char>)
    requires
        forall|i: int| 0 <= i < s.len() ==> !is_ws(#[trigger] s[i]) && !('A' <= s[i] && s[i] <= 'Z'),
    ensures
        lower(trim(s)) == s,
{
    assert(trim_start(s) == s);
    assert(trim_end(s) == s);
    assert(lower(s) =~= s);
}

/// Leading blanks are trimmed away up to a text that starts with a
/// non-blank character.
pub proof fn lemma_trim_start_after_blank(left: Seq<char>, x: Seq<char>)
    requires
        is_blank(left),
        x.len() > 0,
        !is_ws(x[0]),
    ensures
        trim_start(left + x) == x,
    decreases left.len(),
{
    if left.len() == 0 {
        assert(left + x =~= x);
    } else {
        assert((left + x).drop_first() =~= left.drop_first() + x);
        assert((left + x)[0] == left[0]);
        lemma_trim_start_after_blank(left.drop_first(), x);
    }
}

/// Trailing blanks are trimmed away down to a text that ends with a
/// non-blank character.
pub proof fn lemma_trim_end_before_blank(x: Seq<char>, right: Seq<char>)
    requires
        is_blank(right),
        x.len() > 0,
        !is_ws(x.last()),
    ensures
        trim_end(x + right) == x,
    decreases right.len(),
{
    if right.len() == 0 {
        assert(x + right =~= x);
    } else {
        assert((x + right).drop_last() =~= x + right.drop_last());
        assert((x + right).last() == right.last());
        lemma_trim_end_before_blank(x, right.drop_last());
    }
}

/// A text padded with blanks on both sides trims back to itself when it
/// neither starts nor ends with a blank.
pub proof fn lemma_trim_padded(left: Seq<char>, x: Seq<char>, right: Seq<char>)
    requires
        is_blank(left),
        is_blank(right),
        x.len() > 0,
        !is_ws(x[0]),
        !is_ws(x.last()),
    ensures
        trim(left + x + right) == x,
{
    assert(left + x + right =~= left + (x + right));
    assert((x + right)[0] == x[0]);
    lemma_trim_start_after_blank(left, x + right);
    lemma_trim_end_before_blank(x, right);
}

/// Strings in lexicographic order of their characters' code points; for
/// UTF-8 text this is the order of `String`'s `Ord`, which compares bytes.
pub open spec fn str_less(a: Seq<char>, b: Seq<char>) -> bool
    decreases a.len(),
{
    if a.len() == 0 {
        b.len() > 0
    } else if b.len() == 0 {
        false
    } else if a[0] != b[0] {
        a[0] < b[0]
    } else {
        str_less(a.drop_first(), b.drop_first())
    }
}

/// `str_less` is transitive.
pub proof fn lemma_str_less_transitive(a: Seq<char>, b: Seq<char>, c: Seq<char>)
    requires
        str_less(a, b),
        str_less(b, c),
    ensures
        str_less(a, c),
    decreases a.len(),
{
    if a.len() > 0 && b.len() > 0 && c.len() > 0 && a[0] == b[0] && b[0] == c[0] {
        lemma_str_less_transitive(a.drop_first(), b.drop_first(), c.drop_first());
    }
}

/// Of two strings, one comes before the other unless they are equal; and
/// no string comes before itself.
pub proof fn lemma_str_less_total(a: Seq<char>, b: Seq<char>)
    ensures
        a == b || str_less(a, b) || str_less(b, a),
        !(str_less(a, b) && str_less(b, a)),
        !str_less(a, a),
    decreases a.len(),
{
    if a.len() > 0 && b.len() > 0 && a[0] == b[0] {
        lemma_str_less_total(a.drop_first(), b.drop_first());
        if a.drop_first() == b.drop_first() {
            assert(a =~= seq![a[0]] + a.drop_first());
            assert(b =~= seq![b[0]] + b.drop_first());
        }
    } else if a.len() == 0 && b.len() == 0 {
        assert(a =~= b);
    }
    if a.len() > 0 {
        lemma_str_less_total(a.drop_first(), a.drop_first());
    }
}

proof fn lemma_str_less_skip(a: Seq<char>, b: Seq<char>, i: int)
    requires
        0 <= i <= a.len(),
        i <= b.len(),
        a.subrange(0, i) == b.subrange(0, i),
    ensures
        str_less(a, b) == str_less(a.subrange(i, a.len() as int), b.subrange(i, b.len() as int)),
    decreases i,
{
    if i > 0 {
        assert(a[0] == a.subrange(0, i)[0]);
        assert(b[0] == b.subrange(0, i)[0]);
        assert(a.drop_first().subrange(0, i - 1) =~= a.subrange(1, i));
        assert(b.drop_first().subrange(0, i - 1) =~= b.subrange(1, i));
        assert(a.subrange(1, i) =~= a.subrange(0, i).drop_first());
        assert(b.subrange(1, i) =~= b.subrange(0, i).drop_first());
        lemma_str_less_skip(a.drop_first(), b.drop_first(), i - 1);
        assert(a.drop_first().subrange(i - 1, a.drop_first().len() as int) =~= a.subrange(i, a.len() as int));
        assert(b.drop_first().subrange(i - 1, b.drop_first().len() as int) =~= b.subrange(i, b.len() as int));
    } else {
        assert(a.subrange(0, a.len() as int) =~= a);
        assert(b.subrange(0, b.len() as int) =~= b);
    }
}

/// Whether `a` comes before `b` in `String` order.
pub fn str_less_exec(a: &str, b: &str) -> (r: bool)
    ensures
        r == str_less(a@, b@),
{
    let va = chars_of(a);
    let vb = chars_of(b);
    let mut i: usize = 0;
    while i < va.len() && i < vb.len() && va[i] == vb[i]
        invariant
            i <= va.len(),
            i <= vb.len(),
            va@.subrange(0, i as int) == vb@.subrange(0, i as int),
        decreases va.len() - i,
    {
        assert(va@.subrange(0, i + 1) =~= va@.subrange(0, i as int).push(va@[i as int]));
        assert(vb@.subrange(0, i + 1) =~= vb@.subrange(0, i as int).push(vb@[i as int]));
        i = i + 1;
    }
    proof {
        lemma_str_less_skip(va@, vb@, i as int);
    }
    let ghost ra = va@.subrange(i as int, va@.len() as int);
    let ghost rb = vb@.subrange(i as int, vb@.len() as int);
    if i == va.len() {
        assert(ra.len() == 0);
        i < vb.len()
    } else if i == vb.len() {
        assert(rb.len() == 0 && ra.len() > 0);
        false
    } else {
        assert(ra[0] == va@[i as int] && rb[0] == vb@[i as int]);
        va[i] < vb[i]
    }
}

} // verus!
