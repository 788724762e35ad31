//! Character-level helpers over strings.
use vstd::prelude::*;

verus! {

/// Relies on `str::chars`: the characters of `s`, in order.
#[verifier::external_body]
pub(crate) fn chars_of(s: &str) -> (r: Vec<char>)
    ensures
        r@ == s@,
{
    s.chars().collect()
}

/// Relies on `String: FromIterator<char>`: the string of these characters.
#[verifier::external_body]
pub(crate) fn string_of(v: &[char]) -> (r: String)
    ensures
        r@ == v@,
{
    v.iter().collect()
}

/// Appends the characters of `t` to `v`.
pub fn push_all(v: &mut Vec<char>, t: &[char])
    ensures
        final(v)@ == old(v)@ + t@,
{
    let mut i: usize = 0;
    while i < t.len()
        invariant
            i <= t@.len(),
            v@ == old(v)@ + t@.subrange(0, i as int),
        decreases t@.len() - i,
    {
        v.push(t[i]);
        i = i + 1;
        assert(t@.subrange(0, i as int) =~= t@.subrange(0, i - 1) + seq![t@[i - 1]]);
        assert(v@ =~= old(v)@ + t@.subrange(0, i as int));
    }
    assert(t@.subrange(0, t@.len() as int) =~= t@);
}

/// Appends the characters of `s` to `v`.
pub fn push_str(v: &mut Vec<char>, s: &str)
    ensures
        final(v)@ == old(v)@ + s@,
{
    let c = chars_of(s);
    push_all(v, c.as_slice());
}

/// Whether the two character sequences are equal.
pub fn chars_eq(a: &[char], b: &[char]) -> (r: bool)
    ensures
        r == (a@ == b@),
{
    if a.len() != b.len() {
        return false;
    }
    let mut i: usize = 0;
    while i < a.len()
        invariant
            i <= a@.len(),
            a@.len() == b@.len(),
            forall|k: int| 0 <= k < i ==> a@[k] == b@[k],
        decreases a@.len() - i,
    {
        if a[i] != b[i] {
            return false;
        }
        i = i + 1;
    }
    assert(a@ =~= b@);
    true
}

/// Whether `a` begins with `p`.
pub fn starts_with(a: &[char], p: &[char]) -> (r: bool)
    ensures
        r == (p@.len() <= a@.len() && a@.subrange(0, p@.len() as int) == p@),
{
    if p.len() > a.len() {
        return false;
    }
    let mut i: usize = 0;
    while i < p.len()
        invariant
            i <= p@.len() <= a@.len(),
            forall|k: int| 0 <= k < i ==> a@[k] == p@[k],
        decreases p@.len() - i,
    {
        if a[i] != p[i] {
            assert(a@.subrange(0, p@.len() as int)[i as int] != p@[i as int]);
            return false;
        }
        i = i + 1;
    }
    assert(a@.subrange(0, p@.len() as int) =~= p@);
    true
}

/// Whether `a` ends with `p`.
pub fn ends_with(a: &[char], p: &[char]) -> (r: bool)
    ensures
        r == (p@.len() <= a@.len() && a@.subrange(a@.len() - p@.len(), a@.len() as int) == p@),
{
    if p.len() > a.len() {
        return false;
    }
    let n: usize = a.len();
    let off: usize = n - p.len();
    let mut i: usize = 0;
    while i < p.len()
        invariant
            i <= p@.len() <= a@.len(),
            off == a@.len() - p@.len(),
            off + p@.len() == n,
            n == a@.len(),
            forall|k: int| 0 <= k < i ==> a@[off + k] == p@[k],
        decreases p@.len() - i,
    {
        if a[off + i] != p[i] {
            assert(a@.subrange(off as int, a@.len() as int)[i as int] != p@[i as int]);
            return false;
        }
        i = i + 1;
    }
    assert(a@.subrange(off as int, a@.len() as int) =~= p@);
    true
}

/// The characters `a[from..to]`.
pub fn slice_chars(a: &[char], from: usize, to: usize) -> (r: Vec<char>)
    requires
        from <= to <= a@.len(),
    ensures
        r@ == a@.subrange(from as int, to as int),
{
    let mut r: Vec<char> = Vec::new();
    let mut i: usize = from;
    while i < to
        invariant
            from <= i <= to <= a@.len(),
            r@ == a@.subrange(from as int, i as int),
        decreases to - i,
    {
        r.push(a[i]);
        i = i + 1;
        assert(r@ =~= a@.subrange(from as int, i as int));
    }
    r
}

/// Index of the first occurrence of `c` in `a`, if any.
pub fn find_char(a: &[char], c: char) -> (r: Option<usize>)
    ensures
        r is None ==> forall|k: int| 0 <= k < a@.len() ==> a@[k] != c,
        r matches Some(i) ==> i < a@.len() && a@[i as int] == c && forall|k: int|
            0 <= k < i ==> a@[k] != c,
{
    let mut i: usize = 0;
    while i < a.len()
        invariant
            i <= a@.len(),
            forall|k: int| 0 <= k < i ==> a@[k] != c,
        decreases a@.len() - i,
    {
        if a[i] == c {
            return Some(i);
        }
        i = i + 1;
    }
    None
}


/// Lowercase mapping of a string, as Unicode defines it.
pub uninterp spec fn lower_of(s: Seq<char>) -> Seq<char>;

/// Whether a character is alphabetic or numeric, as Unicode defines it.
pub uninterp spec fn alphanumeric(c: char) -> bool;

/// Whether a character is white space, as Unicode defines it.
pub uninterp spec fn whitespace(c: char) -> bool;

/// Relies on `str::to_lowercase`: the result depends on the characters
/// alone.
#[verifier::external_body]
pub(crate) fn lowercase(s: &str) -> (r: String)
    ensures
        r@ == lower_of(s@),
        s@.len() == 0 ==> r@.len() == 0,
{
    s.to_lowercase()
}

/// Relies on `char::is_alphanumeric`.
#[verifier::external_body]
pub(crate) fn is_alphanumeric(c: char) -> (r: bool)
    ensures
        r == alphanumeric(c),
{
    c.is_alphanumeric()
}

/// Relies on `char::is_whitespace`.
#[verifier::external_body]
pub(crate) fn is_whitespace(c: char) -> (r: bool)
    ensures
        r == whitespace(c),
{
    c.is_whitespace()
}

/// `s` without the `c` at either end.
pub open spec fn trim_char(s: Seq<char>, c: char) -> Seq<char> {
    if forall|k: int| 0 <= k < s.len() ==> s[k] == c {
        Seq::empty()
    } else {
        let first = choose|i: int| 0 <= i < s.len() && s[i] != c && forall|k: int| 0 <= k < i ==> s[k] == c;
        let last = choose|j: int|
            0 <= j < s.len() && s[j] != c && forall|k: int| j < k < s.len() ==> s[k] == c;
        s.subrange(first, last + 1)
    }
}

/// `a` without the `c` at either end.
pub fn trim_matches(a: &[char], c: char) -> (r: Vec<char>)
    ensures
        r@ == trim_char(a@, c),
{
    let mut i: usize = 0;
    while i < a.len() && a[i] == c
        invariant
            i <= a@.len(),
            forall|k: int| 0 <= k < i ==> a@[k] == c,
        decreases a@.len() - i,
    {
        i = i + 1;
    }
    if i == a.len() {
        return Vec::new();
    }
    let mut j: usize = a.len() - 1;
    while a[j] == c
        invariant
            i <= j < a@.len(),
            a@[i as int] != c,
            forall|k: int| j < k < a@.len() ==> a@[k] == c,
        decreases j,
    {
        j = j - 1;
    }
    proof {
        let first = choose|x: int| 0 <= x < a@.len() && a@[x] != c && forall|k: int| 0 <= k < x ==> a@[k] == c;
        let last = choose|y: int|
            0 <= y < a@.len() && a@[y] != c && forall|k: int| y < k < a@.len() ==> a@[k] == c;
        assert(a@[i as int] != c && forall|k: int| 0 <= k < i ==> a@[k] == c);
        assert(a@[j as int] != c && forall|k: int| j < k < a@.len() ==> a@[k] == c);
        if first < i {
        } else if i < first {
            assert(a@[i as int] == c);
        }
        if last < j {
            assert(a@[j as int] == c);
        } else if j < last {
        }
    }
    slice_chars(a, i, j + 1)
}


/// Whether `p` occurs in `a` at position `i`.
pub open spec fn occurs_at(a: Seq<char>, p: Seq<char>, i: int) -> bool {
    0 <= i && i + p.len() <= a.len() && a.subrange(i, i + p.len()) == p
}

/// Whether `p` occurs somewhere in `a`.
pub fn contains(a: &[char], p: &[char]) -> (r: bool)
    ensures
        r == exists|i: int| occurs_at(a@, p@, i),
{
    if p.len() > a.len() {
        return false;
    }
    if p.len() == 0 {
        assert(a@.subrange(0, 0) =~= p@);
        assert(occurs_at(a@, p@, 0));
        return true;
    }
    let n: usize = a.len();
    let last: usize = n - p.len();
    let mut i: usize = 0;
    while i <= last
        invariant
            n == a@.len(),
            p@.len() >= 1,
            last + p@.len() == n,
            forall|k: int| 0 <= k < i ==> !occurs_at(a@, p@, k),
        decreases last + 1 - i,
    {
        let mut j: usize = 0;
        let mut same = true;
        while j < p.len()
            invariant
                i <= last,
                n == a@.len(),
                last + p@.len() == n,
                j <= p@.len(),
                same == forall|k: int| 0 <= k < j ==> a@[i + k] == p@[k],
            decreases p@.len() - j,
        {
            if a[i + j] != p[j] {
                same = false;
            }
            j = j + 1;
        }
        if same {
            assert(a@.subrange(i as int, i + p@.len()) =~= p@);
            assert(occurs_at(a@, p@, i as int));
            return true;
        }
        assert(!occurs_at(a@, p@, i as int)) by {
            if occurs_at(a@, p@, i as int) {
                assert forall|k: int| 0 <= k < p@.len() implies a@[i + k] == p@[k] by {
                    assert(a@.subrange(i as int, i + p@.len())[k] == a@[i + k]);
                }
            }
        }
        i = i + 1;
    }
    assert forall|k: int| !occurs_at(a@, p@, k) by {
        if 0 <= k && k + p@.len() <= a@.len() {
            assert(k <= last);
        }
    }
    false
}


/// The pieces of `s` between its `sep` separators, in order (an empty `s`
/// gives one empty piece).
pub open spec fn split_on(s: Seq<char>, sep: char) -> Seq<Seq<char>>
    decreases s.len(),
{
    if s.len() == 0 {
        seq![Seq::empty()]
    } else {
        let p = split_on(s.drop_last(), sep);
        if s.last() == sep {
            p.push(Seq::empty())
        } else {
            p.update(p.len() - 1, p.last().push(s.last()))
        }
    }
}

pub(crate) proof fn lemma_split_nonempty(s: Seq<char>, sep: char)
    ensures
        split_on(s, sep).len() >= 1,
    decreases s.len(),
{
    if s.len() > 0 {
        lemma_split_nonempty(s.drop_last(), sep);
    }
}

pub(crate) proof fn lemma_split_step(s: Seq<char>, sep: char, j: int)
    requires
        0 <= j < s.len(),
    ensures
        s[j] == sep ==> split_on(s.take(j + 1), sep) == split_on(s.take(j), sep).push(Seq::empty()),
        s[j] != sep ==> split_on(s.take(j + 1), sep).drop_last() == split_on(s.take(j), sep).drop_last(),
        s[j] != sep ==> split_on(s.take(j + 1), sep).last() == split_on(s.take(j), sep).last().push(s[j]),
{
    assert(s.take(j + 1).drop_last() =~= s.take(j));
    lemma_split_nonempty(s.take(j), sep);
    let prev = split_on(s.take(j), sep);
    if s[j] != sep {
        assert(split_on(s.take(j + 1), sep).drop_last() =~= prev.drop_last());
    }
}

/// `s` without white space at either end.
pub open spec fn trim_ws(s: Seq<char>) -> Seq<char> {
    if forall|k: int| 0 <= k < s.len() ==> whitespace(s[k]) {
        Seq::empty()
    } else {
        let first = choose|i: int|
            0 <= i < s.len() && !whitespace(s[i]) && forall|k: int| 0 <= k < i ==> whitespace(s[k]);
        let last = choose|j: int|
            0 <= j < s.len() && !whitespace(s[j]) && forall|k: int| j < k < s.len() ==> whitespace(s[k]);
        s.subrange(first, last + 1)
    }
}

/// `a` without white space at either end.
pub fn trim_whitespace(a: &[char]) -> (r: Vec<char>)
    ensures
        r@ == trim_ws(a@),
{
    let mut i: usize = 0;
    while i < a.len() && is_whitespace(a[i])
        invariant
            i <= a@.len(),
            forall|k: int| 0 <= k < i ==> whitespace(a@[k]),
        decreases a@.len() - i,
    {
        i = i + 1;
    }
    if i == a.len() {
        return Vec::new();
    }
    let mut j: usize = a.len() - 1;
    while is_whitespace(a[j])
        invariant
            i <= j < a@.len(),
            !whitespace(a@[i as int]),
            forall|k: int| j < k < a@.len() ==> whitespace(a@[k]),
        decreases j,
    {
        j = j - 1;
    }
    proof {
        let first = choose|x: int|
            0 <= x < a@.len() && !whitespace(a@[x]) && forall|k: int| 0 <= k < x ==> whitespace(a@[k]);
        let last = choose|y: int|
            0 <= y < a@.len() && !whitespace(a@[y]) && forall|k: int| y < k < a@.len() ==> whitespace(a@[k]);
        assert(!whitespace(a@[i as int]) && forall|k: int| 0 <= k < i ==> whitespace(a@[k]));
        assert(!whitespace(a@[j as int]) && forall|k: int| j < k < a@.len() ==> whitespace(a@[k]));
        if first < i {
        } else if i < first {
            assert(whitespace(a@[i as int]));
        }
        if last < j {
            assert(whitespace(a@[j as int]));
        } else if j < last {
        }
    }
    slice_chars(a, i, j + 1)
}

/// The tags of a comma-separated list: each piece between commas, without
/// white space at either end.
pub open spec fn tags_of(csv: Seq<char>) -> Seq<Seq<char>> {
    split_on(csv, ',').map_values(|t: Seq<char>| trim_ws(t))
}

/// The tags of a comma-separated list (e.g. "web, demo" gives "web" and
/// "demo").
pub fn parse_tags(csv: &str) -> (r: Vec<String>)
    ensures
        r@.map_values(|t: String| t@) == tags_of(csv@),
{
    let s = chars_of(csv);
    let mut done: Vec<String> = Vec::new();
    let mut cur: Vec<char> = Vec::new();
    let mut i: usize = 0;
    proof {
        assert(s@.take(0) =~= Seq::<char>::empty());
        assert(split_on(Seq::<char>::empty(), ',').drop_last() =~= Seq::<Seq<char>>::empty());
    }
    while i < s.len()
        invariant
            i <= s@.len(),
            s@ == csv@,
            split_on(s@.take(i as int), ',').len() >= 1,
            split_on(s@.take(i as int), ',').last() == cur@,
            done@.map_values(|t: String| t@) == split_on(s@.take(i as int), ',').drop_last().map_values(
                |t: Seq<char>| trim_ws(t),
            ),
        decreases s@.len() - i,
    {
        let c = s[i];
        let ghost prev = split_on(s@.take(i as int), ',');
        proof {
            lemma_split_step(s@, ',', i as int);
            assert(prev == prev.drop_last().push(prev.last()));
            lemma_split_nonempty(s@.take(i + 1), ',');
        }
        if c == ',' {
            let ghost before = done@;
            let t = trim_whitespace(cur.as_slice());
            done.push(string_of(t.as_slice()));
            proof {
                assert(split_on(s@.take(i + 1), ',').drop_last() =~= prev);
                assert(prev.map_values(|t: Seq<char>| trim_ws(t)) =~= prev.drop_last().map_values(
                    |t: Seq<char>| trim_ws(t),
                ).push(trim_ws(cur@)));
                assert(done@.map_values(|t: String| t@) =~= before.map_values(|t: String| t@).push(trim_ws(cur@)));
            }
            cur = Vec::new();
        } else {
            cur.push(c);
        }
        i = i + 1;
    }
    proof {
        assert(s@.take(i as int) =~= s@);
    }
    let ghost segs = split_on(s@, ',');
    let ghost before = done@;
    let t = trim_whitespace(cur.as_slice());
    done.push(string_of(t.as_slice()));
    proof {
        assert(segs == segs.drop_last().push(segs.last()));
        assert(segs.map_values(|t: Seq<char>| trim_ws(t)) =~= segs.drop_last().map_values(|t: Seq<char>| trim_ws(t)).push(
            trim_ws(cur@),
        ));
        assert(done@.map_values(|t: String| t@) =~= before.map_values(|t: String| t@).push(trim_ws(cur@)));
    }
    done
}

} // verus!
