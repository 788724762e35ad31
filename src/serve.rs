//! Request handling decisions of the gateway: which site a host names,
//! which record a DNS TXT answer points to, and which file a request path
//! reaches inside a site's directory.
use vstd::prelude::*;
use vstd::string::*;
use crate::text::{chars_eq, chars_of, ends_with, find_char, lemma_split_nonempty, lemma_split_step, slice_chars, split_on,
    starts_with, string_of};

verus! {

/// `s` holds no `c`.
pub open spec fn free_of(s: Seq<char>, c: char) -> bool {
    forall|k: int| 0 <= k < s.len() ==> s[k] != c
}

/// `s` up to its first `:`: a host without its port.
#[verifier::opaque]
pub open spec fn host_part(s: Seq<char>) -> Seq<char> {
    if free_of(s, ':') {
        s
    } else {
        s.take(choose|i: int| 0 <= i < s.len() && s[i] == ':' && free_of(s.take(i), ':'))
    }
}

fn strip_port(s: &[char]) -> (r: Vec<char>)
    ensures
        r@ == host_part(s@),
{
    match find_char(s, ':') {
        None => {
            proof {
                reveal(host_part);
                assert(s@.subrange(0, s@.len() as int) =~= s@);
            }
            slice_chars(s, 0, s.len())
        },
        Some(i) => {
            proof {
                reveal(host_part);
                assert(free_of(s@.take(i as int), ':'));
                let j = choose|j: int| 0 <= j < s@.len() && s@[j] == ':' && free_of(s@.take(j), ':');
                if j < i {
                } else if i < j {
                    assert(s@.take(j)[i as int] == ':');
                }
                assert(j == i);
            }
            slice_chars(s, 0, i)
        },
    }
}

/// The site that a request for `host` names, under the gateway domain
/// `domain`: what stands before `.domain` in the host, ports set aside.
/// `None` for the gateway's own host, and for a host outside its domain.
pub open spec fn site_of_host(host: Seq<char>, domain: Seq<char>) -> Option<Seq<char>> {
    let h = host_part(host);
    let d = host_part(domain);
    if h == d {
        None
    } else if h.len() > d.len() + 1 && h.subrange(h.len() - d.len(), h.len() as int) == d
        && h[h.len() - d.len() - 1] == '.' {
        Some(h.take(h.len() - d.len() - 1))
    } else {
        None
    }
}

/// The site that a request for `hostname` names under the gateway domain
/// `domain` (e.g. "my-app.localhost:8080" under "localhost:8080" names
/// "my-app").
pub fn extract_domain_from_hostname(hostname: &str, domain: &str) -> (r: Option<String>)
    ensures
        r is None <==> site_of_host(hostname@, domain@) is None,
        r matches Some(s) ==> site_of_host(hostname@, domain@) == Some(s@),
{
    let hc = chars_of(hostname);
    let dc = chars_of(domain);
    let h = strip_port(hc.as_slice());
    let d = strip_port(dc.as_slice());
    if chars_eq(h.as_slice(), d.as_slice()) {
        return None;
    }
    if h.len() > d.len() && h.len() - d.len() > 1 && ends_with(h.as_slice(), d.as_slice()) && h[h.len() - d.len() - 1] == '.' {
        let site = slice_chars(h.as_slice(), 0, h.len() - d.len() - 1);
        Some(string_of(site.as_slice()))
    } else {
        None
    }
}

/// The prefix of a DNS TXT value that names a package's lookup record.
pub open spec fn app_key_prefix() -> Seq<char> {
    "veilid-app="@
}

/// The record key named by the first TXT value that starts with
/// `veilid-app=`: the rest of that value.
pub open spec fn app_key_of(txt: Seq<Seq<char>>) -> Option<Seq<char>>
    decreases txt.len(),
{
    if txt.len() == 0 {
        None
    } else {
        let p = app_key_prefix();
        let t = txt[0];
        if p.len() <= t.len() && t.take(p.len() as int) == p {
            Some(t.skip(p.len() as int))
        } else {
            app_key_of(txt.drop_first())
        }
    }
}

/// The record key that a domain's TXT values point to: the rest of the
/// first value that starts with `veilid-app=`.
pub fn select_app_key(txt: &Vec<String>) -> (r: Option<String>)
    ensures
        r is None <==> app_key_of(txt@.map_values(|t: String| t@)) is None,
        r matches Some(k) ==> app_key_of(txt@.map_values(|t: String| t@)) == Some(k@),
{
    let ghost all = txt@.map_values(|t: String| t@);
    let prefix = chars_of("veilid-app=");
    let mut i: usize = 0;
    assert(all.skip(0) =~= all);
    while i < txt.len()
        invariant
            i <= txt@.len(),
            all == txt@.map_values(|t: String| t@),
            prefix@ == app_key_prefix(),
            app_key_of(all) == app_key_of(all.skip(i as int)),
        decreases txt@.len() - i,
    {
        assert(all.skip(i as int).len() > 0);
        let t = chars_of(txt[i].as_str());
        proof {
            assert(all.skip(i as int)[0] == t@);
            assert(all.skip(i as int).drop_first() =~= all.skip(i + 1));
        }
        if starts_with(t.as_slice(), prefix.as_slice()) {
            let rest = slice_chars(t.as_slice(), prefix.len(), t.len());
            assert(rest@ =~= t@.skip(prefix@.len() as int));
            return Some(string_of(rest.as_slice()));
        }
        i = i + 1;
    }
    assert(all.skip(i as int) =~= Seq::<Seq<char>>::empty());
    None
}

/// The pieces of `s` between its `/` separators, in order (an empty `s`
/// gives one empty piece).
pub open spec fn split_slash(s: Seq<char>) -> Seq<Seq<char>> {
    split_on(s, '/')
}

/// The segment `.`.
pub open spec fn dot() -> Seq<char> {
    seq!['.']
}

/// The segment `..`.
pub open spec fn dot_dot() -> Seq<char> {
    seq!['.', '.']
}

/// One step of a walk: from the directory `at` (`None` once outside), take
/// the segment `s`.
pub open spec fn walk_step(at: Option<Seq<Seq<char>>>, s: Seq<char>) -> Option<Seq<Seq<char>>> {
    match at {
        None => None,
        Some(stack) => if s.len() == 0 || s == dot() {
            Some(stack)
        } else if s == dot_dot() {
            if stack.len() == 0 {
                None
            } else {
                Some(stack.drop_last())
            }
        } else {
            Some(stack.push(s))
        },
    }
}

/// The directory path that the segments reach from the site's directory,
/// one name per level: empty and `.` segments stay, `..` goes up. `None`
/// where a `..` would leave the site's directory.
pub open spec fn walk(segs: Seq<Seq<char>>) -> Option<Seq<Seq<char>>>
    decreases segs.len(),
{
    if segs.len() == 0 {
        Some(Seq::empty())
    } else {
        walk_step(walk(segs.drop_last()), segs.last())
    }
}

/// The names joined with `/`.
pub open spec fn join_slash(names: Seq<Seq<char>>) -> Seq<char>
    decreases names.len(),
{
    if names.len() == 0 {
        Seq::empty()
    } else if names.len() == 1 {
        names[0]
    } else {
        join_slash(names.drop_last()) + seq!['/'] + names.last()
    }
}

/// The file that a request path reaches inside the site's directory,
/// relative to it: `None` where the path leaves the directory, `index.html`
/// where it reaches the directory itself.
pub open spec fn resolved_path(requested: Seq<char>) -> Option<Seq<char>> {
    match walk(split_slash(requested)) {
        None => None,
        Some(names) => if names.len() == 0 {
            Some("index.html"@)
        } else {
            Some(join_slash(names))
        },
    }
}

/// The names of a path that stays inside: none is empty, `.` or `..`.
pub open spec fn plain_names(names: Seq<Seq<char>>) -> bool {
    forall|k: int| 0 <= k < names.len() ==> names[k].len() > 0 && names[k] != dot() && names[k] != dot_dot()
}

/// A request path never walks out of the site's directory: where it
/// resolves, it resolves to plain names, each one level further down; where
/// a `..` would climb above the directory, it does not resolve at all.
pub proof fn lemma_walk_stays_inside(segs: Seq<Seq<char>>)
    ensures
        walk(segs) matches Some(names) ==> plain_names(names),
    decreases segs.len(),
{
    if segs.len() > 0 {
        lemma_walk_stays_inside(segs.drop_last());
        if let Some(stack) = walk(segs.drop_last()) {
            let s = segs.last();
            if !(s.len() == 0 || s == dot()) && s != dot_dot() {
                assert forall|k: int| 0 <= k < stack.push(s).len() implies stack.push(s)[k].len() > 0
                    && stack.push(s)[k] != dot() && stack.push(s)[k] != dot_dot() by {
                    if k < stack.len() {
                        assert(stack.push(s)[k] == stack[k]);
                    }
                }
            }
        }
    }
}


spec fn names_view(v: Seq<Vec<char>>) -> Seq<Seq<char>> {
    v.map_values(|n: Vec<char>| n@)
}

proof fn lemma_walk_none_sticky(s: Seq<char>, j: int)
    requires
        0 <= j <= s.len(),
        walk(split_slash(s.take(j)).drop_last()) is None,
    ensures
        walk(split_slash(s)) is None,
    decreases s.len() - j,
{
    lemma_split_nonempty(s.take(j), '/');
    if j == s.len() {
        assert(s.take(j) =~= s);
        let segs = split_slash(s);
        assert(segs == segs.drop_last().push(segs.last()));
        assert(walk(segs) == walk_step(walk(segs.drop_last()), segs.last()));
    } else {
        lemma_split_step(s, '/', j);
        let prev = split_slash(s.take(j));
        if s[j] == '/' {
            assert(split_slash(s.take(j + 1)).drop_last() =~= prev);
            assert(prev == prev.drop_last().push(prev.last()));
            assert(walk(prev) == walk_step(walk(prev.drop_last()), prev.last()));
        }
        lemma_walk_none_sticky(s, j + 1);
    }
}

/// Takes the segment `seg` from the directory `stack`; `false` where it
/// climbs out.
fn take_segment(stack: &mut Vec<Vec<char>>, seg: Vec<char>) -> (ok: bool)
    ensures
        ok ==> walk_step(Some(names_view(old(stack)@)), seg@) == Some(names_view(final(stack)@)),
        !ok ==> walk_step(Some(names_view(old(stack)@)), seg@) is None,
{
    let is_dot = seg.len() == 1 && seg[0] == '.';
    let is_dot_dot = seg.len() == 2 && seg[0] == '.' && seg[1] == '.';
    proof {
        assert(is_dot <==> seg@ =~= dot());
        assert(is_dot_dot <==> seg@ =~= dot_dot());
    }
    if seg.len() == 0 || is_dot {
        true
    } else if is_dot_dot {
        if stack.len() == 0 {
            false
        } else {
            stack.pop();
            assert(names_view(stack@) =~= names_view(old(stack)@).drop_last());
            true
        }
    } else {
        stack.push(seg);
        assert(names_view(stack@) =~= names_view(old(stack)@).push(seg@));
        true
    }
}

fn join_names(names: &Vec<Vec<char>>) -> (r: Vec<char>)
    ensures
        r@ == join_slash(names_view(names@)),
{
    let ghost all = names_view(names@);
    let mut out: Vec<char> = Vec::new();
    let mut i: usize = 0;
    while i < names.len()
        invariant
            i <= names@.len(),
            all == names_view(names@),
            out@ == join_slash(all.take(i as int)),
        decreases names@.len() - i,
    {
        if i > 0 {
            out.push('/');
        }
        crate::text::push_all(&mut out, names[i].as_slice());
        proof {
            assert(all.take(i + 1).drop_last() =~= all.take(i as int));
            assert(all[i as int] == names@[i as int]@);
            if i == 0 {
                assert(out@ =~= all.take(1)[0]);
            } else {
                assert(out@ =~= join_slash(all.take(i as int)) + seq!['/'] + all[i as int]);
            }
        }
        i = i + 1;
    }
    assert(all.take(i as int) =~= all);
    out
}

/// The file that a request path reaches inside the site's directory,
/// relative to it, or `None` where the path leaves the directory (the
/// gateway then answers 403 without reading anything).
pub fn resolve_request_path(requested: &str) -> (r: Option<String>)
    ensures
        r is None <==> resolved_path(requested@) is None,
        r matches Some(p) ==> resolved_path(requested@) == Some(p@),
{
    let s = chars_of(requested);
    let mut stack: Vec<Vec<char>> = Vec::new();
    let mut cur: Vec<char> = Vec::new();
    let mut i: usize = 0;
    proof {
        assert(s@.take(0) =~= Seq::<char>::empty());
        assert(split_slash(Seq::<char>::empty()).drop_last() =~= Seq::<Seq<char>>::empty());
    }
    while i < s.len()
        invariant
            i <= s@.len(),
            s@ == requested@,
            split_slash(s@.take(i as int)).len() >= 1,
            split_slash(s@.take(i as int)).last() == cur@,
            walk(split_slash(s@.take(i as int)).drop_last()) == Some(names_view(stack@)),
        decreases s@.len() - i,
    {
        let c = s[i];
        let ghost prev = split_slash(s@.take(i as int));
        proof {
            assert(s@.take(i + 1).drop_last() =~= s@.take(i as int));
            assert(s@.take(i + 1).last() == c);
            lemma_split_step(s@, '/', i as int);
        }
        if c == '/' {
            let seg = cur;
            let ghost before = names_view(stack@);
            cur = Vec::new();
            let ok = take_segment(&mut stack, seg);
            proof {
                let next = split_slash(s@.take(i + 1));
                assert(next == prev.push(Seq::empty()));
                assert(next.drop_last() =~= prev);
                assert(prev == prev.drop_last().push(prev.last()));
                assert(walk(prev) == walk_step(walk(prev.drop_last()), prev.last()));
            }
            if !ok {
                proof {
                    assert(walk(prev.drop_last()) == Some(before));
                    assert(walk(prev) is None);
                    assert(split_slash(s@.take(i + 1)).drop_last() =~= prev);
                    lemma_walk_none_sticky(s@, i as int + 1);
                    assert(s@ == requested@);
                    assert(walk(split_slash(requested@)) is None);
                    assert(resolved_path(requested@) is None);
                }
                return None;
            }
        } else {
            cur.push(c);
            proof {
                let next = split_slash(s@.take(i + 1));
                assert(next == prev.update(prev.len() - 1, prev.last().push(c)));
                assert(next.drop_last() =~= prev.drop_last());
            }
        }
        i = i + 1;
    }
    proof {
        assert(s@.take(i as int) =~= s@);
    }
    let ghost segs = split_slash(s@);
    assert(walk(segs) == walk_step(walk(segs.drop_last()), segs.last()));
    let ok = take_segment(&mut stack, cur);
    if !ok {
        return None;
    }
    if stack.len() == 0 {
        Some(String::from_str("index.html"))
    } else {
        let joined = join_names(&stack);
        Some(string_of(joined.as_slice()))
    }
}

} // verus!
