//! URL-safe identifiers derived from names.
use vstd::prelude::*;
use crate::text::{alphanumeric, chars_of, is_alphanumeric, is_whitespace, lower_of, lowercase, string_of,
    trim_char, trim_matches, whitespace};

verus! {

/// What a slug keeps of one character: alphanumerics stay, white space,
/// `-` and `_` become `-`, the rest goes.
pub open spec fn slug_char(c: char) -> Option<char> {
    if alphanumeric(c) {
        Some(c)
    } else if whitespace(c) || c == '-' || c == '_' {
        Some('-')
    } else {
        None
    }
}

/// What a subdomain keeps of one character: spaces and `_` become `-`;
/// alphanumerics and `-` stay; the rest goes.
pub open spec fn subdomain_char(c: char) -> Option<char> {
    if c == ' ' || c == '_' {
        Some('-')
    } else if alphanumeric(c) || c == '-' {
        Some(c)
    } else {
        None
    }
}

/// What a slug (or, with `subdomain`, a subdomain label) keeps of `s`, in
/// order.
pub open spec fn kept(s: Seq<char>, subdomain: bool) -> Seq<char>
    decreases s.len(),
{
    if s.len() == 0 {
        Seq::empty()
    } else {
        let m = if subdomain { subdomain_char(s.last()) } else { slug_char(s.last()) };
        match m {
            Some(c) => kept(s.drop_last(), subdomain).push(c),
            None => kept(s.drop_last(), subdomain),
        }
    }
}

/// The slug of a name: lowercased, with alphanumerics kept, white space,
/// `-` and `_` turned to `-`, other characters dropped, and `-` trimmed
/// from both ends.
pub open spec fn slug_of(name: Seq<char>) -> Seq<char> {
    trim_char(kept(lower_of(name), false), '-')
}

/// The subdomain label of an app name: lowercased, with spaces and `_`
/// turned to `-`, only alphanumerics and `-` kept, and `-` trimmed from
/// both ends.
pub open spec fn subdomain_of(name: Seq<char>) -> Seq<char> {
    trim_char(kept(lower_of(name), true), '-')
}

/// What a slug (or, with `subdomain`, a subdomain label) keeps of the
/// characters `s`, before trimming: the step after lowercasing.
pub fn slug_chars(s: &[char], subdomain: bool) -> (r: Vec<char>)
    ensures
        r@ == kept(s@, subdomain),
{
    let mut r: Vec<char> = Vec::new();
    let mut i: usize = 0;
    while i < s.len()
        invariant
            i <= s@.len(),
            r@ == kept(s@.take(i as int), subdomain),
        decreases s@.len() - i,
    {
        let c = s[i];
        proof {
            assert(s@.take(i + 1).drop_last() =~= s@.take(i as int));
            assert(s@.take(i + 1).last() == c);
        }
        let alnum = is_alphanumeric(c);
        if subdomain {
            if c == ' ' || c == '_' {
                r.push('-');
            } else if alnum || c == '-' {
                r.push(c);
            }
        } else {
            if alnum {
                r.push(c);
            } else if is_whitespace(c) || c == '-' || c == '_' {
                r.push('-');
            }
        }
        i = i + 1;
    }
    assert(s@.take(i as int) =~= s@);
    r
}

/// The slug of a name (e.g. "Foo Bar_Baz!" gives "foo-bar-baz").
pub fn slug(name: &str) -> (r: String)
    ensures
        r@ == slug_of(name@),
{
    let lower = lowercase(name);
    let cs = chars_of(lower.as_str());
    let k = slug_chars(cs.as_slice(), false);
    let t = trim_matches(k.as_slice(), '-');
    string_of(t.as_slice())
}

/// The subdomain label of an app name.
pub fn subdomain_label(name: &str) -> (r: String)
    ensures
        r@ == subdomain_of(name@),
{
    let lower = lowercase(name);
    let cs = chars_of(lower.as_str());
    let k = slug_chars(cs.as_slice(), true);
    let t = trim_matches(k.as_slice(), '-');
    string_of(t.as_slice())
}

} // verus!
