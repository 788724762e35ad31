//! Identifiers, locators and listing metadata of published packages.
use vstd::prelude::*;
use vstd::string::*;
use crate::error::{Result, RoseliteError};
use crate::serve::split_slash;
use crate::text::{lemma_split_nonempty, lemma_split_step};
use crate::text::{chars_eq, chars_of, push_str, string_of};

verus! {

/// Identifier of a published package: the key of its lookup record.
#[derive(Debug, Clone, PartialEq, Eq, Hash)]
pub struct AppId(pub String);

/// A point in time, as seconds and nanoseconds since the Unix epoch (UTC).
#[derive(Debug, Clone, Copy, PartialEq, Eq)]
pub struct Timestamp {
    pub secs: i64,
    pub nanos: u32,
}

/// Shareable locator of a published package.
#[derive(Debug, Clone, PartialEq, Eq)]
pub struct VeilUri {
    pub scheme: String,
    pub app_id: AppId,
    pub version: Option<String>,
}

/// The scheme of every locator.
pub open spec fn veil_scheme() -> Seq<char> {
    seq!['v', 'e', 'i', 'l']
}

impl VeilUri {
    /// A locator with the `veil` scheme.
    pub fn new(app_id: AppId, version: Option<String>) -> (r: VeilUri)
        ensures
            r.scheme@ == veil_scheme(),
            r.app_id == app_id,
            r.version == version,
    {
        let scheme = String::from_str("veil");
        proof {
            reveal_strlit("veil");
        }
        VeilUri { scheme, app_id, version }
    }
}

/// Listing metadata of a published package.
#[derive(Debug, Clone)]
pub struct AppInfo {
    pub id: AppId,
    pub name: String,
    pub slug: String,
    pub version: String,
    pub description: String,
    pub developer: String,
    pub category: String,
    pub size_bytes: u64,
    pub created_at: Timestamp,
    pub updated_at: Timestamp,
    pub tags: Vec<String>,
    pub entry_point: String,
    pub veilid_identity: Option<String>,
    pub signature: Option<String>,
    pub chunk_count: usize,
}


/// The view of an optional string.
pub open spec fn opt_view(o: Option<String>) -> Option<Seq<char>> {
    match o {
        Some(s) => Some(s@),
        None => None,
    }
}

/// The text of a locator: `<scheme>:///app/<app_id>`, then `/<version>`
/// where it has one.
pub open spec fn uri_text(scheme: Seq<char>, app_id: Seq<char>, version: Option<Seq<char>>) -> Seq<char> {
    scheme + ":///app/"@ + app_id + match version {
        Some(v) => "/"@ + v,
        None => Seq::empty(),
    }
}

impl VeilUri {
    /// The text of the locator (see `uri_text`).
    pub fn to_uri_string(&self) -> (r: String)
        ensures
            r@ == uri_text(self.scheme@, self.app_id.0@, opt_view(self.version)),
    {
        let mut v: Vec<char> = Vec::new();
        push_str(&mut v, self.scheme.as_str());
        push_str(&mut v, ":///app/");
        push_str(&mut v, self.app_id.0.as_str());
        match &self.version {
            Some(version) => {
                push_str(&mut v, "/");
                push_str(&mut v, version.as_str());
                assert(v@ =~= uri_text(self.scheme@, self.app_id.0@, opt_view(self.version)));
            },
            None => {
                assert(v@ =~= uri_text(self.scheme@, self.app_id.0@, opt_view(self.version)));
            },
        }
        string_of(v.as_slice())
    }
}

/// The web address of an app on the public access site, with its version
/// where one is given.
pub open spec fn access_url_text(id: Seq<char>, version: Option<Seq<char>>) -> Seq<char> {
    "https://www.roselite.app/access/"@ + id + match version {
        Some(v) => "/"@ + v,
        None => Seq::empty(),
    }
}

impl AppInfo {
    /// The locator of this version of the app.
    pub fn uri(&self) -> (r: VeilUri)
        ensures
            r.scheme@ == veil_scheme(),
            r.app_id == self.id,
            r.version == Some(self.version),
    {
        VeilUri::new(AppId(self.id.0.clone()), Some(self.version.clone()))
    }

    /// The locator of the app's latest version.
    pub fn uri_latest(&self) -> (r: VeilUri)
        ensures
            r.scheme@ == veil_scheme(),
            r.app_id == self.id,
            r.version is None,
    {
        VeilUri::new(AppId(self.id.0.clone()), None)
    }

    /// The web address of this version of the app.
    pub fn access_url(&self) -> (r: String)
        ensures
            r@ == access_url_text(self.id.0@, Some(self.version@)),
    {
        let mut v: Vec<char> = Vec::new();
        push_str(&mut v, "https://www.roselite.app/access/");
        push_str(&mut v, self.id.0.as_str());
        push_str(&mut v, "/");
        push_str(&mut v, self.version.as_str());
        assert(v@ =~= access_url_text(self.id.0@, Some(self.version@)));
        string_of(v.as_slice())
    }

    /// The web address of the app's latest version.
    pub fn access_url_latest(&self) -> (r: String)
        ensures
            r@ == access_url_text(self.id.0@, None),
    {
        let mut v: Vec<char> = Vec::new();
        push_str(&mut v, "https://www.roselite.app/access/");
        push_str(&mut v, self.id.0.as_str());
        assert(v@ =~= access_url_text(self.id.0@, None));
        string_of(v.as_slice())
    }
}

/// What URL parsing makes of `s`: its scheme, host and path, or `None`
/// where `s` is no URL.
pub uninterp spec fn url_parts_of(s: Seq<char>) -> Option<(Seq<char>, Option<Seq<char>>, Seq<char>)>;

/// Relies on `url::Url::parse`, and on `scheme`, `host_str` and `path` of
/// the URL it returns.
#[verifier::external_body]
fn parse_url(s: &str) -> (r: Option<(String, Option<String>, String)>)
    ensures
        r is Some <==> url_parts_of(s@) is Some,
        r matches Some(p) ==> url_parts_of(s@) == Some((p.0@, opt_view(p.1), p.2@)),
{
    url::Url::parse(s).ok().map(|u| (u.scheme().to_string(), u.host_str().map(|h| h.to_string()), u.path().to_string()))
}

/// The pieces that are not empty.
pub open spec fn nonempty(ps: Seq<Seq<char>>) -> Seq<Seq<char>>
    decreases ps.len(),
{
    if ps.len() == 0 {
        Seq::empty()
    } else if ps.last().len() == 0 {
        nonempty(ps.drop_last())
    } else {
        nonempty(ps.drop_last()).push(ps.last())
    }
}

/// The segments of a locator: its host, where it has one, then the
/// non-empty pieces of its path.
pub open spec fn uri_segments(host: Option<Seq<char>>, path: Seq<char>) -> Seq<Seq<char>> {
    match host {
        Some(h) => seq![h] + nonempty(split_slash(path)),
        None => nonempty(split_slash(path)),
    }
}

/// What a locator names, `(app_id, version)`: its scheme is `veil` and its
/// segments are `app`, the app id, and optionally the version (further
/// segments are ignored). `None` for any other text.
pub open spec fn veil_uri_of(s: Seq<char>) -> Option<(Seq<char>, Option<Seq<char>>)> {
    match url_parts_of(s) {
        None => None,
        Some(parts) => {
            let segs = uri_segments(parts.1, parts.2);
            if parts.0 != veil_scheme() || segs.len() < 2 || segs[0] != seq!['a', 'p', 'p'] {
                None
            } else {
                Some((segs[1], if segs.len() >= 3 { Some(segs[2]) } else { None }))
            }
        },
    }
}

fn path_pieces(path: &str) -> (r: Vec<String>)
    ensures
        r@.map_values(|p: String| p@) == nonempty(split_slash(path@)),
{
    let s = chars_of(path);
    let mut done: Vec<String> = Vec::new();
    let mut cur: Vec<char> = Vec::new();
    let mut i: usize = 0;
    proof {
        assert(s@.take(0) =~= Seq::<char>::empty());
        assert(split_slash(Seq::<char>::empty()).drop_last() =~= Seq::<Seq<char>>::empty());
    }
    while i < s.len()
        invariant
            i <= s@.len(),
            s@ == path@,
            split_slash(s@.take(i as int)).len() >= 1,
            split_slash(s@.take(i as int)).last() == cur@,
            done@.map_values(|p: String| p@) == nonempty(split_slash(s@.take(i as int)).drop_last()),
        decreases s@.len() - i,
    {
        let c = s[i];
        let ghost prev = split_slash(s@.take(i as int));
        proof {
            lemma_split_step(s@, '/', i as int);
            assert(prev == prev.drop_last().push(prev.last()));
        }
        if c == '/' {
            let ghost before = done@;
            if cur.len() > 0 {
                done.push(string_of(cur.as_slice()));
                assert(done@.map_values(|p: String| p@) =~= before.map_values(|p: String| p@).push(cur@));
            }
            proof {
                assert(split_slash(s@.take(i + 1)).drop_last() =~= prev);
            }
            cur = Vec::new();
        } else {
            cur.push(c);
            proof {
                assert(s@.take(i + 1).drop_last() =~= s@.take(i as int));
                lemma_split_nonempty(s@.take(i as int), '/');
            }
        }
        i = i + 1;
    }
    proof {
        assert(s@.take(i as int) =~= s@);
        let segs = split_slash(s@);
        assert(segs == segs.drop_last().push(segs.last()));
    }
    if cur.len() > 0 {
        let ghost before = done@;
        done.push(string_of(cur.as_slice()));
        assert(done@.map_values(|p: String| p@) =~= before.map_values(|p: String| p@).push(cur@));
    }
    done
}

/// Parses a locator `veil:///app/<app_id>[/<version>]`, or the equivalent
/// `veil://app/<app_id>[/<version>]`. Fails with `InvalidUri` on any other
/// text.
pub fn parse_veil_uri(uri_str: &str) -> (r: Result<VeilUri>)
    ensures
        r is Ok <==> veil_uri_of(uri_str@) is Some,
        r matches Ok(u) ==> u.scheme@ == veil_scheme() && veil_uri_of(uri_str@) == Some(
            (u.app_id.0@, opt_view(u.version)),
        ),
        r matches Err(e) ==> e is InvalidUri,
{
    let parts = match parse_url(uri_str) {
        Some(p) => p,
        None => { return Err(RoseliteError::InvalidUri(String::from_str("Invalid URL"))); },
    };
    let scheme = chars_of(parts.0.as_str());
    let veil = chars_of("veil");
    proof {
        reveal_strlit("veil");
        assert(veil@ =~= veil_scheme());
    }
    if !chars_eq(scheme.as_slice(), veil.as_slice()) {
        return Err(RoseliteError::InvalidUri(String::from_str("Invalid scheme: expected 'veil'")));
    }
    let pieces = path_pieces(parts.2.as_str());
    let mut segs: Vec<String> = Vec::new();
    match &parts.1 {
        Some(h) => segs.push(h.clone()),
        None => {},
    }
    let mut k: usize = 0;
    let ghost head = segs@.map_values(|p: String| p@);
    while k < pieces.len()
        invariant
            k <= pieces@.len(),
            segs@.map_values(|p: String| p@) == head + pieces@.map_values(|p: String| p@).take(k as int),
        decreases pieces@.len() - k,
    {
        let ghost before = segs@;
        let piece = pieces[k].clone();
        segs.push(piece);
        k = k + 1;
        assert(segs@.map_values(|p: String| p@) =~= before.map_values(|p: String| p@).push(pieces@[k - 1]@));
        assert(pieces@.map_values(|p: String| p@).take(k as int) =~= pieces@.map_values(|p: String| p@).take(
            k - 1,
        ).push(pieces@[k - 1]@));
        assert(segs@.map_values(|p: String| p@) =~= head + pieces@.map_values(|p: String| p@).take(k as int));
    }
    let ghost sv = segs@.map_values(|p: String| p@);
    assert(pieces@.map_values(|p: String| p@).take(k as int) =~= pieces@.map_values(|p: String| p@));
    assert(sv =~= uri_segments(opt_view(parts.1), parts.2@));
    if segs.len() < 2 {
        return Err(RoseliteError::InvalidUri(String::from_str("Invalid URI format: not enough segments")));
    }
    let first = chars_of(segs[0].as_str());
    let app = chars_of("app");
    proof {
        reveal_strlit("app");
        assert(app@ =~= seq!['a', 'p', 'p']);
        assert(first@ == sv[0]);
    }
    if !chars_eq(first.as_slice(), app.as_slice()) {
        return Err(RoseliteError::InvalidUri(String::from_str("Invalid URI format: first segment should be 'app'")));
    }
    let app_id = AppId(segs[1].clone());
    let version = if segs.len() >= 3 {
        Some(segs[2].clone())
    } else {
        None
    };
    assert(sv[1] == app_id.0@);
    Ok(VeilUri::new(app_id, version))
}

} // verus!
