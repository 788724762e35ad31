//! Packages: a manifest and the gzip-compressed tar archive of a site.
use vstd::prelude::*;
use vstd::string::*;
use crate::archive::{entries_view, gunzip, gunzip_of, gzip, gzip_of, tar_entries, tar_entries_of, tar_of, tar_pack};
use crate::crypto::{CryptoManager, ed25519_accepts, ed25519_key_decodes, ed25519_signature, is_key_hex, is_signature_hex};
use crate::error::{PackageError, Result, RoseliteError};
use crate::hexcode::{hex_decoded, hex_of};
use crate::slug::slug_of;
use crate::text::{chars_of, string_of};
use crate::types::{AppId, AppInfo, Timestamp};

verus! {

/// Mode of every file in a package archive.
pub const FILE_MODE: u32 = 0o644;

/// Capabilities that an app may ask for.
#[derive(Debug, Clone, Copy, PartialEq, Eq)]
pub enum Permission {
    Network,
    FileSystem,
    Camera,
    Microphone,
    Clipboard,
}

/// The manifest of a package (`veilid.json` in its archive).
#[derive(Debug)]
pub struct PackageManifest {
    pub name: String,
    pub version: String,
    pub description: String,
    pub developer: String,
    pub author: String,
    pub category: String,
    pub entry: String,
    pub tags: Vec<String>,
    pub slug: String,
    pub identity: String,
    pub signature: String,
    pub format_version: String,
    pub dependencies: Vec<String>,
    pub permissions: Vec<Permission>,
    pub created_at: Timestamp,
    pub updated_at: Timestamp,
    pub public_key: String,
}

/// A copy of the strings.
pub fn clone_strings(v: &Vec<String>) -> (r: Vec<String>)
    ensures
        r@ == v@,
{
    let mut r: Vec<String> = Vec::new();
    let mut i: usize = 0;
    while i < v.len()
        invariant
            i <= v@.len(),
            r@ == v@.take(i as int),
        decreases v@.len() - i,
    {
        r.push(v[i].clone());
        i = i + 1;
        assert(r@ =~= v@.take(i as int));
    }
    assert(v@.take(i as int) =~= v@);
    r
}

impl PackageManifest {
    /// The slug of a name (see `slug_of`).
    pub fn generate_slug(name: &str) -> (r: String)
        ensures
            r@ == slug_of(name@),
    {
        crate::slug::slug(name)
    }

    /// Sets the slug from the name where it is empty.
    pub fn ensure_slug(&mut self)
        ensures
            final(self).slug@ == if old(self).slug@.len() == 0 {
                slug_of(old(self).name@)
            } else {
                old(self).slug@
            },
            final(self).name == old(self).name,
            final(self).identity == old(self).identity,
            final(self).signature == old(self).signature,
            final(self).public_key == old(self).public_key,
    {
        if self.slug.as_str().unicode_len() == 0 {
            self.slug = Self::generate_slug(self.name.as_str());
        }
    }
}

/// A manifest is acceptable: its name, version, description, developer,
/// author, category, entry point and identity are not empty.
pub open spec fn manifest_ok(m: PackageManifest) -> bool {
    &&& m.name@.len() > 0
    &&& m.version@.len() > 0
    &&& m.description@.len() > 0
    &&& m.developer@.len() > 0
    &&& m.author@.len() > 0
    &&& m.category@.len() > 0
    &&& m.entry@.len() > 0
    &&& m.identity@.len() > 0
}

/// The last component of a slash-separated path.
pub open spec fn file_name_of(p: Seq<char>) -> Seq<char>
    decreases p.len(),
{
    if p.len() == 0 {
        Seq::empty()
    } else if p.last() == '/' {
        Seq::empty()
    } else {
        file_name_of(p.drop_last()).push(p.last())
    }
}

/// The name of the manifest entry.
pub open spec fn manifest_name() -> Seq<char> {
    seq!['v', 'e', 'i', 'l', 'i', 'd', '.', 'j', 's', 'o', 'n']
}

/// The entry is the manifest: its file name is `veilid.json`.
pub open spec fn is_manifest_entry(path: Seq<char>) -> bool {
    file_name_of(path) == manifest_name()
}

/// The contents of the first manifest entry.
pub open spec fn first_manifest(entries: Seq<(Seq<char>, Seq<u8>)>) -> Option<Seq<u8>>
    decreases entries.len(),
{
    if entries.len() == 0 {
        None
    } else if is_manifest_entry(entries[0].0) {
        Some(entries[0].1)
    } else {
        first_manifest(entries.drop_first())
    }
}

/// `p` with every `\` turned to `/`.
pub open spec fn forward_slashes(p: Seq<char>) -> Seq<char> {
    p.map_values(|c: char| if c == '\\' { '/' } else { c })
}

/// The site's files among archive entries: every entry but the manifest,
/// in archive order, with forward slashes in its path.
pub open spec fn site_files(entries: Seq<(Seq<char>, Seq<u8>)>) -> Seq<(Seq<char>, Seq<u8>)>
    decreases entries.len(),
{
    if entries.len() == 0 {
        Seq::empty()
    } else {
        let e = entries.last();
        if is_manifest_entry(e.0) {
            site_files(entries.drop_last())
        } else {
            site_files(entries.drop_last()).push((forward_slashes(e.0), e.1))
        }
    }
}

/// The entries of the archive within package content, where the content
/// decompresses and the archive reads.
pub open spec fn archive_entries(content: Seq<u8>) -> Option<Seq<(Seq<char>, Seq<u8>)>> {
    match gunzip_of(content) {
        None => None,
        Some(tar) => tar_entries_of(tar),
    }
}

fn is_manifest_path(path: &String) -> (r: bool)
    ensures
        r == is_manifest_entry(path@),
{
    let cs = chars_of(path.as_str());
    let mut name: Vec<char> = Vec::new();
    let mut i: usize = 0;
    while i < cs.len()
        invariant
            i <= cs@.len(),
            name@ == file_name_of(cs@.take(i as int)),
        decreases cs@.len() - i,
    {
        proof {
            assert(cs@.take(i + 1).drop_last() =~= cs@.take(i as int));
        }
        if cs[i] == '/' {
            name = Vec::new();
        } else {
            name.push(cs[i]);
        }
        i = i + 1;
    }
    assert(cs@.take(i as int) =~= cs@);
    let m = chars_of("veilid.json");
    proof {
        reveal_strlit("veilid.json");
        assert(m@ =~= manifest_name());
    }
    crate::text::chars_eq(name.as_slice(), m.as_slice())
}

fn archive_of(content: &Vec<u8>) -> (r: Result<Vec<(String, Vec<u8>)>>)
    ensures
        r is Ok <==> archive_entries(content@) is Some,
        r matches Ok(v) ==> archive_entries(content@) == Some(entries_view(v@)),
        r matches Err(e) ==> e == RoseliteError::Package(PackageError::InvalidFormat),
{
    match gunzip(content.as_slice()) {
        None => Err(RoseliteError::Package(PackageError::InvalidFormat)),
        Some(tar) => match tar_entries(tar.as_slice()) {
            None => Err(RoseliteError::Package(PackageError::InvalidFormat)),
            Some(v) => Ok(v),
        },
    }
}

/// A package: its manifest and its compressed archive.
#[derive(Debug)]
pub struct Package {
    pub manifest: PackageManifest,
    pub content: Vec<u8>,
    pub size_bytes: u64,
    pub data: Vec<u8>,
}

impl Package {
    /// The slug of a name (see `slug_of`).
    pub fn generate_slug(name: &str) -> (r: String)
        ensures
            r@ == slug_of(name@),
    {
        crate::slug::slug(name)
    }

    /// Accepts a manifest whose name, version, description, developer,
    /// author, category, entry point and identity are not empty; otherwise
    /// fails with `InvalidManifest`, naming the first empty one in that
    /// order.
    pub fn validate_manifest(manifest: &PackageManifest) -> (r: Result<()>)
        ensures
            r is Ok <==> manifest_ok(*manifest),
            r matches Err(e) ==> e is Package && e->Package_0 is InvalidManifest,
    {
        let reason = if manifest.name.as_str().unicode_len() == 0 {
            "name cannot be empty"
        } else if manifest.version.as_str().unicode_len() == 0 {
            "version cannot be empty"
        } else if manifest.description.as_str().unicode_len() == 0 {
            "description cannot be empty"
        } else if manifest.developer.as_str().unicode_len() == 0 {
            "developer cannot be empty"
        } else if manifest.author.as_str().unicode_len() == 0 {
            "author cannot be empty"
        } else if manifest.category.as_str().unicode_len() == 0 {
            "category cannot be empty"
        } else if manifest.entry.as_str().unicode_len() == 0 {
            "entry point cannot be empty"
        } else if manifest.identity.as_str().unicode_len() == 0 {
            "identity cannot be empty"
        } else {
            return Ok(());
        };
        Err(RoseliteError::Package(PackageError::InvalidManifest { reason: String::from_str(reason) }))
    }

    /// The bytes of the manifest entry of package content: the first entry
    /// whose file name is `veilid.json`. Fails with `InvalidFormat` where the
    /// content does not decompress or the archive does not read, and with
    /// `MissingManifest` where no entry is the manifest.
    pub fn manifest_bytes(content: &Vec<u8>) -> (r: Result<Vec<u8>>)
        ensures
            archive_entries(content@) is None ==> r == Err::<Vec<u8>, RoseliteError>(
                RoseliteError::Package(PackageError::InvalidFormat),
            ),
            archive_entries(content@) matches Some(es) ==> (match first_manifest(es) {
                None => r == Err::<Vec<u8>, RoseliteError>(RoseliteError::Package(PackageError::MissingManifest)),
                Some(m) => r matches Ok(b) && b@ == m,
            }),
    {
        let entries = archive_of(content)?;
        let ghost es = entries_view(entries@);
        let mut i: usize = 0;
        assert(es.skip(0) =~= es);
        while i < entries.len()
            invariant
                i <= entries@.len(),
                es == entries_view(entries@),
                archive_entries(content@) == Some(es),
                first_manifest(es) == first_manifest(es.skip(i as int)),
            decreases entries@.len() - i,
        {
            proof {
                assert(es.skip(i as int)[0] == (entries@[i as int].0@, entries@[i as int].1@));
                assert(es.skip(i as int).drop_first() =~= es.skip(i + 1));
            }
            if is_manifest_path(&entries[i].0) {
                return Ok(vstd::slice::slice_to_vec(entries[i].1.as_slice()));
            }
            i = i + 1;
        }
        assert(es.skip(i as int) =~= Seq::<(Seq<char>, Seq<u8>)>::empty());
        Err(RoseliteError::Package(PackageError::MissingManifest))
    }

    /// A package of `content` whose manifest entry reads as `manifest`;
    /// fails with `InvalidManifest` where the manifest is not acceptable.
    pub fn from_manifest(content: Vec<u8>, manifest: PackageManifest) -> (r: Result<Package>)
        ensures
            r is Ok <==> manifest_ok(manifest),
            r matches Ok(p) ==> p.manifest == manifest && p.content == content && p.size_bytes == content@.len()
                && p.data@.len() == 0,
            r matches Err(e) ==> e is Package && e->Package_0 is InvalidManifest,
    {
        Self::validate_manifest(&manifest)?;
        let size_bytes = content.len() as u64;
        Ok(Package { manifest, content, size_bytes, data: Vec::new() })
    }

    /// Listing metadata of the package, stamped with `now`.
    pub fn to_app_info(&self, now: Timestamp) -> (r: AppInfo)
        ensures
            r.id.0 == self.manifest.identity,
            r.name == self.manifest.name,
            r.slug@ == if self.manifest.slug@.len() == 0 {
                slug_of(self.manifest.name@)
            } else {
                self.manifest.slug@
            },
            r.version == self.manifest.version,
            r.description == self.manifest.description,
            r.developer == self.manifest.developer,
            r.category == self.manifest.category,
            r.size_bytes == self.content@.len(),
            r.created_at == now,
            r.updated_at == now,
            r.tags@ == self.manifest.tags@,
            r.entry_point == self.manifest.entry,
            r.veilid_identity == Some(self.manifest.identity),
            r.signature is None,
            r.chunk_count == 0,
    {
        let m = &self.manifest;
        let slug = if m.slug.as_str().unicode_len() == 0 {
            Self::generate_slug(m.name.as_str())
        } else {
            m.slug.clone()
        };
        AppInfo {
            id: AppId(m.identity.clone()),
            name: m.name.clone(),
            slug,
            version: m.version.clone(),
            description: m.description.clone(),
            developer: m.developer.clone(),
            category: m.category.clone(),
            size_bytes: self.content.len() as u64,
            created_at: now,
            updated_at: now,
            tags: clone_strings(&m.tags),
            entry_point: m.entry.clone(),
            veilid_identity: Some(m.identity.clone()),
            signature: None,
            chunk_count: 0,
        }
    }

    /// Whether the manifest's signature is valid over `signed_form`, the
    /// serialized manifest with an empty signature. `false` where the
    /// signature or the public key is empty; otherwise as `verify` says.
    pub fn verify_signature(&self, crypto: &CryptoManager, signed_form: &[u8]) -> (r: Result<bool>)
        ensures
            self.manifest.signature@.len() == 0 || self.manifest.public_key@.len() == 0 ==> r == Ok::<
                bool,
                RoseliteError,
            >(false),
            self.manifest.signature@.len() > 0 && self.manifest.public_key@.len() > 0 ==> {
                &&& r is Ok <==> crypto.ready() && is_key_hex(self.manifest.public_key@) && is_signature_hex(
                    self.manifest.signature@,
                ) && ed25519_key_decodes(hex_decoded(self.manifest.public_key@))
                &&& r matches Ok(ok) ==> ok == ed25519_accepts(
                    hex_decoded(self.manifest.public_key@),
                    signed_form@,
                    hex_decoded(self.manifest.signature@),
                )
            },
    {
        if self.manifest.signature.as_str().unicode_len() == 0 || self.manifest.public_key.as_str().unicode_len()
            == 0 {
            return Ok(false);
        }
        crypto.verify(signed_form, self.manifest.signature.as_str(), self.manifest.public_key.as_str())
    }

    /// The site's files: every archive entry but the manifest, in archive
    /// order, with forward slashes in its path. The result depends on the
    /// content alone, so extracting a package twice gives the same files.
    /// Fails with `InvalidFormat` where the content does not decompress or
    /// the archive does not read.
    pub fn extract_files(&self) -> (r: Result<Vec<(String, Vec<u8>)>>)
        ensures
            r is Ok <==> archive_entries(self.content@) is Some,
            r matches Ok(v) ==> entries_view(v@) == site_files(archive_entries(self.content@)->Some_0),
            r matches Err(e) ==> e == RoseliteError::Package(PackageError::InvalidFormat),
    {
        let entries = archive_of(&self.content)?;
        let ghost es = entries_view(entries@);
        let mut out: Vec<(String, Vec<u8>)> = Vec::new();
        let mut i: usize = 0;
        while i < entries.len()
            invariant
                i <= entries@.len(),
                es == entries_view(entries@),
                entries_view(out@) == site_files(es.take(i as int)),
            decreases entries@.len() - i,
        {
            proof {
                assert(es.take(i + 1).drop_last() =~= es.take(i as int));
                assert(es.take(i + 1).last() == (entries@[i as int].0@, entries@[i as int].1@));
            }
            if !is_manifest_path(&entries[i].0) {
                let cs = chars_of(entries[i].0.as_str());
                let mut fixed: Vec<char> = Vec::new();
                let mut k: usize = 0;
                while k < cs.len()
                    invariant
                        k <= cs@.len(),
                        fixed@ == forward_slashes(cs@.take(k as int)),
                    decreases cs@.len() - k,
                {
                    if cs[k] == '\\' {
                        fixed.push('/');
                    } else {
                        fixed.push(cs[k]);
                    }
                    k = k + 1;
                    assert(fixed@ =~= forward_slashes(cs@.take(k as int)));
                }
                assert(cs@.take(k as int) =~= cs@);
                let ghost before = out@;
                out.push((string_of(fixed.as_slice()), vstd::slice::slice_to_vec(entries[i].1.as_slice())));
                assert(entries_view(out@) =~= entries_view(before).push((fixed@, entries@[i as int].1@)));
            }
            i = i + 1;
        }
        assert(es.take(i as int) =~= es);
        Ok(out)
    }

    /// The contents of the entry point file; fails with `InvalidManifest`
    /// where the package has no such file.
    pub fn get_entry_file(&self) -> (r: Result<Vec<u8>>)
        ensures
            archive_entries(self.content@) is None ==> r == Err::<Vec<u8>, RoseliteError>(
                RoseliteError::Package(PackageError::InvalidFormat),
            ),
            archive_entries(self.content@) is Some ==> r != Err::<Vec<u8>, RoseliteError>(
                RoseliteError::Package(PackageError::InvalidFormat),
            ),
            r matches Ok(b) ==> archive_entries(self.content@) is Some && site_files(
                archive_entries(self.content@)->Some_0,
            ).contains((self.manifest.entry@, b@)),
            r matches Err(e) ==> e == RoseliteError::Package(PackageError::InvalidFormat) || (e is Package
                && e->Package_0 is InvalidManifest && archive_entries(self.content@) is Some && forall|k: int|
                0 <= k < site_files(archive_entries(self.content@)->Some_0).len() ==> (#[trigger] site_files(
                archive_entries(self.content@)->Some_0,
            )[k]).0 != self.manifest.entry@),
    {
        match self.get_file(self.manifest.entry.as_str())? {
            Some(b) => Ok(b),
            None => Err(
                RoseliteError::Package(
                    PackageError::InvalidManifest { reason: String::from_str("Entry file not found in package") },
                ),
            ),
        }
    }

    /// The paths of the site's files, in archive order.
    pub fn list_files(&self) -> (r: Result<Vec<String>>)
        ensures
            r is Ok <==> archive_entries(self.content@) is Some,
            r matches Ok(names) ==> names@.map_values(|n: String| n@) == site_files(
                archive_entries(self.content@)->Some_0,
            ).map_values(|e: (Seq<char>, Seq<u8>)| e.0),
    {
        let files = self.extract_files()?;
        let ghost fs = entries_view(files@);
        let mut names: Vec<String> = Vec::new();
        let mut i: usize = 0;
        while i < files.len()
            invariant
                i <= files@.len(),
                fs == entries_view(files@),
                names@.map_values(|n: String| n@) == fs.map_values(|e: (Seq<char>, Seq<u8>)| e.0).take(i as int),
            decreases files@.len() - i,
        {
            let ghost before = names@;
            names.push(files[i].0.clone());
            assert(names@.map_values(|n: String| n@) =~= before.map_values(|n: String| n@).push(files@[i as int].0@));
            i = i + 1;
            assert(names@.map_values(|n: String| n@) =~= fs.map_values(|e: (Seq<char>, Seq<u8>)| e.0).take(i as int));
        }
        assert(fs.map_values(|e: (Seq<char>, Seq<u8>)| e.0).take(i as int) =~= fs.map_values(
            |e: (Seq<char>, Seq<u8>)| e.0,
        ));
        Ok(names)
    }

    /// The contents of the site file at `path`, if the package has one.
    pub fn get_file(&self, path: &str) -> (r: Result<Option<Vec<u8>>>)
        ensures
            r is Ok <==> archive_entries(self.content@) is Some,
            r matches Err(e) ==> e == RoseliteError::Package(PackageError::InvalidFormat),
            r matches Ok(found) ==> (found matches Some(b) ==> site_files(
                archive_entries(self.content@)->Some_0,
            ).contains((path@, b@))),
            r matches Ok(found) ==> (found is None ==> forall|k: int|
                0 <= k < site_files(archive_entries(self.content@)->Some_0).len() ==> (#[trigger] site_files(
                    archive_entries(self.content@)->Some_0,
                )[k]).0 != path@),
    {
        let files = self.extract_files()?;
        let want = chars_of(path);
        let ghost fs = entries_view(files@);
        let mut i: usize = 0;
        while i < files.len()
            invariant
                i <= files@.len(),
                fs == entries_view(files@),
                archive_entries(self.content@) is Some,
                fs == site_files(archive_entries(self.content@)->Some_0),
                want@ == path@,
                forall|k: int| 0 <= k < i ==> (#[trigger] fs[k]).0 != path@,
            decreases files@.len() - i,
        {
            let name = chars_of(files[i].0.as_str());
            if crate::text::chars_eq(name.as_slice(), want.as_slice()) {
                let b = vstd::slice::slice_to_vec(files[i].1.as_slice());
                assert(fs[i as int] == (path@, b@));
                return Ok(Some(b));
            }
            i = i + 1;
        }
        Ok(None)
    }
}


/// Settings for building a package from a site directory.
#[derive(Debug)]
pub struct PackageBuilder {
    pub name: String,
    pub version: String,
    pub description: String,
    pub developer: String,
    pub entry: String,
    pub tags: Vec<String>,
    pub source_dir: String,
    pub slug: Option<String>,
    pub identity: Option<String>,
    pub private_key: Option<String>,
    pub public_key: Option<String>,
}

impl PackageBuilder {
    /// Settings for the site under `source_dir`: version "1.0.0", entry
    /// point "index.html", the name as description, "Anonymous" as
    /// developer, no tags, everything else unset.
    pub fn new(name: String, source_dir: String) -> (r: PackageBuilder)
        ensures
            r.name == name,
            r.source_dir == source_dir,
            r.version@ == "1.0.0"@,
            r.entry@ == "index.html"@,
            r.description == name,
            r.developer@ == "Anonymous"@,
            r.tags@.len() == 0,
            r.slug is None,
            r.identity is None,
            r.private_key is None,
            r.public_key is None,
    {
        let description = name.clone();
        PackageBuilder {
            name,
            version: String::from_str("1.0.0"),
            description,
            developer: String::from_str("Anonymous"),
            entry: String::from_str("index.html"),
            tags: Vec::new(),
            source_dir,
            slug: None,
            identity: None,
            private_key: None,
            public_key: None,
        }
    }

    /// Sets the version.
    pub fn version(self, version: String) -> (r: PackageBuilder)
        ensures
            r == (PackageBuilder { version, ..self }),
    {
        PackageBuilder { version, ..self }
    }

    /// Sets the description.
    pub fn description(self, description: String) -> (r: PackageBuilder)
        ensures
            r == (PackageBuilder { description, ..self }),
    {
        PackageBuilder { description, ..self }
    }

    /// Sets the developer, who is also the author.
    pub fn developer(self, developer: String) -> (r: PackageBuilder)
        ensures
            r == (PackageBuilder { developer, ..self }),
    {
        PackageBuilder { developer, ..self }
    }

    /// Sets the entry point.
    pub fn entry(self, entry: String) -> (r: PackageBuilder)
        ensures
            r == (PackageBuilder { entry, ..self }),
    {
        PackageBuilder { entry, ..self }
    }

    /// Sets the tags.
    pub fn tags(self, tags: Vec<String>) -> (r: PackageBuilder)
        ensures
            r == (PackageBuilder { tags, ..self }),
    {
        PackageBuilder { tags, ..self }
    }

    /// Sets the slug.
    pub fn slug(self, slug: String) -> (r: PackageBuilder)
        ensures
            r == (PackageBuilder { slug: Some(slug), ..self }),
    {
        PackageBuilder { slug: Some(slug), ..self }
    }

    /// Sets the identity (by default the public key).
    pub fn identity(self, identity: String) -> (r: PackageBuilder)
        ensures
            r == (PackageBuilder { identity: Some(identity), ..self }),
    {
        PackageBuilder { identity: Some(identity), ..self }
    }

    /// Sets the hex key pair to sign with.
    pub fn keypair(self, public_key: String, private_key: String) -> (r: PackageBuilder)
        ensures
            r == (PackageBuilder { public_key: Some(public_key), private_key: Some(private_key), ..self }),
    {
        PackageBuilder { public_key: Some(public_key), private_key: Some(private_key), ..self }
    }

    /// The key pair `(public_hex, secret_hex)` to sign with: the one set,
    /// or a fresh one where none is.
    pub fn resolve_keypair(&self, crypto: &CryptoManager) -> (r: Result<(String, String)>)
        ensures
            self.public_key is Some && self.private_key is Some ==> (r matches Ok(pair)
                && pair.0 == self.public_key->Some_0 && pair.1 == self.private_key->Some_0),
            !(self.public_key is Some && self.private_key is Some) ==> (r matches Ok(pair)
                ==> crate::crypto::is_ed25519_pair(pair)),
    {
        match (&self.public_key, &self.private_key) {
            (Some(p), Some(s)) => Ok((p.clone(), s.clone())),
            _ => crypto.generate_keypair(),
        }
    }

    /// The manifest of the package, not yet signed: stamped with `now`,
    /// category "general", the developer as author, format "1.0.0", and the
    /// identity set or else the public key.
    pub fn unsigned_manifest(&self, public_key: &str, now: Timestamp) -> (r: PackageManifest)
        ensures
            r.name == self.name,
            r.version == self.version,
            r.description == self.description,
            r.developer == self.developer,
            r.author == self.developer,
            r.category@ == "general"@,
            r.entry == self.entry,
            r.tags@ == self.tags@,
            r.slug@ == (match self.slug {
                Some(s) => s@,
                None => Seq::empty(),
            }),
            r.identity@ == (match self.identity {
                Some(i) => i@,
                None => public_key@,
            }),
            r.signature@.len() == 0,
            r.format_version@ == "1.0.0"@,
            r.dependencies@.len() == 0,
            r.permissions@.len() == 0,
            r.created_at == now,
            r.updated_at == now,
            r.public_key@ == public_key@,
    {
        let slug = match &self.slug {
            Some(s) => s.clone(),
            None => String::new(),
        };
        let identity = match &self.identity {
            Some(i) => i.clone(),
            None => String::from_str(public_key),
        };
        PackageManifest {
            name: self.name.clone(),
            version: self.version.clone(),
            description: self.description.clone(),
            developer: self.developer.clone(),
            author: self.developer.clone(),
            category: String::from_str("general"),
            entry: self.entry.clone(),
            tags: clone_strings(&self.tags),
            slug,
            identity,
            signature: String::new(),
            format_version: String::from_str("1.0.0"),
            dependencies: Vec::new(),
            permissions: Vec::new(),
            created_at: now,
            updated_at: now,
            public_key: String::from_str(public_key),
        }
    }

    /// Packs the site files and the manifest into a package. `signed_form`
    /// is the serialized `manifest`, stored as the archive's last entry,
    /// `veilid.json`; every entry gets mode 0o644. The archive is
    /// gzip-compressed, and the returned manifest carries the signature of
    /// `signed_form` under `private_key`. Fails with `InvalidManifest` where
    /// the manifest is not acceptable, with `Io` where a path does not fit
    /// the archive, and as `sign` does where the key is not usable.
    pub fn assemble(
        manifest: PackageManifest,
        signed_form: Vec<u8>,
        files: Vec<(String, Vec<u8>)>,
        private_key: &str,
        crypto: &CryptoManager,
    ) -> (r: Result<Package>)
        ensures
            r is Ok <==> manifest_ok(manifest) && crypto.ready() && is_key_hex(private_key@) && tar_of(
                entries_view(files@).push((manifest_name(), signed_form@)),
                FILE_MODE,
            ) is Some,
            !manifest_ok(manifest) ==> (r matches Err(e) && e is Package && e->Package_0 is InvalidManifest),
            manifest_ok(manifest) && tar_of(entries_view(files@).push((manifest_name(), signed_form@)), FILE_MODE)
                is None ==> (r matches Err(e) && e is Io),
            r matches Ok(p) ==> {
                &&& p.content@ == gzip_of(
                    tar_of(entries_view(files@).push((manifest_name(), signed_form@)), FILE_MODE)->Some_0,
                )
                &&& p.manifest.signature@ == hex_of(ed25519_signature(hex_decoded(private_key@), signed_form@))
                &&& p.manifest == (PackageManifest { signature: p.manifest.signature, ..manifest })
                &&& p.size_bytes == p.content@.len()
                &&& p.data@ == p.content@
            },
    {
        Package::validate_manifest(&manifest)?;
        let mut entries = files;
        let name = String::from_str("veilid.json");
        proof {
            reveal_strlit("veilid.json");
            assert(name@ =~= manifest_name());
        }
        let ghost before = entries@;
        let signed_copy = vstd::slice::slice_to_vec(signed_form.as_slice());
        entries.push((name, signed_copy));
        assert(entries_view(entries@) =~= entries_view(before).push((manifest_name(), signed_form@)));
        let tar = match tar_pack(&entries, FILE_MODE) {
            Some(t) => t,
            None => { return Err(RoseliteError::Io(String::from_str("Failed to write package archive"))); },
        };
        let content = gzip(tar.as_slice()).unwrap();
        let signature = crypto.sign(signed_form.as_slice(), private_key)?;
        let mut manifest = manifest;
        manifest.signature = signature;
        let size_bytes = content.len() as u64;
        let data = vstd::slice::slice_to_vec(content.as_slice());
        Ok(Package { manifest, content, size_bytes, data })
    }
}

} // verus!
