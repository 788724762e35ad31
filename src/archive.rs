//! Gzip-compressed tar archives held in memory.
use vstd::prelude::*;

verus! {

/// What gzip decoding makes of `data`: `None` where it is no gzip stream.
pub uninterp spec fn gunzip_of(data: Seq<u8>) -> Option<Seq<u8>>;

/// The gzip stream, at the default level, of `data`.
pub uninterp spec fn gzip_of(data: Seq<u8>) -> Seq<u8>;

/// The entries (path, contents) of a tar archive, in archive order; `None`
/// where `data` is no well-formed archive.
pub uninterp spec fn tar_entries_of(data: Seq<u8>) -> Option<Seq<(Seq<char>, Seq<u8>)>>;

/// The tar archive of the entries (path, contents), each with file mode
/// `mode`; `None` where a path does not fit a tar header.
pub uninterp spec fn tar_of(entries: Seq<(Seq<char>, Seq<u8>)>, mode: u32) -> Option<Seq<u8>>;

/// The views of the entries.
pub open spec fn entries_view(v: Seq<(String, Vec<u8>)>) -> Seq<(Seq<char>, Seq<u8>)> {
    v.map_values(|e: (String, Vec<u8>)| (e.0@, e.1@))
}

/// Relies on flate2's `GzDecoder` read to the end: the decoded bytes, or an
/// error where the input is no gzip stream.
#[verifier::external_body]
pub(crate) fn gunzip(data: &[u8]) -> (r: Option<Vec<u8>>)
    ensures
        r is Some <==> gunzip_of(data@) is Some,
        r matches Some(b) ==> gunzip_of(data@) == Some(b@),
{
    let mut out = Vec::new();
    std::io::Read::read_to_end(&mut flate2::read::GzDecoder::new(data), &mut out).ok().map(|_| out)
}

/// Relies on flate2's `GzEncoder` at `Compression::default()`, writing into
/// memory, which does not fail: the encoder only passes on the errors of
/// the `Vec` it writes to, and writing to a `Vec` never fails.
#[verifier::external_body]
pub(crate) fn gzip(data: &[u8]) -> (r: Option<Vec<u8>>)
    ensures
        r is Some,
        r matches Some(b) ==> b@ == gzip_of(data@),
{
    let mut enc = flate2::write::GzEncoder::new(Vec::new(), flate2::Compression::default());
    std::io::Write::write_all(&mut enc, data).and_then(|_| enc.finish()).ok()
}

/// Relies on tar's `Archive::entries`, with each entry's `path` and its
/// contents read to the end.
#[verifier::external_body]
pub(crate) fn tar_entries(data: &[u8]) -> (r: Option<Vec<(String, Vec<u8>)>>)
    ensures
        r is Some <==> tar_entries_of(data@) is Some,
        r matches Some(v) ==> tar_entries_of(data@) == Some(entries_view(v@)),
{
    let mut archive = tar::Archive::new(data);
    let mut out = Vec::new();
    for entry in archive.entries().ok()? {
        let mut entry = entry.ok()?;
        let path = entry.path().ok()?.to_string_lossy().into_owned();
        let mut body = Vec::new();
        std::io::Read::read_to_end(&mut entry, &mut body).ok()?;
        out.push((path, body));
    }
    Some(out)
}

/// Relies on tar's `Builder::append` with a GNU `Header` holding the path
/// (`set_path`), the size, the mode and the checksum of each entry, and on
/// `Builder::into_inner`.
#[verifier::external_body]
pub(crate) fn tar_pack(entries: &Vec<(String, Vec<u8>)>, mode: u32) -> (r: Option<Vec<u8>>)
    ensures
        r is Some <==> tar_of(entries_view(entries@), mode) is Some,
        r matches Some(b) ==> tar_of(entries_view(entries@), mode) == Some(b@),
{
    let mut builder = tar::Builder::new(Vec::new());
    for (path, body) in entries {
        let mut header = tar::Header::new_gnu();
        header.set_path(path).ok()?;
        header.set_size(body.len() as u64);
        header.set_mode(mode);
        header.set_cksum();
        builder.append(&header, body.as_slice()).ok()?;
    }
    builder.into_inner().ok()
}

} // verus!
