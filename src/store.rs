//! Layout of a package across overlay records.
//!
//! A package's compressed bytes are cut into consecutive record slices of at
//! most `MAX_RECORD_BYTES` bytes; each slice is cut into chunks of at most
//! `CHUNK_SIZE` bytes, one per subkey of a content record.
use vstd::prelude::*;
use vstd::string::*;
use crate::error::{PackageError, Result, RoseliteError, VeilidError};
use crate::types::AppInfo;

verus! {

/// Largest number of content bytes held by one content record.
pub const MAX_RECORD_BYTES: usize = 950_000;

/// Largest number of bytes written to one subkey.
pub const CHUNK_SIZE: usize = 8000;

/// Largest number of chunks in one content record: `MAX_RECORD_BYTES`
/// divided by `CHUNK_SIZE`, rounded up.
pub const MAX_CHUNKS_PER_RECORD: usize = 119;

/// `s` cuts the range `[lo, hi)` into consecutive non-empty spans of `step`
/// bytes each, but for the last one, which may be shorter.
pub open spec fn tiles(s: Seq<(usize, usize)>, lo: int, hi: int, step: int) -> bool {
    &&& (s.len() == 0 <==> lo == hi)
    &&& s.len() > 0 ==> s[0].0 == lo && s.last().1 == hi
    &&& forall|k: int| 0 <= k < s.len() ==> s[k].0 < s[k].1 && s[k].1 - s[k].0 <= step
    &&& forall|k: int|
        0 <= k < s.len() - 1 ==> #[trigger] s[k].1 == s[k + 1].0 && s[k].1 - s[k].0 == step
}

/// Cuts `[lo, hi)` into spans of `step` bytes, the last one possibly shorter.
pub fn split_spans(lo: usize, hi: usize, step: usize) -> (r: Vec<(usize, usize)>)
    requires
        lo <= hi,
        step > 0,
    ensures
        tiles(r@, lo as int, hi as int, step as int),
        r@.len() * step < hi - lo + step,
{
    let mut r: Vec<(usize, usize)> = Vec::new();
    let mut cur: usize = lo;
    while cur < hi
        invariant
            lo <= cur <= hi,
            step > 0,
            r@.len() == 0 <==> cur == lo,
            r@.len() > 0 ==> r@[0].0 == lo && r@.last().1 == cur,
            forall|k: int| 0 <= k < r@.len() ==> r@[k].0 < r@[k].1 && r@[k].1 - r@[k].0 <= step,
            forall|k: int|
                0 <= k < r@.len() - 1 ==> #[trigger] r@[k].1 == r@[k + 1].0 && r@[k].1 - r@[k].0
                    == step,
            cur < hi ==> r@.len() * step == cur - lo,
            cur < hi && r@.len() > 0 ==> r@.last().1 - r@.last().0 == step,
            cur == hi ==> r@.len() * step < hi - lo + step,
        decreases hi - cur,
    {
        let end: usize = if hi - cur > step { cur + step } else { hi };
        let ghost old_r = r@;
        r.push((cur, end));
        proof {
            assert(r@.len() * step == old_r.len() * step + step) by (nonlinear_arith)
                requires r@.len() == old_r.len() + 1;
            assert forall|k: int| 0 <= k < r@.len() - 1 implies #[trigger] r@[k].1 == r@[k + 1].0
                && r@[k].1 - r@[k].0 == step by {
                if k < old_r.len() - 1 {
                    assert(r@[k] == old_r[k] && r@[k + 1] == old_r[k + 1]);
                } else {
                    assert(r@[k] == old_r.last());
                }
            }
        }
        cur = end;
    }
    r
}



/// Concatenation of a sequence of byte strings, in order.
pub open spec fn concat(s: Seq<Seq<u8>>) -> Seq<u8>
    decreases s.len(),
{
    if s.len() == 0 {
        Seq::empty()
    } else {
        concat(s.drop_last()) + s.last()
    }
}

/// The bytes of `c` that each span covers.
pub open spec fn span_bytes(c: Seq<u8>, s: Seq<(usize, usize)>) -> Seq<Seq<u8>> {
    s.map_values(|p: (usize, usize)| c.subrange(p.0 as int, p.1 as int))
}

/// Concatenation distributes over `+`.
pub proof fn lemma_concat_append(a: Seq<Seq<u8>>, b: Seq<Seq<u8>>)
    ensures
        concat(a + b) == concat(a) + concat(b),
    decreases b.len(),
{
    if b.len() == 0 {
        assert(a + b =~= a);
        assert(concat(b) =~= Seq::<u8>::empty());
        assert(concat(a) + concat(b) =~= concat(a));
    } else {
        lemma_concat_append(a, b.drop_last());
        assert((a + b).drop_last() =~= a + b.drop_last());
        assert(concat(a) + concat(b) =~= concat(a) + concat(b.drop_last()) + b.last());
    }
}

proof fn lemma_tiles_prefix(c: Seq<u8>, s: Seq<(usize, usize)>, lo: int, hi: int, step: int, n: int)
    requires
        tiles(s, lo, hi, step),
        0 <= lo <= hi <= c.len(),
        0 <= n <= s.len(),
    ensures
        concat(span_bytes(c, s.take(n))) == c.subrange(lo, if n == 0 { lo } else { s[n - 1].1 as int }),
    decreases n,
{
    if n == 0 {
        assert(span_bytes(c, s.take(0)) =~= Seq::<Seq<u8>>::empty());
        assert(c.subrange(lo, lo) =~= Seq::<u8>::empty());
    } else {
        lemma_tiles_prefix(c, s, lo, hi, step, n - 1);
        assert(span_bytes(c, s.take(n)).drop_last() =~= span_bytes(c, s.take(n - 1)));
        let start = if n - 1 == 0 { lo } else { s[n - 2].1 as int };
        assert(s[n - 1].0 == start) by {
            if n - 1 > 0 {
                assert(s[n - 2].1 == s[n - 1].0);
            }
        }
        // every span ends inside [lo, hi]
        assert forall|k: int| 0 <= k < s.len() implies lo <= s[k].0 && s[k].1 <= hi by {
            lemma_tiles_bounds(s, lo, hi, step, k);
        }
        assert(c.subrange(lo, start) + c.subrange(start, s[n - 1].1 as int) =~= c.subrange(
            lo,
            s[n - 1].1 as int,
        ));
    }
}

proof fn lemma_tiles_bounds(s: Seq<(usize, usize)>, lo: int, hi: int, step: int, k: int)
    requires
        tiles(s, lo, hi, step),
        0 <= k < s.len(),
    ensures
        lo <= s[k].0,
        s[k].1 <= hi,
    decreases s.len() - k,
{
    lemma_tiles_lower(s, lo, hi, step, k);
    if k < s.len() - 1 {
        lemma_tiles_bounds(s, lo, hi, step, k + 1);
        assert(s[k].1 == s[k + 1].0);
    }
}

proof fn lemma_tiles_lower(s: Seq<(usize, usize)>, lo: int, hi: int, step: int, k: int)
    requires
        tiles(s, lo, hi, step),
        0 <= k < s.len(),
    ensures
        lo <= s[k].0,
    decreases k,
{
    if k > 0 {
        lemma_tiles_lower(s, lo, hi, step, k - 1);
        assert(s[k - 1].1 == s[k].0);
    }
}

/// The spans of a tiling, taken from `c`, put back together give `c[lo..hi]`.
pub proof fn lemma_tiles_concat(c: Seq<u8>, s: Seq<(usize, usize)>, lo: int, hi: int, step: int)
    requires
        tiles(s, lo, hi, step),
        0 <= lo <= hi <= c.len(),
    ensures
        concat(span_bytes(c, s)) == c.subrange(lo, hi),
{
    lemma_tiles_prefix(c, s, lo, hi, step, s.len() as int);
    assert(s.take(s.len() as int) =~= s);
}

/// Where one content record's bytes come from: the range `[start, end)` of
/// the package content, and the chunk ranges within it, one per subkey.
#[derive(Debug)]
pub struct RecordPlan {
    pub start: usize,
    pub end: usize,
    pub chunks: Vec<(usize, usize)>,
}

/// The content ranges of the records of a plan.
pub open spec fn record_spans(p: Seq<RecordPlan>) -> Seq<(usize, usize)> {
    p.map_values(|r: RecordPlan| (r.start, r.end))
}

/// `p` lays out `len` bytes: records of `MAX_RECORD_BYTES` bytes (the last
/// one possibly shorter), each cut into chunks of `CHUNK_SIZE` bytes (the
/// last one of each record possibly shorter), at most
/// `MAX_CHUNKS_PER_RECORD` chunks a record.
pub open spec fn is_publish_plan(p: Seq<RecordPlan>, len: int) -> bool {
    &&& tiles(record_spans(p), 0, len, MAX_RECORD_BYTES as int)
    &&& forall|k: int|
        0 <= k < p.len() ==> tiles(#[trigger] p[k].chunks@, p[k].start as int, p[k].end as int, CHUNK_SIZE as int)
            && p[k].chunks@.len() <= MAX_CHUNKS_PER_RECORD
}

/// Lays out a package of `content_len` bytes over content records.
pub fn plan_publish(content_len: usize) -> (r: Vec<RecordPlan>)
    ensures
        is_publish_plan(r@, content_len as int),
{
    let spans = split_spans(0, content_len, MAX_RECORD_BYTES);
    let mut r: Vec<RecordPlan> = Vec::new();
    let mut i: usize = 0;
    while i < spans.len()
        invariant
            i <= spans@.len(),
            tiles(spans@, 0, content_len as int, MAX_RECORD_BYTES as int),
            r@.len() == i,
            forall|k: int| 0 <= k < i ==> (#[trigger] r@[k]).start == spans@[k].0 && r@[k].end == spans@[k].1,
            forall|k: int|
                0 <= k < i ==> tiles(#[trigger] r@[k].chunks@, r@[k].start as int, r@[k].end as int, CHUNK_SIZE as int)
                    && r@[k].chunks@.len() <= MAX_CHUNKS_PER_RECORD,
        decreases spans@.len() - i,
    {
        let (start, end) = spans[i];
        let chunks = split_spans(start, end, CHUNK_SIZE);
        assert(chunks@.len() <= MAX_CHUNKS_PER_RECORD);
        r.push(RecordPlan { start, end, chunks });
        i = i + 1;
    }
    assert(record_spans(r@) =~= spans@);
    r
}

/// Lays out package content for publishing; empty content is no package
/// and is refused with `InvalidFormat`.
pub fn plan_content(content: &Vec<u8>) -> (r: Result<Vec<RecordPlan>>)
    ensures
        r is Err <==> content@.len() == 0,
        r matches Err(e) ==> e == RoseliteError::Package(PackageError::InvalidFormat),
        r matches Ok(p) ==> is_publish_plan(p@, content@.len() as int) && p@.len() > 0,
{
    if content.len() == 0 {
        return Err(RoseliteError::Package(PackageError::InvalidFormat));
    }
    let p = plan_publish(content.len());
    proof {
        if p@.len() == 0 {
            assert(record_spans(p@).len() == 0);
        }
    }
    Ok(p)
}

/// The bytes `content[span.0..span.1]`: what one subkey receives.
pub fn chunk_bytes(content: &Vec<u8>, span: (usize, usize)) -> (r: Vec<u8>)
    requires
        span.0 <= span.1 <= content@.len(),
    ensures
        r@ == content@.subrange(span.0 as int, span.1 as int),
{
    let mut r: Vec<u8> = Vec::new();
    let mut i: usize = span.0;
    while i < span.1
        invariant
            span.0 <= i <= span.1 <= content@.len(),
            r@ == content@.subrange(span.0 as int, i as int),
        decreases span.1 - i,
    {
        r.push(content[i]);
        i = i + 1;
        assert(r@ =~= content@.subrange(span.0 as int, i as int));
    }
    r
}

/// The chunks that publishing writes, in reassembly order: record by
/// record, and within a record subkey by subkey.
pub open spec fn published_chunks(c: Seq<u8>, p: Seq<RecordPlan>) -> Seq<Seq<u8>>
    decreases p.len(),
{
    if p.len() == 0 {
        Seq::empty()
    } else {
        published_chunks(c, p.drop_last()) + span_bytes(c, p.last().chunks@)
    }
}

proof fn lemma_published_prefix(c: Seq<u8>, p: Seq<RecordPlan>, n: int)
    requires
        is_publish_plan(p, c.len() as int),
        0 <= n <= p.len(),
    ensures
        concat(published_chunks(c, p.take(n))) == c.subrange(0, if n == 0 { 0 } else { p[n - 1].end as int }),
    decreases n,
{
    if n == 0 {
        assert(published_chunks(c, p.take(0)) =~= Seq::<Seq<u8>>::empty());
        assert(c.subrange(0, 0) =~= Seq::<u8>::empty());
    } else {
        lemma_published_prefix(c, p, n - 1);
        let s = record_spans(p);
        let q = p.take(n);
        let rec = p[n - 1];
        let before = published_chunks(c, p.take(n - 1));
        let mine = span_bytes(c, rec.chunks@);
        assert(q.drop_last() =~= p.take(n - 1));
        assert(q.last() == rec);
        assert(published_chunks(c, q) == before + mine);
        let prev = if n - 1 == 0 { 0 } else { p[n - 2].end as int };
        assert(s[n - 1] == (rec.start, rec.end));
        assert(rec.start == prev) by {
            if n - 1 > 0 {
                assert(s[n - 2] == (p[n - 2].start, p[n - 2].end));
                assert(s[n - 2].1 == s[n - 1].0);
            }
        }
        lemma_tiles_bounds(s, 0, c.len() as int, MAX_RECORD_BYTES as int, n - 1);
        assert(tiles(rec.chunks@, rec.start as int, rec.end as int, CHUNK_SIZE as int));
        lemma_tiles_concat(c, rec.chunks@, rec.start as int, rec.end as int, CHUNK_SIZE as int);
        lemma_concat_append(before, mine);
        assert(c.subrange(0, prev) + c.subrange(prev, rec.end as int) =~= c.subrange(0, rec.end as int));
    }
}

/// Putting the published chunks back together in reassembly order gives
/// the package content back.
pub proof fn lemma_publish_reassembles(c: Seq<u8>, p: Seq<RecordPlan>)
    requires
        is_publish_plan(p, c.len() as int),
    ensures
        concat(published_chunks(c, p)) == c,
{
    lemma_published_prefix(c, p, p.len() as int);
    assert(p.take(p.len() as int) =~= p);
    if p.len() > 0 {
        assert(record_spans(p).last() == (p.last().start, p.last().end));
    }
    assert(c.subrange(0, c.len() as int) =~= c);
}

/// Location of one content record within the lookup record.
#[derive(Debug)]
pub struct PackageRecord {
    pub record_key: String,
    pub chunk_count: usize,
    pub size_bytes: usize,
}

impl PackageRecord {
    /// The entry for a content record created under `record_key` and filled
    /// as `plan` says.
    pub fn from_plan(record_key: String, plan: &RecordPlan) -> (r: PackageRecord)
        requires
            plan.start <= plan.end,
        ensures
            r.record_key == record_key,
            r.chunk_count == plan.chunks@.len(),
            r.size_bytes == plan.end - plan.start,
    {
        PackageRecord { record_key, chunk_count: plan.chunks.len(), size_bytes: plan.end - plan.start }
    }
}

/// The only schema of lookup records.
pub open spec fn schema_v1() -> Seq<char> {
    seq!['1', '.', '0']
}

/// Metadata stored at subkey 0 of a package's lookup record.
#[derive(Debug)]
pub struct LookupRecord {
    pub app_info: AppInfo,
    pub package_records: Vec<PackageRecord>,
    pub total_size_bytes: usize,
    pub schema_version: String,
}

impl LookupRecord {
    /// A lookup record of the current schema.
    pub fn new(app_info: AppInfo, package_records: Vec<PackageRecord>, total_size_bytes: usize) -> (r: LookupRecord)
        ensures
            r.app_info == app_info,
            r.package_records == package_records,
            r.total_size_bytes == total_size_bytes,
            r.schema_version@ == schema_v1(),
    {
        let schema_version = String::from_str("1.0");
        proof {
            reveal_strlit("1.0");
        }
        LookupRecord { app_info, package_records, total_size_bytes, schema_version }
    }
}

/// Largest serialized size of a lookup record.
pub const MAX_LOOKUP_BYTES: usize = 1_000_000;

/// The message of a lookup record over the size limit.
pub open spec fn lookup_too_large_text() -> Seq<char> {
    "Lookup record metadata exceeds 1MB limit"@
}

/// Refuses a serialized lookup record larger than `MAX_LOOKUP_BYTES`.
pub fn check_lookup_size(serialized_len: usize) -> (r: Result<()>)
    ensures
        r is Ok <==> serialized_len <= MAX_LOOKUP_BYTES,
        r matches Err(e) ==> (e matches RoseliteError::ValidationError(m) && m@ == lookup_too_large_text()),
{
    if serialized_len > MAX_LOOKUP_BYTES {
        Err(RoseliteError::ValidationError(String::from_str("Lookup record metadata exceeds 1MB limit")))
    } else {
        Ok(())
    }
}


/// The subkeys that hold one content record's chunks, in order.
pub open spec fn record_fetches(r: PackageRecord) -> Seq<(Seq<char>, u32)> {
    Seq::new(r.chunk_count as nat, |i: int| (r.record_key@, i as u32))
}

/// The subkeys to read, in order, to reassemble a package from its records.
pub open spec fn fetch_order(rs: Seq<PackageRecord>) -> Seq<(Seq<char>, u32)>
    decreases rs.len(),
{
    if rs.len() == 0 {
        Seq::empty()
    } else {
        fetch_order(rs.drop_last()) + record_fetches(rs.last())
    }
}

/// Reassembly of a package from its content records. The caller reads the
/// subkeys that `next_fetch` names and hands each result to `accept`.
pub struct Download {
    fetches: Vec<(String, u32)>,
    total: usize,
    buffer: Vec<u8>,
    count: usize,
    received: Ghost<Seq<Seq<u8>>>,
}

impl Download {
    /// The subkeys to read, in order.
    pub closed spec fn order(&self) -> Seq<(Seq<char>, u32)> {
        self.fetches@.map_values(|f: (String, u32)| (f.0@, f.1))
    }

    /// The chunks received so far, in order.
    pub closed spec fn received(&self) -> Seq<Seq<u8>> {
        self.received@
    }

    /// The size that the lookup record announces.
    pub closed spec fn total(&self) -> nat {
        self.total as nat
    }

    pub closed spec fn wf(&self) -> bool {
        &&& self.received@.len() <= self.fetches@.len()
        &&& self.count == self.received@.len()
        &&& self.buffer@ == concat(self.received@)
    }

    /// Every subkey has been read.
    pub open spec fn is_done(&self) -> bool {
        self.received().len() == self.order().len()
    }

    /// Starts reassembling the package that `lookup` describes. A lookup
    /// record of another schema than "1.0" is refused.
    pub fn start(lookup: &LookupRecord) -> (r: Result<Download>)
        ensures
            r is Ok <==> lookup.schema_version@ == schema_v1(),
            r matches Ok(d) ==> d.wf() && d.order() == fetch_order(lookup.package_records@)
                && d.received() == Seq::<Seq<u8>>::empty() && d.total() == lookup.total_size_bytes,
            r matches Err(e) ==> e is ValidationError,
    {
        let sv = crate::text::chars_of(lookup.schema_version.as_str());
        let v1 = crate::text::chars_of("1.0");
        proof {
            reveal_strlit("1.0");
            assert("1.0"@ =~= schema_v1());
        }
        if !crate::text::chars_eq(sv.as_slice(), v1.as_slice()) {
            return Err(RoseliteError::ValidationError(String::from_str("Unsupported lookup record schema")));
        }
        let records = &lookup.package_records;
        let mut fetches: Vec<(String, u32)> = Vec::new();
        let mut i: usize = 0;
        while i < records.len()
            invariant
                i <= records@.len(),
                fetches@.map_values(|f: (String, u32)| (f.0@, f.1)) == fetch_order(records@.take(i as int)),
            decreases records@.len() - i,
        {
            let rec = &records[i];
            let mut j: usize = 0;
            while j < rec.chunk_count
                invariant
                    i < records@.len(),
                    *rec == records@[i as int],
                    j <= rec.chunk_count,
                    fetches@.map_values(|f: (String, u32)| (f.0@, f.1)) == fetch_order(records@.take(i as int))
                        + record_fetches(*rec).take(j as int),
                decreases rec.chunk_count - j,
            {
                let ghost before = fetches@;
                fetches.push((rec.record_key.clone(), #[verifier::truncate] (j as u32)));
                assert(fetches@.map_values(|f: (String, u32)| (f.0@, f.1)) =~= before.map_values(
                    |f: (String, u32)| (f.0@, f.1),
                ).push((rec.record_key@, j as u32)));
                j = j + 1;
                assert(record_fetches(*rec).take(j as int) =~= record_fetches(*rec).take(j - 1).push(
                    (rec.record_key@, (j - 1) as u32),
                ));
                assert(fetches@.map_values(|f: (String, u32)| (f.0@, f.1)) =~= fetch_order(records@.take(i as int))
                    + record_fetches(*rec).take(j as int));
            }
            assert(record_fetches(*rec).take(j as int) =~= record_fetches(*rec));
            assert(records@.take(i + 1).drop_last() =~= records@.take(i as int));
            i = i + 1;
        }
        assert(records@.take(i as int) =~= records@);
        let d = Download { fetches, total: lookup.total_size_bytes, buffer: Vec::new(), count: 0, received: Ghost(Seq::empty()) };
        assert(d.buffer@ =~= concat(d.received@));
        Ok(d)
    }

    /// The next subkey to read, or `None` once every chunk has arrived.
    pub fn next_fetch(&self) -> (r: Option<(String, u32)>)
        requires
            self.wf(),
        ensures
            r is None <==> self.is_done(),
            r matches Some(f) ==> (f.0@, f.1) == self.order()[self.received().len() as int],
    {
        let pos = self.count;
        if pos < self.fetches.len() {
            let f = &self.fetches[pos];
            Some((f.0.clone(), f.1))
        } else {
            None
        }
    }

    /// Hands over what the read of the next subkey returned: the chunk, or
    /// `None` where the subkey held nothing, which fails the download with
    /// `AppNotFound` naming the record.
    pub fn accept(&mut self, chunk: Option<Vec<u8>>) -> (r: Result<()>)
        requires
            old(self).wf(),
            !old(self).is_done(),
        ensures
            final(self).wf(),
            final(self).order() == old(self).order(),
            final(self).total() == old(self).total(),
            chunk is None ==> final(self).received() == old(self).received(),
            chunk is None ==> (r matches Err(RoseliteError::Veilid(VeilidError::AppNotFound { app_id }))
                && app_id@ == old(self).order()[old(self).received().len() as int].0),
            chunk matches Some(b) ==> r is Ok && final(self).received() == old(self).received().push(b@),
    {
        let pos = self.count;
        assert(self.order().len() == self.fetches@.len());
        let n: usize = self.fetches.len();
        assert(pos < n);
        match chunk {
            None => {
                let key = self.fetches[pos].0.clone();
                Err(RoseliteError::Veilid(VeilidError::AppNotFound { app_id: key }))
            },
            Some(b) => {
                let ghost old_buf = self.buffer@;
                let ghost old_rec = self.received@;
                let mut k: usize = 0;
                while k < b.len()
                    invariant
                        k <= b@.len(),
                        self.buffer@ == old_buf + b@.subrange(0, k as int),
                        self.fetches == old(self).fetches,
                        self.total == old(self).total,
                        self.received == old(self).received,
                        self.count == old(self).count,
                    decreases b@.len() - k,
                {
                    self.buffer.push(b[k]);
                    k = k + 1;
                    assert(self.buffer@ =~= old_buf + b@.subrange(0, k as int));
                }
                assert(b@.subrange(0, b@.len() as int) =~= b@);
                self.received = Ghost(old_rec.push(b@));
                assert(self.received@.drop_last() =~= old_rec);
                self.count = pos + 1;
                Ok(())
            },
        }
    }

    /// Ends the download: the reassembled content, or `ValidationError`
    /// where its size differs from the size the lookup record announced.
    pub fn finish(self) -> (r: Result<Vec<u8>>)
        requires
            self.wf(),
            self.is_done(),
        ensures
            r is Ok <==> concat(self.received()).len() == self.total(),
            r matches Ok(b) ==> b@ == concat(self.received()),
            r matches Err(e) ==> e is ValidationError,
    {
        if self.buffer.len() != self.total {
            Err(RoseliteError::ValidationError(String::from_str("Downloaded content size doesn't match expected size")))
        } else {
            Ok(self.buffer)
        }
    }
}


/// Sum of the sizes of the records.
pub open spec fn records_size(rs: Seq<PackageRecord>) -> int
    decreases rs.len(),
{
    if rs.len() == 0 {
        0
    } else {
        records_size(rs.drop_last()) + rs.last().size_bytes
    }
}

/// `rs` are the entries of the records filled as `p` says, in order.
pub open spec fn records_follow_plan(rs: Seq<PackageRecord>, p: Seq<RecordPlan>) -> bool {
    &&& rs.len() == p.len()
    &&& forall|k: int|
        0 <= k < rs.len() ==> (#[trigger] rs[k]).chunk_count == p[k].chunks@.len() && rs[k].size_bytes == p[k].end
            - p[k].start
}

proof fn lemma_round_trip_prefix(c: Seq<u8>, p: Seq<RecordPlan>, rs: Seq<PackageRecord>, n: int)
    requires
        is_publish_plan(p, c.len() as int),
        records_follow_plan(rs, p),
        0 <= n <= p.len(),
    ensures
        fetch_order(rs.take(n)).len() == published_chunks(c, p.take(n)).len(),
        records_size(rs.take(n)) == if n == 0 { 0 } else { p[n - 1].end as int },
    decreases n,
{
    if n == 0 {
        assert(rs.take(0) =~= Seq::<PackageRecord>::empty());
        assert(p.take(0) =~= Seq::<RecordPlan>::empty());
    } else {
        lemma_round_trip_prefix(c, p, rs, n - 1);
        assert(rs.take(n).drop_last() =~= rs.take(n - 1));
        assert(p.take(n).drop_last() =~= p.take(n - 1));
        assert(rs.take(n).last() == rs[n - 1]);
        assert(p.take(n).last() == p[n - 1]);
        let s = record_spans(p);
        assert(s[n - 1] == (p[n - 1].start, p[n - 1].end));
        if n > 1 {
            assert(s[n - 2] == (p[n - 2].start, p[n - 2].end));
            assert(s[n - 2].1 == s[n - 1].0);
        }
    }
}

/// Publishing then downloading gives the content back: the records made
/// from a plan name, in reassembly order, one subkey for each chunk that
/// publishing writes; their sizes add up to the content's length; and the
/// chunks put back together in that order are the content.
pub proof fn lemma_round_trip(c: Seq<u8>, p: Seq<RecordPlan>, rs: Seq<PackageRecord>)
    requires
        is_publish_plan(p, c.len() as int),
        records_follow_plan(rs, p),
    ensures
        fetch_order(rs).len() == published_chunks(c, p).len(),
        records_size(rs) == c.len(),
        concat(published_chunks(c, p)) == c,
{
    lemma_round_trip_prefix(c, p, rs, p.len() as int);
    assert(rs.take(rs.len() as int) =~= rs);
    assert(p.take(p.len() as int) =~= p);
    if p.len() > 0 {
        assert(record_spans(p).last() == (p.last().start, p.last().end));
    }
    lemma_publish_reassembles(c, p);
}


/// The chunk ranges of a plan, record by record, in writing order.
pub open spec fn plan_spans(p: Seq<RecordPlan>) -> Seq<(usize, usize)>
    decreases p.len(),
{
    if p.len() == 0 {
        Seq::empty()
    } else {
        plan_spans(p.drop_last()) + p.last().chunks@
    }
}

proof fn lemma_plan_spans_bytes(c: Seq<u8>, p: Seq<RecordPlan>)
    ensures
        span_bytes(c, plan_spans(p)) == published_chunks(c, p),
    decreases p.len(),
{
    if p.len() > 0 {
        lemma_plan_spans_bytes(c, p.drop_last());
        assert(span_bytes(c, plan_spans(p)) =~= span_bytes(c, plan_spans(p.drop_last())) + span_bytes(
            c,
            p.last().chunks@,
        ));
    }
}

/// The chunk ranges that publishing writes, put back together in writing
/// order, give the content.
pub proof fn lemma_spans_reassemble(c: Seq<u8>, p: Seq<RecordPlan>)
    requires
        is_publish_plan(p, c.len() as int),
    ensures
        concat(span_bytes(c, plan_spans(p))) == c,
{
    lemma_plan_spans_bytes(c, p);
    lemma_publish_reassembles(c, p);
}

/// Publishing then downloading gives the content back. `Publisher` writes
/// the ranges `plan_spans(p)` of `c`, in order, to the subkeys
/// `fetch_order(rs)` of the records it returns; `Download` reads those
/// subkeys in that order. Where each read returns what the write to that
/// subkey stored, the chunks received put back together are `c`, and their
/// number is the number of reads.
pub proof fn lemma_publish_then_download(c: Seq<u8>, p: Seq<RecordPlan>, rs: Seq<PackageRecord>, received: Seq<Seq<u8>>)
    requires
        is_publish_plan(p, c.len() as int),
        records_follow_plan(rs, p),
        received.len() == plan_spans(p).len(),
        forall|i: int|
            0 <= i < received.len() ==> #[trigger] received[i] == c.subrange(
                plan_spans(p)[i].0 as int,
                plan_spans(p)[i].1 as int,
            ),
    ensures
        concat(received) == c,
        received.len() == fetch_order(rs).len(),
{
    assert(received =~= span_bytes(c, plan_spans(p)));
    lemma_spans_reassemble(c, p);
    lemma_plan_spans_bytes(c, p);
    lemma_round_trip(c, p, rs);
}

/// What publishing does next.
#[derive(Debug)]
pub enum PublishStep {
    /// Create a content record with this many subkeys, then report its key
    /// to `record_created`.
    CreateRecord { columns: usize },
    /// Write `content[span.0..span.1]` to this subkey, then report to
    /// `chunk_written`.
    WriteChunk { record_key: String, subkey: u32, span: (usize, usize) },
    /// Every content record is written; `records` gives their entries.
    Finished,
}

/// The writing of a package's content records, step by step: records are
/// created and filled one after the other, each subkey by subkey in order.
pub struct Publisher {
    plan: Vec<RecordPlan>,
    len: usize,
    rec: usize,
    key: Option<String>,
    chunk: usize,
    records: Vec<PackageRecord>,
    writes: Ghost<Seq<(Seq<char>, u32)>>,
    spans: Ghost<Seq<(usize, usize)>>,
}

/// The subkeys `0..n` of the record `key`.
pub open spec fn first_subkeys(key: Seq<char>, n: nat) -> Seq<(Seq<char>, u32)> {
    Seq::new(n, |i: int| (key, i as u32))
}

impl Publisher {
    /// The layout being written.
    pub closed spec fn plan(&self) -> Seq<RecordPlan> {
        self.plan@
    }

    /// The length of the content.
    pub closed spec fn content_len(&self) -> nat {
        self.len as nat
    }

    /// The subkeys written so far, in order.
    pub closed spec fn writes(&self) -> Seq<(Seq<char>, u32)> {
        self.writes@
    }

    /// The content ranges written so far, one for each write, in order.
    pub closed spec fn spans(&self) -> Seq<(usize, usize)> {
        self.spans@
    }

    /// The entries of the records completed so far.
    pub closed spec fn done(&self) -> Seq<PackageRecord> {
        self.records@
    }

    /// Every record is written.
    pub closed spec fn finished(&self) -> bool {
        self.rec == self.plan@.len()
    }

    /// A record has been created and awaits its chunks.
    pub closed spec fn filling(&self) -> bool {
        self.key is Some
    }

    /// The key of the record being filled.
    pub closed spec fn current_key(&self) -> Seq<char> {
        match self.key {
            Some(k) => k@,
            None => Seq::empty(),
        }
    }

    pub closed spec fn wf(&self) -> bool {
        &&& is_publish_plan(self.plan@, self.len as int)
        &&& self.rec <= self.plan@.len()
        &&& self.records@.len() == self.rec
        &&& records_follow_plan(self.records@, self.plan@.take(self.rec as int))
        &&& self.key is Some ==> self.rec < self.plan@.len() && self.chunk < self.plan@[self.rec as int].chunks@.len()
        &&& self.key is None ==> self.chunk == 0
        &&& self.spans@ == plan_spans(self.plan@.take(self.rec as int)) + if self.key is Some {
            self.plan@[self.rec as int].chunks@.take(self.chunk as int)
        } else {
            Seq::empty()
        }
        &&& self.writes@ == fetch_order(self.records@) + match self.key {
            Some(k) => first_subkeys(k@, self.chunk as nat),
            None => Seq::empty(),
        }
    }

    /// Starts publishing `content`; empty content is refused with
    /// `InvalidFormat`.
    pub fn start(content: &Vec<u8>) -> (r: Result<Publisher>)
        ensures
            r is Err <==> content@.len() == 0,
            r matches Err(e) ==> e == RoseliteError::Package(PackageError::InvalidFormat),
            r matches Ok(p) ==> p.wf() && p.content_len() == content@.len() && is_publish_plan(p.plan(), content@.len() as int)
                && p.writes() == Seq::<(Seq<char>, u32)>::empty() && p.done() == Seq::<PackageRecord>::empty()
                && p.spans() == Seq::<(usize, usize)>::empty()
                && !p.filling(),
    {
        let plan = plan_content(content)?;
        let p = Publisher {
            plan,
            len: content.len(),
            rec: 0,
            key: None,
            chunk: 0,
            records: Vec::new(),
            writes: Ghost(Seq::empty()),
            spans: Ghost(Seq::empty()),
        };
        assert(p.spans@ =~= plan_spans(p.plan@.take(0)) + Seq::<(usize, usize)>::empty());
        assert(p.plan@.take(0) =~= Seq::<RecordPlan>::empty());
        assert(p.writes@ =~= fetch_order(p.records@) + Seq::<(Seq<char>, u32)>::empty());
        Ok(p)
    }

    /// The next step: create the next record, write the next chunk of the
    /// current one, or finish.
    pub fn next_step(&self) -> (r: PublishStep)
        requires
            self.wf(),
        ensures
            r is Finished <==> self.finished(),
            r matches PublishStep::CreateRecord { columns } ==> !self.filling() && columns
                == self.plan()[self.done().len() as int].chunks@.len() && 1 <= columns <= MAX_CHUNKS_PER_RECORD,
            r matches PublishStep::WriteChunk { record_key, subkey, span } ==> self.filling() && {
                let k = self.done().len() as int;
                let j = self.writes().len() - fetch_order(self.done()).len();
                &&& 0 <= j < self.plan()[k].chunks@.len()
                &&& record_key@ == self.current_key()
                &&& subkey == j as u32
                &&& span == self.plan()[k].chunks@[j]
                &&& span.1 - span.0 <= CHUNK_SIZE
                &&& span.0 < span.1 <= self.content_len()
            },
    {
        if self.rec == self.plan.len() {
            return PublishStep::Finished;
        }
        let rp = &self.plan[self.rec];
        proof {
            let s = record_spans(self.plan@);
            assert(s[self.rec as int] == (rp.start, rp.end));
            assert(tiles(rp.chunks@, rp.start as int, rp.end as int, CHUNK_SIZE as int));
            lemma_tiles_bounds(s, 0, self.len as int, MAX_RECORD_BYTES as int, self.rec as int);
        }
        match &self.key {
            None => PublishStep::CreateRecord { columns: rp.chunks.len() },
            Some(k) => {
                proof {
                    lemma_tiles_bounds(rp.chunks@, rp.start as int, rp.end as int, CHUNK_SIZE as int, self.chunk as int);
                    assert(self.writes@.len() == fetch_order(self.records@).len() + self.chunk);
                }
                PublishStep::WriteChunk {
                    record_key: k.clone(),
                    subkey: #[verifier::truncate] (self.chunk as u32),
                    span: rp.chunks[self.chunk],
                }
            },
        }
    }

    /// Reports the key of the record that `CreateRecord` asked for.
    pub fn record_created(&mut self, key: String)
        requires
            old(self).wf(),
            !old(self).finished(),
            !old(self).filling(),
        ensures
            final(self).wf(),
            final(self).filling(),
            final(self).current_key() == key@,
            final(self).plan() == old(self).plan(),
            final(self).content_len() == old(self).content_len(),
            final(self).writes() == old(self).writes(),
            final(self).spans() == old(self).spans(),
            final(self).done() == old(self).done(),
    {
        proof {
            let rp = self.plan@[self.rec as int];
            let s = record_spans(self.plan@);
            assert(s[self.rec as int] == (rp.start, rp.end));
            assert(tiles(rp.chunks@, rp.start as int, rp.end as int, CHUNK_SIZE as int));
        }
        let ghost k = key@;
        self.key = Some(key);
        assert(first_subkeys(k, 0) =~= Seq::<(Seq<char>, u32)>::empty());
        assert(self.writes@ =~= fetch_order(self.records@) + first_subkeys(k, 0));
        assert(self.spans@ =~= plan_spans(self.plan@.take(self.rec as int)) + self.plan@[self.rec as int].chunks@.take(0));
    }

    /// Reports that the chunk `WriteChunk` asked for is written.
    pub fn chunk_written(&mut self)
        requires
            old(self).wf(),
            old(self).filling(),
        ensures
            final(self).wf(),
            final(self).plan() == old(self).plan(),
            final(self).content_len() == old(self).content_len(),
            final(self).writes() == old(self).writes().push(
                (old(self).current_key(), (old(self).writes().len() - fetch_order(old(self).done()).len()) as u32),
            ),
            final(self).spans() == old(self).spans().push(
                old(self).plan()[old(self).done().len() as int].chunks@[old(self).writes().len() - fetch_order(
                    old(self).done(),
                ).len()],
            ),
    {
        let ghost old_writes = self.writes@;
        let ghost old_records = self.records@;
        let ghost k = self.key->Some_0@;
        let ghost c = self.chunk;
        proof {
            assert(self.writes@.len() == fetch_order(self.records@).len() + self.chunk);
        }
        self.writes = Ghost(old_writes.push((k, c as u32)));
        let ghost old_spans = self.spans@;
        let ghost sp = self.plan@[self.rec as int].chunks@[c as int];
        self.spans = Ghost(old_spans.push(sp));
        let r: usize = self.rec;
        let total: usize = self.plan.len();
        assert(r < total);
        let n = self.plan[r].chunks.len();
        if self.chunk + 1 < n {
            self.chunk = self.chunk + 1;
            assert(self.writes@ =~= fetch_order(self.records@) + first_subkeys(k, self.chunk as nat));
            assert(self.plan@[r as int].chunks@.take(self.chunk as int) =~= self.plan@[r as int].chunks@.take(c as int).push(sp));
            assert(self.spans@ =~= plan_spans(self.plan@.take(self.rec as int)) + self.plan@[self.rec as int].chunks@.take(
                self.chunk as int,
            ));
        } else {
            let key = self.key.take().unwrap();
            proof {
                let rp = self.plan@[self.rec as int];
                let s = record_spans(self.plan@);
                assert(s[self.rec as int] == (rp.start, rp.end));
            }
            let entry = PackageRecord::from_plan(key, &self.plan[self.rec]);
            self.records.push(entry);
            self.rec = r + 1;
            self.chunk = 0;
            proof {
                assert(self.records@.drop_last() =~= old_records);
                assert(record_fetches(entry) =~= first_subkeys(k, c as nat + 1));
                assert(self.writes@ =~= fetch_order(self.records@));
                assert(self.writes@ =~= fetch_order(self.records@) + Seq::<(Seq<char>, u32)>::empty());
                assert(self.plan@.take(self.rec as int).drop_last() =~= self.plan@.take(self.rec - 1));
                assert(self.plan@.take(self.rec as int).last() == self.plan@[r as int]);
                assert(self.plan@[r as int].chunks@.take(c + 1) =~= self.plan@[r as int].chunks@);
                assert(self.plan@[r as int].chunks@.take(c as int).push(sp) =~= self.plan@[r as int].chunks@.take(c + 1));
                assert(self.spans@ =~= plan_spans(self.plan@.take(self.rec as int)));
                assert(self.spans@ =~= plan_spans(self.plan@.take(self.rec as int)) + Seq::<(usize, usize)>::empty());
                assert forall|j: int| 0 <= j < self.records@.len() implies (#[trigger] self.records@[j]).chunk_count
                    == self.plan@.take(self.rec as int)[j].chunks@.len() && self.records@[j].size_bytes
                    == self.plan@.take(self.rec as int)[j].end - self.plan@.take(self.rec as int)[j].start by {
                    if j < old_records.len() {
                        assert(self.records@[j] == old_records[j]);
                        assert(self.plan@.take(self.rec as int)[j] == self.plan@.take(self.rec - 1)[j]);
                    }
                }
            }
        }
    }

    /// The entries of the written records, once every record is written:
    /// they follow the plan, and their reads in reassembly order are
    /// exactly the writes made, in the order made.
    pub fn records(self) -> (r: Vec<PackageRecord>)
        requires
            self.wf(),
            self.finished(),
        ensures
            records_follow_plan(r@, self.plan()),
            fetch_order(r@) == self.writes(),
            records_size(r@) == self.content_len(),
            self.spans() == plan_spans(self.plan()),
            self.spans().len() == self.writes().len(),
    {
        proof {
            assert(self.plan@.take(self.rec as int) =~= self.plan@);
            assert(self.writes@ =~= fetch_order(self.records@));
            assert(self.spans@ =~= plan_spans(self.plan@));
            lemma_plan_spans_bytes(Seq::new(self.len as nat, |i: int| 0u8), self.plan@);
            lemma_round_trip(Seq::new(self.len as nat, |i: int| 0u8), self.plan@, self.records@);
        }
        self.records
    }
}

} // verus!
