//! The two write strategies behind one interface: a multipart upload
//! (reserve, upload parts, commit once) and a sequential append.
//!
//! Both are state machines. Each call returns the request that the host must
//! send next; the host reports the response back before the next call, so at
//! most one chunk operation is in flight and chunks are never reordered.

use vstd::prelude::*;
use crate::error::{Error, ErrorKind};
use crate::range::{content_range, content_range_header};

verus! {

/// The bytes of `parts`, in order.
pub open spec fn joined(parts: Seq<Seq<u8>>) -> Seq<u8>
    decreases parts.len(),
{
    if parts.len() == 0 {
        Seq::empty()
    } else {
        joined(parts.drop_last()) + parts.last()
    }
}

/// The sum of the lengths of `parts`.
pub open spec fn sum_sizes(parts: Seq<Seq<u8>>) -> nat
    decreases parts.len(),
{
    if parts.len() == 0 {
        0
    } else {
        sum_sizes(parts.drop_last()) + parts.last().len()
    }
}

pub proof fn lemma_joined_len(parts: Seq<Seq<u8>>)
    ensures
        joined(parts).len() == sum_sizes(parts),
    decreases parts.len(),
{
    if parts.len() > 0 {
        lemma_joined_len(parts.drop_last());
    }
}

pub proof fn lemma_sum_at_least_count(parts: Seq<Seq<u8>>)
    requires
        forall|i: int| 0 <= i < parts.len() ==> (#[trigger] parts[i]).len() > 0,
    ensures
        sum_sizes(parts) >= parts.len(),
    decreases parts.len(),
{
    if parts.len() > 0 {
        let q = parts.drop_last();
        assert forall|i: int| 0 <= i < q.len() implies (#[trigger] q[i]).len() > 0 by {
            assert(q[i] == parts[i]);
        }
        lemma_sum_at_least_count(q);
    }
}

/// Where a multipart upload stands.
#[derive(Clone, Copy, Debug, PartialEq, Eq, Structural)]
pub enum Phase {
    /// Ready for the next part, or for the commit.
    Open,
    /// A part has been handed out and its response is awaited.
    Uploading,
    /// A part failed; the upload is abandoned and will not be committed.
    Failed,
    /// The commit has been handed out and its response is awaited.
    Committing,
    /// The commit succeeded: the object is visible.
    Done,
}

/// The abstract state of a multipart upload.
pub struct MultipartModel {
    pub phase: Phase,
    pub min_size: Option<u64>,
    pub max_size: Option<u64>,
    /// The parts acknowledged so far, in order.
    pub parts: Seq<Seq<u8>>,
    /// The part in flight.
    pub pending: Seq<u8>,
}

/// The last acknowledged part was shorter than the minimum, so it must stay
/// the last one.
pub open spec fn short_tail(m: MultipartModel) -> bool {
    &&& m.parts.len() > 0
    &&& m.min_size matches Some(n)
    &&& m.parts.last().len() < n
}

/// Whether a multipart upload in state `m` takes `chunk` as its next part.
pub open spec fn accepts_part(m: MultipartModel, chunk: Seq<u8>) -> bool {
    &&& m.phase == Phase::Open
    &&& chunk.len() > 0
    &&& !short_tail(m)
    &&& (m.max_size matches Some(x) ==> chunk.len() <= x)
    &&& sum_sizes(m.parts) + chunk.len() <= u64::MAX
}

/// The state after `chunk` is offered.
pub open spec fn after_part(m: MultipartModel, chunk: Seq<u8>) -> MultipartModel {
    if accepts_part(m, chunk) {
        MultipartModel { phase: Phase::Uploading, pending: chunk, ..m }
    } else {
        m
    }
}

/// The state after the part in flight is acknowledged.
pub open spec fn after_part_ack(m: MultipartModel) -> MultipartModel {
    MultipartModel { phase: Phase::Open, parts: m.parts.push(m.pending), pending: Seq::empty(), ..m }
}

/// The state after each of `chunks` is offered and acknowledged in turn.
pub open spec fn upload_all(m: MultipartModel, chunks: Seq<Seq<u8>>) -> MultipartModel
    decreases chunks.len(),
{
    if chunks.len() == 0 {
        m
    } else {
        after_part_ack(after_part(upload_all(m, chunks.drop_last()), chunks.last()))
    }
}

/// A fresh multipart upload with the given part bounds.
pub open spec fn fresh_multipart(min_size: Option<u64>, max_size: Option<u64>) -> MultipartModel {
    MultipartModel { phase: Phase::Open, min_size, max_size, parts: Seq::empty(), pending: Seq::empty() }
}

/// Chunks that respect a backend's part bounds: none empty, each within the
/// maximum, each but the last at least the minimum, and a total that fits in
/// a `u64`.
pub open spec fn valid_chunks(min_size: Option<u64>, max_size: Option<u64>, chunks: Seq<Seq<u8>>) -> bool {
    &&& forall|i: int| 0 <= i < chunks.len() ==> (#[trigger] chunks[i]).len() > 0
    &&& forall|i: int| 0 <= i < chunks.len() ==> (max_size matches Some(x) ==> (#[trigger] chunks[i]).len() <= x)
    &&& forall|i: int| 0 <= i < chunks.len() - 1 ==> (min_size matches Some(n) ==> (#[trigger] chunks[i]).len() >= n)
    &&& sum_sizes(chunks) <= u64::MAX
}

pub proof fn lemma_sum_sizes_prefix(chunks: Seq<Seq<u8>>, k: int)
    requires
        0 <= k <= chunks.len(),
    ensures
        sum_sizes(chunks.subrange(0, k)) <= sum_sizes(chunks),
    decreases chunks.len() - k,
{
    if k < chunks.len() {
        lemma_sum_sizes_prefix(chunks, k + 1);
        assert(chunks.subrange(0, k + 1).drop_last() =~= chunks.subrange(0, k));
    } else {
        assert(chunks.subrange(0, k) =~= chunks);
    }
}

/// Multipart law: offered in order to a fresh upload, chunks that respect the
/// backend's part bounds are each taken as one part, so the upload ends ready
/// to commit with exactly those parts, their bytes in order, and a total size
/// equal to the sum of the chunk sizes.
pub proof fn lemma_upload_all(min_size: Option<u64>, max_size: Option<u64>, chunks: Seq<Seq<u8>>)
    requires
        valid_chunks(min_size, max_size, chunks),
    ensures
        upload_all(fresh_multipart(min_size, max_size), chunks).phase == Phase::Open,
        upload_all(fresh_multipart(min_size, max_size), chunks).min_size == min_size,
        upload_all(fresh_multipart(min_size, max_size), chunks).max_size == max_size,
        upload_all(fresh_multipart(min_size, max_size), chunks).parts == chunks,
        joined(upload_all(fresh_multipart(min_size, max_size), chunks).parts) == joined(chunks),
        joined(chunks).len() == sum_sizes(chunks),
    decreases chunks.len(),
{
    lemma_joined_len(chunks);
    if chunks.len() > 0 {
        let q = chunks.drop_last();
        assert forall|i: int| 0 <= i < q.len() implies (#[trigger] q[i]).len() > 0 by {
            assert(q[i] == chunks[i]);
        }
        assert forall|i: int| 0 <= i < q.len() implies (max_size matches Some(x) ==> (#[trigger] q[i]).len() <= x) by {
            assert(q[i] == chunks[i]);
        }
        assert forall|i: int| 0 <= i < q.len() - 1 implies (min_size matches Some(n) ==> (#[trigger] q[i]).len() >= n) by {
            assert(q[i] == chunks[i]);
        }
        assert(sum_sizes(q) <= sum_sizes(chunks));
        lemma_upload_all(min_size, max_size, q);
        let m = upload_all(fresh_multipart(min_size, max_size), q);
        let last = chunks.last();
        assert(chunks[chunks.len() - 1] == last);
        assert(last.len() > 0);
        assert(max_size matches Some(x) ==> chunks[chunks.len() - 1].len() <= x);
        if q.len() > 0 {
            assert(q.last() == chunks[q.len() - 1]);
            match min_size {
                Some(n) => {
                    assert(chunks[q.len() - 1].len() >= n);
                    assert(m.parts.last().len() >= n);
                },
                None => {},
            }
        }
        assert(sum_sizes(chunks) == sum_sizes(q) + last.len());
        assert(accepts_part(m, last));
        assert(m.parts.push(last) =~= chunks);
    }
}

pub proof fn lemma_joined_prefix(s: Seq<Seq<u8>>, k: int)
    requires
        0 <= k <= s.len(),
    ensures
        joined(s.take(k)).len() <= joined(s).len(),
        joined(s).take(joined(s.take(k)).len() as int) == joined(s.take(k)),
    decreases s.len() - k,
{
    if k == s.len() {
        assert(s.take(k) =~= s);
        assert(joined(s).take(joined(s).len() as int) =~= joined(s));
    } else {
        lemma_joined_prefix(s, k + 1);
        let a = joined(s.take(k));
        assert(s.take(k + 1).drop_last() =~= s.take(k));
        assert(joined(s.take(k + 1)) == a + s[k]);
        assert(joined(s).take(a.len() as int) =~= (a + s[k]).take(a.len() as int));
        assert((a + s[k]).take(a.len() as int) =~= a);
    }
}

/// Round-trip law: when the parts of `chunks` are placed at the content
/// ranges that the multipart upload gives them (each right after the parts
/// before it), part `i` covers exactly the bytes of chunk `i` in the bytes
/// written, so the committed object, of size `sum_sizes(chunks)`, is those
/// bytes in order.
pub proof fn lemma_part_ranges_round_trip(chunks: Seq<Seq<u8>>, i: int)
    requires
        0 <= i < chunks.len(),
    ensures
        sum_sizes(chunks.take(i)) + chunks[i].len() <= sum_sizes(chunks),
        joined(chunks).subrange(
            sum_sizes(chunks.take(i)) as int,
            (sum_sizes(chunks.take(i)) + chunks[i].len()) as int,
        ) == chunks[i],
{
    lemma_joined_prefix(chunks, i + 1);
    lemma_joined_len(chunks);
    lemma_joined_len(chunks.take(i));
    lemma_joined_len(chunks.take(i + 1));
    let a = joined(chunks.take(i));
    assert(chunks.take(i + 1).drop_last() =~= chunks.take(i));
    assert(joined(chunks.take(i + 1)) == a + chunks[i]);
    let whole = joined(chunks);
    assert(whole.take(((a.len() + chunks[i].len()) as int) as int) == a + chunks[i]);
    assert(whole.subrange(a.len() as int, (a.len() + chunks[i].len()) as int) =~= (a + chunks[i]).subrange(
        a.len() as int,
        (a.len() + chunks[i].len()) as int,
    ));
    assert((a + chunks[i]).subrange(a.len() as int, (a.len() + chunks[i].len()) as int) =~= chunks[i]);
}

/// A part that the host must upload: bytes `offset..offset + body.len()` of
/// the object, as part number `index` (from zero).
#[derive(Debug)]
pub struct PartUpload {
    pub index: u64,
    pub offset: u64,
    pub body: Vec<u8>,
}

impl PartUpload {
    /// The `Content-Range` header of this part.
    pub fn content_range(&self) -> (r: String)
        requires
            self.body@.len() > 0,
            self.offset + self.body@.len() <= u64::MAX,
        ensures
            r@ == content_range(self.offset as nat, (self.offset + self.body@.len() - 1) as nat),
    {
        let len = self.body.len() as u64;
        content_range_header(self.offset, self.offset + len - 1)
    }
}

/// The commit that makes a multipart upload visible.
#[derive(Clone, Copy, Debug, PartialEq, Eq, Structural)]
pub struct Commit {
    /// The total size of the object.
    pub size: u64,
    /// The number of parts uploaded.
    pub parts: u64,
}

/// A multipart upload in progress.
pub struct MultipartWriter {
    min_size: Option<u64>,
    max_size: Option<u64>,
    phase: Phase,
    written: u64,
    count: u64,
    pending_len: u64,
    last_len: u64,
    parts: Ghost<Seq<Seq<u8>>>,
    pending: Ghost<Seq<u8>>,
}

impl View for MultipartWriter {
    type V = MultipartModel;

    closed spec fn view(&self) -> MultipartModel {
        MultipartModel {
            phase: self.phase,
            min_size: self.min_size,
            max_size: self.max_size,
            parts: self.parts@,
            pending: self.pending@,
        }
    }
}

impl MultipartWriter {
    pub closed spec fn wf(&self) -> bool {
        &&& self.written == sum_sizes(self.parts@)
        &&& self.count == self.parts@.len()
        &&& forall|i: int| 0 <= i < self.parts@.len() ==> (#[trigger] self.parts@[i]).len() > 0
        &&& self.parts@.len() > 0 ==> self.last_len == self.parts@.last().len()
        &&& self.pending_len == self.pending@.len()
        &&& self.phase == Phase::Uploading ==> {
            &&& self.pending@.len() > 0
            &&& self.written + self.pending_len <= u64::MAX
        }
    }

    /// A fresh upload whose parts must lie within `[min_size, max_size]`, but
    /// for the last one, which may be shorter.
    pub fn new(min_size: Option<u64>, max_size: Option<u64>) -> (r: MultipartWriter)
        ensures
            r.wf(),
            r@ == fresh_multipart(min_size, max_size),
    {
        MultipartWriter {
            min_size,
            max_size,
            phase: Phase::Open,
            written: 0,
            count: 0,
            pending_len: 0,
            last_len: 0,
            parts: Ghost(Seq::empty()),
            pending: Ghost(Seq::empty()),
        }
    }

    pub fn phase(&self) -> (r: Phase)
        ensures
            r == self@.phase,
    {
        self.phase
    }

    /// The number of bytes acknowledged so far.
    pub fn written(&self) -> (r: u64)
        requires
            self.wf(),
        ensures
            r == sum_sizes(self@.parts),
    {
        self.written
    }

    /// Offers the next chunk. An empty chunk is skipped; an accepted one is
    /// returned as the part to upload, placed right after the parts before it.
    pub fn write(&mut self, chunk: Vec<u8>) -> (r: Result<Option<PartUpload>, Error>)
        requires
            old(self).wf(),
        ensures
            final(self).wf(),
            final(self)@ == after_part(old(self)@, chunk@),
            chunk@.len() == 0 && old(self)@.phase == Phase::Open ==> r matches Ok(None),
            accepts_part(old(self)@, chunk@) ==> (r matches Ok(Some(p)) && p.body@ == chunk@
                && p.offset == sum_sizes(old(self)@.parts) && p.index == old(self)@.parts.len()),
            r is Err <==> old(self)@.phase != Phase::Open || (chunk@.len() > 0 && !accepts_part(old(self)@, chunk@)),
            r matches Err(e) ==> e.kind == (if old(self)@.phase != Phase::Open {
                ErrorKind::Unexpected
            } else {
                ErrorKind::Unsupported
            }),
    {
        if self.phase != Phase::Open {
            return Err(Error::new(ErrorKind::Unexpected, "the writer is not ready for a part"));
        }
        let len = chunk.len() as u64;
        if len == 0 {
            return Ok(None);
        }
        if self.count > 0 {
            match self.min_size {
                Some(n) => {
                    if self.last_len < n {
                        return Err(Error::new(ErrorKind::Unsupported, "a part below the minimum size must be the last one"));
                    }
                },
                None => {},
            }
        }
        match self.max_size {
            Some(x) => {
                if len > x {
                    return Err(Error::new(ErrorKind::Unsupported, "the part exceeds the maximum part size"));
                }
            },
            None => {},
        }
        if self.written > u64::MAX - len {
            return Err(Error::new(ErrorKind::Unsupported, "the object exceeds the largest size"));
        }
        self.phase = Phase::Uploading;
        self.pending_len = len;
        self.pending = Ghost(chunk@);
        Ok(Some(PartUpload { index: self.count, offset: self.written, body: chunk }))
    }

    /// Reports the response to the part in flight. A failure abandons the
    /// upload and is handed back unchanged.
    pub fn on_part(&mut self, result: Result<(), Error>) -> (r: Result<(), Error>)
        requires
            old(self).wf(),
            old(self)@.phase == Phase::Uploading,
        ensures
            final(self).wf(),
            r == result,
            result is Ok ==> final(self)@ == after_part_ack(old(self)@),
            result is Err ==> final(self)@ == (MultipartModel { phase: Phase::Failed, ..old(self)@ }),
    {
        if result.is_ok() {
                proof {
                    lemma_sum_at_least_count(self.parts@);
                }
                let ghost old_parts = self.parts@;
                self.written = self.written + self.pending_len;
                self.count = self.count + 1;
                self.last_len = self.pending_len;
                self.parts = Ghost(self.parts@.push(self.pending@));
                self.pending = Ghost(Seq::empty());
                self.pending_len = 0;
                self.phase = Phase::Open;
                proof {
                    assert(self.parts@.drop_last() =~= old_parts);
                    assert forall|i: int| 0 <= i < self.parts@.len() implies (#[trigger] self.parts@[i]).len() > 0 by {
                        if i < old_parts.len() {
                            assert(self.parts@[i] == old_parts[i]);
                        }
                    }
                }
        } else {
            self.phase = Phase::Failed;
        }
        result
    }

    /// Ends the upload: returns the commit, which carries the total size of
    /// the parts. No commit is made while a part is in flight or after one
    /// failed.
    pub fn finish(&mut self) -> (r: Result<Commit, Error>)
        requires
            old(self).wf(),
        ensures
            final(self).wf(),
            old(self)@.phase == Phase::Open ==> (r matches Ok(c) && c.size == sum_sizes(old(self)@.parts)
                && c.parts == old(self)@.parts.len()
                && final(self)@ == (MultipartModel { phase: Phase::Committing, ..old(self)@ })),
            old(self)@.phase != Phase::Open ==> (r matches Err(e) && e.kind == ErrorKind::Unexpected
                && final(self)@ == old(self)@),
    {
        if self.phase != Phase::Open {
            return Err(Error::new(ErrorKind::Unexpected, "the upload cannot be committed"));
        }
        self.phase = Phase::Committing;
        Ok(Commit { size: self.written, parts: self.count })
    }

    /// Reports the response to the commit.
    pub fn on_commit(&mut self, result: Result<(), Error>) -> (r: Result<(), Error>)
        requires
            old(self).wf(),
            old(self)@.phase == Phase::Committing,
        ensures
            final(self).wf(),
            r == result,
            final(self)@ == (MultipartModel {
                phase: if result is Ok { Phase::Done } else { Phase::Failed },
                ..old(self)@
            }),
    {
        if result.is_ok() {
            self.phase = Phase::Done;
        } else {
            self.phase = Phase::Failed;
        }
        result
    }
}

/// Where an append upload stands.
#[derive(Clone, Copy, Debug, PartialEq, Eq, Structural)]
pub enum AppendPhase {
    /// Ready for the next chunk, or for the finish.
    Open,
    /// An append has been handed out and its response is awaited.
    Appending,
    /// The empty append that creates an empty object is awaited.
    Closing,
    /// An append failed.
    Failed,
    /// The upload is finished.
    Done,
}

/// The abstract state of an append upload.
pub struct AppendModel {
    pub phase: AppendPhase,
    /// The bytes of the object that readers can see.
    pub object: Seq<u8>,
    /// The bytes of the append in flight.
    pub pending: Seq<u8>,
    /// Whether an append has been acknowledged.
    pub appended: bool,
}

pub open spec fn fresh_append() -> AppendModel {
    AppendModel { phase: AppendPhase::Open, object: Seq::empty(), pending: Seq::empty(), appended: false }
}

pub open spec fn accepts_append(m: AppendModel, chunk: Seq<u8>) -> bool {
    m.phase == AppendPhase::Open && chunk.len() > 0 && m.object.len() + chunk.len() <= u64::MAX
}

/// The state after `chunk` is offered.
pub open spec fn after_append(m: AppendModel, chunk: Seq<u8>) -> AppendModel {
    if accepts_append(m, chunk) {
        AppendModel { phase: AppendPhase::Appending, pending: chunk, ..m }
    } else {
        m
    }
}

/// The state after the append in flight is acknowledged.
pub open spec fn after_append_ack(m: AppendModel) -> AppendModel {
    AppendModel {
        phase: if m.phase == AppendPhase::Closing { AppendPhase::Done } else { AppendPhase::Open },
        object: m.object + m.pending,
        pending: Seq::empty(),
        appended: true,
    }
}

/// The state after the upload is finished.
pub open spec fn after_append_finish(m: AppendModel) -> AppendModel {
    if m.phase != AppendPhase::Open {
        m
    } else if m.appended {
        AppendModel { phase: AppendPhase::Done, ..m }
    } else {
        AppendModel { phase: AppendPhase::Closing, pending: Seq::empty(), ..m }
    }
}

/// The state after each of `chunks` is offered and acknowledged in turn.
pub open spec fn append_all(m: AppendModel, chunks: Seq<Seq<u8>>) -> AppendModel
    decreases chunks.len(),
{
    if chunks.len() == 0 {
        m
    } else {
        let p = append_all(m, chunks.drop_last());
        if accepts_append(p, chunks.last()) {
            after_append_ack(after_append(p, chunks.last()))
        } else {
            after_append(p, chunks.last())
        }
    }
}

/// Append law: nonempty chunks appended in order to a fresh upload make an
/// object that holds exactly their bytes, in order.
pub proof fn lemma_append_all(chunks: Seq<Seq<u8>>)
    requires
        forall|i: int| 0 <= i < chunks.len() ==> (#[trigger] chunks[i]).len() > 0,
        sum_sizes(chunks) <= u64::MAX,
    ensures
        append_all(fresh_append(), chunks).phase == AppendPhase::Open,
        append_all(fresh_append(), chunks).object == joined(chunks),
    decreases chunks.len(),
{
    lemma_joined_len(chunks);
    if chunks.len() > 0 {
        let q = chunks.drop_last();
        assert forall|i: int| 0 <= i < q.len() implies (#[trigger] q[i]).len() > 0 by {
            assert(q[i] == chunks[i]);
        }
        assert(sum_sizes(chunks) == sum_sizes(q) + chunks.last().len());
        lemma_append_all(q);
        lemma_joined_len(q);
        assert(chunks[chunks.len() - 1].len() > 0);
    }
}

/// Append law: an upload that receives no bytes and is finished still makes
/// one append, of zero bytes at position zero, and so leaves an empty object.
pub proof fn lemma_empty_append()
    ensures
        after_append(fresh_append(), Seq::empty()) == fresh_append(),
        after_append_finish(fresh_append()).phase == AppendPhase::Closing,
        after_append_finish(fresh_append()).pending.len() == 0,
        after_append_finish(fresh_append()).object.len() == 0,
        after_append_ack(after_append_finish(fresh_append())).phase == AppendPhase::Done,
        after_append_ack(after_append_finish(fresh_append())).object.len() == 0,
{
}

/// An append that the host must send: `body` goes at `position`.
#[derive(Debug)]
pub struct AppendRequest {
    pub position: u64,
    pub body: Vec<u8>,
}

/// An append upload in progress.
pub struct AppendWriter {
    phase: AppendPhase,
    position: u64,
    pending_len: u64,
    appended: bool,
    object: Ghost<Seq<u8>>,
    pending: Ghost<Seq<u8>>,
}

impl View for AppendWriter {
    type V = AppendModel;

    closed spec fn view(&self) -> AppendModel {
        AppendModel { phase: self.phase, object: self.object@, pending: self.pending@, appended: self.appended }
    }
}

impl AppendWriter {
    pub closed spec fn wf(&self) -> bool {
        &&& self.position == self.object@.len()
        &&& !self.appended ==> self.object@.len() == 0
        &&& self.pending_len == self.pending@.len()
        &&& self.phase == AppendPhase::Closing ==> self.pending@.len() == 0
        &&& self.position + self.pending_len <= u64::MAX
    }

    pub fn new() -> (r: AppendWriter)
        ensures
            r.wf(),
            r@ == fresh_append(),
    {
        AppendWriter {
            phase: AppendPhase::Open,
            position: 0,
            pending_len: 0,
            appended: false,
            object: Ghost(Seq::empty()),
            pending: Ghost(Seq::empty()),
        }
    }

    pub fn phase(&self) -> (r: AppendPhase)
        ensures
            r == self@.phase,
    {
        self.phase
    }

    /// The size of the object as readers see it.
    pub fn position(&self) -> (r: u64)
        requires
            self.wf(),
        ensures
            r == self@.object.len(),
    {
        self.position
    }

    /// Offers the next chunk. An empty chunk is skipped; an accepted one is
    /// returned as an append at the current end of the object.
    pub fn write(&mut self, chunk: Vec<u8>) -> (r: Result<Option<AppendRequest>, Error>)
        requires
            old(self).wf(),
        ensures
            final(self).wf(),
            final(self)@ == after_append(old(self)@, chunk@),
            chunk@.len() == 0 && old(self)@.phase == AppendPhase::Open ==> r matches Ok(None),
            accepts_append(old(self)@, chunk@) ==> (r matches Ok(Some(a)) && a.body@ == chunk@
                && a.position == old(self)@.object.len()),
            r is Err <==> old(self)@.phase != AppendPhase::Open || (chunk@.len() > 0 && !accepts_append(old(self)@, chunk@)),
            r matches Err(e) ==> e.kind == (if old(self)@.phase != AppendPhase::Open {
                ErrorKind::Unexpected
            } else {
                ErrorKind::Unsupported
            }),
    {
        if self.phase != AppendPhase::Open {
            return Err(Error::new(ErrorKind::Unexpected, "the writer is not ready for an append"));
        }
        let len = chunk.len() as u64;
        if len == 0 {
            return Ok(None);
        }
        if self.position > u64::MAX - len {
            return Err(Error::new(ErrorKind::Unsupported, "the object exceeds the largest size"));
        }
        self.phase = AppendPhase::Appending;
        self.pending_len = len;
        self.pending = Ghost(chunk@);
        Ok(Some(AppendRequest { position: self.position, body: chunk }))
    }

    /// Reports the response to the append in flight. A failure is handed back
    /// unchanged.
    pub fn on_append(&mut self, result: Result<(), Error>) -> (r: Result<(), Error>)
        requires
            old(self).wf(),
            old(self)@.phase == AppendPhase::Appending || old(self)@.phase == AppendPhase::Closing,
        ensures
            final(self).wf(),
            r == result,
            result is Ok ==> final(self)@ == after_append_ack(old(self)@),
            result is Err ==> final(self)@ == (AppendModel { phase: AppendPhase::Failed, ..old(self)@ }),
    {
        if result.is_ok() {
            self.position = self.position + self.pending_len;
            self.object = Ghost(self.object@ + self.pending@);
            self.pending = Ghost(Seq::empty());
            self.pending_len = 0;
            self.appended = true;
            self.phase = if self.phase == AppendPhase::Closing { AppendPhase::Done } else { AppendPhase::Open };
        } else {
            self.phase = AppendPhase::Failed;
        }
        result
    }

    /// Ends the upload. Visibility already happened with each append, so
    /// this sends nothing, except for an upload that received no bytes: it
    /// returns the empty append that creates an empty object.
    pub fn finish(&mut self) -> (r: Result<Option<AppendRequest>, Error>)
        requires
            old(self).wf(),
        ensures
            final(self).wf(),
            final(self)@ == after_append_finish(old(self)@),
            old(self)@.phase == AppendPhase::Open && old(self)@.appended ==> r matches Ok(None),
            old(self)@.phase == AppendPhase::Open && !old(self)@.appended ==> (r matches Ok(Some(a))
                && a.position == 0 && a.body@.len() == 0),
            old(self)@.phase != AppendPhase::Open ==> (r matches Err(e) && e.kind == ErrorKind::Unexpected),
    {
        if self.phase != AppendPhase::Open {
            return Err(Error::new(ErrorKind::Unexpected, "the upload cannot be finished"));
        }
        if self.appended {
            self.phase = AppendPhase::Done;
            Ok(None)
        } else {
            self.phase = AppendPhase::Closing;
            self.pending = Ghost(Seq::empty());
            self.pending_len = 0;
            Ok(Some(AppendRequest { position: self.position, body: Vec::new() }))
        }
    }
}

} // verus!
