//! The decisions of the streaming downloader.
//!
//! The caller performs the HTTP GET and reads the body; this module decides
//! whether a response may be used at all (`begin_download`), and accounts for
//! progress as chunks arrive (`ProgressTracker`).  `transfer` runs a whole
//! download over an in-memory chunk sequence, so the byte-for-byte and
//! progress properties are stated and proved over arbitrary chunkings.

use vstd::prelude::*;
use vstd::string::*;

use crate::errors::PipelineError;

verus! {

/// The number of bytes in all chunks together.
pub open spec fn total_len(chunks: Seq<Seq<u8>>) -> int
    decreases chunks.len(),
{
    if chunks.len() == 0 {
        0
    } else {
        total_len(chunks.drop_last()) + chunks.last().len()
    }
}

/// All chunks, concatenated in order: what a completed transfer writes.
pub open spec fn concat_all(chunks: Seq<Seq<u8>>) -> Seq<u8>
    decreases chunks.len(),
{
    if chunks.len() == 0 {
        Seq::empty()
    } else {
        concat_all(chunks.drop_last()) + chunks.last()
    }
}

/// The progress a transfer reports after these chunks: the bytes seen so
/// far, capped at the advertised total.
pub open spec fn progress_after(total: int, chunks: Seq<Seq<u8>>) -> int {
    if total_len(chunks) <= total {
        total_len(chunks)
    } else {
        total
    }
}

/// Taking one more chunk adds exactly that chunk's length to the byte count.
pub proof fn lemma_total_len_take(chunks: Seq<Seq<u8>>, i: int)
    requires
        0 <= i < chunks.len(),
    ensures
        total_len(chunks.take(i + 1)) == total_len(chunks.take(i)) + chunks[i].len(),
{
    assert(chunks.take(i + 1).drop_last() =~= chunks.take(i));
    assert(chunks.take(i + 1).last() == chunks[i]);
}

/// Taking one more chunk extends the bytes written by exactly that chunk.
pub proof fn lemma_concat_all_take(chunks: Seq<Seq<u8>>, i: int)
    requires
        0 <= i < chunks.len(),
    ensures
        concat_all(chunks.take(i + 1)) == concat_all(chunks.take(i)) + chunks[i],
{
    assert(chunks.take(i + 1).drop_last() =~= chunks.take(i));
    assert(chunks.take(i + 1).last() == chunks[i]);
}

/// The byte count never shrinks as chunks arrive.
pub proof fn lemma_total_len_monotone(chunks: Seq<Seq<u8>>, i: int, j: int)
    requires
        0 <= i <= j <= chunks.len(),
    ensures
        total_len(chunks.take(i)) <= total_len(chunks.take(j)),
    decreases j - i,
{
    if i < j {
        lemma_total_len_take(chunks, j - 1);
        lemma_total_len_monotone(chunks, i, j - 1);
    }
}

/// The progress a transfer reports is non-decreasing in the chunks seen, and
/// never exceeds the advertised total.
pub proof fn lemma_progress_monotone(total: int, chunks: Seq<Seq<u8>>, i: int, j: int)
    requires
        0 <= i <= j <= chunks.len(),
        0 <= total,
    ensures
        progress_after(total, chunks.take(i)) <= progress_after(total, chunks.take(j)),
        progress_after(total, chunks.take(i)) <= total,
{
    lemma_total_len_monotone(chunks, i, j);
    lemma_total_len_monotone(chunks, 0, i);
    assert(chunks.take(0) =~= Seq::<Seq<u8>>::empty());
}

/// Examines what the HTTP layer reported for a GET of `url` and decides
/// whether a download may proceed.
///
/// `success` says whether the request was sent and answered with a success
/// status; `content_length` is the advertised body length, if any.  A
/// download proceeds only with a known total size: without one the transfer
/// is rejected before any byte is written.
pub fn begin_download(success: bool, content_length: Option<u64>, url: &str) -> (r: Result<
    u64,
    PipelineError,
>)
    ensures
        r is Ok <==> success && content_length is Some,
        r is Ok ==> r->Ok_0 == content_length->0,
        !success ==> (r matches Err(PipelineError::Network(u)) && u@ == url@),
        success && content_length is None ==> (r matches Err(PipelineError::MissingLength(u))
            && u@ == url@),
{
    if !success {
        return Err(PipelineError::Network(url.to_owned()));
    }
    match content_length {
        Some(total) => Ok(total),
        None => Err(PipelineError::MissingLength(url.to_owned())),
    }
}

/// Decides whether a transfer may continue after one chunk: a chunk the
/// stream failed to yield aborts the download of `url` with a transfer
/// error.
pub fn chunk_status(arrived: bool, url: &str) -> (r: Result<(), PipelineError>)
    ensures
        r is Ok <==> arrived,
        r matches Err(e) ==> (e matches PipelineError::Transfer(u) && u@ == url@),
{
    if arrived {
        Ok(())
    } else {
        Err(PipelineError::Transfer(url.to_owned()))
    }
}

/// The byte counter of a running download: how much has arrived, against the
/// advertised total.  The counter only grows and never passes the total.
pub struct ProgressTracker {
    /// Bytes accounted so far, capped at `total`.
    pub downloaded: u64,
    /// The advertised size of the whole body.
    pub total: u64,
}

impl ProgressTracker {
    /// The counter never exceeds the advertised total.
    pub open spec fn wf(&self) -> bool {
        self.downloaded <= self.total
    }

    /// A fresh tracker for a body of `total` bytes.
    pub fn new(total: u64) -> (r: ProgressTracker)
        ensures
            r.wf(),
            r.downloaded == 0,
            r.total == total,
    {
        ProgressTracker { downloaded: 0, total }
    }

    /// Accounts one arrived chunk: the counter grows by the chunk's length,
    /// capped at the total, and in particular never shrinks.
    pub fn record(&mut self, chunk_len: usize)
        requires
            old(self).wf(),
        ensures
            final(self).wf(),
            final(self).total == old(self).total,
            final(self).downloaded == if old(self).downloaded + chunk_len <= old(self).total {
                old(self).downloaded + chunk_len
            } else {
                old(self).total as int
            },
            old(self).downloaded <= final(self).downloaded,
    {
        let len64: u64 = chunk_len as u64;
        let remaining = self.total - self.downloaded;
        if len64 <= remaining {
            self.downloaded = self.downloaded + len64;
        } else {
            self.downloaded = self.total;
        }
    }
}

/// Runs a whole download over an in-memory sequence of chunks: returns the
/// bytes a real transfer would write — the chunks concatenated in order —
/// and the progress value reported after each chunk.
///
/// The reported values are non-decreasing, never exceed `total`, and when
/// the chunks hold exactly `total` bytes the last report is exactly `total`.
pub fn transfer(total: u64, chunks: &Vec<Vec<u8>>) -> (r: (Vec<u8>, Vec<u64>))
    ensures
        r.0@ == concat_all(chunks.deep_view()),
        r.1@.len() == chunks@.len(),
        forall|i: int|
            0 <= i < chunks@.len() ==> r.1@[i] == progress_after(
                total as int,
                chunks.deep_view().take(i + 1),
            ),
        forall|i: int, j: int| 0 <= i <= j < chunks@.len() ==> r.1@[i] <= r.1@[j],
        forall|i: int| 0 <= i < chunks@.len() ==> r.1@[i] <= total,
        total_len(chunks.deep_view()) == total && chunks@.len() > 0 ==> r.1@.last() == total,
{
    let ghost cs = chunks.deep_view();
    let mut out: Vec<u8> = Vec::new();
    let mut reports: Vec<u64> = Vec::new();
    let mut tracker = ProgressTracker::new(total);
    let n = chunks.len();
    let mut i: usize = 0;
    while i < n
        invariant
            0 <= i <= n,
            n == chunks@.len(),
            cs == chunks.deep_view(),
            cs.len() == n,
            forall|k: int| 0 <= k < n ==> cs[k] == chunks@[k]@,
            tracker.wf(),
            tracker.total == total,
            tracker.downloaded == progress_after(total as int, cs.take(i as int)),
            out@ == concat_all(cs.take(i as int)),
            reports@.len() == i,
            forall|k: int|
                0 <= k < i ==> reports@[k] == progress_after(total as int, cs.take(k + 1)),
        decreases n - i,
    {
        let chunk = &chunks[i];
        out.extend_from_slice(chunk.as_slice());
        tracker.record(chunk.len());
        reports.push(tracker.downloaded);
        proof {
            lemma_total_len_take(cs, i as int);
            lemma_concat_all_take(cs, i as int);
            lemma_progress_monotone(total as int, cs, 0, i as int);
        }
        i = i + 1;
    }
    proof {
        assert(cs.take(n as int) =~= cs);
        assert forall|a: int, b: int| 0 <= a <= b < n implies #[trigger] reports@[a]
            <= #[trigger] reports@[b] by {
            lemma_progress_monotone(total as int, cs, a + 1, b + 1);
        }
        assert forall|a: int| 0 <= a < n implies #[trigger] reports@[a] <= total by {
            lemma_progress_monotone(total as int, cs, a + 1, a + 1);
        }
    }
    (out, reports)
}

} // verus!
