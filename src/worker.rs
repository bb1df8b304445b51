//! What one worker does per job, apart from file access: decode the source
//! image into its reused source buffer, transform it into its reused
//! destination buffer, and encode the result; and the tally of a worker's
//! outcomes, where a failed job is counted and the worker goes on.
use vstd::prelude::*;
use crate::codec::{decode, decode_error, decodes_rgba8, encode, gray_png, png_frame, JobError};
use crate::pixels::{unpack, unpacked_by};

verus! {

/// The two buffers a worker reuses from job to job.
pub struct JobBuffers {
    source_buffer: Vec<u8>,
    dest_buffer: Vec<u8>,
}

impl JobBuffers {
    /// Packed RGBA bytes of the last decoded source.
    pub closed spec fn source(&self) -> Seq<u8> {
        self.source_buffer@
    }

    /// Grayscale bytes of the last transform.
    pub closed spec fn dest(&self) -> Seq<u8> {
        self.dest_buffer@
    }

    pub fn new() -> (b: Self)
        ensures
            b.source().len() == 0,
            b.dest().len() == 0,
    {
        JobBuffers { source_buffer: Vec::new(), dest_buffer: Vec::new() }
    }

    /// Converts the bytes of one source image into the bytes of its
    /// destination image. It succeeds exactly on an 8-bit RGBA PNG; the
    /// source buffer then holds the decoded frame, the destination buffer its
    /// transform, and the result is the grayscale PNG of the frame's width and
    /// height over the transform.
    pub fn convert<F: Fn(u32) -> u8>(&mut self, source: &[u8], depth_to_byte: F) -> (r: Result<Vec<u8>, JobError>)
        requires
            forall|bits: u32| depth_to_byte.requires((bits,)),
        ensures
            decodes_rgba8(source@) ==> r is Ok,
            r is Ok ==> decodes_rgba8(source@),
            r is Err ==> r->Err_0 == decode_error(source@),
            r is Ok ==> {
                let frame = png_frame(source@)->Some_0;
                &&& final(self).source() == frame.1
                &&& unpacked_by(frame.1, depth_to_byte, final(self).dest())
                &&& r->Ok_0@ == gray_png(frame.0.width, frame.0.height, final(self).dest())
            },
    {
        let (width, height) = match decode(source, &mut self.source_buffer) {
            Ok(dims) => dims,
            Err(e) => return Err(e),
        };
        unpack(&self.source_buffer, depth_to_byte, &mut self.dest_buffer);
        proof {
            let n = self.source_buffer@.len() as int;
            assert(n / 4 == width * height) by (nonlinear_arith)
                requires
                    n == 4 * width * height,
            ;
            assert(width > 0 && height > 0);
        }
        encode(width, height, self.dest_buffer.as_slice())
    }
}

/// How many of a worker's job outcomes were successes.
pub open spec fn count_written(outcomes: Seq<bool>) -> nat
    decreases outcomes.len(),
{
    if outcomes.len() == 0 {
        0
    } else {
        count_written(outcomes.drop_last()) + if outcomes.last() {
            1nat
        } else {
            0nat
        }
    }
}

/// The outcomes of the jobs that one worker has run.
pub struct Tally {
    written: u64,
    failed: u64,
    outcomes: Ghost<Seq<bool>>,
}

impl Tally {
    pub closed spec fn outcomes(&self) -> Seq<bool> {
        self.outcomes@
    }

    pub closed spec fn wf(&self) -> bool {
        &&& self.written == count_written(self.outcomes@)
        &&& self.written + self.failed == self.outcomes@.len()
    }

    pub fn new() -> (t: Self)
        ensures
            t.wf(),
            t.outcomes() == Seq::<bool>::empty(),
    {
        Tally { written: 0, failed: 0, outcomes: Ghost(Seq::empty()) }
    }

    /// Jobs whose destination was written.
    pub fn written(&self) -> (n: u64)
        requires
            self.wf(),
        ensures
            n == count_written(self.outcomes()),
    {
        self.written
    }

    /// Jobs that failed.
    pub fn failed(&self) -> (n: u64)
        requires
            self.wf(),
        ensures
            n == self.outcomes().len() - count_written(self.outcomes()),
    {
        self.failed
    }

    /// Records the outcome of one more job: `true` where its destination was
    /// written. A failure is counted and nothing
    /// else changes: the worker goes on with the next job.
    pub fn record(&mut self, ok: bool)
        requires
            old(self).wf(),
            old(self).outcomes().len() < u64::MAX,
        ensures
            final(self).wf(),
            final(self).outcomes() == old(self).outcomes().push(ok),
    {
        let ghost prev = self.outcomes@;
        self.outcomes = Ghost(prev.push(ok));
        proof {
            assert(self.outcomes@.drop_last() =~= prev);
            lemma_count_written_bounded(prev);
        }
        if ok {
            self.written = self.written + 1;
        } else {
            self.failed = self.failed + 1;
        }
    }
}

/// No more jobs are written than were run.
pub proof fn lemma_count_written_bounded(outcomes: Seq<bool>)
    ensures
        count_written(outcomes) <= outcomes.len(),
    decreases outcomes.len(),
{
    if outcomes.len() > 0 {
        lemma_count_written_bounded(outcomes.drop_last());
    }
}

/// A failed job costs only itself: of a batch of jobs in which exactly one
/// fails, all the others are written.
pub proof fn lemma_one_failure_spares_the_rest(outcomes: Seq<bool>, bad: int)
    requires
        0 <= bad < outcomes.len(),
        !outcomes[bad],
        forall|i: int| 0 <= i < outcomes.len() && i != bad ==> outcomes[i],
    ensures
        count_written(outcomes) == outcomes.len() - 1,
    decreases outcomes.len(),
{
    let last = outcomes.len() - 1;
    if bad == last {
        lemma_all_written(outcomes.drop_last());
    } else {
        lemma_one_failure_spares_the_rest(outcomes.drop_last(), bad);
    }
}

/// The outcomes of converting each source of a batch: whether it is written.
pub open spec fn batch_outcomes(sources: Seq<Seq<u8>>) -> Seq<bool> {
    sources.map_values(|s: Seq<u8>| decodes_rgba8(s))
}

/// In a batch of sources of which all but one are 8-bit RGBA PNG files, the
/// conversions (which succeed exactly on such files) write all but that one.
pub proof fn lemma_batch_writes_every_valid_source(sources: Seq<Seq<u8>>, bad: int)
    requires
        0 <= bad < sources.len(),
        !decodes_rgba8(sources[bad]),
        forall|i: int| 0 <= i < sources.len() && i != bad ==> decodes_rgba8(#[trigger] sources[i]),
    ensures
        count_written(batch_outcomes(sources)) == sources.len() - 1,
{
    let outcomes = batch_outcomes(sources);
    assert forall|i: int| 0 <= i < outcomes.len() && i != bad implies outcomes[i] by {
        assert(decodes_rgba8(sources[i]));
    }
    lemma_one_failure_spares_the_rest(outcomes, bad);
}

/// Where every job succeeds, every job is written.
proof fn lemma_all_written(outcomes: Seq<bool>)
    requires
        forall|i: int| 0 <= i < outcomes.len() ==> outcomes[i],
    ensures
        count_written(outcomes) == outcomes.len(),
    decreases outcomes.len(),
{
    if outcomes.len() > 0 {
        lemma_all_written(outcomes.drop_last());
    }
}

} // verus!
