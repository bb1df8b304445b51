//! Conversion jobs and the queue that workers drain: filled once, then only
//! ever popped from the front, so that each job goes to exactly one worker.
use std::collections::VecDeque;
use std::path::PathBuf;
use vstd::prelude::*;
use vstd::string::StringExecFns;

verus! {

#[verifier::external_type_specification]
#[verifier::external_body]
pub struct ExPathBuf(PathBuf);

/// One source-file-to-destination-file conversion.
pub struct Job {
    source_path: PathBuf,
    source_file_name: String,
    dest_path: PathBuf,
}

impl Job {
    pub closed spec fn spec_source_path(&self) -> PathBuf {
        self.source_path
    }

    pub closed spec fn spec_source_file_name(&self) -> Seq<char> {
        self.source_file_name@
    }

    pub closed spec fn spec_dest_path(&self) -> PathBuf {
        self.dest_path
    }

    pub fn new(source_path: PathBuf, source_file_name: String, dest_path: PathBuf) -> (job: Self)
        ensures
            job.spec_source_path() == source_path,
            job.spec_source_file_name() == source_file_name@,
            job.spec_dest_path() == dest_path,
    {
        Self { source_path, source_file_name, dest_path }
    }

    pub fn source_path(&self) -> (p: &PathBuf)
        ensures
            *p == self.spec_source_path(),
    {
        &self.source_path
    }

    pub fn source_file_name(&self) -> (name: &String)
        ensures
            name@ == self.spec_source_file_name(),
    {
        &self.source_file_name
    }

    pub fn dest_path(&self) -> (p: &PathBuf)
        ensures
            *p == self.spec_dest_path(),
    {
        &self.dest_path
    }
}

/// The pending jobs, front first. No operation adds a job once the queue is
/// made.
pub struct JobQueue {
    jobs: VecDeque<Job>,
}

impl View for JobQueue {
    type V = Seq<Job>;

    closed spec fn view(&self) -> Seq<Job> {
        self.jobs@
    }
}

/// The job that a pop hands out: the front one, if any.
pub open spec fn popped(q: Seq<Job>) -> Option<Job> {
    if q.len() > 0 {
        Some(q[0])
    } else {
        None
    }
}

/// What remains after a pop: all but the front job.
pub open spec fn after_pop(q: Seq<Job>) -> Seq<Job> {
    if q.len() > 0 {
        q.drop_first()
    } else {
        q
    }
}

impl JobQueue {
    pub fn new(jobs: VecDeque<Job>) -> (q: Self)
        ensures
            q@ == jobs@,
    {
        JobQueue { jobs }
    }

    pub fn len(&self) -> (n: usize)
        ensures
            n == self@.len(),
    {
        self.jobs.len()
    }

    /// Removes and returns the front job, or returns `None` on an empty queue.
    pub fn try_pop(&mut self) -> (job: Option<Job>)
        ensures
            job == popped(old(self)@),
            final(self)@ == after_pop(old(self)@),
    {
        let job = self.jobs.pop_front();
        proof {
            if old(self)@.len() > 0 {
                assert(old(self)@.subrange(1, old(self)@.len() as int) =~= old(self)@.drop_first());
            }
        }
        job
    }
}

/// The jobs handed out when workers make pop attempts in the order of
/// `schedule` (each entry the id of the worker that tries): every successful
/// attempt pairs the worker with the job it received.
pub open spec fn deliveries(q: Seq<Job>, schedule: Seq<nat>) -> Seq<(nat, Job)>
    decreases schedule.len(),
{
    if schedule.len() == 0 {
        Seq::empty()
    } else {
        match popped(q) {
            Some(job) => seq![(schedule[0], job)] + deliveries(after_pop(q), schedule.drop_first()),
            None => deliveries(after_pop(q), schedule.drop_first()),
        }
    }
}

/// The queue that is left after the pop attempts of `schedule`.
pub open spec fn left_after(q: Seq<Job>, schedule: Seq<nat>) -> Seq<Job>
    decreases schedule.len(),
{
    if schedule.len() == 0 {
        q
    } else {
        left_after(after_pop(q), schedule.drop_first())
    }
}

/// However the pop attempts of any number of workers interleave, once there
/// have been at least as many attempts as jobs, exactly one attempt per job has
/// succeeded and the jobs received are the queued jobs, each once, in queue
/// order; the queue is then empty.
pub proof fn lemma_each_job_delivered_once(q: Seq<Job>, schedule: Seq<nat>)
    requires
        schedule.len() >= q.len(),
    ensures
        deliveries(q, schedule).len() == q.len(),
        deliveries(q, schedule).map_values(|d: (nat, Job)| d.1) == q,
        left_after(q, schedule).len() == 0,
    decreases schedule.len(),
{
    if q.len() == 0 {
        lemma_empty_queue_delivers_nothing(q, schedule);
        assert(deliveries(q, schedule).map_values(|d: (nat, Job)| d.1) =~= q);
    } else {
        let rest = deliveries(after_pop(q), schedule.drop_first());
        lemma_each_job_delivered_once(after_pop(q), schedule.drop_first());
        let all = deliveries(q, schedule);
        assert(all == seq![(schedule[0], q[0])] + rest);
        assert forall|i: int| 0 < i < q.len() implies all[i].1 == q[i] by {
            assert(all[i] == rest[i - 1]);
            assert(rest.map_values(|d: (nat, Job)| d.1)[i - 1] == after_pop(q)[i - 1]);
        }
        assert(all.map_values(|d: (nat, Job)| d.1) =~= q);
    }
}

/// Pop attempts on an empty queue deliver nothing.
proof fn lemma_empty_queue_delivers_nothing(q: Seq<Job>, schedule: Seq<nat>)
    requires
        q.len() == 0,
    ensures
        deliveries(q, schedule).len() == 0,
        left_after(q, schedule).len() == 0,
    decreases schedule.len(),
{
    if schedule.len() > 0 {
        lemma_empty_queue_delivers_nothing(after_pop(q), schedule.drop_first());
    }
}

/// Relies on str::strip_suffix: the part of `s` before `suffix`, if `s` ends
/// with it.
#[verifier::external_body]
fn strip_suffix<'a>(s: &'a str, suffix: &str) -> (r: Option<&'a str>)
    ensures
        r is Some <==> ends_with(s@, suffix@),
        r is Some ==> r->Some_0@ == s@.take(s@.len() - suffix@.len()),
{
    s.strip_suffix(suffix)
}

/// `s` ends with `suffix`.
pub open spec fn ends_with(s: Seq<char>, suffix: Seq<char>) -> bool {
    suffix.len() <= s.len() && s.skip(s.len() - suffix.len()) == suffix
}

/// The destination file name for a source file: the source name without its
/// suffix, followed by the destination suffix; `None` for a name that does not
/// end with the source suffix.
pub fn dest_file_name(source_file_name: &str, source_suffix: &str, dest_suffix: &str) -> (r: Option<String>)
    ensures
        r is Some <==> ends_with(source_file_name@, source_suffix@),
        r is Some ==> r->Some_0@ == source_file_name@.take(
            source_file_name@.len() - source_suffix@.len(),
        ) + dest_suffix@,
{
    match strip_suffix(source_file_name, source_suffix) {
        Some(frame_name) => Some(String::from_str(frame_name).concat(dest_suffix)),
        None => None,
    }
}

} // verus!
