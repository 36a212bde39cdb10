//! The transcription job gateway: what a request carries, how its result is
//! cut to size, and the table of running jobs.

use crate::error::{ApiError, ErrorReport, ErrorSource, OperationNames};
use crate::ident::fresh_id;
use crate::model::opt_text;
use vstd::prelude::*;
use vstd::string::*;

verus! {

/// One timed piece of a transcript. Times and confidence are kept as the bit
/// patterns of their IEEE 754 doubles.
#[derive(Debug)]
pub struct TranscriptionSegment {
    pub text: String,
    pub start: u64,
    pub end: u64,
    pub confidence: Option<u64>,
}

/// A transcript: the full text and its timed segments.
#[derive(Debug)]
pub struct TranscriptionResponse {
    pub text: String,
    pub segments: Vec<TranscriptionSegment>,
}

/// What a caller may ask of a transcription.
#[derive(Debug)]
pub struct TranscriptionOptions {
    /// Seconds after which the engine should give up.
    pub timeout: Option<u64>,
    /// The identifier to track the job under.
    pub job_id: Option<String>,
    /// The largest number of segments to return.
    pub max_segments: Option<usize>,
}

impl Clone for TranscriptionSegment {
    fn clone(&self) -> (r: Self)
        ensures
            r == *self,
    {
        TranscriptionSegment {
            text: self.text.clone(),
            start: self.start,
            end: self.end,
            confidence: self.confidence,
        }
    }
}

impl Clone for TranscriptionResponse {
    fn clone(&self) -> (r: Self)
        ensures
            r.text == self.text,
            r.segments@ == self.segments@,
    {
        let mut segments: Vec<TranscriptionSegment> = Vec::new();
        let mut i: usize = 0;
        while i < self.segments.len()
            invariant
                i <= self.segments.len(),
                segments@ == self.segments@.take(i as int),
            decreases self.segments.len() - i,
        {
            segments.push(self.segments[i].clone());
            proof {
                assert(self.segments@.take(i as int).push(self.segments@[i as int])
                    =~= self.segments@.take(i + 1));
            }
            i += 1;
        }
        proof {
            assert(self.segments@.take(self.segments.len() as int) =~= self.segments@);
        }
        TranscriptionResponse { text: self.text.clone(), segments }
    }
}

impl Default for TranscriptionOptions {
    fn default() -> (r: Self)
        ensures
            r.timeout is None,
            r.job_id is None,
            r.max_segments is None,
    {
        TranscriptionOptions { timeout: None, job_id: None, max_segments: None }
    }
}

impl Clone for TranscriptionOptions {
    fn clone(&self) -> (r: Self)
        ensures
            r.timeout == self.timeout,
            opt_text(r.job_id) == opt_text(self.job_id),
            r.max_segments == self.max_segments,
    {
        TranscriptionOptions {
            timeout: self.timeout,
            job_id: match &self.job_id {
                Some(id) => Some(id.clone()),
                None => None,
            },
            max_segments: self.max_segments,
        }
    }
}

/// The first `max` items of `items`, or all of them where there are fewer or
/// no limit is set.
pub open spec fn limited<T>(items: Seq<T>, max: Option<usize>) -> Seq<T> {
    match max {
        Some(n) => if n < items.len() {
            items.take(n as int)
        } else {
            items
        },
        None => items,
    }
}

impl TranscriptionOptions {
    /// The identifier the job runs under: the caller's, or else `fresh`.
    pub fn job_id_or(&self, fresh: String) -> (id: String)
        ensures
            id@ == match self.job_id {
                Some(given) => given@,
                None => fresh@,
            },
    {
        match &self.job_id {
            Some(given) => given.clone(),
            None => fresh,
        }
    }

    /// The identifier the job runs under: the caller's, or else a new random
    /// one.
    pub fn resolve_job_id(&self) -> (id: String)
        ensures
            self.job_id matches Some(given) ==> id@ == given@,
            self.job_id is None ==> id@.len() == 36,
    {
        let fresh = fresh_id();
        self.job_id_or(fresh)
    }
}

impl TranscriptionResponse {
    /// Cuts the segments down to the first `max_segments`, where a limit is
    /// set and there are more. The text stays.
    pub fn limit_segments(&mut self, max_segments: Option<usize>)
        ensures
            final(self).text == old(self).text,
            final(self).segments@ == limited(old(self).segments@, max_segments),
    {
        if let Some(max) = max_segments {
            if self.segments.len() > max {
                self.segments.truncate(max);
            }
        }
    }
}

/// The error for an audio file that does not exist.
pub fn audio_file_not_found(path: String) -> (e: ApiError)
    ensures
        e@ == (ErrorReport::AudioFileNotFound { path: path@ }),
        e.cause() is None,
{
    ApiError::AudioFileNotFound { path, source: None }
}

/// The error for an audio file that exists and cannot be read: a
/// file-system error that quotes the failure's text and keeps the failure.
pub fn audio_file_unreadable(failure: std::io::Error) -> (e: ApiError)
    ensures
        e@ is FileSystemError,
        e@->FileSystemError_operation == "file system operation"@,
        "Failed to read audio file: "@.is_prefix_of(e@->FileSystemError_details),
        e.cause() == Some(ErrorSource::Io(failure)),
{
    ApiError::from_io(OperationNames::FILE_SYSTEM, "Failed to read audio file: ", failure)
}

/// The running jobs, each with the handle by which it can be cancelled.
pub struct JobTable<H> {
    jobs: Vec<(String, H)>,
}

/// Some job of `s` is tracked under `id`.
pub open spec fn is_tracked<H>(s: Seq<(Seq<char>, H)>, id: Seq<char>) -> bool {
    exists|i: int| 0 <= i < s.len() && (#[trigger] s[i]).0 == id
}

/// The position of the first job of `s` tracked under `id`.
pub open spec fn first_tracked<H>(s: Seq<(Seq<char>, H)>, id: Seq<char>) -> int {
    choose|i: int|
        0 <= i < s.len() && (#[trigger] s[i]).0 == id && forall|j: int|
            0 <= j < i ==> (#[trigger] s[j]).0 != id
}

impl<H> JobTable<H> {
    /// The tracked jobs, oldest first, each with its handle.
    pub closed spec fn jobs(&self) -> Seq<(Seq<char>, H)> {
        Seq::new(self.jobs@.len(), |i: int| (self.jobs@[i].0@, self.jobs@[i].1))
    }

    /// A table without jobs.
    pub fn new() -> (t: Self)
        ensures
            t.jobs() == Seq::<(Seq<char>, H)>::empty(),
    {
        let t = JobTable { jobs: Vec::new() };
        proof {
            assert(t.jobs() =~= Seq::<(Seq<char>, H)>::empty());
        }
        t
    }

    /// The number of tracked jobs.
    pub fn len(&self) -> (n: usize)
        ensures
            n == self.jobs().len(),
    {
        self.jobs.len()
    }

    /// Tracks a job under `job_id`.
    pub fn track(&mut self, job_id: String, handle: H)
        ensures
            final(self).jobs() == old(self).jobs().push((job_id@, handle)),
    {
        self.jobs.push((job_id, handle));
        proof {
            assert(self.jobs() =~= old(self).jobs().push((job_id@, handle)));
        }
    }

    /// Stops tracking the oldest job under `job_id` and hands out its
    /// handle, for the caller to abort or to drop; `None`, and no change,
    /// where no job is tracked under it. An unknown job is no error: the
    /// cancellation of a job that has ended, or never was, does nothing.
    pub fn cancel(&mut self, job_id: &str) -> (r: Option<H>)
        ensures
            match r {
                Some(handle) => is_tracked(old(self).jobs(), job_id@) && handle == old(
                    self,
                ).jobs()[first_tracked(old(self).jobs(), job_id@)].1 && final(self).jobs() == old(
                    self,
                ).jobs().remove(first_tracked(old(self).jobs(), job_id@)),
                None => !is_tracked(old(self).jobs(), job_id@) && final(self).jobs() == old(
                    self,
                ).jobs(),
            },
    {
        let key = String::from_str(job_id);
        let mut i: usize = 0;
        while i < self.jobs.len()
            invariant
                i <= self.jobs.len(),
                key@ == job_id@,
                *self == *old(self),
                forall|j: int| 0 <= j < i ==> (#[trigger] self.jobs()[j]).0 != job_id@,
            decreases self.jobs.len() - i,
        {
            if self.jobs[i].0 == key {
                let ghost before = self.jobs();
                proof {
                    assert(before[i as int].0 == job_id@);
                    let f = first_tracked(before, job_id@);
                    if f < i {
                        assert(before[f].0 != job_id@);
                    }
                }
                let (_, handle) = self.jobs.remove(i);
                proof {
                    assert(self.jobs() =~= before.remove(i as int));
                }
                return Some(handle);
            }
            i += 1;
        }
        None
    }
}

} // verus!
