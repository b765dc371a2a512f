//! The leaf-download stage: the per-reference destination decision and the
//! pool that holds concurrent downloads to a fixed bound.
//!
//! Each leaf reference either fails URI parsing (dropped by itself), is
//! skipped because its destination file already exists, or becomes a fetch
//! job. Jobs run at most [`MAX_IN_FLIGHT`] at a time; the rest wait in
//! submission order. A job that fails frees its slot and contributes
//! nothing — it never removes a collected path or stalls the queue.

use vstd::prelude::*;

use crate::model::PdscRef;
use crate::uri::{parse_uri, uri_authority, uri_ok, uri_text, authority_view, UriParts};
use crate::urls::{dest_file_name, leaf_url, spec_dest_file_name, spec_leaf_url};

verus! {

/// The concurrency bound of the download stage.
pub const MAX_IN_FLIGHT: usize = 32;

/// One download ready to run: the URI to fetch, the source base URL it came
/// from (kept for diagnostics), and the file name to write the body under.
pub struct FetchJob {
    pub uri: UriParts,
    pub source_url: String,
    pub file_name: String,
}

/// The destination decision for one leaf reference.
pub enum LeafPlan {
    /// The leaf's source URL does not parse: the reference is dropped by
    /// itself, with no request issued.
    BadUri,
    /// The destination file already exists: the artifact counts as present
    /// and no request is issued for it.
    Skip,
    /// The artifact is to be fetched and written.
    Fetch(FetchJob),
}

/// Decides what to do with one leaf reference, given whether its destination
/// file already exists. The decision reads nothing but the reference and
/// that one bit.
pub fn decide_leaf(r: &PdscRef, exists: bool) -> (d: LeafPlan)
    ensures
        d is BadUri <==> !uri_ok(spec_leaf_url(r.url@, r.vendor@, r.name@)),
        d is Skip <==> uri_ok(spec_leaf_url(r.url@, r.vendor@, r.name@)) && exists,
        d is Fetch <==> uri_ok(spec_leaf_url(r.url@, r.vendor@, r.name@)) && !exists,
        d matches LeafPlan::Fetch(job) ==> {
            &&& job.uri.text@ == uri_text(spec_leaf_url(r.url@, r.vendor@, r.name@))
            &&& authority_view(job.uri.authority) == uri_authority(
                spec_leaf_url(r.url@, r.vendor@, r.name@),
            )
            &&& job.source_url@ == r.url@
            &&& job.file_name@ == spec_dest_file_name(r.vendor@, r.name@, r.version@)
        },
{
    let url = leaf_url(r);
    match parse_uri(url.as_str()) {
        None => LeafPlan::BadUri,
        Some(u) => {
            if exists {
                LeafPlan::Skip
            } else {
                LeafPlan::Fetch(
                    FetchJob {
                        uri: u,
                        source_url: r.url.clone(),
                        file_name: dest_file_name(r),
                    },
                )
            }
        },
    }
}

/// The download pool: how many jobs hold a slot right now, the jobs waiting
/// for one, and the file names written so far in this run.
pub struct DownloadPool {
    pub in_flight: usize,
    pub queued: Vec<FetchJob>,
    pub written: Vec<String>,
}

impl DownloadPool {
    /// The pool never holds more slots than the bound allows.
    pub open spec fn wf(self) -> bool {
        self.in_flight <= MAX_IN_FLIGHT
    }

    /// An idle pool: no slot taken, nothing queued, nothing written.
    pub fn new() -> (r: DownloadPool)
        ensures
            r.wf(),
            r.in_flight == 0,
            r.queued@.len() == 0,
            r.written@.len() == 0,
    {
        DownloadPool { in_flight: 0, queued: Vec::new(), written: Vec::new() }
    }

    /// Offers a job to the pool. It is handed back to be started at once —
    /// taking a slot — exactly when fewer than [`MAX_IN_FLIGHT`] jobs are in
    /// flight; otherwise it joins the queue and waits its turn.
    pub fn submit(&mut self, job: FetchJob) -> (start: Option<FetchJob>)
        requires
            old(self).wf(),
        ensures
            final(self).wf(),
            start is Some <==> old(self).in_flight < MAX_IN_FLIGHT,
            start matches Some(j) ==> j == job && final(self).in_flight == old(self).in_flight + 1
                && final(self).queued == old(self).queued,
            start is None ==> final(self).in_flight == old(self).in_flight && final(self).queued@
                == old(self).queued@.push(job),
            final(self).written == old(self).written,
    {
        if self.in_flight < MAX_IN_FLIGHT {
            self.in_flight = self.in_flight + 1;
            Some(job)
        } else {
            self.queued.push(job);
            None
        }
    }

    /// Records one finished job: a success appends the path it wrote, a
    /// failure appends nothing. Either way the freed slot goes to the oldest
    /// queued job, which is handed back to be started; which job that is
    /// never depends on how the finished one ended.
    pub fn complete(&mut self, result: Option<String>) -> (next: Option<FetchJob>)
        requires
            old(self).wf(),
            old(self).in_flight >= 1,
        ensures
            final(self).wf(),
            result matches Some(p) ==> final(self).written@ == old(self).written@.push(p),
            result is None ==> final(self).written == old(self).written,
            old(self).queued@.len() > 0 ==> (next matches Some(j) && j == old(self).queued@[0]
                && final(self).queued@ == old(self).queued@.drop_first() && final(self).in_flight
                == old(self).in_flight),
            old(self).queued@.len() == 0 ==> next is None && final(self).queued == old(self).queued
                && final(self).in_flight == old(self).in_flight - 1,
    {
        match result {
            Some(p) => self.written.push(p),
            None => (),
        }
        if self.queued.len() > 0 {
            let j = self.queued.remove(0);
            proof {
                assert(self.queued@ =~= old(self).queued@.drop_first());
            }
            Some(j)
        } else {
            self.in_flight = self.in_flight - 1;
            None
        }
    }

    /// Hands out the paths newly written during this run, in completion
    /// order.
    pub fn into_written(self) -> (r: Vec<String>)
        ensures
            r@ == self.written@,
    {
        self.written
    }
}

/// A well-formed pool never has more than [`MAX_IN_FLIGHT`] downloads in
/// flight, however many references wait behind them.
pub proof fn lemma_bounded_concurrency(p: DownloadPool)
    requires
        p.wf(),
    ensures
        p.in_flight <= MAX_IN_FLIGHT,
{
}

/// The successful results of a run, in completion order: what a completion
/// sequence contributes to the written list.
pub open spec fn spec_collected(results: Seq<Option<Seq<char>>>) -> Seq<Seq<char>>
    decreases results.len(),
{
    if results.len() == 0 {
        Seq::empty()
    } else {
        match results[0] {
            Some(p) => seq![p] + spec_collected(results.drop_first()),
            None => spec_collected(results.drop_first()),
        }
    }
}

/// The written list after a run that completes with `results`, one
/// completion at a time, exactly as [`DownloadPool::complete`] records them.
pub open spec fn spec_written_after(
    written: Seq<Seq<char>>,
    results: Seq<Option<Seq<char>>>,
) -> Seq<Seq<char>>
    decreases results.len(),
{
    if results.len() == 0 {
        written
    } else {
        let w1 = match results[0] {
            Some(p) => written.push(p),
            None => written,
        };
        spec_written_after(w1, results.drop_first())
    }
}

/// What a run collects is exactly its successful results, in completion
/// order, appended to what was already there.
pub proof fn lemma_collected_are_successes(
    written: Seq<Seq<char>>,
    results: Seq<Option<Seq<char>>>,
)
    ensures
        spec_written_after(written, results) == written + spec_collected(results),
    decreases results.len(),
{
    if results.len() == 0 {
        assert(spec_written_after(written, results) =~= written + spec_collected(results));
    } else {
        let rest = results.drop_first();
        match results[0] {
            Some(p) => {
                lemma_collected_are_successes(written.push(p), rest);
                assert(written.push(p) + spec_collected(rest) =~= written + spec_collected(
                    results,
                ));
            },
            None => {
                lemma_collected_are_successes(written, rest);
            },
        }
    }
}

/// A failed download is isolated: a run with a failure at one position
/// collects exactly what the same run without that completion collects —
/// every other success still comes through, and nothing is lost.
pub proof fn lemma_failure_isolated(results: Seq<Option<Seq<char>>>, i: int)
    requires
        0 <= i < results.len(),
        results[i] is None,
    ensures
        spec_collected(results) == spec_collected(results.remove(i)),
    decreases results.len(),
{
    if i == 0 {
        assert(results.remove(0) =~= results.drop_first());
    } else {
        let rest = results.drop_first();
        lemma_failure_isolated(rest, i - 1);
        assert(results.remove(i).drop_first() =~= rest.remove(i - 1));
        assert(results.remove(i)[0] == results[0]);
        assert(results.remove(i).len() != 0);
    }
}

} // verus!
