//! The per-repository state sequence and the failure-isolating result
//! aggregation: one repository's failure never halts the batch, and every
//! processed repository lands in at most one of the two outcome maps.

use vstd::prelude::*;
use vstd::string::StringExecFns;

verus! {

/// One repository's block in the aggregated history report: the name, the
/// release tag that the run would create, and the history summary.
pub open spec fn report_block_text(
    repo: Seq<char>,
    next: Seq<char>,
    history: Seq<char>,
) -> Seq<char> {
    repo + "\nrelease/"@ + next + "\n"@ + history + "\n"@
}

/// Renders one repository's report block, exactly as [`report_block_text`]
/// describes.
pub fn report_block(repo: &str, next: &str, history: &str) -> (r: String)
    ensures
        r@ == report_block_text(repo@, next@, history@),
{
    String::from_str(repo).concat("\nrelease/").concat(next).concat("\n").concat(history).concat(
        "\n",
    )
}

/// How one repository's pipeline ended.
pub enum RepoVerdict {
    /// Published, with the pull-request URL.
    Success(String),
    /// Left out: no history since the last release.
    Skipped,
    /// Dry run: resolved but deliberately not published.
    DryRun,
    /// Aborted at some step, with the error description.
    Failed(String),
}

/// `m` holds an entry for `name`.
pub open spec fn has_name(m: Seq<(String, String)>, name: Seq<char>) -> bool {
    exists|i: int| 0 <= i < m.len() && (#[trigger] m[i]).0@ == name
}

/// `m` maps `name` to `value`.
pub open spec fn has_pair(m: Seq<(String, String)>, name: Seq<char>, value: Seq<char>) -> bool {
    exists|i: int| 0 <= i < m.len() && (#[trigger] m[i]).0@ == name && m[i].1@ == value
}

/// The two disjoint outcome mappings of a run, keyed by repository name.
pub struct PipelineOutcome {
    /// Repository name to pull-request URL.
    pub successes: Vec<(String, String)>,
    /// Repository name to error description.
    pub errors: Vec<(String, String)>,
}

impl PipelineOutcome {
    /// Each name appears at most once over both mappings together.
    pub open spec fn wf(self) -> bool {
        &&& forall|i: int, j: int|
            0 <= i < j < self.successes@.len() ==> (#[trigger] self.successes@[i]).0@ != (
            #[trigger] self.successes@[j]).0@
        &&& forall|i: int, j: int|
            0 <= i < j < self.errors@.len() ==> (#[trigger] self.errors@[i]).0@ != (
            #[trigger] self.errors@[j]).0@
        &&& forall|i: int, j: int|
            0 <= i < self.successes@.len() && 0 <= j < self.errors@.len() ==> (
            #[trigger] self.successes@[i]).0@ != (#[trigger] self.errors@[j]).0@
    }

    /// An empty outcome.
    pub fn new() -> (r: PipelineOutcome)
        ensures
            r.successes@.len() == 0,
            r.errors@.len() == 0,
            r.wf(),
    {
        PipelineOutcome { successes: Vec::new(), errors: Vec::new() }
    }

    /// Enters one repository's verdict into the maps: a success into the
    /// success map, a failure into the error map, and a skipped or
    /// dry-run repository into neither.
    pub fn record(&mut self, name: String, verdict: RepoVerdict)
        requires
            !has_name(old(self).successes@, name@),
            !has_name(old(self).errors@, name@),
        ensures
            match verdict {
                RepoVerdict::Success(u) => ({
                    &&& final(self).successes@.len() == old(self).successes@.len() + 1
                    &&& final(self).successes@.last().0@ == name@
                    &&& final(self).successes@.last().1@ == u@
                    &&& final(self).successes@.take(old(self).successes@.len() as int) == old(
                        self,
                    ).successes@
                    &&& final(self).errors@ == old(self).errors@
                }),
                RepoVerdict::Failed(m) => ({
                    &&& final(self).errors@.len() == old(self).errors@.len() + 1
                    &&& final(self).errors@.last().0@ == name@
                    &&& final(self).errors@.last().1@ == m@
                    &&& final(self).errors@.take(old(self).errors@.len() as int) == old(
                        self,
                    ).errors@
                    &&& final(self).successes@ == old(self).successes@
                }),
                _ => ({
                    &&& final(self).successes@ == old(self).successes@
                    &&& final(self).errors@ == old(self).errors@
                }),
            },
            old(self).wf() ==> final(self).wf(),
    {
        match verdict {
            RepoVerdict::Success(url) => {
                let ghost prev = self.successes@;
                self.successes.push((name, url));
                proof {
                    assert(self.successes@.take(prev.len() as int) =~= prev);
                }
            },
            RepoVerdict::Failed(message) => {
                let ghost prev = self.errors@;
                self.errors.push((name, message));
                proof {
                    assert(self.errors@.take(prev.len() as int) =~= prev);
                }
            },
            RepoVerdict::Skipped => {},
            RepoVerdict::DryRun => {},
        }
    }
}

/// No repository name occurs twice in the batch.
pub open spec fn distinct_names(results: Seq<(String, RepoVerdict)>) -> bool {
    forall|i: int, j: int|
        0 <= i < j < results.len() ==> (#[trigger] results[i]).0@ != (#[trigger] results[j]).0@
}

/// Some repository in `results` succeeded under this name with this URL.
pub open spec fn success_recorded(
    results: Seq<(String, RepoVerdict)>,
    name: Seq<char>,
    url: Seq<char>,
) -> bool {
    exists|i: int|
        0 <= i < results.len() && ((#[trigger] results[i]).1 matches RepoVerdict::Success(u)
            && results[i].0@ == name && u@ == url)
}

/// Some repository in `results` failed under this name with this message.
pub open spec fn failure_recorded(
    results: Seq<(String, RepoVerdict)>,
    name: Seq<char>,
    msg: Seq<char>,
) -> bool {
    exists|i: int|
        0 <= i < results.len() && ((#[trigger] results[i]).1 matches RepoVerdict::Failed(m)
            && results[i].0@ == name && m@ == msg)
}

/// `out` reflects the verdicts in `results` exactly: every success is in
/// the success map, every failure in the error map, skipped and dry-run
/// repositories in neither — and nothing else is in either map.
pub open spec fn outcome_matches(
    results: Seq<(String, RepoVerdict)>,
    out: PipelineOutcome,
) -> bool {
    &&& forall|i: int|
        0 <= i < results.len() ==> match (#[trigger] results[i]).1 {
            RepoVerdict::Success(u) => has_pair(out.successes@, results[i].0@, u@),
            RepoVerdict::Failed(m) => has_pair(out.errors@, results[i].0@, m@),
            RepoVerdict::Skipped => !has_name(out.successes@, results[i].0@) && !has_name(
                out.errors@,
                results[i].0@,
            ),
            RepoVerdict::DryRun => !has_name(out.successes@, results[i].0@) && !has_name(
                out.errors@,
                results[i].0@,
            ),
        }
    &&& forall|j: int|
        0 <= j < out.successes@.len() ==> success_recorded(
            results,
            (#[trigger] out.successes@[j]).0@,
            out.successes@[j].1@,
        )
    &&& forall|j: int|
        0 <= j < out.errors@.len() ==> failure_recorded(
            results,
            (#[trigger] out.errors@[j]).0@,
            out.errors@[j].1@,
        )
}

/// Folds a batch of per-repository verdicts into the two outcome maps,
/// exactly as [`outcome_matches`] describes.
pub fn aggregate(results: Vec<(String, RepoVerdict)>) -> (out: PipelineOutcome)
    requires
        distinct_names(results@),
    ensures
        out.wf(),
        outcome_matches(results@, out),
{
    let ghost orig = results@;
    let mut rest = results;
    let mut out = PipelineOutcome::new();
    let ghost k: int = 0;
    while rest.len() > 0
        invariant
            0 <= k <= orig.len(),
            rest@ == orig.skip(k),
            distinct_names(orig),
            out.wf(),
            outcome_matches(orig.take(k), out),
        decreases rest@.len(),
    {
        let (name, verdict) = rest.remove(0);
        proof {
            assert(orig.skip(k)[0] == orig[k]);
            assert(rest@ =~= orig.skip(k + 1));
            assert(name@ == orig[k].0@);
            assert(verdict == orig[k].1);
            if has_name(out.successes@, name@) {
                let j = choose|j: int|
                    0 <= j < out.successes@.len() && (#[trigger] out.successes@[j]).0@ == name@;
                assert(success_recorded(orig.take(k), out.successes@[j].0@, out.successes@[j].1@));
                let i = choose|i: int|
                    0 <= i < orig.take(k).len() && ((#[trigger] orig.take(k)[i]).1 matches
                        RepoVerdict::Success(u) && orig.take(k)[i].0@ == out.successes@[j].0@ && u@
                        == out.successes@[j].1@);
                assert(orig[i].0@ == orig[k].0@);
                assert(false);
            }
            if has_name(out.errors@, name@) {
                let j = choose|j: int|
                    0 <= j < out.errors@.len() && (#[trigger] out.errors@[j]).0@ == name@;
                assert(failure_recorded(orig.take(k), out.errors@[j].0@, out.errors@[j].1@));
                let i = choose|i: int|
                    0 <= i < orig.take(k).len() && ((#[trigger] orig.take(k)[i]).1 matches
                        RepoVerdict::Failed(m) && orig.take(k)[i].0@ == out.errors@[j].0@ && m@
                        == out.errors@[j].1@);
                assert(orig[i].0@ == orig[k].0@);
                assert(false);
            }
        }
        let ghost pre = out;
        out.record(name, verdict);
        proof {
            assert(orig.take(k + 1).take(k) =~= orig.take(k));
            assert(orig.take(k + 1)[k] == orig[k]);
            assert forall|i: int| 0 <= i < k + 1 implies match (#[trigger] orig.take(k + 1)[i]).1 {
                RepoVerdict::Success(u) => has_pair(out.successes@, orig.take(k + 1)[i].0@, u@),
                RepoVerdict::Failed(m) => has_pair(out.errors@, orig.take(k + 1)[i].0@, m@),
                RepoVerdict::Skipped => !has_name(out.successes@, orig.take(k + 1)[i].0@)
                    && !has_name(out.errors@, orig.take(k + 1)[i].0@),
                RepoVerdict::DryRun => !has_name(out.successes@, orig.take(k + 1)[i].0@)
                    && !has_name(out.errors@, orig.take(k + 1)[i].0@),
            } by {
                if i < k {
                    assert(orig.take(k + 1)[i] == orig.take(k)[i]);
                    lemma_record_preserves(pre, out, orig, k, i);
                } else {
                    lemma_record_new(pre, out, orig, k);
                }
            }
            assert forall|j: int| 0 <= j < out.successes@.len() implies success_recorded(
                orig.take(k + 1),
                (#[trigger] out.successes@[j]).0@,
                out.successes@[j].1@,
            ) by {
                if j < pre.successes@.len() {
                    if out.successes@.len() == pre.successes@.len() + 1 {
                        assert(out.successes@.take(pre.successes@.len() as int)[j]
                            == out.successes@[j]);
                    }
                    assert(out.successes@[j] == pre.successes@[j]);
                    let i = choose|i: int|
                        0 <= i < orig.take(k).len() && ((#[trigger] orig.take(k)[i]).1 matches
                            RepoVerdict::Success(u) && orig.take(k)[i].0@ == pre.successes@[j].0@
                            && u@ == pre.successes@[j].1@);
                    assert(orig.take(k + 1)[i] == orig.take(k)[i]);
                } else {
                    assert(out.successes@[j] == out.successes@.last());
                    assert(orig.take(k + 1)[k] == orig[k]);
                }
            }
            assert forall|j: int| 0 <= j < out.errors@.len() implies failure_recorded(
                orig.take(k + 1),
                (#[trigger] out.errors@[j]).0@,
                out.errors@[j].1@,
            ) by {
                if j < pre.errors@.len() {
                    if out.errors@.len() == pre.errors@.len() + 1 {
                        assert(out.errors@.take(pre.errors@.len() as int)[j] == out.errors@[j]);
                    }
                    assert(out.errors@[j] == pre.errors@[j]);
                    let i = choose|i: int|
                        0 <= i < orig.take(k).len() && ((#[trigger] orig.take(k)[i]).1 matches
                            RepoVerdict::Failed(m) && orig.take(k)[i].0@ == pre.errors@[j].0@ && m@
                            == pre.errors@[j].1@);
                    assert(orig.take(k + 1)[i] == orig.take(k)[i]);
                } else {
                    assert(out.errors@[j] == out.errors@.last());
                    assert(orig.take(k + 1)[k] == orig[k]);
                }
            }
            k = k + 1;
        }
    }
    proof {
        assert(orig.take(k) =~= orig);
    }
    out
}

/// After a record, the entries already present still answer for the
/// earlier repositories.
proof fn lemma_record_preserves(
    pre: PipelineOutcome,
    post: PipelineOutcome,
    orig: Seq<(String, RepoVerdict)>,
    k: int,
    i: int,
)
    requires
        0 <= i < k < orig.len(),
        outcome_matches(orig.take(k), pre),
        distinct_names(orig),
        post.successes@ == pre.successes@ || (post.successes@.len() == pre.successes@.len() + 1
            && post.successes@.take(pre.successes@.len() as int) == pre.successes@
            && post.successes@.last().0@ == orig[k].0@),
        post.errors@ == pre.errors@ || (post.errors@.len() == pre.errors@.len() + 1
            && post.errors@.take(pre.errors@.len() as int) == pre.errors@
            && post.errors@.last().0@ == orig[k].0@),
    ensures
        match orig[i].1 {
            RepoVerdict::Success(u) => has_pair(post.successes@, orig[i].0@, u@),
            RepoVerdict::Failed(m) => has_pair(post.errors@, orig[i].0@, m@),
            RepoVerdict::Skipped => !has_name(post.successes@, orig[i].0@) && !has_name(
                post.errors@,
                orig[i].0@,
            ),
            RepoVerdict::DryRun => !has_name(post.successes@, orig[i].0@) && !has_name(
                post.errors@,
                orig[i].0@,
            ),
        },
{
    assert(orig.take(k)[i] == orig[i]);
    assert(orig[i].0@ != orig[k].0@);
    match orig[i].1 {
        RepoVerdict::Success(u) => {
            let j = choose|j: int|
                0 <= j < pre.successes@.len() && (#[trigger] pre.successes@[j]).0@ == orig[i].0@
                    && pre.successes@[j].1@ == u@;
            if post.successes@ != pre.successes@ {
                assert(post.successes@[j] == pre.successes@[j]);
            }
            assert(has_pair(post.successes@, orig[i].0@, u@));
        },
        RepoVerdict::Failed(m) => {
            let j = choose|j: int|
                0 <= j < pre.errors@.len() && (#[trigger] pre.errors@[j]).0@ == orig[i].0@
                    && pre.errors@[j].1@ == m@;
            if post.errors@ != pre.errors@ {
                assert(post.errors@[j] == pre.errors@[j]);
            }
            assert(has_pair(post.errors@, orig[i].0@, m@));
        },
        _ => {
            assert forall|j: int| 0 <= j < post.successes@.len() implies (
            #[trigger] post.successes@[j]).0@ != orig[i].0@ by {
                if post.successes@ != pre.successes@ && j < pre.successes@.len() {
                    assert(post.successes@[j] == pre.successes@[j]);
                }
            }
            assert forall|j: int| 0 <= j < post.errors@.len() implies (
            #[trigger] post.errors@[j]).0@ != orig[i].0@ by {
                if post.errors@ != pre.errors@ && j < pre.errors@.len() {
                    assert(post.errors@[j] == pre.errors@[j]);
                }
            }
        },
    }
}

/// The just-recorded repository answers for its own verdict.
proof fn lemma_record_new(
    pre: PipelineOutcome,
    post: PipelineOutcome,
    orig: Seq<(String, RepoVerdict)>,
    k: int,
)
    requires
        0 <= k < orig.len(),
        outcome_matches(orig.take(k), pre),
        match orig[k].1 {
            RepoVerdict::Success(u) => post.successes@.len() == pre.successes@.len() + 1
                && post.successes@.last().0@ == orig[k].0@ && post.successes@.last().1@ == u@
                && post.errors@ == pre.errors@,
            RepoVerdict::Failed(m) => post.errors@.len() == pre.errors@.len() + 1
                && post.errors@.last().0@ == orig[k].0@ && post.errors@.last().1@ == m@
                && post.successes@ == pre.successes@,
            _ => post.successes@ == pre.successes@ && post.errors@ == pre.errors@,
        },
        !has_name(pre.successes@, orig[k].0@),
        !has_name(pre.errors@, orig[k].0@),
    ensures
        match orig[k].1 {
            RepoVerdict::Success(u) => has_pair(post.successes@, orig[k].0@, u@),
            RepoVerdict::Failed(m) => has_pair(post.errors@, orig[k].0@, m@),
            RepoVerdict::Skipped => !has_name(post.successes@, orig[k].0@) && !has_name(
                post.errors@,
                orig[k].0@,
            ),
            RepoVerdict::DryRun => !has_name(post.successes@, orig[k].0@) && !has_name(
                post.errors@,
                orig[k].0@,
            ),
        },
{
    match orig[k].1 {
        RepoVerdict::Success(u) => {
            assert(post.successes@[post.successes@.len() - 1].0@ == orig[k].0@);
        },
        RepoVerdict::Failed(m) => {
            assert(post.errors@[post.errors@.len() - 1].0@ == orig[k].0@);
        },
        _ => {},
    }
}

/// One failing repository puts exactly one entry in the error map and
/// leaves the others' outcomes untouched: given three distinct
/// repositories whose middle one failed and whose neighbours did not,
/// the error map holds precisely the middle repository's error, and each
/// successful neighbour keeps its success entry.
pub proof fn lemma_failure_isolated(results: Seq<(String, RepoVerdict)>, out: PipelineOutcome)
    requires
        out.wf(),
        outcome_matches(results, out),
        distinct_names(results),
        results.len() == 3,
        results[1].1 is Failed,
        !(results[0].1 is Failed),
        !(results[2].1 is Failed),
    ensures
        out.errors@.len() == 1,
        out.errors@[0].0@ == results[1].0@,
        results[1].1 matches RepoVerdict::Failed(m) ==> out.errors@[0].1@ == m@,
        results[0].1 matches RepoVerdict::Success(u) ==> has_pair(out.successes@, results[0].0@, u@),
        results[2].1 matches RepoVerdict::Success(u) ==> has_pair(out.successes@, results[2].0@, u@),
{
    assert forall|j: int| 0 <= j < out.errors@.len() implies (#[trigger] out.errors@[j]).0@
        == results[1].0@ && (results[1].1 matches RepoVerdict::Failed(m) ==> out.errors@[j].1@
        == m@) by {
        assert(failure_recorded(results, out.errors@[j].0@, out.errors@[j].1@));
        let i = choose|i: int|
            0 <= i < results.len() && ((#[trigger] results[i]).1 matches RepoVerdict::Failed(m)
                && results[i].0@ == out.errors@[j].0@ && m@ == out.errors@[j].1@);
        assert(i == 1);
    }
    assert(match results[1].1 {
        RepoVerdict::Failed(m) => has_pair(out.errors@, results[1].0@, m@),
        _ => true,
    });
    assert(out.errors@.len() >= 1);
    if out.errors@.len() >= 2 {
        assert(out.errors@[0].0@ == out.errors@[1].0@);
        assert(false);
    }
}

/// Where one repository stands in its pipeline.
pub enum Stage {
    /// Waiting for the repository's type classification.
    ResolveType,
    /// Waiting for the working copy to be synchronized.
    Sync,
    /// Waiting for the history summary.
    Summarize,
    /// Waiting for the rebuild.
    Rebuild,
    /// Waiting for the version pair.
    ResolveVersion,
    /// Waiting for the publish result.
    Publish,
    /// Finished, with the verdict.
    Done(RepoVerdict),
}

/// What just happened to the repository being processed.
pub enum StepEvent {
    TypeResolved,
    Synced,
    /// The history summary arrived; an empty one can skip the repository.
    Summarized { history_empty: bool },
    Rebuilt,
    VersionResolved,
    /// The publish finished, with the pull-request URL.
    Published(String),
    /// The current step failed, with the error description.
    StepFailed(String),
}

/// Drives one repository through its step sequence, honouring the run's
/// toggles.
pub struct RepoPipeline {
    pub stage: Stage,
    pub rebuild_required: bool,
    pub version_update_required: bool,
    pub process_only_updated: bool,
}

/// `event` is the answer the current stage is waiting for; a failure
/// fits every unfinished stage.
pub open spec fn event_fits(stage: Stage, event: StepEvent) -> bool {
    match event {
        StepEvent::StepFailed(_) => !(stage is Done),
        StepEvent::TypeResolved => stage is ResolveType,
        StepEvent::Synced => stage is Sync,
        StepEvent::Summarized { .. } => stage is Summarize,
        StepEvent::Rebuilt => stage is Rebuild,
        StepEvent::VersionResolved => stage is ResolveVersion,
        StepEvent::Published(_) => stage is Publish,
    }
}

/// The per-repository transition relation: any step failure ends in
/// `Failed`; an empty history skips the repository when only updated
/// ones are processed; the rebuild runs only when required; a dry run
/// stops after version resolution; a publish ends in `Success`.
pub open spec fn next_stage(p: RepoPipeline, event: StepEvent) -> Stage {
    match event {
        StepEvent::StepFailed(m) => Stage::Done(RepoVerdict::Failed(m)),
        StepEvent::TypeResolved => Stage::Sync,
        StepEvent::Synced => Stage::Summarize,
        StepEvent::Summarized { history_empty } => if p.process_only_updated && history_empty {
            Stage::Done(RepoVerdict::Skipped)
        } else if p.rebuild_required {
            Stage::Rebuild
        } else {
            Stage::ResolveVersion
        },
        StepEvent::Rebuilt => Stage::ResolveVersion,
        StepEvent::VersionResolved => if p.version_update_required {
            Stage::Publish
        } else {
            Stage::Done(RepoVerdict::DryRun)
        },
        StepEvent::Published(url) => Stage::Done(RepoVerdict::Success(url)),
    }
}

impl RepoPipeline {
    /// A fresh pipeline for one repository, waiting for its type.
    pub fn new(
        rebuild_required: bool,
        version_update_required: bool,
        process_only_updated: bool,
    ) -> (r: RepoPipeline)
        ensures
            r.stage is ResolveType,
            r.rebuild_required == rebuild_required,
            r.version_update_required == version_update_required,
            r.process_only_updated == process_only_updated,
    {
        RepoPipeline {
            stage: Stage::ResolveType,
            rebuild_required,
            version_update_required,
            process_only_updated,
        }
    }

    /// Takes one step, exactly as [`next_stage`] describes; the toggles
    /// never change.
    pub fn advance(&mut self, event: StepEvent)
        requires
            event_fits(old(self).stage, event),
        ensures
            final(self).stage == next_stage(*old(self), event),
            final(self).rebuild_required == old(self).rebuild_required,
            final(self).version_update_required == old(self).version_update_required,
            final(self).process_only_updated == old(self).process_only_updated,
    {
        let next = match event {
            StepEvent::StepFailed(m) => Stage::Done(RepoVerdict::Failed(m)),
            StepEvent::TypeResolved => Stage::Sync,
            StepEvent::Synced => Stage::Summarize,
            StepEvent::Summarized { history_empty } => {
                if self.process_only_updated && history_empty {
                    Stage::Done(RepoVerdict::Skipped)
                } else if self.rebuild_required {
                    Stage::Rebuild
                } else {
                    Stage::ResolveVersion
                }
            },
            StepEvent::Rebuilt => Stage::ResolveVersion,
            StepEvent::VersionResolved => {
                if self.version_update_required {
                    Stage::Publish
                } else {
                    Stage::Done(RepoVerdict::DryRun)
                }
            },
            StepEvent::Published(url) => Stage::Done(RepoVerdict::Success(url)),
        };
        self.stage = next;
    }
}

} // verus!
