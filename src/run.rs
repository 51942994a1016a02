use vstd::prelude::*;
use crate::dispatch::{plan_spec, plan_walk, IgnorePolicy, WalkPlan};
use crate::exclude::{
    build_excludes, chain_matches, patterns_compile, lemma_excluded_ancestor_skips,
    lemma_reinclude_is_visited, MatchKind, pattern_lines, should_skip_root, skips_root, Ancestor,
    ConfigError, Excludes,
};
use crate::outcome::{absorb_spec, classify_spec, code_spec, finalize_spec, PathOutcome, RunResult};

verus! {

/// Everything the walk of one input path needs: its plan and, when the
/// policy has custom patterns, the matcher to filter every entry with.
pub struct PathPlan {
    pub walk: WalkPlan,
    pub excludes: Option<Excludes>,
}

/// What becomes of one input path before any entry under it is read.
pub enum PathDecision {
    /// The path is excluded as a whole: nothing under it is walked.
    Skip,
    /// The path is walked as planned.
    Walk(PathPlan),
}

/// Whether the pre-filter skips the path: force-exclude mode, custom
/// patterns, and an ancestor chain whose first verdict excludes.
pub open spec fn skip_spec(patterns: Seq<String>, force_exclude: bool, chain: Seq<Ancestor>) -> bool {
    force_exclude && patterns.len() > 0 && skips_root(chain_matches(pattern_lines(patterns), chain))
}

/// Prepares the walk of one input path from its policy: plans threads and
/// toggles, compiles the custom patterns, and in force-exclude mode runs the
/// ancestor pre-filter. `chain` lists the path's ancestors leaf first; it is
/// read only in force-exclude mode. A pattern that does not compile is an
/// error, and the only one: success is owed whenever the patterns compile.
pub fn prepare_path(
    policy: &IgnorePolicy,
    is_file: bool,
    sort: bool,
    threads: usize,
    force_exclude: bool,
    chain: &Vec<Ancestor>,
) -> (r: Result<PathDecision, ConfigError>)
    ensures
        policy.extend_exclude.len() == 0 ==> r is Ok,
        policy.extend_exclude.len() > 0 ==> (r is Ok <==> patterns_compile(policy.extend_exclude@)),
        r matches Ok(PathDecision::Skip) ==> skip_spec(policy.extend_exclude@, force_exclude, chain@),
        r matches Ok(PathDecision::Walk(p)) ==> {
            &&& !skip_spec(policy.extend_exclude@, force_exclude, chain@)
            &&& p.walk == plan_spec(*policy, is_file, sort, threads)
            &&& (p.excludes is Some <==> policy.extend_exclude.len() > 0)
            &&& (p.excludes matches Some(e) ==> e.lines() == pattern_lines(policy.extend_exclude@))
        },
{
    let walk = plan_walk(policy, is_file, sort, threads);
    let excludes = match build_excludes(&policy.extend_exclude) {
        Ok(e) => e,
        Err(e) => return Err(e),
    };
    if should_skip_root(&excludes, force_exclude, chain) {
        return Ok(PathDecision::Skip);
    }
    Ok(PathDecision::Walk(PathPlan { walk, excludes }))
}

/// What came of one input path.
#[derive(Clone, Copy, Debug, PartialEq, Eq, Structural)]
pub enum PathEvent {
    /// The path was walked to the end, with these flags.
    Walked(PathOutcome),
    /// The pre-filter skipped the path.
    Skipped,
    /// The path could not be handled; the run stops with this status.
    Failed(i32),
}

/// What the run does after one input path.
#[derive(Clone, Copy, Debug, PartialEq, Eq, Structural)]
pub enum RunStep {
    /// Go on with the next input path.
    Next,
    /// Stop the whole run at once with this status.
    Stop(i32),
}

/// Takes in what came of one input path: a walked path's flags are merged,
/// a skipped path changes nothing, and a failure stops the run; there is no
/// going on to later paths after a hard error.
pub fn step_run(run: &mut RunResult, ev: PathEvent) -> (s: RunStep)
    ensures
        ev matches PathEvent::Walked(o) ==> *final(run) == absorb_spec(*old(run), o) && s
            == RunStep::Next,
        ev is Skipped ==> *final(run) == *old(run) && s == RunStep::Next,
        ev matches PathEvent::Failed(c) ==> *final(run) == *old(run) && s == RunStep::Stop(c),
{
    match ev {
        PathEvent::Walked(o) => {
            run.absorb(o);
            RunStep::Next
        },
        PathEvent::Skipped => RunStep::Next,
        PathEvent::Failed(c) => RunStep::Stop(c),
    }
}

/// Ends a run whose paths were all handled: records the final flush and
/// gives the exit status.
pub fn finish_run(run: RunResult, finalize_ok: bool) -> (code: i32)
    ensures
        code == code_spec(classify_spec(finalize_spec(run, finalize_ok))),
{
    let mut run = run;
    run.record_finalize(finalize_ok);
    run.classify().code()
}

/// With force-exclude mode and custom patterns, an ancestor that the
/// patterns exclude, below ancestors on which they have no verdict, skips
/// the whole input path, so nothing under it is walked.
pub proof fn lemma_excluded_ancestor_skips_path(patterns: Seq<String>, chain: Seq<Ancestor>, k: int)
    requires
        patterns.len() > 0,
        0 <= k < chain.len(),
        chain_matches(pattern_lines(patterns), chain)[k] == MatchKind::Excluded,
        forall|j: int|
            0 <= j < k ==> chain_matches(pattern_lines(patterns), chain)[j] == MatchKind::Unmatched,
    ensures
        skip_spec(patterns, true, chain),
{
    lemma_excluded_ancestor_skips(chain_matches(pattern_lines(patterns), chain), k);
}

/// An ancestor that the patterns re-include, below ancestors on which they
/// have no verdict, keeps the input path from being skipped.
pub proof fn lemma_reincluded_path_is_walked(
    patterns: Seq<String>,
    force_exclude: bool,
    chain: Seq<Ancestor>,
    k: int,
)
    requires
        0 <= k < chain.len(),
        chain_matches(pattern_lines(patterns), chain)[k] == MatchKind::Reincluded,
        forall|j: int|
            0 <= j < k ==> chain_matches(pattern_lines(patterns), chain)[j] == MatchKind::Unmatched,
    ensures
        !skip_spec(patterns, force_exclude, chain),
{
    lemma_reinclude_is_visited(chain_matches(pattern_lines(patterns), chain), k);
}

} // verus!
