use vstd::prelude::*;

verus! {

/// The directory-scoped ignore policy that the policy engine hands out.
pub struct IgnorePolicy {
    pub ignore_hidden: bool,
    pub ignore_dot: bool,
    pub ignore_global: bool,
    pub ignore_vcs: bool,
    pub ignore_parent: bool,
    pub extend_exclude: Vec<String>,
}

/// How one input path is walked.
#[derive(Clone, Copy, Debug, PartialEq, Eq, Structural)]
pub struct WalkPlan {
    pub threads: usize,
    pub single_threaded: bool,
    pub sorted: bool,
    pub hidden: bool,
    pub ignore: bool,
    pub git_global: bool,
    pub git_ignore: bool,
    pub git_exclude: bool,
    pub parents: bool,
    pub skip_stdout: bool,
}

pub open spec fn threads_spec(is_file: bool, sort: bool, threads: usize) -> usize {
    if is_file || sort {
        1
    } else {
        threads
    }
}

/// The thread count of a walk: a single file, or a sorted walk, is always
/// walked by one thread; otherwise the configured count stands.
pub fn effective_threads(is_file: bool, sort: bool, threads: usize) -> (r: usize)
    ensures
        r == threads_spec(is_file, sort, threads),
        is_file ==> r == 1,
        sort ==> r == 1,
{
    if is_file || sort {
        1
    } else {
        threads
    }
}

pub open spec fn plan_spec(policy: IgnorePolicy, is_file: bool, sort: bool, threads: usize) -> WalkPlan {
    WalkPlan {
        threads: threads_spec(is_file, sort, threads),
        single_threaded: threads_spec(is_file, sort, threads) == 1,
        sorted: sort,
        hidden: policy.ignore_hidden,
        ignore: policy.ignore_dot,
        git_global: policy.ignore_global,
        git_ignore: policy.ignore_vcs,
        git_exclude: policy.ignore_vcs,
        parents: policy.ignore_parent,
        skip_stdout: true,
    }
}

/// The walk of one input path: its thread count and ordering, and the five
/// ignore toggles taken as they stand from the policy.
pub fn plan_walk(policy: &IgnorePolicy, is_file: bool, sort: bool, threads: usize) -> (r: WalkPlan)
    ensures
        r == plan_spec(*policy, is_file, sort, threads),
        is_file ==> r.single_threaded && r.threads == 1,
        sort ==> r.single_threaded && r.threads == 1 && r.sorted,
{
    let t = effective_threads(is_file, sort, threads);
    WalkPlan {
        threads: t,
        single_threaded: t == 1,
        sorted: sort,
        hidden: policy.ignore_hidden,
        ignore: policy.ignore_dot,
        git_global: policy.ignore_global,
        git_ignore: policy.ignore_vcs,
        git_exclude: policy.ignore_vcs,
        parents: policy.ignore_parent,
        skip_stdout: true,
    }
}

/// A sorted walk is never parallel, whatever thread count was asked for.
pub proof fn lemma_sort_excludes_parallel(policy: IgnorePolicy, is_file: bool, threads: usize)
    ensures
        plan_spec(policy, is_file, true, threads).single_threaded,
        plan_spec(policy, is_file, true, threads).threads == 1,
{
}

/// A single file is always walked by one thread, whatever thread count was
/// asked for and whether or not the walk is sorted.
pub proof fn lemma_file_single_threaded(policy: IgnorePolicy, sort: bool, threads: usize)
    ensures
        plan_spec(policy, true, sort, threads).single_threaded,
        plan_spec(policy, true, sort, threads).threads == 1,
{
}

/// The per-entry behaviour selected once for the whole run.
#[derive(Clone, Copy, Debug, PartialEq, Eq, Structural)]
pub enum CheckBehavior {
    FoundFiles,
    FileTypes,
    HighlightIdentifiers,
    Identifiers,
    HighlightWords,
    Words,
    FixTypos,
    DiffTypos,
    Typos,
}

/// The behaviour switches of the command line.
#[derive(Clone, Copy, Debug, PartialEq, Eq, Structural)]
pub struct BehaviorFlags {
    pub files: bool,
    pub file_types: bool,
    pub highlight_identifiers: bool,
    pub identifiers: bool,
    pub highlight_words: bool,
    pub words: bool,
    pub write_changes: bool,
    pub diff: bool,
}

pub open spec fn behavior_spec(f: BehaviorFlags) -> CheckBehavior {
    if f.files {
        CheckBehavior::FoundFiles
    } else if f.file_types {
        CheckBehavior::FileTypes
    } else if f.highlight_identifiers {
        CheckBehavior::HighlightIdentifiers
    } else if f.identifiers {
        CheckBehavior::Identifiers
    } else if f.highlight_words {
        CheckBehavior::HighlightWords
    } else if f.words {
        CheckBehavior::Words
    } else if f.write_changes {
        CheckBehavior::FixTypos
    } else if f.diff {
        CheckBehavior::DiffTypos
    } else {
        CheckBehavior::Typos
    }
}

/// Picks the behaviour: the first switch set, in the order of the fields,
/// wins; with none set, typos are reported.
pub fn select_behavior(f: BehaviorFlags) -> (r: CheckBehavior)
    ensures
        r == behavior_spec(f),
{
    if f.files {
        CheckBehavior::FoundFiles
    } else if f.file_types {
        CheckBehavior::FileTypes
    } else if f.highlight_identifiers {
        CheckBehavior::HighlightIdentifiers
    } else if f.identifiers {
        CheckBehavior::Identifiers
    } else if f.highlight_words {
        CheckBehavior::HighlightWords
    } else if f.words {
        CheckBehavior::Words
    } else if f.write_changes {
        CheckBehavior::FixTypos
    } else if f.diff {
        CheckBehavior::DiffTypos
    } else {
        CheckBehavior::Typos
    }
}

/// Whether the per-file messages are silenced: a diff cannot be mixed with
/// other output.
pub fn silence_reporter(f: BehaviorFlags) -> (r: bool)
    ensures
        r == f.diff,
{
    f.diff
}

} // verus!
