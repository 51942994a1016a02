use typos_run::context::{resolve_context, InputKind, UsageError};
use typos_run::dispatch::{
    effective_threads, plan_walk, select_behavior, silence_reporter, BehaviorFlags, CheckBehavior,
    IgnorePolicy,
};
use typos_run::exclude::{
    ancestor_step, build_excludes, entry_allowed, entry_visible, prefilter_verdict, should_skip_root,
    skip_root, Ancestor, AncestorStep,
};
use typos_run::exclude::MatchKind::{Excluded, Reincluded, Unmatched};
use typos_run::outcome::{aggregate, walk_error_status, ExitClass, PathOutcome, RunResult};

fn out(typos: bool, errors: bool) -> PathOutcome {
    PathOutcome { typos_found: typos, errors_found: errors }
}

fn comps(parts: &[&str]) -> Vec<String> {
    parts.iter().map(|s| s.to_string()).collect()
}

fn policy(patterns: &[&str]) -> IgnorePolicy {
    IgnorePolicy {
        ignore_hidden: true,
        ignore_dot: false,
        ignore_global: true,
        ignore_vcs: false,
        ignore_parent: true,
        extend_exclude: patterns.iter().map(|s| s.to_string()).collect(),
    }
}

fn chain(paths: &[(&str, bool)]) -> Vec<Ancestor> {
    paths.iter().map(|(p, d)| Ancestor { path: p.to_string(), is_dir: *d }).collect()
}

#[test]
fn error_dominates_findings() {
    let outs = vec![out(true, false), out(false, true), out(true, false)];
    assert_eq!(aggregate(&outs, true), ExitClass::Failure);
    assert_eq!(aggregate(&outs, true).code(), 1);
}

#[test]
fn findings_dominate_success() {
    let outs = vec![out(false, false), out(true, false)];
    assert_eq!(aggregate(&outs, true), ExitClass::Findings);
    assert_eq!(aggregate(&outs, true).code(), 2);
}

#[test]
fn clean_run_succeeds() {
    let outs = vec![out(false, false), out(false, false)];
    assert_eq!(aggregate(&outs, true), ExitClass::Success);
    assert_eq!(aggregate(&outs, true).code(), 0);
    assert_eq!(aggregate(&Vec::new(), true), ExitClass::Success);
}

#[test]
fn typos_stick_across_paths() {
    let mut run = RunResult::new();
    run.absorb(out(true, false));
    run.absorb(out(false, false));
    assert!(run.typos_found);
    assert!(!run.errors_found);
    let mut other = RunResult::new();
    other.absorb(out(false, false));
    other.absorb(out(true, false));
    assert!(other.typos_found);
    assert_eq!(other.classify(), ExitClass::Findings);
}

#[test]
fn finalize_failure_alone_fails() {
    let outs = vec![out(false, false)];
    assert_eq!(aggregate(&outs, false), ExitClass::Failure);
    let mut run = RunResult::new();
    run.record_finalize(false);
    assert!(run.errors_found);
    assert_eq!(run.classify(), ExitClass::Failure);
}

#[test]
fn walk_error_statuses() {
    assert_eq!(walk_error_status(false, Some(66), Some(141)), 1);
    assert_eq!(walk_error_status(true, Some(77), Some(141)), 77);
    assert_eq!(walk_error_status(true, None, Some(141)), 141);
    assert_eq!(walk_error_status(true, None, None), 74);
}

#[test]
fn stdin_marker_uses_process_cwd() {
    let r = resolve_context(InputKind::StdinMarker, false, comps(&["home", "u"]), None);
    assert_eq!(r, Ok(comps(&["home", "u"])));
}

#[test]
fn stdin_marker_with_file_list_is_usage_error() {
    let r = resolve_context(
        InputKind::StdinMarker,
        true,
        comps(&["home", "u"]),
        Some(comps(&["home", "u"])),
    );
    assert_eq!(r, Err(UsageError::StdinInFileList));
    assert_eq!(
        UsageError::StdinInFileList.message(),
        "Can't use `-` (stdin) while using `--file_list` provided paths"
    );
}

#[test]
fn file_context_is_parent() {
    let r = resolve_context(InputKind::File, false, comps(&["x"]), Some(comps(&["a", "b", "f.rs"])));
    assert_eq!(r, Ok(comps(&["a", "b"])));
}

#[test]
fn directory_context_is_itself() {
    let r = resolve_context(InputKind::Other, true, comps(&["x"]), Some(comps(&["a", "b"])));
    assert_eq!(r, Ok(comps(&["a", "b"])));
}

#[test]
fn missing_path_is_usage_error() {
    assert_eq!(resolve_context(InputKind::Other, false, comps(&["x"]), None), Err(UsageError::NotFound));
    assert_eq!(resolve_context(InputKind::File, false, comps(&["x"]), None), Err(UsageError::NotFound));
}

#[test]
fn single_file_is_single_threaded() {
    assert_eq!(effective_threads(true, false, 8), 1);
    let plan = plan_walk(&policy(&[]), true, false, 8);
    assert!(plan.single_threaded);
    assert_eq!(plan.threads, 1);
}

#[test]
fn sort_forces_single_thread() {
    assert_eq!(effective_threads(false, true, 8), 1);
    let plan = plan_walk(&policy(&[]), false, true, 8);
    assert!(plan.single_threaded);
    assert!(plan.sorted);
    assert_eq!(plan.threads, 1);
}

#[test]
fn directory_uses_configured_threads() {
    let plan = plan_walk(&policy(&[]), false, false, 8);
    assert_eq!(plan.threads, 8);
    assert!(!plan.single_threaded);
    let plan = plan_walk(&policy(&[]), false, false, 1);
    assert!(plan.single_threaded);
}

#[test]
fn plan_copies_policy_toggles() {
    let plan = plan_walk(&policy(&[]), false, false, 4);
    assert!(plan.hidden);
    assert!(!plan.ignore);
    assert!(plan.git_global);
    assert!(!plan.git_ignore);
    assert!(!plan.git_exclude);
    assert!(plan.parents);
    assert!(plan.skip_stdout);
}

#[test]
fn behavior_selection_order() {
    let none = BehaviorFlags {
        files: false,
        file_types: false,
        highlight_identifiers: false,
        identifiers: false,
        highlight_words: false,
        words: false,
        write_changes: false,
        diff: false,
    };
    assert_eq!(select_behavior(none), CheckBehavior::Typos);
    assert_eq!(select_behavior(BehaviorFlags { diff: true, ..none }), CheckBehavior::DiffTypos);
    assert_eq!(
        select_behavior(BehaviorFlags { words: true, diff: true, ..none }),
        CheckBehavior::Words
    );
    assert_eq!(
        select_behavior(BehaviorFlags { files: true, identifiers: true, ..none }),
        CheckBehavior::FoundFiles
    );
    assert!(silence_reporter(BehaviorFlags { diff: true, ..none }));
    assert!(!silence_reporter(none));
}

#[test]
fn no_patterns_means_no_filter() {
    assert!(matches!(build_excludes(&Vec::new()), Ok(None)));
}

#[test]
fn bad_pattern_is_config_error() {
    let r = build_excludes(&vec!["a{b".to_string()]);
    match r {
        Err(e) => assert!(!e.message.is_empty()),
        Ok(_) => panic!("pattern should not compile"),
    }
}

#[test]
fn entry_filter_excludes_matching_files() {
    let ex = build_excludes(&vec!["*.txt".to_string()]).unwrap().unwrap();
    assert!(!entry_allowed(&ex, "dir/a.txt", false));
    assert!(entry_allowed(&ex, "dir/a.rs", false));
}

#[test]
fn later_pattern_reincludes() {
    let ex = build_excludes(&vec!["*.txt".to_string(), "!keep.txt".to_string()]).unwrap().unwrap();
    assert!(!entry_allowed(&ex, "dir/drop.txt", false));
    assert!(entry_allowed(&ex, "dir/keep.txt", false));
    let c = chain(&[("/x/keep.txt", false), ("/x", true), ("/", true)]);
    assert!(!skip_root(&ex, &c));
    let c = chain(&[("/x/drop.txt", false), ("/x", true), ("/", true)]);
    assert!(skip_root(&ex, &c));
}

#[test]
fn excluded_ancestor_skips_whole_root() {
    let ex = build_excludes(&vec!["/a/b".to_string()]).unwrap().unwrap();
    let c = chain(&[("a/b/c", true), ("a/b", true), ("a", true)]);
    assert!(skip_root(&ex, &c));
    assert!(should_skip_root(&Some(ex), true, &c));
    let ex = build_excludes(&vec!["/a/b".to_string()]).unwrap().unwrap();
    assert!(!should_skip_root(&Some(ex), false, &c));
    assert!(!should_skip_root(&None, true, &c));
    let ex = build_excludes(&vec!["/z".to_string()]).unwrap().unwrap();
    assert!(!skip_root(&ex, &c));
}

#[test]
fn dir_only_pattern_needs_directory() {
    let ex = build_excludes(&vec!["build/".to_string()]).unwrap().unwrap();
    assert!(!entry_allowed(&ex, "x/build", true));
    assert!(entry_allowed(&ex, "x/build", false));
}

#[test]
fn prefilter_first_verdict_decides() {
    assert!(prefilter_verdict(&vec![Unmatched, Excluded, Reincluded]));
    assert!(!prefilter_verdict(&vec![Unmatched, Reincluded, Excluded]));
    assert!(!prefilter_verdict(&vec![Unmatched, Unmatched]));
    assert!(!prefilter_verdict(&Vec::new()));
    assert_eq!(ancestor_step(Unmatched), AncestorStep::Continue);
    assert_eq!(ancestor_step(Excluded), AncestorStep::SkipRoot);
    assert_eq!(ancestor_step(Reincluded), AncestorStep::Traverse);
    assert!(entry_visible(Reincluded));
    assert!(entry_visible(Unmatched));
    assert!(!entry_visible(Excluded));
}
