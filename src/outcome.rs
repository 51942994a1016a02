use vstd::prelude::*;

verus! {

/// Exit status of a run that finished without any problem.
pub const SUCCESS_CODE: i32 = 0;

/// Exit status of a run that broke: an error in some path or in the final report.
pub const FAILURE_CODE: i32 = 1;

/// Exit status of a run that worked and found flagged tokens; kept apart
/// from every status that a failure may map to.
pub const FINDINGS_CODE: i32 = 2;

/// Exit status for a bad argument or a forbidden combination of arguments.
pub const USAGE_ERR_CODE: i32 = 64;

/// Exit status for an I/O failure that maps to no more specific status.
pub const IO_ERR_CODE: i32 = 74;

/// Exit status for a policy that could not be loaded or compiled.
pub const CONFIG_ERR_CODE: i32 = 78;

/// The two flags that walking one input path yields.
#[derive(Clone, Copy, Debug, PartialEq, Eq, Structural)]
pub struct PathOutcome {
    pub typos_found: bool,
    pub errors_found: bool,
}

/// The running fold of all path outcomes of a run.
#[derive(Clone, Copy, Debug, PartialEq, Eq, Structural)]
pub struct RunResult {
    pub typos_found: bool,
    pub errors_found: bool,
}

/// How a run ends, as seen from the process boundary.
#[derive(Clone, Copy, Debug, PartialEq, Eq, Structural)]
pub enum ExitClass {
    Success,
    Findings,
    Failure,
}

pub open spec fn empty_run() -> RunResult {
    RunResult { typos_found: false, errors_found: false }
}

/// A path outcome merged into the running result: each flag, once set, stays set.
pub open spec fn absorb_spec(r: RunResult, o: PathOutcome) -> RunResult {
    RunResult {
        typos_found: r.typos_found || o.typos_found,
        errors_found: r.errors_found || o.errors_found,
    }
}

/// The running result after the outcomes of `outs`, in order.
pub open spec fn fold_outcomes(outs: Seq<PathOutcome>) -> RunResult
    decreases outs.len(),
{
    if outs.len() == 0 {
        empty_run()
    } else {
        absorb_spec(fold_outcomes(outs.drop_last()), outs.last())
    }
}

/// A failed flush of the final report counts as an error of the run.
pub open spec fn finalize_spec(r: RunResult, finalize_ok: bool) -> RunResult {
    RunResult { typos_found: r.typos_found, errors_found: r.errors_found || !finalize_ok }
}

/// Errors dominate findings, which dominate success.
pub open spec fn classify_spec(r: RunResult) -> ExitClass {
    if r.errors_found {
        ExitClass::Failure
    } else if r.typos_found {
        ExitClass::Findings
    } else {
        ExitClass::Success
    }
}

/// The class of a run whose paths gave `outs` and whose report flush succeeded or not.
pub open spec fn run_class(outs: Seq<PathOutcome>, finalize_ok: bool) -> ExitClass {
    classify_spec(finalize_spec(fold_outcomes(outs), finalize_ok))
}

pub open spec fn code_spec(c: ExitClass) -> i32 {
    match c {
        ExitClass::Success => SUCCESS_CODE,
        ExitClass::Findings => FINDINGS_CODE,
        ExitClass::Failure => FAILURE_CODE,
    }
}

impl RunResult {
    pub fn new() -> (r: RunResult)
        ensures
            r == empty_run(),
    {
        RunResult { typos_found: false, errors_found: false }
    }

    /// Merges the outcome of one more path.
    pub fn absorb(&mut self, o: PathOutcome)
        ensures
            *final(self) == absorb_spec(*old(self), o),
    {
        if o.typos_found {
            self.typos_found = true;
        }
        if o.errors_found {
            self.errors_found = true;
        }
    }

    /// Records whether the final report could be flushed.
    pub fn record_finalize(&mut self, finalize_ok: bool)
        ensures
            *final(self) == finalize_spec(*old(self), finalize_ok),
    {
        if !finalize_ok {
            self.errors_found = true;
        }
    }

    pub fn classify(&self) -> (c: ExitClass)
        ensures
            c == classify_spec(*self),
    {
        if self.errors_found {
            ExitClass::Failure
        } else if self.typos_found {
            ExitClass::Findings
        } else {
            ExitClass::Success
        }
    }
}

impl ExitClass {
    /// The process exit status of this class.
    pub fn code(&self) -> (r: i32)
        ensures
            r == code_spec(*self),
    {
        match self {
            ExitClass::Success => SUCCESS_CODE,
            ExitClass::Findings => FINDINGS_CODE,
            ExitClass::Failure => FAILURE_CODE,
        }
    }
}

/// Folds the outcomes of all paths, in order, and the result of the final flush.
pub fn aggregate(outcomes: &Vec<PathOutcome>, finalize_ok: bool) -> (c: ExitClass)
    ensures
        c == run_class(outcomes@, finalize_ok),
{
    let mut run = RunResult::new();
    let mut i: usize = 0;
    while i < outcomes.len()
        invariant
            i <= outcomes.len(),
            run == fold_outcomes(outcomes@.take(i as int)),
        decreases outcomes.len() - i,
    {
        assert(outcomes@.take(i as int + 1).drop_last() == outcomes@.take(i as int));
        run.absorb(outcomes[i]);
        i = i + 1;
    }
    assert(outcomes@.take(outcomes.len() as int) == outcomes@);
    run.record_finalize(finalize_ok);
    run.classify()
}

/// The status of a walk that stopped on an error. An I/O error takes the
/// conventional status of its kind when there is one (`sysexit`), else the
/// status of the signal it stands for (`signal`), else the generic I/O
/// status; any other error is a plain failure.
pub fn walk_error_status(is_io: bool, sysexit: Option<i32>, signal: Option<i32>) -> (r: i32)
    ensures
        !is_io ==> r == FAILURE_CODE,
        is_io && sysexit is Some ==> r == sysexit->0,
        is_io && sysexit is None && signal is Some ==> r == signal->0,
        is_io && sysexit is None && signal is None ==> r == IO_ERR_CODE,
{
    if !is_io {
        FAILURE_CODE
    } else {
        match sysexit {
            Some(c) => c,
            None => match signal {
                Some(c) => c,
                None => IO_ERR_CODE,
            },
        }
    }
}

/// Once a path reports typos, the run reports typos, whatever comes after.
pub proof fn lemma_typos_sticky(outs: Seq<PathOutcome>, i: int)
    requires
        0 <= i < outs.len(),
        outs[i].typos_found,
    ensures
        fold_outcomes(outs).typos_found,
    decreases outs.len(),
{
    if i < outs.len() - 1 {
        lemma_typos_sticky(outs.drop_last(), i);
    }
}

/// Once a path reports an error, the run reports an error, whatever comes after.
pub proof fn lemma_errors_sticky(outs: Seq<PathOutcome>, i: int)
    requires
        0 <= i < outs.len(),
        outs[i].errors_found,
    ensures
        fold_outcomes(outs).errors_found,
    decreases outs.len(),
{
    if i < outs.len() - 1 {
        lemma_errors_sticky(outs.drop_last(), i);
    }
}

/// A run with no error in any path and in the final flush reports no error.
pub proof fn lemma_clean_paths_no_errors(outs: Seq<PathOutcome>)
    requires
        forall|i: int| 0 <= i < outs.len() ==> !(#[trigger] outs[i]).errors_found,
    ensures
        !fold_outcomes(outs).errors_found,
    decreases outs.len(),
{
    if outs.len() > 0 {
        lemma_clean_paths_no_errors(outs.drop_last());
    }
}

/// An error in any path, or in the final flush, makes the run a failure,
/// whatever was found: errors dominate findings, which dominate success.
pub proof fn lemma_error_dominates(outs: Seq<PathOutcome>, finalize_ok: bool)
    requires
        !finalize_ok || exists|i: int| 0 <= i < outs.len() && (#[trigger] outs[i]).errors_found,
    ensures
        run_class(outs, finalize_ok) == ExitClass::Failure,
{
    if finalize_ok {
        let i = choose|i: int| 0 <= i < outs.len() && (#[trigger] outs[i]).errors_found;
        lemma_errors_sticky(outs, i);
    }
}

/// Without any error, a run that found typos in some path ends with findings,
/// and one that found none ends in success.
pub proof fn lemma_findings_over_success(outs: Seq<PathOutcome>)
    requires
        forall|i: int| 0 <= i < outs.len() ==> !(#[trigger] outs[i]).errors_found,
    ensures
        (exists|i: int| 0 <= i < outs.len() && (#[trigger] outs[i]).typos_found)
            ==> run_class(outs, true) == ExitClass::Findings,
        (forall|i: int| 0 <= i < outs.len() ==> !(#[trigger] outs[i]).typos_found)
            ==> run_class(outs, true) == ExitClass::Success,
    decreases outs.len(),
{
    lemma_clean_paths_no_errors(outs);
    if exists|i: int| 0 <= i < outs.len() && (#[trigger] outs[i]).typos_found {
        let i = choose|i: int| 0 <= i < outs.len() && (#[trigger] outs[i]).typos_found;
        lemma_typos_sticky(outs, i);
    }
    if outs.len() > 0 {
        lemma_findings_over_success(outs.drop_last());
        assert forall|i: int| 0 <= i < outs.drop_last().len() implies !(
        #[trigger] outs.drop_last()[i]).errors_found by {
            assert(outs.drop_last()[i] == outs[i]);
        }
        if forall|i: int| 0 <= i < outs.len() ==> !(#[trigger] outs[i]).typos_found {
            assert forall|i: int| 0 <= i < outs.drop_last().len() implies !(
            #[trigger] outs.drop_last()[i]).typos_found by {
                assert(outs.drop_last()[i] == outs[i]);
            }
            assert(!outs[outs.len() - 1].typos_found);
        }
    }
}

/// Of two paths, one clean and one with findings, in either order, the run
/// keeps the findings.
pub proof fn lemma_two_paths_keep_findings(clean: PathOutcome, flagged: PathOutcome)
    requires
        flagged.typos_found,
    ensures
        fold_outcomes(seq![clean, flagged]).typos_found,
        fold_outcomes(seq![flagged, clean]).typos_found,
{
    lemma_typos_sticky(seq![clean, flagged], 1);
    lemma_typos_sticky(seq![flagged, clean], 0);
}

/// A failed flush of the final report alone, with no error and no finding in
/// any path, still makes the run a failure.
pub proof fn lemma_finalize_failure_alone(outs: Seq<PathOutcome>)
    requires
        forall|i: int| 0 <= i < outs.len() ==> !(#[trigger] outs[i]).errors_found,
        forall|i: int| 0 <= i < outs.len() ==> !(#[trigger] outs[i]).typos_found,
    ensures
        run_class(outs, false) == ExitClass::Failure,
{
}

} // verus!
