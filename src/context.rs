use vstd::prelude::*;

verus! {

/// What one input path names, as far as choosing its working context goes.
#[derive(Clone, Copy, Debug, PartialEq, Eq, Structural)]
pub enum InputKind {
    /// The marker `-`: read from standard input.
    StdinMarker,
    /// An existing regular file.
    File,
    /// Anything else; it must be an existing directory.
    Other,
}

/// Why an input path could not be given a working context.
#[derive(Clone, Copy, Debug, PartialEq, Eq, Structural)]
pub enum UsageError {
    /// The standard-input marker stood in a list of paths read from a file.
    StdinInFileList,
    /// The path could not be canonicalized.
    NotFound,
}

impl UsageError {
    pub fn message(&self) -> (r: String)
        ensures
            *self == UsageError::StdinInFileList ==> r@ == (
            "Can't use `-` (stdin) while using `--file_list` provided paths")@,
            *self == UsageError::NotFound ==> r@ == ("argument is not found")@,
    {
        match self {
            UsageError::StdinInFileList => String::from_str(
                "Can't use `-` (stdin) while using `--file_list` provided paths",
            ),
            UsageError::NotFound => String::from_str("argument is not found"),
        }
    }
}

/// The working context of an input path. Paths are sequences of components
/// below the filesystem root; `canonical` is the canonical form of the input
/// path, if it could be had.
pub open spec fn context_spec(
    kind: InputKind,
    from_file_list: bool,
    process_cwd: Seq<String>,
    canonical: Option<Seq<String>>,
) -> Result<Seq<String>, UsageError> {
    match kind {
        InputKind::StdinMarker => if from_file_list {
            Err(UsageError::StdinInFileList)
        } else {
            Ok(process_cwd)
        },
        InputKind::File => match canonical {
            Some(p) => Ok(
                if p.len() > 0 {
                    p.drop_last()
                } else {
                    p
                },
            ),
            None => Err(UsageError::NotFound),
        },
        InputKind::Other => match canonical {
            Some(p) => Ok(p),
            None => Err(UsageError::NotFound),
        },
    }
}

pub open spec fn view_path(p: Option<Vec<String>>) -> Option<Seq<String>> {
    match p {
        Some(v) => Some(v@),
        None => None,
    }
}

/// Resolves the directory whose policy governs an input path: the process's
/// current directory for the standard-input marker, the parent of a file, a
/// directory itself. The marker among paths read from a file list is a
/// usage error, as is a path that could not be canonicalized.
pub fn resolve_context(
    kind: InputKind,
    from_file_list: bool,
    process_cwd: Vec<String>,
    canonical: Option<Vec<String>>,
) -> (r: Result<Vec<String>, UsageError>)
    ensures
        r matches Ok(p) ==> context_spec(kind, from_file_list, process_cwd@, view_path(canonical)) == Ok::<Seq<String>, UsageError>(p@),
        r matches Err(e) ==> context_spec(kind, from_file_list, process_cwd@, view_path(canonical)) == Err::<Seq<String>, UsageError>(e),
        kind == InputKind::StdinMarker && from_file_list ==> r == Err::<Vec<String>, UsageError>(
            UsageError::StdinInFileList,
        ),
{
    match kind {
        InputKind::StdinMarker => {
            if from_file_list {
                Err(UsageError::StdinInFileList)
            } else {
                Ok(process_cwd)
            }
        },
        InputKind::File => match canonical {
            Some(p) => {
                let mut p = p;
                if p.len() > 0 {
                    p.pop();
                }
                Ok(p)
            },
            None => Err(UsageError::NotFound),
        },
        InputKind::Other => match canonical {
            Some(p) => Ok(p),
            None => Err(UsageError::NotFound),
        },
    }
}

/// Rejects, before any path is walked, a list of input paths read from a
/// file list that holds the standard-input marker anywhere; `is_stdin[i]`
/// says whether the `i`-th path is the marker.
pub fn check_inputs(is_stdin: &Vec<bool>, from_file_list: bool) -> (r: Result<(), UsageError>)
    ensures
        r is Err <==> from_file_list && exists|i: int| 0 <= i < is_stdin.len() && is_stdin@[i],
        r matches Err(e) ==> e == UsageError::StdinInFileList,
{
    if !from_file_list {
        return Ok(());
    }
    let mut i: usize = 0;
    while i < is_stdin.len()
        invariant
            from_file_list,
            i <= is_stdin.len(),
            forall|j: int| 0 <= j < i ==> !is_stdin@[j],
        decreases is_stdin.len() - i,
    {
        if is_stdin[i] {
            assert(is_stdin@[i as int]);
            return Err(UsageError::StdinInFileList);
        }
        i = i + 1;
    }
    Ok(())
}

} // verus!
