use vstd::prelude::*;
use ignore::gitignore::{Gitignore, GitignoreBuilder};

verus! {

#[verifier::external_type_specification]
#[verifier::external_body]
pub struct ExGitignoreBuilder(GitignoreBuilder);

#[verifier::external_type_specification]
#[verifier::external_body]
pub struct ExGitignore(Gitignore);

#[verifier::external_type_specification]
#[verifier::external_body]
pub struct ExIgnoreError(ignore::Error);

/// What a gitignore-style matcher says of one path: the verdict of the last
/// pattern that matches it, if any.
#[derive(Clone, Copy, Debug, PartialEq, Eq, Structural)]
pub enum MatchKind {
    /// No pattern matches.
    Unmatched,
    /// The deciding pattern excludes the path.
    Excluded,
    /// The deciding pattern is a negated one (`!pattern`) and re-includes the path.
    Reincluded,
}

/// Whether `c` is white space in the sense of `char::is_whitespace`.
pub open spec fn is_white_space(c: char) -> bool {
    ('\u{9}' <= c && c <= '\u{d}') || c == ' ' || c == '\u{85}' || c == '\u{a0}' || c
        == '\u{1680}' || ('\u{2000}' <= c && c <= '\u{200a}') || c == '\u{2028}' || c
        == '\u{2029}' || c == '\u{202f}' || c == '\u{205f}' || c == '\u{3000}'
}

/// `s` without its trailing white space.
pub open spec fn trim_end(s: Seq<char>) -> Seq<char>
    decreases s.len(),
{
    if s.len() > 0 && is_white_space(s.last()) {
        trim_end(s.drop_last())
    } else {
        s
    }
}

/// The form in which a pattern line is kept: none for a comment or a line
/// that is blank once trimmed; else the line without trailing white space,
/// unless it ends in an escaped space, which keeps it whole.
pub open spec fn stored_line(line: Seq<char>) -> Option<Seq<char>> {
    if line.len() > 0 && line[0] == '#' {
        None
    } else {
        let t = if line.len() >= 2 && line[line.len() - 2] == '\\' && line[line.len() - 1] == ' ' {
            line
        } else {
            trim_end(line)
        };
        if t.len() == 0 {
            None
        } else {
            Some(t)
        }
    }
}

/// The pattern lines that a builder keeps, in the order they were added.
pub uninterp spec fn builder_lines(b: GitignoreBuilder) -> Seq<Seq<char>>;

/// Whether a builder matches relative to `.` and case-sensitively.
pub uninterp spec fn builder_at_dot(b: GitignoreBuilder) -> bool;

/// The pattern lines that a built matcher keeps, in the order they were added.
pub uninterp spec fn gitignore_lines(g: Gitignore) -> Seq<Seq<char>>;

/// Whether a matcher matches relative to `.` and case-sensitively.
pub uninterp spec fn matcher_at_dot(g: Gitignore) -> bool;

/// Whether a line compiles into a glob of a builder set up as at `.`.
pub uninterp spec fn glob_line_parses(line: Seq<char>) -> bool;

/// Whether the globs of the kept `lines` compile into one glob set.
pub uninterp spec fn glob_set_builds(lines: Seq<Seq<char>>) -> bool;

/// The verdict on `path`, which is a directory or not, of a matcher at `.`
/// that keeps `lines`.
pub uninterp spec fn gitignore_match(lines: Seq<Seq<char>>, path: Seq<char>, is_dir: bool) -> MatchKind;

/// Relies on `GitignoreBuilder::new`: a builder with no pattern, whose
/// patterns are matched relative to `.`, case-sensitively.
#[verifier::external_body]
fn new_builder() -> (b: GitignoreBuilder)
    ensures
        builder_lines(b) == Seq::<Seq<char>>::empty(),
        builder_at_dot(b),
{
    GitignoreBuilder::new(".")
}

/// Relies on `GitignoreBuilder::add_line`: whether the line compiles depends
/// on the line alone; a compiled line is kept in its stored form, a comment
/// or blank line is dropped, and the builder's setup does not change.
#[verifier::external_body]
fn add_line(b: &mut GitignoreBuilder, line: &str) -> (r: Result<(), ignore::Error>)
    ensures
        builder_at_dot(*old(b)) ==> (r is Ok <==> glob_line_parses(line@)),
        stored_line(line@) is None ==> r is Ok,
        builder_at_dot(*final(b)) == builder_at_dot(*old(b)),
        r is Ok && stored_line(line@) is Some ==> builder_lines(*final(b)) == builder_lines(
            *old(b),
        ).push(stored_line(line@)->0),
        r is Err || stored_line(line@) is None ==> builder_lines(*final(b)) == builder_lines(
            *old(b),
        ),
{
    b.add_line(None, line).map(|_| ())
}

/// Relies on `GitignoreBuilder::build`: the matcher keeps the builder's
/// lines and setup, and building fails only when the glob set does not
/// compile.
#[verifier::external_body]
fn build_matcher(b: &GitignoreBuilder) -> (r: Result<Gitignore, ignore::Error>)
    ensures
        builder_at_dot(*b) ==> (r is Ok <==> glob_set_builds(builder_lines(*b))),
        r matches Ok(g) ==> gitignore_lines(g) == builder_lines(*b) && matcher_at_dot(g)
            == builder_at_dot(*b),
{
    b.build()
}

/// Relies on `Gitignore::matched`: for a matcher at `.`, the verdict
/// depends on the matcher's lines, the path and whether it is a directory,
/// and on nothing else.
#[verifier::external_body]
fn matched(g: &Gitignore, path: &str, is_dir: bool) -> (r: MatchKind)
    ensures
        matcher_at_dot(*g) ==> r == gitignore_match(gitignore_lines(*g), path@, is_dir),
{
    match g.matched(std::path::Path::new(path), is_dir) {
        ignore::Match::None => MatchKind::Unmatched,
        ignore::Match::Ignore(_) => MatchKind::Excluded,
        ignore::Match::Whitelist(_) => MatchKind::Reincluded,
    }
}

/// Relies on the `Display` impl of `ignore::Error` for a readable message.
#[verifier::external_body]
fn error_text(e: &ignore::Error) -> (r: String) {
    e.to_string()
}

/// A custom exclude pattern that could not be compiled.
#[derive(Debug)]
pub struct ConfigError {
    pub message: String,
}

/// The compiled custom exclude patterns of one working context.
pub struct Excludes {
    matcher: Gitignore,
}

impl Excludes {
    #[verifier::type_invariant]
    spec fn inv(&self) -> bool {
        matcher_at_dot(self.matcher)
    }

    /// The pattern lines the matcher keeps.
    pub closed spec fn lines(&self) -> Seq<Seq<char>> {
        gitignore_lines(self.matcher)
    }
}

/// The lines kept from `patterns`, in order.
pub open spec fn stored_lines(patterns: Seq<Seq<char>>) -> Seq<Seq<char>>
    decreases patterns.len(),
{
    if patterns.len() == 0 {
        Seq::empty()
    } else {
        let prev = stored_lines(patterns.drop_last());
        match stored_line(patterns.last()) {
            Some(t) => prev.push(t),
            None => prev,
        }
    }
}

pub open spec fn pattern_lines(patterns: Seq<String>) -> Seq<Seq<char>> {
    stored_lines(patterns.map_values(|s: String| s@))
}

/// Whether every pattern compiles into a glob.
pub open spec fn all_lines_parse(patterns: Seq<String>) -> bool {
    forall|i: int| 0 <= i < patterns.len() ==> glob_line_parses(#[trigger] patterns[i]@)
}

/// Whether the patterns compile: each line, then the set of them.
pub open spec fn patterns_compile(patterns: Seq<String>) -> bool {
    all_lines_parse(patterns) && glob_set_builds(pattern_lines(patterns))
}

/// Compiles the custom exclude patterns into one matcher with
/// gitignore-style precedence. With no pattern there is nothing to compile
/// and no filtering at all; a pattern that does not compile is an error,
/// never read as "no exclusion".
pub fn build_excludes(patterns: &Vec<String>) -> (r: Result<Option<Excludes>, ConfigError>)
    ensures
        patterns.len() == 0 ==> r matches Ok(None),
        patterns.len() > 0 ==> (r is Ok <==> patterns_compile(patterns@)),
        patterns.len() > 0 ==> !(r matches Ok(None)),
        r matches Ok(Some(e)) ==> e.lines() == pattern_lines(patterns@),
{
    if patterns.len() == 0 {
        return Ok(None);
    }
    let mut b = new_builder();
    let mut i: usize = 0;
    while i < patterns.len()
        invariant
            i <= patterns.len(),
            builder_at_dot(b),
            builder_lines(b) == pattern_lines(patterns@.take(i as int)),
            forall|j: int| 0 <= j < i ==> glob_line_parses(#[trigger] patterns@[j]@),
        decreases patterns.len() - i,
    {
        let ghost before = patterns@.take(i as int).map_values(|s: String| s@);
        let ghost after = patterns@.take(i as int + 1).map_values(|s: String| s@);
        assert(after.drop_last() =~= before);
        assert(after.last() == patterns@[i as int]@);
        match add_line(&mut b, patterns[i].as_str()) {
            Ok(()) => {},
            Err(e) => {
                assert(!all_lines_parse(patterns@));
                return Err(ConfigError { message: error_text(&e) });
            },
        }
        i = i + 1;
    }
    assert(patterns@.take(patterns.len() as int) == patterns@);
    match build_matcher(&b) {
        Ok(g) => Ok(Some(Excludes { matcher: g })),
        Err(e) => Err(ConfigError { message: error_text(&e) }),
    }
}

/// Whether an entry met during the walk is visited: all but excluded ones.
pub fn entry_visible(m: MatchKind) -> (r: bool)
    ensures
        r == (m != MatchKind::Excluded),
{
    match m {
        MatchKind::Unmatched => true,
        MatchKind::Excluded => false,
        MatchKind::Reincluded => true,
    }
}

/// The per-entry filter of the walk.
pub fn entry_allowed(ex: &Excludes, path: &str, is_dir: bool) -> (r: bool)
    ensures
        r == (gitignore_match(ex.lines(), path@, is_dir) != MatchKind::Excluded),
{
    proof {
        use_type_invariant(ex);
    }
    entry_visible(matched(&ex.matcher, path, is_dir))
}

/// One step of the walk down an input path's ancestors.
#[derive(Clone, Copy, Debug, PartialEq, Eq, Structural)]
pub enum AncestorStep {
    /// No verdict here: test the next, deeper, ancestor.
    Continue,
    /// An ancestor is excluded: the whole input path is skipped.
    SkipRoot,
    /// An ancestor is explicitly re-included: stop testing and walk.
    Traverse,
}

pub open spec fn step_spec(m: MatchKind) -> AncestorStep {
    match m {
        MatchKind::Unmatched => AncestorStep::Continue,
        MatchKind::Excluded => AncestorStep::SkipRoot,
        MatchKind::Reincluded => AncestorStep::Traverse,
    }
}

pub fn ancestor_step(m: MatchKind) -> (r: AncestorStep)
    ensures
        r == step_spec(m),
{
    match m {
        MatchKind::Unmatched => AncestorStep::Continue,
        MatchKind::Excluded => AncestorStep::SkipRoot,
        MatchKind::Reincluded => AncestorStep::Traverse,
    }
}

/// Whether the verdicts `ms` of the ancestors from index `k` on, root
/// first, skip the input path: the first verdict that is not `Unmatched`
/// decides.
pub open spec fn skips_from(ms: Seq<MatchKind>, k: int) -> bool
    decreases ms.len() - k,
{
    if k < 0 || k >= ms.len() {
        false
    } else {
        match ms[k] {
            MatchKind::Unmatched => skips_from(ms, k + 1),
            MatchKind::Excluded => true,
            MatchKind::Reincluded => false,
        }
    }
}

pub open spec fn skips_root(ms: Seq<MatchKind>) -> bool {
    skips_from(ms, 0)
}

/// Decides from the verdicts of an input path's ancestors, root first and
/// ending with the path itself, whether the path is skipped whole.
pub fn prefilter_verdict(ms: &Vec<MatchKind>) -> (r: bool)
    ensures
        r == skips_root(ms@),
{
    let mut k: usize = 0;
    while k < ms.len()
        invariant
            k <= ms.len(),
            skips_root(ms@) == skips_from(ms@, k as int),
        decreases ms.len() - k,
    {
        match ancestor_step(ms[k]) {
            AncestorStep::Continue => {},
            AncestorStep::SkipRoot => return true,
            AncestorStep::Traverse => return false,
        }
        k = k + 1;
    }
    false
}

/// One ancestor of an input path, as the filesystem shows it.
pub struct Ancestor {
    pub path: String,
    pub is_dir: bool,
}

/// The verdicts on `chain`, which lists an input path's ancestors leaf
/// first (the path itself, its parent, ..., the root), taken root first.
pub open spec fn chain_matches(lines: Seq<Seq<char>>, chain: Seq<Ancestor>) -> Seq<MatchKind> {
    Seq::new(
        chain.len(),
        |k: int| gitignore_match(lines, chain[chain.len() - 1 - k].path@, chain[chain.len() - 1 - k].is_dir),
    )
}

/// The force-exclude pre-filter: tests an input path's ancestors from the
/// root down and says whether the whole path is skipped before any walk.
/// `chain` lists the ancestors leaf first, as `Path::ancestors` yields them.
pub fn skip_root(ex: &Excludes, chain: &Vec<Ancestor>) -> (r: bool)
    ensures
        r == skips_root(chain_matches(ex.lines(), chain@)),
{
    proof {
        use_type_invariant(ex);
    }
    let n = chain.len();
    let mut ms: Vec<MatchKind> = Vec::new();
    let mut k: usize = 0;
    while k < n
        invariant
            n == chain.len(),
            k <= n,
            matcher_at_dot(ex.matcher),
            ms@ =~= chain_matches(ex.lines(), chain@).take(k as int),
        decreases n - k,
    {
        let a = &chain[n - 1 - k];
        let m = matched(&ex.matcher, a.path.as_str(), a.is_dir);
        ms.push(m);
        k = k + 1;
    }
    assert(ms@ =~= chain_matches(ex.lines(), chain@));
    prefilter_verdict(&ms)
}

/// Whether an input path is skipped before its walk: only in force-exclude
/// mode, only with custom patterns, and then as the pre-filter says.
pub fn should_skip_root(excludes: &Option<Excludes>, force_exclude: bool, chain: &Vec<Ancestor>) -> (r: bool)
    ensures
        r == (force_exclude && excludes is Some && skips_root(
            chain_matches(excludes->0.lines(), chain@),
        )),
{
    match excludes {
        Some(ex) => force_exclude && skip_root(ex, chain),
        None => false,
    }
}

/// An excluded ancestor with no verdict on any shallower one skips the
/// whole input path.
pub proof fn lemma_excluded_ancestor_skips(ms: Seq<MatchKind>, k: int)
    requires
        0 <= k < ms.len(),
        ms[k] == MatchKind::Excluded,
        forall|j: int| 0 <= j < k ==> ms[j] == MatchKind::Unmatched,
    ensures
        skips_root(ms),
{
    lemma_skips_from_unmatched_prefix(ms, k, 0);
}

/// A re-included ancestor with no verdict on any shallower one lets the
/// input path be walked, and a re-included entry passes the per-entry filter.
pub proof fn lemma_reinclude_is_visited(ms: Seq<MatchKind>, k: int)
    requires
        0 <= k < ms.len(),
        ms[k] == MatchKind::Reincluded,
        forall|j: int| 0 <= j < k ==> ms[j] == MatchKind::Unmatched,
    ensures
        !skips_root(ms),
        step_spec(ms[k]) == AncestorStep::Traverse,
{
    lemma_skips_from_unmatched_prefix(ms, k, 0);
}

/// Ancestors without a verdict are passed over.
proof fn lemma_skips_from_unmatched_prefix(ms: Seq<MatchKind>, k: int, j: int)
    requires
        0 <= j <= k < ms.len(),
        forall|i: int| 0 <= i < k ==> ms[i] == MatchKind::Unmatched,
    ensures
        skips_from(ms, j) == skips_from(ms, k),
    decreases k - j,
{
    if j < k {
        lemma_skips_from_unmatched_prefix(ms, k, j + 1);
    }
}

} // verus!
