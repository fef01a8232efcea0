//! Glob rule sets: compiled accept/exclude pattern lists and the selection
//! predicate that decides which files a run touches.
//!
//! Pattern compilation and matching are delegated to the `glob` crate; both
//! are deterministic functions of the pattern text and the candidate path,
//! which the names `glob_pattern_ok` and `glob_match` stand for.

use vstd::prelude::*;

verus! {

/// Declares `glob::Pattern`, the compiled form of a glob, as an opaque type.
#[verifier::external_type_specification]
#[verifier::external_body]
pub struct ExPattern(glob::Pattern);

/// Whether a pattern text is a well-formed shell-style glob, as
/// `glob::Pattern::new` decides it.
pub uninterp spec fn glob_pattern_ok(pattern: Seq<char>) -> bool;

/// Whether a path matches a glob pattern, as `glob::Pattern::matches`
/// decides it for the pattern compiled from the given text.
pub uninterp spec fn glob_match(pattern: Seq<char>, path: Seq<char>) -> bool;

/// One compiled glob pattern, paired with the text it was compiled from.
pub struct GlobPattern {
    source: String,
    compiled: glob::Pattern,
}

impl View for GlobPattern {
    type V = Seq<char>;

    closed spec fn view(&self) -> Seq<char> {
        self.source@
    }
}

impl DeepView for GlobPattern {
    type V = Seq<char>;

    closed spec fn deep_view(&self) -> Seq<char> {
        self@
    }
}

/// Relies on `glob::Pattern::new`: compilation succeeds exactly when the
/// pattern text is a well-formed glob, and depends on the text alone.
#[verifier::external_body]
fn compile_pattern(source: String) -> (r: Option<GlobPattern>)
    ensures
        r is Some <==> glob_pattern_ok(source@),
        r is Some ==> r->0@ == source@,
{
    match glob::Pattern::new(&source) {
        Ok(compiled) => Some(GlobPattern { source, compiled }),
        Err(_) => None,
    }
}

/// Relies on `glob::Pattern::matches`: the verdict is a deterministic
/// function of the pattern text and the path.
#[verifier::external_body]
fn pattern_matches(pattern: &GlobPattern, path: &str) -> (r: bool)
    ensures
        r == glob_match(pattern@, path@),
{
    pattern.compiled.matches(path)
}

/// Ordered accept and exclude pattern lists. A path is selected exactly when
/// it matches at least one accept pattern and no exclude pattern; exclusion
/// always wins.
pub struct GlobRuleSet {
    accepts: Vec<GlobPattern>,
    excludes: Vec<GlobPattern>,
}

/// A path matches some pattern of the list.
pub open spec fn spec_matches_any(patterns: Seq<Seq<char>>, path: Seq<char>) -> bool {
    exists|i: int| 0 <= i < patterns.len() && glob_match(patterns[i], path)
}

/// `bad` is the first pattern text of the list that is not a well-formed
/// glob: some occurrence of `bad` is preceded by well-formed patterns only.
pub open spec fn spec_first_offender(patterns: Seq<Seq<char>>, bad: Seq<char>) -> bool {
    !glob_pattern_ok(bad) && exists|i: int|
        0 <= i < patterns.len() && #[trigger] patterns[i] == bad && (forall|j: int|
            0 <= j < i ==> glob_pattern_ok(#[trigger] patterns[j]))
}

/// The selection predicate: at least one accept pattern matches and no
/// exclude pattern does.
pub open spec fn spec_selected(
    accepts: Seq<Seq<char>>,
    excludes: Seq<Seq<char>>,
    path: Seq<char>,
) -> bool {
    spec_matches_any(accepts, path) && !spec_matches_any(excludes, path)
}

fn matches_any(patterns: &Vec<GlobPattern>, path: &str) -> (r: bool)
    ensures
        r == spec_matches_any(patterns.deep_view(), path@),
{
    let mut i: usize = 0;
    while i < patterns.len()
        invariant
            i <= patterns.len(),
            patterns.deep_view().len() == patterns.len(),
            forall|j: int| 0 <= j < patterns.len() ==> patterns.deep_view()[j]
                == #[trigger] patterns@[j]@,
            forall|j: int| 0 <= j < i ==> !glob_match(patterns.deep_view()[j], path@),
        decreases patterns.len() - i,
    {
        if pattern_matches(&patterns[i], path) {
            assert(glob_match(patterns.deep_view()[i as int], path@));
            return true;
        }
        i += 1;
    }
    false
}

impl GlobRuleSet {
    /// The texts of the accept patterns, in order.
    pub closed spec fn spec_accepts(&self) -> Seq<Seq<char>> {
        self.accepts.deep_view()
    }

    /// The texts of the exclude patterns, in order.
    pub closed spec fn spec_excludes(&self) -> Seq<Seq<char>> {
        self.excludes.deep_view()
    }

    /// Compiles the two pattern lists. Fails, reporting the first offending
    /// pattern text (accept patterns scanned before exclude patterns),
    /// exactly when some pattern is malformed: a bad pattern is fatal at
    /// configuration time, never at match time.
    pub fn compile(accepts: Vec<String>, excludes: Vec<String>) -> (r: Result<
        GlobRuleSet,
        String,
    >)
        ensures
            match r {
                Ok(rules) => {
                    &&& rules.spec_accepts() == accepts.deep_view()
                    &&& rules.spec_excludes() == excludes.deep_view()
                    &&& forall|i: int| 0 <= i < accepts.deep_view().len()
                        ==> glob_pattern_ok(#[trigger] accepts.deep_view()[i])
                    &&& forall|i: int| 0 <= i < excludes.deep_view().len()
                        ==> glob_pattern_ok(#[trigger] excludes.deep_view()[i])
                },
                Err(bad) => {
                    ||| spec_first_offender(accepts.deep_view(), bad@)
                    ||| ((forall|i: int| 0 <= i < accepts.deep_view().len()
                        ==> glob_pattern_ok(#[trigger] accepts.deep_view()[i]))
                        && spec_first_offender(excludes.deep_view(), bad@))
                },
            },
    {
        let compiled_accepts = match Self::compile_list(accepts) {
            Ok(v) => v,
            Err(bad) => {
                return Err(bad);
            },
        };
        let compiled_excludes = match Self::compile_list(excludes) {
            Ok(v) => v,
            Err(bad) => {
                return Err(bad);
            },
        };
        Ok(GlobRuleSet { accepts: compiled_accepts, excludes: compiled_excludes })
    }

    fn compile_list(sources: Vec<String>) -> (r: Result<Vec<GlobPattern>, String>)
        ensures
            match r {
                Ok(patterns) => {
                    &&& patterns.deep_view() == sources.deep_view()
                    &&& forall|i: int| 0 <= i < sources.deep_view().len()
                        ==> glob_pattern_ok(#[trigger] sources.deep_view()[i])
                },
                Err(bad) => spec_first_offender(sources.deep_view(), bad@),
            },
    {
        let mut patterns: Vec<GlobPattern> = Vec::new();
        let mut i: usize = 0;
        while i < sources.len()
            invariant
                i <= sources.len(),
                sources.deep_view().len() == sources.len(),
                forall|j: int| 0 <= j < sources.len() ==> sources.deep_view()[j]
                    == #[trigger] sources@[j]@,
                patterns@.len() == i,
                forall|j: int| 0 <= j < i ==> #[trigger] patterns@[j]@ == sources@[j]@,
                forall|j: int| 0 <= j < i ==> glob_pattern_ok(#[trigger] sources.deep_view()[j]),
            decreases sources.len() - i,
        {
            let source = sources[i].clone();
            match compile_pattern(source) {
                Some(p) => {
                    assert(p@ == sources@[i as int]@);
                    patterns.push(p);
                },
                None => {
                    assert(sources.deep_view()[i as int] == sources@[i as int]@);
                    assert(spec_first_offender(sources.deep_view(), sources@[i as int]@));
                    return Err(sources[i].clone());
                },
            }
            i += 1;
        }
        assert(patterns.deep_view() =~= sources.deep_view());
        Ok(patterns)
    }

    /// Decides membership for one candidate path.
    pub fn is_selected(&self, path: &str) -> (r: bool)
        ensures
            r == spec_selected(self.spec_accepts(), self.spec_excludes(), path@),
    {
        matches_any(&self.accepts, path) && !matches_any(&self.excludes, path)
    }

    /// Keeps exactly the selected paths, in their original order.
    pub fn select_files(&self, files: &Vec<String>) -> (r: Vec<String>)
        ensures
            r.deep_view() == files.deep_view().filter(
                |p: Seq<char>| spec_selected(self.spec_accepts(), self.spec_excludes(), p),
            ),
    {
        let ghost pred = |p: Seq<char>|
            spec_selected(self.spec_accepts(), self.spec_excludes(), p);
        let mut r: Vec<String> = Vec::new();
        let mut i: usize = 0;
        while i < files.len()
            invariant
                i <= files.len(),
                files.deep_view().len() == files.len(),
                forall|j: int| 0 <= j < files.len() ==> files.deep_view()[j]
                    == #[trigger] files@[j]@,
                pred == (|p: Seq<char>|
                    spec_selected(self.spec_accepts(), self.spec_excludes(), p)),
                r.deep_view() == files.deep_view().take(i as int).filter(pred),
            decreases files.len() - i,
        {
            proof {
                reveal(Seq::filter);
                assert(files.deep_view().take(i + 1 as int).drop_last() =~= files.deep_view()
                    .take(i as int));
                assert(files.deep_view().take(i + 1 as int).last() == files@[i as int]@);
            }
            if self.is_selected(files[i].as_str()) {
                r.push(files[i].clone());
                assert(r.deep_view() =~= files.deep_view().take(i + 1 as int).filter(pred));
            } else {
                assert(r.deep_view() =~= files.deep_view().take(i + 1 as int).filter(pred));
            }
            i += 1;
        }
        proof {
            assert(files.deep_view().take(files.len() as int) =~= files.deep_view());
        }
        r
    }
}

/// Exclusion dominates: a path that matches any exclude pattern is never
/// selected, however many accept patterns it matches.
pub proof fn lemma_exclude_dominates(
    accepts: Seq<Seq<char>>,
    excludes: Seq<Seq<char>>,
    path: Seq<char>,
    i: int,
)
    requires
        0 <= i < excludes.len(),
        glob_match(excludes[i], path),
    ensures
        !spec_selected(accepts, excludes, path),
{
    assert(spec_matches_any(excludes, path));
}

} // verus!
