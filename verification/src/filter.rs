//! Deciding whether a change event is worth acting on: paths inside the
//! version-control directory and editor scratch files are noise, and an event
//! is also suppressed when the loaded ignore rules cover all of its paths.

use crate::event::FileChangeEvent;
use crate::paths::{
    extension_of, is_swap_extension, is_swap_extension_spec, join_path, joined_path,
    path_extension, path_is_under, path_starts_with,
};
use crate::text::{chars_of, contains_from, has_prefix_at};
use ignore::gitignore::Gitignore;
use regex::Regex;
use vstd::prelude::*;

verus! {

/// A compiled set of ignore rules, opaque to the verifier.
#[verifier::external_type_specification]
#[verifier::external_body]
pub struct ExGitignore(ignore::gitignore::Gitignore);

/// A compiled regular expression, opaque to the verifier.
#[verifier::external_type_specification]
#[verifier::external_body]
pub struct ExRegex(regex::Regex);

/// The name of the version-control metadata directory below the root.
pub const VCS_DIR: &'static str = ".git";

/// The pattern of editor lock files: a path that holds `.#` somewhere.
pub const LOCK_FILE_PATTERN: &'static str = r".*/*\.#.*";

/// What a compiled expression stands for: the texts in which
/// `Regex::is_match` finds a match of it.
pub uninterp spec fn regex_language(re: Regex) -> Set<Seq<char>>;

/// What a pattern stands for: the texts in which the expression that
/// `Regex::new` compiles from it finds a match.
pub uninterp spec fn pattern_language(pattern: Seq<char>) -> Set<Seq<char>>;

/// What a rule set stands for: the paths, each with the flag that says
/// whether it is a directory, that `Gitignore::matched_path_or_any_parents`
/// finds ignored, themselves or through a parent directory.
pub uninterp spec fn ignored_paths(rules: Gitignore) -> Set<(Seq<char>, bool)>;

/// The directory that a rule set was built for, as `Gitignore::path` gives
/// it; absent where that directory is not valid UTF-8.
pub uninterp spec fn rules_root(rules: Gitignore) -> Option<Seq<char>>;

/// Calls `Regex::new`. Trusted: the pattern may be rejected, and an
/// expression that comes out stands for what the pattern stands for. How
/// the pattern is compiled depends on the pattern alone.
#[verifier::external_body]
fn compile_pattern(pattern: &str) -> (compiled: Option<Regex>)
    ensures
        compiled matches Some(re) ==> regex_language(re) == pattern_language(pattern@),
{
    Regex::new(pattern).ok()
}

/// Calls `Regex::is_match`. Trusted: the search succeeds exactly on the texts
/// that the expression stands for. The search depends on the expression and
/// the text alone.
#[verifier::external_body]
fn pattern_finds(re: &Regex, text: &str) -> (found: bool)
    ensures
        found == regex_language(*re).contains(text@),
{
    re.is_match(text)
}

/// Calls `Gitignore::path`. Trusted: the result is the root of the rule set,
/// absent where the root is not valid UTF-8.
#[verifier::external_body]
fn root_of_rules(rules: &Gitignore) -> (root: Option<String>)
    ensures
        root is Some <==> rules_root(*rules) is Some,
        root is Some ==> root->Some_0@ == rules_root(*rules)->Some_0,
{
    rules.path().to_str().map(str::to_string)
}

/// Calls `Gitignore::matched_path_or_any_parents` and `Match::is_ignore`.
/// Trusted: the answer is yes exactly on the paths that the rule set stands
/// for. The matcher works on the path string and never looks at the disk. It
/// panics on a path that still begins with a separator once the root has
/// been stripped from it; `requires` leaves those paths out.
#[verifier::external_body]
fn rules_decide(rules: &Gitignore, path: &str, is_dir: bool) -> (ignored: bool)
    requires
        rules_root(*rules) is Some,
        within_reach(rules_root(*rules)->Some_0, path@),
    ensures
        ignored == ignored_paths(*rules).contains((path@, is_dir)),
{
    rules.matched_path_or_any_parents(path, is_dir).is_ignore()
}

/// How many leading characters the matcher drops for a leading `./`. This
/// and the three functions below follow the matcher as it works on Unix,
/// where `/` is the one separator.
pub open spec fn dot_slash_len(path: Seq<char>) -> int {
    if path.len() >= 2 && path[0] == '.' && path[1] == '/' {
        2
    } else {
        0
    }
}

/// Whether the matcher strips `root` from a path: never for the root `.`,
/// never from a bare file name, and only where the path begins with `root`.
pub open spec fn strips_root(root: Seq<char>, path: Seq<char>) -> bool {
    let rest = path.skip(dot_slash_len(path));
    &&& root != seq!['.']
    &&& rest.contains('/')
    &&& root.is_prefix_of(rest)
}

/// How many leading characters of `path` the matcher drops before it matches
/// the remainder against a rule set rooted at `root`: a leading `./`, then
/// the root, then one separator behind the root.
pub open spec fn stripped_len(root: Seq<char>, path: Seq<char>) -> int {
    let start = dot_slash_len(path);
    if strips_root(root, path) {
        let end = start + root.len();
        if end < path.len() && path[end] == '/' {
            end + 1
        } else {
            end
        }
    } else {
        start
    }
}

/// Whether a rule set rooted at `root` can be asked about `path`: what is
/// left of the path once the root is stripped does not begin with a
/// separator.
pub open spec fn within_reach(root: Seq<char>, path: Seq<char>) -> bool {
    let rest = stripped_len(root, path);
    rest >= path.len() || path[rest] != '/'
}

/// Tells whether a rule set rooted at `root` can be asked about `path`.
pub fn can_ask(root: &str, path: &str) -> (reachable: bool)
    ensures
        reachable == within_reach(root@, path@),
{
    let root = chars_of(root);
    let path = chars_of(path);
    let start: usize = if path.len() >= 2 && path[0] == '.' && path[1] == '/' {
        2
    } else {
        0
    };
    let single_dot = root.len() == 1 && root[0] == '.';
    assert(single_dot == (root@ == seq!['.'])) by {
        if single_dot {
            assert(root@ =~= seq!['.']);
        }
    }
    let strips = !single_dot && contains_from(&path, start, '/') && has_prefix_at(
        &path,
        start,
        &root,
    );
    let mut rest: usize = start;
    if strips {
        rest = start + root.len();
        if rest < path.len() && path[rest] == '/' {
            rest = rest + 1;
        }
    }
    rest >= path.len() || path[rest] != '/'
}

/// What the checker found out about one path of an event.
#[derive(Clone, Copy, Debug, PartialEq, Eq, Structural)]
pub struct PathVerdict {
    /// The path is noise: version-control metadata or an editor scratch file.
    pub noise: bool,
    /// The loaded ignore rules cover the path.
    pub matched: bool,
}

/// An event is suppressed when all of its paths are noise, or when the
/// ignore rules cover all of its paths. One interesting path keeps the whole
/// event alive.
pub open spec fn suppresses(verdicts: Seq<PathVerdict>) -> bool {
    ||| forall|i: int| 0 <= i < verdicts.len() ==> (#[trigger] verdicts[i]).noise
    ||| forall|i: int| 0 <= i < verdicts.len() ==> (#[trigger] verdicts[i]).matched
}

/// Decides from the verdicts on its paths whether an event is suppressed.
pub fn decide(verdicts: &Vec<PathVerdict>) -> (suppressed: bool)
    ensures
        suppressed == suppresses(verdicts@),
{
    let mut all_noise = true;
    let mut all_matched = true;
    let mut i: usize = 0;
    while i < verdicts.len()
        invariant
            i <= verdicts.len(),
            all_noise == (forall|k: int| 0 <= k < i ==> (#[trigger] verdicts@[k]).noise),
            all_matched == (forall|k: int| 0 <= k < i ==> (#[trigger] verdicts@[k]).matched),
        decreases verdicts.len() - i,
    {
        all_noise = all_noise && verdicts[i].noise;
        all_matched = all_matched && verdicts[i].matched;
        i += 1;
    }
    all_noise || all_matched
}

/// Classifies paths and whole events against a repository root, an optional
/// set of ignore rules and the editor lock-file pattern.
pub struct Checker {
    root: String,
    gitignore: Option<Gitignore>,
    emacs_re: Option<Regex>,
}

impl Checker {
    /// The repository root.
    pub closed spec fn root(&self) -> Seq<char> {
        self.root@
    }

    /// The loaded ignore rules, if any.
    pub closed spec fn rules(&self) -> Option<Gitignore> {
        self.gitignore
    }

    /// The lock-file pattern was compiled, so lock files can be told.
    pub closed spec fn knows_lock_files(&self) -> bool {
        self.emacs_re is Some
    }

    /// The expression that a checker holds was compiled from the lock-file
    /// pattern.
    #[verifier::type_invariant]
    spec fn holds_the_lock_file_pattern(&self) -> bool {
        self.emacs_re matches Some(re) ==> regex_language(re) == pattern_language(
            LOCK_FILE_PATTERN@,
        )
    }

    /// The path lies under the version-control directory of the root.
    pub open spec fn under_vcs_dir(&self, path: Seq<char>) -> bool {
        path_is_under(path, joined_path(self.root(), VCS_DIR@))
    }

    /// The path has a swap-file extension.
    pub open spec fn swap_file(path: Seq<char>) -> bool {
        path_extension(path) matches Some(extension) && is_swap_extension_spec(extension)
    }

    /// The lock-file pattern finds a match in the path.
    pub open spec fn lock_file(&self, path: Seq<char>) -> bool {
        self.knows_lock_files() && pattern_language(LOCK_FILE_PATTERN@).contains(path)
    }

    /// The path is an editor scratch file.
    pub open spec fn editor_file(&self, path: Seq<char>) -> bool {
        Self::swap_file(path) || self.lock_file(path)
    }

    /// The path is noise: it should never trigger the pipeline.
    pub open spec fn noise(&self, path: Seq<char>) -> bool {
        self.under_vcs_dir(path) || self.editor_file(path)
    }

    /// Ignore rules are loaded, they can be asked about the path, and they
    /// ignore it or one of its parent directories.
    pub open spec fn matched_by_rules(&self, path: Seq<char>, is_dir: bool) -> bool {
        &&& self.rules() matches Some(rules)
        &&& rules_root(rules) matches Some(root)
        &&& within_reach(root, path)
        &&& ignored_paths(rules).contains((path, is_dir))
    }

    /// The verdict on one path.
    pub open spec fn verdict(&self, path: Seq<char>, is_dir: bool) -> PathVerdict {
        PathVerdict { noise: self.noise(path), matched: self.matched_by_rules(path, is_dir) }
    }

    /// The event with these paths is suppressed. An event is meant to carry at
    /// least one path; one that carries none has nothing of interest and is
    /// suppressed.
    pub open spec fn ignores(&self, paths: Seq<String>, is_dir: bool) -> bool {
        suppresses(Seq::new(paths.len(), |i: int| self.verdict(paths[i]@, is_dir)))
    }

    /// Builds a checker for the repository at `root`, with the ignore rules
    /// given.
    pub fn new(root: String, gitignore: Option<Gitignore>) -> (checker: Checker)
        ensures
            checker.root() == root@,
            checker.rules() == gitignore,
    {
        let emacs_re = compile_pattern(LOCK_FILE_PATTERN);
        Checker { root, gitignore, emacs_re }
    }

    /// Tells whether a path is an editor scratch file: a swap file by its
    /// extension, or a lock file by its name.
    pub fn is_editor_file(&self, path: &str) -> (editor: bool)
        ensures
            editor == self.editor_file(path@),
    {
        match extension_of(path) {
            Some(extension) => {
                if is_swap_extension(extension.as_str()) {
                    return true;
                }
            },
            None => {},
        }
        proof {
            use_type_invariant(self);
        }
        match &self.emacs_re {
            Some(re) => pattern_finds(re, path),
            None => false,
        }
    }

    /// Tells whether a path is noise.
    pub fn is_noise(&self, path: &str) -> (noise: bool)
        ensures
            noise == self.noise(path@),
    {
        let vcs_dir = join_path(self.root.as_str(), VCS_DIR);
        path_starts_with(path, vcs_dir.as_str()) || self.is_editor_file(path)
    }

    /// Tells whether the loaded ignore rules cover a path. Rules that cannot
    /// be asked about the path do not cover it.
    pub fn is_matched(&self, path: &str, is_dir: bool) -> (matched: bool)
        ensures
            matched == self.matched_by_rules(path@, is_dir),
    {
        match &self.gitignore {
            Some(rules) => match root_of_rules(rules) {
                Some(root) => can_ask(root.as_str(), path) && rules_decide(rules, path, is_dir),
                None => false,
            },
            None => false,
        }
    }

    /// Gathers the verdict on one path.
    pub fn judge(&self, path: &str, is_dir: bool) -> (verdict: PathVerdict)
        ensures
            verdict == self.verdict(path@, is_dir),
    {
        PathVerdict { noise: self.is_noise(path), matched: self.is_matched(path, is_dir) }
    }

    /// Tells whether the event with these paths is suppressed.
    pub fn ignores_paths(&self, paths: &Vec<String>, is_dir: bool) -> (ignored: bool)
        ensures
            ignored == self.ignores(paths@, is_dir),
    {
        let mut verdicts: Vec<PathVerdict> = Vec::new();
        let mut i: usize = 0;
        while i < paths.len()
            invariant
                i <= paths.len(),
                verdicts@.len() == i,
                forall|k: int| 0 <= k < i ==> verdicts@[k] == self.verdict(paths@[k]@, is_dir),
            decreases paths.len() - i,
        {
            verdicts.push(self.judge(paths[i].as_str(), is_dir));
            i += 1;
        }
        assert(verdicts@ =~= Seq::new(paths@.len(), |i: int| self.verdict(paths@[i]@, is_dir)));
        decide(&verdicts)
    }

    /// Tells whether a change event is suppressed. The checker is left as it
    /// was.
    pub fn is_ignored(&mut self, event: FileChangeEvent) -> (ignored: bool)
        ensures
            ignored == old(self).ignores(event.paths@, event.is_dir),
            *final(self) == *old(self),
    {
        self.ignores_paths(&event.paths, event.is_dir)
    }
}

/// Events whose paths all lie under the version-control directory are
/// suppressed, whatever the ignore rules say and whether or not any are
/// loaded.
pub proof fn lemma_vcs_events_are_ignored(checker: Checker, paths: Seq<String>, is_dir: bool)
    requires
        forall|i: int| 0 <= i < paths.len() ==> checker.under_vcs_dir(#[trigger] paths[i]@),
    ensures
        checker.ignores(paths, is_dir),
{
}

/// Events whose paths are all editor scratch files are suppressed, also
/// where no ignore rules are loaded.
pub proof fn lemma_editor_events_are_ignored(checker: Checker, paths: Seq<String>, is_dir: bool)
    requires
        forall|i: int| 0 <= i < paths.len() ==> checker.editor_file(#[trigger] paths[i]@),
    ensures
        checker.ignores(paths, is_dir),
{
}

/// A path that is neither noise nor covered by the rules keeps its event
/// from being suppressed, whatever else the event carries.
pub proof fn lemma_interesting_path_is_kept(
    checker: Checker,
    paths: Seq<String>,
    is_dir: bool,
    at: int,
)
    requires
        0 <= at < paths.len(),
        !checker.noise(paths[at]@),
        !checker.matched_by_rules(paths[at]@, is_dir),
    ensures
        !checker.ignores(paths, is_dir),
{
    let verdicts = Seq::new(paths.len(), |i: int| checker.verdict(paths[i]@, is_dir));
    assert(!verdicts[at].noise);
    assert(!verdicts[at].matched);
}

} // verus!
