//! The persisted file-system scope: how saved patterns are repaired and
//! which change of the scope each of them stands for.

use crate::text::{ends_with, lemma_starts_with_itself, occurs, starts_with, str_ends_with};
use aho_corasick::AhoCorasick;
use vstd::prelude::*;

verus! {

/// The name of the file that the scope is saved in.
pub const SCOPE_STATE_FILENAME: &'static str = ".persisted-scope";

/// What the pattern of a directory with all that is below it ends with.
pub const RECURSIVE_DIRECTORY_SUFFIX: &'static str = "**";

/// What the pattern of a directory ends with.
pub const DIRECTORY_SUFFIX: &'static str = "*";

/// `aho_corasick::AhoCorasick`: an automaton that searches a text for the
/// patterns it was built from. Nothing is known of its inside.
#[verifier::external_type_specification]
#[verifier::external_body]
pub struct ExAhoCorasick(aho_corasick::AhoCorasick);

/// The patterns that an automaton was built from, in their order.
pub uninterp spec fn automaton_patterns(automaton: AhoCorasick) -> Seq<Seq<char>>;

/// Whether an automaton was made with the library's default configuration,
/// as `AhoCorasick::new` makes it: standard match semantics, searches that
/// are not anchored, and letters told apart by their case.
pub uninterp spec fn made_with_defaults(automaton: AhoCorasick) -> bool;

/// Whether the library builds an automaton from `patterns`: it does unless
/// they exceed one of its limits on the number of patterns, on the length
/// of a pattern or on the number of states. The limits are the library's
/// own and are not spelled out here.
pub uninterp spec fn automaton_builds(patterns: Seq<Seq<char>>) -> bool;

/// The text that an automaton of `patterns`, made with the library's
/// default configuration, makes of `text` when it puts, for each match it
/// reports, the replacement of the matching pattern.
pub uninterp spec fn replaced_all(
    patterns: Seq<Seq<char>>,
    text: Seq<char>,
    replacements: Seq<Seq<char>>,
) -> Seq<char>;

/// Whether one of `patterns` stands somewhere in `text`.
pub open spec fn occurs_any(patterns: Seq<Seq<char>>, text: Seq<char>) -> bool {
    exists|k: int| 0 <= k < patterns.len() && occurs(text, #[trigger] patterns[k])
}

/// Whether each replacement is shorter than the pattern it stands for.
pub open spec fn all_shorter(replacements: Seq<Seq<char>>, patterns: Seq<Seq<char>>) -> bool {
    &&& replacements.len() == patterns.len()
    &&& forall|k: int|
        0 <= k < patterns.len() ==> (#[trigger] replacements[k]).len() < patterns[k].len()
}

/// `AhoCorasick::new`: whether it succeeds depends on the patterns alone,
/// and where it succeeds, the automaton has the library's default
/// configuration and searches for the given patterns.
#[verifier::external_body]
fn build_automaton(patterns: &Vec<&'static str>) -> (out: Option<AhoCorasick>)
    ensures
        out is Some <==> automaton_builds(patterns.deep_view()),
        out matches Some(automaton) ==> made_with_defaults(automaton) && automaton_patterns(
            automaton,
        ) == patterns.deep_view(),
{
    match AhoCorasick::new(patterns) {
        Ok(automaton) => Some(automaton),
        Err(_) => None,
    }
}

/// `AhoCorasick::find` on an automaton with the default configuration:
/// reports a match exactly where one of the patterns stands in the text.
/// An automaton with another configuration is left out: an anchored one
/// makes the call panic, and one that ignores case matches more.
#[verifier::external_body]
fn automaton_finds(automaton: &AhoCorasick, text: &str) -> (out: bool)
    requires
        made_with_defaults(*automaton),
    ensures
        out == occurs_any(automaton_patterns(*automaton), text@),
{
    automaton.find(text).is_some()
}

/// `AhoCorasick::replace_all` on an automaton with the default
/// configuration: the result depends on the patterns, the text and the
/// replacements alone; without a match it is the text; with a match, and
/// each replacement shorter than its pattern, it is shorter than the text.
/// An automaton with another configuration is left out, as is a list of
/// replacements of another length than the patterns: both make the call
/// panic or give another text.
#[verifier::external_body]
fn automaton_replace_all(automaton: &AhoCorasick, text: &str, replacements: &Vec<&'static str>) -> (out:
    String)
    requires
        made_with_defaults(*automaton),
        replacements.len() == automaton_patterns(*automaton).len(),
    ensures
        out@ == replaced_all(automaton_patterns(*automaton), text@, replacements.deep_view()),
        !occurs_any(automaton_patterns(*automaton), text@) ==> out@ == text@,
        occurs_any(automaton_patterns(*automaton), text@) && all_shorter(
            replacements.deep_view(),
            automaton_patterns(*automaton),
        ) ==> out@.len() < text@.len(),
{
    automaton.replace_all(text, replacements)
}

/// `Path::ends_with`: whether the path ends with the given components, by
/// the rules of the platform.
#[verifier::external_body]
fn path_ends_with(path: &str, child: &str) -> (out: bool) {
    std::path::Path::new(path).ends_with(child)
}

/// `Path::parent`: the path without its last component, which is a
/// leading part of the path.
#[verifier::external_body]
fn path_parent(path: &str) -> (out: Option<&str>)
    ensures
        out matches Some(parent) ==> starts_with(path@, parent@),
{
    match std::path::Path::new(path).parent() {
        Some(parent) => parent.to_str(),
        None => None,
    }
}

/// The escape sequences that broken scope files hold, longest last.
pub open spec fn broken_patterns() -> Seq<Seq<char>> {
    seq![
        r"[[]"@,
        r"[]]"@,
        r"[?]"@,
        r"[*]"@,
        r"\?\?"@,
        r"\\?\\?\"@,
        r"\\?\\\?\"@,
    ]
}

/// What each of the broken escape sequences is put right to.
pub open spec fn repaired_patterns() -> Seq<Seq<char>> {
    seq![r"["@, r"]"@, r"?"@, r"*"@, r"\?"@, r"\\?\"@, r"\\?\"@]
}

/// Whether `text` holds a broken escape sequence.
pub open spec fn is_broken(text: Seq<char>) -> bool {
    occurs_any(broken_patterns(), text)
}

/// `text` after `rounds` rounds of putting right every broken escape
/// sequence that the automaton reports.
pub open spec fn repaired_times(text: Seq<char>, rounds: nat) -> Seq<char>
    decreases rounds,
{
    if rounds == 0 {
        text
    } else {
        replaced_all(
            broken_patterns(),
            repaired_times(text, (rounds - 1) as nat),
            repaired_patterns(),
        )
    }
}

/// Whether `fixed` is `text` after the least number of rounds, at least
/// one, that leaves no broken escape sequence.
pub open spec fn is_repaired(text: Seq<char>, fixed: Seq<char>) -> bool {
    exists|rounds: nat|
        {
            &&& rounds >= 1
            &&& fixed == #[trigger] repaired_times(text, rounds)
            &&& !is_broken(fixed)
            &&& forall|k: nat| 1 <= k < rounds ==> is_broken(#[trigger] repaired_times(text, k))
        }
}

fn patterns() -> (out: Vec<&'static str>)
    ensures
        out.deep_view() == broken_patterns(),
{
    let mut out: Vec<&'static str> = Vec::new();
    out.push(r"[[]");
    out.push(r"[]]");
    out.push(r"[?]");
    out.push(r"[*]");
    out.push(r"\?\?");
    out.push(r"\\?\\?\");
    out.push(r"\\?\\\?\");
    out
}

fn replacements() -> (out: Vec<&'static str>)
    ensures
        out.deep_view() == repaired_patterns(),
{
    let mut out: Vec<&'static str> = Vec::new();
    out.push(r"[");
    out.push(r"]");
    out.push(r"?");
    out.push(r"*");
    out.push(r"\?");
    out.push(r"\\?\");
    out.push(r"\\?\");
    out
}

proof fn lemma_repairs_are_shorter()
    ensures
        all_shorter(repaired_patterns(), broken_patterns()),
{
    reveal_strlit(r"[[]");
    reveal_strlit(r"[]]");
    reveal_strlit(r"[?]");
    reveal_strlit(r"[*]");
    reveal_strlit(r"\?\?");
    reveal_strlit(r"\\?\\?\");
    reveal_strlit(r"\\?\\\?\");
    reveal_strlit(r"[");
    reveal_strlit(r"]");
    reveal_strlit(r"?");
    reveal_strlit(r"*");
    reveal_strlit(r"\?");
    reveal_strlit(r"\\?\");
}

/// The automaton that finds the broken escape sequences. Only
/// [`pattern_automaton`] makes one, so every one has the library's default
/// configuration and searches for exactly these sequences.
pub struct PatternAutomaton {
    inner: AhoCorasick,
}

impl PatternAutomaton {
    #[verifier::type_invariant]
    spec fn well_made(self) -> bool {
        made_with_defaults(self.inner) && automaton_patterns(self.inner) == broken_patterns()
    }

    /// The patterns that the automaton searches for.
    pub closed spec fn patterns(&self) -> Seq<Seq<char>> {
        automaton_patterns(self.inner)
    }
}

/// The automaton that finds the broken escape sequences. It is there
/// exactly where the library builds one from these sequences, and none
/// otherwise.
pub fn pattern_automaton() -> (out: Option<PatternAutomaton>)
    ensures
        match out {
            Some(automaton) => automaton_builds(broken_patterns()) && automaton.patterns()
                == broken_patterns(),
            None => !automaton_builds(broken_patterns()),
        },
{
    let patterns = patterns();
    match build_automaton(&patterns) {
        Some(inner) => Some(PatternAutomaton { inner }),
        None => None,
    }
}

/// Puts right the broken escape sequences of a saved pattern, again and
/// again until none is left. A pattern without a broken sequence comes
/// back as it is; any other comes back shorter. So repairing what was
/// repaired changes nothing.
pub fn fix_pattern(ac: &PatternAutomaton, s: &str) -> (out: String)
    ensures
        is_repaired(s@, out@),
        out@.len() <= s@.len(),
        !is_broken(s@) ==> out@ == s@,
        is_broken(s@) ==> out@.len() < s@.len(),
{
    let replacements = replacements();
    proof {
        use_type_invariant(ac);
        lemma_repairs_are_shorter();
    }
    let mut current = automaton_replace_all(&ac.inner, s, &replacements);
    let ghost mut rounds: nat = 1;
    assert(repaired_times(s@, 0) == s@);
    while automaton_finds(&ac.inner, current.as_str())
        invariant
            rounds >= 1,
            current@ == repaired_times(s@, rounds),
            forall|k: nat| 1 <= k < rounds ==> is_broken(#[trigger] repaired_times(s@, k)),
            current@.len() <= s@.len(),
            !is_broken(s@) ==> current@ == s@,
            is_broken(s@) ==> current@.len() < s@.len(),
            made_with_defaults(ac.inner),
            automaton_patterns(ac.inner) == broken_patterns(),
            replacements.deep_view() == repaired_patterns(),
            all_shorter(repaired_patterns(), broken_patterns()),
        decreases current@.len(),
    {
        current = automaton_replace_all(&ac.inner, current.as_str(), &replacements);
        proof {
            rounds = rounds + 1;
        }
    }
    current
}

/// What a saved pattern names.
#[derive(Debug, Clone, Copy, PartialEq, Eq, Hash, Structural)]
pub enum TargetType {
    File,
    Directory,
    RecursiveDirectory,
}

impl Default for TargetType {
    fn default() -> (out: Self)
        ensures
            out == TargetType::File,
    {
        TargetType::File
    }
}

/// The patterns of a saved scope.
#[derive(Debug, Clone, PartialEq, Eq)]
pub struct Scope {
    pub allowed_paths: Vec<String>,
    pub forbidden_patterns: Vec<String>,
}

impl Default for Scope {
    fn default() -> (out: Self)
        ensures
            out.allowed_paths@.len() == 0,
            out.forbidden_patterns@.len() == 0,
    {
        Scope { allowed_paths: Vec::new(), forbidden_patterns: Vec::new() }
    }
}

/// What a pattern names, by what it ends with.
pub open spec fn scope_type(path: Seq<char>) -> TargetType {
    if ends_with(path, RECURSIVE_DIRECTORY_SUFFIX@) {
        TargetType::RecursiveDirectory
    } else if ends_with(path, DIRECTORY_SUFFIX@) {
        TargetType::Directory
    } else {
        TargetType::File
    }
}

/// Tells what a saved pattern names: a directory with all below it where
/// it ends with `**`, a directory where it ends with `*`, else a file.
pub fn detect_scope_type(scope_state_path: &str) -> (out: TargetType)
    ensures
        out == scope_type(scope_state_path@),
{
    if str_ends_with(scope_state_path, RECURSIVE_DIRECTORY_SUFFIX) {
        TargetType::RecursiveDirectory
    } else if str_ends_with(scope_state_path, DIRECTORY_SUFFIX) {
        TargetType::Directory
    } else {
        TargetType::File
    }
}

/// The directory that a pattern names, given whether its last component
/// is a wildcard and what its parent is: the parent of a wildcard, where
/// there is one, else the pattern itself.
pub fn directory_of<'a>(path: &'a str, ends_with_wildcard: bool, parent: Option<&'a str>) -> (out:
    &'a str)
    ensures
        out == match parent {
            Some(p) => if ends_with_wildcard {
                p
            } else {
                path
            },
            None => path,
        },
{
    if ends_with_wildcard {
        match parent {
            Some(p) => p,
            None => path,
        }
    } else {
        path
    }
}

/// Takes the wildcard off the end of a directory pattern. What counts as
/// the last component follows the rules of the platform; the result is
/// always a leading part of the pattern.
pub fn fix_directory(path_str: &str) -> (out: &str)
    ensures
        starts_with(path_str@, out@),
{
    let wildcard = path_ends_with(path_str, DIRECTORY_SUFFIX) || path_ends_with(
        path_str,
        RECURSIVE_DIRECTORY_SUFFIX,
    );
    proof {
        lemma_starts_with_itself(path_str@);
    }
    directory_of(path_str, wildcard, path_parent(path_str))
}

/// One change of the file-system scope.
#[derive(Debug, Clone, PartialEq, Eq)]
pub enum ScopeChange {
    AllowFile(String),
    AllowDirectory { path: String, recursive: bool },
    ForbidFile(String),
    ForbidDirectory { path: String, recursive: bool },
}

pub enum ScopeChangeView {
    AllowFile(Seq<char>),
    AllowDirectory { path: Seq<char>, recursive: bool },
    ForbidFile(Seq<char>),
    ForbidDirectory { path: Seq<char>, recursive: bool },
}

impl View for ScopeChange {
    type V = ScopeChangeView;

    open spec fn view(&self) -> ScopeChangeView {
        match *self {
            ScopeChange::AllowFile(path) => ScopeChangeView::AllowFile(path@),
            ScopeChange::AllowDirectory { path, recursive } => ScopeChangeView::AllowDirectory {
                path: path@,
                recursive,
            },
            ScopeChange::ForbidFile(path) => ScopeChangeView::ForbidFile(path@),
            ScopeChange::ForbidDirectory { path, recursive } => ScopeChangeView::ForbidDirectory {
                path: path@,
                recursive,
            },
        }
    }
}

impl DeepView for ScopeChange {
    type V = ScopeChangeView;

    open spec fn deep_view(&self) -> ScopeChangeView {
        self@
    }
}

/// The change that a pattern stands for, given what it names and the
/// directory it was cut down to.
pub open spec fn change_for(
    forbid: bool,
    target: TargetType,
    path: Seq<char>,
    directory: Seq<char>,
) -> ScopeChangeView {
    match target {
        TargetType::File => if forbid {
            ScopeChangeView::ForbidFile(path)
        } else {
            ScopeChangeView::AllowFile(path)
        },
        TargetType::Directory => if forbid {
            ScopeChangeView::ForbidDirectory { path: directory, recursive: false }
        } else {
            ScopeChangeView::AllowDirectory { path: directory, recursive: false }
        },
        TargetType::RecursiveDirectory => if forbid {
            ScopeChangeView::ForbidDirectory { path: directory, recursive: true }
        } else {
            ScopeChangeView::AllowDirectory { path: directory, recursive: true }
        },
    }
}

/// Whether `change` is a change that the pattern `path` stands for: the
/// one for what it names, on a directory that is a leading part of it.
pub open spec fn is_change_for(forbid: bool, path: Seq<char>, change: ScopeChangeView) -> bool {
    exists|directory: Seq<char>|
        starts_with(path, directory) && change == #[trigger] change_for(
            forbid,
            scope_type(path),
            path,
            directory,
        )
}

/// The change that a pattern stands for, given what it names and the
/// directory it was cut down to.
pub fn scope_change(forbid: bool, target: TargetType, path: &str, directory: &str) -> (out:
    ScopeChange)
    ensures
        out@ == change_for(forbid, target, path@, directory@),
{
    match target {
        TargetType::File => if forbid {
            ScopeChange::ForbidFile(path.to_owned())
        } else {
            ScopeChange::AllowFile(path.to_owned())
        },
        TargetType::Directory => if forbid {
            ScopeChange::ForbidDirectory { path: directory.to_owned(), recursive: false }
        } else {
            ScopeChange::AllowDirectory { path: directory.to_owned(), recursive: false }
        },
        TargetType::RecursiveDirectory => if forbid {
            ScopeChange::ForbidDirectory { path: directory.to_owned(), recursive: true }
        } else {
            ScopeChange::AllowDirectory { path: directory.to_owned(), recursive: true }
        },
    }
}

/// The change that allows what the pattern `path` names.
pub fn allow_path(path: &str) -> (out: ScopeChange)
    ensures
        is_change_for(false, path@, out@),
{
    let target = detect_scope_type(path);
    let directory = match target {
        TargetType::File => path,
        _ => fix_directory(path),
    };
    proof {
        lemma_starts_with_itself(path@);
    }
    let out = scope_change(false, target, path, directory);
    out
}

/// The change that forbids what the pattern `path` names.
pub fn forbid_path(path: &str) -> (out: ScopeChange)
    ensures
        is_change_for(true, path@, out@),
{
    let target = detect_scope_type(path);
    let directory = match target {
        TargetType::File => path,
        _ => fix_directory(path),
    };
    proof {
        lemma_starts_with_itself(path@);
    }
    let out = scope_change(true, target, path, directory);
    out
}

/// Whether `change` is what the saved pattern `saved` is restored as: a
/// change that its repaired form stands for.
pub open spec fn restores(forbid: bool, saved: Seq<char>, change: ScopeChangeView) -> bool {
    exists|fixed: Seq<char>| #[trigger] is_repaired(saved, fixed) && is_change_for(forbid, fixed, change)
}

/// The changes that bring a saved scope back: one for each allowed
/// pattern, then one for each forbidden pattern, in their order.
pub fn restore(ac: &PatternAutomaton, scope: &Scope) -> (out: Vec<ScopeChange>)
    ensures
        out.len() == scope.allowed_paths.len() + scope.forbidden_patterns.len(),
        forall|i: int|
            0 <= i < scope.allowed_paths.len() ==> restores(
                false,
                scope.allowed_paths[i]@,
                #[trigger] out[i]@,
            ),
        forall|i: int|
            0 <= i < scope.forbidden_patterns.len() ==> restores(
                true,
                #[trigger] scope.forbidden_patterns[i]@,
                out[scope.allowed_paths.len() + i]@,
            ),
{
    let mut out: Vec<ScopeChange> = Vec::new();
    let mut i: usize = 0;
    while i < scope.allowed_paths.len()
        invariant
            i <= scope.allowed_paths.len(),
            out.len() == i,
            forall|k: int|
                0 <= k < i ==> restores(false, scope.allowed_paths[k]@, #[trigger] out[k]@),
        decreases scope.allowed_paths.len() - i,
    {
        let fixed = fix_pattern(ac, scope.allowed_paths[i].as_str());
        let change = allow_path(fixed.as_str());
        out.push(change);
        i += 1;
    }
    let mut j: usize = 0;
    let ghost allowed = out@;
    while j < scope.forbidden_patterns.len()
        invariant
            j <= scope.forbidden_patterns.len(),
            allowed.len() == scope.allowed_paths.len(),
            out.len() == allowed.len() + j,
            forall|k: int| 0 <= k < allowed.len() ==> out[k] == allowed[k],
            forall|k: int|
                0 <= k < allowed.len() ==> restores(
                    false,
                    scope.allowed_paths[k]@,
                    #[trigger] allowed[k]@,
                ),
            forall|k: int|
                0 <= k < j ==> restores(
                    true,
                    #[trigger] scope.forbidden_patterns[k]@,
                    out[allowed.len() + k]@,
                ),
        decreases scope.forbidden_patterns.len() - j,
    {
        let fixed = fix_pattern(ac, scope.forbidden_patterns[j].as_str());
        let change = forbid_path(fixed.as_str());
        out.push(change);
        j += 1;
    }
    assert forall|i: int| 0 <= i < scope.allowed_paths.len() implies restores(
        false,
        scope.allowed_paths[i]@,
        #[trigger] out[i]@,
    ) by {
        assert(restores(false, scope.allowed_paths[i]@, allowed[i]@));
    }
    out
}

} // verus!
