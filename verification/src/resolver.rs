//! Resolution of the downstream executable. The rules run in order — empty
//! input fails at once, a directory is searched for a fixed candidate list, an
//! existing file is taken as is, and last the search path is consulted. The
//! machine here decides; the caller answers its filesystem questions.

use vstd::prelude::*;
use vstd::string::*;
use crate::error::ResolveError;

verus! {

/// How many candidate executable names a directory is searched for.
pub const CANDIDATE_COUNT: usize = 5;

/// The ordered candidate executable names tried inside a directory: the bare
/// name first, then the common executable extensions.
pub open spec fn candidate_name(i: int) -> Seq<char> {
    if i == 0 {
        "codex"@
    } else if i == 1 {
        "codex.exe"@
    } else if i == 2 {
        "codex.cmd"@
    } else if i == 3 {
        "codex.ps1"@
    } else {
        "codex.bat"@
    }
}

/// The candidate executable name at the given position.
pub fn candidate_str(i: usize) -> (r: &'static str)
    requires
        i < CANDIDATE_COUNT,
    ensures
        r@ == candidate_name(i as int),
{
    if i == 0 {
        "codex"
    } else if i == 1 {
        "codex.exe"
    } else if i == 2 {
        "codex.cmd"
    } else if i == 3 {
        "codex.ps1"
    } else {
        "codex.bat"
    }
}

/// A directory entry's path: the directory, a separator unless the directory
/// already ends in one, then the name.
pub open spec fn joined(dir: Seq<char>, name: Seq<char>) -> Seq<char> {
    if dir.len() > 0 && dir[dir.len() - 1] == '/' {
        dir + name
    } else {
        dir + "/"@ + name
    }
}

/// Joins a directory and an entry name into one path.
pub fn path_join(dir: &str, name: &str) -> (r: String)
    ensures
        r@ == joined(dir@, name@),
{
    let n = dir.unicode_len();
    let mut s = String::from_str(dir);
    if n == 0 || dir.get_char(n - 1) != '/' {
        s.append("/");
    }
    s.append(name);
    proof {
        assert(s@ =~= joined(dir@, name@));
    }
    s
}

/// A question the resolution needs answered before it can go on.
#[derive(Debug, Clone, PartialEq, Eq)]
pub enum ResolveQuery {
    /// Does this path name an existing directory?
    IsDir { path: String },
    /// Does this path name an existing file?
    IsFile { path: String },
    /// Does the executable search path yield this name, and as what path?
    PathSearch { name: String },
}

/// What the resolution wants next: a question, or its final result.
#[derive(Debug, PartialEq, Eq)]
pub enum ResolveStep {
    Ask { query: ResolveQuery },
    Done { result: Result<String, ResolveError> },
}

/// Where the resolution stands between answers.
#[derive(Debug, Clone, Copy, PartialEq, Eq)]
pub enum ResolvePhase {
    /// Asked whether the input is a directory.
    AwaitIsDir,
    /// Asked whether the candidate at this position exists in the input
    /// directory as a file.
    AwaitCandidate { index: usize },
    /// Asked whether the input is a file.
    AwaitIsFile,
    /// Asked the search path for the input.
    AwaitPathSearch,
    /// Finished, one way or the other.
    Settled,
}

/// An in-progress resolution of one input.
#[derive(Debug, Clone, PartialEq, Eq)]
pub struct Resolution {
    pub input: String,
    pub phase: ResolvePhase,
}

pub open spec fn asks_is_dir(s: ResolveStep, path: Seq<char>) -> bool {
    s matches ResolveStep::Ask { query: ResolveQuery::IsDir { path: p } } && p@ == path
}

pub open spec fn asks_is_file(s: ResolveStep, path: Seq<char>) -> bool {
    s matches ResolveStep::Ask { query: ResolveQuery::IsFile { path: p } } && p@ == path
}

pub open spec fn asks_path_search(s: ResolveStep, name: Seq<char>) -> bool {
    s matches ResolveStep::Ask { query: ResolveQuery::PathSearch { name: n } } && n@ == name
}

pub open spec fn done_ok(s: ResolveStep, path: Seq<char>) -> bool {
    s matches ResolveStep::Done { result: Ok(p) } && p@ == path
}

pub open spec fn done_empty_input(s: ResolveStep) -> bool {
    s matches ResolveStep::Done { result: Err(ResolveError::EmptyInput) }
}

pub open spec fn done_no_candidate(s: ResolveStep, dir: Seq<char>) -> bool {
    s matches ResolveStep::Done { result: Err(ResolveError::NoCandidateInDir { dir: d }) } && d@
        == dir
}

pub open spec fn done_not_found(s: ResolveStep, input: Seq<char>) -> bool {
    s matches ResolveStep::Done { result: Err(ResolveError::NotFound { input: i }) } && i@ == input
}

/// The candidate position a phase is waiting on (zero elsewhere).
pub open spec fn candidate_index_of(p: ResolvePhase) -> int {
    match p {
        ResolvePhase::AwaitCandidate { index } => index as int,
        _ => 0,
    }
}

impl Resolution {
    /// Begins resolving an input. Empty input fails on the spot, before any
    /// question is asked; anything else first asks whether the input is a
    /// directory.
    pub fn start(input: String) -> (r: (Resolution, ResolveStep))
        ensures
            r.0.input@ == input@,
            input@.len() == 0 ==> r.0.phase == ResolvePhase::Settled && done_empty_input(r.1),
            input@.len() > 0 ==> r.0.phase == ResolvePhase::AwaitIsDir && asks_is_dir(r.1, input@),
    {
        if input.as_str().unicode_len() == 0 {
            let res = Resolution { input, phase: ResolvePhase::Settled };
            (res, ResolveStep::Done { result: Err(ResolveError::EmptyInput) })
        } else {
            let path = String::from_str(input.as_str());
            let res = Resolution { input, phase: ResolvePhase::AwaitIsDir };
            (res, ResolveStep::Ask { query: ResolveQuery::IsDir { path } })
        }
    }

    /// Takes the answer to the directory question: a directory starts the
    /// candidate search at position zero; anything else asks whether the
    /// input is a file.
    pub fn on_is_dir(&mut self, yes: bool) -> (r: ResolveStep)
        requires
            old(self).phase == ResolvePhase::AwaitIsDir,
        ensures
            final(self).input@ == old(self).input@,
            yes ==> final(self).phase == (ResolvePhase::AwaitCandidate { index: 0 })
                && asks_is_file(r, joined(old(self).input@, candidate_name(0))),
            !yes ==> final(self).phase == ResolvePhase::AwaitIsFile && asks_is_file(
                r,
                old(self).input@,
            ),
    {
        if yes {
            self.phase = ResolvePhase::AwaitCandidate { index: 0 };
            let path = path_join(self.input.as_str(), candidate_str(0));
            ResolveStep::Ask { query: ResolveQuery::IsFile { path } }
        } else {
            self.phase = ResolvePhase::AwaitIsFile;
            let path = String::from_str(self.input.as_str());
            ResolveStep::Ask { query: ResolveQuery::IsFile { path } }
        }
    }

    /// Takes the answer to one candidate question: the first existing
    /// candidate wins; when a candidate is missing the next is asked for, and
    /// when all are exhausted the directory is reported as holding none.
    pub fn on_candidate(&mut self, yes: bool) -> (r: ResolveStep)
        requires
            old(self).phase matches ResolvePhase::AwaitCandidate { index } && index
                < CANDIDATE_COUNT,
        ensures
            final(self).input@ == old(self).input@,
            yes ==> final(self).phase == ResolvePhase::Settled && done_ok(
                r,
                joined(old(self).input@, candidate_name(candidate_index_of(old(self).phase))),
            ),
            !yes && candidate_index_of(old(self).phase) + 1 < CANDIDATE_COUNT ==> final(self).phase
                == (ResolvePhase::AwaitCandidate {
                index: (candidate_index_of(old(self).phase) + 1) as usize,
            }) && asks_is_file(
                r,
                joined(
                    old(self).input@,
                    candidate_name(candidate_index_of(old(self).phase) + 1),
                ),
            ),
            !yes && candidate_index_of(old(self).phase) + 1 == CANDIDATE_COUNT ==> final(self).phase
                == ResolvePhase::Settled && done_no_candidate(r, old(self).input@),
    {
        let index: usize = match self.phase {
            ResolvePhase::AwaitCandidate { index } => index,
            _ => 0,
        };
        if yes {
            self.phase = ResolvePhase::Settled;
            let path = path_join(self.input.as_str(), candidate_str(index));
            ResolveStep::Done { result: Ok(path) }
        } else if index + 1 < CANDIDATE_COUNT {
            self.phase = ResolvePhase::AwaitCandidate { index: index + 1 };
            let path = path_join(self.input.as_str(), candidate_str(index + 1));
            ResolveStep::Ask { query: ResolveQuery::IsFile { path } }
        } else {
            self.phase = ResolvePhase::Settled;
            let dir = String::from_str(self.input.as_str());
            ResolveStep::Done { result: Err(ResolveError::NoCandidateInDir { dir }) }
        }
    }

    /// Takes the answer to the file question: an existing file is the result
    /// itself; otherwise the search path is asked for the input.
    pub fn on_is_file(&mut self, yes: bool) -> (r: ResolveStep)
        requires
            old(self).phase == ResolvePhase::AwaitIsFile,
        ensures
            final(self).input@ == old(self).input@,
            yes ==> final(self).phase == ResolvePhase::Settled && done_ok(r, old(self).input@),
            !yes ==> final(self).phase == ResolvePhase::AwaitPathSearch && asks_path_search(
                r,
                old(self).input@,
            ),
    {
        if yes {
            self.phase = ResolvePhase::Settled;
            let path = String::from_str(self.input.as_str());
            ResolveStep::Done { result: Ok(path) }
        } else {
            self.phase = ResolvePhase::AwaitPathSearch;
            let name = String::from_str(self.input.as_str());
            ResolveStep::Ask { query: ResolveQuery::PathSearch { name } }
        }
    }

    /// Takes the search path's answer: a found path is the result; nothing
    /// found exhausts every rule, naming both the literal path and the
    /// search.
    pub fn on_path_search(&mut self, found: Option<String>) -> (r: ResolveStep)
        requires
            old(self).phase == ResolvePhase::AwaitPathSearch,
        ensures
            final(self).input@ == old(self).input@,
            final(self).phase == ResolvePhase::Settled,
            (found matches Some(p) ==> done_ok(r, p@)),
            found is None ==> done_not_found(r, old(self).input@),
    {
        self.phase = ResolvePhase::Settled;
        match found {
            Some(p) => ResolveStep::Done { result: Ok(p) },
            None => {
                let input = String::from_str(self.input.as_str());
                ResolveStep::Done { result: Err(ResolveError::NotFound { input }) }
            },
        }
    }
}

} // verus!
