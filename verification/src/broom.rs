//! Broom orchestrator: a session state machine over the whole run. The
//! caller performs every external step — probing the tool, querying
//! branches, reading configuration, prompting, deleting — and feeds the
//! plain result back; the orchestrator decides what happens next and which
//! messages to report. Pre-flight failures finish the run with a fatal
//! error before anything is prompted or deleted; per-branch deletion
//! failures are recorded and never stop the batch.

use vstd::prelude::*;

use crate::classify::{classify, deletable_of, partition, shielded_of, Branch};
use crate::engine::{accepts, mode_of, DecisionEngine, EngineState};
use crate::executor::{DeletionOutcome, Executor};
use crate::patterns::{
    load_protection_patterns, name_is_protected, protection_sources, sources_of,
    ProtectionPattern,
};
use crate::text::{lemma_views_of_push, split_on, split_on_char, trim_of, trim_str, views_of};
use vstd::string::StrSliceExecFns;

verus! {

/// A fatal error: the run stops before any prompt or deletion.
#[derive(PartialEq, Eq, Structural, Clone, Copy, Debug)]
pub enum BroomError {
    /// The external tool is missing or not functional.
    ToolUnavailable,
    /// The target location is not a repository.
    NotARepository,
    /// Working branch resolution yielded an empty name.
    NoValidBranch,
}

/// Immutable settings of one run.
pub struct RunConfiguration {
    /// Path the caller scopes the run to; the orchestrator never reads it.
    pub repository: Option<String>,
    /// Reference branch given by the operator, if any.
    pub explicit_branch: Option<String>,
    /// Report only: never prompt, never delete.
    pub dry_run: bool,
    /// Make protected branches eligible for deletion.
    pub include_protected: bool,
}

/// The localizable one-character answers the prompts recognize.
pub struct PromptTokens {
    /// Mode answer that selects bulk deletion.
    pub all: char,
    /// Mode answer that selects per-branch confirmation.
    pub selected: char,
    /// Per-branch answer that accepts the deletion.
    pub yes: char,
}

/// A report line, as a message key with its arguments; rendering the text
/// is the caller's concern.
pub enum Message {
    /// Protected merged branches were found; they are listed next.
    FoundMergedProtected { count: usize, working: String },
    /// One protected branch that is only reported.
    ProtectedListed { name: String },
    /// Closes the protected listing: these will not be deleted.
    WontBeDeleted { count: usize },
    /// Deletable merged branches were found; they are listed next.
    FoundMerged { count: usize, working: String },
    /// One deletable candidate, flagged when a protection pattern matches.
    CandidateListed { name: String, protected: bool },
    /// No deletable merged branch exists.
    NoMergedBranch { working: String },
    /// The mode prompt chose to delete nothing.
    NoBranchDeleted,
    /// A per-branch prompt declined this branch.
    BranchSkipped { name: String },
    /// The external delete operation reported success for this branch.
    BranchDeleted { name: String },
    /// The external delete operation reported failure for this branch.
    BranchCannotBeDeleted { name: String },
}

/// The next external step the caller is asked to perform.
pub enum Request {
    /// Probe that the external tool responds.
    ProbeTool,
    /// Probe that the target location is a repository.
    ProbeRepository,
    /// Query the name of the currently checked-out branch.
    QueryCurrentBranch,
    /// Read the repository-scoped protection configuration value.
    QueryProtectionConfig,
    /// List the branches merged into the working branch.
    QueryMergedBranches { working: String },
    /// Put the mode prompt to the operator.
    PromptModeChoice,
    /// Put one per-branch prompt to the operator.
    PromptBranchAnswer { name: String, protected: bool },
    /// Delete one branch, without force.
    DeleteBranch { name: String },
    /// The run is over; there is nothing left to do.
    Idle,
}

/// Where the session stands: which answer it waits for.
#[derive(PartialEq, Eq, Structural, Clone, Copy, Debug)]
pub enum Phase {
    AwaitToolStatus,
    AwaitRepoStatus,
    AwaitCurrentBranch,
    AwaitConfigValue,
    AwaitMergedOutput,
    Choosing,
    Executing,
    Finished,
}

/// The merge-candidate names drawn from the raw branch listing: each line
/// is trimmed; empty lines, the line marked as currently checked out, and
/// the working branch's own name are excluded.
pub open spec fn candidates_of(lines: Seq<Seq<char>>, working: Seq<char>) -> Seq<Seq<char>>
    decreases lines.len(),
{
    if lines.len() == 0 {
        Seq::empty()
    } else {
        let rest = candidates_of(lines.drop_last(), working);
        let t = trim_of(lines.last());
        if t.len() > 0 && t[0] != '*' && t != working {
            rest.push(t)
        } else {
            rest
        }
    }
}

/// The candidate names of one raw listing, against one working branch.
pub open spec fn candidate_names(raw: Seq<char>, working: Seq<char>) -> Seq<Seq<char>> {
    candidates_of(split_on(raw, '\n'), working)
}

/// The working branch's own name never appears among the merge candidates,
/// nor does the checked-out marker line or an empty line: every candidate
/// is a non-empty trimmed name, differs from the working branch, and does
/// not carry the marker.
pub proof fn lemma_working_branch_excluded(lines: Seq<Seq<char>>, working: Seq<char>)
    ensures
        forall|i: int|
            0 <= i < candidates_of(lines, working).len() ==> (#[trigger] candidates_of(
                lines,
                working,
            )[i]) != working && candidates_of(lines, working)[i].len() > 0 && candidates_of(
                lines,
                working,
            )[i][0] != '*',
    decreases lines.len(),
{
    if lines.len() == 0 {
    } else {
        lemma_working_branch_excluded(lines.drop_last(), working);
        let c = candidates_of(lines, working);
        let cp = candidates_of(lines.drop_last(), working);
        let t = trim_of(lines.last());
        assert forall|i: int|
            0 <= i < c.len() implies (#[trigger] c[i]) != working && c[i].len() > 0 && c[i][0]
            != '*' by {
            if t.len() > 0 && t[0] != '*' && t != working {
                if i < cp.len() {
                    assert(c[i] == cp[i]);
                } else {
                    assert(c[i] == t);
                }
            } else {
                assert(c[i] == cp[i]);
            }
        }
    }
}

/// The candidate names kept for deletion: all of them when protected
/// branches are included, otherwise only the unprotected ones, in order.
pub open spec fn deletable_names(
    names: Seq<Seq<char>>,
    sources: Seq<Seq<char>>,
    include_protected: bool,
) -> Seq<Seq<char>>
    decreases names.len(),
{
    if names.len() == 0 {
        Seq::empty()
    } else {
        let rest = deletable_names(names.drop_last(), sources, include_protected);
        if include_protected || !name_is_protected(names.last(), sources) {
            rest.push(names.last())
        } else {
            rest
        }
    }
}

/// The candidate names that are only reported: the protected ones, when
/// protected branches are not included, in order.
pub open spec fn shielded_names(
    names: Seq<Seq<char>>,
    sources: Seq<Seq<char>>,
    include_protected: bool,
) -> Seq<Seq<char>>
    decreases names.len(),
{
    if names.len() == 0 {
        Seq::empty()
    } else {
        let rest = shielded_names(names.drop_last(), sources, include_protected);
        if !include_protected && name_is_protected(names.last(), sources) {
            rest.push(names.last())
        } else {
            rest
        }
    }
}

/// A bulk deletion set built without including protected branches never
/// holds a name that a protection pattern matches.
pub proof fn lemma_bulk_set_respects_protection(names: Seq<Seq<char>>, sources: Seq<Seq<char>>)
    ensures
        forall|i: int|
            0 <= i < deletable_names(names, sources, false).len() ==> !name_is_protected(
                #[trigger] deletable_names(names, sources, false)[i],
                sources,
            ),
    decreases names.len(),
{
    if names.len() == 0 {
    } else {
        lemma_bulk_set_respects_protection(names.drop_last(), sources);
        let d = deletable_names(names, sources, false);
        let dp = deletable_names(names.drop_last(), sources, false);
        assert forall|i: int|
            0 <= i < d.len() implies !name_is_protected(#[trigger] d[i], sources) by {
            if !name_is_protected(names.last(), sources) {
                if i < dp.len() {
                    assert(d[i] == dp[i]);
                } else {
                    assert(d[i] == names.last());
                }
            } else {
                assert(d[i] == dp[i]);
            }
        }
    }
}

/// The branch list carries exactly these names, in this order, each paired
/// with the verdict of the protection rules.
pub open spec fn classified_wrt(
    branches: Seq<Branch>,
    names: Seq<Seq<char>>,
    sources: Seq<Seq<char>>,
) -> bool {
    &&& branches.len() == names.len()
    &&& forall|i: int|
        0 <= i < branches.len() ==> (#[trigger] branches[i]).name@ == names[i] && branches[i].protected
            == name_is_protected(names[i], sources)
}

/// Partitioning a correctly classified list gives the correctly classified
/// deletable and reported-only name lists.
pub proof fn lemma_partition_matches_names(
    branches: Seq<Branch>,
    names: Seq<Seq<char>>,
    sources: Seq<Seq<char>>,
    include_protected: bool,
)
    requires
        classified_wrt(branches, names, sources),
    ensures
        classified_wrt(
            deletable_of(branches, include_protected),
            deletable_names(names, sources, include_protected),
            sources,
        ),
        classified_wrt(
            shielded_of(branches, include_protected),
            shielded_names(names, sources, include_protected),
            sources,
        ),
    decreases branches.len(),
{
    if branches.len() == 0 {
    } else {
        assert(classified_wrt(branches.drop_last(), names.drop_last(), sources)) by {
            assert forall|i: int|
                0 <= i < branches.drop_last().len() implies (#[trigger] branches.drop_last()[i]).name@
                == names.drop_last()[i] && branches.drop_last()[i].protected == name_is_protected(
                names.drop_last()[i],
                sources,
            ) by {
                assert(branches.drop_last()[i] == branches[i]);
                assert(names.drop_last()[i] == names[i]);
            }
        }
        lemma_partition_matches_names(
            branches.drop_last(),
            names.drop_last(),
            sources,
            include_protected,
        );
        assert(branches[branches.len() - 1] == branches.last());
        assert(branches.last().name@ == names.last() && branches.last().protected
            == name_is_protected(names.last(), sources));
        let d = deletable_of(branches, include_protected);
        let dn = deletable_names(names, sources, include_protected);
        let dp = deletable_of(branches.drop_last(), include_protected);
        let dpn = deletable_names(names.drop_last(), sources, include_protected);
        assert forall|i: int|
            0 <= i < d.len() implies (#[trigger] d[i]).name@ == dn[i] && d[i].protected
            == name_is_protected(dn[i], sources) by {
            if include_protected || !branches.last().protected {
                if i < dp.len() {
                    assert(d[i] == dp[i]);
                    assert(dn[i] == dpn[i]);
                } else {
                    assert(d[i] == branches.last());
                    assert(dn[i] == names.last());
                }
            } else {
                assert(d[i] == dp[i]);
                assert(dn[i] == dpn[i]);
            }
        }
        let s = shielded_of(branches, include_protected);
        let sn = shielded_names(names, sources, include_protected);
        let sp = shielded_of(branches.drop_last(), include_protected);
        let spn = shielded_names(names.drop_last(), sources, include_protected);
        assert forall|i: int|
            0 <= i < s.len() implies (#[trigger] s[i]).name@ == sn[i] && s[i].protected
            == name_is_protected(sn[i], sources) by {
            if !include_protected && branches.last().protected {
                if i < sp.len() {
                    assert(s[i] == sp[i]);
                    assert(sn[i] == spn[i]);
                } else {
                    assert(s[i] == branches.last());
                    assert(sn[i] == names.last());
                }
            } else {
                assert(s[i] == sp[i]);
                assert(sn[i] == spn[i]);
            }
        }
    }
}

/// The session state machine of one run.
pub struct Broom {
    config: RunConfiguration,
    tokens: PromptTokens,
    phase: Phase,
    working: Option<String>,
    patterns: Vec<ProtectionPattern>,
    engine: Option<DecisionEngine>,
    executor: Option<Executor>,
    failure: Option<BroomError>,
}

impl Broom {
    pub closed spec fn spec_phase(&self) -> Phase {
        self.phase
    }

    pub closed spec fn spec_config(&self) -> RunConfiguration {
        self.config
    }

    pub closed spec fn spec_tokens(&self) -> PromptTokens {
        self.tokens
    }

    /// The resolved working branch name, once resolution has happened.
    pub closed spec fn spec_working(&self) -> Option<Seq<char>> {
        match self.working {
            Some(w) => Some(w@),
            None => None,
        }
    }

    /// The sources of the loaded protection patterns.
    pub closed spec fn spec_sources(&self) -> Seq<Seq<char>> {
        sources_of(self.patterns@)
    }

    pub closed spec fn spec_failure(&self) -> Option<BroomError> {
        self.failure
    }

    pub closed spec fn spec_engine_state(&self) -> EngineState {
        match self.engine {
            Some(e) => e.spec_state(),
            None => EngineState::Done,
        }
    }

    pub closed spec fn spec_engine_candidates(&self) -> Seq<Branch> {
        match self.engine {
            Some(e) => e.spec_candidates(),
            None => Seq::empty(),
        }
    }

    pub closed spec fn spec_engine_cursor(&self) -> int {
        match self.engine {
            Some(e) => e.spec_cursor(),
            None => 0,
        }
    }

    pub closed spec fn spec_engine_selection(&self) -> Seq<Branch> {
        match self.engine {
            Some(e) => e.spec_selection(),
            None => Seq::empty(),
        }
    }

    pub closed spec fn spec_targets(&self) -> Seq<Branch> {
        match self.executor {
            Some(x) => x.spec_targets(),
            None => Seq::empty(),
        }
    }

    pub closed spec fn spec_exec_cursor(&self) -> int {
        match self.executor {
            Some(x) => x.spec_cursor(),
            None => 0,
        }
    }

    /// The deletion outcomes recorded so far.
    pub closed spec fn spec_outcomes(&self) -> Seq<DeletionOutcome> {
        match self.executor {
            Some(x) => x.spec_outcomes(),
            None => Seq::empty(),
        }
    }

    pub closed spec fn wf(&self) -> bool {
        &&& (self.phase is Choosing ==> self.engine is Some && self.engine->Some_0.wf() && !(
        self.engine->Some_0.spec_state() is Done) && self.engine->Some_0.spec_candidates().len()
            > 0)
        &&& (self.phase is Executing ==> self.executor is Some && self.executor->Some_0.wf()
            && self.executor->Some_0.spec_cursor() < self.executor->Some_0.spec_targets().len())
        &&& (self.phase is Finished && self.executor is Some ==> self.executor->Some_0.wf())
        &&& (!(self.phase is Choosing) ==> self.engine is None)
        &&& (!(self.phase is Executing) && !(self.phase is Finished) ==> self.executor is None)
        &&& (self.phase is AwaitConfigValue || self.phase is AwaitMergedOutput || self.phase
            is Choosing || self.phase is Executing ==> self.working is Some)
        &&& (self.config.dry_run ==> !(self.phase is Choosing) && !(self.phase is Executing))
        &&& (!(self.phase is Finished) ==> self.failure is None)
    }

    /// Starts a session at the tool probe; nothing has been asked yet.
    pub fn new(config: RunConfiguration, tokens: PromptTokens) -> (r: Broom)
        ensures
            r.wf(),
            r.spec_phase() is AwaitToolStatus,
            r.spec_config() == config,
            r.spec_tokens() == tokens,
            r.spec_failure() is None,
    {
        Broom {
            config,
            tokens,
            phase: Phase::AwaitToolStatus,
            working: None,
            patterns: Vec::new(),
            engine: None,
            executor: None,
            failure: None,
        }
    }

    pub fn is_finished(&self) -> (r: bool)
        ensures
            r == (self.spec_phase() is Finished),
    {
        match self.phase {
            Phase::Finished => true,
            _ => false,
        }
    }

    /// The fatal error the run ended with, if any.
    pub fn failure(&self) -> (r: Option<BroomError>)
        ensures
            r == self.spec_failure(),
    {
        match self.failure {
            Some(e) => Some(e),
            None => None,
        }
    }

    /// Feeds the tool probe result: a failing tool is fatal before any
    /// further state change.
    pub fn on_tool_status(&mut self, ok: bool)
        requires
            old(self).wf(),
            old(self).spec_phase() is AwaitToolStatus,
        ensures
            final(self).wf(),
            final(self).spec_config() == old(self).spec_config(),
            final(self).spec_tokens() == old(self).spec_tokens(),
            ok ==> final(self).spec_phase() is AwaitRepoStatus && final(self).spec_failure()
                is None,
            !ok ==> final(self).spec_phase() is Finished && final(self).spec_failure() == Some(
                BroomError::ToolUnavailable,
            ),
    {
        if ok {
            self.phase = Phase::AwaitRepoStatus;
        } else {
            self.failure = Some(BroomError::ToolUnavailable);
            self.phase = Phase::Finished;
        }
    }

    /// Feeds the repository probe result. On success the working branch is
    /// resolved: an explicit branch is trimmed and used as-is — empty after
    /// trimming is fatal — and without one the currently checked-out branch
    /// is queried next.
    pub fn on_repo_status(&mut self, ok: bool)
        requires
            old(self).wf(),
            old(self).spec_phase() is AwaitRepoStatus,
        ensures
            final(self).wf(),
            final(self).spec_config() == old(self).spec_config(),
            final(self).spec_tokens() == old(self).spec_tokens(),
            !ok ==> final(self).spec_phase() is Finished && final(self).spec_failure() == Some(
                BroomError::NotARepository,
            ),
            ok && old(self).spec_config().explicit_branch is None ==> final(self).spec_phase()
                is AwaitCurrentBranch && final(self).spec_failure() is None,
            ok && old(self).spec_config().explicit_branch is Some && trim_of(
                old(self).spec_config().explicit_branch->Some_0@,
            ).len() == 0 ==> final(self).spec_phase() is Finished && final(self).spec_failure()
                == Some(BroomError::NoValidBranch),
            ok && old(self).spec_config().explicit_branch is Some && trim_of(
                old(self).spec_config().explicit_branch->Some_0@,
            ).len() > 0 ==> final(self).spec_phase() is AwaitConfigValue && final(self)
                .spec_working() == Some(trim_of(old(self).spec_config().explicit_branch->Some_0@))
                && final(self).spec_failure() is None,
    {
        if !ok {
            self.failure = Some(BroomError::NotARepository);
            self.phase = Phase::Finished;
            return ;
        }
        let explicit: Option<String> = match &self.config.explicit_branch {
            Some(b) => Some(b.clone()),
            None => None,
        };
        match explicit {
            None => {
                self.phase = Phase::AwaitCurrentBranch;
            },
            Some(b) => {
                let t = trim_str(b.as_str()).to_owned();
                if t.as_str().unicode_len() == 0 {
                    self.failure = Some(BroomError::NoValidBranch);
                    self.phase = Phase::Finished;
                } else {
                    self.working = Some(t);
                    self.phase = Phase::AwaitConfigValue;
                }
            },
        }
    }

    /// Feeds the queried name of the currently checked-out branch; it is
    /// trimmed, and an empty result is fatal.
    pub fn on_current_branch(&mut self, raw: &str)
        requires
            old(self).wf(),
            old(self).spec_phase() is AwaitCurrentBranch,
        ensures
            final(self).wf(),
            final(self).spec_config() == old(self).spec_config(),
            final(self).spec_tokens() == old(self).spec_tokens(),
            trim_of(raw@).len() == 0 ==> final(self).spec_phase() is Finished && final(self)
                .spec_failure() == Some(BroomError::NoValidBranch),
            trim_of(raw@).len() > 0 ==> final(self).spec_phase() is AwaitConfigValue && final(self)
                .spec_working() == Some(trim_of(raw@)) && final(self).spec_failure() is None,
    {
        let t = trim_str(raw).to_owned();
        if t.as_str().unicode_len() == 0 {
            self.failure = Some(BroomError::NoValidBranch);
            self.phase = Phase::Finished;
        } else {
            self.working = Some(t);
            self.phase = Phase::AwaitConfigValue;
        }
    }

    /// Feeds the repository-scoped protection configuration value; the
    /// pattern list is rebuilt from it on every run.
    pub fn on_protection_config(&mut self, value: Option<String>)
        requires
            old(self).wf(),
            old(self).spec_phase() is AwaitConfigValue,
        ensures
            final(self).wf(),
            final(self).spec_config() == old(self).spec_config(),
            final(self).spec_tokens() == old(self).spec_tokens(),
            final(self).spec_working() == old(self).spec_working(),
            final(self).spec_phase() is AwaitMergedOutput,
            final(self).spec_failure() is None,
            (value matches Some(v) ==> final(self).spec_sources() == protection_sources(
                Some(v@),
            )),
            value is None ==> final(self).spec_sources() =~= Seq::<Seq<char>>::empty(),
    {
        self.patterns = load_protection_patterns(&value);
        self.phase = Phase::AwaitMergedOutput;
    }

    /// Feeds the raw output of the merged-branch listing. The lines are
    /// trimmed and filtered into candidates, classified against the
    /// protection rules, and partitioned; the report messages are returned.
    /// Without a deletable candidate, or under a dry run, the session
    /// finishes here; otherwise the decision engine starts at the mode
    /// prompt over exactly the deletable candidates.
    pub fn on_merged_output(&mut self, raw: &str) -> (msgs: Vec<Message>)
        requires
            old(self).wf(),
            old(self).spec_phase() is AwaitMergedOutput,
        ensures
            final(self).wf(),
            final(self).spec_config() == old(self).spec_config(),
            final(self).spec_tokens() == old(self).spec_tokens(),
            final(self).spec_working() == old(self).spec_working(),
            final(self).spec_sources() == old(self).spec_sources(),
            final(self).spec_failure() is None,
            final(self).spec_outcomes().len() == 0,
            ({
                let w = old(self).spec_working()->Some_0;
                let sources = old(self).spec_sources();
                let incl = old(self).spec_config().include_protected;
                let cands = candidate_names(raw@, w);
                let dn = deletable_names(cands, sources, incl);
                let sn = shielded_names(cands, sources, incl);
                let base: int = if sn.len() > 0 {
                    sn.len() + 2int
                } else {
                    0
                };
                &&& (dn.len() == 0 ==> final(self).spec_phase() is Finished)
                &&& (dn.len() > 0 && old(self).spec_config().dry_run ==> final(self).spec_phase()
                    is Finished)
                &&& (dn.len() > 0 && !old(self).spec_config().dry_run ==> final(self).spec_phase()
                    is Choosing && final(self).spec_engine_state() is AwaitMode && classified_wrt(
                    final(self).spec_engine_candidates(),
                    dn,
                    sources,
                ) && final(self).spec_engine_selection().len() == 0)
                &&& msgs@.len() == base + (if dn.len() > 0 {
                    dn.len() + 1
                } else {
                    1
                })
                &&& (sn.len() > 0 ==> (msgs@[0] matches Message::FoundMergedProtected {
                    count,
                    working,
                } && count == sn.len() && working@ == w))
                &&& (sn.len() > 0 ==> (forall|k: int|
                    0 <= k < sn.len() ==> ((#[trigger] msgs@[k + 1])
                        matches Message::ProtectedListed { name } && name@ == sn[k])))
                &&& (sn.len() > 0 ==> (msgs@[sn.len() as int + 1] matches Message::WontBeDeleted { count }
                    && count == sn.len()))
                &&& (dn.len() > 0 ==> (msgs@[base] matches Message::FoundMerged { count, working }
                    && count == dn.len() && working@ == w))
                &&& (dn.len() > 0 ==> (forall|k: int|
                    0 <= k < dn.len() ==> ((#[trigger] msgs@[base + 1 + k])
                        matches Message::CandidateListed { name, protected } && name@ == dn[k]
                        && protected == name_is_protected(dn[k], sources))))
                &&& (dn.len() == 0 ==> (msgs@[base] matches Message::NoMergedBranch { working }
                    && working@ == w))
            }),
    {
        let working: String = match &self.working {
            Some(w0) => w0.clone(),
            None => {
                proof {
                    assert(false);
                }
                String::new()
            },
        };
        let ghost w = working@;
        let lines = split_on_char(raw, '\n');
        let ghost lviews = views_of(lines@);
        let mut names: Vec<String> = Vec::new();
        let mut i: usize = 0;
        proof {
            assert(lviews.take(0) =~= Seq::<Seq<char>>::empty());
            assert(views_of(names@) =~= Seq::<Seq<char>>::empty());
        }
        while i < lines.len()
            invariant
                i <= lines@.len(),
                lviews == views_of(lines@),
                lviews.len() == lines@.len(),
                forall|k: int| 0 <= k < lines@.len() ==> lviews[k] == lines@[k]@,
                views_of(names@) == candidates_of(lviews.take(i as int), w),
                working@ == w,
            decreases lines@.len() - i,
        {
            proof {
                assert(lviews.take(i + 1).drop_last() =~= lviews.take(i as int));
                assert(lviews.take(i + 1).last() == lviews[i as int]);
            }
            let t = trim_str(lines[i].as_str());
            if !t.is_empty() {
                if t.get_char(0) != '*' {
                    let tt = t.to_owned();
                    if !(tt == working) {
                        proof {
                            lemma_views_of_push(names@, tt);
                        }
                        names.push(tt);
                    }
                }
            }
            i = i + 1;
        }
        proof {
            assert(lviews.take(lines@.len() as int) =~= lviews);
        }
        let ghost cands = candidates_of(lviews, w);
        let branches = classify(&names, &self.patterns);
        let ghost sources = sources_of(self.patterns@);
        let incl = self.config.include_protected;
        proof {
            assert(classified_wrt(branches@, cands, sources)) by {
                assert forall|k: int|
                    0 <= k < branches@.len() implies (#[trigger] branches@[k]).name@ == cands[k]
                    && branches@[k].protected == name_is_protected(cands[k], sources) by {
                    assert(views_of(names@)[k] == names@[k]@);
                }
            }
            lemma_partition_matches_names(branches@, cands, sources, incl);
        }
        let (shielded, deletable) = partition(&branches, incl);
        let ghost dn = deletable_names(cands, sources, incl);
        let ghost sn = shielded_names(cands, sources, incl);
        let mut msgs = shielded_report(&shielded, &working);
        let mut tail = deletable_report(&deletable, &working);
        let ghost head = msgs@;
        let ghost tl = tail@;
        msgs.append(&mut tail);
        proof {
            assert(msgs@ == head + tl);
            assert(sn.len() == shielded@.len());
            assert(dn.len() == deletable@.len());
            let base: int = if sn.len() > 0 {
                sn.len() + 2int
            } else {
                0
            };
            assert(head.len() == base);
            if sn.len() > 0 {
                assert(msgs@[0] == head[0]);
                assert(msgs@[sn.len() as int + 1] == head[sn.len() as int + 1]);
                assert forall|k: int|
                    0 <= k < sn.len() implies ((#[trigger] msgs@[k + 1])
                    matches Message::ProtectedListed { name } && name@ == sn[k]) by {
                    assert(msgs@[k + 1] == head[k + 1]);
                    assert(shielded@[k].name@ == sn[k]);
                }
            }
            if dn.len() > 0 {
                assert(msgs@[base] == tl[0]);
                assert forall|k: int|
                    0 <= k < dn.len() implies ((#[trigger] msgs@[base + 1 + k])
                    matches Message::CandidateListed { name, protected } && name@ == dn[k]
                    && protected == name_is_protected(dn[k], sources)) by {
                    assert(msgs@[base + 1 + k] == tl[k + 1]);
                    assert(deletable@[k].name@ == dn[k]);
                    assert(deletable@[k].protected == name_is_protected(dn[k], sources));
                }
            } else {
                assert(msgs@[base] == tl[0]);
            }
        }
        if deletable.len() == 0 {
            self.phase = Phase::Finished;
        } else if self.config.dry_run {
            self.phase = Phase::Finished;
        } else {
            self.engine = Some(DecisionEngine::new(deletable));
            self.phase = Phase::Choosing;
        }
        msgs
    }

    /// The next external step to perform in the current phase. Under a dry
    /// run no deletion is ever requested.
    pub fn next_request(&self) -> (r: Request)
        requires
            self.wf(),
        ensures
            self.spec_phase() is AwaitToolStatus ==> r is ProbeTool,
            self.spec_phase() is AwaitRepoStatus ==> r is ProbeRepository,
            self.spec_phase() is AwaitCurrentBranch ==> r is QueryCurrentBranch,
            self.spec_phase() is AwaitConfigValue ==> r is QueryProtectionConfig,
            self.spec_phase() is AwaitMergedOutput ==> (r
                matches Request::QueryMergedBranches { working } && Some(working@)
                == self.spec_working()),
            self.spec_phase() is Choosing && self.spec_engine_state() is AwaitMode ==> r
                is PromptModeChoice,
            self.spec_phase() is Choosing && self.spec_engine_state() is AwaitPerBranch ==> (r
                matches Request::PromptBranchAnswer { name, protected } && name@
                == self.spec_engine_candidates()[self.spec_engine_cursor()].name@ && protected
                == self.spec_engine_candidates()[self.spec_engine_cursor()].protected),
            self.spec_phase() is Executing ==> (r matches Request::DeleteBranch { name } && name@
                == self.spec_targets()[self.spec_exec_cursor()].name@),
            self.spec_phase() is Finished ==> r is Idle,
            self.spec_config().dry_run ==> !(r is DeleteBranch),
    {
        match self.phase {
            Phase::AwaitToolStatus => Request::ProbeTool,
            Phase::AwaitRepoStatus => Request::ProbeRepository,
            Phase::AwaitCurrentBranch => Request::QueryCurrentBranch,
            Phase::AwaitConfigValue => Request::QueryProtectionConfig,
            Phase::AwaitMergedOutput => {
                let working: String = match &self.working {
                    Some(w0) => w0.clone(),
                    None => {
                        proof {
                            assert(false);
                        }
                        String::new()
                    },
                };
                Request::QueryMergedBranches { working }
            },
            Phase::Choosing => {
                match &self.engine {
                    Some(e) => {
                        if e.awaits_mode() {
                            Request::PromptModeChoice
                        } else {
                            let b = e.prompt_subject();
                            Request::PromptBranchAnswer { name: b.name, protected: b.protected }
                        }
                    },
                    None => {
                        proof {
                            assert(false);
                        }
                        Request::Idle
                    },
                }
            },
            Phase::Executing => {
                match &self.executor {
                    Some(x) => {
                        let b = x.next_target();
                        Request::DeleteBranch { name: b.name }
                    },
                    None => {
                        proof {
                            assert(false);
                        }
                        Request::Idle
                    },
                }
            },
            Phase::Finished => Request::Idle,
        }
    }

    /// Feeds the mode prompt answer: bulk deletion moves straight to the
    /// executor over every candidate, per-branch selection starts the
    /// per-branch prompts, and any other input ends the run deleting
    /// nothing.
    pub fn on_mode_input(&mut self, input: Option<char>) -> (msgs: Vec<Message>)
        requires
            old(self).wf(),
            old(self).spec_phase() is Choosing,
            old(self).spec_engine_state() is AwaitMode,
        ensures
            final(self).wf(),
            final(self).spec_config() == old(self).spec_config(),
            final(self).spec_tokens() == old(self).spec_tokens(),
            final(self).spec_working() == old(self).spec_working(),
            final(self).spec_sources() == old(self).spec_sources(),
            final(self).spec_failure() is None,
            ({
                let mode = mode_of(
                    input,
                    old(self).spec_tokens().all,
                    old(self).spec_tokens().selected,
                );
                &&& (mode is DeleteAll ==> final(self).spec_phase() is Executing && final(self)
                    .spec_targets() == old(self).spec_engine_candidates() && final(self)
                    .spec_exec_cursor() == 0 && final(self).spec_outcomes().len() == 0
                    && msgs@.len() == 0)
                &&& (mode is DeleteSelected ==> final(self).spec_phase() is Choosing && final(self)
                    .spec_engine_state() is AwaitPerBranch && final(self).spec_engine_candidates()
                    == old(self).spec_engine_candidates() && final(self).spec_engine_cursor() == 0
                    && final(self).spec_engine_selection().len() == 0 && msgs@.len() == 0)
                &&& (mode is DeleteNone ==> final(self).spec_phase() is Finished && msgs@.len()
                    == 1 && msgs@[0] is NoBranchDeleted)
            }),
    {
        let mut e = match self.engine.take() {
            Some(e0) => e0,
            None => {
                proof {
                    assert(false);
                }
                DecisionEngine::new(Vec::new())
            },
        };
        e.choose_mode(input, self.tokens.all, self.tokens.selected);
        let mut msgs: Vec<Message> = Vec::new();
        if e.is_done() {
            let selection = e.into_selection();
            if selection.len() == 0 {
                msgs.push(Message::NoBranchDeleted);
                self.phase = Phase::Finished;
            } else {
                self.executor = Some(Executor::new(selection));
                self.phase = Phase::Executing;
            }
        } else {
            self.engine = Some(e);
        }
        msgs
    }

    /// Feeds one per-branch answer: the yes token accepts the branch,
    /// everything else skips it with a notice. After the last candidate
    /// the accepted set moves to the executor, or the run finishes when
    /// nothing was accepted.
    pub fn on_branch_answer(&mut self, input: Option<char>) -> (msgs: Vec<Message>)
        requires
            old(self).wf(),
            old(self).spec_phase() is Choosing,
            old(self).spec_engine_state() is AwaitPerBranch,
        ensures
            final(self).wf(),
            final(self).spec_config() == old(self).spec_config(),
            final(self).spec_tokens() == old(self).spec_tokens(),
            final(self).spec_working() == old(self).spec_working(),
            final(self).spec_sources() == old(self).spec_sources(),
            final(self).spec_failure() is None,
            ({
                let cand = old(self).spec_engine_candidates();
                let cur = old(self).spec_engine_cursor();
                let yes = accepts(input, old(self).spec_tokens().yes);
                let sel = if yes {
                    old(self).spec_engine_selection().push(cand[cur])
                } else {
                    old(self).spec_engine_selection()
                };
                let done = cur + 1 == cand.len();
                &&& (yes ==> msgs@.len() == 0)
                &&& (!yes ==> msgs@.len() == 1 && (msgs@[0] matches Message::BranchSkipped { name }
                    && name@ == cand[cur].name@))
                &&& (!done ==> final(self).spec_phase() is Choosing && final(self)
                    .spec_engine_state() is AwaitPerBranch && final(self).spec_engine_candidates()
                    == cand && final(self).spec_engine_cursor() == cur + 1 && final(self)
                    .spec_engine_selection() == sel)
                &&& (done && sel.len() == 0 ==> final(self).spec_phase() is Finished)
                &&& (done && sel.len() > 0 ==> final(self).spec_phase() is Executing && final(self)
                    .spec_targets() == sel && final(self).spec_exec_cursor() == 0 && final(self)
                    .spec_outcomes().len() == 0)
            }),
    {
        let mut e = match self.engine.take() {
            Some(e0) => e0,
            None => {
                proof {
                    assert(false);
                }
                DecisionEngine::new(Vec::new())
            },
        };
        let subject = e.prompt_subject();
        let accepted = match input {
            Some(c) => c == self.tokens.yes,
            None => false,
        };
        let mut msgs: Vec<Message> = Vec::new();
        if !accepted {
            msgs.push(Message::BranchSkipped { name: subject.name });
        }
        e.answer(input, self.tokens.yes);
        if e.is_done() {
            let selection = e.into_selection();
            if selection.len() == 0 {
                self.phase = Phase::Finished;
            } else {
                self.executor = Some(Executor::new(selection));
                self.phase = Phase::Executing;
            }
        } else {
            self.engine = Some(e);
        }
        msgs
    }

    /// Feeds the result of the pending deletion attempt: the outcome is
    /// recorded and reported either way, and the run continues with the
    /// next target or finishes after the last one.
    pub fn on_delete_result(&mut self, deleted: bool) -> (msgs: Vec<Message>)
        requires
            old(self).wf(),
            old(self).spec_phase() is Executing,
        ensures
            final(self).wf(),
            final(self).spec_config() == old(self).spec_config(),
            final(self).spec_tokens() == old(self).spec_tokens(),
            final(self).spec_working() == old(self).spec_working(),
            final(self).spec_sources() == old(self).spec_sources(),
            final(self).spec_failure() is None,
            final(self).spec_targets() == old(self).spec_targets(),
            final(self).spec_exec_cursor() == old(self).spec_exec_cursor() + 1,
            final(self).spec_outcomes() == old(self).spec_outcomes().push(
                (DeletionOutcome {
                    branch: old(self).spec_targets()[old(self).spec_exec_cursor()],
                    deleted,
                }),
            ),
            msgs@.len() == 1,
            deleted ==> (msgs@[0] matches Message::BranchDeleted { name } && name@ == old(self)
                .spec_targets()[old(self).spec_exec_cursor()].name@),
            !deleted ==> (msgs@[0] matches Message::BranchCannotBeDeleted { name } && name@
                == old(self).spec_targets()[old(self).spec_exec_cursor()].name@),
            old(self).spec_exec_cursor() + 1 == old(self).spec_targets().len() <==> final(self)
                .spec_phase() is Finished,
            old(self).spec_exec_cursor() + 1 < old(self).spec_targets().len() ==> final(self)
                .spec_phase() is Executing,
    {
        let mut x = match self.executor.take() {
            Some(x0) => x0,
            None => {
                proof {
                    assert(false);
                }
                Executor::new(Vec::new())
            },
        };
        let target = x.next_target();
        let mut msgs: Vec<Message> = Vec::new();
        if deleted {
            msgs.push(Message::BranchDeleted { name: target.name });
        } else {
            msgs.push(Message::BranchCannotBeDeleted { name: target.name });
        }
        x.record(deleted);
        if x.is_done() {
            self.phase = Phase::Finished;
        }
        self.executor = Some(x);
        msgs
    }

    /// The recorded deletion outcomes, one per attempted branch, in order.
    pub fn outcomes(&self) -> (r: Vec<DeletionOutcome>)
        ensures
            r@ == self.spec_outcomes(),
    {
        match &self.executor {
            Some(x) => {
                let src = x.outcomes();
                let mut r: Vec<DeletionOutcome> = Vec::new();
                let mut i: usize = 0;
                proof {
                    assert(src@.take(0) =~= Seq::<DeletionOutcome>::empty());
                }
                while i < src.len()
                    invariant
                        i <= src@.len(),
                        src@ == x.spec_outcomes(),
                        r@ == src@.take(i as int),
                    decreases src@.len() - i,
                {
                    proof {
                        assert(src@.take(i + 1) =~= src@.take(i as int).push(src@[i as int]));
                    }
                    r.push(src[i].clone());
                    i = i + 1;
                }
                proof {
                    assert(src@.take(src@.len() as int) =~= src@);
                }
                r
            },
            None => Vec::new(),
        }
    }
}

/// Builds the report of the protected branches that are only listed and
/// never prompted about: nothing when there is none.
fn shielded_report(shielded: &Vec<Branch>, working: &String) -> (msgs: Vec<Message>)
    ensures
        shielded@.len() == 0 ==> msgs@.len() == 0,
        shielded@.len() > 0 ==> msgs@.len() == shielded@.len() + 2,
        shielded@.len() > 0 ==> (msgs@[0] matches Message::FoundMergedProtected {
            count,
            working: w2,
        } && count == shielded@.len() && w2@ == working@),
        shielded@.len() > 0 ==> (forall|k: int|
            0 <= k < shielded@.len() ==> ((#[trigger] msgs@[k + 1])
                matches Message::ProtectedListed { name } && name@ == shielded@[k].name@)),
        shielded@.len() > 0 ==> (msgs@[shielded@.len() as int + 1]
            matches Message::WontBeDeleted { count } && count == shielded@.len()),
{
    let mut msgs: Vec<Message> = Vec::new();
    if shielded.len() > 0 {
        msgs.push(
            Message::FoundMergedProtected { count: shielded.len(), working: working.clone() },
        );
        let mut k: usize = 0;
        while k < shielded.len()
            invariant
                k <= shielded@.len(),
                msgs@.len() == 1 + k,
                (msgs@[0] matches Message::FoundMergedProtected { count, working: w2 } && count
                    == shielded@.len() && w2@ == working@),
                forall|j: int|
                    0 <= j < k ==> ((#[trigger] msgs@[j + 1]) matches Message::ProtectedListed {
                        name,
                    } && name@ == shielded@[j].name@),
            decreases shielded@.len() - k,
        {
            msgs.push(Message::ProtectedListed { name: shielded[k].name.clone() });
            k = k + 1;
        }
        msgs.push(Message::WontBeDeleted { count: shielded.len() });
    }
    msgs
}

/// Builds the listing of the deletable candidates, or the no-merged-branch
/// notice when there is none.
fn deletable_report(deletable: &Vec<Branch>, working: &String) -> (msgs: Vec<Message>)
    ensures
        deletable@.len() == 0 ==> msgs@.len() == 1 && (msgs@[0]
            matches Message::NoMergedBranch { working: w2 } && w2@ == working@),
        deletable@.len() > 0 ==> msgs@.len() == deletable@.len() + 1,
        deletable@.len() > 0 ==> (msgs@[0] matches Message::FoundMerged { count, working: w2 }
            && count == deletable@.len() && w2@ == working@),
        deletable@.len() > 0 ==> (forall|k: int|
            0 <= k < deletable@.len() ==> ((#[trigger] msgs@[k + 1])
                matches Message::CandidateListed { name, protected } && name@
                == deletable@[k].name@ && protected == deletable@[k].protected)),
{
    let mut msgs: Vec<Message> = Vec::new();
    if deletable.len() > 0 {
        msgs.push(Message::FoundMerged { count: deletable.len(), working: working.clone() });
        let mut k: usize = 0;
        while k < deletable.len()
            invariant
                k <= deletable@.len(),
                msgs@.len() == 1 + k,
                (msgs@[0] matches Message::FoundMerged { count, working: w2 } && count
                    == deletable@.len() && w2@ == working@),
                forall|j: int|
                    0 <= j < k ==> ((#[trigger] msgs@[j + 1]) matches Message::CandidateListed {
                        name,
                        protected,
                    } && name@ == deletable@[j].name@ && protected == deletable@[j].protected),
            decreases deletable@.len() - k,
        {
            msgs.push(
                Message::CandidateListed {
                    name: deletable[k].name.clone(),
                    protected: deletable[k].protected,
                },
            );
            k = k + 1;
        }
    } else {
        msgs.push(Message::NoMergedBranch { working: working.clone() });
    }
    msgs
}

} // verus!
