//! Interactive decision engine: a state machine that resolves which subset
//! of the deletable candidates to delete. One mode prompt chooses between
//! deleting all candidates, selecting them one by one, or deleting none;
//! any unrecognized or absent input means none. Per-branch prompts accept a
//! branch only on the configured yes token, so silence or a stray key never
//! deletes anything.

use vstd::prelude::*;

use crate::classify::Branch;

verus! {

/// What the operator chose at the mode prompt.
#[derive(PartialEq, Eq, Structural, Clone, Copy, Debug)]
pub enum ModeChoice {
    DeleteAll,
    DeleteSelected,
    DeleteNone,
}

/// The engine's position: waiting for the mode prompt, walking the
/// per-branch prompts, or finished.
#[derive(PartialEq, Eq, Structural, Clone, Copy, Debug)]
pub enum EngineState {
    AwaitMode,
    AwaitPerBranch,
    Done,
}

/// How one character of input resolves at the mode prompt: the configured
/// tokens select bulk or per-branch deletion, and everything else,
/// including absent input, means no deletion. When the two tokens collide,
/// bulk deletion wins, as the first comparison decides.
pub open spec fn mode_of(input: Option<char>, all_token: char, selected_token: char) -> ModeChoice {
    match input {
        Some(c) => if c == all_token {
            ModeChoice::DeleteAll
        } else if c == selected_token {
            ModeChoice::DeleteSelected
        } else {
            ModeChoice::DeleteNone
        },
        None => ModeChoice::DeleteNone,
    }
}

/// Resolves the mode prompt input against the configured tokens.
pub fn resolve_mode(input: Option<char>, all_token: char, selected_token: char) -> (r: ModeChoice)
    ensures
        r == mode_of(input, all_token, selected_token),
{
    match input {
        Some(c) => {
            if c == all_token {
                ModeChoice::DeleteAll
            } else if c == selected_token {
                ModeChoice::DeleteSelected
            } else {
                ModeChoice::DeleteNone
            }
        },
        None => ModeChoice::DeleteNone,
    }
}

/// Whether one character of per-branch input accepts the branch: only the
/// configured yes token does.
pub open spec fn accepts(input: Option<char>, yes_token: char) -> bool {
    input == Some(yes_token)
}

/// The decision engine over a fixed candidate list.
pub struct DecisionEngine {
    candidates: Vec<Branch>,
    state: EngineState,
    cursor: usize,
    selection: Vec<Branch>,
}

impl DecisionEngine {
    /// The candidates the engine was started with.
    pub closed spec fn spec_candidates(&self) -> Seq<Branch> {
        self.candidates@
    }

    /// The branches accepted for deletion so far.
    pub closed spec fn spec_selection(&self) -> Seq<Branch> {
        self.selection@
    }

    pub closed spec fn spec_state(&self) -> EngineState {
        self.state
    }

    /// Index of the candidate the next per-branch prompt is about.
    pub closed spec fn spec_cursor(&self) -> int {
        self.cursor as int
    }

    pub closed spec fn wf(&self) -> bool {
        &&& self.state is AwaitMode ==> self.selection@.len() == 0 && self.cursor == 0
        &&& self.state is AwaitPerBranch ==> self.cursor < self.candidates@.len()
        &&& self.cursor <= self.candidates@.len()
        &&& forall|i: int|
            0 <= i < self.selection@.len() ==> self.candidates@.contains(#[trigger] self.selection@[i])
    }

    /// Starts the engine at the mode prompt, with nothing selected.
    pub fn new(candidates: Vec<Branch>) -> (r: DecisionEngine)
        ensures
            r.wf(),
            r.spec_state() is AwaitMode,
            r.spec_candidates() == candidates@,
            r.spec_selection().len() == 0,
    {
        DecisionEngine {
            candidates,
            state: EngineState::AwaitMode,
            cursor: 0,
            selection: Vec::new(),
        }
    }

    pub fn is_done(&self) -> (r: bool)
        ensures
            r == (self.spec_state() is Done),
    {
        match self.state {
            EngineState::Done => true,
            _ => false,
        }
    }

    pub fn awaits_mode(&self) -> (r: bool)
        ensures
            r == (self.spec_state() is AwaitMode),
    {
        match self.state {
            EngineState::AwaitMode => true,
            _ => false,
        }
    }

    /// The candidate the pending per-branch prompt asks about.
    pub fn prompt_subject(&self) -> (r: Branch)
        requires
            self.wf(),
            self.spec_state() is AwaitPerBranch,
        ensures
            r == self.spec_candidates()[self.spec_cursor()],
    {
        self.candidates[self.cursor].clone()
    }

    /// Feeds the mode prompt answer. Bulk deletion selects every candidate
    /// and finishes; per-branch selection moves to the first prompt (or
    /// finishes empty when there is no candidate); anything else finishes
    /// with nothing selected.
    pub fn choose_mode(&mut self, input: Option<char>, all_token: char, selected_token: char)
        requires
            old(self).wf(),
            old(self).spec_state() is AwaitMode,
        ensures
            final(self).wf(),
            final(self).spec_candidates() == old(self).spec_candidates(),
            mode_of(input, all_token, selected_token) is DeleteAll ==> final(self).spec_state()
                is Done && final(self).spec_selection() == old(self).spec_candidates(),
            mode_of(input, all_token, selected_token) is DeleteSelected ==> final(self)
                .spec_selection().len() == 0 && (if old(self).spec_candidates().len() > 0 {
                final(self).spec_state() is AwaitPerBranch && final(self).spec_cursor() == 0
            } else {
                final(self).spec_state() is Done
            }),
            mode_of(input, all_token, selected_token) is DeleteNone ==> final(self).spec_state()
                is Done && final(self).spec_selection().len() == 0,
    {
        let mode = resolve_mode(input, all_token, selected_token);
        match mode {
            ModeChoice::DeleteAll => {
                let mut all: Vec<Branch> = Vec::new();
                let mut i: usize = 0;
                while i < self.candidates.len()
                    invariant
                        i <= self.candidates@.len(),
                        all@ == self.candidates@.take(i as int),
                    decreases self.candidates@.len() - i,
                {
                    proof {
                        assert(self.candidates@.take(i + 1) =~= self.candidates@.take(
                            i as int,
                        ).push(self.candidates@[i as int]));
                    }
                    all.push(self.candidates[i].clone());
                    i = i + 1;
                }
                proof {
                    assert(self.candidates@.take(self.candidates@.len() as int)
                        =~= self.candidates@);
                }
                self.selection = all;
                self.state = EngineState::Done;
                proof {
                    assert forall|i2: int|
                        0 <= i2 < self.selection@.len() implies self.candidates@.contains(
                        #[trigger] self.selection@[i2],
                    ) by {
                        assert(self.selection@[i2] == self.candidates@[i2]);
                    }
                }
            },
            ModeChoice::DeleteSelected => {
                if self.candidates.len() > 0 {
                    self.state = EngineState::AwaitPerBranch;
                } else {
                    self.state = EngineState::Done;
                }
            },
            ModeChoice::DeleteNone => {
                self.state = EngineState::Done;
            },
        }
    }

    /// Feeds one per-branch answer: only the yes token adds the current
    /// candidate to the selection; every other input, or none, skips it.
    /// The cursor always advances by one, and the engine finishes after the
    /// last candidate.
    pub fn answer(&mut self, input: Option<char>, yes_token: char)
        requires
            old(self).wf(),
            old(self).spec_state() is AwaitPerBranch,
        ensures
            final(self).wf(),
            final(self).spec_candidates() == old(self).spec_candidates(),
            final(self).spec_cursor() == old(self).spec_cursor() + 1,
            accepts(input, yes_token) ==> final(self).spec_selection() == old(self)
                .spec_selection().push(old(self).spec_candidates()[old(self).spec_cursor()]),
            !accepts(input, yes_token) ==> final(self).spec_selection() == old(self)
                .spec_selection(),
            final(self).spec_state() is Done <==> old(self).spec_cursor() + 1 == old(self)
                .spec_candidates().len(),
            !(final(self).spec_state() is Done) ==> final(self).spec_state() is AwaitPerBranch,
    {
        let n = self.candidates.len();
        let accepted = match input {
            Some(c) => c == yes_token,
            None => false,
        };
        if accepted {
            let b = self.candidates[self.cursor].clone();
            proof {
                assert(self.candidates@.contains(self.candidates@[self.cursor as int]));
            }
            self.selection.push(b);
        }
        self.cursor = self.cursor + 1;
        if self.cursor == n {
            self.state = EngineState::Done;
        }
    }

    /// Hands out the final deletion set.
    pub fn into_selection(self) -> (r: Vec<Branch>)
        requires
            self.spec_state() is Done,
        ensures
            r@ == self.spec_selection(),
    {
        self.selection
    }
}

} // verus!
