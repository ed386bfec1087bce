//! The commit wizard: a state machine that asks for the type, the scope,
//! the note on a breaking change and the subject, in this order, and hands
//! the complete record to the dispatcher. The machine decides; its caller
//! shows each prompt and reports the reply.

use vstd::prelude::*;
use vstd::string::StringExecFns;

use crate::commit::{is_conventional, scoped, Commit, CommitView};
use crate::dispatch::{commit_command, commit_invocation, Invocation, InvocationView};
use crate::commit_type::{is_base_type, offered_types, CommitType};
use crate::scope::{readable, scope_entries, scope_list};
use crate::staging::{any_staged, has_staged_changes, EntryStatus};

verus! {

/// How far the wizard has come.
#[derive(Clone, Copy, Debug, PartialEq, Eq, Structural)]
pub enum Stage {
    /// Nothing is known yet; the type is asked for.
    Start,
    /// The type is known; the scope is asked for.
    TypeSelected,
    /// The scope is merged into the type; the note on a breaking change is
    /// asked for.
    ScopeResolved,
    /// The note is known; the subject is asked for.
    BreakingCaptured,
    /// The record is complete and waits for the dispatcher.
    SubjectCaptured,
    /// The record has been handed to the dispatcher.
    Assembled,
    /// A prompt was cancelled or failed. Nothing is committed.
    Aborted,
}

/// What the caller has to do next.
#[derive(Debug, PartialEq, Eq)]
pub enum Request {
    /// Let the user pick one of `options`, the cursor starting at
    /// `default_index`, and report the text of the option picked.
    Select { label: String, options: Vec<String>, default_index: usize },
    /// Let the user enter a line of text, starting from an empty one, and
    /// report it.
    Text { label: String },
    /// Fetch the commit command with [`Wizard::dispatch`] and run it.
    Dispatch,
    /// Nothing is left to do.
    Exit,
}

/// The mathematical value of a [`Request`].
pub enum RequestView {
    Select { label: Seq<char>, options: Seq<Seq<char>>, default_index: nat },
    Text { label: Seq<char> },
    Dispatch,
    Exit,
}

impl View for Request {
    type V = RequestView;

    open spec fn view(&self) -> RequestView {
        match self {
            Request::Select { label, options, default_index } => RequestView::Select {
                label: label@,
                options: options.deep_view(),
                default_index: *default_index as nat,
            },
            Request::Text { label } => RequestView::Text { label: label@ },
            Request::Dispatch => RequestView::Dispatch,
            Request::Exit => RequestView::Exit,
        }
    }
}

/// The names of the base types, in the order in which they are offered.
pub open spec fn type_names() -> Seq<Seq<char>> {
    offered_types().map_values(|t: CommitType| t.name())
}

/// The wizard: its stage, the scope registry and the record under
/// composition.
pub struct Wizard {
    stage: Stage,
    scopes: Vec<String>,
    commit: Commit,
}

/// The mathematical value of a [`Wizard`].
pub struct WizardView {
    pub stage: Stage,
    pub scopes: Seq<Seq<char>>,
    pub commit: CommitView,
}

impl WizardView {
    /// The wizard before its first prompt.
    pub open spec fn initial(scopes: Seq<Seq<char>>) -> WizardView {
        WizardView { stage: Stage::Start, scopes, commit: CommitView::empty() }
    }

    /// Whether the scope is entered as free text: the registry holds the
    /// entry for "no scope" and nothing else.
    pub open spec fn enters_scope(self) -> bool {
        self.scopes.len() == 1
    }

    /// Whether a prompt is pending.
    pub open spec fn is_asking(self) -> bool {
        self.stage == Stage::Start || self.stage == Stage::TypeSelected || self.stage
            == Stage::ScopeResolved || self.stage == Stage::BreakingCaptured
    }

    /// The invariant of the wizard. The registry opens with the entry for
    /// "no scope". The record holds what the stages passed have put into it
    /// and nothing else: the type is a base type, alone or with a scope
    /// merged in, and a note that is present holds text.
    pub open spec fn wf(self) -> bool {
        &&& self.scopes.len() >= 1
        &&& self.scopes[0].len() == 0
        &&& match self.stage {
            Stage::Start => self.commit == CommitView::empty(),
            Stage::TypeSelected => {
                &&& is_base_type(self.commit.commit_type)
                &&& self.commit.message.len() == 0
                &&& self.commit.breaking is None
            },
            Stage::ScopeResolved => {
                &&& is_conventional(self.commit.commit_type)
                &&& self.commit.message.len() == 0
                &&& self.commit.breaking is None
            },
            Stage::BreakingCaptured => {
                &&& is_conventional(self.commit.commit_type)
                &&& self.commit.message.len() == 0
                &&& self.commit.breaking is Some ==> self.commit.is_breaking()
            },
            Stage::SubjectCaptured | Stage::Assembled => {
                &&& is_conventional(self.commit.commit_type)
                &&& self.commit.breaking is Some ==> self.commit.is_breaking()
            },
            Stage::Aborted => true,
        }
    }

    /// What the caller has to do in this state.
    pub open spec fn request(self) -> RequestView {
        match self.stage {
            Stage::Start => RequestView::Select {
                label: "Select a commit type"@,
                options: type_names(),
                default_index: 0,
            },
            Stage::TypeSelected => if self.enters_scope() {
                RequestView::Text { label: "Scope"@ }
            } else {
                RequestView::Select { label: "Scope"@, options: self.scopes, default_index: 0 }
            },
            Stage::ScopeResolved => RequestView::Text { label: "Breaking changes"@ },
            Stage::BreakingCaptured => RequestView::Text { label: self.commit.commit_type },
            Stage::SubjectCaptured => RequestView::Dispatch,
            Stage::Assembled | Stage::Aborted => RequestView::Exit,
        }
    }

    /// Whether the pending prompt can have given `answer`: a selection gives
    /// one of its options, a text prompt gives any text.
    pub open spec fn accepts(self, answer: Seq<char>) -> bool {
        match self.stage {
            Stage::Start => is_base_type(answer),
            Stage::TypeSelected => self.enters_scope() || self.scopes.contains(answer),
            Stage::ScopeResolved | Stage::BreakingCaptured => true,
            Stage::SubjectCaptured | Stage::Assembled | Stage::Aborted => false,
        }
    }

    /// The state after `answer` to the pending prompt, for an answer that
    /// the prompt can have given.
    pub open spec fn answered(self, answer: Seq<char>) -> WizardView {
        match self.stage {
            Stage::Start => WizardView {
                stage: Stage::TypeSelected,
                commit: CommitView { commit_type: answer, ..self.commit },
                ..self
            },
            Stage::TypeSelected => WizardView {
                stage: Stage::ScopeResolved,
                commit: CommitView {
                    commit_type: scoped(self.commit.commit_type, answer),
                    ..self.commit
                },
                ..self
            },
            Stage::ScopeResolved => WizardView {
                stage: Stage::BreakingCaptured,
                commit: CommitView {
                    breaking: if answer.len() > 0 {
                        Some(answer)
                    } else {
                        None
                    },
                    ..self.commit
                },
                ..self
            },
            Stage::BreakingCaptured => WizardView {
                stage: Stage::SubjectCaptured,
                commit: CommitView { message: answer, ..self.commit },
                ..self
            },
            Stage::SubjectCaptured | Stage::Assembled | Stage::Aborted => self,
        }
    }

    /// The state after the reply to the pending prompt, `None` standing for
    /// a prompt that was cancelled or failed. A cancelled prompt aborts, and
    /// so does an answer that the prompt cannot have given. Where no prompt
    /// is pending, nothing changes.
    pub open spec fn next(self, reply: Option<Seq<char>>) -> WizardView {
        if !self.is_asking() {
            self
        } else if reply is Some && self.accepts(reply->0) {
            self.answered(reply->0)
        } else {
            WizardView { stage: Stage::Aborted, ..self }
        }
    }

    /// The command that commits the record.
    pub open spec fn command(self) -> InvocationView {
        commit_invocation(self.commit.assembled())
    }

    /// The state after the record has been handed to the dispatcher.
    pub open spec fn dispatched(self) -> WizardView {
        if self.stage == Stage::SubjectCaptured {
            WizardView { stage: Stage::Assembled, ..self }
        } else {
            self
        }
    }
}

impl View for Wizard {
    type V = WizardView;

    closed spec fn view(&self) -> WizardView {
        WizardView { stage: self.stage, scopes: self.scopes.deep_view(), commit: self.commit@ }
    }
}

/// The names of the base types, as the options of the first prompt.
fn type_options() -> (r: Vec<String>)
    ensures
        r.deep_view() == type_names(),
{
    let types = CommitType::all();
    let mut names: Vec<String> = Vec::new();
    let mut i: usize = 0;
    while i < types.len()
        invariant
            i <= types.len(),
            types@ == offered_types(),
            names.deep_view() == type_names().take(i as int),
        decreases types.len() - i,
    {
        let ghost before = names.deep_view();
        names.push(String::from_str(types[i].as_str()));
        assert(names.deep_view() =~= before.push(types@[i as int].name()));
        assert(names.deep_view() =~= type_names().take(i + 1));
        i += 1;
    }
    assert(type_names().take(types.len() as int) =~= type_names());
    names
}

/// Whether `text` stands in `list`.
fn holds(list: &Vec<String>, text: &String) -> (r: bool)
    ensures
        r == list.deep_view().contains(text@),
{
    let mut i: usize = 0;
    while i < list.len()
        invariant
            i <= list.len(),
            forall|j: int| 0 <= j < i ==> list.deep_view()[j] != text@,
        decreases list.len() - i,
    {
        if list[i] == *text {
            assert(list.deep_view()[i as int] == text@);
            return true;
        }
        i += 1;
    }
    false
}

/// A copy of `list`.
fn copy_of(list: &Vec<String>) -> (r: Vec<String>)
    ensures
        r.deep_view() == list.deep_view(),
{
    let mut copy: Vec<String> = Vec::new();
    let mut i: usize = 0;
    while i < list.len()
        invariant
            i <= list.len(),
            copy.deep_view() == list.deep_view().take(i as int),
        decreases list.len() - i,
    {
        let ghost before = copy.deep_view();
        copy.push(list[i].clone());
        assert(copy.deep_view() =~= before.push(list@[i as int]@));
        assert(copy.deep_view() =~= list.deep_view().take(i + 1));
        i += 1;
    }
    assert(list.deep_view().take(list.len() as int) =~= list.deep_view());
    copy
}

impl Wizard {
    /// Starts a wizard, if there is anything to commit: with a staged path
    /// among `entries`, one in its first state, over the registry for the
    /// `configured` scopes; with none, no wizard.
    pub fn begin(entries: &[EntryStatus], configured: &[Option<String>]) -> (r: Option<Wizard>)
        ensures
            r is Some <==> any_staged(entries@),
            r is Some ==> r->0@ == WizardView::initial(scope_entries(configured.deep_view())),
            r is Some ==> r->0@.wf(),
    {
        if !has_staged_changes(entries) {
            return None;
        }
        let scopes = scope_list(configured);
        let wizard = Wizard { stage: Stage::Start, scopes, commit: Commit::default() };
        proof {
            crate::scope::lemma_registry_keeps_sentinel(configured.deep_view());
        }
        Some(wizard)
    }

    /// How far the wizard has come.
    pub fn stage(&self) -> (r: Stage)
        ensures
            r == self@.stage,
    {
        self.stage
    }

    /// The scope registry.
    pub fn scopes(&self) -> (r: &Vec<String>)
        ensures
            r.deep_view() == self@.scopes,
    {
        &self.scopes
    }

    /// The record as far as it is composed.
    pub fn commit(&self) -> (r: &Commit)
        ensures
            r@ == self@.commit,
    {
        &self.commit
    }

    /// What the caller has to do next.
    pub fn request(&self) -> (r: Request)
        ensures
            r@ == self@.request(),
    {
        match self.stage {
            Stage::Start => Request::Select {
                label: String::from_str("Select a commit type"),
                options: type_options(),
                default_index: 0,
            },
            Stage::TypeSelected => {
                if self.scopes.len() == 1 {
                    Request::Text { label: String::from_str("Scope") }
                } else {
                    Request::Select {
                        label: String::from_str("Scope"),
                        options: copy_of(&self.scopes),
                        default_index: 0,
                    }
                }
            },
            Stage::ScopeResolved => Request::Text { label: String::from_str("Breaking changes") },
            Stage::BreakingCaptured => Request::Text { label: self.commit.commit_type.clone() },
            Stage::SubjectCaptured => Request::Dispatch,
            Stage::Assembled | Stage::Aborted => Request::Exit,
        }
    }

    /// Takes the reply to the pending prompt, `None` for a prompt that was
    /// cancelled or failed, and says what to do next.
    pub fn advance(&mut self, reply: Option<String>) -> (r: Request)
        ensures
            final(self)@ == old(self)@.next(reply.deep_view()),
            r@ == final(self)@.request(),
            old(self)@.wf() ==> final(self)@.wf(),
    {
        proof {
            if self@.wf() {
                lemma_next_preserves_wf(self@, reply.deep_view());
            }
        }
        match reply {
            None => {
                match self.stage {
                    Stage::SubjectCaptured | Stage::Assembled | Stage::Aborted => {},
                    _ => {
                        self.stage = Stage::Aborted;
                    },
                }
            },
            Some(answer) => {
                match self.stage {
                    Stage::Start => {
                        match CommitType::parse(answer.as_str()) {
                            Some(_) => {
                                self.commit.commit_type = answer;
                                self.stage = Stage::TypeSelected;
                            },
                            None => {
                                self.stage = Stage::Aborted;
                            },
                        }
                    },
                    Stage::TypeSelected => {
                        if self.scopes.len() == 1 || holds(&self.scopes, &answer) {
                            self.commit.apply_scope(answer.as_str());
                            self.stage = Stage::ScopeResolved;
                        } else {
                            self.stage = Stage::Aborted;
                        }
                    },
                    Stage::ScopeResolved => {
                        self.commit.breaking = if answer.as_str().is_empty() {
                            None
                        } else {
                            Some(answer)
                        };
                        self.stage = Stage::BreakingCaptured;
                    },
                    Stage::BreakingCaptured => {
                        self.commit.message = answer;
                        self.stage = Stage::SubjectCaptured;
                    },
                    Stage::SubjectCaptured | Stage::Assembled | Stage::Aborted => {},
                }
            },
        }
        self.request()
    }

    /// Hands the complete record to the dispatcher: the command that commits
    /// it, once. Before the record is complete, after it has been handed
    /// out and after an abort there is no command, and nothing changes.
    pub fn dispatch(&mut self) -> (r: Option<Invocation>)
        ensures
            r is Some <==> old(self)@.stage == Stage::SubjectCaptured,
            r is Some ==> r->0@ == old(self)@.command(),
            final(self)@ == old(self)@.dispatched(),
            old(self)@.wf() ==> final(self)@.wf(),
    {
        match self.stage {
            Stage::SubjectCaptured => {
                let message = self.commit.to_string();
                self.stage = Stage::Assembled;
                Some(commit_command(message.as_str()))
            },
            _ => None,
        }
    }
}

/// A step keeps the invariant of the wizard.
pub proof fn lemma_next_preserves_wf(w: WizardView, reply: Option<Seq<char>>)
    requires
        w.wf(),
    ensures
        w.next(reply).wf(),
{
    if w.is_asking() && reply is Some && w.accepts(reply->0) {
        let answer = reply->0;
        match w.stage {
            Stage::TypeSelected => {
                let t = choose|t: CommitType| t.name() == w.commit.commit_type;
                assert(scoped(w.commit.commit_type, answer) == scoped(t.name(), answer));
            },
            Stage::Start => {
                let t = choose|t: CommitType| t.name() == answer;
                assert(answer == t.name());
            },
            _ => {},
        }
    }
}

/// The place of a stage in the order of the stages.
pub open spec fn rank(stage: Stage) -> nat {
    match stage {
        Stage::Start => 0,
        Stage::TypeSelected => 1,
        Stage::ScopeResolved => 2,
        Stage::BreakingCaptured => 3,
        Stage::SubjectCaptured => 4,
        Stage::Assembled => 5,
        Stage::Aborted => 6,
    }
}

/// The wizard never goes back: a reply leads to the stage that follows or to
/// the abort, and changes nothing where no prompt is pending. A hand-over to
/// the dispatcher leads from the complete record to the stage that follows
/// and changes nothing elsewhere.
pub proof fn lemma_forward_only(w: WizardView, reply: Option<Seq<char>>)
    ensures
        w.is_asking() ==> w.next(reply).stage == Stage::Aborted || rank(w.next(reply).stage)
            == rank(w.stage) + 1,
        !w.is_asking() ==> w.next(reply) == w,
        w.stage == Stage::SubjectCaptured ==> rank(w.dispatched().stage) == rank(w.stage) + 1,
        w.stage != Stage::SubjectCaptured ==> w.dispatched() == w,
{
}

/// The record is handed to the dispatcher once: the hand-over leaves the
/// record as it is and leads to a state that hands nothing over.
pub proof fn lemma_handed_over_once(w: WizardView)
    ensures
        w.dispatched().commit == w.commit,
        w.dispatched().stage != Stage::SubjectCaptured,
        w.dispatched().dispatched() == w.dispatched(),
{
}

/// A cancelled prompt aborts the wizard, whatever the stage, and the abort
/// is final: no reply and no hand-over leads out of it, nothing is asked
/// for and no command is to be had.
pub proof fn lemma_cancel_aborts(w: WizardView, later: Option<Seq<char>>)
    requires
        w.is_asking(),
    ensures
        w.next(None).stage == Stage::Aborted,
        w.next(None).request() == RequestView::Exit,
        w.next(None).next(later) == w.next(None),
        w.next(None).dispatched() == w.next(None),
{
}

/// How the scope is asked for. With no readable value configured, it is
/// entered as free text. With one or more, it is picked from the registry,
/// whose first option is the entry for "no scope"; picking that entry is
/// accepted and leaves the commit type without a scope.
pub proof fn lemma_scope_routing(w: WizardView, values: Seq<Option<Seq<char>>>)
    requires
        w.stage == Stage::TypeSelected,
        w.scopes == scope_entries(values),
    ensures
        readable(values).len() == 0 ==> w.request() == (RequestView::Text { label: "Scope"@ }),
        readable(values).len() > 0 ==> w.request() == (RequestView::Select {
            label: "Scope"@,
            options: scope_entries(values),
            default_index: 0,
        }),
        scope_entries(values)[0] == Seq::<char>::empty(),
        w.accepts(Seq::<char>::empty()),
        w.next(Some(Seq::<char>::empty())) == (WizardView { stage: Stage::ScopeResolved, ..w }),
{
    crate::scope::lemma_registry_keeps_sentinel(values);
    assert(scope_entries(values)[0] =~= Seq::<char>::empty());
    let after = w.next(Some(Seq::<char>::empty()));
    assert(after.commit == w.commit);
}

/// A run without a cancelled prompt. From the first state, the base type
/// `t`, a scope that the scope prompt can give, a note and a subject lead to
/// the complete record: the type with the scope merged in, the subject, and
/// the note if it holds text. The command to dispatch carries the message
/// that this record assembles into.
pub proof fn lemma_complete_run(
    scopes: Seq<Seq<char>>,
    t: CommitType,
    scope: Seq<char>,
    note: Option<Seq<char>>,
    subject: Seq<char>,
)
    requires
        scopes.len() == 1 || scopes.contains(scope),
        note is Some ==> note->0.len() > 0,
    ensures
        ({
            let end = WizardView::initial(scopes).next(Some(t.name())).next(Some(scope)).next(
                Some(
                    match note {
                        Some(text) => text,
                        None => Seq::empty(),
                    },
                ),
            ).next(Some(subject));
            let record = CommitView {
                commit_type: scoped(t.name(), scope),
                message: subject,
                breaking: note,
            };
            &&& end == (WizardView { stage: Stage::SubjectCaptured, scopes, commit: record })
            &&& end.request() == RequestView::Dispatch
            &&& end.command() == commit_invocation(record.assembled())
            &&& end.dispatched().stage == Stage::Assembled
        }),
{
    let first = WizardView::initial(scopes);
    assert(first.accepts(t.name()));
    let second = first.next(Some(t.name()));
    assert(second.accepts(scope));
}

} // verus!
