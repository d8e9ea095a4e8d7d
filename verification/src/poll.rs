//! The poll application: a question, named options with vote counts, and an
//! active flag.  Options are keyed by name; inserting a name twice keeps one
//! entry, and votes land on the entry carrying the voted name.

use vstd::prelude::*;

use crate::host::{ApplicationCallResult, ContractError, ExecutionResult};

verus! {

/// One poll option and its vote count.
#[derive(Debug, PartialEq, Eq)]
pub struct PollOption {
    /// The option's name, unique within a poll.
    pub name: String,
    /// Votes cast for this option.
    pub votes: u64,
}

/// Mathematical model of a [`PollOption`].
#[verifier::ext_equal]
pub struct PollOptionModel {
    pub name: Seq<char>,
    pub votes: u64,
}

impl View for PollOption {
    type V = PollOptionModel;

    open spec fn view(&self) -> PollOptionModel {
        PollOptionModel { name: self.name@, votes: self.votes }
    }
}

impl DeepView for PollOption {
    type V = PollOptionModel;

    open spec fn deep_view(&self) -> PollOptionModel {
        self.view()
    }
}

impl Clone for PollOption {
    fn clone(&self) -> (r: Self)
        ensures
            r == *self,
    {
        PollOption { name: self.name.clone(), votes: self.votes }
    }
}

/// The state of the poll application.
#[derive(Debug)]
pub struct Poll {
    /// The poll question.
    pub question: String,
    /// The poll options and their vote counts, in first-insertion order.
    pub options: Vec<PollOption>,
    /// Total number of votes cast.
    pub total_votes: u64,
    /// Whether the poll is still active.
    pub is_active: bool,
}

/// Mathematical model of a [`Poll`].
#[verifier::ext_equal]
pub struct PollModel {
    pub question: Seq<char>,
    pub options: Seq<PollOptionModel>,
    pub total_votes: u64,
    pub is_active: bool,
}

impl View for Poll {
    type V = PollModel;

    open spec fn view(&self) -> PollModel {
        PollModel {
            question: self.question@,
            options: self.options.deep_view(),
            total_votes: self.total_votes,
            is_active: self.is_active,
        }
    }
}

/// The operation types that can be sent to the poll application.
#[derive(Debug)]
pub enum PollOperation {
    /// Creates a new poll with the given question and options.
    CreatePoll { question: String, options: Vec<String> },
    /// Votes for a specific option.
    Vote { option: String },
    /// Closes the poll.
    ClosePoll,
    /// Reopens the poll.
    ReopenPoll,
}

/// The message types that can be sent to the poll application.
#[derive(Debug)]
pub enum PollMessage {
    /// Votes for a specific option.
    Vote { option: String },
    /// Closes the poll.
    ClosePoll,
}

/// The application call types that can be made to the poll application.
#[derive(Debug)]
pub enum PollApplicationCall {
    /// Creates a new poll with the given question and options.
    CreatePoll { question: String, options: Vec<String> },
    /// Votes for a specific option.
    Vote { option: String },
    /// Gets the current poll results.
    GetResults,
    /// Gets the poll question.
    GetQuestion,
    /// Checks if the poll is active.
    IsActive,
    /// Closes the poll.
    ClosePoll,
}

/// The session call types; the feature is not offered.
#[derive(Debug)]
pub enum PollSessionCall {
    /// Votes for a specific option.
    Vote { option: String },
    /// Gets the current poll results.
    GetResults,
}

/// The effect types that can be sent by the poll application.
#[derive(Debug)]
pub enum PollEffect {
    /// Votes for a specific option.
    Vote { option: String },
    /// Closes the poll.
    ClosePoll,
}

/// Response values handed back to an application caller.
#[derive(Debug)]
pub enum PollResponse {
    /// A copy of the options and their vote counts.
    Results(Vec<PollOption>),
    /// A copy of the question.
    Question(String),
    /// Whether the poll is active.
    Active(bool),
}

/// The index of the first option named `name`, or `-1` if there is none.
pub open spec fn find_option(opts: Seq<PollOptionModel>, name: Seq<char>) -> int
    decreases opts.len(),
{
    if opts.len() == 0 {
        -1
    } else if opts[0].name == name {
        0
    } else {
        let r = find_option(opts.drop_first(), name);
        if r == -1 {
            -1
        } else {
            r + 1
        }
    }
}

/// The option list built by inserting `names` in order with zeroed counts,
/// keeping only the first occurrence of each name.
pub open spec fn insert_names(names: Seq<Seq<char>>) -> Seq<PollOptionModel>
    decreases names.len(),
{
    if names.len() == 0 {
        Seq::empty()
    } else {
        let acc = insert_names(names.drop_last());
        if find_option(acc, names.last()) == -1 {
            acc.push(PollOptionModel { name: names.last(), votes: 0 })
        } else {
            acc
        }
    }
}

/// Create: replace question and options, zero the tally, reopen.
pub open spec fn spec_create_poll(question: Seq<char>, names: Seq<Seq<char>>) -> PollModel {
    PollModel {
        question: question,
        options: insert_names(names),
        total_votes: 0,
        is_active: true,
    }
}

/// Vote: when the poll is active and an option carries the voted name, add
/// one to that option's count and to the tally; otherwise no change.
pub open spec fn spec_vote(m: PollModel, name: Seq<char>) -> PollModel {
    let i = find_option(m.options, name);
    if m.is_active && i != -1 {
        PollModel {
            question: m.question,
            options: m.options.update(
                i,
                PollOptionModel { votes: (m.options[i].votes + 1) as u64, ..m.options[i] },
            ),
            total_votes: (m.total_votes + 1) as u64,
            is_active: m.is_active,
        }
    } else {
        m
    }
}

/// The model of the poll that initialization installs.
pub open spec fn initial_poll() -> PollModel {
    PollModel {
        question: "What is your favorite option?"@,
        options: seq![
            PollOptionModel { name: "Option A"@, votes: 0 },
            PollOptionModel { name: "Option B"@, votes: 0 },
            PollOptionModel { name: "Option C"@, votes: 0 },
        ],
        total_votes: 0,
        is_active: true,
    }
}

impl Poll {
    /// Installs the default poll: a stock question with three zeroed
    /// options, open for votes.
    pub fn initialize(&mut self) -> (r: ExecutionResult<PollEffect>)
        ensures
            final(self)@ == initial_poll(),
            r.effects@ == Seq::<PollEffect>::empty(),
    {
        self.question = "What is your favorite option?".to_owned();
        let mut options: Vec<PollOption> = Vec::new();
        options.push(PollOption { name: "Option A".to_owned(), votes: 0 });
        options.push(PollOption { name: "Option B".to_owned(), votes: 0 });
        options.push(PollOption { name: "Option C".to_owned(), votes: 0 });
        self.options = options;
        self.total_votes = 0;
        self.is_active = true;
        proof {
            assert(self@.options =~= initial_poll().options);
            assert(self@ =~= initial_poll());
        }
        ExecutionResult::new()
    }

    /// Replaces the poll wholesale: new question, options built from the
    /// given names with zeroed counts and first occurrences kept, tally
    /// reset, poll reopened.
    pub fn create_poll(&mut self, question: String, options: Vec<String>)
        ensures
            final(self)@ == spec_create_poll(question@, options.deep_view()),
    {
        self.question = question;
        self.options = Vec::new();
        self.total_votes = 0;
        self.is_active = true;
        let mut i: usize = 0;
        proof {
            assert(options.deep_view().subrange(0, 0) =~= Seq::<Seq<char>>::empty());
            assert(self.options.deep_view() =~= insert_names(options.deep_view().subrange(0, 0)));
        }
        while i < options.len()
            invariant
                i <= options.len(),
                self.question == question,
                self.total_votes == 0,
                self.is_active == true,
                self.options.deep_view() == insert_names(options.deep_view().subrange(0, i as int)),
            decreases options.len() - i,
        {
            let ghost prefix = options.deep_view().subrange(0, i as int);
            let ghost next = options.deep_view().subrange(0, i as int + 1);
            proof {
                assert(next.drop_last() =~= prefix);
                assert(next.last() == options.deep_view()[i as int]);
            }
            let name = options[i].clone();
            proof {
                assert(name@ == options.deep_view()[i as int]);
            }
            if self.find_option_index(&name).is_none() {
                self.options.push(PollOption { name, votes: 0 });
            }
            proof {
                assert(self.options.deep_view() =~= insert_names(next));
            }
            i += 1;
        }
        proof {
            assert(options.deep_view().subrange(0, options.len() as int) =~= options.deep_view());
            assert(self@ =~= spec_create_poll(question@, options.deep_view()));
        }
    }

    /// The position of the first option named `name`, if any carries it.
    fn find_option_index(&self, name: &String) -> (r: Option<usize>)
        ensures
            (match r {
                Some(j) => find_option(self@.options, name@) == j,
                None => find_option(self@.options, name@) == -1,
            }),
    {
        let mut j: usize = 0;
        let n = self.options.len();
        while j < n
            invariant
                j <= n == self.options.len(),
                forall|k: int| 0 <= k < j ==> self.options.deep_view()[k].name != name@,
            decreases n - j,
        {
            if self.options[j].name == *name {
                proof {
                    lemma_find_option_at(self.options.deep_view(), name@, j as int);
                }
                return Some(j);
            }
            j += 1;
        }
        proof {
            lemma_find_option_none(self.options.deep_view(), name@);
        }
        None
    }

    /// Counts one vote for the named option when the poll is active and the
    /// option exists; any other vote is ignored.
    #[verifier::loop_isolation(false)]
    pub fn vote(&mut self, option: &String)
        requires
            ({
                let i = find_option(old(self)@.options, option@);
                old(self).is_active && i != -1 ==> old(self)@.options[i].votes < u64::MAX && old(self).total_votes < u64::MAX
            }),
        ensures
            final(self)@ == spec_vote(old(self)@, option@),
            (!old(self).is_active || find_option(old(self)@.options, option@) == -1) ==> *final(self) == *old(self),
    {
        if !self.is_active {
            return ;
        }
        let mut j: usize = 0;
        let n = self.options.len();
        while j < n
            invariant
                j <= n == self.options.len(),
                *self == *old(self),
                forall|k: int| 0 <= k < j ==> self.options.deep_view()[k].name != option@,
            decreases n - j,
        {
            if self.options[j].name == *option {
                proof {
                    lemma_find_option_at(self.options.deep_view(), option@, j as int);
                }
                let entry = &mut self.options[j];
                entry.votes = entry.votes + 1;
                self.total_votes = self.total_votes + 1;
                proof {
                    assert(self@ =~= spec_vote(old(self)@, option@));
                }
                return ;
            }
            j += 1;
        }
        proof {
            lemma_find_option_none(self.options.deep_view(), option@);
        }
    }

    /// Applies one locally initiated operation.
    pub fn execute_operation(&mut self, operation: PollOperation) -> (r: ExecutionResult<
        PollEffect,
    >)
        requires
            (match operation {
                PollOperation::Vote { option } => ({
                    let i = find_option(old(self)@.options, option@);
                    old(self).is_active && i != -1 ==> old(self)@.options[i].votes < u64::MAX
                        && old(self).total_votes < u64::MAX
                }),
                _ => true,
            }),
        ensures
            r.effects@ == Seq::<PollEffect>::empty(),
            (match operation {
                PollOperation::CreatePoll { question, options } => final(self)@
                    == spec_create_poll(question@, options.deep_view()),
                PollOperation::Vote { option } => final(self)@ == spec_vote(old(self)@, option@),
                PollOperation::ClosePoll => final(self)@ == (PollModel {
                    is_active: false,
                    ..old(self)@
                }),
                PollOperation::ReopenPoll => final(self)@ == (PollModel {
                    is_active: true,
                    ..old(self)@
                }),
            }),
    {
        match operation {
            PollOperation::CreatePoll { question, options } => {
                self.create_poll(question, options);
            },
            PollOperation::Vote { option } => {
                self.vote(&option);
            },
            PollOperation::ClosePoll => {
                self.is_active = false;
            },
            PollOperation::ReopenPoll => {
                self.is_active = true;
            },
        }
        ExecutionResult::new()
    }

    /// Applies one cross-chain message.
    pub fn execute_message(&mut self, message: PollMessage) -> (r: ExecutionResult<PollEffect>)
        requires
            (match message {
                PollMessage::Vote { option } => ({
                    let i = find_option(old(self)@.options, option@);
                    old(self).is_active && i != -1 ==> old(self)@.options[i].votes < u64::MAX
                        && old(self).total_votes < u64::MAX
                }),
                _ => true,
            }),
        ensures
            r.effects@ == Seq::<PollEffect>::empty(),
            (match message {
                PollMessage::Vote { option } => final(self)@ == spec_vote(old(self)@, option@),
                PollMessage::ClosePoll => final(self)@ == (PollModel {
                    is_active: false,
                    ..old(self)@
                }),
            }),
    {
        match message {
            PollMessage::Vote { option } => {
                self.vote(&option);
            },
            PollMessage::ClosePoll => {
                self.is_active = false;
            },
        }
        ExecutionResult::new()
    }

    /// Serves a call from another application; the `Get` variants are
    /// read-only and copy state out.
    pub fn handle_application_call(&mut self, call: PollApplicationCall) -> (r:
        ApplicationCallResult<PollResponse, PollEffect>)
        requires
            (match call {
                PollApplicationCall::Vote { option } => ({
                    let i = find_option(old(self)@.options, option@);
                    old(self).is_active && i != -1 ==> old(self)@.options[i].votes < u64::MAX
                        && old(self).total_votes < u64::MAX
                }),
                _ => true,
            }),
        ensures
            r.effects@ == Seq::<PollEffect>::empty(),
            (match call {
                PollApplicationCall::CreatePoll { question, options } => final(self)@
                    == spec_create_poll(question@, options.deep_view()) && r.value is None,
                PollApplicationCall::Vote { option } => final(self)@ == spec_vote(
                    old(self)@,
                    option@,
                ) && r.value is None,
                PollApplicationCall::GetResults => *final(self) == *old(self) && (r.value matches
                    Some(PollResponse::Results(v)) && v@ == old(self).options@),
                PollApplicationCall::GetQuestion => *final(self) == *old(self) && (r.value matches
                    Some(PollResponse::Question(q)) && q@ == old(self).question@),
                PollApplicationCall::IsActive => *final(self) == *old(self) && r.value == Some(
                    PollResponse::Active(old(self).is_active),
                ),
                PollApplicationCall::ClosePoll => final(self)@ == (PollModel {
                    is_active: false,
                    ..old(self)@
                }) && r.value is None,
            }),
    {
        match call {
            PollApplicationCall::CreatePoll { question, options } => {
                self.create_poll(question, options);
                ApplicationCallResult::new()
            },
            PollApplicationCall::Vote { option } => {
                self.vote(&option);
                ApplicationCallResult::new()
            },
            PollApplicationCall::GetResults => {
                let copy = self.options.clone();
                proof {
                    assert(copy@ =~= self.options@);
                }
                ApplicationCallResult {
                    value: Some(PollResponse::Results(copy)),
                    effects: Vec::new(),
                }
            },
            PollApplicationCall::GetQuestion => {
                ApplicationCallResult {
                    value: Some(PollResponse::Question(self.question.clone())),
                    effects: Vec::new(),
                }
            },
            PollApplicationCall::IsActive => {
                ApplicationCallResult {
                    value: Some(PollResponse::Active(self.is_active)),
                    effects: Vec::new(),
                }
            },
            PollApplicationCall::ClosePoll => {
                self.is_active = false;
                ApplicationCallResult::new()
            },
        }
    }

    /// Session-style calls are uniformly rejected: the feature is not
    /// offered.
    pub fn handle_session_call(&self, _call: PollSessionCall) -> (r: Result<
        ExecutionResult<PollEffect>,
        ContractError,
    >)
        ensures
            r == Err::<ExecutionResult<PollEffect>, ContractError>(ContractError::UnsupportedCall),
    {
        Err(ContractError::UnsupportedCall)
    }

    /// Effects carry no work for the poll itself.
    pub fn handle_effect(&self, _effect: &PollEffect) -> (r: ExecutionResult<PollEffect>)
        ensures
            r.effects@ == Seq::<PollEffect>::empty(),
    {
        ExecutionResult::new()
    }

    /// A read-only snapshot of the state.
    pub fn snapshot(&self) -> (v: PollView)
        ensures
            v.question@ == self.question@,
            v.options@ == self.options@,
            v.total_votes == self.total_votes,
            v.is_active == self.is_active,
    {
        let options = self.options.clone();
        proof {
            assert(options@ =~= self.options@);
        }
        PollView {
            question: self.question.clone(),
            options,
            total_votes: self.total_votes,
            is_active: self.is_active,
        }
    }
}

impl Default for Poll {
    /// An empty, closed poll with no question.
    fn default() -> (r: Self)
        ensures
            r@.question == Seq::<char>::empty(),
            r@.options == Seq::<PollOptionModel>::empty(),
            r.total_votes == 0,
            r.is_active == false,
    {
        let r = Poll {
            question: String::new(),
            options: Vec::new(),
            total_votes: 0,
            is_active: false,
        };
        proof {
            assert(r@.options =~= Seq::<PollOptionModel>::empty());
        }
        r
    }
}

/// A read-only snapshot of the poll state.
#[derive(Debug)]
pub struct PollView {
    /// The poll question.
    pub question: String,
    /// The poll options and their vote counts.
    pub options: Vec<PollOption>,
    /// Total number of votes cast.
    pub total_votes: u64,
    /// Whether the poll is still active.
    pub is_active: bool,
}

/// No two options share a name.
pub open spec fn option_names_unique(opts: Seq<PollOptionModel>) -> bool {
    forall|i: int, j: int| 0 <= i < j < opts.len() ==> opts[i].name != opts[j].name
}

/// The option list a poll is created with is keyed by name: inserting a list
/// of names keeps only the first occurrence of each, so no two options share
/// a name.
pub proof fn lemma_insert_names_unique(names: Seq<Seq<char>>)
    ensures
        option_names_unique(insert_names(names)),
    decreases names.len(),
{
    if names.len() > 0 {
        lemma_insert_names_unique(names.drop_last());
        let acc = insert_names(names.drop_last());
        if find_option(acc, names.last()) == -1 {
            lemma_find_option_props(acc, names.last());
            let p = acc.push(PollOptionModel { name: names.last(), votes: 0 });
            assert forall|i: int, j: int| 0 <= i < j < p.len() implies p[i].name != p[j].name by {
                assert(p[i] == acc[i]);
                if j < acc.len() {
                    assert(p[j] == acc[j]);
                } else {
                    assert(p[j].name == names.last());
                }
            }
        }
    }
}

/// What the search result means: `-1` exactly when no option carries the
/// name, and otherwise the first position that does.
pub proof fn lemma_find_option_props(opts: Seq<PollOptionModel>, name: Seq<char>)
    ensures
        find_option(opts, name) == -1 ==> forall|k: int|
            0 <= k < opts.len() ==> opts[k].name != name,
        find_option(opts, name) != -1 ==> {
            let i = find_option(opts, name);
            0 <= i < opts.len() && opts[i].name == name && forall|k: int|
                0 <= k < i ==> opts[k].name != name
        },
    decreases opts.len(),
{
    if opts.len() == 0 {
    } else if opts[0].name == name {
    } else {
        lemma_find_option_props(opts.drop_first(), name);
        let r = find_option(opts.drop_first(), name);
        if r == -1 {
            assert forall|k: int| 0 <= k < opts.len() implies opts[k].name != name by {
                if k > 0 {
                    assert(opts.drop_first()[k - 1] == opts[k]);
                }
            }
        } else {
            assert(opts.drop_first()[r] == opts[r + 1]);
            assert forall|k: int| 0 <= k < r + 1 implies opts[k].name != name by {
                if k > 0 {
                    assert(opts.drop_first()[k - 1] == opts[k]);
                }
            }
        }
    }
}

/// When `opts[j]` is the first option named `name`, the search finds it.
proof fn lemma_find_option_at(opts: Seq<PollOptionModel>, name: Seq<char>, j: int)
    requires
        0 <= j < opts.len(),
        opts[j].name == name,
        forall|k: int| 0 <= k < j ==> opts[k].name != name,
    ensures
        find_option(opts, name) == j,
    decreases opts.len(),
{
    if j > 0 {
        lemma_find_option_at(opts.drop_first(), name, j - 1);
    }
}

/// When no option carries `name`, the search reports none.
proof fn lemma_find_option_none(opts: Seq<PollOptionModel>, name: Seq<char>)
    requires
        forall|k: int| 0 <= k < opts.len() ==> opts[k].name != name,
    ensures
        find_option(opts, name) == -1,
    decreases opts.len(),
{
    if opts.len() > 0 {
        lemma_find_option_none(opts.drop_first(), name);
    }
}

} // verus!
