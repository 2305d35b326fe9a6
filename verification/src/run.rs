//! Walking through the steps of a command.
//!
//! A [`Run`] hands out one [`Action`] at a time. Whoever owns the windows
//! performs it and reports what happened as an [`Event`]; the run then moves
//! on, or ends with the first failure.

use vstd::prelude::*;
use crate::error::{missing_window_message, missing_window_text, CommandError, CommandErrorView};
use crate::layer::LayerJob;
use crate::error::Failure;
use crate::plan::{ensure_steps, skips_stay_inside, windows_in_hand, Branch, Held, Step};
use crate::window::{WindowCall, WindowOptions, WindowRole};

verus! {

/// What the window system answered to the last action.
#[derive(Debug, PartialEq, Eq)]
pub enum Event {
    /// The window that was looked up exists.
    Found,
    /// The window that was looked up does not exist.
    Missing,
    /// The call went through.
    Done,
    /// The call failed, for the reason given.
    Failed(String),
    /// The job ran on the user-interface thread and returned this.
    Returned(Result<bool, CommandError>),
    /// The job could not be handed to the user-interface thread.
    NotSent(String),
    /// The job was handed over, but its result never arrived.
    NoReply(String),
}

/// An [`Event`] with its texts as character sequences.
pub enum EventView {
    Found,
    Missing,
    Done,
    Failed(Seq<char>),
    Returned(Result<bool, CommandErrorView>),
    NotSent(Seq<char>),
    NoReply(Seq<char>),
}

impl View for Event {
    type V = EventView;

    open spec fn view(&self) -> EventView {
        match self {
            Event::Found => EventView::Found,
            Event::Missing => EventView::Missing,
            Event::Done => EventView::Done,
            Event::Failed(message) => EventView::Failed(message@),
            Event::Returned(Ok(applied)) => EventView::Returned(Ok(*applied)),
            Event::Returned(Err(error)) => EventView::Returned(Err(error@)),
            Event::NotSent(message) => EventView::NotSent(message@),
            Event::NoReply(message) => EventView::NoReply(message@),
        }
    }
}

/// What is to be done next.
#[derive(Debug, PartialEq, Eq)]
pub enum Action {
    /// Find out whether the window exists; answer [`Event::Found`] or
    /// [`Event::Missing`].
    Lookup(WindowRole),
    /// Make the call; answer [`Event::Done`] or [`Event::Failed`].
    Invoke(WindowCall),
    /// Run the job for this window on the user-interface thread; answer
    /// [`Event::Returned`], [`Event::NotSent`] or [`Event::NoReply`].
    Dispatch(WindowRole, LayerJob),
    /// Nothing: the command has ended, with this result.
    Finish(Result<(), CommandError>),
}

/// An [`Action`] with its error as character sequences.
pub enum ActionView {
    Lookup(WindowRole),
    Invoke(WindowCall),
    Dispatch(WindowRole, LayerJob),
    Finish(Result<(), CommandErrorView>),
}

impl View for Action {
    type V = ActionView;

    open spec fn view(&self) -> ActionView {
        match self {
            Action::Lookup(role) => ActionView::Lookup(*role),
            Action::Invoke(call) => ActionView::Invoke(*call),
            Action::Dispatch(role, job) => ActionView::Dispatch(*role, *job),
            Action::Finish(Ok(_)) => ActionView::Finish(Ok(())),
            Action::Finish(Err(error)) => ActionView::Finish(Err(error@)),
        }
    }
}

/// Where an answer leads.
pub enum Verdict {
    /// Past the step that was answered and this many more.
    Advance(nat),
    /// To the end of the command, with this error.
    Fail(CommandErrorView),
}

/// Where a branch leads. A branch that fails does so with the message that
/// the overlay window was not created.
pub open spec fn branch_verdict(branch: Branch) -> Verdict {
    match branch {
        Branch::Next => Verdict::Advance(0),
        Branch::Skip(count) => Verdict::Advance(count as nat),
        Branch::Fail(failure) => Verdict::Fail(failure.error_view(missing_window_text())),
    }
}

/// Where `event` leads when it answers `step`; `None` when it is no answer
/// to that kind of step.
///
/// A lookup follows the branch for what was found. A call that went through
/// leads on; one that failed ends the command with the step's failure and
/// the reason. A job that returned leads on, whether or not it applied
/// anything; its own error ends the command unchanged.
pub open spec fn verdict(step: Step, event: EventView) -> Option<Verdict> {
    match (step, event) {
        (Step::Lookup { found, .. }, EventView::Found) => Some(branch_verdict(found)),
        (Step::Lookup { missing, .. }, EventView::Missing) => Some(branch_verdict(missing)),
        (Step::Invoke { .. }, EventView::Done) => Some(Verdict::Advance(0)),
        (Step::Invoke { failure, .. }, EventView::Failed(message)) => Some(
            Verdict::Fail(failure.error_view(message)),
        ),
        (Step::Dispatch { .. }, EventView::Returned(Ok(_))) => Some(Verdict::Advance(0)),
        (Step::Dispatch { .. }, EventView::Returned(Err(error))) => Some(Verdict::Fail(error)),
        (Step::Dispatch { not_sent, .. }, EventView::NotSent(message)) => Some(
            Verdict::Fail(not_sent.error_view(message)),
        ),
        (Step::Dispatch { no_reply, .. }, EventView::NoReply(message)) => Some(
            Verdict::Fail(no_reply.error_view(message)),
        ),
        _ => None,
    }
}

/// The state of a run: the steps, how many of them are behind it, and the
/// error it ended with, if it did.
pub struct RunView {
    pub steps: Seq<Step>,
    pub position: nat,
    pub failure: Option<CommandErrorView>,
}

impl RunView {
    /// A run that has not taken any step.
    pub open spec fn start(steps: Seq<Step>) -> RunView {
        RunView { steps, position: 0, failure: None }
    }

    /// The position is a place in the list of steps, or its end.
    pub open spec fn well_formed(self) -> bool {
        self.position <= self.steps.len()
    }

    /// The run has failed or has no step left.
    pub open spec fn finished(self) -> bool {
        self.failure is Some || self.position >= self.steps.len()
    }

    /// How many steps the run may still take.
    pub open spec fn remaining(self) -> nat {
        if self.finished() {
            0
        } else {
            (self.steps.len() - self.position) as nat
        }
    }

    /// What is to be done next.
    pub open spec fn action(self) -> ActionView {
        if let Some(error) = self.failure {
            ActionView::Finish(Err(error))
        } else if self.position >= self.steps.len() {
            ActionView::Finish(Ok(()))
        } else {
            match self.steps[self.position as int] {
                Step::Lookup { role, .. } => ActionView::Lookup(role),
                Step::Invoke { call, .. } => ActionView::Invoke(call),
                Step::Dispatch { role, job, .. } => ActionView::Dispatch(role, job),
            }
        }
    }

    /// Where `event` leads from here; `None` when the run has ended or the
    /// event does not answer the step it is at.
    pub open spec fn response(self, event: EventView) -> Option<Verdict> {
        if self.finished() {
            None
        } else {
            verdict(self.steps[self.position as int], event)
        }
    }

    /// The run after `event`. An event that is no answer leaves it as it is.
    pub open spec fn after(self, event: EventView) -> RunView {
        match self.response(event) {
            None => self,
            Some(Verdict::Advance(count)) => RunView {
                position: if self.position + 1 + count <= self.steps.len() {
                    self.position + 1 + count
                } else {
                    self.steps.len()
                },
                ..self
            },
            Some(Verdict::Fail(error)) => RunView { failure: Some(error), ..self },
        }
    }
}

/// An answer never moves a run outside its list of steps.
pub proof fn lemma_after_is_well_formed(run: RunView, event: EventView)
    requires
        run.well_formed(),
    ensures
        run.after(event).well_formed(),
{
}

/// Every answer uses up at least one of the steps that remain.
pub proof fn lemma_answer_uses_up_a_step(run: RunView, event: EventView)
    requires
        run.well_formed(),
        run.response(event) is Some,
    ensures
        run.after(event).remaining() < run.remaining(),
{
}

/// An answer that fails ends the run at once, with that very error.
pub proof fn lemma_failure_ends_the_run(run: RunView, event: EventView, error: CommandErrorView)
    requires
        run.response(event) == Some(Verdict::Fail(error)),
    ensures
        run.after(event).finished(),
        run.after(event).action() == ActionView::Finish(Err(error)),
{
}

/// A run that has ended stays as it is, whatever it is told: the first
/// failure is the one reported.
pub proof fn lemma_finished_run_stays(run: RunView, event: EventView)
    requires
        run.finished(),
    ensures
        run.after(event) == run,
        run.action() is Finish,
{
}

/// A run ends well exactly when it has passed its last step without failure.
pub proof fn lemma_success_is_reaching_the_end(run: RunView)
    requires
        run.well_formed(),
    ensures
        run.action() == ActionView::Finish(Ok(())) <==> run.failure is None && run.position
            == run.steps.len(),
{
}

/// Where every skip stays inside the steps, an answer that leads on passes
/// over exactly as many steps as its branch says.
pub proof fn lemma_skip_is_exact(run: RunView, event: EventView, count: nat)
    requires
        run.well_formed(),
        skips_stay_inside(run.steps),
        run.response(event) == Some(Verdict::Advance(count)),
    ensures
        run.after(event) == (RunView { position: run.position + 1 + count, ..run }),
{
}

/// Making sure of a window that exists takes one lookup and passes over the
/// steps that would create it; if the window is missing, the next thing done
/// is to create it with the options of its role.
pub proof fn lemma_ensure_creates_only_if_missing(
    front: Seq<Step>,
    role: WindowRole,
    create: Failure,
    job: Option<LayerJob>,
    not_sent: Failure,
    no_reply: Failure,
    back: Seq<Step>,
)
    ensures
        ({
            let ensure = ensure_steps(role, create, job, not_sent, no_reply);
            let run = RunView {
                steps: front + ensure + back,
                position: front.len(),
                failure: None,
            };
            &&& run.action() == ActionView::Lookup(role)
            &&& run.after(EventView::Found) == (RunView {
                position: front.len() + ensure.len(),
                ..run
            })
            &&& run.after(EventView::Missing).action() == ActionView::Invoke(
                WindowCall::Build(WindowOptions::spec_for_role(role)),
            )
        }),
{
    let ensure = ensure_steps(role, create, job, not_sent, no_reply);
    let steps = front + ensure + back;
    assert(steps[front.len() as int] == ensure[0]);
    assert(steps[front.len() as int + 1] == ensure[1]);
}

/// The run after each of `events` in turn.
pub open spec fn replay(run: RunView, events: Seq<EventView>) -> RunView
    decreases events.len(),
{
    if events.len() == 0 {
        run
    } else {
        replay(run.after(events[0]), events.subrange(1, events.len() as int))
    }
}

/// Each of `events` in turn is an answer to the action then pending.
pub open spec fn all_answer(run: RunView, events: Seq<EventView>) -> bool
    decreases events.len(),
{
    events.len() > 0 ==> run.response(events[0]) is Some && all_answer(
        run.after(events[0]),
        events.subrange(1, events.len() as int),
    )
}

/// A run takes no more answers than it has steps left.
pub proof fn lemma_run_is_bounded(run: RunView, events: Seq<EventView>)
    requires
        run.well_formed(),
        all_answer(run, events),
    ensures
        events.len() + replay(run, events).remaining() <= run.remaining(),
        replay(run, events).well_formed(),
    decreases events.len(),
{
    if events.len() > 0 {
        lemma_answer_uses_up_a_step(run, events[0]);
        lemma_run_is_bounded(run.after(events[0]), events.subrange(1, events.len() as int));
    }
}

/// The windows in hand once `event` has answered `step`: those in hand
/// before, and the window that was found or created.
pub open spec fn held_after(step: Step, event: EventView, held: Held) -> Held {
    match (step, event) {
        (Step::Lookup { role, .. }, EventView::Found) => held.with(role),
        (Step::Invoke { call: WindowCall::Build(options), .. }, EventView::Done) => held.with(
            options.role,
        ),
        _ => held,
    }
}

/// The windows in hand after each of `events` in turn.
pub open spec fn held_through(run: RunView, held: Held, events: Seq<EventView>) -> Held
    decreases events.len(),
{
    if events.len() == 0 || run.finished() {
        held
    } else {
        held_through(
            run.after(events[0]),
            held_after(run.steps[run.position as int], events[0], held),
            events.subrange(1, events.len() as int),
        )
    }
}

/// Where the steps ahead act only on windows in hand, the action that is
/// pending does: a call other than creation, and a job, find their window
/// there.
pub proof fn lemma_pending_window_is_in_hand(run: RunView, held: Held)
    requires
        windows_in_hand(run.steps, run.position as int, held),
    ensures
        match run.action() {
            ActionView::Invoke(call) => call is Build || held.holds(call.spec_role()),
            ActionView::Dispatch(role, _) => held.holds(role),
            _ => true,
        },
{
}

/// An answer leaves the steps ahead acting only on windows in hand.
pub proof fn lemma_windows_stay_in_hand(run: RunView, held: Held, event: EventView)
    requires
        run.well_formed(),
        windows_in_hand(run.steps, run.position as int, held),
        run.response(event) is Some,
    ensures
        run.after(event).finished() || windows_in_hand(
            run.steps,
            run.after(event).position as int,
            held_after(run.steps[run.position as int], event, held),
        ),
{
}

/// However a run goes, it never comes to act on a window that it has not
/// found or created before.
pub proof fn lemma_windows_in_hand_throughout(run: RunView, held: Held, events: Seq<EventView>)
    requires
        run.well_formed(),
        windows_in_hand(run.steps, run.position as int, held),
        all_answer(run, events),
    ensures
        replay(run, events).finished() || windows_in_hand(
            run.steps,
            replay(run, events).position as int,
            held_through(run, held, events),
        ),
        replay(run, events).steps == run.steps,
    decreases events.len(),
{
    if events.len() > 0 {
        let next = run.after(events[0]);
        let rest = events.subrange(1, events.len() as int);
        lemma_windows_stay_in_hand(run, held, events[0]);
        if next.finished() {
            lemma_replay_of_finished_run(next, rest);
        } else {
            lemma_windows_in_hand_throughout(
                next,
                held_after(run.steps[run.position as int], events[0], held),
                rest,
            );
        }
    }
}

/// A run that has ended is the same after any events.
pub proof fn lemma_replay_of_finished_run(run: RunView, events: Seq<EventView>)
    requires
        run.finished(),
    ensures
        replay(run, events) == run,
    decreases events.len(),
{
    if events.len() > 0 {
        lemma_replay_of_finished_run(run, events.subrange(1, events.len() as int));
    }
}

/// A command under way.
pub struct Run {
    steps: Vec<Step>,
    position: usize,
    failure: Option<CommandError>,
}

impl View for Run {
    type V = RunView;

    closed spec fn view(&self) -> RunView {
        RunView {
            steps: self.steps@,
            position: self.position as nat,
            failure: match self.failure {
                Some(error) => Some(error@),
                None => None,
            },
        }
    }
}

impl Run {
    #[verifier::type_invariant]
    spec fn position_in_range(self) -> bool {
        self.position <= self.steps.len()
    }

    /// A run of `steps`, about to take the first.
    pub fn new(steps: Vec<Step>) -> (run: Run)
        ensures
            run@ == RunView::start(steps@),
    {
        Run { steps, position: 0, failure: None }
    }

    /// Whether the run has ended.
    pub fn is_finished(&self) -> (finished: bool)
        ensures
            finished == self@.finished(),
            self@.well_formed(),
    {
        proof {
            use_type_invariant(self);
        }
        self.failure.is_some() || self.position >= self.steps.len()
    }

    /// What is to be done next.
    pub fn action(&self) -> (action: Action)
        ensures
            action@ == self@.action(),
            self@.well_formed(),
    {
        proof {
            use_type_invariant(self);
        }
        match &self.failure {
            Some(error) => Action::Finish(Err(error.clone())),
            None => {
                if self.position >= self.steps.len() {
                    Action::Finish(Ok(()))
                } else {
                    match self.steps[self.position] {
                        Step::Lookup { role, .. } => Action::Lookup(role),
                        Step::Invoke { call, .. } => Action::Invoke(call),
                        Step::Dispatch { role, job, .. } => Action::Dispatch(role, job),
                    }
                }
            },
        }
    }

    fn follow(&mut self, branch: Branch)
        requires
            !old(self)@.finished(),
        ensures
            final(self)@ == (match branch_verdict(branch) {
                Verdict::Advance(count) => RunView {
                    position: if old(self)@.position + 1 + count <= old(self)@.steps.len() {
                        old(self)@.position + 1 + count
                    } else {
                        old(self)@.steps.len()
                    },
                    ..old(self)@
                },
                Verdict::Fail(error) => RunView { failure: Some(error), ..old(self)@ },
            }),
    {
        proof {
            use_type_invariant(&*self);
        }
        match branch {
            Branch::Next => {
                self.position = self.position + 1;
            },
            Branch::Skip(count) => {
                let rest: usize = self.steps.len() - self.position - 1;
                if count >= rest {
                    self.position = self.steps.len();
                } else {
                    self.position = self.position + 1 + count;
                }
            },
            Branch::Fail(failure) => {
                self.failure = Some(failure.error(missing_window_message()));
            },
        }
    }

    /// Takes `event` as the answer to the pending action and moves on.
    ///
    /// Returns whether the event was an answer to that action. If it was not,
    /// or the run had ended, the run stays as it was.
    pub fn advance(&mut self, event: Event) -> (accepted: bool)
        ensures
            accepted == old(self)@.response(event@) is Some,
            final(self)@ == old(self)@.after(event@),
            final(self)@.well_formed(),
    {
        proof {
            use_type_invariant(&*self);
        }
        if self.failure.is_some() || self.position >= self.steps.len() {
            return false;
        }
        let step = self.steps[self.position];
        match (step, event) {
            (Step::Lookup { found, .. }, Event::Found) => {
                self.follow(found);
                true
            },
            (Step::Lookup { missing, .. }, Event::Missing) => {
                self.follow(missing);
                true
            },
            (Step::Invoke { .. }, Event::Done) => {
                self.follow(Branch::Next);
                true
            },
            (Step::Invoke { failure, .. }, Event::Failed(message)) => {
                self.failure = Some(failure.error(message));
                true
            },
            (Step::Dispatch { .. }, Event::Returned(Ok(_))) => {
                self.follow(Branch::Next);
                true
            },
            (Step::Dispatch { .. }, Event::Returned(Err(error))) => {
                self.failure = Some(error);
                true
            },
            (Step::Dispatch { not_sent, .. }, Event::NotSent(message)) => {
                self.failure = Some(not_sent.error(message));
                true
            },
            (Step::Dispatch { no_reply, .. }, Event::NoReply(message)) => {
                self.failure = Some(no_reply.error(message));
                true
            },
            _ => false,
        }
    }
}

} // verus!
