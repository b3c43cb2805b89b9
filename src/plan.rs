use vstd::prelude::*;

use crate::platform::text;

verus! {

/// One side effect that the embedding application performs on behalf of the
/// library.
pub enum Task {
    /// Fetch `url` and store the bytes at `dest`. When this cannot be done,
    /// the application's report is the whole error text: it names the stage
    /// (request, reading, writing) that failed.
    Download { url: String, dest: String },
    /// Run `program` with `args` and wait for its exit status.
    Run { program: String, args: Vec<String> },
    /// Start `program` with `args` detached; spawning is success.
    Spawn { program: String, args: Vec<String> },
    /// Write `contents` to the file at `path`.
    WriteFile { path: String, contents: String },
    /// Give the owner execute permission on `path` (mode 0o755).
    MakeExecutable { path: String },
    /// Delete the file at `path`; an absent file counts as success.
    RemoveFile { path: String },
    /// Keep the machine awake during `schedule`. Where the platform offers
    /// no way to do so, the application records the request where an
    /// operator sees it and reports success.
    KeepAwake { schedule: String },
}

/// Mathematical view of a [`Task`].
pub ghost enum TaskView {
    Download { url: Seq<char>, dest: Seq<char> },
    Run { program: Seq<char>, args: Seq<Seq<char>> },
    Spawn { program: Seq<char>, args: Seq<Seq<char>> },
    WriteFile { path: Seq<char>, contents: Seq<char> },
    MakeExecutable { path: Seq<char> },
    RemoveFile { path: Seq<char> },
    KeepAwake { schedule: Seq<char> },
}

pub open spec fn texts_view(v: Seq<String>) -> Seq<Seq<char>> {
    v.map_values(|s: String| s@)
}

impl View for Task {
    type V = TaskView;

    open spec fn view(&self) -> TaskView {
        match self {
            Task::Download { url, dest } => TaskView::Download { url: url@, dest: dest@ },
            Task::Run { program, args } => TaskView::Run {
                program: program@,
                args: texts_view(args@),
            },
            Task::Spawn { program, args } => TaskView::Spawn {
                program: program@,
                args: texts_view(args@),
            },
            Task::WriteFile { path, contents } => TaskView::WriteFile {
                path: path@,
                contents: contents@,
            },
            Task::MakeExecutable { path } => TaskView::MakeExecutable { path: path@ },
            Task::RemoveFile { path } => TaskView::RemoveFile { path: path@ },
            Task::KeepAwake { schedule } => TaskView::KeepAwake { schedule: schedule@ },
        }
    }
}

/// A task together with the policy that applies when it does not succeed.
pub struct Step {
    pub task: Task,
    /// A failed fatal step aborts the plan; any other failure is recorded and
    /// the plan goes on.
    pub fatal: bool,
    /// Error text when the task ran and reported non-success.
    pub unsuccessful: String,
    /// Prefix of the error text when the task could not be carried out; the
    /// cause reported by the application follows it.
    pub unavailable: String,
}

pub ghost struct StepView {
    pub task: TaskView,
    pub fatal: bool,
    pub unsuccessful: Seq<char>,
    pub unavailable: Seq<char>,
}

impl View for Step {
    type V = StepView;

    open spec fn view(&self) -> StepView {
        StepView {
            task: self.task@,
            fatal: self.fatal,
            unsuccessful: self.unsuccessful@,
            unavailable: self.unavailable@,
        }
    }
}

pub open spec fn steps_view(v: Seq<Step>) -> Seq<StepView> {
    v.map_values(|s: Step| s@)
}

/// What the application observed when it carried out a task.
pub enum Outcome {
    Succeeded,
    /// The task ran and reported failure (non-zero exit status).
    Unsuccessful,
    /// The task could not be carried out; the text says why.
    Unavailable(String),
}

pub ghost enum OutcomeView {
    Succeeded,
    Unsuccessful,
    Unavailable(Seq<char>),
}

impl View for Outcome {
    type V = OutcomeView;

    open spec fn view(&self) -> OutcomeView {
        match self {
            Outcome::Succeeded => OutcomeView::Succeeded,
            Outcome::Unsuccessful => OutcomeView::Unsuccessful,
            Outcome::Unavailable(e) => OutcomeView::Unavailable(e@),
        }
    }
}

/// The error text for a step that did not succeed, `None` when it did.
pub open spec fn failure_text(s: StepView, o: OutcomeView) -> Option<Seq<char>> {
    match o {
        OutcomeView::Succeeded => None,
        OutcomeView::Unsuccessful => Some(s.unsuccessful),
        OutcomeView::Unavailable(e) => Some(s.unavailable + e),
    }
}

/// Error text for `step` given what happened when it was carried out, or
/// `None` when it succeeded.
pub fn step_failure(step: &Step, outcome: &Outcome) -> (r: Option<String>)
    ensures
        r matches Some(e) ==> failure_text(step@, outcome@) == Some(e@),
        r is None <==> failure_text(step@, outcome@) is None,
{
    match outcome {
        Outcome::Succeeded => None,
        Outcome::Unsuccessful => Some(step.unsuccessful.clone()),
        Outcome::Unavailable(e) => {
            let mut t = step.unavailable.clone();
            t.append(e.as_str());
            Some(t)
        },
    }
}

pub open spec fn run_view(program: Seq<char>, args: Seq<Seq<char>>, fatal: bool, unsuccessful: Seq<char>, unavailable: Seq<char>) -> StepView {
    StepView { task: TaskView::Run { program, args }, fatal, unsuccessful, unavailable }
}

pub fn run_step(program: &str, args: Vec<String>, fatal: bool, unsuccessful: &str, unavailable: &str) -> (r: Step)
    ensures
        r@ == run_view(program@, texts_view(args@), fatal, unsuccessful@, unavailable@),
{
    Step {
        task: Task::Run { program: text(program), args },
        fatal,
        unsuccessful: text(unsuccessful),
        unavailable: text(unavailable),
    }
}

pub open spec fn write_view(path: Seq<char>, contents: Seq<char>, unsuccessful: Seq<char>, unavailable: Seq<char>) -> StepView {
    StepView { task: TaskView::WriteFile { path, contents }, fatal: true, unsuccessful, unavailable }
}

pub fn write_step(path: &str, contents: String, unsuccessful: &str, unavailable: &str) -> (r: Step)
    ensures
        r@ == write_view(path@, contents@, unsuccessful@, unavailable@),
{
    Step {
        task: Task::WriteFile { path: text(path), contents },
        fatal: true,
        unsuccessful: text(unsuccessful),
        unavailable: text(unavailable),
    }
}

/// Best-effort removal of the file at `path`.
pub open spec fn remove_view(path: Seq<char>) -> StepView {
    StepView {
        task: TaskView::RemoveFile { path },
        fatal: false,
        unsuccessful: "Failed to remove file"@,
        unavailable: "Failed to remove file: "@,
    }
}

pub fn remove_step(path: &str) -> (r: Step)
    ensures
        r@ == remove_view(path@),
{
    Step {
        task: Task::RemoveFile { path: text(path) },
        fatal: false,
        unsuccessful: text("Failed to remove file"),
        unavailable: text("Failed to remove file: "),
    }
}

/// A plan being carried out: its steps, the index of the next one, the error
/// that stopped it, if any, and the errors of best-effort steps that were let
/// pass.
pub struct PlanRun {
    pub steps: Vec<Step>,
    pub next: usize,
    pub failure: Option<String>,
    pub ignored: Vec<String>,
}

pub ghost struct PlanState {
    pub steps: Seq<StepView>,
    pub next: nat,
    pub failure: Option<Seq<char>>,
    pub ignored: Seq<Seq<char>>,
}

impl View for PlanRun {
    type V = PlanState;

    open spec fn view(&self) -> PlanState {
        PlanState {
            steps: steps_view(self.steps@),
            next: self.next as nat,
            failure: match self.failure {
                Some(e) => Some(e@),
                None => None,
            },
            ignored: texts_view(self.ignored@),
        }
    }
}

impl PlanState {
    pub open spec fn wf(self) -> bool {
        self.next <= self.steps.len()
    }

    /// A step is still to be carried out.
    pub open spec fn running(self) -> bool {
        self.failure is None && self.next < self.steps.len()
    }

    /// Every step was carried out and none of the fatal ones failed.
    pub open spec fn completed(self) -> bool {
        self.failure is None && self.next == self.steps.len()
    }

    /// The state after the current step was carried out with outcome `o`.
    pub open spec fn advance(self, o: OutcomeView) -> PlanState {
        let st = self.steps[self.next as int];
        match failure_text(st, o) {
            None => PlanState { next: self.next + 1, ..self },
            Some(e) => if st.fatal {
                PlanState { failure: Some(e), ..self }
            } else {
                PlanState { next: self.next + 1, ignored: self.ignored.push(e), ..self }
            },
        }
    }
}

/// The state after the outcomes `outs` were reported one by one, stopping
/// where the run stops.
pub open spec fn run_all(s: PlanState, outs: Seq<OutcomeView>) -> PlanState
    decreases outs.len(),
{
    if outs.len() == 0 || !s.running() {
        s
    } else {
        run_all(s.advance(outs[0]), outs.drop_first())
    }
}

impl PlanRun {
    /// A run of `steps` that has not started.
    pub fn new(steps: Vec<Step>) -> (r: PlanRun)
        ensures
            r@ == (PlanState {
                steps: steps_view(steps@),
                next: 0,
                failure: None,
                ignored: Seq::empty(),
            }),
    {
        let r = PlanRun { steps, next: 0, failure: None, ignored: Vec::new() };
        assert(texts_view(r.ignored@) =~= Seq::empty());
        r
    }

    /// Whether a step is still to be carried out.
    pub fn is_running(&self) -> (r: bool)
        ensures
            r == self@.running(),
    {
        self.failure.is_none() && self.next < self.steps.len()
    }

    /// Records the outcome of the current step and moves on.
    pub fn report(&mut self, outcome: Outcome)
        requires
            old(self)@.wf(),
            old(self)@.running(),
        ensures
            final(self)@ == old(self)@.advance(outcome@),
            final(self)@.wf(),
    {
        let i = self.next;
        assert(i < self.steps.len());
        let f = step_failure(&self.steps[i], &outcome);
        match f {
            None => {
                self.next = i + 1;
            },
            Some(e) => {
                if self.steps[i].fatal {
                    self.failure = Some(e);
                } else {
                    self.ignored.push(e);
                    self.next = i + 1;
                    assert(texts_view(self.ignored@) =~= texts_view(old(self).ignored@).push(e@));
                }
            },
        }
    }
}

} // verus!
