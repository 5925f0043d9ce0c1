//! The materializer: turns a plan into files under a fresh project root.
//!
//! The file-system work is done by the caller. The materializer is a state
//! machine: each call to `step` hands it the outcome of the last action and
//! returns the next action to perform, until it returns `Action::Finish`.
use vstd::prelude::*;
use crate::path_safety::{PathIssue, is_valid_project_name, validate_project_name};
use crate::plan::{FileUnit, PlanModel, plan_view, is_valid_plan, first_issue, validate_plan, lemma_no_issue_iff_valid};
use crate::registry::{Registry, UnknownTemplateError, is_registered, first_match_at};
use crate::templates::plan_of;

verus! {

/// `base` joined with the relative path `rel` by one separator; an empty base
/// leaves `rel` as it is.
pub open spec fn join_spec(base: Seq<char>, rel: Seq<char>) -> Seq<char> {
    if base.len() == 0 {
        rel
    } else if base.last() == '/' {
        base + rel
    } else {
        base + seq!['/'] + rel
    }
}

/// Joins `base` and the relative path `rel`.
pub fn join_path(base: &str, rel: &str) -> (r: String)
    ensures
        r@ == join_spec(base@, rel@),
{
    let n = base.unicode_len();
    if n == 0 {
        rel.to_owned()
    } else if base.get_char(n - 1) == '/' {
        base.to_owned().concat(rel)
    } else {
        proof {
            reveal_strlit("/");
        }
        base.to_owned().concat("/").concat(rel)
    }
}

/// The removal of a partly written project root failed as well.
#[derive(Debug)]
pub struct RollbackFailure {
    pub root: String,
    pub cause: String,
}

/// Why a project was not generated.
#[derive(Debug)]
pub enum GenerationError {
    /// The template id names no registered template.
    UnknownTemplate(UnknownTemplateError),
    /// The project name is not a single path segment.
    InvalidProjectName { name: String },
    /// The project root exists already, or appeared while it was being created.
    Collision { root: String },
    /// A unit of the plan has an unsafe or repeated path.
    InvalidPath { unit: String, reason: PathIssue },
    /// Creating the root or writing a file failed. When the root had been
    /// created it was removed again; `rollback` tells when that failed too.
    Io { path: String, cause: String, rollback: Option<RollbackFailure> },
}

/// Where the materializer stands.
#[derive(Debug)]
pub enum Phase {
    /// Nothing done yet.
    Idle,
    /// Waiting to learn whether the root exists.
    Probing,
    /// The plan is valid; waiting for the root to be created.
    Creating,
    /// Waiting for the write of unit `next`.
    Writing { next: usize },
    /// The write of unit `unit` failed with `cause`; waiting for the root's removal.
    RollingBack { unit: usize, cause: String },
    /// The result was handed out.
    Done,
}

/// What happened to the last action.
#[derive(Debug)]
pub enum Event {
    /// Begin the generation.
    Start,
    /// Whether the project root exists.
    Probed { exists: bool },
    /// The project root was created.
    Created,
    /// Creating the project root failed; `already_exists` when because it exists.
    CreateFailed { already_exists: bool, cause: String },
    /// The file of the current unit was written.
    Written,
    /// Writing the file of the current unit failed.
    WriteFailed { cause: String },
    /// The project root was removed.
    Removed,
    /// Removing the project root failed.
    RemoveFailed { cause: String },
}

/// What the caller is to do next.
#[derive(Debug)]
pub enum Action {
    /// Find out whether `path` exists, touching nothing.
    CheckRoot { path: String },
    /// Create the directory `path`, failing if it exists.
    CreateRoot { path: String },
    /// Create the parent directories of `path` as needed, then write `content` to it.
    WriteFile { path: String, content: String },
    /// Remove the directory `path` with everything in it.
    RemoveRoot { path: String },
    /// Stop: this is the result.
    Finish(Result<usize, GenerationError>),
}

/// The events that a materializer in `phase` waits for.
pub open spec fn accepts_spec(phase: Phase, e: Event) -> bool {
    match phase {
        Phase::Idle => e is Start,
        Phase::Probing => e is Probed,
        Phase::Creating => e is Created || e is CreateFailed,
        Phase::Writing { .. } => e is Written || e is WriteFailed,
        Phase::RollingBack { .. } => e is Removed || e is RemoveFailed,
        Phase::Done => false,
    }
}

/// The next phase and action of a materializer with project root `root`, plan
/// `units` and target paths `targets`, in `phase`, on the accepted event `e`.
pub open spec fn transition(
    root: String,
    units: Seq<FileUnit>,
    targets: Seq<String>,
    phase: Phase,
    e: Event,
) -> (Phase, Action) {
    match (phase, e) {
        (Phase::Idle, Event::Start) => (Phase::Probing, Action::CheckRoot { path: root }),
        (Phase::Probing, Event::Probed { exists }) => {
            if exists {
                (Phase::Done, Action::Finish(Err(GenerationError::Collision { root })))
            } else {
                match first_issue(plan_view(units)) {
                    Some((k, reason)) => (
                        Phase::Done,
                        Action::Finish(
                            Err(GenerationError::InvalidPath { unit: units[k].path, reason }),
                        ),
                    ),
                    None => (Phase::Creating, Action::CreateRoot { path: root }),
                }
            }
        },
        (Phase::Creating, Event::Created) => {
            if units.len() == 0 {
                (Phase::Done, Action::Finish(Ok(0)))
            } else {
                (
                    Phase::Writing { next: 0 },
                    Action::WriteFile { path: targets[0], content: units[0].content },
                )
            }
        },
        (Phase::Creating, Event::CreateFailed { already_exists, cause }) => {
            if already_exists {
                (Phase::Done, Action::Finish(Err(GenerationError::Collision { root })))
            } else {
                (
                    Phase::Done,
                    Action::Finish(
                        Err(GenerationError::Io { path: root, cause, rollback: None }),
                    ),
                )
            }
        },
        (Phase::Writing { next }, Event::Written) => {
            if next + 1 >= units.len() {
                (Phase::Done, Action::Finish(Ok(units.len() as usize)))
            } else {
                (
                    Phase::Writing { next: (next + 1) as usize },
                    Action::WriteFile {
                        path: targets[next + 1],
                        content: units[next + 1].content,
                    },
                )
            }
        },
        (Phase::Writing { next }, Event::WriteFailed { cause }) => (
            Phase::RollingBack { unit: next, cause },
            Action::RemoveRoot { path: root },
        ),
        (Phase::RollingBack { unit, cause }, Event::Removed) => (
            Phase::Done,
            Action::Finish(Err(GenerationError::Io { path: targets[unit as int], cause, rollback: None })),
        ),
        (Phase::RollingBack { unit, cause }, Event::RemoveFailed { cause: removal_cause }) => (
            Phase::Done,
            Action::Finish(
                Err(
                    GenerationError::Io {
                        path: targets[unit as int],
                        cause,
                        rollback: Some(RollbackFailure { root, cause: removal_cause }),
                    },
                ),
            ),
        ),
        // Not reached: `step` takes only accepted events, and `run` stops at the first other one.
        (phase, _) => (phase, Action::Finish(Ok(0))),
    }
}

/// Drives a plan onto disk through the caller, one action at a time.
pub struct Materializer {
    root: String,
    units: Vec<FileUnit>,
    targets: Vec<String>,
    phase: Phase,
}

impl Materializer {
    /// The directory the project is written into.
    pub closed spec fn root_spec(&self) -> String {
        self.root
    }

    /// The plan being written.
    pub closed spec fn units_spec(&self) -> Seq<FileUnit> {
        self.units@
    }

    /// The full path of each unit of the plan.
    pub closed spec fn targets_spec(&self) -> Seq<String> {
        self.targets@
    }

    pub closed spec fn phase_spec(&self) -> Phase {
        self.phase
    }

    #[verifier::type_invariant]
    closed spec fn inv(&self) -> bool {
        &&& self.targets@.len() == self.units@.len()
        &&& forall|k: int|
            0 <= k < self.units@.len() ==> #[trigger] self.targets@[k]@ == join_spec(
                self.root@,
                self.units@[k].path@,
            )
        &&& match self.phase {
            Phase::Creating => is_valid_plan(plan_view(self.units@)),
            Phase::Writing { next } => next < self.units@.len() && is_valid_plan(
                plan_view(self.units@),
            ),
            Phase::RollingBack { unit, .. } => unit < self.units@.len() && is_valid_plan(
                plan_view(self.units@),
            ),
            _ => true,
        }
    }

    /// A materializer for `plan` into `output_root/project_name`, in phase `Idle`.
    /// The project name must be one path segment.
    pub fn new(output_root: &str, project_name: &str, plan: Vec<FileUnit>) -> (r: Result<
        Materializer,
        GenerationError,
    >)
        ensures
            r is Ok <==> is_valid_project_name(project_name@),
            r matches Err(e) ==> e matches GenerationError::InvalidProjectName { name } && name@
                == project_name@,
            r matches Ok(m) ==> {
                &&& m.root_spec()@ == join_spec(output_root@, project_name@)
                &&& m.units_spec() == plan@
                &&& m.phase_spec() is Idle
                &&& m.targets_spec().len() == plan@.len()
                &&& forall|k: int|
                    0 <= k < plan@.len() ==> #[trigger] m.targets_spec()[k]@ == join_spec(
                        join_spec(output_root@, project_name@),
                        plan@[k].path@,
                    )
            },
    {
        if !validate_project_name(project_name) {
            return Err(GenerationError::InvalidProjectName { name: project_name.to_owned() });
        }
        let root = join_path(output_root, project_name);
        let mut targets: Vec<String> = Vec::new();
        let mut k: usize = 0;
        while k < plan.len()
            invariant
                k <= plan@.len(),
                targets@.len() == k,
                forall|j: int|
                    0 <= j < k ==> #[trigger] targets@[j]@ == join_spec(root@, plan@[j].path@),
            decreases plan@.len() - k,
        {
            targets.push(join_path(root.as_str(), plan[k].path.as_str()));
            k = k + 1;
        }
        Ok(Materializer { root, units: plan, targets, phase: Phase::Idle })
    }

    /// Whether the materializer waits for `e` now.
    pub fn accepts(&self, e: &Event) -> (r: bool)
        ensures
            r == accepts_spec(self.phase_spec(), *e),
    {
        match (&self.phase, e) {
            (Phase::Idle, Event::Start) => true,
            (Phase::Probing, Event::Probed { .. }) => true,
            (Phase::Creating, Event::Created) => true,
            (Phase::Creating, Event::CreateFailed { .. }) => true,
            (Phase::Writing { .. }, Event::Written) => true,
            (Phase::Writing { .. }, Event::WriteFailed { .. }) => true,
            (Phase::RollingBack { .. }, Event::Removed) => true,
            (Phase::RollingBack { .. }, Event::RemoveFailed { .. }) => true,
            _ => false,
        }
    }

    /// Whether the result was handed out.
    pub fn is_done(&self) -> (r: bool)
        ensures
            r == self.phase_spec() is Done,
    {
        match self.phase {
            Phase::Done => true,
            _ => false,
        }
    }

    /// Takes the outcome of the last action and returns the next action.
    pub fn step(&mut self, e: Event) -> (a: Action)
        requires
            accepts_spec(old(self).phase_spec(), e),
        ensures
            final(self).root_spec() == old(self).root_spec(),
            final(self).units_spec() == old(self).units_spec(),
            final(self).targets_spec() == old(self).targets_spec(),
            (final(self).phase_spec(), a) == transition(
                old(self).root_spec(),
                old(self).units_spec(),
                old(self).targets_spec(),
                old(self).phase_spec(),
                e,
            ),
    {
        proof {
            use_type_invariant(&*self);
        }
        let mut phase = Phase::Done;
        core::mem::swap(&mut self.phase, &mut phase);
        match (phase, e) {
            (Phase::Idle, Event::Start) => {
                self.phase = Phase::Probing;
                Action::CheckRoot { path: self.root.clone() }
            },
            (Phase::Probing, Event::Probed { exists }) => {
                if exists {
                    Action::Finish(Err(GenerationError::Collision { root: self.root.clone() }))
                } else {
                    match validate_plan(&self.units) {
                        Err((k, reason)) => Action::Finish(
                            Err(
                                GenerationError::InvalidPath {
                                    unit: self.units[k].path.clone(),
                                    reason,
                                },
                            ),
                        ),
                        Ok(_) => {
                            proof {
                                lemma_no_issue_iff_valid(plan_view(self.units@));
                                reveal(first_issue);
                            }
                            self.phase = Phase::Creating;
                            Action::CreateRoot { path: self.root.clone() }
                        },
                    }
                }
            },
            (Phase::Creating, Event::Created) => {
                if self.units.len() == 0 {
                    Action::Finish(Ok(0))
                } else {
                    self.phase = Phase::Writing { next: 0 };
                    Action::WriteFile {
                        path: self.targets[0].clone(),
                        content: self.units[0].content.clone(),
                    }
                }
            },
            (Phase::Creating, Event::CreateFailed { already_exists, cause }) => {
                if already_exists {
                    Action::Finish(Err(GenerationError::Collision { root: self.root.clone() }))
                } else {
                    Action::Finish(
                        Err(GenerationError::Io { path: self.root.clone(), cause, rollback: None }),
                    )
                }
            },
            (Phase::Writing { next }, Event::Written) => {
                let n = self.units.len();
                if next + 1 >= n {
                    Action::Finish(Ok(self.units.len()))
                } else {
                    self.phase = Phase::Writing { next: next + 1 };
                    Action::WriteFile {
                        path: self.targets[next + 1].clone(),
                        content: self.units[next + 1].content.clone(),
                    }
                }
            },
            (Phase::Writing { next }, Event::WriteFailed { cause }) => {
                self.phase = Phase::RollingBack { unit: next, cause };
                Action::RemoveRoot { path: self.root.clone() }
            },
            (Phase::RollingBack { unit, cause }, Event::Removed) => {
                Action::Finish(
                    Err(
                        GenerationError::Io {
                            path: self.targets[unit].clone(),
                            cause,
                            rollback: None,
                        },
                    ),
                )
            },
            (Phase::RollingBack { unit, cause }, Event::RemoveFailed { cause: removal_cause }) => {
                Action::Finish(
                    Err(
                        GenerationError::Io {
                            path: self.targets[unit].clone(),
                            cause,
                            rollback: Some(
                                RollbackFailure { root: self.root.clone(), cause: removal_cause },
                            ),
                        },
                    ),
                )
            },
            (phase, _) => {
                self.phase = phase;
                Action::Finish(Ok(0))
            },
        }
    }
}

/// Resolves `template` in `registry` and prepares a materializer for its plan
/// into `output_dir/name`. Nothing is touched on disk: the caller then drives
/// the returned materializer.
pub fn generate_project(registry: &Registry, name: &str, template: &str, output_dir: &str) -> (r:
    Result<Materializer, GenerationError>)
    ensures
        match r {
            Err(GenerationError::UnknownTemplate(e)) => {
                &&& !is_registered(registry@, template@)
                &&& e.requested@ == template@
                &&& e.known@.map_values(|s: String| s@) == crate::registry::display_names(registry@)
            },
            Err(GenerationError::InvalidProjectName { name: n }) => {
                &&& is_registered(registry@, template@)
                &&& !is_valid_project_name(name@)
                &&& n@ == name@
            },
            Ok(m) => {
                &&& is_registered(registry@, template@)
                &&& is_valid_project_name(name@)
                &&& m.phase_spec() is Idle
                &&& m.root_spec()@ == join_spec(output_dir@, name@)
                &&& exists|i: int|
                    first_match_at(registry@, template@, i) && plan_view(m.units_spec()) == plan_of(
                        #[trigger] registry@[i].kind,
                    )
            },
            _ => false,
        },
{
    let kind = match registry.resolve(template) {
        Ok(kind) => kind,
        Err(e) => {
            return Err(GenerationError::UnknownTemplate(e));
        },
    };
    let plan = kind.plan();
    Materializer::new(output_dir, name, plan)
}

/// The events that report `count` successful writes.
pub open spec fn written(count: nat) -> Seq<Event> {
    Seq::new(count, |i: int| Event::Written)
}

/// The write actions for units `from` up to `to` (excluded) of `m`'s plan.
pub open spec fn writes(m: Materializer, from: int, to: int) -> Seq<Action> {
    Seq::new(
        (to - from) as nat,
        |i: int|
            Action::WriteFile {
                path: m.targets_spec()[from + i],
                content: m.units_spec()[from + i].content,
            },
    )
}

/// The final phase and the actions of `m`, started in `phase`, fed with `events`
/// for as long as it accepts them.
pub open spec fn run(m: Materializer, phase: Phase, events: Seq<Event>) -> (Phase, Seq<Action>)
    decreases events.len(),
{
    if events.len() == 0 || !accepts_spec(phase, events[0]) {
        (phase, Seq::empty())
    } else {
        let (next, action) = transition(
            m.root_spec(),
            m.units_spec(),
            m.targets_spec(),
            phase,
            events[0],
        );
        let (last, rest) = run(m, next, events.drop_first());
        (last, seq![action] + rest)
    }
}

proof fn lemma_run_step(m: Materializer, phase: Phase, e: Event, events: Seq<Event>)
    requires
        accepts_spec(phase, e),
    ensures
        run(m, phase, seq![e] + events) == ({
            let (next, action) = transition(
                m.root_spec(),
                m.units_spec(),
                m.targets_spec(),
                phase,
                e,
            );
            let (last, rest) = run(m, next, events);
            (last, seq![action] + rest)
        }),
{
    assert((seq![e] + events)[0] == e);
    assert((seq![e] + events).drop_first() =~= events);
}

proof fn lemma_units_fit(m: Materializer)
    ensures
        m.units_spec().len() <= usize::MAX,
{
    assert(m.units.len() == m.units@.len());
}

proof fn lemma_run_writes(m: Materializer, j: usize, count: nat, tail: Seq<Event>)
    requires
        j + count < m.units_spec().len(),
    ensures
        run(m, Phase::Writing { next: j }, written(count) + tail) == ({
            let (last, rest) = run(m, Phase::Writing { next: (j + count) as usize }, tail);
            (last, writes(m, j + 1, j + count + 1) + rest)
        }),
    decreases count,
{
    lemma_units_fit(m);
    if count == 0 {
        assert(written(0) + tail =~= tail);
        assert(writes(m, j + 1, j + 1) =~= Seq::<Action>::empty());
        let (last, rest) = run(m, Phase::Writing { next: j }, tail);
        assert(Seq::<Action>::empty() + rest =~= rest);
    } else {
        let later = written((count - 1) as nat) + tail;
        assert(written(count) + tail =~= seq![Event::Written] + later);
        lemma_run_step(m, Phase::Writing { next: j }, Event::Written, later);
        lemma_run_writes(m, (j + 1) as usize, (count - 1) as nat, tail);
        let (last, rest) = run(m, Phase::Writing { next: (j + count) as usize }, tail);
        assert(run(m, Phase::Writing { next: (j + 1) as usize }, later) == (
            last,
            writes(m, j + 2, j + count + 1) + rest,
        ));
        let t = transition(
            m.root_spec(),
            m.units_spec(),
            m.targets_spec(),
            Phase::Writing { next: j },
            Event::Written,
        );
        assert(t == (Phase::Writing { next: (j + 1) as usize }, writes(m, j + 1, j + 2)[0]));
        assert(run(m, Phase::Writing { next: j }, written(count) + tail) == (
            last,
            seq![t.1] + (writes(m, j + 2, j + count + 1) + rest),
        ));
        assert(seq![writes(m, j + 1, j + 2)[0]] + (writes(m, j + 2, j + count + 1) + rest) =~= writes(
            m,
            j + 1,
            j + count + 1,
        ) + rest);
    }
}

proof fn lemma_run_opening(m: Materializer, tail: Seq<Event>)
    requires
        is_valid_plan(plan_view(m.units_spec())),
        m.units_spec().len() > 0,
    ensures
        run(
            m,
            Phase::Idle,
            seq![Event::Start, Event::Probed { exists: false }, Event::Created] + tail,
        ) == ({
            let (last, rest) = run(m, Phase::Writing { next: 0 }, tail);
            (
                last,
                seq![
                    Action::CheckRoot { path: m.root_spec() },
                    Action::CreateRoot { path: m.root_spec() },
                    writes(m, 0, 1)[0],
                ] + rest,
            )
        }),
{
    lemma_no_issue_iff_valid(plan_view(m.units_spec()));
    reveal(first_issue);
    let e3 = seq![Event::Start, Event::Probed { exists: false }, Event::Created] + tail;
    assert(e3 =~= seq![Event::Start] + (seq![Event::Probed { exists: false }] + (seq![Event::Created] + tail)));
    lemma_run_step(m, Phase::Idle, Event::Start, seq![Event::Probed { exists: false }] + (seq![Event::Created] + tail));
    lemma_run_step(m, Phase::Probing, Event::Probed { exists: false }, seq![Event::Created] + tail);
    lemma_run_step(m, Phase::Creating, Event::Created, tail);
    let (last, rest) = run(m, Phase::Writing { next: 0 }, tail);
    let a = Action::CheckRoot { path: m.root_spec() };
    let b = Action::CreateRoot { path: m.root_spec() };
    let c = writes(m, 0, 1)[0];
    assert(seq![a] + (seq![b] + (seq![c] + rest)) =~= seq![a, b, c] + rest);
}

/// When the project root exists already, the materializer only looks at it and
/// finishes with a collision: it never creates, writes or removes anything,
/// whatever events follow.
pub proof fn lemma_existing_root_is_left_alone(m: Materializer, rest: Seq<Event>)
    ensures
        run(m, Phase::Idle, seq![Event::Start, Event::Probed { exists: true }] + rest) == (
            Phase::Done,
            seq![
                Action::CheckRoot { path: m.root_spec() },
                Action::Finish(Err(GenerationError::Collision { root: m.root_spec() })),
            ],
        ),
{
    let events = seq![Event::Start, Event::Probed { exists: true }] + rest;
    assert(events =~= seq![Event::Start] + (seq![Event::Probed { exists: true }] + rest));
    lemma_run_step(m, Phase::Idle, Event::Start, seq![Event::Probed { exists: true }] + rest);
    lemma_run_step(m, Phase::Probing, Event::Probed { exists: true }, rest);
    let a = Action::CheckRoot { path: m.root_spec() };
    let b = Action::Finish(Err(GenerationError::Collision { root: m.root_spec() }));
    assert(seq![a] + (seq![b] + Seq::<Action>::empty()) =~= seq![a, b]);
}

/// The project root is created only from the phase that checked the whole plan,
/// and only when every unit of the plan is valid.
pub proof fn lemma_root_created_only_after_validation(m: Materializer, phase: Phase, e: Event)
    requires
        accepts_spec(phase, e),
        transition(m.root_spec(), m.units_spec(), m.targets_spec(), phase, e).1 is CreateRoot,
    ensures
        phase is Probing,
        is_valid_plan(plan_view(m.units_spec())),
{
    let plan = plan_view(m.units_spec());
    assert(phase is Probing && first_issue(plan) is None);
    lemma_first_issue_none_is_valid(plan);
}

proof fn lemma_first_issue_none_is_valid(plan: PlanModel)
    requires
        first_issue(plan) is None,
    ensures
        is_valid_plan(plan),
{
    reveal(first_issue);
    lemma_no_issue_iff_valid(plan);
}

/// A root that appears between the check and its creation is a collision too,
/// and nothing is removed.
pub proof fn lemma_creation_race_is_collision(m: Materializer, cause: String)
    ensures
        transition(
            m.root_spec(),
            m.units_spec(),
            m.targets_spec(),
            Phase::Creating,
            Event::CreateFailed { already_exists: true, cause },
        ) == (Phase::Done, Action::Finish(Err(GenerationError::Collision { root: m.root_spec() }))),
{
}

/// When every write succeeds, the materializer creates the root, writes each
/// unit once to its target in plan order, and reports the number of files.
pub proof fn lemma_all_writes_succeed(m: Materializer)
    requires
        is_valid_plan(plan_view(m.units_spec())),
        m.units_spec().len() > 0,
    ensures
        run(
            m,
            Phase::Idle,
            seq![Event::Start, Event::Probed { exists: false }, Event::Created] + written(
                m.units_spec().len(),
            ),
        ) == (
            Phase::Done,
            seq![
                Action::CheckRoot { path: m.root_spec() },
                Action::CreateRoot { path: m.root_spec() },
            ] + writes(m, 0, m.units_spec().len() as int) + seq![
                Action::Finish(Ok(m.units_spec().len() as usize)),
            ],
        ),
{
    lemma_units_fit(m);
    let n = m.units_spec().len();
    let last_write = seq![Event::Written];
    assert(written(n) =~= written((n - 1) as nat) + last_write);
    lemma_run_opening(m, written(n));
    lemma_run_writes(m, 0, (n - 1) as nat, last_write);
    assert(last_write =~= seq![Event::Written] + Seq::<Event>::empty());
    lemma_run_step(m, Phase::Writing { next: (n - 1) as usize }, Event::Written, Seq::empty());
    let f = Action::Finish(Ok(n as usize));
    assert(run(m, Phase::Done, Seq::empty()) == (Phase::Done, Seq::<Action>::empty()));
    assert(run(m, Phase::Writing { next: (n - 1) as usize }, last_write) == (
        Phase::Done,
        seq![f] + Seq::<Action>::empty(),
    ));
    assert(run(m, Phase::Writing { next: 0 }, written(n)) == (
        Phase::Done,
        writes(m, 1, n as int) + (seq![f] + Seq::<Action>::empty()),
    ));
    let a = Action::CheckRoot { path: m.root_spec() };
    let b = Action::CreateRoot { path: m.root_spec() };
    assert(seq![a, b, writes(m, 0, 1)[0]] + (writes(m, 1, n as int) + (seq![f] + Seq::<Action>::empty()))
        =~= seq![a, b] + writes(m, 0, n as int) + seq![f]);
}

/// When the write of unit `k` fails, the units before it having been written,
/// the materializer removes the project root and then reports the failure with
/// the path of unit `k` and its cause.
pub proof fn lemma_failed_write_rolls_back(m: Materializer, k: nat, cause: String)
    requires
        is_valid_plan(plan_view(m.units_spec())),
        k < m.units_spec().len(),
    ensures
        run(
            m,
            Phase::Idle,
            seq![Event::Start, Event::Probed { exists: false }, Event::Created] + written(k)
                + seq![Event::WriteFailed { cause }, Event::Removed],
        ) == (
            Phase::Done,
            seq![
                Action::CheckRoot { path: m.root_spec() },
                Action::CreateRoot { path: m.root_spec() },
            ] + writes(m, 0, k + 1 as int) + seq![
                Action::RemoveRoot { path: m.root_spec() },
                Action::Finish(
                    Err(
                        GenerationError::Io {
                            path: m.targets_spec()[k as int],
                            cause,
                            rollback: None,
                        },
                    ),
                ),
            ],
        ),
{
    lemma_units_fit(m);
    let failing = seq![Event::WriteFailed { cause }, Event::Removed];
    let events = seq![Event::Start, Event::Probed { exists: false }, Event::Created] + written(k)
        + failing;
    assert(events =~= seq![Event::Start, Event::Probed { exists: false }, Event::Created] + (
    written(k) + failing));
    lemma_run_opening(m, written(k) + failing);
    lemma_run_writes(m, 0, k, failing);
    assert(failing =~= seq![Event::WriteFailed { cause }] + seq![Event::Removed]);
    lemma_run_step(m, Phase::Writing { next: k as usize }, Event::WriteFailed { cause }, seq![Event::Removed]);
    assert(seq![Event::Removed] =~= seq![Event::Removed] + Seq::<Event>::empty());
    lemma_run_step(
        m,
        Phase::RollingBack { unit: k as usize, cause },
        Event::Removed,
        Seq::empty(),
    );
    let a = Action::CheckRoot { path: m.root_spec() };
    let b = Action::CreateRoot { path: m.root_spec() };
    let r = Action::RemoveRoot { path: m.root_spec() };
    let f = Action::Finish(
        Err(GenerationError::Io { path: m.targets_spec()[k as int], cause, rollback: None }),
    );
    assert(run(m, Phase::Done, Seq::empty()) == (Phase::Done, Seq::<Action>::empty()));
    assert(run(m, Phase::RollingBack { unit: k as usize, cause }, seq![Event::Removed]) == (
        Phase::Done,
        seq![f] + Seq::<Action>::empty(),
    ));
    assert(run(m, Phase::Writing { next: k as usize }, failing) == (
        Phase::Done,
        seq![r] + (seq![f] + Seq::<Action>::empty()),
    ));
    assert(run(m, Phase::Writing { next: 0 }, written(k) + failing) == (
        Phase::Done,
        writes(m, 1, k + 1 as int) + (seq![r] + (seq![f] + Seq::<Action>::empty())),
    ));
    assert(seq![a, b, writes(m, 0, 1)[0]] + (writes(m, 1, k + 1 as int) + (seq![r] + (seq![f]
        + Seq::<Action>::empty()))) =~= seq![a, b] + writes(m, 0, k + 1 as int) + seq![r, f]);
}

} // verus!
