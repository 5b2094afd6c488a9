//! The command dispatcher, as an explicit state machine.
//!
//! A [`Session`] is created from one parsed [`Subcommand`] and then driven by
//! an unverified loop: [`Session::next_action`] says what to do next (prompt
//! for confirmation, run one engine [`Step`], or exit with a code), and the
//! driver hands the outcome back through [`Session::answer`] or
//! [`Session::report`]. The session tracks, in ghost state, exactly which
//! steps have been issued, so the ordering and failure-handling rules are
//! stated and proved once and for all here.

use vstd::prelude::*;

use crate::step::Step;

verus! {

/// The exit code of a run in which every issued engine call succeeded
/// (and no confirmation was declined).
pub const EXIT_OK: i32 = 0;

/// The exit code used both when an engine call reports a non-success status
/// and when the destroy confirmation is declined.
pub const EXIT_FAILURE: i32 = 2;

/// The shutdown policy accepted by the `work` subcommand. It is parsed and
/// carried as a configuration toggle; it does not change which steps are
/// issued.
#[derive(Clone, Copy, PartialEq, Eq, Structural, Debug)]
pub enum Shutdown {
    Yes,
    No,
    HellNo,
}

/// Which [`Shutdown`] value, if any, a raw flag value denotes: exactly
/// `"yes"`, `"no"` and `"hell no"` are accepted.
pub open spec fn shutdown_spec(s: Seq<char>) -> Option<Shutdown> {
    if s == "yes"@ {
        Some(Shutdown::Yes)
    } else if s == "no"@ {
        Some(Shutdown::No)
    } else if s == "hell no"@ {
        Some(Shutdown::HellNo)
    } else {
        None
    }
}

impl Shutdown {
    /// Parse the `work` subcommand's shutdown flag value.
    pub fn parse(s: &str) -> (r: Option<Shutdown>)
        ensures
            r == shutdown_spec(s@),
    {
        let owned = s.to_owned();
        if owned == String::from_str("yes") {
            Some(Shutdown::Yes)
        } else if owned == String::from_str("no") {
            Some(Shutdown::No)
        } else if owned == String::from_str("hell no") {
            Some(Shutdown::HellNo)
        } else {
            None
        }
    }
}

/// One parsed invocation of the tool: a verb with its typed parameters.
/// The container name is passed through verbatim; the tool imposes no
/// validity condition of its own on it.
#[derive(Debug)]
pub enum Subcommand {
    /// Create a container, start it, and provision it.
    New { name: String },
    /// Start a container and attach to it.
    Work { name: String, shutdown: Shutdown },
    /// List all containers.
    List,
    /// After a confirmation, stop and remove a container.
    Destroy { name: String },
}

/// The fixed, ordered list of engine steps each subcommand issues when
/// nothing fails (and, for `destroy`, the confirmation is accepted).
pub open spec fn plan_of(cmd: Subcommand) -> Seq<Step> {
    match cmd {
        Subcommand::New { .. } => seq![Step::Create, Step::Start, Step::BaseInstall],
        Subcommand::Work { .. } => seq![Step::Start, Step::Attach],
        Subcommand::List => seq![Step::ListAll],
        Subcommand::Destroy { .. } => seq![Step::Stop, Step::Delete],
    }
}

/// Where a session stands: waiting on the destroy confirmation, issuing the
/// plan's steps one by one, or finished with a fixed exit code.
#[derive(Clone, Copy, PartialEq, Eq, Structural, Debug)]
pub enum Phase {
    Confirming,
    Running,
    Done(i32),
}

/// What the driver must do next.
#[derive(Clone, Copy, PartialEq, Eq, Structural, Debug)]
pub enum Action {
    /// Ask the destroy confirmation question; reply via [`Session::answer`].
    AskConfirm,
    /// Spawn the engine with this step's argument vector, wait for it, and
    /// reply with its success via [`Session::report`].
    Run(Step),
    /// Terminate the whole process with this exit code.
    Exit(i32),
}

/// The dispatcher's state for one invocation.
pub struct Session {
    /// The subcommand being dispatched.
    pub cmd: Subcommand,
    /// The current phase.
    pub phase: Phase,
    /// How many of the plan's steps have been issued and completed.
    pub pos: usize,
    /// The steps issued so far, in order of issue (ghost).
    pub issued: Ghost<Seq<Step>>,
}

impl Session {
    /// Well-formedness: the issued steps are exactly the first `pos` steps
    /// of the subcommand's plan, and nothing is issued while the destroy
    /// confirmation is still pending.
    pub open spec fn wf(self) -> bool {
        &&& self.pos <= plan_of(self.cmd).len()
        &&& self.issued@ == plan_of(self.cmd).take(self.pos as int)
        &&& (self.phase is Confirming ==> self.cmd is Destroy && self.pos == 0)
    }

    /// The action a session in this state demands of the driver.
    pub open spec fn next_spec(self) -> Action {
        match self.phase {
            Phase::Confirming => Action::AskConfirm,
            Phase::Running => if self.pos < plan_of(self.cmd).len() {
                Action::Run(plan_of(self.cmd)[self.pos as int])
            } else {
                Action::Exit(EXIT_OK)
            },
            Phase::Done(code) => Action::Exit(code),
        }
    }

    /// Start dispatching `cmd`. Only `destroy` begins with a pending
    /// confirmation; every other subcommand goes straight to its plan.
    pub fn new(cmd: Subcommand) -> (s: Session)
        ensures
            s.wf(),
            s.cmd == cmd,
            s.pos == 0,
            s.issued@ == Seq::<Step>::empty(),
            s.phase == (if cmd is Destroy {
                Phase::Confirming
            } else {
                Phase::Running
            }),
    {
        let phase = match &cmd {
            Subcommand::Destroy { .. } => Phase::Confirming,
            _ => Phase::Running,
        };
        proof {
            assert(plan_of(cmd).take(0) =~= Seq::<Step>::empty());
        }
        Session { cmd, phase, pos: 0, issued: Ghost(Seq::empty()) }
    }

    /// The plan step at index `i`, or `None` past the plan's end.
    fn step_at(cmd: &Subcommand, i: usize) -> (r: Option<Step>)
        ensures
            r == (if (i as int) < plan_of(*cmd).len() {
                Some(plan_of(*cmd)[i as int])
            } else {
                None::<Step>
            }),
    {
        match cmd {
            Subcommand::New { .. } => {
                if i == 0 {
                    Some(Step::Create)
                } else if i == 1 {
                    Some(Step::Start)
                } else if i == 2 {
                    Some(Step::BaseInstall)
                } else {
                    None
                }
            },
            Subcommand::Work { .. } => {
                if i == 0 {
                    Some(Step::Start)
                } else if i == 1 {
                    Some(Step::Attach)
                } else {
                    None
                }
            },
            Subcommand::List => {
                if i == 0 {
                    Some(Step::ListAll)
                } else {
                    None
                }
            },
            Subcommand::Destroy { .. } => {
                if i == 0 {
                    Some(Step::Stop)
                } else if i == 1 {
                    Some(Step::Delete)
                } else {
                    None
                }
            },
        }
    }

    /// What the driver must do next.
    pub fn next_action(&self) -> (a: Action)
        requires
            self.wf(),
        ensures
            a == self.next_spec(),
    {
        match self.phase {
            Phase::Confirming => Action::AskConfirm,
            Phase::Done(code) => Action::Exit(code),
            Phase::Running => {
                match Self::step_at(&self.cmd, self.pos) {
                    Some(step) => Action::Run(step),
                    None => Action::Exit(EXIT_OK),
                }
            },
        }
    }

    /// Deliver the confirmation answer. Enabled only while the session asks
    /// for one; a negative answer finishes the session with
    /// [`EXIT_FAILURE`] before any step is issued.
    pub fn answer(&mut self, yes: bool)
        requires
            old(self).wf(),
            old(self).next_spec() is AskConfirm,
        ensures
            final(self).wf(),
            answer_rel(*old(self), *final(self), yes),
    {
        if yes {
            self.phase = Phase::Running;
        } else {
            self.phase = Phase::Done(EXIT_FAILURE);
        }
    }

    /// Deliver the exit outcome of the step the session last asked to run.
    /// On success the session moves to the next step of the plan; on failure
    /// it finishes at once with [`EXIT_FAILURE`], issuing nothing further.
    pub fn report(&mut self, ok: bool)
        requires
            old(self).wf(),
            old(self).next_spec() is Run,
        ensures
            final(self).wf(),
            report_rel(*old(self), *final(self), ok),
    {
        proof {
            assert(plan_of(self.cmd).take(self.pos as int).push(
                plan_of(self.cmd)[self.pos as int],
            ) =~= plan_of(self.cmd).take(self.pos as int + 1));
        }
        self.issued = Ghost(self.issued@.push(plan_of(self.cmd)[self.pos as int]));
        self.pos = self.pos + 1;
        if !ok {
            self.phase = Phase::Done(EXIT_FAILURE);
        }
    }
}

/// The transition relation of [`Session::answer`]: it is enabled exactly in
/// a well-formed state that asks for the confirmation, issues no step, and
/// either releases the plan (`yes`) or finishes with [`EXIT_FAILURE`] (`no`).
pub open spec fn answer_rel(pre: Session, post: Session, yes: bool) -> bool {
    &&& pre.wf()
    &&& pre.next_spec() is AskConfirm
    &&& post.cmd == pre.cmd
    &&& post.pos == pre.pos
    &&& post.issued@ == pre.issued@
    &&& post.phase == (if yes {
        Phase::Running
    } else {
        Phase::Done(EXIT_FAILURE)
    })
}

/// The transition relation of [`Session::report`]: it is enabled exactly in
/// a well-formed state that asks for a step to be run; that step is recorded
/// as issued, and a non-success outcome finishes the session with
/// [`EXIT_FAILURE`].
pub open spec fn report_rel(pre: Session, post: Session, ok: bool) -> bool {
    &&& pre.wf()
    &&& pre.next_spec() is Run
    &&& post.cmd == pre.cmd
    &&& post.pos == pre.pos + 1
    &&& post.issued@ == pre.issued@.push(plan_of(pre.cmd)[pre.pos as int])
    &&& post.phase == (if ok {
        pre.phase
    } else {
        Phase::Done(EXIT_FAILURE)
    })
}

/// The documented order of engine calls for each subcommand: the plan lists
/// them exactly, and a session issues them exactly in plan order, stopping
/// wherever the plan was cut short.
pub proof fn lemma_plan_order(cmd: Subcommand)
    ensures
        cmd is New ==> plan_of(cmd) == seq![Step::Create, Step::Start, Step::BaseInstall],
        cmd is Work ==> plan_of(cmd) == seq![Step::Start, Step::Attach],
        cmd is List ==> plan_of(cmd) == seq![Step::ListAll],
        cmd is Destroy ==> plan_of(cmd) == seq![Step::Stop, Step::Delete],
{
}

/// Every well-formed session has issued exactly a prefix of its
/// subcommand's plan, in the plan's order.
pub proof fn lemma_issued_is_plan_prefix(s: Session)
    requires
        s.wf(),
    ensures
        s.issued@ == plan_of(s.cmd).take(s.pos as int),
        s.issued@.len() <= plan_of(s.cmd).len(),
        forall|i: int| 0 <= i < s.issued@.len() ==> s.issued@[i] == plan_of(s.cmd)[i],
{
}

/// Declining the destroy confirmation issues no engine call at all — in
/// particular neither stop nor delete — finishes with [`EXIT_FAILURE`], and
/// leaves the session unable to take any further transition.
pub proof fn lemma_decline_runs_nothing(pre: Session, post: Session)
    requires
        answer_rel(pre, post, false),
    ensures
        post.issued@ == Seq::<Step>::empty(),
        post.next_spec() == Action::Exit(EXIT_FAILURE),
        forall|q: Session, yes: bool| !answer_rel(post, q, yes),
        forall|q: Session, ok: bool| !report_rel(post, q, ok),
{
    assert(post.issued@ =~= Seq::<Step>::empty());
}

/// A non-success exit status from any step, of any subcommand, finishes the
/// session with the fixed [`EXIT_FAILURE`] code, and leaves it unable to
/// take any further transition: the first failing call is the last call.
pub proof fn lemma_failure_halts(pre: Session, post: Session)
    requires
        report_rel(pre, post, false),
    ensures
        post.next_spec() == Action::Exit(EXIT_FAILURE),
        forall|q: Session, yes: bool| !answer_rel(post, q, yes),
        forall|q: Session, ok: bool| !report_rel(post, q, ok),
{
}

/// Once every step of the plan has succeeded, the session demands exit code
/// [`EXIT_OK`], having issued the whole plan in order.
pub proof fn lemma_success_exits_ok(s: Session)
    requires
        s.wf(),
        s.phase is Running,
        s.pos == plan_of(s.cmd).len(),
    ensures
        s.next_spec() == Action::Exit(EXIT_OK),
        s.issued@ == plan_of(s.cmd),
{
    assert(plan_of(s.cmd).take(s.pos as int) =~= plan_of(s.cmd));
}

/// Delete is issued only on the confirmed destroy path, and only with stop
/// issued first: a session that has issued delete has issued exactly stop
/// then delete.
pub proof fn lemma_stop_before_delete(s: Session)
    requires
        s.wf(),
        s.issued@.contains(Step::Delete),
    ensures
        s.issued@ == seq![Step::Stop, Step::Delete],
{
    let plan = plan_of(s.cmd);
    let i = choose|i: int| 0 <= i < s.issued@.len() && s.issued@[i] == Step::Delete;
    assert(s.issued@[i] == plan[i]);
    match s.cmd {
        Subcommand::Destroy { .. } => {
            assert(i == 1);
            assert(s.pos == 2);
            assert(s.issued@ =~= seq![Step::Stop, Step::Delete]);
        },
        _ => {
            assert(false);
        },
    }
}

/// The base install runs only after create and start have both been issued,
/// in that order: a session that has issued the base install has issued
/// exactly create, start, base install.
pub proof fn lemma_install_after_create_and_start(s: Session)
    requires
        s.wf(),
        s.issued@.contains(Step::BaseInstall),
    ensures
        s.issued@ == seq![Step::Create, Step::Start, Step::BaseInstall],
{
    let plan = plan_of(s.cmd);
    let i = choose|i: int| 0 <= i < s.issued@.len() && s.issued@[i] == Step::BaseInstall;
    assert(s.issued@[i] == plan[i]);
    match s.cmd {
        Subcommand::New { .. } => {
            assert(i == 2);
            assert(s.pos == 3);
            assert(s.issued@ =~= seq![Step::Create, Step::Start, Step::BaseInstall]);
        },
        _ => {
            assert(false);
        },
    }
}

/// Attach runs only after start has been issued: a session that has issued
/// attach has issued exactly start then attach.
pub proof fn lemma_start_before_attach(s: Session)
    requires
        s.wf(),
        s.issued@.contains(Step::Attach),
    ensures
        s.issued@ == seq![Step::Start, Step::Attach],
{
    let plan = plan_of(s.cmd);
    let i = choose|i: int| 0 <= i < s.issued@.len() && s.issued@[i] == Step::Attach;
    assert(s.issued@[i] == plan[i]);
    match s.cmd {
        Subcommand::Work { .. } => {
            assert(i == 1);
            assert(s.pos == 2);
            assert(s.issued@ =~= seq![Step::Start, Step::Attach]);
        },
        _ => {
            assert(false);
        },
    }
}

} // verus!
