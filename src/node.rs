//! The deployment of one node, as a state machine.
//!
//! A [`NodeRun`] says which action to perform next; the caller performs it
//! and hands back its outcome (`Ok` with the step's output, or `Err` with the
//! reason it failed), until the run is finished. Steps run in a fixed order:
//! connect, hash, copy, build, link. A failed copy or build is followed by a
//! rollback when the node asks for one.
use vstd::prelude::*;
use vstd::string::*;
use crate::commands::{
    build_args, build_args_spec, copy_args, copy_args_spec, destination_of, link_args,
    link_args_spec, rollback_args, rollback_args_spec, ssh_destination, staged_dir, staged_dir_of,
    views,
};
use crate::config::{DeployOpts, NodeCfg};

verus! {

/// The steps whose failure ends a run after the connection was made.
#[derive(Clone, Copy, Debug, PartialEq, Eq, Structural)]
pub enum Step {
    Hash,
    Copy,
    Build,
}

/// A failed step and the reason it gave.
#[derive(Clone, Debug)]
pub struct StepError {
    pub step: Step,
    pub message: String,
}

/// How one node's run ended.
#[derive(Clone, Debug)]
pub enum DeploymentResult {
    Succeeded,
    /// A step failed and a rollback was attempted; `rollback_error` is the
    /// rollback's own failure, if it failed too.
    FailedWithRollback { error: StepError, rollback_error: Option<String> },
    FailedNoRollback(StepError),
    /// No session could be opened; nothing remote happened.
    ConnectionFailed(String),
}

/// Where a run stands.
#[derive(Clone, Debug)]
pub enum Phase {
    Connecting,
    Hashing,
    Copying,
    Building,
    Linking,
    /// Rolling back after the given failure.
    RollingBack(StepError),
    Done(DeploymentResult),
}

/// What the caller is to do next for the node.
#[derive(Clone, Debug)]
pub enum Action {
    /// Open a session to `destination`, on `port` if one is given.
    Connect { destination: String, port: Option<u16> },
    /// Compute the content hash of the configuration directory `dir`.
    Hash { dir: String },
    /// Run `rsync` with `args` locally.
    Copy { args: Vec<String> },
    /// Run `nixos-rebuild` with `args` on the node, streaming its output.
    Build { args: Vec<String> },
    /// Run `ln` with `args` on the node.
    Link { args: Vec<String> },
    /// Run `nixos-rebuild` with `args` on the node, streaming its output.
    Rollback { args: Vec<String> },
    /// The run is over; log `result`, and `warning` if there is one.
    Finish { result: DeploymentResult, warning: Option<String> },
}

impl StepError {
    /// An equal copy.
    pub fn duplicate(&self) -> (r: StepError)
        ensures
            r == *self,
    {
        StepError { step: self.step, message: self.message.clone() }
    }
}

impl DeploymentResult {
    /// An equal copy.
    pub fn duplicate(&self) -> (r: DeploymentResult)
        ensures
            r == *self,
    {
        match self {
            DeploymentResult::Succeeded => DeploymentResult::Succeeded,
            DeploymentResult::FailedWithRollback { error, rollback_error } => {
                let rollback_error = match rollback_error {
                    Some(m) => Some(m.clone()),
                    None => None,
                };
                DeploymentResult::FailedWithRollback { error: error.duplicate(), rollback_error }
            },
            DeploymentResult::FailedNoRollback(e) => DeploymentResult::FailedNoRollback(e.duplicate()),
            DeploymentResult::ConnectionFailed(m) => DeploymentResult::ConnectionFailed(m.clone()),
        }
    }

    pub open spec fn is_success(self) -> bool {
        self is Succeeded
    }
}

/// The phase after a failure of `error`, under the node's rollback policy.
pub open spec fn after_failure(rollback: bool, error: StepError) -> Phase {
    if rollback {
        Phase::RollingBack(error)
    } else {
        Phase::Done(DeploymentResult::FailedNoRollback(error))
    }
}

/// The phase that follows `p` when its action had outcome `o`.
pub open spec fn next_phase(rollback: bool, p: Phase, o: Result<String, String>) -> Phase {
    match p {
        Phase::Connecting => match o {
            Ok(_) => Phase::Hashing,
            Err(e) => Phase::Done(DeploymentResult::ConnectionFailed(e)),
        },
        Phase::Hashing => match o {
            Ok(_) => Phase::Copying,
            Err(e) => Phase::Done(DeploymentResult::FailedNoRollback(StepError { step: Step::Hash, message: e })),
        },
        Phase::Copying => match o {
            Ok(_) => Phase::Building,
            Err(e) => after_failure(rollback, StepError { step: Step::Copy, message: e }),
        },
        Phase::Building => match o {
            Ok(_) => Phase::Linking,
            Err(e) => after_failure(rollback, StepError { step: Step::Build, message: e }),
        },
        Phase::Linking => Phase::Done(DeploymentResult::Succeeded),
        Phase::RollingBack(error) => match o {
            Ok(_) => Phase::Done(DeploymentResult::FailedWithRollback { error, rollback_error: None }),
            Err(r) => Phase::Done(DeploymentResult::FailedWithRollback { error, rollback_error: Some(r) }),
        },
        Phase::Done(res) => Phase::Done(res),
    }
}

pub open spec fn link_warning_message(hash: Seq<char>, cause: Seq<char>) -> Seq<char> {
    "Could not symlink /etc/henix/latest to "@ + staged_dir(hash) + ": "@ + cause
        + ". This is more for convenience, but you may not be able to easily find the current configuration if it is not symlinked. Recommended command: ln -s -f "@
        + staged_dir(hash) + " /etc/henix/latest"@
}

/// One node's run: what it deploys, and where it stands.
#[derive(Clone, Debug)]
pub struct NodeRun {
    pub name: String,
    pub cfg: NodeCfg,
    /// The local configuration directory.
    pub cfg_dir: String,
    pub boot: bool,
    pub show_trace: bool,
    /// The configuration's content hash, once it has been computed.
    pub hash: String,
    pub phase: Phase,
}

impl NodeRun {
    /// Whether `a` is the action that the current phase calls for.
    pub open spec fn describes(self, a: Action) -> bool {
        match self.phase {
            Phase::Connecting => match a {
                Action::Connect { destination, port } =>
                    destination@ == destination_of(self.cfg.location@) && port == self.cfg.ssh_port,
                _ => false,
            },
            Phase::Hashing => match a {
                Action::Hash { dir } => dir@ == self.cfg_dir@,
                _ => false,
            },
            Phase::Copying => match a {
                Action::Copy { args } =>
                    views(args@) == copy_args_spec(self.cfg_dir@, self.cfg.location@, self.hash@),
                _ => false,
            },
            Phase::Building => match a {
                Action::Build { args } =>
                    views(args@) == build_args_spec(self.boot, self.show_trace, self.hash@, self.name@),
                _ => false,
            },
            Phase::Linking => match a {
                Action::Link { args } => views(args@) == link_args_spec(self.hash@),
                _ => false,
            },
            Phase::RollingBack(_) => match a {
                Action::Rollback { args } => views(args@) == rollback_args_spec(self.boot),
                _ => false,
            },
            Phase::Done(res) => match a {
                Action::Finish { result, warning: _ } => result == res,
                _ => false,
            },
        }
    }

    /// Whether this is the fresh run of `node` under `cfg_dir` and `opts`.
    pub open spec fn starts(self, node: (String, NodeCfg), cfg_dir: String, opts: DeployOpts) -> bool {
        &&& self.name == node.0
        &&& self.cfg == node.1
        &&& self.cfg_dir == cfg_dir
        &&& self.boot == opts.boot
        &&& self.show_trace == opts.show_trace
        &&& self.hash@.len() == 0
        &&& self.phase is Connecting
    }

    pub open spec fn is_done(self) -> bool {
        self.phase is Done
    }

    /// A run of node `name`, not yet connected.
    pub fn new(name: String, cfg: NodeCfg, cfg_dir: String, opts: &DeployOpts) -> (r: NodeRun)
        ensures
            r.name == name,
            r.cfg == cfg,
            r.cfg_dir == cfg_dir,
            r.boot == opts.boot,
            r.show_trace == opts.show_trace,
            r.hash@.len() == 0,
            r.phase is Connecting,
    {
        NodeRun {
            name,
            cfg,
            cfg_dir,
            boot: opts.boot,
            show_trace: opts.show_trace,
            hash: String::new(),
            phase: Phase::Connecting,
        }
    }

    /// Whether the run is over.
    pub fn finished(&self) -> (r: bool)
        ensures
            r == self.is_done(),
    {
        match self.phase {
            Phase::Done(_) => true,
            _ => false,
        }
    }

    /// The action that the current phase calls for.
    pub fn action(&self) -> (r: Action)
        ensures
            self.describes(r),
            r matches Action::Finish { result: _, warning } ==> warning is None,
    {
        match &self.phase {
            Phase::Connecting => Action::Connect {
                destination: ssh_destination(&self.cfg.location),
                port: self.cfg.ssh_port,
            },
            Phase::Hashing => Action::Hash { dir: self.cfg_dir.clone() },
            Phase::Copying => Action::Copy { args: copy_args(&self.cfg_dir, &self.cfg.location, &self.hash) },
            Phase::Building => Action::Build {
                args: build_args(self.boot, self.show_trace, &self.hash, &self.name),
            },
            Phase::Linking => Action::Link { args: link_args(&self.hash) },
            Phase::RollingBack(_) => Action::Rollback { args: rollback_args(self.boot) },
            Phase::Done(res) => Action::Finish { result: res.duplicate(), warning: None },
        }
    }
    /// Hand back the outcome of the current action; returns the next one.
    pub fn advance(&mut self, outcome: Result<String, String>) -> (r: Action)
        requires
            !old(self).is_done(),
        ensures
            final(self).phase == next_phase(old(self).cfg.rollback_on_failure, old(self).phase, outcome),
            final(self).name == old(self).name,
            final(self).cfg == old(self).cfg,
            final(self).cfg_dir == old(self).cfg_dir,
            final(self).boot == old(self).boot,
            final(self).show_trace == old(self).show_trace,
            final(self).hash == (match (old(self).phase, outcome) {
                (Phase::Hashing, Ok(h)) => h,
                _ => old(self).hash,
            }),
            final(self).describes(r),
            r matches Action::Finish { result: _, warning } ==> match (old(self).phase, outcome) {
                (Phase::Linking, Err(e)) => warning matches Some(w) && w@ == link_warning_message(
                    old(self).hash@,
                    e@,
                ),
                _ => warning is None,
            },
    {
        let rollback = self.cfg.rollback_on_failure;
        let mut warning: Option<String> = None;
        let next = match &self.phase {
            Phase::Connecting => match outcome {
                Ok(_) => Phase::Hashing,
                Err(e) => Phase::Done(DeploymentResult::ConnectionFailed(e)),
            },
            Phase::Hashing => match outcome {
                Ok(h) => {
                    self.hash = h;
                    Phase::Copying
                },
                Err(e) => Phase::Done(
                    DeploymentResult::FailedNoRollback(StepError { step: Step::Hash, message: e }),
                ),
            },
            Phase::Copying => match outcome {
                Ok(_) => Phase::Building,
                Err(e) => fail(rollback, StepError { step: Step::Copy, message: e }),
            },
            Phase::Building => match outcome {
                Ok(_) => Phase::Linking,
                Err(e) => fail(rollback, StepError { step: Step::Build, message: e }),
            },
            Phase::Linking => {
                match outcome {
                    Ok(_) => {},
                    Err(e) => {
                        warning = Some(
                            String::from_str("Could not symlink /etc/henix/latest to ").concat(
                                staged_dir_of(&self.hash).as_str(),
                            ).concat(": ").concat(e.as_str()).concat(
                                ". This is more for convenience, but you may not be able to easily find the current configuration if it is not symlinked. Recommended command: ln -s -f ",
                            ).concat(staged_dir_of(&self.hash).as_str()).concat(" /etc/henix/latest"),
                        );
                    },
                }
                Phase::Done(DeploymentResult::Succeeded)
            },
            Phase::RollingBack(error) => {
                let error = error.duplicate();
                match outcome {
                    Ok(_) => Phase::Done(DeploymentResult::FailedWithRollback { error, rollback_error: None }),
                    Err(r) => Phase::Done(
                        DeploymentResult::FailedWithRollback { error, rollback_error: Some(r) },
                    ),
                }
            },
            Phase::Done(_) => Phase::Connecting,
        };
        self.phase = next;
        let a = self.action();
        match a {
            Action::Finish { result, warning: _ } => Action::Finish { result, warning },
            other => other,
        }
    }
}

/// The phase after a failure, under the given rollback policy.
fn fail(rollback: bool, error: StepError) -> (r: Phase)
    ensures
        r == after_failure(rollback, error),
{
    if rollback {
        Phase::RollingBack(error)
    } else {
        Phase::Done(DeploymentResult::FailedNoRollback(error))
    }
}

// Whole runs, as sequences of outcomes.

/// The phase reached from `p` after the outcomes `os`, in order.
pub open spec fn run_phases(rollback: bool, p: Phase, os: Seq<Result<String, String>>) -> Phase
    decreases os.len(),
{
    if os.len() == 0 {
        p
    } else {
        run_phases(rollback, next_phase(rollback, p, os[0]), os.drop_first())
    }
}

/// The phases entered from `p`, one per outcome. Each phase entered calls
/// for its own action, so these are also the actions taken.
pub open spec fn phases_entered(rollback: bool, p: Phase, os: Seq<Result<String, String>>) -> Seq<Phase>
    decreases os.len(),
{
    if os.len() == 0 {
        seq![]
    } else {
        let q = next_phase(rollback, p, os[0]);
        seq![q] + phases_entered(rollback, q, os.drop_first())
    }
}

/// How many times `qs` enters a rollback.
pub open spec fn rollbacks_in(qs: Seq<Phase>) -> nat
    decreases qs.len(),
{
    if qs.len() == 0 {
        0
    } else {
        (if qs[0] is RollingBack {
            1nat
        } else {
            0nat
        }) + rollbacks_in(qs.drop_first())
    }
}

/// The result of each node of a fleet, node `j` having rollback policy
/// `policies[j]` and seeing the outcomes `traces[j]`.
pub open spec fn fleet_phases(policies: Seq<bool>, traces: Seq<Seq<Result<String, String>>>) -> Seq<Phase> {
    Seq::new(policies.len(), |j: int| run_phases(policies[j], Phase::Connecting, traces[j]))
}

/// A finished run stays finished, and enters nothing else.
pub proof fn lemma_done_stays(rollback: bool, res: DeploymentResult, os: Seq<Result<String, String>>)
    ensures
        run_phases(rollback, Phase::Done(res), os) == Phase::Done(res),
        phases_entered(rollback, Phase::Done(res), os).len() == os.len(),
        forall|k: int| 0 <= k < os.len() ==> phases_entered(rollback, Phase::Done(res), os)[k] == Phase::Done(res),
        rollbacks_in(phases_entered(rollback, Phase::Done(res), os)) == 0,
    decreases os.len(),
{
    if os.len() > 0 {
        lemma_done_stays(rollback, res, os.drop_first());
        let qs = phases_entered(rollback, Phase::Done(res), os);
        assert(qs.drop_first() =~= phases_entered(rollback, Phase::Done(res), os.drop_first()));
    }
}

/// One step of `phases_entered`: the first phase entered, then the rest.
proof fn lemma_entered_step(rollback: bool, p: Phase, os: Seq<Result<String, String>>)
    requires
        os.len() > 0,
    ensures
        rollbacks_in(phases_entered(rollback, p, os)) == (if next_phase(rollback, p, os[0]) is RollingBack {
            1nat
        } else {
            0nat
        }) + rollbacks_in(phases_entered(rollback, next_phase(rollback, p, os[0]), os.drop_first())),
        run_phases(rollback, p, os) == run_phases(rollback, next_phase(rollback, p, os[0]), os.drop_first()),
{
    let q = next_phase(rollback, p, os[0]);
    let qs = phases_entered(rollback, p, os);
    assert(qs.drop_first() =~= phases_entered(rollback, q, os.drop_first()));
}

/// The rollback policy decides: when the build fails, a node that does not
/// roll back ends `FailedNoRollback` with that failure and never enters a
/// rollback; a node that rolls back enters exactly one rollback, and once
/// the rollback's outcome is in ends `FailedWithRollback`, carrying the build
/// failure and the rollback's own failure, if any.
pub proof fn lemma_rollback_gating(rollback: bool, os: Seq<Result<String, String>>)
    requires
        os.len() >= 4,
        os[0] is Ok,
        os[1] is Ok,
        os[2] is Ok,
        os[3] is Err,
    ensures
        !rollback ==> run_phases(rollback, Phase::Connecting, os) == Phase::Done(
            DeploymentResult::FailedNoRollback(StepError { step: Step::Build, message: os[3]->Err_0 }),
        ),
        rollbacks_in(phases_entered(rollback, Phase::Connecting, os)) == (if rollback {
            1nat
        } else {
            0nat
        }),
        rollback && os.len() >= 5 ==> run_phases(rollback, Phase::Connecting, os) == Phase::Done(
            DeploymentResult::FailedWithRollback {
                error: StepError { step: Step::Build, message: os[3]->Err_0 },
                rollback_error: match os[4] {
                    Ok(_) => None,
                    Err(r) => Some(r),
                },
            },
        ),
{
    let e = StepError { step: Step::Build, message: os[3]->Err_0 };
    let o1 = os.drop_first();
    let o2 = o1.drop_first();
    let o3 = o2.drop_first();
    let o4 = o3.drop_first();
    assert(o1[0] == os[1] && o2[0] == os[2] && o3[0] == os[3]);
    let q0 = Phase::Connecting;
    let q1 = next_phase(rollback, q0, os[0]);
    let q2 = next_phase(rollback, q1, os[1]);
    let q3 = next_phase(rollback, q2, os[2]);
    let q4 = next_phase(rollback, q3, os[3]);
    assert(q1 == Phase::Hashing && q2 == Phase::Copying && q3 == Phase::Building);
    assert(q4 == after_failure(rollback, e));
    lemma_entered_step(rollback, q0, os);
    lemma_entered_step(rollback, q1, o1);
    lemma_entered_step(rollback, q2, o2);
    lemma_entered_step(rollback, q3, o3);
    if rollback {
        if o4.len() > 0 {
            assert(o4[0] == os[4]);
            let q5 = next_phase(rollback, q4, os[4]);
            lemma_entered_step(rollback, q4, o4);
            lemma_done_stays(rollback, q5->Done_0, o4.drop_first());
        }
    } else {
        lemma_done_stays(rollback, q4->Done_0, o4);
    }
}

/// A node whose connection fails enters nothing but its end,
/// `ConnectionFailed`: no hashing, copying, building or rollback follows.
pub proof fn lemma_connection_failure(rollback: bool, os: Seq<Result<String, String>>)
    requires
        os.len() >= 1,
        os[0] is Err,
    ensures
        run_phases(rollback, Phase::Connecting, os) == Phase::Done(DeploymentResult::ConnectionFailed(os[0]->Err_0)),
        forall|k: int| 0 <= k < os.len() ==> phases_entered(rollback, Phase::Connecting, os)[k] == Phase::Done(
            DeploymentResult::ConnectionFailed(os[0]->Err_0),
        ),
{
    let res = DeploymentResult::ConnectionFailed(os[0]->Err_0);
    let rest = os.drop_first();
    lemma_done_stays(rollback, res, rest);
    let qs = phases_entered(rollback, Phase::Connecting, os);
    assert forall|k: int| 0 <= k < os.len() implies qs[k] == Phase::Done(res) by {
        if k > 0 {
            assert(qs[k] == phases_entered(rollback, Phase::Done(res), rest)[k - 1]);
        }
    }
}

/// Linking cannot fail a run: once connection, hashing, copying and building
/// have succeeded, the run ends `Succeeded` whatever linking's outcome.
pub proof fn lemma_link_non_fatal(rollback: bool, os: Seq<Result<String, String>>)
    requires
        os.len() >= 5,
        os[0] is Ok,
        os[1] is Ok,
        os[2] is Ok,
        os[3] is Ok,
    ensures
        run_phases(rollback, Phase::Connecting, os) == Phase::Done(DeploymentResult::Succeeded),
        rollbacks_in(phases_entered(rollback, Phase::Connecting, os)) == 0,
{
    let o1 = os.drop_first();
    let o2 = o1.drop_first();
    let o3 = o2.drop_first();
    let o4 = o3.drop_first();
    let o5 = o4.drop_first();
    assert(o1[0] == os[1] && o2[0] == os[2] && o3[0] == os[3] && o4[0] == os[4]);
    let q1 = Phase::Hashing;
    let q2 = Phase::Copying;
    let q3 = Phase::Building;
    let q4 = Phase::Linking;
    lemma_done_stays(rollback, DeploymentResult::Succeeded, o5);
    lemma_entered_step(rollback, Phase::Connecting, os);
    lemma_entered_step(rollback, q1, o1);
    lemma_entered_step(rollback, q2, o2);
    lemma_entered_step(rollback, q3, o3);
    lemma_entered_step(rollback, q4, o4);
}

/// Failures do not cross nodes: a node whose own steps succeed ends
/// `Succeeded` whatever happens on the others, and each node's result depends
/// on its own policy and outcomes alone.
pub proof fn lemma_isolation(policies: Seq<bool>, traces: Seq<Seq<Result<String, String>>>, i: int)
    requires
        policies.len() == traces.len(),
        0 <= i < traces.len(),
        traces[i].len() >= 5,
        traces[i][0] is Ok,
        traces[i][1] is Ok,
        traces[i][2] is Ok,
        traces[i][3] is Ok,
    ensures
        fleet_phases(policies, traces)[i] == Phase::Done(DeploymentResult::Succeeded),
        forall|others: Seq<Seq<Result<String, String>>>|
            others.len() == traces.len() && others[i] == traces[i] ==> #[trigger] fleet_phases(policies, others)[i]
                == fleet_phases(policies, traces)[i],
{
    lemma_link_non_fatal(policies[i], traces[i]);
}

} // verus!
