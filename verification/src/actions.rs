//! Plain-data description of the external work a command performs.
//!
//! A [`Plan`] is an ordered list of [`Action`]s together with an optional
//! planning error. Executing a plan means performing its actions in order,
//! stopping at the first action that fails; if every action succeeds and the
//! plan carries an abort error, that error is reported afterwards. This
//! mirrors an orchestrator that works through its steps one by one and stops
//! as soon as a step cannot be carried out or even stated.

use vstd::prelude::*;

verus! {

/// One environment variable assignment handed to a spawned process.
pub struct EnvVar {
    pub name: String,
    pub value: String,
}

/// Mathematical model of an [`EnvVar`].
#[verifier::ext_equal]
pub struct EnvVarModel {
    pub name: Seq<char>,
    pub value: Seq<char>,
}

impl DeepView for EnvVar {
    type V = EnvVarModel;

    open spec fn deep_view(&self) -> EnvVarModel {
        EnvVarModel { name: self.name@, value: self.value@ }
    }
}

/// One external program invocation: program name, arguments in order, and
/// extra environment variables for the child process.
pub struct Invocation {
    pub program: String,
    pub args: Vec<String>,
    pub env: Vec<EnvVar>,
}

/// Mathematical model of an [`Invocation`].
#[verifier::ext_equal]
pub struct InvocationModel {
    pub program: Seq<char>,
    pub args: Seq<Seq<char>>,
    pub env: Seq<EnvVarModel>,
}

impl DeepView for Invocation {
    type V = InvocationModel;

    open spec fn deep_view(&self) -> InvocationModel {
        InvocationModel {
            program: self.program@,
            args: self.args.deep_view(),
            env: self.env.deep_view(),
        }
    }
}

impl Invocation {
    /// Start an invocation of `program` with no arguments yet.
    pub fn new(program: &str) -> (r: Invocation)
        ensures
            r.deep_view() == (InvocationModel {
                program: program@,
                args: Seq::<Seq<char>>::empty(),
                env: Seq::<EnvVarModel>::empty(),
            }),
    {
        let r = Invocation { program: program.to_owned(), args: Vec::new(), env: Vec::new() };
        proof {
            assert(r.deep_view() =~= (InvocationModel {
                program: program@,
                args: Seq::<Seq<char>>::empty(),
                env: Seq::<EnvVarModel>::empty(),
            }));
        }
        r
    }

    /// Append one literal argument.
    pub fn arg(&mut self, a: &str)
        ensures
            final(self).deep_view() == (InvocationModel {
                program: old(self).deep_view().program,
                args: old(self).deep_view().args.push(a@),
                env: old(self).deep_view().env,
            }),
    {
        self.args.push(a.to_owned());
        proof {
            assert(self.deep_view() =~= (InvocationModel {
                program: old(self).deep_view().program,
                args: old(self).deep_view().args.push(a@),
                env: old(self).deep_view().env,
            }));
        }
    }

    /// Append one computed argument.
    pub fn arg_owned(&mut self, a: String)
        ensures
            final(self).deep_view() == (InvocationModel {
                program: old(self).deep_view().program,
                args: old(self).deep_view().args.push(a@),
                env: old(self).deep_view().env,
            }),
    {
        self.args.push(a);
        proof {
            assert(self.deep_view() =~= (InvocationModel {
                program: old(self).deep_view().program,
                args: old(self).deep_view().args.push(a@),
                env: old(self).deep_view().env,
            }));
        }
    }

    /// Append every element of `extra` as an argument, in order.
    pub fn extend_args(&mut self, extra: &Vec<String>)
        ensures
            final(self).deep_view() == (InvocationModel {
                program: old(self).deep_view().program,
                args: old(self).deep_view().args + extra.deep_view(),
                env: old(self).deep_view().env,
            }),
    {
        let n = extra.len();
        let mut i: usize = 0;
        while i < n
            invariant
                n == extra.len(),
                i <= n,
                self.deep_view().program == old(self).deep_view().program,
                self.deep_view().env == old(self).deep_view().env,
                self.deep_view().args =~= old(self).deep_view().args + extra.deep_view().take(
                    i as int,
                ),
            decreases n - i,
        {
            let a = extra[i].clone();
            self.arg_owned(a);
            proof {
                assert(extra.deep_view().take(i as int + 1) =~= extra.deep_view().take(
                    i as int,
                ).push(extra.deep_view()[i as int]));
            }
            i = i + 1;
        }
        proof {
            assert(extra.deep_view().take(n as int) =~= extra.deep_view());
            assert(self.deep_view() =~= (InvocationModel {
                program: old(self).deep_view().program,
                args: old(self).deep_view().args + extra.deep_view(),
                env: old(self).deep_view().env,
            }));
        }
    }

    /// Add one environment variable for the child process.
    pub fn add_env(&mut self, name: &str, value: String)
        ensures
            final(self).deep_view() == (InvocationModel {
                program: old(self).deep_view().program,
                args: old(self).deep_view().args,
                env: old(self).deep_view().env.push(EnvVarModel { name: name@, value: value@ }),
            }),
    {
        self.env.push(EnvVar { name: name.to_owned(), value });
        proof {
            assert(self.deep_view() =~= (InvocationModel {
                program: old(self).deep_view().program,
                args: old(self).deep_view().args,
                env: old(self).deep_view().env.push(EnvVarModel { name: name@, value: value@ }),
            }));
        }
    }
}

/// One step of a plan.
pub enum Action {
    /// Spawn an external program and wait for it to exit.
    Run(Invocation),
    /// Remove a single file, ignoring a not-found error.
    RemoveFile(String),
    /// Remove a directory and everything below it.
    RemoveDirAll(String),
    /// Announce that there is nothing to do.
    NoOp,
}

/// Mathematical model of an [`Action`].
#[verifier::ext_equal]
pub enum ActionModel {
    Run(InvocationModel),
    RemoveFile(Seq<char>),
    RemoveDirAll(Seq<char>),
    NoOp,
}

impl DeepView for Action {
    type V = ActionModel;

    open spec fn deep_view(&self) -> ActionModel {
        match self {
            Action::Run(inv) => ActionModel::Run(inv.deep_view()),
            Action::RemoveFile(p) => ActionModel::RemoveFile(p@),
            Action::RemoveDirAll(p) => ActionModel::RemoveDirAll(p@),
            Action::NoOp => ActionModel::NoOp,
        }
    }
}

/// A run action with no extra environment variables.
pub open spec fn run_model(program: Seq<char>, args: Seq<Seq<char>>) -> ActionModel {
    ActionModel::Run(InvocationModel { program, args, env: Seq::<EnvVarModel>::empty() })
}

/// A run action with extra environment variables.
pub open spec fn run_env_model(
    program: Seq<char>,
    args: Seq<Seq<char>>,
    env: Seq<EnvVarModel>,
) -> ActionModel {
    ActionModel::Run(InvocationModel { program, args, env })
}

/// An error the planner itself detects, before any external work runs.
pub enum PlanError {
    /// A build or clean request named an artifact outside the known set.
    UnknownArtifact(String),
    /// A required environment variable was not set.
    MissingEnvVar(String),
}

/// Mathematical model of a [`PlanError`].
#[verifier::ext_equal]
pub enum PlanErrorModel {
    UnknownArtifact(Seq<char>),
    MissingEnvVar(Seq<char>),
}

impl DeepView for PlanError {
    type V = PlanErrorModel;

    open spec fn deep_view(&self) -> PlanErrorModel {
        match self {
            PlanError::UnknownArtifact(a) => PlanErrorModel::UnknownArtifact(a@),
            PlanError::MissingEnvVar(v) => PlanErrorModel::MissingEnvVar(v@),
        }
    }
}

impl PlanErrorModel {
    /// The message the CLI reports for this error.
    pub open spec fn message(self) -> Seq<char> {
        match self {
            PlanErrorModel::UnknownArtifact(a) => "unknown artifact: "@ + a,
            PlanErrorModel::MissingEnvVar(v) => v + " not set"@,
        }
    }
}

impl PlanError {
    /// Render the error as the message the CLI reports.
    pub fn message(&self) -> (m: String)
        ensures
            m@ == self.deep_view().message(),
    {
        match self {
            PlanError::UnknownArtifact(a) => {
                let prefix = String::from_str("unknown artifact: ");
                prefix.concat(a.as_str())
            },
            PlanError::MissingEnvVar(v) => {
                let name = v.clone();
                name.concat(" not set")
            },
        }
    }
}

/// What a command decided to do: a sequence of actions, then possibly a
/// planning error to report once the actions so far have succeeded.
pub struct Plan {
    pub actions: Vec<Action>,
    pub abort: Option<PlanError>,
}

/// Mathematical model of a [`Plan`].
#[verifier::ext_equal]
pub struct PlanModel {
    pub actions: Seq<ActionModel>,
    pub abort: Option<PlanErrorModel>,
}

impl DeepView for Plan {
    type V = PlanModel;

    open spec fn deep_view(&self) -> PlanModel {
        PlanModel { actions: self.actions.deep_view(), abort: self.abort.deep_view() }
    }
}

/// A plan that runs `actions` and reports success.
pub open spec fn plan_ok(actions: Seq<ActionModel>) -> PlanModel {
    PlanModel { actions, abort: None }
}

/// A plan that does nothing but report `e`.
pub open spec fn plan_abort(e: PlanErrorModel) -> PlanModel {
    PlanModel { actions: Seq::<ActionModel>::empty(), abort: Some(e) }
}

/// Sequential composition: `a`, and if `a` did not abort, `b` after it.
pub open spec fn plan_then(a: PlanModel, b: PlanModel) -> PlanModel {
    if a.abort is Some {
        a
    } else {
        PlanModel { actions: a.actions + b.actions, abort: b.abort }
    }
}

impl Plan {
    /// The plan with no actions and no error.
    pub fn empty() -> (r: Plan)
        ensures
            r.deep_view() == plan_ok(Seq::<ActionModel>::empty()),
    {
        let r = Plan { actions: Vec::new(), abort: None };
        proof {
            assert(r.deep_view() =~= plan_ok(Seq::<ActionModel>::empty()));
        }
        r
    }

    /// The plan that performs exactly one action.
    pub fn single(a: Action) -> (r: Plan)
        ensures
            r.deep_view() == plan_ok(seq![a.deep_view()]),
    {
        let ghost m = a.deep_view();
        let mut actions: Vec<Action> = Vec::new();
        actions.push(a);
        let r = Plan { actions, abort: None };
        proof {
            assert(r.deep_view() =~= plan_ok(seq![m]));
        }
        r
    }

    /// The plan that performs nothing and reports `e`.
    pub fn fail(e: PlanError) -> (r: Plan)
        ensures
            r.deep_view() == plan_abort(e.deep_view()),
    {
        let ghost m = e.deep_view();
        let r = Plan { actions: Vec::new(), abort: Some(e) };
        proof {
            assert(r.deep_view() =~= plan_abort(m));
        }
        r
    }

    /// Append one action to a plan that has not aborted.
    pub fn push_action(&mut self, a: Action)
        requires
            old(self).deep_view().abort is None,
        ensures
            final(self).deep_view() == plan_ok(old(self).deep_view().actions.push(a.deep_view())),
    {
        let ghost m = a.deep_view();
        self.actions.push(a);
        proof {
            assert(self.deep_view() =~= plan_ok(old(self).deep_view().actions.push(m)));
        }
    }

    /// Run `self`, then `other`: if `self` aborts, `other` never starts.
    pub fn and_then(self, other: Plan) -> (r: Plan)
        ensures
            r.deep_view() == plan_then(self.deep_view(), other.deep_view()),
    {
        let ghost a = self.deep_view();
        let ghost b = other.deep_view();
        if self.abort.is_some() {
            self
        } else {
            let mut actions = self.actions;
            let mut rest = other.actions;
            actions.append(&mut rest);
            let r = Plan { actions, abort: other.abort };
            proof {
                assert(r.deep_view() =~= plan_then(a, b));
            }
            r
        }
    }
}

} // verus!
