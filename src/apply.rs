use vstd::prelude::*;

use crate::configuration::{bound_domains, domain_request_of, domain_requests_of, DomainRequest, DomainRequestView, project_request_of, Configuration, ConfigurationView};
use crate::invocation::{reports_existing_state, domain_argv, project_argv, Classification, InvocationResult, WranglerArgv};
use crate::wrangler::Wrangler;

verus! {

#[verifier::external_type_specification]
#[verifier::external_body]
pub struct ExIoError(std::io::Error);

/// Relies on `io::Error`'s `to_string`: a one-line description of the error.
#[verifier::external_body]
fn io_message(error: &std::io::Error) -> (r: String) {
    error.to_string()
}

/// The command lines of one apply run, in order: the project first, then
/// one per bound domain.
pub open spec fn plan_of(c: ConfigurationView) -> Seq<Seq<Seq<char>>> {
    seq![project_argv(project_request_of(c))] + domain_plan_of(c)
}

/// The command lines that bind the domains, in order.
pub open spec fn domain_plan_of(c: ConfigurationView) -> Seq<Seq<Seq<char>>> {
    Seq::new(domain_requests_of(c).len(), |i: int| domain_argv(domain_requests_of(c)[i]))
}

/// Why an apply run stopped early.
#[derive(Debug)]
pub enum ApplyError {
    Invocation { result: InvocationResult },
    Io { message: String },
}

impl ApplyError {
    pub open spec fn spec_exit_code(&self) -> i32 {
        match self {
            ApplyError::Invocation { result } => result.spec_exit_code(),
            ApplyError::Io { .. } => 1,
        }
    }

    pub fn from_invocation(result: InvocationResult) -> (r: Self)
        ensures
            r == (ApplyError::Invocation { result }),
    {
        Self::Invocation { result }
    }

    pub fn from_io(error: std::io::Error) -> (r: Self)
        ensures
            r is Io,
    {
        Self::Io { message: io_message(&error) }
    }

    /// The failing step's own exit code, or 1 for an I/O error.
    pub fn exit_code(&self) -> (r: i32)
        ensures
            r == self.spec_exit_code(),
    {
        match self {
            Self::Invocation { result } => result.exit_code(),
            Self::Io { .. } => 1,
        }
    }
}

/// The outcome of a run in which every step succeeded or was already applied.
#[derive(Debug, Clone)]
pub struct ApplyOutcome {
    exit_code: i32,
}

impl ApplyOutcome {
    pub closed spec fn spec_exit_code(&self) -> i32 {
        self.exit_code
    }

    pub(crate) fn success() -> (r: Self)
        ensures
            r.spec_exit_code() == 0,
    {
        Self { exit_code: 0 }
    }

    pub fn exit_code(&self) -> (r: i32)
        ensures
            r == self.spec_exit_code(),
    {
        self.exit_code
    }
}

/// One apply run as a state machine. The caller runs each pending command
/// line, forwards its output, and records what came back; the run stops at
/// the first hard failure or I/O error, and is done once every step passed.
#[derive(Debug)]
pub struct Apply {
    configuration: Configuration,
    wrangler: Wrangler,
    steps: Vec<WranglerArgv>,
    next: usize,
    failure: Option<ApplyError>,
}

impl Apply {
    pub closed spec fn spec_configuration(&self) -> ConfigurationView {
        self.configuration@
    }

    pub closed spec fn spec_wrangler(&self) -> Wrangler {
        self.wrangler
    }

    /// The command lines of the run, in order.
    pub closed spec fn plan(&self) -> Seq<Seq<Seq<char>>> {
        self.steps@.map_values(|a: WranglerArgv| a@)
    }

    /// How many steps have passed.
    pub closed spec fn position(&self) -> nat {
        self.next as nat
    }

    /// The error that stopped the run, if any.
    pub closed spec fn failure(&self) -> Option<ApplyError> {
        self.failure
    }

    pub open spec fn spec_running(&self) -> bool {
        self.failure() is None && self.position() < self.plan().len()
    }

    pub open spec fn spec_finished(&self) -> bool {
        !self.spec_running()
    }

    #[verifier::type_invariant]
    spec fn well_formed(&self) -> bool {
        self.next <= self.steps@.len()
    }

    /// The state after `event` was recorded on `pre`: an error or a hard
    /// failure stops the run; a success or an idempotent failure passes the step.
    pub open spec fn records(
        pre: &Apply,
        event: Result<InvocationResult, ApplyError>,
        post: &Apply,
    ) -> bool {
        &&& post.plan() == pre.plan()
        &&& post.spec_configuration() == pre.spec_configuration()
        &&& post.spec_wrangler() == pre.spec_wrangler()
        &&& match event {
            Err(e) => post.failure() == Some(e) && post.position() == pre.position(),
            Ok(result) => if result.spec_classification() == Classification::HardFailure {
                post.failure() == Some(ApplyError::Invocation { result })
                    && post.position() == pre.position()
            } else {
                post.failure() is None && post.position() == pre.position() + 1
            },
        }
    }

    /// A run of `configuration` that has not started.
    pub fn from_configuration(configuration: Configuration) -> (r: Self)
        ensures
            r.spec_configuration() == configuration@,
            r.spec_wrangler().spec_path() == "wrangler"@,
            r.plan() == plan_of(configuration@),
            r.position() == 0,
            r.failure() is None,
    {
        let mut steps: Vec<WranglerArgv> = Vec::new();
        steps.push(WranglerArgv::from_project(configuration.project_request()));
        let requests = configuration.domain_request_list().into_requests();
        let ghost domains = domain_requests_of(configuration@);
        let mut i: usize = 0;
        while i < requests.len()
            invariant
                i <= requests@.len(),
                requests@.map_values(|d: DomainRequest| d@) == domains,
                steps@.len() == 1 + i,
                plan_of(configuration@).len() == 1 + domains.len(),
                domains == domain_requests_of(configuration@),
                forall|k: int|
                    0 <= k < steps@.len() ==> #[trigger] steps@[k]@ == plan_of(configuration@)[k],
            decreases requests@.len() - i,
        {
            let ghost before = steps@;
            assert(domains.len() == requests@.len());
            assert(requests@[i as int]@ == domains[i as int]);
            assert(domain_plan_of(configuration@)[i as int] == domain_argv(domains[i as int]));
            assert(plan_of(configuration@)[1 + i] == domain_plan_of(configuration@)[i as int]);
            steps.push(WranglerArgv::from_domain(requests[i].duplicate()));
            assert(forall|k: int| 0 <= k < before.len() ==> steps@[k] == before[k]);
            i = i + 1;
        }
        let r = Self {
            configuration,
            wrangler: Wrangler::from_path(),
            steps,
            next: 0,
            failure: None,
        };
        assert(r.plan() =~= plan_of(configuration@));
        r
    }

    /// The tool that runs the steps.
    pub fn wrangler(&self) -> (r: &Wrangler)
        ensures
            *r == self.spec_wrangler(),
    {
        &self.wrangler
    }

    pub fn is_finished(&self) -> (r: bool)
        ensures
            r == self.spec_finished(),
    {
        proof {
            use_type_invariant(self);
        }
        self.failure.is_some() || self.next >= self.steps.len()
    }

    /// The command line to run next, while the run goes on.
    pub fn pending(&self) -> (r: Option<WranglerArgv>)
        ensures
            self.spec_running() <==> r is Some,
            r matches Some(a) ==> a@ == self.plan()[self.position() as int],
    {
        proof {
            use_type_invariant(self);
        }
        if self.failure.is_some() || self.next >= self.steps.len() {
            None
        } else {
            let a = self.steps[self.next].duplicate();
            Some(a)
        }
    }

    /// Records the result of running the pending command line, or the error
    /// that kept it from running or its output from being forwarded.
    pub fn record(&mut self, event: Result<InvocationResult, ApplyError>)
        requires
            old(self).spec_running(),
        ensures
            Self::records(old(self), event, final(self)),
    {
        proof {
            use_type_invariant(&*self);
        }
        match event {
            Err(e) => {
                self.failure = Some(e);
            },
            Ok(result) => {
                if result.classification() == Classification::HardFailure {
                    self.failure = Some(ApplyError::from_invocation(result));
                } else {
                    assert(self.plan().len() == self.steps@.len());
                    assert(self.next < self.steps.len());
                    self.next = self.next + 1;
                }
            },
        }
    }

    /// The outcome of a finished run: the error that stopped it, or success.
    pub fn into_outcome(self) -> (r: Result<ApplyOutcome, ApplyError>)
        requires
            self.spec_finished(),
        ensures
            match self.failure() {
                Some(e) => r == Err::<ApplyOutcome, ApplyError>(e),
                None => r matches Ok(o) && o.spec_exit_code() == 0,
            },
    {
        match self.failure {
            Some(e) => Err(e),
            None => Ok(ApplyOutcome::success()),
        }
    }
}

/// A run's plan holds the project's command line first, then one command
/// line per bound domain, in the order of the domain requests.
pub proof fn plan_is_project_then_domains(c: Configuration)
    ensures
        plan_of(c@).len() == 1 + bound_domains(c@).len(),
        plan_of(c@)[0] == project_argv(project_request_of(c@)),
        forall|i: int|
            0 <= i < bound_domains(c@).len() ==> #[trigger] plan_of(c@)[1 + i] == domain_argv(
                domain_request_of(c@, bound_domains(c@)[i]),
            ),
{
    assert forall|i: int| 0 <= i < bound_domains(c@).len() implies #[trigger] plan_of(c@)[1 + i]
        == domain_argv(domain_request_of(c@, bound_domains(c@)[i])) by {
        assert(plan_of(c@)[1 + i] == domain_plan_of(c@)[i]);
    }
}

/// Recording a hard failure stops the run: it is finished, nothing more is
/// pending, and the error carries the failing result.
pub proof fn hard_failure_stops_run(pre: Apply, result: InvocationResult, post: Apply)
    requires
        Apply::records(&pre, Ok(result), &post),
        !result.spec_success(),
        !reports_existing_state(result.spec_lowered_output()),
    ensures
        post.spec_finished(),
        post.position() == pre.position(),
        post.failure() == Some(ApplyError::Invocation { result }),
{
}

/// An I/O error stops the run, and its exit code is 1.
pub proof fn io_error_stops_run(pre: Apply, message: String, post: Apply)
    requires
        Apply::records(&pre, Err(ApplyError::Io { message }), &post),
    ensures
        post.spec_finished(),
        post.failure() matches Some(e) && e.spec_exit_code() == 1,
{
}

/// A success or an idempotent failure passes the step: the run moves on to
/// the next command line, or is done after the last.
pub proof fn passing_step_advances(pre: Apply, result: InvocationResult, post: Apply)
    requires
        Apply::records(&pre, Ok(result), &post),
        result.spec_success() || result.spec_idempotent_failure(),
    ensures
        post.failure() is None,
        post.position() == pre.position() + 1,
        post.spec_finished() <==> post.position() >= post.plan().len(),
{
}

/// A run stopped by a hard failure exits with the failing step's exit code.
pub proof fn hard_failure_exit_code(pre: Apply, result: InvocationResult, post: Apply)
    requires
        Apply::records(&pre, Ok(result), &post),
        result.spec_classification() == Classification::HardFailure,
    ensures
        post.failure() matches Some(e) && e.spec_exit_code() == result.spec_exit_code(),
{
}

/// A result that lets the run go on: a success or an idempotent failure.
pub open spec fn passes(r: InvocationResult) -> bool {
    r.spec_classification() != Classification::HardFailure
}

/// `states` are the states a run goes through when the tool answers its
/// pending command lines with `results`, in turn.
pub open spec fn is_trace(states: Seq<Apply>, results: Seq<InvocationResult>) -> bool {
    &&& states.len() == results.len() + 1
    &&& forall|j: int|
        0 <= j < results.len() ==> states[j].spec_running() && Apply::records(
            &states[j],
            Ok(#[trigger] results[j]),
            &states[j + 1],
        )
}

/// A run of `c` that has not started.
pub open spec fn is_fresh_run(a: Apply, c: Configuration) -> bool {
    &&& a.plan() == plan_of(c@)
    &&& a.position() == 0
    &&& a.failure() is None
}

proof fn trace_through_passing_prefix(
    states: Seq<Apply>,
    results: Seq<InvocationResult>,
    j: int,
)
    requires
        is_trace(states, results),
        states[0].position() == 0,
        states[0].failure() is None,
        0 <= j <= results.len(),
        forall|i: int| 0 <= i < j ==> passes(#[trigger] results[i]),
    ensures
        states[j].position() == j,
        states[j].failure() is None,
        states[j].plan() == states[0].plan(),
    decreases j,
{
    if j > 0 {
        trace_through_passing_prefix(states, results, j - 1);
        assert(Apply::records(&states[j - 1], Ok(results[j - 1]), &states[j]));
        assert(passes(results[j - 1]));
    }
}

/// The run stops at the first hard failure: when the first `k` steps pass and
/// step `k` fails hard, step `j` ran the `j`-th command line of the plan for
/// every `j <= k`, the run is then finished so that no later step is tried,
/// and its error carries the failing result.
pub proof fn run_stops_at_first_hard_failure(
    c: Configuration,
    states: Seq<Apply>,
    results: Seq<InvocationResult>,
)
    requires
        is_trace(states, results),
        is_fresh_run(states[0], c),
        results.len() >= 1,
        forall|i: int| 0 <= i < results.len() - 1 ==> passes(#[trigger] results[i]),
        !passes(results.last()),
    ensures
        forall|j: int|
            0 <= j < results.len() ==> (#[trigger] states[j]).position() == j && states[j].plan()
                == plan_of(c@),
        states.last().spec_finished(),
        states.last().failure() == Some(ApplyError::Invocation { result: results.last() }),
        states.last().failure() matches Some(e) && e.spec_exit_code()
            == results.last().spec_exit_code(),
        states.last().position() == results.len() - 1,
        states.last().plan() == plan_of(c@),
{
    let k = results.len() - 1;
    assert forall|j: int| 0 <= j < results.len() implies (#[trigger] states[j]).position() == j
        && states[j].plan() == plan_of(c@) by {
        trace_through_passing_prefix(states, results, j);
    }
    trace_through_passing_prefix(states, results, k);
    assert(Apply::records(&states[k], Ok(results[k]), &states[k + 1]));
}

/// A run whose every step passes, a success or an idempotent failure (a
/// project that already exists, say), runs every command line of the plan in
/// order and ends finished with no error.
pub proof fn passing_run_succeeds(
    c: Configuration,
    states: Seq<Apply>,
    results: Seq<InvocationResult>,
)
    requires
        is_trace(states, results),
        is_fresh_run(states[0], c),
        results.len() == plan_of(c@).len(),
        forall|i: int|
            0 <= i < results.len() ==> (#[trigger] results[i]).spec_success()
                || results[i].spec_idempotent_failure(),
    ensures
        forall|j: int|
            0 <= j < results.len() ==> (#[trigger] states[j]).position() == j && states[j].plan()
                == plan_of(c@),
        states.last().spec_finished(),
        states.last().failure() is None,
{
    assert forall|i: int| 0 <= i < results.len() implies passes(#[trigger] results[i]) by {
        assert(results[i].spec_success() || results[i].spec_idempotent_failure());
    }
    assert forall|j: int| 0 <= j < results.len() implies (#[trigger] states[j]).position() == j
        && states[j].plan() == plan_of(c@) by {
        trace_through_passing_prefix(states, results, j);
    }
    trace_through_passing_prefix(states, results, results.len() as int);
}

} // verus!
