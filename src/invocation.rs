use vstd::prelude::*;
use vstd::string::StringExecFns;

use crate::configuration::{opt_view, DomainRequest, DomainRequestView, ProjectRequest, ProjectRequestView};

verus! {

/// The flag that scopes a command to an account, when one is given.
pub open spec fn account_flag(account_id: Option<Seq<char>>) -> Seq<Seq<char>> {
    match account_id {
        Some(id) => seq!["--account-id="@ + id],
        None => Seq::empty(),
    }
}

/// The arguments that create the project.
pub open spec fn project_argv(r: ProjectRequestView) -> Seq<Seq<char>> {
    seq![
        "pages"@,
        "project"@,
        "create"@,
        r.project_name,
        "--production-branch="@ + r.production_branch,
        "--source=github"@,
        "--repo="@ + r.owner + "/"@ + r.repository,
        "--build-command="@ + r.build_command,
        "--build-output="@ + r.build_output_directory,
    ] + account_flag(r.account_id)
}

/// The arguments that bind a domain to the project.
pub open spec fn domain_argv(r: DomainRequestView) -> Seq<Seq<char>> {
    seq!["pages"@, "domain"@, "add"@, r.project_name, r.domain] + account_flag(r.account_id)
}

/// The argument vector of one invocation of the provider tool.
#[derive(Debug, Clone)]
pub struct WranglerArgv {
    argv: Vec<String>,
}

impl View for WranglerArgv {
    type V = Seq<Seq<char>>;

    closed spec fn view(&self) -> Seq<Seq<char>> {
        self.argv@.map_values(|a: String| a@)
    }
}

fn flag(name: &str, value: &str) -> (r: String)
    ensures
        r@ == name@ + value@,
{
    name.to_owned().concat(value)
}

fn push_account_flag(argv: &mut Vec<String>, account_id: Option<String>)
    ensures
        final(argv)@.map_values(|a: String| a@) == old(argv)@.map_values(|a: String| a@)
            + account_flag(opt_view(account_id)),
{
    let ghost before = old(argv)@;
    if let Some(account_id) = account_id {
        argv.push(flag("--account-id=", account_id.as_str()));
        assert(argv@.map_values(|a: String| a@) =~= before.map_values(|a: String| a@)
            + account_flag(opt_view(Some(account_id))));
    } else {
        assert(argv@.map_values(|a: String| a@) =~= before.map_values(|a: String| a@));
    }
}

impl WranglerArgv {
    /// The command line that creates the project of `request`.
    pub fn from_project(request: ProjectRequest) -> (r: Self)
        ensures
            r@ == project_argv(request@),
    {
        let ghost req = request@;
        let mut argv: Vec<String> = Vec::new();
        argv.push("pages".to_owned());
        argv.push("project".to_owned());
        argv.push("create".to_owned());
        argv.push(request.project_name);
        argv.push(flag("--production-branch=", request.production_branch.as_str()));
        argv.push("--source=github".to_owned());
        let repo = flag("--repo=", request.owner.as_str()).concat("/").concat(
            request.repository.as_str(),
        );
        argv.push(repo);
        argv.push(flag("--build-command=", request.build_command.as_str()));
        argv.push(flag("--build-output=", request.build_output_directory.as_str()));
        let ghost head = argv@;
        assert(head.map_values(|a: String| a@) =~= project_argv(req).subrange(0, 9));
        push_account_flag(&mut argv, request.account_id);
        let r = Self { argv };
        assert(r@ =~= project_argv(req));
        r
    }

    /// The command line that binds the domain of `request`.
    pub fn from_domain(request: DomainRequest) -> (r: Self)
        ensures
            r@ == domain_argv(request@),
    {
        let ghost req = request@;
        let mut argv: Vec<String> = Vec::new();
        argv.push("pages".to_owned());
        argv.push("domain".to_owned());
        argv.push("add".to_owned());
        argv.push(request.project_name);
        argv.push(request.domain);
        let ghost head = argv@;
        assert(head.map_values(|a: String| a@) =~= domain_argv(req).subrange(0, 5));
        push_account_flag(&mut argv, request.account_id);
        let r = Self { argv };
        assert(r@ =~= domain_argv(req));
        r
    }

    /// A copy with the same arguments.
    pub fn duplicate(&self) -> (r: Self)
        ensures
            r@ == self@,
    {
        let mut argv: Vec<String> = Vec::new();
        let mut i: usize = 0;
        while i < self.argv.len()
            invariant
                i <= self.argv@.len(),
                argv@.len() == i,
                forall|k: int| 0 <= k < i ==> #[trigger] argv@[k]@ == self.argv@[k]@,
            decreases self.argv@.len() - i,
        {
            argv.push(self.argv[i].clone());
            i = i + 1;
        }
        let r = Self { argv };
        assert(r@ =~= self@);
        r
    }

    /// The arguments, in order.
    pub fn into_args(self) -> (r: Vec<String>)
        ensures
            r@.map_values(|a: String| a@) == self@,
    {
        self.argv
    }
}

/// The text of a byte sequence with invalid UTF-8 replaced, as `String::from_utf8_lossy` gives it.
pub uninterp spec fn lossy_text_of(b: Seq<u8>) -> Seq<char>;

/// The lowercase form of a text, as `str::to_lowercase` gives it.
pub uninterp spec fn lowercase_of(s: Seq<char>) -> Seq<char>;

/// `needle` occurs in `haystack` as a contiguous run.
pub open spec fn has_substring(haystack: Seq<char>, needle: Seq<char>) -> bool {
    exists|i: int|
        0 <= i && i + needle.len() <= haystack.len() && #[trigger] haystack.subrange(
            i,
            i + needle.len(),
        ) == needle
}

/// Relies on `String::from_utf8_lossy`: the text depends on the bytes alone.
#[verifier::external_body]
fn lossy_text(b: &[u8]) -> (r: String)
    ensures
        r@ == lossy_text_of(b@),
{
    String::from_utf8_lossy(b).to_string()
}

/// Relies on `str::to_lowercase`: the result depends on the characters alone.
#[verifier::external_body]
fn lowercase(s: &str) -> (r: String)
    ensures
        r@ == lowercase_of(s@),
{
    s.to_lowercase()
}

/// Relies on `str::contains` with a `&str` pattern: true when the pattern
/// matches a sub-slice of the text.
#[verifier::external_body]
fn text_contains(haystack: &str, needle: &str) -> (r: bool)
    ensures
        r == has_substring(haystack@, needle@),
{
    haystack.contains(needle)
}

/// Tool output that says the target state already exists.
pub open spec fn reports_existing_state(lowered: Seq<char>) -> bool {
    has_substring(lowered, "already exists"@) || has_substring(lowered, "already added"@)
        || has_substring(lowered, "already bound"@) || has_substring(lowered, "already associated"@)
}

/// Whether lowercased tool output holds one of the phrases that mean
/// "already in the desired state".
pub fn mentions_existing_state(lowered: &str) -> (r: bool)
    ensures
        r == reports_existing_state(lowered@),
{
    text_contains(lowered, "already exists") || text_contains(lowered, "already added")
        || text_contains(lowered, "already bound") || text_contains(lowered, "already associated")
}

/// How one invocation of the provider tool ended, for orchestration.
#[derive(Debug, Clone, Copy, PartialEq, Eq, Structural)]
pub enum Classification {
    Success,
    IdempotentFailure,
    HardFailure,
}

/// What one run of the provider tool produced: its exit code (`None` when the
/// process ended without one, as on a signal) and its captured output.
#[derive(Debug, Clone)]
pub struct InvocationResult {
    status: Option<i32>,
    stdout: Vec<u8>,
    stderr: Vec<u8>,
}

impl InvocationResult {
    pub closed spec fn spec_status(&self) -> Option<i32> {
        self.status
    }

    pub closed spec fn spec_stdout(&self) -> Seq<u8> {
        self.stdout@
    }

    pub closed spec fn spec_stderr(&self) -> Seq<u8> {
        self.stderr@
    }

    /// The run succeeded: it exited with code zero.
    pub open spec fn spec_success(&self) -> bool {
        self.spec_status() == Some(0i32)
    }

    /// The lowercased text of stdout followed by stderr.
    pub open spec fn spec_lowered_output(&self) -> Seq<char> {
        lowercase_of(lossy_text_of(self.spec_stdout() + self.spec_stderr()))
    }

    pub open spec fn spec_idempotent_failure(&self) -> bool {
        !self.spec_success() && reports_existing_state(self.spec_lowered_output())
    }

    pub open spec fn spec_classification(&self) -> Classification {
        if self.spec_success() {
            Classification::Success
        } else if reports_existing_state(self.spec_lowered_output()) {
            Classification::IdempotentFailure
        } else {
            Classification::HardFailure
        }
    }

    pub open spec fn spec_exit_code(&self) -> i32 {
        match self.spec_status() {
            Some(code) => code,
            None => 1,
        }
    }

    /// A result from the exit code and the captured output of a finished process.
    pub fn from_output(status: Option<i32>, stdout: Vec<u8>, stderr: Vec<u8>) -> (r: Self)
        ensures
            r.spec_status() == status,
            r.spec_stdout() == stdout@,
            r.spec_stderr() == stderr@,
    {
        Self { status, stdout, stderr }
    }

    pub fn is_success(&self) -> (r: bool)
        ensures
            r == self.spec_success(),
    {
        match self.status {
            Some(code) => code == 0,
            None => false,
        }
    }

    /// The run failed, and its output says that the target state already exists.
    pub fn is_idempotent_failure(&self) -> (r: bool)
        ensures
            r == self.spec_idempotent_failure(),
    {
        if self.is_success() {
            return false;
        }
        let text = self.output_text();
        let lowered = lowercase(text.as_str());
        mentions_existing_state(lowered.as_str())
    }

    pub fn classification(&self) -> (r: Classification)
        ensures
            r == self.spec_classification(),
    {
        if self.is_success() {
            Classification::Success
        } else if self.is_idempotent_failure() {
            Classification::IdempotentFailure
        } else {
            Classification::HardFailure
        }
    }

    pub fn stdout(&self) -> (r: &[u8])
        ensures
            r@ == self.spec_stdout(),
    {
        self.stdout.as_slice()
    }

    pub fn stderr(&self) -> (r: &[u8])
        ensures
            r@ == self.spec_stderr(),
    {
        self.stderr.as_slice()
    }

    /// The process's exit code, or 1 where it had none.
    pub fn exit_code(&self) -> (r: i32)
        ensures
            r == self.spec_exit_code(),
    {
        match self.status {
            Some(code) => code,
            None => 1,
        }
    }

    fn output_text(&self) -> (r: String)
        ensures
            r@ == lossy_text_of(self.spec_stdout() + self.spec_stderr()),
    {
        let mut combined: Vec<u8> = Vec::new();
        let mut i: usize = 0;
        while i < self.stdout.len()
            invariant
                i <= self.stdout@.len(),
                combined@ == self.stdout@.subrange(0, i as int),
            decreases self.stdout@.len() - i,
        {
            combined.push(self.stdout[i]);
            i = i + 1;
            assert(combined@ =~= self.stdout@.subrange(0, i as int));
        }
        let mut j: usize = 0;
        while j < self.stderr.len()
            invariant
                j <= self.stderr@.len(),
                combined@ == self.stdout@ + self.stderr@.subrange(0, j as int),
            decreases self.stderr@.len() - j,
        {
            combined.push(self.stderr[j]);
            j = j + 1;
            assert(combined@ =~= self.stdout@ + self.stderr@.subrange(0, j as int));
        }
        assert(combined@ =~= self.stdout@ + self.stderr@);
        lossy_text(combined.as_slice())
    }
}

/// A failed run whose output holds "already exists", in any case once
/// lowered, is an idempotent failure.
pub proof fn already_exists_is_idempotent(r: InvocationResult)
    requires
        !r.spec_success(),
        has_substring(r.spec_lowered_output(), "already exists"@),
    ensures
        r.spec_classification() == Classification::IdempotentFailure,
        r.spec_idempotent_failure(),
{
}

/// A failed run whose output holds none of the recognised phrases is a hard failure.
pub proof fn unrecognised_failure_is_hard(r: InvocationResult)
    requires
        !r.spec_success(),
        !reports_existing_state(r.spec_lowered_output()),
    ensures
        r.spec_classification() == Classification::HardFailure,
{
}

} // verus!
