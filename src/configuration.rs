use vstd::prelude::*;

verus! {

/// The abstract value of an optional string field.
pub open spec fn opt_view(o: Option<String>) -> Option<Seq<char>> {
    match o {
        Some(s) => Some(s@),
        None => None,
    }
}

/// Copies an optional string, keeping presence and contents.
pub fn clone_opt(o: &Option<String>) -> (r: Option<String>)
    ensures
        opt_view(r) == opt_view(*o),
{
    match o {
        Some(s) => Some(s.clone()),
        None => None,
    }
}

/// The complete desired hosting state of one site.
#[derive(Debug, Clone)]
pub struct Configuration {
    pub site: SiteIdentity,
    pub source: Source,
    pub pages: Pages,
    pub domains: DomainBindings,
}

#[derive(Debug, Clone)]
pub struct SiteIdentity {
    pub stable_id: String,
    pub display_name: String,
}

#[derive(Debug, Clone)]
pub struct Source {
    pub owner: String,
    pub repository: String,
}

#[derive(Debug, Clone)]
pub struct Pages {
    pub project_name: String,
    pub production_branch: String,
    pub account_id: Option<String>,
    pub build_command: String,
    pub build_output_directory: String,
}

#[derive(Debug, Clone)]
pub struct DomainBindings {
    pub primary_domain: Option<String>,
    pub alternate_domains: Vec<String>,
}

/// A configuration as plain sequences of characters.
pub struct ConfigurationView {
    pub stable_id: Seq<char>,
    pub display_name: Seq<char>,
    pub owner: Seq<char>,
    pub repository: Seq<char>,
    pub project_name: Seq<char>,
    pub production_branch: Seq<char>,
    pub account_id: Option<Seq<char>>,
    pub build_command: Seq<char>,
    pub build_output_directory: Seq<char>,
    pub primary_domain: Option<Seq<char>>,
    pub alternate_domains: Seq<Seq<char>>,
}

impl View for Configuration {
    type V = ConfigurationView;

    open spec fn view(&self) -> ConfigurationView {
        ConfigurationView {
            stable_id: self.site.stable_id@,
            display_name: self.site.display_name@,
            owner: self.source.owner@,
            repository: self.source.repository@,
            project_name: self.pages.project_name@,
            production_branch: self.pages.production_branch@,
            account_id: opt_view(self.pages.account_id),
            build_command: self.pages.build_command@,
            build_output_directory: self.pages.build_output_directory@,
            primary_domain: opt_view(self.domains.primary_domain),
            alternate_domains: self.domains.alternate_domains@.map_values(|d: String| d@),
        }
    }
}

/// The request that creates the hosting project.
#[derive(Debug, Clone)]
pub struct ProjectRequest {
    pub project_name: String,
    pub production_branch: String,
    pub owner: String,
    pub repository: String,
    pub build_command: String,
    pub build_output_directory: String,
    pub account_id: Option<String>,
}

pub struct ProjectRequestView {
    pub project_name: Seq<char>,
    pub production_branch: Seq<char>,
    pub owner: Seq<char>,
    pub repository: Seq<char>,
    pub build_command: Seq<char>,
    pub build_output_directory: Seq<char>,
    pub account_id: Option<Seq<char>>,
}

impl View for ProjectRequest {
    type V = ProjectRequestView;

    open spec fn view(&self) -> ProjectRequestView {
        ProjectRequestView {
            project_name: self.project_name@,
            production_branch: self.production_branch@,
            owner: self.owner@,
            repository: self.repository@,
            build_command: self.build_command@,
            build_output_directory: self.build_output_directory@,
            account_id: opt_view(self.account_id),
        }
    }
}

/// The request that binds one custom domain to the project.
#[derive(Debug, Clone)]
pub struct DomainRequest {
    pub project_name: String,
    pub domain: String,
    pub account_id: Option<String>,
}

pub struct DomainRequestView {
    pub project_name: Seq<char>,
    pub domain: Seq<char>,
    pub account_id: Option<Seq<char>>,
}

impl View for DomainRequest {
    type V = DomainRequestView;

    open spec fn view(&self) -> DomainRequestView {
        DomainRequestView {
            project_name: self.project_name@,
            domain: self.domain@,
            account_id: opt_view(self.account_id),
        }
    }
}

/// The domain requests in the order in which they are applied.
#[derive(Debug, Clone)]
pub struct DomainRequestList {
    requests: Vec<DomainRequest>,
}

impl View for DomainRequestList {
    type V = Seq<DomainRequestView>;

    closed spec fn view(&self) -> Seq<DomainRequestView> {
        self.requests@.map_values(|r: DomainRequest| r@)
    }
}

/// The project request that a configuration determines.
pub open spec fn project_request_of(c: ConfigurationView) -> ProjectRequestView {
    ProjectRequestView {
        project_name: c.project_name,
        production_branch: c.production_branch,
        owner: c.owner,
        repository: c.repository,
        build_command: c.build_command,
        build_output_directory: c.build_output_directory,
        account_id: c.account_id,
    }
}

/// The primary domain as a sequence of at most one domain.
pub open spec fn primary_prefix(p: Option<Seq<char>>) -> Seq<Seq<char>> {
    match p {
        Some(d) => seq![d],
        None => Seq::empty(),
    }
}

/// The bound domains: the primary one first, if present, then the alternates in order.
pub open spec fn bound_domains(c: ConfigurationView) -> Seq<Seq<char>> {
    primary_prefix(c.primary_domain) + c.alternate_domains
}

/// The request that binds domain `d` under configuration `c`.
pub open spec fn domain_request_of(c: ConfigurationView, d: Seq<char>) -> DomainRequestView {
    DomainRequestView { project_name: c.project_name, domain: d, account_id: c.account_id }
}

/// The domain requests that a configuration determines, in application order.
pub open spec fn domain_requests_of(c: ConfigurationView) -> Seq<DomainRequestView> {
    bound_domains(c).map_values(|d: Seq<char>| domain_request_of(c, d))
}

fn domain_request(pages: &Pages, domain: String) -> (r: DomainRequest)
    ensures
        r@.project_name == pages.project_name@,
        r@.domain == domain@,
        r@.account_id == opt_view(pages.account_id),
{
    DomainRequest {
        project_name: pages.project_name.clone(),
        domain,
        account_id: clone_opt(&pages.account_id),
    }
}

impl Configuration {
    /// The request that creates the project, a copy of the fields it needs.
    pub fn project_request(&self) -> (r: ProjectRequest)
        ensures
            r@ == project_request_of(self@),
    {
        ProjectRequest {
            project_name: self.pages.project_name.clone(),
            production_branch: self.pages.production_branch.clone(),
            owner: self.source.owner.clone(),
            repository: self.source.repository.clone(),
            build_command: self.pages.build_command.clone(),
            build_output_directory: self.pages.build_output_directory.clone(),
            account_id: clone_opt(&self.pages.account_id),
        }
    }

    /// One request per bound domain: the primary domain first, then the alternates in order.
    pub fn domain_request_list(&self) -> (r: DomainRequestList)
        ensures
            r@ == domain_requests_of(self@),
    {
        let mut requests: Vec<DomainRequest> = Vec::new();
        let ghost head: Seq<Seq<char>> = primary_prefix(self@.primary_domain);
        if let Some(primary_domain) = clone_opt(&self.domains.primary_domain) {
            requests.push(domain_request(&self.pages, primary_domain));
        }
        let mut i: usize = 0;
        while i < self.domains.alternate_domains.len()
            invariant
                i <= self.domains.alternate_domains@.len(),
                requests@.len() == head.len() + i,
                forall|k: int|
                    0 <= k < requests@.len() ==> #[trigger] requests@[k]@ == domain_request_of(
                        self@,
                        bound_domains(self@)[k],
                    ),
                bound_domains(self@) == head + self@.alternate_domains,
                self@.alternate_domains.len() == self.domains.alternate_domains@.len(),
            decreases self.domains.alternate_domains@.len() - i,
        {
            let ghost before = requests@;
            requests.push(domain_request(&self.pages, self.domains.alternate_domains[i].clone()));
            assert(bound_domains(self@)[head.len() + i] == self@.alternate_domains[i as int]);
            assert(self@.alternate_domains[i as int] == self.domains.alternate_domains@[i as int]@);
            assert(forall|k: int| 0 <= k < before.len() ==> requests@[k] == before[k]);
            i = i + 1;
        }
        let r = DomainRequestList { requests };
        assert(r@ =~= domain_requests_of(self@));
        r
    }
}

impl DomainRequest {
    /// A copy with the same fields.
    pub fn duplicate(&self) -> (r: Self)
        ensures
            r@ == self@,
    {
        DomainRequest {
            project_name: self.project_name.clone(),
            domain: self.domain.clone(),
            account_id: clone_opt(&self.account_id),
        }
    }
}

impl DomainRequestList {
    /// The requests, in application order.
    pub fn into_requests(self) -> (r: Vec<DomainRequest>)
        ensures
            r@.map_values(|d: DomainRequest| d@) == self@,
    {
        self.requests
    }
}

/// An optional text field as the message carries it: explicitly absent, or
/// present with a value, which may be empty.
#[derive(Debug, Clone)]
pub enum TaggedText {
    Absent,
    Value(String),
}

impl TaggedText {
    /// `None` for an absent field, the value otherwise; an empty value stays present.
    pub fn into_option(self) -> (r: Option<String>)
        ensures
            opt_view(r) == match self {
                TaggedText::Absent => None,
                TaggedText::Value(s) => Some(s@),
            },
            r is Some <==> self is Value,
    {
        match self {
            TaggedText::Absent => None,
            TaggedText::Value(s) => Some(s),
        }
    }
}

/// Why a message could not be turned into a configuration.
#[derive(Debug)]
pub enum ConfigurationError {
    Decode { message: String },
    Root { message: String },
}

impl ConfigurationError {
    pub fn from_decode(message: String) -> (r: Self)
        ensures
            r == (ConfigurationError::Decode { message }),
    {
        Self::Decode { message }
    }

    pub fn from_root(message: String) -> (r: Self)
        ensures
            r == (ConfigurationError::Root { message }),
    {
        Self::Root { message }
    }
}

/// The domain request list has one request per bound domain, the primary
/// domain's first when there is one, then the alternates in their order.
pub proof fn domain_request_count_and_order(c: Configuration)
    ensures
        domain_requests_of(c@).len() == (if c@.primary_domain is Some { 1int } else { 0int })
            + c@.alternate_domains.len(),
        c@.primary_domain is Some ==> domain_requests_of(c@)[0].domain
            == c@.primary_domain->0,
        forall|i: int|
            0 <= i < c@.alternate_domains.len() ==> domain_requests_of(c@)[i + primary_prefix(
                c@.primary_domain,
            ).len()].domain == #[trigger] c@.alternate_domains[i],
        forall|i: int|
            0 <= i < domain_requests_of(c@).len() ==> #[trigger] domain_requests_of(c@)[i].project_name
                == c@.project_name && domain_requests_of(c@)[i].account_id == c@.account_id,
{
}

/// Building the project request is deterministic: configurations with the
/// same contents give requests with the same fields.
pub proof fn project_request_is_deterministic(a: Configuration, b: Configuration)
    requires
        a@ == b@,
    ensures
        project_request_of(a@) == project_request_of(b@),
        project_request_of(a@).project_name == a@.project_name,
        project_request_of(a@).owner == a@.owner,
        project_request_of(a@).repository == a@.repository,
        project_request_of(a@).account_id == a@.account_id,
{
}

} // verus!
