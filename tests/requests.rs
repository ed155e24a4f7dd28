use webpublish::{
    Configuration, ConfigurationError, DomainBindings, Pages, SiteIdentity, Source, TaggedText,
    WranglerArgv,
};

fn configuration(
    account_id: Option<&str>,
    primary_domain: Option<&str>,
    alternates: &[&str],
) -> Configuration {
    Configuration {
        site: SiteIdentity { stable_id: "site-1".to_string(), display_name: "Site".to_string() },
        source: Source { owner: "acme".to_string(), repository: "web".to_string() },
        pages: Pages {
            project_name: "acme-web".to_string(),
            production_branch: "main".to_string(),
            account_id: account_id.map(|a| a.to_string()),
            build_command: "make site".to_string(),
            build_output_directory: "public".to_string(),
        },
        domains: DomainBindings {
            primary_domain: primary_domain.map(|d| d.to_string()),
            alternate_domains: alternates.iter().map(|d| d.to_string()).collect(),
        },
    }
}

#[test]
fn domain_requests_primary_first_then_alternates() {
    let c = configuration(Some("acct"), Some("acme.org"), &["www.acme.org", "acme.net"]);
    let requests = c.domain_request_list().into_requests();
    let domains: Vec<&str> = requests.iter().map(|r| r.domain.as_str()).collect();
    assert_eq!(domains, vec!["acme.org", "www.acme.org", "acme.net"]);
    for r in &requests {
        assert_eq!(r.project_name, "acme-web");
        assert_eq!(r.account_id.as_deref(), Some("acct"));
    }
}

#[test]
fn domain_requests_without_primary() {
    let c = configuration(None, None, &["b.org", "a.org"]);
    let requests = c.domain_request_list().into_requests();
    let domains: Vec<&str> = requests.iter().map(|r| r.domain.as_str()).collect();
    assert_eq!(domains, vec!["b.org", "a.org"]);
    assert_eq!(requests[0].account_id, None);
}

#[test]
fn domain_requests_empty_when_no_domains() {
    let c = configuration(None, None, &[]);
    assert!(c.domain_request_list().into_requests().is_empty());
}

#[test]
fn domain_requests_primary_only() {
    let c = configuration(None, Some(""), &[]);
    let requests = c.domain_request_list().into_requests();
    assert_eq!(requests.len(), 1);
    assert_eq!(requests[0].domain, "");
}

#[test]
fn project_request_copies_fields_and_is_deterministic() {
    let c = configuration(Some("acct"), None, &[]);
    let a = c.project_request();
    let b = c.project_request();
    for r in [&a, &b] {
        assert_eq!(r.project_name, "acme-web");
        assert_eq!(r.production_branch, "main");
        assert_eq!(r.owner, "acme");
        assert_eq!(r.repository, "web");
        assert_eq!(r.build_command, "make site");
        assert_eq!(r.build_output_directory, "public");
        assert_eq!(r.account_id.as_deref(), Some("acct"));
    }
}

#[test]
fn project_argv_with_account() {
    let c = configuration(Some("acct"), None, &[]);
    let args = WranglerArgv::from_project(c.project_request()).into_args();
    assert_eq!(
        args,
        vec![
            "pages",
            "project",
            "create",
            "acme-web",
            "--production-branch=main",
            "--source=github",
            "--repo=acme/web",
            "--build-command=make site",
            "--build-output=public",
            "--account-id=acct",
        ]
    );
}

#[test]
fn project_argv_without_account() {
    let c = configuration(None, None, &[]);
    let args = WranglerArgv::from_project(c.project_request()).into_args();
    assert_eq!(args.len(), 9);
    assert_eq!(args[8], "--build-output=public");
}

#[test]
fn domain_argv_with_and_without_account() {
    let c = configuration(Some("acct"), Some("acme.org"), &[]);
    let request = c.domain_request_list().into_requests().remove(0);
    let args = WranglerArgv::from_domain(request).into_args();
    assert_eq!(args, vec!["pages", "domain", "add", "acme-web", "acme.org", "--account-id=acct"]);
    let c = configuration(None, Some("acme.org"), &[]);
    let request = c.domain_request_list().into_requests().remove(0);
    let args = WranglerArgv::from_domain(request).into_args();
    assert_eq!(args, vec!["pages", "domain", "add", "acme-web", "acme.org"]);
}

#[test]
fn argv_duplicate_keeps_arguments() {
    let c = configuration(None, None, &[]);
    let argv = WranglerArgv::from_project(c.project_request());
    assert_eq!(argv.duplicate().into_args(), argv.into_args());
}

#[test]
fn tagged_text_keeps_empty_value_present() {
    assert_eq!(TaggedText::Absent.into_option(), None);
    assert_eq!(TaggedText::Value(String::new()).into_option(), Some(String::new()));
    assert_eq!(TaggedText::Value("x".to_string()).into_option(), Some("x".to_string()));
}

#[test]
fn configuration_errors_keep_message() {
    match ConfigurationError::from_decode("truncated".to_string()) {
        ConfigurationError::Decode { message } => assert_eq!(message, "truncated"),
        other => panic!("unexpected {other:?}"),
    }
    match ConfigurationError::from_root("bad root".to_string()) {
        ConfigurationError::Root { message } => assert_eq!(message, "bad root"),
        other => panic!("unexpected {other:?}"),
    }
}
