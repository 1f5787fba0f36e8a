use gitpub::announcement;
use gitpub::cli::Flags;
use gitpub::cli::Gitpo;
use gitpub::git::can_create_remote;
use gitpub::git::wire_remote;
use gitpub::git::RemoteWireError;
use gitpub::git::RemoteWireRequest;
use gitpub::handle_result;
use gitpub::headers::Headers;
use gitpub::next_step;
use gitpub::provider::azure::AzureArgs;
use gitpub::provider::bitbucket::BitbucketArgs;
use gitpub::provider::github::GithubArgs;
use gitpub::provider::gitlab::GitlabArgs;
use gitpub::provider::ConfigError;
use gitpub::provider::Tristate;
use gitpub::request::configure_request;
use gitpub::request::Method;
use gitpub::request::Request;
use gitpub::response::classify;
use gitpub::response::interpret;
use gitpub::response::ResponseOutcome;
use gitpub::response::Verdict;
use gitpub::run;
use gitpub::Event;
use gitpub::Failure;
use gitpub::Step;

fn hub() -> Gitpo<'static> {
    Gitpo::Github(GithubArgs {
        name: "demo",
        token: "abc",
        description: None,
        homepage: None,
        private: Tristate::Unspecified,
        has_issues: Tristate::Unspecified,
        has_projects: Tristate::Unspecified,
        has_wiki: Tristate::Unspecified,
        team_id: None,
        auto_init: Tristate::Unspecified,
        gitignore_template: None,
        license_template: None,
        allow_squash_merge: Tristate::Unspecified,
        allow_merge_commit: Tristate::Unspecified,
        allow_rebase_merge: Tristate::Unspecified,
        org: None,
    })
}

fn lab(name: Option<&'static str>) -> Gitpo<'static> {
    Gitpo::Gitlab(GitlabArgs {
        token: "glpat-1",
        username: Some("alice"),
        name,
        path: None,
        visibility: None,
        description: None,
        issues_enabled: Tristate::Unspecified,
        wiki_enabled: Tristate::Unspecified,
        namespace_id: None,
        merge_requests_enabled: Tristate::Unspecified,
        default_branch: None,
        jobs_enabled: Tristate::Unspecified,
        snippets_enabled: Tristate::Unspecified,
        container_registry_enabled: Tristate::Unspecified,
        shared_runners_enabled: Tristate::Unspecified,
        import_url: None,
        public_builds: Tristate::Unspecified,
        only_allow_merge_if_pipeline_succeeds: Tristate::Unspecified,
        only_allow_merge_if_all_discussions_are_resolved: Tristate::Unspecified,
        merge_method: None,
        lfs_enabled: Tristate::Unspecified,
        request_access_enabled: Tristate::Unspecified,
        tag_list: None,
        printing_merge_request_link_enabled: Tristate::Unspecified,
        ci_config_path: None,
        repository_storage: None,
        approvals_before_merge: None,
        mirror: Tristate::Unspecified,
        mirror_trigger_builds: Tristate::Unspecified,
        initialize_with_readme: Tristate::Unspecified,
    })
}

fn bucket() -> Gitpo<'static> {
    Gitpo::BitBucket(BitbucketArgs {
        name: "repo",
        token: "secret",
        username: "alice",
        description: None,
        is_private: Tristate::Unspecified,
        has_wiki: Tristate::Unspecified,
        has_issues: Tristate::Unspecified,
        fork_policy: None,
        scm: None,
        language: None,
    })
}

fn cloud(token: Option<&str>) -> Gitpo<'static> {
    Gitpo::Azure(AzureArgs {
        project: "proj".to_string(),
        azure_code_response: token.map(|t| t.to_string()),
        azure_app_secret: None,
        source_ref: None,
        team_id: None,
        org: "contoso".to_string(),
        custom_endpoint: None,
    })
}

fn bob() -> Headers {
    let mut headers = Headers::new();
    headers.insert("Location", "https://api.github.com/repos/bob/demo");
    headers
}

fn pair(name: &str, value: &str) -> (String, String) {
    (name.to_string(), value.to_string())
}

fn success(ssh_url: Option<&str>) -> ResponseOutcome {
    ResponseOutcome::Success {
        created_url: "https://example.org/r".to_string(),
        ssh_url: ssh_url.map(|u| u.to_string()),
    }
}

#[test]
fn flags_default_to_origin_and_no_remote() {
    let flags = Flags::new();
    assert_eq!(flags.endpoint, None);
    assert!(!flags.set_remote);
    assert_eq!(flags.remote_name, "origin");
    assert!(!flags.ssh_remote_format);
}

#[test]
fn request_for_github() {
    let request = configure_request(&hub(), &Flags::new()).unwrap();
    assert_eq!(
        request,
        Request {
            method: Method::Post,
            url: "https://api.github.com/user/repos".to_string(),
            body: r#"{"name":"demo"}"#.to_string(),
            headers: vec![
                pair("Content-Type", "application/json"),
                pair("Authorization", "token abc"),
            ],
        }
    );
}

#[test]
fn request_for_gitlab() {
    let request = configure_request(&lab(Some("myrepo")), &Flags::new()).unwrap();
    assert_eq!(request.method, Method::Post);
    assert_eq!(request.url, "https://gitlab.com/api/v4/projects");
    assert_eq!(request.body, r#"{"name":"myrepo"}"#);
    assert_eq!(
        request.headers,
        vec![pair("Content-Type", "application/json"), pair("Private-Token", "glpat-1")]
    );
}

#[test]
fn request_for_bitbucket() {
    let request = configure_request(&bucket(), &Flags::new()).unwrap();
    assert_eq!(request.url, "https://api.bitbucket.org/2.0/repositories/alice/repo");
    assert_eq!(request.body, r#"{"name":"repo"}"#);
    assert_eq!(
        request.headers,
        vec![
            pair("Content-Type", "application/json"),
            pair("Authorization", "Basic YWxpY2U6c2VjcmV0"),
        ]
    );
}

#[test]
fn request_for_azure() {
    let request = configure_request(&cloud(Some("tok")), &Flags::new()).unwrap();
    assert_eq!(
        request.url,
        "https://dev.azure.com/contoso/proj/_apis/git/repositories?api-version=5.0"
    );
    assert_eq!(request.body, r#"{"project":"proj"}"#);
    assert_eq!(
        request.headers,
        vec![pair("Content-Type", "application/json"), pair("Authorization", "Bearer tok")]
    );
}

#[test]
fn custom_endpoint_wins_for_every_provider() {
    let flags = Flags { endpoint: Some("https://git.example/api"), ..Flags::new() };
    for config in [hub(), lab(Some("x")), bucket(), cloud(Some("tok"))] {
        let custom = configure_request(&config, &flags).unwrap();
        let plain = configure_request(&config, &Flags::new()).unwrap();
        assert_eq!(custom.url, "https://git.example/api");
        assert_eq!(custom.body, plain.body);
        assert_eq!(custom.headers, plain.headers);
    }
}

#[test]
fn request_is_refused_without_name_or_token() {
    assert_eq!(configure_request(&lab(None), &Flags::new()), Err(ConfigError::MissingName));
    assert_eq!(configure_request(&cloud(None), &Flags::new()), Err(ConfigError::MissingToken));
}

#[test]
fn classify_reads_the_status_code() {
    assert_eq!(classify(200), Verdict::Success);
    assert_eq!(classify(201), Verdict::Success);
    assert_eq!(classify(400), Verdict::ValidationError);
    assert_eq!(classify(422), Verdict::ValidationError);
    assert_eq!(classify(401), Verdict::Unauthorized);
    for status in [0u16, 100, 199, 202, 204, 301, 399, 402, 403, 404, 418, 421, 423, 500, 65535] {
        assert_eq!(classify(status), Verdict::UnknownError);
    }
}

#[test]
fn interpret_is_the_same_for_every_provider() {
    for config in [hub(), lab(Some("x")), bucket()] {
        assert!(matches!(
            interpret(201, &Headers::new(), &config),
            ResponseOutcome::Success { .. }
        ));
        assert!(matches!(
            interpret(200, &Headers::new(), &config),
            ResponseOutcome::Success { .. }
        ));
    }
    for config in [hub(), lab(Some("x")), bucket(), cloud(Some("tok"))] {
        assert_eq!(interpret(422, &bob(), &config), ResponseOutcome::ValidationError);
        assert_eq!(interpret(400, &bob(), &config), ResponseOutcome::ValidationError);
        assert_eq!(interpret(401, &bob(), &config), ResponseOutcome::Unauthorized);
        assert_eq!(
            interpret(418, &bob(), &config),
            ResponseOutcome::UnknownError { status_code: 418 }
        );
        assert_eq!(
            interpret(500, &bob(), &config),
            ResponseOutcome::UnknownError { status_code: 500 }
        );
    }
}

#[test]
fn interpret_success_holds_the_providers_addresses() {
    assert_eq!(
        interpret(201, &bob(), &hub()),
        ResponseOutcome::Success {
            created_url: "https://github.com/bob/demo".to_string(),
            ssh_url: None
        }
    );
    assert_eq!(
        interpret(200, &bob(), &bucket()),
        ResponseOutcome::Success {
            created_url: "https://bitbucket.org/alice/repo".to_string(),
            ssh_url: Some("git@bitbucket.com:alice/repo.git".to_string()),
        }
    );
    assert_eq!(
        interpret(201, &bob(), &lab(Some("myrepo"))),
        ResponseOutcome::Success {
            created_url: "https://gitlab.com/alice/myrepo".to_string(),
            ssh_url: None
        }
    );
}

#[test]
fn no_remote_unless_asked_for() {
    let ssh = Flags { ssh_remote_format: true, ..Flags::new() };
    for flags in [Flags::new(), ssh] {
        for outcome in [
            success(None),
            success(Some("git@example.org:r.git")),
            ResponseOutcome::ValidationError,
            ResponseOutcome::Unauthorized,
            ResponseOutcome::UnknownError { status_code: 418 },
        ] {
            assert_eq!(wire_remote(&outcome, &flags), Ok(None));
        }
    }
}

#[test]
fn no_remote_after_a_rejection() {
    let flags = Flags { set_remote: true, ssh_remote_format: true, ..Flags::new() };
    for outcome in [
        ResponseOutcome::ValidationError,
        ResponseOutcome::Unauthorized,
        ResponseOutcome::UnknownError { status_code: 500 },
    ] {
        assert_eq!(wire_remote(&outcome, &flags), Ok(None));
    }
}

#[test]
fn remote_holds_the_page_by_default() {
    let flags = Flags { set_remote: true, remote_name: "upstream", ..Flags::new() };
    let expected = RemoteWireRequest {
        remote_name: "upstream".to_string(),
        url: "https://example.org/r".to_string(),
    };
    assert_eq!(wire_remote(&success(None), &flags), Ok(Some(expected.clone())));
    assert_eq!(wire_remote(&success(Some("git@example.org:r.git")), &flags), Ok(Some(expected)));
}

#[test]
fn remote_holds_the_ssh_address_when_asked() {
    let flags = Flags { set_remote: true, ssh_remote_format: true, ..Flags::new() };
    assert_eq!(
        wire_remote(&success(Some("git@example.org:r.git")), &flags),
        Ok(Some(RemoteWireRequest {
            remote_name: "origin".to_string(),
            url: "git@example.org:r.git".to_string(),
        }))
    );
}

#[test]
fn ssh_that_cannot_be_had_is_an_error() {
    let flags = Flags { set_remote: true, ssh_remote_format: true, ..Flags::new() };
    assert_eq!(wire_remote(&success(None), &flags), Err(RemoteWireError::SshUnavailable));
}

#[test]
fn next_step_announces_and_wires() {
    let flags = Flags { set_remote: true, ..Flags::new() };
    assert_eq!(
        next_step(success(None), &flags),
        Step::AddRemote {
            created_url: "https://example.org/r".to_string(),
            request: RemoteWireRequest {
                remote_name: "origin".to_string(),
                url: "https://example.org/r".to_string(),
            },
        }
    );
    assert_eq!(
        next_step(success(None), &Flags::new()),
        Step::Finish { announce: Some("https://example.org/r".to_string()), failure: None }
    );
    assert_eq!(
        next_step(ResponseOutcome::Unauthorized, &flags),
        Step::Finish { announce: None, failure: Some(Failure::Unauthorized) }
    );
}

#[test]
fn handle_result_fails_for_want_of_ssh() {
    let flags = Flags { set_remote: true, ssh_remote_format: true, ..Flags::new() };
    for (config, url) in
        [(hub(), "https://github.com/bob/demo"), (lab(Some("x")), "https://gitlab.com/alice/x")]
    {
        assert_eq!(
            handle_result(201, &bob(), &config, &flags),
            Step::Finish {
                announce: Some(url.to_string()),
                failure: Some(Failure::RemoteWire(RemoteWireError::SshUnavailable)),
            }
        );
    }
}

#[test]
fn handle_result_wires_ssh_for_bitbucket() {
    let flags = Flags { set_remote: true, ssh_remote_format: true, ..Flags::new() };
    assert_eq!(
        handle_result(200, &Headers::new(), &bucket(), &flags),
        Step::AddRemote {
            created_url: "https://bitbucket.org/alice/repo".to_string(),
            request: RemoteWireRequest {
                remote_name: "origin".to_string(),
                url: "git@bitbucket.com:alice/repo.git".to_string(),
            },
        }
    );
}

#[test]
fn handle_result_ends_on_a_rejection() {
    let flags = Flags { set_remote: true, ..Flags::new() };
    assert_eq!(
        handle_result(422, &bob(), &hub(), &flags),
        Step::Finish { announce: None, failure: Some(Failure::ValidationError) }
    );
    assert_eq!(
        handle_result(401, &bob(), &cloud(None), &flags),
        Step::Finish { announce: None, failure: Some(Failure::Unauthorized) }
    );
    assert_eq!(
        handle_result(418, &bob(), &bucket(), &flags),
        Step::Finish { announce: None, failure: Some(Failure::UnknownError { status_code: 418 }) }
    );
}

#[test]
fn run_from_start_to_finish() {
    let config = hub();
    let flags = Flags { set_remote: true, ..Flags::new() };
    let first = run(&config, &flags, Event::Start).unwrap();
    assert_eq!(first, Step::Send(configure_request(&config, &flags).unwrap()));

    let headers = bob();
    let second = run(&config, &flags, Event::Response { status: 201, headers: &headers }).unwrap();
    assert_eq!(
        second,
        Step::AddRemote {
            created_url: "https://github.com/bob/demo".to_string(),
            request: RemoteWireRequest {
                remote_name: "origin".to_string(),
                url: "https://github.com/bob/demo".to_string(),
            },
        }
    );

    let third = run(&config, &flags, Event::RemoteAdded(true)).unwrap();
    assert_eq!(third, Step::Finish { announce: None, failure: None });
}

#[test]
fn run_reports_a_remote_that_was_not_added() {
    let step = run(&hub(), &Flags::new(), Event::RemoteAdded(false)).unwrap();
    assert_eq!(
        step,
        Step::Finish {
            announce: None,
            failure: Some(Failure::RemoteWire(RemoteWireError::AddFailed)),
        }
    );
}

#[test]
fn run_refuses_incomplete_settings_at_the_start() {
    assert_eq!(run(&lab(None), &Flags::new(), Event::Start), Err(ConfigError::MissingName));
    assert_eq!(run(&cloud(None), &Flags::new(), Event::Start), Err(ConfigError::MissingToken));
}

#[test]
fn run_never_asks_for_a_remote_unasked() {
    let headers = bob();
    let ssh = Flags { ssh_remote_format: true, ..Flags::new() };
    for flags in [Flags::new(), ssh] {
        for config in [hub(), lab(Some("x")), bucket()] {
            for status in [200u16, 201, 400, 401, 418, 422] {
                let event = Event::Response { status, headers: &headers };
                let step = run(&config, &flags, event).unwrap();
                assert!(matches!(step, Step::Finish { .. }));
            }
            for event in [Event::Start, Event::RemoteAdded(true), Event::RemoteAdded(false)] {
                let step = run(&config, &flags, event).unwrap();
                assert!(!matches!(step, Step::AddRemote { .. }));
            }
        }
    }
}

#[test]
fn failures_have_their_exit_codes() {
    assert_eq!(Failure::ValidationError.exit_code(), 2);
    assert_eq!(Failure::Unauthorized.exit_code(), 3);
    assert_eq!(Failure::RemoteWire(RemoteWireError::SshUnavailable).exit_code(), 22);
    assert_eq!(Failure::RemoteWire(RemoteWireError::AddFailed).exit_code(), 404);
    assert_eq!(Failure::UnknownError { status_code: 418 }.exit_code(), 42);
    assert_eq!(Failure::UnknownError { status_code: 500 }.exit_code(), 42);
}

#[test]
fn failures_have_their_messages() {
    assert_eq!(
        Failure::ValidationError.message(),
        "The provider had an issue processing this request. Perhaps the repository already exists, or you're using an unsupported option. e.g. Enabling projects on a repo in an org that has them disabled."
    );
    assert_eq!(Failure::Unauthorized.message(), "You are unauthorized to create that repo.");
    assert_eq!(
        Failure::UnknownError { status_code: 418 }.message(),
        "An unknown response was sent by the provider."
    );
    assert_eq!(
        Failure::RemoteWire(RemoteWireError::SshUnavailable).message(),
        "Can't use ssh format with this provider."
    );
    assert_eq!(
        Failure::RemoteWire(RemoteWireError::AddFailed).message(),
        "Failed to add remote."
    );
}

#[test]
fn config_errors_have_their_messages() {
    assert_eq!(
        ConfigError::MissingName.message(),
        "A name or a path for the repository is required."
    );
    assert_eq!(ConfigError::MissingToken.message(), "An access token is required.");
}

#[test]
fn the_new_repository_is_announced() {
    assert_eq!(
        announcement("https://github.com/bob/demo"),
        "Repo created: https://github.com/bob/demo"
    );
    assert_eq!(announcement(""), "Repo created: ");
}

#[test]
fn a_remote_can_be_created_when_git_knows_none() {
    assert!(can_create_remote(Some("fatal: No such remote 'origin'\n")));
    assert!(can_create_remote(Some("fatal")));
    assert!(!can_create_remote(Some("")));
    assert!(!can_create_remote(Some("error: fatal")));
    assert!(!can_create_remote(Some("Fatal: no")));
    assert!(!can_create_remote(None));
}
