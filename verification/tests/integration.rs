use gitpub::cli::Flags;
use gitpub::cli::Gitpo;
use gitpub::headers::Headers;
use gitpub::provider::github::GithubArgs;
use gitpub::provider::gitlab::GitlabArgs;
use gitpub::provider::Tristate;
use gitpub::request::configure_request;
use gitpub::request::Method;
use gitpub::response::classify;
use gitpub::response::interpret;
use gitpub::response::ResponseOutcome;
use gitpub::response::Verdict;
use std::time::{SystemTime, UNIX_EPOCH};

const TOKEN: &str = "0123456789abcdef0123456789abcdef01234567";

fn check_success(config: &Gitpo, endpoint: &str, auth: (&str, &str), body: &str) {
    let request = configure_request(config, &Flags::new()).unwrap();
    assert_eq!(request.method, Method::Post);
    assert_eq!(request.url, endpoint);
    assert_eq!(request.body, body);
    assert_eq!(
        request.headers,
        vec![
            ("Content-Type".to_string(), "application/json".to_string()),
            (auth.0.to_string(), auth.1.to_string()),
        ]
    );

    for status in [200u16, 201] {
        assert_eq!(classify(status), Verdict::Success);
        assert!(matches!(
            interpret(status, &Headers::new(), config),
            ResponseOutcome::Success { .. }
        ));
    }
}

fn github_named(name: &str) -> GithubArgs<'_> {
    GithubArgs {
        name,
        token: TOKEN,
        description: None,
        homepage: None,
        private: Tristate::enabled_by(false),
        has_issues: Tristate::disabled_by(false),
        has_projects: Tristate::disabled_by(false),
        has_wiki: Tristate::disabled_by(false),
        team_id: None,
        auto_init: Tristate::enabled_by(false),
        gitignore_template: None,
        license_template: None,
        allow_squash_merge: Tristate::disabled_by(false),
        allow_merge_commit: Tristate::disabled_by(false),
        allow_rebase_merge: Tristate::disabled_by(false),
        org: None,
    }
}

#[test]
fn github_integration() {
    let secs = SystemTime::now().duration_since(UNIX_EPOCH).unwrap().as_secs();
    let description = format!("Description {}", secs);
    let homepage = format!("Homepage {}", secs);
    let name = format!("Test Repo {}", secs);
    let config = Gitpo::Github(GithubArgs {
        allow_merge_commit: Tristate::disabled_by(true),
        allow_rebase_merge: Tristate::disabled_by(true),
        has_issues: Tristate::disabled_by(true),
        has_wiki: Tristate::disabled_by(true),
        auto_init: Tristate::enabled_by(true),
        description: Some(&description),
        gitignore_template: Some("Rust"),
        homepage: Some(&homepage),
        license_template: Some("MIT"),
        ..github_named(&name)
    });

    let body = format!(
        "{{\"name\":\"Test Repo {0}\",\"description\":\"Description {0}\",\"homepage\":\"Homepage {0}\",\"has_issues\":false,\"has_wiki\":false,\"auto_init\":true,\"gitignore_template\":\"Rust\",\"license_template\":\"MIT\",\"allow_merge_commit\":false,\"allow_rebase_merge\":false}}",
        secs
    );
    let auth = format!("token {}", TOKEN);
    check_success(&config, "https://api.github.com/user/repos", ("Authorization", &auth), &body);
}

#[test]
fn github_integration_disable_squash() {
    let secs = SystemTime::now().duration_since(UNIX_EPOCH).unwrap().as_secs();
    let name = format!("Test Disable Squash {}", secs);
    let config = Gitpo::Github(GithubArgs {
        allow_squash_merge: Tristate::disabled_by(true),
        ..github_named(&name)
    });

    let body =
        format!("{{\"name\":\"Test Disable Squash {}\",\"allow_squash_merge\":false}}", secs);
    let auth = format!("token {}", TOKEN);
    check_success(&config, "https://api.github.com/user/repos", ("Authorization", &auth), &body);
}

#[test]
fn gitlab() {
    let secs = SystemTime::now().duration_since(UNIX_EPOCH).unwrap().as_secs();
    let description = format!("Description {}", secs);
    let name = format!("Test Repo {}", secs);
    let config = Gitpo::Gitlab(GitlabArgs {
        token: TOKEN,
        username: None,
        name: Some(&name),
        path: None,
        visibility: Some("private"),
        description: Some(&description),
        issues_enabled: Tristate::disabled_by(true),
        wiki_enabled: Tristate::disabled_by(true),
        namespace_id: None,
        merge_requests_enabled: Tristate::disabled_by(true),
        default_branch: Some("dev"),
        jobs_enabled: Tristate::disabled_by(true),
        snippets_enabled: Tristate::disabled_by(true),
        container_registry_enabled: Tristate::disabled_by(true),
        shared_runners_enabled: Tristate::disabled_by(true),
        import_url: None,
        public_builds: Tristate::enabled_by(true),
        only_allow_merge_if_pipeline_succeeds: Tristate::enabled_by(true),
        only_allow_merge_if_all_discussions_are_resolved: Tristate::enabled_by(true),
        merge_method: None,
        lfs_enabled: Tristate::enabled_by(true),
        request_access_enabled: Tristate::enabled_by(true),
        tag_list: None,
        printing_merge_request_link_enabled: Tristate::enabled_by(true),
        ci_config_path: Some("./example"),
        repository_storage: None,
        approvals_before_merge: None,
        mirror: Tristate::enabled_by(true),
        mirror_trigger_builds: Tristate::enabled_by(true),
        initialize_with_readme: Tristate::enabled_by(true),
    });

    let body = format!(
        "{{\"name\":\"Test Repo {0}\",\"visibility\":\"private\",\"description\":\"Description {0}\",\"issues_enabled\":false,\"wiki_enabled\":false,\"merge_requests_enabled\":false,\"default_branch\":\"dev\",\"jobs_enabled\":false,\"snippets_enabled\":false,\"container_registry_enabled\":false,\"shared_runners_enabled\":false,\"public_builds\":true,\"only_allow_merge_if_pipeline_succeeds\":true,\"only_allow_merge_if_all_discussions_are_resolved\":true,\"lfs_enabled\":true,\"request_access_enabled\":true,\"printing_merge_request_link_enabled\":true,\"ci_config_path\":\"./example\",\"mirror\":true,\"mirror_trigger_builds\":true,\"initialize_with_readme\":true}}",
        secs
    );
    check_success(&config, "https://gitlab.com/api/v4/projects", ("Private-Token", TOKEN), &body);
}

#[test]
fn switches_follow_their_flags() {
    assert_eq!(Tristate::enabled_by(true), Tristate::True);
    assert_eq!(Tristate::enabled_by(false), Tristate::Unspecified);
    assert_eq!(Tristate::disabled_by(true), Tristate::False);
    assert_eq!(Tristate::disabled_by(false), Tristate::Unspecified);
}
