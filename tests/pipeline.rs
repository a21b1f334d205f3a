use base64::Engine;
use synkronized::argo::Application;
use synkronized::error::PipelineError;
use synkronized::github::{has_artifact, PublishEvent, WebhookPayload};
use synkronized::helm::{chart_index_url, ChartVersion, Charts, Template};
use synkronized::merge::merged;
use synkronized::project::{config_text, decode_config, ContainerImage, Synkronized, SynkronizedProject};
use synkronized::pipeline::{Action, ApplyFailure, IndexFailure, Outcome, Stage};
use synkronized::webhook::{accept_delivery, Delivery};
use synkronized::yaml::YamlValue;
use synkronized::github::{OwnerClass, PackageVersion, Registry, RegistryPackage, RegistryPackageOwner, RegistryPublished, Repository, SenderClass};

fn blank_registry_published() -> RegistryPublished {
    RegistryPublished {
        enterprise: None,
        installation: None,
        organization: None,
        registry_package: blank_registry_package(),
        repository: None,
        sender: blank_sender_class(),
    }
}

fn blank_repository() -> Repository {
    Repository {
        allow_auto_merge: None,
        allow_forking: None,
        allow_merge_commit: None,
        allow_rebase_merge: None,
        allow_squash_merge: None,
        allow_update_branch: None,
        anonymous_access_enabled: None,
        archive_url: String::new(),
        archived: false,
        assignees_url: String::new(),
        blobs_url: String::new(),
        branches_url: String::new(),
        clone_url: String::new(),
        collaborators_url: String::new(),
        comments_url: String::new(),
        commits_url: String::new(),
        compare_url: String::new(),
        contents_url: String::new(),
        contributors_url: String::new(),
        created_at: String::new(),
        custom_properties: None,
        default_branch: String::new(),
        delete_branch_on_merge: None,
        deployments_url: String::new(),
        description: None,
        disabled: false,
        downloads_url: String::new(),
        events_url: String::new(),
        fork: false,
        forks: 0,
        forks_count: 0,
        forks_url: String::new(),
        full_name: String::new(),
        git_commits_url: String::new(),
        git_refs_url: String::new(),
        git_tags_url: String::new(),
        git_url: String::new(),
        has_discussions: None,
        has_downloads: false,
        has_issues: false,
        has_pages: false,
        has_projects: false,
        has_wiki: false,
        homepage: None,
        hooks_url: String::new(),
        html_url: String::new(),
        id: 0,
        is_template: None,
        issue_comment_url: String::new(),
        issue_events_url: String::new(),
        issues_url: String::new(),
        keys_url: String::new(),
        labels_url: String::new(),
        language: String::new(),
        languages_url: String::new(),
        license: None,
        master_branch: None,
        merge_commit_message: None,
        merge_commit_title: None,
        merges_url: String::new(),
        milestones_url: String::new(),
        mirror_url: None,
        name: String::new(),
        network_count: None,
        node_id: String::new(),
        notifications_url: String::new(),
        open_issues: 0,
        open_issues_count: 0,
        organization: None,
        owner: blank_owner_class(),
        permissions: None,
        private: false,
        pulls_url: String::new(),
        pushed_at: String::new(),
        releases_url: String::new(),
        size: 0,
        squash_merge_commit_message: None,
        squash_merge_commit_title: None,
        ssh_url: String::new(),
        stargazers_count: 0,
        stargazers_url: String::new(),
        starred_at: None,
        statuses_url: String::new(),
        subscribers_count: None,
        subscribers_url: String::new(),
        subscription_url: String::new(),
        svn_url: String::new(),
        tags_url: String::new(),
        teams_url: None,
        temp_clone_token: None,
        template_repository: None,
        topics: None,
        trees_url: String::new(),
        updated_at: String::new(),
        url: String::new(),
        use_squash_pr_title_as_default: None,
        visibility: None,
        watchers: 0,
        watchers_count: 0,
        web_commit_signoff_required: None,
    }
}

fn blank_registry_package() -> RegistryPackage {
    RegistryPackage {
        created_at: String::new(),
        description: String::new(),
        ecosystem: String::new(),
        html_url: String::new(),
        id: 0,
        name: String::new(),
        namespace: String::new(),
        owner: blank_registry_package_owner(),
        package_type: String::new(),
        package_version: blank_package_version(),
        registry: blank_registry(),
        updated_at: String::new(),
    }
}

fn blank_sender_class() -> SenderClass {
    SenderClass {
        avatar_url: String::new(),
        email: None,
        events_url: String::new(),
        followers_url: String::new(),
        following_url: String::new(),
        gists_url: String::new(),
        gravatar_id: String::new(),
        html_url: String::new(),
        id: 0,
        login: String::new(),
        name: None,
        node_id: String::new(),
        organizations_url: String::new(),
        received_events_url: String::new(),
        repos_url: String::new(),
        site_admin: false,
        starred_at: None,
        starred_url: String::new(),
        subscriptions_url: String::new(),
        simple_user_type: String::new(),
        url: String::new(),
        user_view_type: None,
    }
}

fn blank_owner_class() -> OwnerClass {
    OwnerClass {
        avatar_url: String::new(),
        email: None,
        events_url: String::new(),
        followers_url: String::new(),
        following_url: String::new(),
        gists_url: String::new(),
        gravatar_id: String::new(),
        html_url: String::new(),
        id: 0,
        login: String::new(),
        name: None,
        node_id: String::new(),
        organizations_url: String::new(),
        received_events_url: String::new(),
        repos_url: String::new(),
        site_admin: false,
        starred_at: None,
        starred_url: String::new(),
        subscriptions_url: String::new(),
        simple_user_type: String::new(),
        url: String::new(),
        user_view_type: None,
    }
}

fn blank_registry_package_owner() -> RegistryPackageOwner {
    RegistryPackageOwner {
        avatar_url: String::new(),
        events_url: String::new(),
        followers_url: String::new(),
        following_url: String::new(),
        gists_url: String::new(),
        gravatar_id: String::new(),
        html_url: String::new(),
        id: 0,
        login: String::new(),
        node_id: String::new(),
        organizations_url: String::new(),
        received_events_url: String::new(),
        repos_url: String::new(),
        site_admin: false,
        starred_url: String::new(),
        subscriptions_url: String::new(),
        owner_type: String::new(),
        url: String::new(),
        user_view_type: None,
    }
}

fn blank_package_version() -> PackageVersion {
    PackageVersion {
        author: None,
        body: None,
        body_html: None,
        container_metadata: None,
        created_at: None,
        description: String::new(),
        docker_metadata: None,
        draft: None,
        html_url: String::new(),
        id: 0,
        installation_command: String::new(),
        manifest: None,
        metadata: Vec::new(),
        name: String::new(),
        npm_metadata: None,
        nuget_metadata: None,
        package_files: Vec::new(),
        package_url: String::new(),
        prerelease: None,
        release: None,
        rubygems_metadata: None,
        summary: String::new(),
        tag_name: None,
        target_commitish: None,
        target_oid: None,
        updated_at: None,
        version: String::new(),
    }
}

fn blank_registry() -> Registry {
    Registry {
        about_url: None,
        name: None,
        registry_type: None,
        url: None,
        vendor: None,
    }
}


fn published(package: &str, url: &str, owner: &str, repo: &str) -> RegistryPublished {
    let mut p = blank_registry_published();
    p.registry_package.name = package.to_string();
    p.registry_package.package_version.package_url = url.to_string();
    let mut r = blank_repository();
    r.owner.login = owner.to_string();
    r.name = repo.to_string();
    p.repository = Some(r);
    p
}

fn s(text: &str) -> YamlValue {
    YamlValue::Str(text.to_string())
}

fn n(text: &str) -> YamlValue {
    YamlValue::Number(text.to_string())
}

fn version(name: &str, v: &str) -> ChartVersion {
    ChartVersion {
        api_version: "v2".to_string(),
        app_version: v.to_string(),
        created: String::new(),
        description: String::new(),
        digest: String::new(),
        name: name.to_string(),
        chart_type: "application".to_string(),
        urls: vec![],
        version: v.to_string(),
    }
}

fn index(entries: Vec<(&str, Vec<ChartVersion>)>) -> Charts {
    Charts {
        api_version: "v1".to_string(),
        entries: entries.into_iter().map(|(k, v)| (k.to_string(), v)).collect(),
        generated: String::new(),
    }
}

fn project(name: &str, template: &str, config: YamlValue) -> SynkronizedProject {
    SynkronizedProject {
        synkronized: Synkronized { name: name.to_string(), template: template.to_string() },
        config,
    }
}

#[test]
fn resolution_takes_the_first_listed_version() {
    let charts = index(vec![("foo", vec![version("foo", "2.0.0"), version("foo", "1.0.0")])]);
    let t = Template::from_index(&charts, "foo").unwrap();
    assert_eq!(t.name, "foo");
    assert_eq!(t.version, "2.0.0");
    let again = Template::from_index(&charts, "foo").unwrap();
    assert_eq!(again.version, "2.0.0");
}

#[test]
fn resolution_does_not_compare_versions() {
    let charts = index(vec![("foo", vec![version("foo", "1.0.0"), version("foo", "2.0.0")])]);
    assert_eq!(Template::from_index(&charts, "foo").unwrap().version, "1.0.0");
}

#[test]
fn unknown_template_is_not_found() {
    let charts = index(vec![("foo", vec![version("foo", "2.0.0")]), ("bar", vec![])]);
    assert!(matches!(
        Template::from_index(&charts, "baz"),
        Err(PipelineError::TemplateNotFound)
    ));
    assert!(matches!(
        Template::from_index(&charts, "bar"),
        Err(PipelineError::TemplateNotFound)
    ));
    assert!(matches!(
        Template::from_index(&index(vec![]), "foo"),
        Err(PipelineError::TemplateNotFound)
    ));
}

#[test]
fn index_address() {
    assert_eq!(chart_index_url(), "https://charts.vaughn.sh/index.yaml");
}

#[test]
fn envelope_classification() {
    let p = published("widget", "ghcr.io/acme/widget:1.0", "acme", "widget");
    assert!(matches!(
        WebhookPayload::from_envelope(Some("published"), Some(p)),
        Ok(WebhookPayload::Published(_))
    ));
    assert!(matches!(
        WebhookPayload::from_envelope(Some("published"), None),
        Err(PipelineError::PayloadMalformed)
    ));
    assert!(matches!(
        WebhookPayload::from_envelope(Some("updated"), None),
        Err(PipelineError::PayloadUnsupported)
    ));
    assert!(matches!(
        WebhookPayload::from_envelope(None, None),
        Err(PipelineError::PayloadMalformed)
    ));
}

#[test]
fn normalizes_a_published_package() {
    let p = published("widget", "ghcr.io/acme/widget:1.0", "acme", "widget-repo");
    let e = PublishEvent::from_published(&p).unwrap();
    assert_eq!(e.package_name, "widget");
    assert_eq!(e.image_reference, "ghcr.io/acme/widget:1.0");
    assert_eq!(e.owner_login, "acme");
    assert_eq!(e.repo_name, "widget-repo");
}

#[test]
fn missing_repository_is_malformed() {
    let mut p = published("widget", "ghcr.io/acme/widget:1.0", "acme", "widget");
    p.repository = None;
    assert!(matches!(PublishEvent::from_published(&p), Err(PipelineError::PayloadMalformed)));
}

#[test]
fn unresolvable_artifact_is_malformed() {
    let p = published("widget", "ghcr.io/acme/widget", "acme", "widget");
    assert!(matches!(PublishEvent::from_published(&p), Err(PipelineError::PayloadMalformed)));
    let p = published("widget", "ghcr.io/acme/widget:", "acme", "widget");
    assert!(matches!(PublishEvent::from_published(&p), Err(PipelineError::PayloadMalformed)));
}

#[test]
fn artifact_reference_shapes() {
    assert!(has_artifact("ghcr.io/acme/widget:1.0"));
    assert!(has_artifact("a:b:c"));
    assert!(!has_artifact("abc"));
    assert!(!has_artifact("abc:"));
    assert!(!has_artifact("a::b"));
    assert!(!has_artifact(""));
}

#[test]
fn decodes_line_broken_base64_content() {
    let text = "synkronized:\n  name: widget\n  template: standard\nconfig:\n  replicas: 3\n";
    let encoded = base64::engine::general_purpose::STANDARD.encode(text);
    let broken = format!("{}\n{}\n", &encoded[..10], &encoded[10..]);
    assert_eq!(decode_config(Some(&broken)).unwrap(), text);
}

#[test]
fn missing_content_is_reported() {
    assert_eq!(decode_config(None), Err(PipelineError::SourceFileMissing));
}

#[test]
fn bad_base64_is_a_transport_error() {
    assert_eq!(decode_config(Some("!!!not base64")), Err(PipelineError::TransportDecodeError));
}

#[test]
fn non_utf8_content_is_malformed() {
    assert_eq!(decode_config(Some("/w==")), Err(PipelineError::SourceFileMalformed));
    assert_eq!(config_text(Some(vec![0xff])), Err(PipelineError::SourceFileMalformed));
    assert_eq!(config_text(Some(vec![104, 105])), Ok("hi".to_string()));
    assert_eq!(config_text(None), Err(PipelineError::TransportDecodeError));
}

#[test]
fn image_values_document() {
    let image = ContainerImage { name: "widget".to_string(), image: "ghcr.io/a/w:1".to_string() };
    assert_eq!(
        image.to_yaml(),
        YamlValue::Mapping(vec![(s("name"), s("widget")), (s("image"), s("ghcr.io/a/w:1"))])
    );
}

#[test]
fn repeated_keys_in_base_config_are_refused() {
    let p = published("widget", "ghcr.io/acme/widget:1.0", "acme", "widget");
    let e = PublishEvent::from_published(&p).unwrap();
    let mut proj = project(
        "widget",
        "standard",
        YamlValue::Mapping(vec![(s("a"), n("1")), (s("a"), n("2"))]),
    );
    assert_eq!(proj.with_image(&e), Err(PipelineError::SourceFileMalformed));
}

#[test]
fn descriptor_assembly() {
    let proj = project("widget", "standard", YamlValue::Mapping(vec![]));
    let t = Template { name: "standard".to_string(), version: "4.2.0".to_string() };
    let app = Application::create(&proj.synkronized, t, "replicas: 3\n".to_string());
    assert_eq!(app.name, "widget");
    assert_eq!(app.spec.project, "default");
    assert_eq!(app.spec.source.repo_url, "https://charts.vaughn.sh");
    assert_eq!(app.spec.source.chart, "standard");
    assert_eq!(app.spec.source.target_revision, "4.2.0");
    assert_eq!(app.spec.source.helm.values, "replicas: 3\n");
    assert_eq!(app.spec.destination.server, "https://kubernetes.default.svc");
    assert_eq!(app.spec.destination.namespace, "widget");
    assert!(!app.spec.sync_policy.automated.prune);
    assert!(!app.spec.sync_policy.automated.self_heal);
    assert!(!app.spec.sync_policy.automated.allow_empty);
    assert_eq!(app.spec.sync_policy.sync_options, vec!["CreateNamespace=true".to_string()]);
    let target = app.apply_target();
    assert_eq!(target.namespace, "argocd");
    assert_eq!(target.name, "widget");
    assert_eq!(target.field_manager, "kubectl-light");
    assert!(target.force);
}

#[test]
fn published_package_end_to_end() {
    let secret = b"webhook secret";
    let body = b"{\"action\":\"published\"}";
    let signature = format!("sha256={}", hex::encode(hmac_sha256::HMAC::mac(body, secret)));
    assert_eq!(
        accept_delivery(Some("registry_package"), Some(&signature), body, secret),
        Ok(Delivery::Event)
    );

    let p = published("widget", "ghcr.io/acme/widget:1.0", "acme", "widget");
    let payload = WebhookPayload::from_envelope(Some("published"), Some(p)).unwrap();
    let WebhookPayload::Published(p) = payload;

    let (stage, action) = Stage::start(&p);
    let Action::FetchConfig { owner, repo, path } = action else { panic!("expected a fetch") };
    assert_eq!((owner.as_str(), repo.as_str(), path.as_str()), ("acme", "widget", "synkronized.yaml"));

    let text = "synkronized:\n  name: widget\n  template: standard\nconfig:\n  replicas: 3\n";
    let content = base64::engine::general_purpose::STANDARD.encode(text);
    let (stage, action) = stage.step(Outcome::ConfigFile(Some(content)));
    let Action::ReadProject(read) = action else { panic!("expected a read") };
    assert_eq!(read, text);

    let proj = project("widget", "standard", YamlValue::Mapping(vec![(s("replicas"), n("3"))]));
    let (stage, action) = stage.step(Outcome::Project(Some(proj)));
    let Action::FetchIndex(url) = action else { panic!("expected an index fetch") };
    assert_eq!(url, "https://charts.vaughn.sh/index.yaml");

    let charts = index(vec![("standard", vec![version("standard", "4.2.0")])]);
    let (stage, action) = stage.step(Outcome::Index(Ok(charts)));
    let Action::SerializeValues(values) = action else { panic!("expected values") };
    assert_eq!(
        values,
        YamlValue::Mapping(vec![
            (s("replicas"), n("3")),
            (s("name"), s("widget")),
            (s("image"), s("ghcr.io/acme/widget:1.0")),
        ])
    );

    let serialized = "replicas: 3\nname: widget\nimage: ghcr.io/acme/widget:1.0\n".to_string();
    let (stage, action) = stage.step(Outcome::Values(Some(serialized.clone())));
    let Action::Apply(app) = action else { panic!("expected an apply") };
    assert_eq!(app.name, "widget");
    assert_eq!(app.spec.source.chart, "standard");
    assert_eq!(app.spec.source.target_revision, "4.2.0");
    assert_eq!(app.spec.source.helm.values, serialized);

    let (stage, action) = stage.step(Outcome::ApplyResult(Ok(())));
    assert!(matches!(stage, Stage::Applied));
    assert!(matches!(action, Action::Finish(Ok(()))));
}

#[test]
fn pipeline_rejects_at_the_failing_stage() {
    let p = published("widget", "ghcr.io/acme/widget:1.0", "acme", "widget");
    let (stage, _) = Stage::start(&p);
    let (stage, action) = stage.step(Outcome::ConfigFile(None));
    assert!(matches!(stage, Stage::Rejected(PipelineError::SourceFileMissing)));
    assert!(matches!(action, Action::Finish(Err(PipelineError::SourceFileMissing))));

    let mut bad = published("widget", "ghcr.io/acme/widget:1.0", "acme", "widget");
    bad.repository = None;
    let (stage, action) = Stage::start(&bad);
    assert!(matches!(stage, Stage::Rejected(PipelineError::PayloadMalformed)));
    assert!(matches!(action, Action::Finish(Err(PipelineError::PayloadMalformed))));
}

#[test]
fn pipeline_index_and_apply_failures() {
    let p = published("widget", "ghcr.io/acme/widget:1.0", "acme", "widget");
    let (stage, _) = Stage::start(&p);
    let content = base64::engine::general_purpose::STANDARD.encode("x: 1\n");
    let (stage, _) = stage.step(Outcome::ConfigFile(Some(content)));
    assert!(!stage.expects(&Outcome::Values(None)));
    let proj = project("widget", "standard", YamlValue::Mapping(vec![]));
    let (stage, _) = stage.step(Outcome::Project(Some(proj)));
    let (rejected, _) = stage.step(Outcome::Index(Err(IndexFailure::Unreachable)));
    assert!(matches!(rejected, Stage::Rejected(PipelineError::IndexUnreachable)));

    let (stage, _) = Stage::start(&p);
    let content = base64::engine::general_purpose::STANDARD.encode("x: 1\n");
    let (stage, _) = stage.step(Outcome::ConfigFile(Some(content)));
    let proj = project("widget", "missing", YamlValue::Mapping(vec![]));
    let (stage, _) = stage.step(Outcome::Project(Some(proj)));
    let charts = index(vec![("standard", vec![version("standard", "4.2.0")])]);
    let (rejected, action) = stage.step(Outcome::Index(Ok(charts)));
    assert!(matches!(rejected, Stage::Rejected(PipelineError::TemplateNotFound)));
    assert!(matches!(action, Action::Finish(Err(PipelineError::TemplateNotFound))));

    let (rejected, _) = Stage::Synthesized.step(Outcome::ApplyResult(Err(ApplyFailure::Rejected)));
    assert!(matches!(rejected, Stage::Rejected(PipelineError::ApplyRejected)));
    let (rejected, _) = Stage::Synthesized.step(Outcome::ApplyResult(Err(ApplyFailure::Unreachable)));
    assert!(matches!(rejected, Stage::Rejected(PipelineError::ApplyUnreachable)));
}

#[test]
fn reapplying_the_image_changes_nothing() {
    let p = published("widget", "ghcr.io/acme/widget:1.0", "acme", "widget");
    let event = PublishEvent::from_published(&p).unwrap();
    let mut proj = project("widget", "standard", YamlValue::Mapping(vec![(s("replicas"), n("3"))]));
    proj.with_image(&event).unwrap();
    let once = merged(
        YamlValue::Mapping(vec![(s("replicas"), n("3"))]),
        ContainerImage::from_event(&event).to_yaml(),
    );
    proj.with_image(&event).unwrap();
    assert_eq!(proj.config, once);
}
