use vstd::prelude::*;
use std::collections::HashMap;
use crate::error::PipelineError;
use crate::text::str_eq;

verus! {

#[verifier::external_type_specification]
#[verifier::external_body]
pub struct ExJsonValue(serde_json::Value);

#[derive(Debug)]
pub struct RegistryPublished {
    /// An enterprise on GitHub. Webhook payloads contain the `enterprise` property when the
    /// webhook is configured
    /// on an enterprise account or an organization that's part of an enterprise account. For
    /// more information,
    /// see "[About enterprise
    /// accounts](https://docs.github.com/admin/overview/about-enterprise-accounts)."
    pub enterprise: Option<Enterprise>,
    /// The GitHub App installation. Webhook payloads contain the `installation` property when
    /// the event is configured
    /// for and sent to a GitHub App. For more information,
    /// see "[Using webhooks with GitHub
    /// Apps](https://docs.github.com/apps/creating-github-apps/registering-a-github-app/using-webhooks-with-github-apps)."
    pub installation: Option<SimpleInstallation>,
    /// A GitHub organization. Webhook payloads contain the `organization` property when the
    /// webhook is configured for an
    /// organization, or when the event occurs from activity in a repository owned by an
    /// organization.
    pub organization: Option<OrganizationSimple>,
    pub registry_package: RegistryPackage,
    /// The repository on GitHub where the event occurred. Webhook payloads contain the
    /// `repository` property
    /// when the event occurs from activity in a repository.
    pub repository: Option<Repository>,
    /// A GitHub user.
    pub sender: SenderClass,
}

/// An enterprise on GitHub. Webhook payloads contain the `enterprise` property when the
/// webhook is configured
/// on an enterprise account or an organization that's part of an enterprise account. For
/// more information,
/// see "[About enterprise
/// accounts](https://docs.github.com/admin/overview/about-enterprise-accounts)."
#[derive(Debug)]
pub struct Enterprise {
    pub avatar_url: String,
    pub created_at: String,
    /// A short description of the enterprise.
    pub description: Option<String>,
    pub html_url: String,
    /// Unique identifier of the enterprise
    pub id: i64,
    /// The name of the enterprise.
    pub name: String,
    pub node_id: String,
    /// The slug url identifier for the enterprise.
    pub slug: String,
    pub updated_at: String,
    /// The enterprise's website URL.
    pub website_url: Option<String>,
}

/// The GitHub App installation. Webhook payloads contain the `installation` property when
/// the event is configured
/// for and sent to a GitHub App. For more information,
/// see "[Using webhooks with GitHub
/// Apps](https://docs.github.com/apps/creating-github-apps/registering-a-github-app/using-webhooks-with-github-apps)."
#[derive(Debug)]
pub struct SimpleInstallation {
    /// The ID of the installation.
    pub id: i64,
    /// The global node ID of the installation.
    pub node_id: String,
}

/// A GitHub organization. Webhook payloads contain the `organization` property when the
/// webhook is configured for an
/// organization, or when the event occurs from activity in a repository owned by an
/// organization.
#[derive(Debug)]
pub struct OrganizationSimple {
    pub avatar_url: String,
    pub description: String,
    pub events_url: String,
    pub hooks_url: String,
    pub id: i64,
    pub issues_url: String,
    pub login: String,
    pub members_url: String,
    pub node_id: String,
    pub public_members_url: String,
    pub repos_url: String,
    pub url: String,
}

#[derive(Debug)]
pub struct RegistryPackage {
    pub created_at: String,
    pub description: String,
    pub ecosystem: String,
    pub html_url: String,
    pub id: i64,
    pub name: String,
    pub namespace: String,
    pub owner: RegistryPackageOwner,
    pub package_type: String,
    pub package_version: PackageVersion,
    pub registry: Registry,
    pub updated_at: String,
}

#[derive(Debug)]
pub struct RegistryPackageOwner {
    pub avatar_url: String,
    pub events_url: String,
    pub followers_url: String,
    pub following_url: String,
    pub gists_url: String,
    pub gravatar_id: String,
    pub html_url: String,
    pub id: i64,
    pub login: String,
    pub node_id: String,
    pub organizations_url: String,
    pub received_events_url: String,
    pub repos_url: String,
    pub site_admin: bool,
    pub starred_url: String,
    pub subscriptions_url: String,
    pub owner_type: String,
    pub url: String,
    pub user_view_type: Option<String>,
}

#[derive(Debug)]
pub struct PackageVersion {
    pub author: Option<PackageVersionAuthor>,
    pub body: Option<Body>,
    pub body_html: Option<String>,
    pub container_metadata: Option<ContainerMetadata>,
    pub created_at: Option<String>,
    pub description: String,
    pub docker_metadata: Option<Vec<DockerMetadatum>>,
    pub draft: Option<bool>,
    pub html_url: String,
    pub id: i64,
    pub installation_command: String,
    pub manifest: Option<String>,
    pub metadata: Vec<HashMap<String, Option<serde_json::Value>>>,
    pub name: String,
    pub npm_metadata: Option<NpmMetadata>,
    pub nuget_metadata: Option<Vec<NugetMetadatum>>,
    pub package_files: Vec<PackageFile>,
    pub package_url: String,
    pub prerelease: Option<bool>,
    pub release: Option<Release>,
    pub rubygems_metadata: Option<Vec<RubyGemsMetadata>>,
    pub summary: String,
    pub tag_name: Option<String>,
    pub target_commitish: Option<String>,
    pub target_oid: Option<String>,
    pub updated_at: Option<String>,
    pub version: String,
}

#[derive(Debug)]
pub struct PackageVersionAuthor {
    pub avatar_url: String,
    pub events_url: String,
    pub followers_url: String,
    pub following_url: String,
    pub gists_url: String,
    pub gravatar_id: String,
    pub html_url: String,
    pub id: i64,
    pub login: String,
    pub node_id: String,
    pub organizations_url: String,
    pub received_events_url: String,
    pub repos_url: String,
    pub site_admin: bool,
    pub starred_url: String,
    pub subscriptions_url: String,
    pub author_type: String,
    pub url: String,
    pub user_view_type: Option<String>,
}

#[derive(Debug)]
pub enum Body {
    AnythingMap(HashMap<String, Option<serde_json::Value>>),
    String(String),
}

#[derive(Debug)]
pub struct ContainerMetadata {
    pub labels: Option<HashMap<String, Option<serde_json::Value>>>,
    pub manifest: Option<HashMap<String, Option<serde_json::Value>>>,
    pub tag: Option<Tag>,
}

#[derive(Debug)]
pub struct Tag {
    pub digest: Option<String>,
    pub name: Option<String>,
}

#[derive(Debug)]
pub struct DockerMetadatum {
    pub tags: Option<Vec<String>>,
}

#[derive(Debug)]
pub struct NpmMetadata {
    pub author: Option<Body>,
    pub bin: Option<HashMap<String, Option<serde_json::Value>>>,
    pub bugs: Option<Body>,
    pub commit_oid: Option<String>,
    pub contributors: Option<Vec<String>>,
    pub cpu: Option<Vec<String>>,
    pub deleted_by_id: Option<i64>,
    pub dependencies: Option<HashMap<String, Option<serde_json::Value>>>,
    pub description: Option<String>,
    pub dev_dependencies: Option<HashMap<String, Option<serde_json::Value>>>,
    pub directories: Option<Body>,
    pub dist: Option<Body>,
    pub engines: Option<HashMap<String, Option<serde_json::Value>>>,
    pub files: Option<Vec<String>>,
    pub git_head: Option<String>,
    pub has_shrinkwrap: Option<bool>,
    pub homepage: Option<String>,
    pub id: Option<String>,
    pub installation_command: Option<String>,
    pub keywords: Option<Vec<String>>,
    pub license: Option<String>,
    pub main: Option<String>,
    pub maintainers: Option<Vec<String>>,
    pub man: Option<HashMap<String, Option<serde_json::Value>>>,
    pub name: Option<String>,
    pub node_version: Option<String>,
    pub npm_user: Option<String>,
    pub npm_version: Option<String>,
    pub optional_dependencies: Option<HashMap<String, Option<serde_json::Value>>>,
    pub os: Option<Vec<String>>,
    pub peer_dependencies: Option<HashMap<String, Option<serde_json::Value>>>,
    pub published_via_actions: Option<bool>,
    pub readme: Option<String>,
    pub release_id: Option<i64>,
    pub repository: Option<Body>,
    pub scripts: Option<HashMap<String, Option<serde_json::Value>>>,
    pub version: Option<String>,
}

#[derive(Debug)]
pub struct NugetMetadatum {
    pub id: Option<Id>,
    pub name: Option<String>,
    pub value: Option<ValueUnion>,
}

#[derive(Debug)]
pub enum Id {
    AnythingMap(HashMap<String, Option<serde_json::Value>>),
    Integer(i64),
    String(String),
}

#[derive(Debug)]
pub enum ValueUnion {
    Bool(bool),
    Integer(i64),
    String(String),
    ValueClass(ValueClass),
}

#[derive(Debug)]
pub struct ValueClass {
    pub branch: Option<String>,
    pub commit: Option<String>,
    pub value_type: Option<String>,
    pub url: Option<String>,
}

#[derive(Debug)]
pub struct PackageFile {
    pub content_type: String,
    pub created_at: String,
    pub download_url: String,
    pub id: i64,
    pub md5: String,
    pub name: String,
    pub sha1: String,
    pub sha256: String,
    pub size: i64,
    pub state: String,
    pub updated_at: String,
}

#[derive(Debug)]
pub struct Release {
    pub author: Option<ReleaseAuthor>,
    pub created_at: Option<String>,
    pub draft: Option<bool>,
    pub html_url: Option<String>,
    pub id: Option<i64>,
    pub name: Option<String>,
    pub prerelease: Option<bool>,
    pub published_at: Option<String>,
    pub tag_name: Option<String>,
    pub target_commitish: Option<String>,
    pub url: Option<String>,
}

#[derive(Debug)]
pub struct ReleaseAuthor {
    pub avatar_url: Option<String>,
    pub events_url: Option<String>,
    pub followers_url: Option<String>,
    pub following_url: Option<String>,
    pub gists_url: Option<String>,
    pub gravatar_id: Option<String>,
    pub html_url: Option<String>,
    pub id: Option<i64>,
    pub login: Option<String>,
    pub node_id: Option<String>,
    pub organizations_url: Option<String>,
    pub received_events_url: Option<String>,
    pub repos_url: Option<String>,
    pub site_admin: Option<bool>,
    pub starred_url: Option<String>,
    pub subscriptions_url: Option<String>,
    pub author_type: Option<String>,
    pub url: Option<String>,
    pub user_view_type: Option<String>,
}

#[derive(Debug)]
pub struct RubyGemsMetadata {
    pub commit_oid: Option<String>,
    pub dependencies: Option<Vec<HashMap<String, String>>>,
    pub description: Option<String>,
    pub homepage: Option<String>,
    pub metadata: Option<HashMap<String, String>>,
    pub name: Option<String>,
    pub platform: Option<String>,
    pub readme: Option<String>,
    pub repo: Option<String>,
    pub version_info: Option<VersionInfo>,
}

#[derive(Debug)]
pub struct VersionInfo {
    pub version: Option<String>,
}

#[derive(Debug)]
pub struct Registry {
    pub about_url: Option<String>,
    pub name: Option<String>,
    pub registry_type: Option<String>,
    pub url: Option<String>,
    pub vendor: Option<String>,
}

/// The repository on GitHub where the event occurred. Webhook payloads contain the
/// `repository` property
/// when the event occurs from activity in a repository.
#[derive(Debug)]
pub struct Repository {
    /// Whether to allow Auto-merge to be used on pull requests.
    pub allow_auto_merge: Option<bool>,
    /// Whether to allow forking this repo
    pub allow_forking: Option<bool>,
    /// Whether to allow merge commits for pull requests.
    pub allow_merge_commit: Option<bool>,
    /// Whether to allow rebase merges for pull requests.
    pub allow_rebase_merge: Option<bool>,
    /// Whether to allow squash merges for pull requests.
    pub allow_squash_merge: Option<bool>,
    /// Whether or not a pull request head branch that is behind its base branch can always be
    /// updated even if it is not required to be up to date before merging.
    pub allow_update_branch: Option<bool>,
    /// Whether anonymous git access is enabled for this repository
    pub anonymous_access_enabled: Option<bool>,
    pub archive_url: String,
    /// Whether the repository is archived.
    pub archived: bool,
    pub assignees_url: String,
    pub blobs_url: String,
    pub branches_url: String,
    pub clone_url: String,
    pub collaborators_url: String,
    pub comments_url: String,
    pub commits_url: String,
    pub compare_url: String,
    pub contents_url: String,
    pub contributors_url: String,
    pub created_at: String,
    /// The custom properties that were defined for the repository. The keys are the custom
    /// property names, and the values are the corresponding custom property values.
    pub custom_properties: Option<HashMap<String, Option<serde_json::Value>>>,
    /// The default branch of the repository.
    pub default_branch: String,
    /// Whether to delete head branches when pull requests are merged
    pub delete_branch_on_merge: Option<bool>,
    pub deployments_url: String,
    pub description: Option<String>,
    /// Returns whether or not this repository disabled.
    pub disabled: bool,
    pub downloads_url: String,
    pub events_url: String,
    pub fork: bool,
    pub forks: i64,
    pub forks_count: i64,
    pub forks_url: String,
    pub full_name: String,
    pub git_commits_url: String,
    pub git_refs_url: String,
    pub git_tags_url: String,
    pub git_url: String,
    /// Whether discussions are enabled.
    pub has_discussions: Option<bool>,
    /// Whether downloads are enabled.
    pub has_downloads: bool,
    /// Whether issues are enabled.
    pub has_issues: bool,
    pub has_pages: bool,
    /// Whether projects are enabled.
    pub has_projects: bool,
    /// Whether the wiki is enabled.
    pub has_wiki: bool,
    pub homepage: Option<String>,
    pub hooks_url: String,
    pub html_url: String,
    /// Unique identifier of the repository
    pub id: i64,
    /// Whether this repository acts as a template that can be used to generate new repositories.
    pub is_template: Option<bool>,
    pub issue_comment_url: String,
    pub issue_events_url: String,
    pub issues_url: String,
    pub keys_url: String,
    pub labels_url: String,
    pub language: String,
    pub languages_url: String,
    /// License Simple
    pub license: Option<LicenseSimple>,
    pub master_branch: Option<String>,
    /// The default value for a merge commit message.
    ///
    /// - `PR_TITLE` - default to the pull request's title.
    /// - `PR_BODY` - default to the pull request's body.
    /// - `BLANK` - default to a blank commit message.
    pub merge_commit_message: Option<MergeCommitMessage>,
    /// The default value for a merge commit title.
    ///
    /// - `PR_TITLE` - default to the pull request's title.
    /// - `MERGE_MESSAGE` - default to the classic title for a merge message (e.g., Merge pull
    /// request #123 from branch-name).
    pub merge_commit_title: Option<MergeCommitTitle>,
    pub merges_url: String,
    pub milestones_url: String,
    pub mirror_url: Option<String>,
    /// The name of the repository.
    pub name: String,
    pub network_count: Option<i64>,
    pub node_id: String,
    pub notifications_url: String,
    pub open_issues: i64,
    pub open_issues_count: i64,
    /// A GitHub user.
    pub organization: Option<OrganizationClass>,
    /// A GitHub user.
    pub owner: OwnerClass,
    pub permissions: Option<RepositoryPermissions>,
    /// Whether the repository is private or public.
    pub private: bool,
    pub pulls_url: String,
    pub pushed_at: String,
    pub releases_url: String,
    /// The size of the repository, in kilobytes. Size is calculated hourly. When a repository is
    /// initially created, the size is 0.
    pub size: i64,
    /// The default value for a squash merge commit message:
    ///
    /// - `PR_BODY` - default to the pull request's body.
    /// - `COMMIT_MESSAGES` - default to the branch's commit messages.
    /// - `BLANK` - default to a blank commit message.
    pub squash_merge_commit_message: Option<SquashMergeCommitMessage>,
    /// The default value for a squash merge commit title:
    ///
    /// - `PR_TITLE` - default to the pull request's title.
    /// - `COMMIT_OR_PR_TITLE` - default to the commit's title (if only one commit) or the pull
    /// request's title (when more than one commit).
    pub squash_merge_commit_title: Option<SquashMergeCommitTitle>,
    pub ssh_url: String,
    pub stargazers_count: i64,
    pub stargazers_url: String,
    pub starred_at: Option<String>,
    pub statuses_url: String,
    pub subscribers_count: Option<i64>,
    pub subscribers_url: String,
    pub subscription_url: String,
    pub svn_url: String,
    pub tags_url: String,
    pub teams_url: Option<String>,
    pub temp_clone_token: Option<String>,
    pub template_repository: Option<TemplateRepository>,
    pub topics: Option<Vec<String>>,
    pub trees_url: String,
    pub updated_at: String,
    pub url: String,
    /// Whether a squash merge commit can use the pull request title as default. **This property
    /// is closing down. Please use `squash_merge_commit_title` instead.
    pub use_squash_pr_title_as_default: Option<bool>,
    /// The repository visibility: public, private, or internal.
    pub visibility: Option<String>,
    pub watchers: i64,
    pub watchers_count: i64,
    /// Whether to require contributors to sign off on web-based commits
    pub web_commit_signoff_required: Option<bool>,
}

/// License Simple
#[derive(Debug)]
pub struct LicenseSimple {
    pub html_url: Option<String>,
    pub key: String,
    pub name: String,
    pub node_id: String,
    pub spdx_id: String,
    pub url: String,
}

/// The default value for a merge commit message.
///
/// - `PR_TITLE` - default to the pull request's title.
/// - `PR_BODY` - default to the pull request's body.
/// - `BLANK` - default to a blank commit message.
#[derive(Debug)]
pub enum MergeCommitMessage {
    Blank,
    PrBody,
    PrTitle,
}

/// The default value for a merge commit title.
///
/// - `PR_TITLE` - default to the pull request's title.
/// - `MERGE_MESSAGE` - default to the classic title for a merge message (e.g., Merge pull
/// request #123 from branch-name).
#[derive(Debug)]
pub enum MergeCommitTitle {
    MergeMessage,
    PrTitle,
}

/// A GitHub user.
#[derive(Debug)]
pub struct OrganizationClass {
    pub avatar_url: String,
    pub email: Option<String>,
    pub events_url: String,
    pub followers_url: String,
    pub following_url: String,
    pub gists_url: String,
    pub gravatar_id: String,
    pub html_url: String,
    pub id: i64,
    pub login: String,
    pub name: Option<String>,
    pub node_id: String,
    pub organizations_url: String,
    pub received_events_url: String,
    pub repos_url: String,
    pub site_admin: bool,
    pub starred_at: Option<String>,
    pub starred_url: String,
    pub subscriptions_url: String,
    pub simple_user_type: String,
    pub url: String,
    pub user_view_type: Option<String>,
}

/// A GitHub user.
#[derive(Debug)]
pub struct OwnerClass {
    pub avatar_url: String,
    pub email: Option<String>,
    pub events_url: String,
    pub followers_url: String,
    pub following_url: String,
    pub gists_url: String,
    pub gravatar_id: String,
    pub html_url: String,
    pub id: i64,
    pub login: String,
    pub name: Option<String>,
    pub node_id: String,
    pub organizations_url: String,
    pub received_events_url: String,
    pub repos_url: String,
    pub site_admin: bool,
    pub starred_at: Option<String>,
    pub starred_url: String,
    pub subscriptions_url: String,
    pub simple_user_type: String,
    pub url: String,
    pub user_view_type: Option<String>,
}

#[derive(Debug)]
pub struct RepositoryPermissions {
    pub admin: bool,
    pub maintain: Option<bool>,
    pub pull: bool,
    pub push: bool,
    pub triage: Option<bool>,
}

/// The default value for a squash merge commit message:
///
/// - `PR_BODY` - default to the pull request's body.
/// - `COMMIT_MESSAGES` - default to the branch's commit messages.
/// - `BLANK` - default to a blank commit message.
#[derive(Debug)]
pub enum SquashMergeCommitMessage {
    Blank,
    CommitMessages,
    PrBody,
}

/// The default value for a squash merge commit title:
///
/// - `PR_TITLE` - default to the pull request's title.
/// - `COMMIT_OR_PR_TITLE` - default to the commit's title (if only one commit) or the pull
/// request's title (when more than one commit).
#[derive(Debug)]
pub enum SquashMergeCommitTitle {
    CommitOrPrTitle,
    PrTitle,
}

#[derive(Debug)]
pub struct TemplateRepository {
    pub allow_auto_merge: Option<bool>,
    pub allow_merge_commit: Option<bool>,
    pub allow_rebase_merge: Option<bool>,
    pub allow_squash_merge: Option<bool>,
    pub allow_update_branch: Option<bool>,
    pub archive_url: Option<String>,
    pub archived: Option<bool>,
    pub assignees_url: Option<String>,
    pub blobs_url: Option<String>,
    pub branches_url: Option<String>,
    pub clone_url: Option<String>,
    pub collaborators_url: Option<String>,
    pub comments_url: Option<String>,
    pub commits_url: Option<String>,
    pub compare_url: Option<String>,
    pub contents_url: Option<String>,
    pub contributors_url: Option<String>,
    pub created_at: Option<String>,
    pub default_branch: Option<String>,
    pub delete_branch_on_merge: Option<bool>,
    pub deployments_url: Option<String>,
    pub description: Option<String>,
    pub disabled: Option<bool>,
    pub downloads_url: Option<String>,
    pub events_url: Option<String>,
    pub fork: Option<bool>,
    pub forks_count: Option<i64>,
    pub forks_url: Option<String>,
    pub full_name: Option<String>,
    pub git_commits_url: Option<String>,
    pub git_refs_url: Option<String>,
    pub git_tags_url: Option<String>,
    pub git_url: Option<String>,
    pub has_downloads: Option<bool>,
    pub has_issues: Option<bool>,
    pub has_pages: Option<bool>,
    pub has_projects: Option<bool>,
    pub has_wiki: Option<bool>,
    pub homepage: Option<String>,
    pub hooks_url: Option<String>,
    pub html_url: Option<String>,
    pub id: Option<i64>,
    pub is_template: Option<bool>,
    pub issue_comment_url: Option<String>,
    pub issue_events_url: Option<String>,
    pub issues_url: Option<String>,
    pub keys_url: Option<String>,
    pub labels_url: Option<String>,
    pub language: Option<String>,
    pub languages_url: Option<String>,
    /// The default value for a merge commit message.
    ///
    /// - `PR_TITLE` - default to the pull request's title.
    /// - `PR_BODY` - default to the pull request's body.
    /// - `BLANK` - default to a blank commit message.
    pub merge_commit_message: Option<MergeCommitMessage>,
    /// The default value for a merge commit title.
    ///
    /// - `PR_TITLE` - default to the pull request's title.
    /// - `MERGE_MESSAGE` - default to the classic title for a merge message (e.g., Merge pull
    /// request #123 from branch-name).
    pub merge_commit_title: Option<MergeCommitTitle>,
    pub merges_url: Option<String>,
    pub milestones_url: Option<String>,
    pub mirror_url: Option<String>,
    pub name: Option<String>,
    pub network_count: Option<i64>,
    pub node_id: Option<String>,
    pub notifications_url: Option<String>,
    pub open_issues_count: Option<i64>,
    pub owner: Option<TemplateRepositoryOwner>,
    pub permissions: Option<TemplateRepositoryPermissions>,
    pub private: Option<bool>,
    pub pulls_url: Option<String>,
    pub pushed_at: Option<String>,
    pub releases_url: Option<String>,
    pub size: Option<i64>,
    /// The default value for a squash merge commit message:
    ///
    /// - `PR_BODY` - default to the pull request's body.
    /// - `COMMIT_MESSAGES` - default to the branch's commit messages.
    /// - `BLANK` - default to a blank commit message.
    pub squash_merge_commit_message: Option<SquashMergeCommitMessage>,
    /// The default value for a squash merge commit title:
    ///
    /// - `PR_TITLE` - default to the pull request's title.
    /// - `COMMIT_OR_PR_TITLE` - default to the commit's title (if only one commit) or the pull
    /// request's title (when more than one commit).
    pub squash_merge_commit_title: Option<SquashMergeCommitTitle>,
    pub ssh_url: Option<String>,
    pub stargazers_count: Option<i64>,
    pub stargazers_url: Option<String>,
    pub statuses_url: Option<String>,
    pub subscribers_count: Option<i64>,
    pub subscribers_url: Option<String>,
    pub subscription_url: Option<String>,
    pub svn_url: Option<String>,
    pub tags_url: Option<String>,
    pub teams_url: Option<String>,
    pub temp_clone_token: Option<String>,
    pub topics: Option<Vec<String>>,
    pub trees_url: Option<String>,
    pub updated_at: Option<String>,
    pub url: Option<String>,
    pub use_squash_pr_title_as_default: Option<bool>,
    pub visibility: Option<String>,
    pub watchers_count: Option<i64>,
}

#[derive(Debug)]
pub struct TemplateRepositoryOwner {
    pub avatar_url: Option<String>,
    pub events_url: Option<String>,
    pub followers_url: Option<String>,
    pub following_url: Option<String>,
    pub gists_url: Option<String>,
    pub gravatar_id: Option<String>,
    pub html_url: Option<String>,
    pub id: Option<i64>,
    pub login: Option<String>,
    pub node_id: Option<String>,
    pub organizations_url: Option<String>,
    pub received_events_url: Option<String>,
    pub repos_url: Option<String>,
    pub site_admin: Option<bool>,
    pub starred_url: Option<String>,
    pub subscriptions_url: Option<String>,
    pub owner_type: Option<String>,
    pub url: Option<String>,
}

#[derive(Debug)]
pub struct TemplateRepositoryPermissions {
    pub admin: Option<bool>,
    pub maintain: Option<bool>,
    pub pull: Option<bool>,
    pub push: Option<bool>,
    pub triage: Option<bool>,
}

/// A GitHub user.
#[derive(Debug)]
pub struct SenderClass {
    pub avatar_url: String,
    pub email: Option<String>,
    pub events_url: String,
    pub followers_url: String,
    pub following_url: String,
    pub gists_url: String,
    pub gravatar_id: String,
    pub html_url: String,
    pub id: i64,
    pub login: String,
    pub name: Option<String>,
    pub node_id: String,
    pub organizations_url: String,
    pub received_events_url: String,
    pub repos_url: String,
    pub site_admin: bool,
    pub starred_at: Option<String>,
    pub starred_url: String,
    pub subscriptions_url: String,
    pub simple_user_type: String,
    pub url: String,
    pub user_view_type: Option<String>,
}

/// The action tag of the one event kind that the pipeline handles.
pub const PUBLISHED_ACTION: &'static str = "published";

/// A webhook event envelope, told apart by its action tag.
#[derive(Debug)]
pub enum WebhookPayload {
    Published(RegistryPublished),
}

impl WebhookPayload {
    /// Classifies an event envelope. `action` is the envelope's action tag,
    /// where the body has one; `published` is the body read as a
    /// published-package event, where it reads as one.
    pub fn from_envelope(action: Option<&str>, published: Option<RegistryPublished>) -> (r: Result<
        WebhookPayload,
        PipelineError,
    >)
        ensures
            match action {
                None => r == Err::<WebhookPayload, PipelineError>(PipelineError::PayloadMalformed),
                Some(a) => if a@ == PUBLISHED_ACTION@ {
                    match published {
                        Some(p) => r == Ok::<WebhookPayload, PipelineError>(
                            WebhookPayload::Published(p),
                        ),
                        None => r == Err::<WebhookPayload, PipelineError>(
                            PipelineError::PayloadMalformed,
                        ),
                    }
                } else {
                    r == Err::<WebhookPayload, PipelineError>(PipelineError::PayloadUnsupported)
                },
            },
    {
        match action {
            None => Err(PipelineError::PayloadMalformed),
            Some(a) => {
                if str_eq(a, PUBLISHED_ACTION) {
                    match published {
                        Some(p) => Ok(WebhookPayload::Published(p)),
                        None => Err(PipelineError::PayloadMalformed),
                    }
                } else {
                    Err(PipelineError::PayloadUnsupported)
                }
            },
        }
    }
}

/// What the pipeline needs to know of a published package.
#[derive(Debug)]
pub struct PublishEvent {
    pub package_name: String,
    pub image_reference: String,
    pub owner_login: String,
    pub repo_name: String,
}

/// A package URL names a resolvable artifact when the text between its first
/// `:` and the next `:` (or the end) is not empty.
pub open spec fn has_artifact_reference(url: Seq<char>) -> bool {
    exists|i: int|
        0 <= i < url.len() - 1 && #[trigger] url[i] == ':' && url[i + 1] != ':' && forall|k: int|
            0 <= k < i ==> url[k] != ':'
}

/// Whether a package URL names a resolvable artifact.
pub fn has_artifact(url: &str) -> (r: bool)
    ensures
        r == has_artifact_reference(url@),
{
    let n = url.unicode_len();
    let mut i: usize = 0;
    while i < n
        invariant
            0 <= i <= n,
            n == url@.len(),
            forall|k: int| 0 <= k < i ==> url@[k] != ':',
        decreases n - i,
    {
        if url.get_char(i) == ':' {
            let found = i + 1 < n && url.get_char(i + 1) != ':';
            proof {
                if !found && has_artifact_reference(url@) {
                    let j = choose|j: int|
                        0 <= j < url@.len() - 1 && #[trigger] url@[j] == ':' && url@[j + 1] != ':'
                            && forall|k: int| 0 <= k < j ==> url@[k] != ':';
                    assert(j == i);
                }
            }
            return found;
        }
        i += 1;
    }
    false
}

/// The event that a published-package payload stands for: the owning
/// repository and a resolvable artifact reference are required, every other
/// field is advisory.
pub open spec fn normalized(p: RegistryPublished) -> Result<PublishEvent, PipelineError> {
    match p.repository {
        None => Err(PipelineError::PayloadMalformed),
        Some(repo) => if has_artifact_reference(p.registry_package.package_version.package_url@) {
            Ok(
                PublishEvent {
                    package_name: p.registry_package.name,
                    image_reference: p.registry_package.package_version.package_url,
                    owner_login: repo.owner.login,
                    repo_name: repo.name,
                },
            )
        } else {
            Err(PipelineError::PayloadMalformed)
        },
    }
}

impl PublishEvent {
    /// Extracts the event from a published-package payload.
    pub fn from_published(p: &RegistryPublished) -> (r: Result<PublishEvent, PipelineError>)
        ensures
            r == normalized(*p),
    {
        match &p.repository {
            None => Err(PipelineError::PayloadMalformed),
            Some(repo) => {
                let url = &p.registry_package.package_version.package_url;
                if !has_artifact(url.as_str()) {
                    return Err(PipelineError::PayloadMalformed);
                }
                Ok(
                    PublishEvent {
                        package_name: p.registry_package.name.clone(),
                        image_reference: url.clone(),
                        owner_login: repo.owner.login.clone(),
                        repo_name: repo.name.clone(),
                    },
                )
            },
        }
    }
}

} // verus!
