//! The webhook payload shapes, one per event in the taxonomy.
//!
//! Each shape records the top-level members that identify the event on
//! the wire, holding their values as plain JSON data, together with the
//! `action` string where the event carries one.

use crate::json::JsonValue;
use vstd::prelude::*;

verus! {

/// A `branch_protection_rule` webhook payload.
#[derive(Debug, PartialEq)]
pub struct BranchProtectionRuleEvent {
    /// The event's action, when one is sent.
    pub action: Option<String>,
    /// The `rule` object of the payload.
    pub rule: JsonValue,
}

/// A `check_run` webhook payload.
#[derive(Debug, PartialEq)]
pub struct CheckRunEvent {
    /// The event's action, when one is sent.
    pub action: Option<String>,
    /// The `check_run` object of the payload.
    pub check_run: JsonValue,
}

/// A `check_suite` webhook payload.
#[derive(Debug, PartialEq)]
pub struct CheckSuiteEvent {
    /// The event's action, when one is sent.
    pub action: Option<String>,
    /// The `check_suite` object of the payload.
    pub check_suite: JsonValue,
}

/// A `code_scanning_alert` webhook payload.
#[derive(Debug, PartialEq)]
pub struct CodeScanningAlertEvent {
    /// The event's action, when one is sent.
    pub action: Option<String>,
    /// The `alert` object of the payload.
    pub alert: JsonValue,
    /// The `ref` the event concerns.
    pub git_ref: JsonValue,
}

/// A `commit_comment` webhook payload.
#[derive(Debug, PartialEq)]
pub struct CommitCommentEvent {
    /// The event's action, when one is sent.
    pub action: Option<String>,
    /// The `comment` object of the payload.
    pub comment: JsonValue,
}

/// A `create` webhook payload.
#[derive(Debug, PartialEq)]
pub struct CreateEvent {
    /// The `ref` the event concerns.
    pub git_ref: JsonValue,
    /// The `ref_type` object of the payload.
    pub ref_type: JsonValue,
    /// The `master_branch` object of the payload.
    pub master_branch: JsonValue,
}

/// A `delete` webhook payload.
#[derive(Debug, PartialEq)]
pub struct DeleteEvent {
    /// The `ref` the event concerns.
    pub git_ref: JsonValue,
    /// The `ref_type` object of the payload.
    pub ref_type: JsonValue,
}

/// A `dependabot_alert` webhook payload.
#[derive(Debug, PartialEq)]
pub struct DependabotAlertEvent {
    /// The event's action, when one is sent.
    pub action: Option<String>,
    /// The `alert` object of the payload.
    pub alert: JsonValue,
}

/// A `deploy_key` webhook payload.
#[derive(Debug, PartialEq)]
pub struct DeployKeyEvent {
    /// The event's action, when one is sent.
    pub action: Option<String>,
    /// The `key` object of the payload.
    pub key: JsonValue,
}

/// A `deployment_protection_rule` webhook payload.
#[derive(Debug, PartialEq)]
pub struct DeploymentProtectionRuleEvent {
    /// The event's action, when one is sent.
    pub action: Option<String>,
    /// The `deployment_callback_url` object of the payload.
    pub deployment_callback_url: JsonValue,
}

/// A `deployment_status` webhook payload.
#[derive(Debug, PartialEq)]
pub struct DeploymentStatusEvent {
    /// The event's action, when one is sent.
    pub action: Option<String>,
    /// The `deployment_status` object of the payload.
    pub deployment_status: JsonValue,
}

/// A `deployment` webhook payload.
#[derive(Debug, PartialEq)]
pub struct DeploymentEvent {
    /// The event's action, when one is sent.
    pub action: Option<String>,
    /// The `deployment` object of the payload.
    pub deployment: JsonValue,
}

/// A `discussion_comment` webhook payload.
#[derive(Debug, PartialEq)]
pub struct DiscussionCommentEvent {
    /// The event's action, when one is sent.
    pub action: Option<String>,
    /// The `comment` object of the payload.
    pub comment: JsonValue,
    /// The `discussion` object of the payload.
    pub discussion: JsonValue,
}

/// A `discussion` webhook payload.
#[derive(Debug, PartialEq)]
pub struct DiscussionEvent {
    /// The event's action, when one is sent.
    pub action: Option<String>,
    /// The `discussion` object of the payload.
    pub discussion: JsonValue,
}

/// A `fork` webhook payload.
#[derive(Debug, PartialEq)]
pub struct ForkEvent {
    /// The `forkee` object of the payload.
    pub forkee: JsonValue,
}

/// A `github_app_authorization` webhook payload.
#[derive(Debug, PartialEq)]
pub struct GithubAppAuthorizationEvent {
    /// The `sender` object of the payload.
    pub sender: JsonValue,
}

/// A `gollum` webhook payload.
#[derive(Debug, PartialEq)]
pub struct GollumEvent {
    /// The `pages` object of the payload.
    pub pages: JsonValue,
}

/// A `installation_repositories` webhook payload.
#[derive(Debug, PartialEq)]
pub struct InstallationRepositoriesEvent {
    /// The event's action, when one is sent.
    pub action: Option<String>,
    /// The `repositories_added` object of the payload.
    pub repositories_added: JsonValue,
}

/// A `installation_target` webhook payload.
#[derive(Debug, PartialEq)]
pub struct InstallationTargetEvent {
    /// The event's action, when one is sent.
    pub action: Option<String>,
    /// The `account` object of the payload.
    pub account: JsonValue,
    /// The `target_type` object of the payload.
    pub target_type: JsonValue,
}

/// A `installation` webhook payload.
#[derive(Debug, PartialEq)]
pub struct InstallationEvent {
    /// The event's action, when one is sent.
    pub action: Option<String>,
    /// The `installation` object of the payload.
    pub installation: JsonValue,
    /// The `repositories` object of the payload.
    pub repositories: JsonValue,
}

/// A `issue_comment` webhook payload.
#[derive(Debug, PartialEq)]
pub struct IssueCommentEvent {
    /// The event's action, when one is sent.
    pub action: Option<String>,
    /// The `issue` object of the payload.
    pub issue: JsonValue,
    /// The `comment` object of the payload.
    pub comment: JsonValue,
}

/// A `issues` webhook payload.
#[derive(Debug, PartialEq)]
pub struct IssuesEvent {
    /// The event's action, when one is sent.
    pub action: Option<String>,
    /// The `issue` object of the payload.
    pub issue: JsonValue,
}

/// A `label` webhook payload.
#[derive(Debug, PartialEq)]
pub struct LabelEvent {
    /// The event's action, when one is sent.
    pub action: Option<String>,
    /// The `label` object of the payload.
    pub label: JsonValue,
}

/// A `marketplace_purchase` webhook payload.
#[derive(Debug, PartialEq)]
pub struct MarketplacePurchaseEvent {
    /// The event's action, when one is sent.
    pub action: Option<String>,
    /// The `marketplace_purchase` object of the payload.
    pub marketplace_purchase: JsonValue,
}

/// A `member` webhook payload.
#[derive(Debug, PartialEq)]
pub struct MemberEvent {
    /// The event's action, when one is sent.
    pub action: Option<String>,
    /// The `member` object of the payload.
    pub member: JsonValue,
}

/// A `membership` webhook payload.
#[derive(Debug, PartialEq)]
pub struct MembershipEvent {
    /// The event's action, when one is sent.
    pub action: Option<String>,
    /// The `member` object of the payload.
    pub member: JsonValue,
    /// The `scope` object of the payload.
    pub scope: JsonValue,
}

/// A `merge_group` webhook payload.
#[derive(Debug, PartialEq)]
pub struct MergeGroupEvent {
    /// The event's action, when one is sent.
    pub action: Option<String>,
    /// The `merge_group` object of the payload.
    pub merge_group: JsonValue,
}

/// A `meta` webhook payload.
#[derive(Debug, PartialEq)]
pub struct MetaEvent {
    /// The event's action, when one is sent.
    pub action: Option<String>,
    /// The `hook` object of the payload.
    pub hook: JsonValue,
}

/// A `milestone` webhook payload.
#[derive(Debug, PartialEq)]
pub struct MilestoneEvent {
    /// The event's action, when one is sent.
    pub action: Option<String>,
    /// The `milestone` object of the payload.
    pub milestone: JsonValue,
}

/// A `org_block` webhook payload.
#[derive(Debug, PartialEq)]
pub struct OrgBlockEvent {
    /// The event's action, when one is sent.
    pub action: Option<String>,
    /// The `blocked_user` object of the payload.
    pub blocked_user: JsonValue,
}

/// A `organization` webhook payload.
#[derive(Debug, PartialEq)]
pub struct OrganizationEvent {
    /// The event's action.
    pub action: String,
    /// The `organization` object of the payload.
    pub organization: JsonValue,
}

/// A `package` webhook payload.
#[derive(Debug, PartialEq)]
pub struct PackageEvent {
    /// The event's action, when one is sent.
    pub action: Option<String>,
    /// The `package` object of the payload.
    pub package: JsonValue,
}

/// A `page_build` webhook payload.
#[derive(Debug, PartialEq)]
pub struct PageBuildEvent {
    /// The `build` object of the payload.
    pub build: JsonValue,
}

/// A `personal_access_token_request` webhook payload.
#[derive(Debug, PartialEq)]
pub struct PersonalAccessTokenRequestEvent {
    /// The event's action, when one is sent.
    pub action: Option<String>,
    /// The `personal_access_token_request` object of the payload.
    pub personal_access_token_request: JsonValue,
}

/// A `ping` webhook payload.
#[derive(Debug, PartialEq)]
pub struct PingEvent {
    /// GitHub's zen line for this hook.
    pub zen: String,
    /// The id of the webhook that was pinged.
    pub hook_id: u64,
}

/// A `project_card` webhook payload.
#[derive(Debug, PartialEq)]
pub struct ProjectCardEvent {
    /// The event's action, when one is sent.
    pub action: Option<String>,
    /// The `project_card` object of the payload.
    pub project_card: JsonValue,
}

/// A `project_column` webhook payload.
#[derive(Debug, PartialEq)]
pub struct ProjectColumnEvent {
    /// The event's action, when one is sent.
    pub action: Option<String>,
    /// The `project_column` object of the payload.
    pub project_column: JsonValue,
}

/// A `projects_v2_item` webhook payload.
#[derive(Debug, PartialEq)]
pub struct ProjectsV2ItemEvent {
    /// The event's action, when one is sent.
    pub action: Option<String>,
    /// The `projects_v2_item` object of the payload.
    pub projects_v2_item: JsonValue,
}

/// A `projects_v2` webhook payload.
#[derive(Debug, PartialEq)]
pub struct ProjectsV2Event {
    /// The event's action, when one is sent.
    pub action: Option<String>,
    /// The `projects_v2` object of the payload.
    pub projects_v2: JsonValue,
}

/// A `public` webhook payload.
#[derive(Debug, PartialEq)]
pub struct PublicEvent {
    /// The `repository` object of the payload.
    pub repository: JsonValue,
    /// The `sender` object of the payload.
    pub sender: JsonValue,
}

/// A `pull_request_review_comment` webhook payload.
#[derive(Debug, PartialEq)]
pub struct PullRequestReviewCommentEvent {
    /// The event's action, when one is sent.
    pub action: Option<String>,
    /// The `comment` object of the payload.
    pub comment: JsonValue,
    /// The `pull_request` object of the payload.
    pub pull_request: JsonValue,
}

/// A `pull_request_review_thread` webhook payload.
#[derive(Debug, PartialEq)]
pub struct PullRequestReviewThreadEvent {
    /// The event's action, when one is sent.
    pub action: Option<String>,
    /// The `thread` object of the payload.
    pub thread: JsonValue,
    /// The `pull_request` object of the payload.
    pub pull_request: JsonValue,
}

/// A `pull_request_review` webhook payload.
#[derive(Debug, PartialEq)]
pub struct PullRequestReviewEvent {
    /// The event's action, when one is sent.
    pub action: Option<String>,
    /// The `review` object of the payload.
    pub review: JsonValue,
    /// The `pull_request` object of the payload.
    pub pull_request: JsonValue,
}

/// A `pull_request` webhook payload.
#[derive(Debug, PartialEq)]
pub struct PullRequestEvent {
    /// The event's action, when one is sent.
    pub action: Option<String>,
    /// The `pull_request` object of the payload.
    pub pull_request: JsonValue,
    /// The `number` object of the payload.
    pub number: JsonValue,
}

/// A `push` webhook payload.
#[derive(Debug, PartialEq)]
pub struct PushEvent {
    /// The `ref` the event concerns.
    pub git_ref: JsonValue,
    /// The `before` object of the payload.
    pub before: JsonValue,
    /// The `after` object of the payload.
    pub after: JsonValue,
    /// The `commits` object of the payload.
    pub commits: JsonValue,
}

/// A `registry_package` webhook payload.
#[derive(Debug, PartialEq)]
pub struct RegistryPackageEvent {
    /// The event's action, when one is sent.
    pub action: Option<String>,
    /// The `registry_package` object of the payload.
    pub registry_package: JsonValue,
}

/// A `release` webhook payload.
#[derive(Debug, PartialEq)]
pub struct ReleaseEvent {
    /// The event's action, when one is sent.
    pub action: Option<String>,
    /// The `release` object of the payload.
    pub release: JsonValue,
}

/// A `repository_advisory` webhook payload.
#[derive(Debug, PartialEq)]
pub struct RepositoryAdvisoryEvent {
    /// The event's action, when one is sent.
    pub action: Option<String>,
    /// The `repository_advisory` object of the payload.
    pub repository_advisory: JsonValue,
}

/// A `repository_import` webhook payload.
#[derive(Debug, PartialEq)]
pub struct RepositoryImportEvent {
    /// The `status` object of the payload.
    pub status: JsonValue,
    /// The `repository` object of the payload.
    pub repository: JsonValue,
}

/// A `repository_vulnerability_alert` webhook payload.
#[derive(Debug, PartialEq)]
pub struct RepositoryVulnerabilityAlertEvent {
    /// The event's action, when one is sent.
    pub action: Option<String>,
    /// The `alert` object of the payload.
    pub alert: JsonValue,
}

/// A `repository` webhook payload.
#[derive(Debug, PartialEq)]
pub struct RepositoryEvent {
    /// The event's action.
    pub action: String,
    /// The `repository` object of the payload.
    pub repository: JsonValue,
}

/// A `secret_scanning_alert_location` webhook payload.
#[derive(Debug, PartialEq)]
pub struct SecretScanningAlertLocationEvent {
    /// The event's action, when one is sent.
    pub action: Option<String>,
    /// The `alert` object of the payload.
    pub alert: JsonValue,
    /// The `location` object of the payload.
    pub location: JsonValue,
}

/// A `secret_scanning_alert` webhook payload.
#[derive(Debug, PartialEq)]
pub struct SecretScanningAlertEvent {
    /// The event's action, when one is sent.
    pub action: Option<String>,
    /// The `alert` object of the payload.
    pub alert: JsonValue,
}

/// A `security_advisory` webhook payload.
#[derive(Debug, PartialEq)]
pub struct SecurityAdvisoryEvent {
    /// The event's action, when one is sent.
    pub action: Option<String>,
    /// The `security_advisory` object of the payload.
    pub security_advisory: JsonValue,
}

/// A `security_and_analysis` webhook payload.
#[derive(Debug, PartialEq)]
pub struct SecurityAndAnalysisEvent {
    /// The `changes` object of the payload.
    pub changes: JsonValue,
    /// The `repository` object of the payload.
    pub repository: JsonValue,
}

/// A `sponsorship` webhook payload.
#[derive(Debug, PartialEq)]
pub struct SponsorshipEvent {
    /// The event's action, when one is sent.
    pub action: Option<String>,
    /// The `sponsorship` object of the payload.
    pub sponsorship: JsonValue,
}

/// A `star` webhook payload.
#[derive(Debug, PartialEq)]
pub struct StarEvent {
    /// The event's action, when one is sent.
    pub action: Option<String>,
    /// The `starred_at` object of the payload.
    pub starred_at: JsonValue,
}

/// A `status` webhook payload.
#[derive(Debug, PartialEq)]
pub struct StatusEvent {
    /// The `sha` object of the payload.
    pub sha: JsonValue,
    /// The `state` object of the payload.
    pub state: JsonValue,
    /// The `context` object of the payload.
    pub context: JsonValue,
}

/// A `team_add` webhook payload.
#[derive(Debug, PartialEq)]
pub struct TeamAddEvent {
    /// The `team` object of the payload.
    pub team: JsonValue,
    /// The `repository` object of the payload.
    pub repository: JsonValue,
}

/// A `team` webhook payload.
#[derive(Debug, PartialEq)]
pub struct TeamEvent {
    /// The event's action, when one is sent.
    pub action: Option<String>,
    /// The `team` object of the payload.
    pub team: JsonValue,
}

/// A `watch` webhook payload.
#[derive(Debug, PartialEq)]
pub struct WatchEvent {
    /// The `repository` object of the payload.
    pub repository: JsonValue,
}

/// A `workflow_dispatch` webhook payload.
#[derive(Debug, PartialEq)]
pub struct WorkflowDispatchEvent {
    /// The `workflow` object of the payload.
    pub workflow: JsonValue,
    /// The `inputs` object of the payload.
    pub inputs: JsonValue,
}

/// A `workflow_job` webhook payload.
#[derive(Debug, PartialEq)]
pub struct WorkflowJobEvent {
    /// The event's action, when one is sent.
    pub action: Option<String>,
    /// The `workflow_job` object of the payload.
    pub workflow_job: JsonValue,
}

} // verus!
