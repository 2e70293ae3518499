//! The webhook event taxonomy: a closed set of payload shapes, an
//! envelope carrying the installation id, and the structural decoder
//! that resolves a parsed document to exactly one shape.
//!
//! The wire format carries no discriminant, so decoding tries each
//! shape in declaration order and accepts the first whose required
//! members are present; that order is part of this crate's contract.

pub mod laws;

use crate::error::OctoAppError;
use crate::json::{
    node_of, spec_member, spec_has_member, JsonNode, JsonValue, sp_doc, spec_lookup,
    lemma_members_from, lemma_members_from_zero, members_from, spec_print,
};
use crate::payloads;
use crate::strutil::{opt_view, str_eq};
use vstd::prelude::*;

verus! {

broadcast use vstd::std_specs::vec::group_vec_axioms, vstd::seq::group_seq_axioms;

/// A decoded webhook: the payload together with the installation id
/// taken from the same document, 0 meaning "none".
#[derive(Debug, PartialEq)]
pub struct WebHook<T>(pub T, pub u64);

impl<T> WebHook<T> {
    /// Consume the wrapper and return the inner payload, discarding
    /// the installation id.
    pub fn into_inner(self) -> (r: T)
        ensures
            r == self.0,
    {
        self.0
    }

    /// The installation id the document carried, 0 meaning "none".
    pub fn installation(&self) -> (r: u64)
        ensures
            r == self.1,
    {
        self.1
    }
}

/// The webhook events GitHub sends, in the order the decoder tries them.
#[derive(Debug, PartialEq)]
pub enum Event {
    /// A `branch_protection_rule` event.
    BranchProtectionRule(payloads::BranchProtectionRuleEvent),
    /// A `check_run` event.
    CheckRun(payloads::CheckRunEvent),
    /// A `check_suite` event.
    CheckSuite(payloads::CheckSuiteEvent),
    /// A `code_scanning_alert` event.
    CodeScanningAlert(payloads::CodeScanningAlertEvent),
    /// A `commit_comment` event.
    CommitComment(payloads::CommitCommentEvent),
    /// A `create` event.
    Create(payloads::CreateEvent),
    /// A `delete` event.
    Delete(payloads::DeleteEvent),
    /// A `dependabot_alert` event.
    DependabotAlert(payloads::DependabotAlertEvent),
    /// A `deploy_key` event.
    DeployKey(payloads::DeployKeyEvent),
    /// A `deployment_protection_rule` event.
    DeploymentProtectionRule(payloads::DeploymentProtectionRuleEvent),
    /// A `deployment_status` event.
    DeploymentStatus(payloads::DeploymentStatusEvent),
    /// A `deployment` event.
    Deployment(payloads::DeploymentEvent),
    /// A `discussion_comment` event.
    DiscussionComment(payloads::DiscussionCommentEvent),
    /// A `discussion` event.
    Discussion(payloads::DiscussionEvent),
    /// A `fork` event.
    Fork(payloads::ForkEvent),
    /// A `github_app_authorization` event.
    GithubAppAuthorization(payloads::GithubAppAuthorizationEvent),
    /// A `gollum` event.
    Gollum(payloads::GollumEvent),
    /// A `installation_repositories` event.
    InstallationRepositories(payloads::InstallationRepositoriesEvent),
    /// A `installation_target` event.
    InstallationTarget(payloads::InstallationTargetEvent),
    /// A `installation` event.
    Installation(payloads::InstallationEvent),
    /// A `issue_comment` event.
    IssueComment(payloads::IssueCommentEvent),
    /// A `issues` event.
    Issues(payloads::IssuesEvent),
    /// A `label` event.
    Label(payloads::LabelEvent),
    /// A `marketplace_purchase` event.
    MarketplacePurchase(payloads::MarketplacePurchaseEvent),
    /// A `member` event.
    Member(payloads::MemberEvent),
    /// A `membership` event.
    Membership(payloads::MembershipEvent),
    /// A `merge_group` event.
    MergeGroup(payloads::MergeGroupEvent),
    /// A `meta` event.
    Meta(payloads::MetaEvent),
    /// A `milestone` event.
    Milestone(payloads::MilestoneEvent),
    /// A `org_block` event.
    OrgBlock(payloads::OrgBlockEvent),
    /// A `organization` event.
    Organization(payloads::OrganizationEvent),
    /// A `package` event.
    Package(payloads::PackageEvent),
    /// A `page_build` event.
    PageBuild(payloads::PageBuildEvent),
    /// A `personal_access_token_request` event.
    PersonalAccessTokenRequest(payloads::PersonalAccessTokenRequestEvent),
    /// A `ping` event.
    Ping(payloads::PingEvent),
    /// A `project_card` event.
    ProjectCard(payloads::ProjectCardEvent),
    /// A `project_column` event.
    ProjectColumn(payloads::ProjectColumnEvent),
    /// A `projects_v2_item` event.
    ProjectsV2Item(payloads::ProjectsV2ItemEvent),
    /// A `projects_v2` event.
    ProjectsV2(payloads::ProjectsV2Event),
    /// A `public` event.
    Public(payloads::PublicEvent),
    /// A `pull_request_review_comment` event.
    PullRequestReviewComment(payloads::PullRequestReviewCommentEvent),
    /// A `pull_request_review_thread` event.
    PullRequestReviewThread(payloads::PullRequestReviewThreadEvent),
    /// A `pull_request_review` event.
    PullRequestReview(payloads::PullRequestReviewEvent),
    /// A `pull_request` event.
    PullRequest(payloads::PullRequestEvent),
    /// A `push` event.
    Push(payloads::PushEvent),
    /// A `registry_package` event.
    RegistryPackage(payloads::RegistryPackageEvent),
    /// A `release` event.
    Release(payloads::ReleaseEvent),
    /// A `repository_advisory` event.
    RepositoryAdvisory(payloads::RepositoryAdvisoryEvent),
    /// A `repository_import` event.
    RepositoryImport(payloads::RepositoryImportEvent),
    /// A `repository_vulnerability_alert` event.
    RepositoryVulnerabilityAlert(payloads::RepositoryVulnerabilityAlertEvent),
    /// A `repository` event.
    Repository(payloads::RepositoryEvent),
    /// A `secret_scanning_alert_location` event.
    SecretScanningAlertLocation(payloads::SecretScanningAlertLocationEvent),
    /// A `secret_scanning_alert` event.
    SecretScanningAlert(payloads::SecretScanningAlertEvent),
    /// A `security_advisory` event.
    SecurityAdvisory(payloads::SecurityAdvisoryEvent),
    /// A `security_and_analysis` event.
    SecurityAndAnalysis(payloads::SecurityAndAnalysisEvent),
    /// A `sponsorship` event.
    Sponsorship(payloads::SponsorshipEvent),
    /// A `star` event.
    Star(payloads::StarEvent),
    /// A `status` event.
    Status(payloads::StatusEvent),
    /// A `team_add` event.
    TeamAdd(payloads::TeamAddEvent),
    /// A `team` event.
    Team(payloads::TeamEvent),
    /// A `watch` event.
    Watch(payloads::WatchEvent),
    /// A `workflow_dispatch` event.
    WorkflowDispatch(payloads::WorkflowDispatchEvent),
    /// A `workflow_job` event.
    WorkflowJob(payloads::WorkflowJobEvent),
}

/// The mathematical shape of an [`Event`]: each payload as the views
/// of its fields.
pub enum EventV {
    /// The view of a `branch_protection_rule` payload.
    BranchProtectionRule(Option<Seq<char>>, JsonNode),
    /// The view of a `check_run` payload.
    CheckRun(Option<Seq<char>>, JsonNode),
    /// The view of a `check_suite` payload.
    CheckSuite(Option<Seq<char>>, JsonNode),
    /// The view of a `code_scanning_alert` payload.
    CodeScanningAlert(Option<Seq<char>>, JsonNode, JsonNode),
    /// The view of a `commit_comment` payload.
    CommitComment(Option<Seq<char>>, JsonNode),
    /// The view of a `create` payload.
    Create(JsonNode, JsonNode, JsonNode),
    /// The view of a `delete` payload.
    Delete(JsonNode, JsonNode),
    /// The view of a `dependabot_alert` payload.
    DependabotAlert(Option<Seq<char>>, JsonNode),
    /// The view of a `deploy_key` payload.
    DeployKey(Option<Seq<char>>, JsonNode),
    /// The view of a `deployment_protection_rule` payload.
    DeploymentProtectionRule(Option<Seq<char>>, JsonNode),
    /// The view of a `deployment_status` payload.
    DeploymentStatus(Option<Seq<char>>, JsonNode),
    /// The view of a `deployment` payload.
    Deployment(Option<Seq<char>>, JsonNode),
    /// The view of a `discussion_comment` payload.
    DiscussionComment(Option<Seq<char>>, JsonNode, JsonNode),
    /// The view of a `discussion` payload.
    Discussion(Option<Seq<char>>, JsonNode),
    /// The view of a `fork` payload.
    Fork(JsonNode),
    /// The view of a `github_app_authorization` payload.
    GithubAppAuthorization(JsonNode),
    /// The view of a `gollum` payload.
    Gollum(JsonNode),
    /// The view of a `installation_repositories` payload.
    InstallationRepositories(Option<Seq<char>>, JsonNode),
    /// The view of a `installation_target` payload.
    InstallationTarget(Option<Seq<char>>, JsonNode, JsonNode),
    /// The view of a `installation` payload.
    Installation(Option<Seq<char>>, JsonNode, JsonNode),
    /// The view of a `issue_comment` payload.
    IssueComment(Option<Seq<char>>, JsonNode, JsonNode),
    /// The view of a `issues` payload.
    Issues(Option<Seq<char>>, JsonNode),
    /// The view of a `label` payload.
    Label(Option<Seq<char>>, JsonNode),
    /// The view of a `marketplace_purchase` payload.
    MarketplacePurchase(Option<Seq<char>>, JsonNode),
    /// The view of a `member` payload.
    Member(Option<Seq<char>>, JsonNode),
    /// The view of a `membership` payload.
    Membership(Option<Seq<char>>, JsonNode, JsonNode),
    /// The view of a `merge_group` payload.
    MergeGroup(Option<Seq<char>>, JsonNode),
    /// The view of a `meta` payload.
    Meta(Option<Seq<char>>, JsonNode),
    /// The view of a `milestone` payload.
    Milestone(Option<Seq<char>>, JsonNode),
    /// The view of a `org_block` payload.
    OrgBlock(Option<Seq<char>>, JsonNode),
    /// The view of a `organization` payload.
    Organization(Seq<char>, JsonNode),
    /// The view of a `package` payload.
    Package(Option<Seq<char>>, JsonNode),
    /// The view of a `page_build` payload.
    PageBuild(JsonNode),
    /// The view of a `personal_access_token_request` payload.
    PersonalAccessTokenRequest(Option<Seq<char>>, JsonNode),
    /// The view of a `ping` payload.
    Ping(Seq<char>, u64),
    /// The view of a `project_card` payload.
    ProjectCard(Option<Seq<char>>, JsonNode),
    /// The view of a `project_column` payload.
    ProjectColumn(Option<Seq<char>>, JsonNode),
    /// The view of a `projects_v2_item` payload.
    ProjectsV2Item(Option<Seq<char>>, JsonNode),
    /// The view of a `projects_v2` payload.
    ProjectsV2(Option<Seq<char>>, JsonNode),
    /// The view of a `public` payload.
    Public(JsonNode, JsonNode),
    /// The view of a `pull_request_review_comment` payload.
    PullRequestReviewComment(Option<Seq<char>>, JsonNode, JsonNode),
    /// The view of a `pull_request_review_thread` payload.
    PullRequestReviewThread(Option<Seq<char>>, JsonNode, JsonNode),
    /// The view of a `pull_request_review` payload.
    PullRequestReview(Option<Seq<char>>, JsonNode, JsonNode),
    /// The view of a `pull_request` payload.
    PullRequest(Option<Seq<char>>, JsonNode, JsonNode),
    /// The view of a `push` payload.
    Push(JsonNode, JsonNode, JsonNode, JsonNode),
    /// The view of a `registry_package` payload.
    RegistryPackage(Option<Seq<char>>, JsonNode),
    /// The view of a `release` payload.
    Release(Option<Seq<char>>, JsonNode),
    /// The view of a `repository_advisory` payload.
    RepositoryAdvisory(Option<Seq<char>>, JsonNode),
    /// The view of a `repository_import` payload.
    RepositoryImport(JsonNode, JsonNode),
    /// The view of a `repository_vulnerability_alert` payload.
    RepositoryVulnerabilityAlert(Option<Seq<char>>, JsonNode),
    /// The view of a `repository` payload.
    Repository(Seq<char>, JsonNode),
    /// The view of a `secret_scanning_alert_location` payload.
    SecretScanningAlertLocation(Option<Seq<char>>, JsonNode, JsonNode),
    /// The view of a `secret_scanning_alert` payload.
    SecretScanningAlert(Option<Seq<char>>, JsonNode),
    /// The view of a `security_advisory` payload.
    SecurityAdvisory(Option<Seq<char>>, JsonNode),
    /// The view of a `security_and_analysis` payload.
    SecurityAndAnalysis(JsonNode, JsonNode),
    /// The view of a `sponsorship` payload.
    Sponsorship(Option<Seq<char>>, JsonNode),
    /// The view of a `star` payload.
    Star(Option<Seq<char>>, JsonNode),
    /// The view of a `status` payload.
    Status(JsonNode, JsonNode, JsonNode),
    /// The view of a `team_add` payload.
    TeamAdd(JsonNode, JsonNode),
    /// The view of a `team` payload.
    Team(Option<Seq<char>>, JsonNode),
    /// The view of a `watch` payload.
    Watch(JsonNode),
    /// The view of a `workflow_dispatch` payload.
    WorkflowDispatch(JsonNode, JsonNode),
    /// The view of a `workflow_job` payload.
    WorkflowJob(Option<Seq<char>>, JsonNode),
}

/// The view of an event: the payload's fields, as sequences and nodes.
pub open spec fn event_view(e: Event) -> EventV {
    match e {
        Event::BranchProtectionRule(p) => EventV::BranchProtectionRule(opt_view(p.action), node_of(p.rule)),
        Event::CheckRun(p) => EventV::CheckRun(opt_view(p.action), node_of(p.check_run)),
        Event::CheckSuite(p) => EventV::CheckSuite(opt_view(p.action), node_of(p.check_suite)),
        Event::CodeScanningAlert(p) => EventV::CodeScanningAlert(opt_view(p.action), node_of(p.alert), node_of(p.git_ref)),
        Event::CommitComment(p) => EventV::CommitComment(opt_view(p.action), node_of(p.comment)),
        Event::Create(p) => EventV::Create(node_of(p.git_ref), node_of(p.ref_type), node_of(p.master_branch)),
        Event::Delete(p) => EventV::Delete(node_of(p.git_ref), node_of(p.ref_type)),
        Event::DependabotAlert(p) => EventV::DependabotAlert(opt_view(p.action), node_of(p.alert)),
        Event::DeployKey(p) => EventV::DeployKey(opt_view(p.action), node_of(p.key)),
        Event::DeploymentProtectionRule(p) => EventV::DeploymentProtectionRule(opt_view(p.action), node_of(p.deployment_callback_url)),
        Event::DeploymentStatus(p) => EventV::DeploymentStatus(opt_view(p.action), node_of(p.deployment_status)),
        Event::Deployment(p) => EventV::Deployment(opt_view(p.action), node_of(p.deployment)),
        Event::DiscussionComment(p) => EventV::DiscussionComment(opt_view(p.action), node_of(p.comment), node_of(p.discussion)),
        Event::Discussion(p) => EventV::Discussion(opt_view(p.action), node_of(p.discussion)),
        Event::Fork(p) => EventV::Fork(node_of(p.forkee)),
        Event::GithubAppAuthorization(p) => EventV::GithubAppAuthorization(node_of(p.sender)),
        Event::Gollum(p) => EventV::Gollum(node_of(p.pages)),
        Event::InstallationRepositories(p) => EventV::InstallationRepositories(opt_view(p.action), node_of(p.repositories_added)),
        Event::InstallationTarget(p) => EventV::InstallationTarget(opt_view(p.action), node_of(p.account), node_of(p.target_type)),
        Event::Installation(p) => EventV::Installation(opt_view(p.action), node_of(p.installation), node_of(p.repositories)),
        Event::IssueComment(p) => EventV::IssueComment(opt_view(p.action), node_of(p.issue), node_of(p.comment)),
        Event::Issues(p) => EventV::Issues(opt_view(p.action), node_of(p.issue)),
        Event::Label(p) => EventV::Label(opt_view(p.action), node_of(p.label)),
        Event::MarketplacePurchase(p) => EventV::MarketplacePurchase(opt_view(p.action), node_of(p.marketplace_purchase)),
        Event::Member(p) => EventV::Member(opt_view(p.action), node_of(p.member)),
        Event::Membership(p) => EventV::Membership(opt_view(p.action), node_of(p.member), node_of(p.scope)),
        Event::MergeGroup(p) => EventV::MergeGroup(opt_view(p.action), node_of(p.merge_group)),
        Event::Meta(p) => EventV::Meta(opt_view(p.action), node_of(p.hook)),
        Event::Milestone(p) => EventV::Milestone(opt_view(p.action), node_of(p.milestone)),
        Event::OrgBlock(p) => EventV::OrgBlock(opt_view(p.action), node_of(p.blocked_user)),
        Event::Organization(p) => EventV::Organization(p.action@, node_of(p.organization)),
        Event::Package(p) => EventV::Package(opt_view(p.action), node_of(p.package)),
        Event::PageBuild(p) => EventV::PageBuild(node_of(p.build)),
        Event::PersonalAccessTokenRequest(p) => EventV::PersonalAccessTokenRequest(opt_view(p.action), node_of(p.personal_access_token_request)),
        Event::Ping(p) => EventV::Ping(p.zen@, p.hook_id),
        Event::ProjectCard(p) => EventV::ProjectCard(opt_view(p.action), node_of(p.project_card)),
        Event::ProjectColumn(p) => EventV::ProjectColumn(opt_view(p.action), node_of(p.project_column)),
        Event::ProjectsV2Item(p) => EventV::ProjectsV2Item(opt_view(p.action), node_of(p.projects_v2_item)),
        Event::ProjectsV2(p) => EventV::ProjectsV2(opt_view(p.action), node_of(p.projects_v2)),
        Event::Public(p) => EventV::Public(node_of(p.repository), node_of(p.sender)),
        Event::PullRequestReviewComment(p) => EventV::PullRequestReviewComment(opt_view(p.action), node_of(p.comment), node_of(p.pull_request)),
        Event::PullRequestReviewThread(p) => EventV::PullRequestReviewThread(opt_view(p.action), node_of(p.thread), node_of(p.pull_request)),
        Event::PullRequestReview(p) => EventV::PullRequestReview(opt_view(p.action), node_of(p.review), node_of(p.pull_request)),
        Event::PullRequest(p) => EventV::PullRequest(opt_view(p.action), node_of(p.pull_request), node_of(p.number)),
        Event::Push(p) => EventV::Push(node_of(p.git_ref), node_of(p.before), node_of(p.after), node_of(p.commits)),
        Event::RegistryPackage(p) => EventV::RegistryPackage(opt_view(p.action), node_of(p.registry_package)),
        Event::Release(p) => EventV::Release(opt_view(p.action), node_of(p.release)),
        Event::RepositoryAdvisory(p) => EventV::RepositoryAdvisory(opt_view(p.action), node_of(p.repository_advisory)),
        Event::RepositoryImport(p) => EventV::RepositoryImport(node_of(p.status), node_of(p.repository)),
        Event::RepositoryVulnerabilityAlert(p) => EventV::RepositoryVulnerabilityAlert(opt_view(p.action), node_of(p.alert)),
        Event::Repository(p) => EventV::Repository(p.action@, node_of(p.repository)),
        Event::SecretScanningAlertLocation(p) => EventV::SecretScanningAlertLocation(opt_view(p.action), node_of(p.alert), node_of(p.location)),
        Event::SecretScanningAlert(p) => EventV::SecretScanningAlert(opt_view(p.action), node_of(p.alert)),
        Event::SecurityAdvisory(p) => EventV::SecurityAdvisory(opt_view(p.action), node_of(p.security_advisory)),
        Event::SecurityAndAnalysis(p) => EventV::SecurityAndAnalysis(node_of(p.changes), node_of(p.repository)),
        Event::Sponsorship(p) => EventV::Sponsorship(opt_view(p.action), node_of(p.sponsorship)),
        Event::Star(p) => EventV::Star(opt_view(p.action), node_of(p.starred_at)),
        Event::Status(p) => EventV::Status(node_of(p.sha), node_of(p.state), node_of(p.context)),
        Event::TeamAdd(p) => EventV::TeamAdd(node_of(p.team), node_of(p.repository)),
        Event::Team(p) => EventV::Team(opt_view(p.action), node_of(p.team)),
        Event::Watch(p) => EventV::Watch(node_of(p.repository)),
        Event::WorkflowDispatch(p) => EventV::WorkflowDispatch(node_of(p.workflow), node_of(p.inputs)),
        Event::WorkflowJob(p) => EventV::WorkflowJob(opt_view(p.action), node_of(p.workflow_job)),
    }
}

/// Whether `d` is an object whose member `k1` is an object with a
/// member `k2`.
pub open spec fn nested_has(d: JsonNode, k1: Seq<char>, k2: Seq<char>) -> bool {
    match spec_member(d, k1) {
        Some(v) => spec_has_member(v, k2),
        None => false,
    }
}

/// The `action` member, when it is present and a string.
pub open spec fn action_of(d: JsonNode) -> Option<Seq<char>> {
    match spec_member(d, "action"@) {
        Some(a) => match a {
            JsonNode::Str(t) => Some(t),
            _ => None,
        },
        _ => None,
    }
}

/// Whether a document has the shape of a `branch_protection_rule` event.
pub open spec fn spec_is_branch_protection_rule(d: JsonNode) -> bool {
    &&& spec_has_member(d, "rule"@)
}

/// Whether a document has the shape of a `check_run` event.
pub open spec fn spec_is_check_run(d: JsonNode) -> bool {
    &&& spec_has_member(d, "check_run"@)
}

/// Whether a document has the shape of a `check_suite` event.
pub open spec fn spec_is_check_suite(d: JsonNode) -> bool {
    &&& spec_has_member(d, "check_suite"@)
}

/// Whether a document has the shape of a `code_scanning_alert` event.
pub open spec fn spec_is_code_scanning_alert(d: JsonNode) -> bool {
    &&& spec_has_member(d, "alert"@)
    &&& spec_has_member(d, "ref"@)
}

/// Whether a document has the shape of a `commit_comment` event.
pub open spec fn spec_is_commit_comment(d: JsonNode) -> bool {
    &&& spec_has_member(d, "comment"@)
    &&& !spec_has_member(d, "issue"@)
    &&& !spec_has_member(d, "discussion"@)
    &&& !spec_has_member(d, "pull_request"@)
    &&& !spec_has_member(d, "thread"@)
}

/// Whether a document has the shape of a `create` event.
pub open spec fn spec_is_create(d: JsonNode) -> bool {
    &&& spec_has_member(d, "ref"@)
    &&& spec_has_member(d, "ref_type"@)
    &&& spec_has_member(d, "master_branch"@)
}

/// Whether a document has the shape of a `delete` event.
pub open spec fn spec_is_delete(d: JsonNode) -> bool {
    &&& spec_has_member(d, "ref"@)
    &&& spec_has_member(d, "ref_type"@)
}

/// Whether a document has the shape of a `dependabot_alert` event.
pub open spec fn spec_is_dependabot_alert(d: JsonNode) -> bool {
    &&& spec_has_member(d, "alert"@)
    &&& nested_has(d, "alert"@, "dependency"@)
}

/// Whether a document has the shape of a `deploy_key` event.
pub open spec fn spec_is_deploy_key(d: JsonNode) -> bool {
    &&& spec_has_member(d, "key"@)
}

/// Whether a document has the shape of a `deployment_protection_rule` event.
pub open spec fn spec_is_deployment_protection_rule(d: JsonNode) -> bool {
    &&& spec_has_member(d, "deployment_callback_url"@)
}

/// Whether a document has the shape of a `deployment_status` event.
pub open spec fn spec_is_deployment_status(d: JsonNode) -> bool {
    &&& spec_has_member(d, "deployment_status"@)
}

/// Whether a document has the shape of a `deployment` event.
pub open spec fn spec_is_deployment(d: JsonNode) -> bool {
    &&& spec_has_member(d, "deployment"@)
}

/// Whether a document has the shape of a `discussion_comment` event.
pub open spec fn spec_is_discussion_comment(d: JsonNode) -> bool {
    &&& spec_has_member(d, "comment"@)
    &&& spec_has_member(d, "discussion"@)
}

/// Whether a document has the shape of a `discussion` event.
pub open spec fn spec_is_discussion(d: JsonNode) -> bool {
    &&& spec_has_member(d, "discussion"@)
}

/// Whether a document has the shape of a `fork` event.
pub open spec fn spec_is_fork(d: JsonNode) -> bool {
    &&& spec_has_member(d, "forkee"@)
}

/// Whether a document has the shape of a `github_app_authorization` event.
pub open spec fn spec_is_github_app_authorization(d: JsonNode) -> bool {
    &&& spec_has_member(d, "sender"@)
    &&& action_of(d) == Some("revoked"@)
}

/// Whether a document has the shape of a `gollum` event.
pub open spec fn spec_is_gollum(d: JsonNode) -> bool {
    &&& spec_has_member(d, "pages"@)
}

/// Whether a document has the shape of a `installation_repositories` event.
pub open spec fn spec_is_installation_repositories(d: JsonNode) -> bool {
    &&& spec_has_member(d, "repositories_added"@)
}

/// Whether a document has the shape of a `installation_target` event.
pub open spec fn spec_is_installation_target(d: JsonNode) -> bool {
    &&& spec_has_member(d, "account"@)
    &&& spec_has_member(d, "target_type"@)
}

/// Whether a document has the shape of a `installation` event.
pub open spec fn spec_is_installation(d: JsonNode) -> bool {
    &&& spec_has_member(d, "installation"@)
    &&& spec_has_member(d, "repositories"@)
}

/// Whether a document has the shape of a `issue_comment` event.
pub open spec fn spec_is_issue_comment(d: JsonNode) -> bool {
    &&& spec_has_member(d, "issue"@)
    &&& spec_has_member(d, "comment"@)
}

/// Whether a document has the shape of a `issues` event.
pub open spec fn spec_is_issues(d: JsonNode) -> bool {
    &&& spec_has_member(d, "issue"@)
}

/// Whether a document has the shape of a `label` event.
pub open spec fn spec_is_label(d: JsonNode) -> bool {
    &&& spec_has_member(d, "label"@)
}

/// Whether a document has the shape of a `marketplace_purchase` event.
pub open spec fn spec_is_marketplace_purchase(d: JsonNode) -> bool {
    &&& spec_has_member(d, "marketplace_purchase"@)
}

/// Whether a document has the shape of a `member` event.
pub open spec fn spec_is_member(d: JsonNode) -> bool {
    &&& spec_has_member(d, "member"@)
    &&& !spec_has_member(d, "scope"@)
    &&& !spec_has_member(d, "team"@)
}

/// Whether a document has the shape of a `membership` event.
pub open spec fn spec_is_membership(d: JsonNode) -> bool {
    &&& spec_has_member(d, "member"@)
    &&& spec_has_member(d, "scope"@)
}

/// Whether a document has the shape of a `merge_group` event.
pub open spec fn spec_is_merge_group(d: JsonNode) -> bool {
    &&& spec_has_member(d, "merge_group"@)
}

/// Whether a document has the shape of a `meta` event.
pub open spec fn spec_is_meta(d: JsonNode) -> bool {
    &&& spec_has_member(d, "hook"@)
}

/// Whether a document has the shape of a `milestone` event.
pub open spec fn spec_is_milestone(d: JsonNode) -> bool {
    &&& spec_has_member(d, "milestone"@)
}

/// Whether a document has the shape of a `org_block` event.
pub open spec fn spec_is_org_block(d: JsonNode) -> bool {
    &&& spec_has_member(d, "blocked_user"@)
}

/// Whether a document has the shape of a `organization` event.
pub open spec fn spec_is_organization(d: JsonNode) -> bool {
    &&& spec_has_member(d, "organization"@)
    &&& action_of(d) matches Some(a) && (a == "deleted"@ || a == "member_added"@ || a == "member_invited"@ || a == "member_removed"@ || a == "renamed"@)
}

/// Whether a document has the shape of a `package` event.
pub open spec fn spec_is_package(d: JsonNode) -> bool {
    &&& spec_has_member(d, "package"@)
}

/// Whether a document has the shape of a `page_build` event.
pub open spec fn spec_is_page_build(d: JsonNode) -> bool {
    &&& spec_has_member(d, "build"@)
}

/// Whether a document has the shape of a `personal_access_token_request` event.
pub open spec fn spec_is_personal_access_token_request(d: JsonNode) -> bool {
    &&& spec_has_member(d, "personal_access_token_request"@)
}

/// Whether a document has the shape of a `ping` event.
pub open spec fn spec_is_ping(d: JsonNode) -> bool {
    &&& spec_member(d, "zen"@) matches Some(z) && z is Str
    &&& spec_member(d, "hook_id"@) matches Some(h) && h is Int && h->Int_0 >= 0
}

/// Whether a document has the shape of a `project_card` event.
pub open spec fn spec_is_project_card(d: JsonNode) -> bool {
    &&& spec_has_member(d, "project_card"@)
}

/// Whether a document has the shape of a `project_column` event.
pub open spec fn spec_is_project_column(d: JsonNode) -> bool {
    &&& spec_has_member(d, "project_column"@)
}

/// Whether a document has the shape of a `projects_v2_item` event.
pub open spec fn spec_is_projects_v2_item(d: JsonNode) -> bool {
    &&& spec_has_member(d, "projects_v2_item"@)
}

/// Whether a document has the shape of a `projects_v2` event.
pub open spec fn spec_is_projects_v2(d: JsonNode) -> bool {
    &&& spec_has_member(d, "projects_v2"@)
}

/// Whether a document has the shape of a `public` event.
pub open spec fn spec_is_public(d: JsonNode) -> bool {
    &&& spec_has_member(d, "repository"@)
    &&& spec_has_member(d, "sender"@)
    &&& !spec_has_member(d, "action"@)
}

/// Whether a document has the shape of a `pull_request_review_comment` event.
pub open spec fn spec_is_pull_request_review_comment(d: JsonNode) -> bool {
    &&& spec_has_member(d, "comment"@)
    &&& spec_has_member(d, "pull_request"@)
}

/// Whether a document has the shape of a `pull_request_review_thread` event.
pub open spec fn spec_is_pull_request_review_thread(d: JsonNode) -> bool {
    &&& spec_has_member(d, "thread"@)
    &&& spec_has_member(d, "pull_request"@)
}

/// Whether a document has the shape of a `pull_request_review` event.
pub open spec fn spec_is_pull_request_review(d: JsonNode) -> bool {
    &&& spec_has_member(d, "review"@)
    &&& spec_has_member(d, "pull_request"@)
}

/// Whether a document has the shape of a `pull_request` event.
pub open spec fn spec_is_pull_request(d: JsonNode) -> bool {
    &&& spec_has_member(d, "pull_request"@)
    &&& spec_has_member(d, "number"@)
}

/// Whether a document has the shape of a `push` event.
pub open spec fn spec_is_push(d: JsonNode) -> bool {
    &&& spec_has_member(d, "ref"@)
    &&& spec_has_member(d, "before"@)
    &&& spec_has_member(d, "after"@)
    &&& spec_has_member(d, "commits"@)
}

/// Whether a document has the shape of a `registry_package` event.
pub open spec fn spec_is_registry_package(d: JsonNode) -> bool {
    &&& spec_has_member(d, "registry_package"@)
}

/// Whether a document has the shape of a `release` event.
pub open spec fn spec_is_release(d: JsonNode) -> bool {
    &&& spec_has_member(d, "release"@)
}

/// Whether a document has the shape of a `repository_advisory` event.
pub open spec fn spec_is_repository_advisory(d: JsonNode) -> bool {
    &&& spec_has_member(d, "repository_advisory"@)
}

/// Whether a document has the shape of a `repository_import` event.
pub open spec fn spec_is_repository_import(d: JsonNode) -> bool {
    &&& spec_has_member(d, "status"@)
    &&& spec_has_member(d, "repository"@)
}

/// Whether a document has the shape of a `repository_vulnerability_alert` event.
pub open spec fn spec_is_repository_vulnerability_alert(d: JsonNode) -> bool {
    &&& spec_has_member(d, "alert"@)
    &&& nested_has(d, "alert"@, "affected_range"@)
}

/// Whether a document has the shape of a `repository` event.
pub open spec fn spec_is_repository(d: JsonNode) -> bool {
    &&& spec_has_member(d, "repository"@)
    &&& action_of(d) matches Some(a) && (a == "created"@ || a == "deleted"@ || a == "archived"@ || a == "unarchived"@ || a == "edited"@ || a == "renamed"@ || a == "transferred"@ || a == "publicized"@ || a == "privatized"@)
}

/// Whether a document has the shape of a `secret_scanning_alert_location` event.
pub open spec fn spec_is_secret_scanning_alert_location(d: JsonNode) -> bool {
    &&& spec_has_member(d, "alert"@)
    &&& spec_has_member(d, "location"@)
}

/// Whether a document has the shape of a `secret_scanning_alert` event.
pub open spec fn spec_is_secret_scanning_alert(d: JsonNode) -> bool {
    &&& spec_has_member(d, "alert"@)
    &&& nested_has(d, "alert"@, "secret_type"@)
}

/// Whether a document has the shape of a `security_advisory` event.
pub open spec fn spec_is_security_advisory(d: JsonNode) -> bool {
    &&& spec_has_member(d, "security_advisory"@)
}

/// Whether a document has the shape of a `security_and_analysis` event.
pub open spec fn spec_is_security_and_analysis(d: JsonNode) -> bool {
    &&& spec_has_member(d, "changes"@)
    &&& spec_has_member(d, "repository"@)
}

/// Whether a document has the shape of a `sponsorship` event.
pub open spec fn spec_is_sponsorship(d: JsonNode) -> bool {
    &&& spec_has_member(d, "sponsorship"@)
}

/// Whether a document has the shape of a `star` event.
pub open spec fn spec_is_star(d: JsonNode) -> bool {
    &&& spec_has_member(d, "starred_at"@)
}

/// Whether a document has the shape of a `status` event.
pub open spec fn spec_is_status(d: JsonNode) -> bool {
    &&& spec_has_member(d, "sha"@)
    &&& spec_has_member(d, "state"@)
    &&& spec_has_member(d, "context"@)
}

/// Whether a document has the shape of a `team_add` event.
pub open spec fn spec_is_team_add(d: JsonNode) -> bool {
    &&& spec_has_member(d, "team"@)
    &&& spec_has_member(d, "repository"@)
    &&& !spec_has_member(d, "action"@)
}

/// Whether a document has the shape of a `team` event.
pub open spec fn spec_is_team(d: JsonNode) -> bool {
    &&& spec_has_member(d, "team"@)
}

/// Whether a document has the shape of a `watch` event.
pub open spec fn spec_is_watch(d: JsonNode) -> bool {
    &&& spec_has_member(d, "repository"@)
    &&& action_of(d) == Some("started"@)
}

/// Whether a document has the shape of a `workflow_dispatch` event.
pub open spec fn spec_is_workflow_dispatch(d: JsonNode) -> bool {
    &&& spec_has_member(d, "workflow"@)
    &&& spec_has_member(d, "inputs"@)
}

/// Whether a document has the shape of a `workflow_job` event.
pub open spec fn spec_is_workflow_job(d: JsonNode) -> bool {
    &&& spec_has_member(d, "workflow_job"@)
}

/// Which shape a document resolves to: the first, in declaration
/// order, whose required members are present — or none.
pub open spec fn spec_decode(d: JsonNode) -> Option<EventV> {
    if spec_is_branch_protection_rule(d) {
        Some(EventV::BranchProtectionRule(action_of(d), spec_member(d, "rule"@)->Some_0))
    } else if spec_is_check_run(d) {
        Some(EventV::CheckRun(action_of(d), spec_member(d, "check_run"@)->Some_0))
    } else if spec_is_check_suite(d) {
        Some(EventV::CheckSuite(action_of(d), spec_member(d, "check_suite"@)->Some_0))
    } else if spec_is_code_scanning_alert(d) {
        Some(EventV::CodeScanningAlert(action_of(d), spec_member(d, "alert"@)->Some_0, spec_member(d, "ref"@)->Some_0))
    } else if spec_is_commit_comment(d) {
        Some(EventV::CommitComment(action_of(d), spec_member(d, "comment"@)->Some_0))
    } else if spec_is_create(d) {
        Some(EventV::Create(spec_member(d, "ref"@)->Some_0, spec_member(d, "ref_type"@)->Some_0, spec_member(d, "master_branch"@)->Some_0))
    } else if spec_is_delete(d) {
        Some(EventV::Delete(spec_member(d, "ref"@)->Some_0, spec_member(d, "ref_type"@)->Some_0))
    } else if spec_is_dependabot_alert(d) {
        Some(EventV::DependabotAlert(action_of(d), spec_member(d, "alert"@)->Some_0))
    } else if spec_is_deploy_key(d) {
        Some(EventV::DeployKey(action_of(d), spec_member(d, "key"@)->Some_0))
    } else if spec_is_deployment_protection_rule(d) {
        Some(EventV::DeploymentProtectionRule(action_of(d), spec_member(d, "deployment_callback_url"@)->Some_0))
    } else if spec_is_deployment_status(d) {
        Some(EventV::DeploymentStatus(action_of(d), spec_member(d, "deployment_status"@)->Some_0))
    } else if spec_is_deployment(d) {
        Some(EventV::Deployment(action_of(d), spec_member(d, "deployment"@)->Some_0))
    } else if spec_is_discussion_comment(d) {
        Some(EventV::DiscussionComment(action_of(d), spec_member(d, "comment"@)->Some_0, spec_member(d, "discussion"@)->Some_0))
    } else if spec_is_discussion(d) {
        Some(EventV::Discussion(action_of(d), spec_member(d, "discussion"@)->Some_0))
    } else if spec_is_fork(d) {
        Some(EventV::Fork(spec_member(d, "forkee"@)->Some_0))
    } else if spec_is_github_app_authorization(d) {
        Some(EventV::GithubAppAuthorization(spec_member(d, "sender"@)->Some_0))
    } else if spec_is_gollum(d) {
        Some(EventV::Gollum(spec_member(d, "pages"@)->Some_0))
    } else if spec_is_installation_repositories(d) {
        Some(EventV::InstallationRepositories(action_of(d), spec_member(d, "repositories_added"@)->Some_0))
    } else if spec_is_installation_target(d) {
        Some(EventV::InstallationTarget(action_of(d), spec_member(d, "account"@)->Some_0, spec_member(d, "target_type"@)->Some_0))
    } else if spec_is_installation(d) {
        Some(EventV::Installation(action_of(d), spec_member(d, "installation"@)->Some_0, spec_member(d, "repositories"@)->Some_0))
    } else if spec_is_issue_comment(d) {
        Some(EventV::IssueComment(action_of(d), spec_member(d, "issue"@)->Some_0, spec_member(d, "comment"@)->Some_0))
    } else if spec_is_issues(d) {
        Some(EventV::Issues(action_of(d), spec_member(d, "issue"@)->Some_0))
    } else if spec_is_label(d) {
        Some(EventV::Label(action_of(d), spec_member(d, "label"@)->Some_0))
    } else if spec_is_marketplace_purchase(d) {
        Some(EventV::MarketplacePurchase(action_of(d), spec_member(d, "marketplace_purchase"@)->Some_0))
    } else if spec_is_member(d) {
        Some(EventV::Member(action_of(d), spec_member(d, "member"@)->Some_0))
    } else if spec_is_membership(d) {
        Some(EventV::Membership(action_of(d), spec_member(d, "member"@)->Some_0, spec_member(d, "scope"@)->Some_0))
    } else if spec_is_merge_group(d) {
        Some(EventV::MergeGroup(action_of(d), spec_member(d, "merge_group"@)->Some_0))
    } else if spec_is_meta(d) {
        Some(EventV::Meta(action_of(d), spec_member(d, "hook"@)->Some_0))
    } else if spec_is_milestone(d) {
        Some(EventV::Milestone(action_of(d), spec_member(d, "milestone"@)->Some_0))
    } else if spec_is_org_block(d) {
        Some(EventV::OrgBlock(action_of(d), spec_member(d, "blocked_user"@)->Some_0))
    } else if spec_is_organization(d) {
        Some(EventV::Organization(action_of(d)->Some_0, spec_member(d, "organization"@)->Some_0))
    } else if spec_is_package(d) {
        Some(EventV::Package(action_of(d), spec_member(d, "package"@)->Some_0))
    } else if spec_is_page_build(d) {
        Some(EventV::PageBuild(spec_member(d, "build"@)->Some_0))
    } else if spec_is_personal_access_token_request(d) {
        Some(EventV::PersonalAccessTokenRequest(action_of(d), spec_member(d, "personal_access_token_request"@)->Some_0))
    } else if spec_is_ping(d) {
        Some(EventV::Ping(spec_member(d, "zen"@)->Some_0->Str_0, (spec_member(d, "hook_id"@)->Some_0->Int_0) as u64))
    } else if spec_is_project_card(d) {
        Some(EventV::ProjectCard(action_of(d), spec_member(d, "project_card"@)->Some_0))
    } else if spec_is_project_column(d) {
        Some(EventV::ProjectColumn(action_of(d), spec_member(d, "project_column"@)->Some_0))
    } else if spec_is_projects_v2_item(d) {
        Some(EventV::ProjectsV2Item(action_of(d), spec_member(d, "projects_v2_item"@)->Some_0))
    } else if spec_is_projects_v2(d) {
        Some(EventV::ProjectsV2(action_of(d), spec_member(d, "projects_v2"@)->Some_0))
    } else if spec_is_public(d) {
        Some(EventV::Public(spec_member(d, "repository"@)->Some_0, spec_member(d, "sender"@)->Some_0))
    } else if spec_is_pull_request_review_comment(d) {
        Some(EventV::PullRequestReviewComment(action_of(d), spec_member(d, "comment"@)->Some_0, spec_member(d, "pull_request"@)->Some_0))
    } else if spec_is_pull_request_review_thread(d) {
        Some(EventV::PullRequestReviewThread(action_of(d), spec_member(d, "thread"@)->Some_0, spec_member(d, "pull_request"@)->Some_0))
    } else if spec_is_pull_request_review(d) {
        Some(EventV::PullRequestReview(action_of(d), spec_member(d, "review"@)->Some_0, spec_member(d, "pull_request"@)->Some_0))
    } else if spec_is_pull_request(d) {
        Some(EventV::PullRequest(action_of(d), spec_member(d, "pull_request"@)->Some_0, spec_member(d, "number"@)->Some_0))
    } else if spec_is_push(d) {
        Some(EventV::Push(spec_member(d, "ref"@)->Some_0, spec_member(d, "before"@)->Some_0, spec_member(d, "after"@)->Some_0, spec_member(d, "commits"@)->Some_0))
    } else if spec_is_registry_package(d) {
        Some(EventV::RegistryPackage(action_of(d), spec_member(d, "registry_package"@)->Some_0))
    } else if spec_is_release(d) {
        Some(EventV::Release(action_of(d), spec_member(d, "release"@)->Some_0))
    } else if spec_is_repository_advisory(d) {
        Some(EventV::RepositoryAdvisory(action_of(d), spec_member(d, "repository_advisory"@)->Some_0))
    } else if spec_is_repository_import(d) {
        Some(EventV::RepositoryImport(spec_member(d, "status"@)->Some_0, spec_member(d, "repository"@)->Some_0))
    } else if spec_is_repository_vulnerability_alert(d) {
        Some(EventV::RepositoryVulnerabilityAlert(action_of(d), spec_member(d, "alert"@)->Some_0))
    } else if spec_is_repository(d) {
        Some(EventV::Repository(action_of(d)->Some_0, spec_member(d, "repository"@)->Some_0))
    } else if spec_is_secret_scanning_alert_location(d) {
        Some(EventV::SecretScanningAlertLocation(action_of(d), spec_member(d, "alert"@)->Some_0, spec_member(d, "location"@)->Some_0))
    } else if spec_is_secret_scanning_alert(d) {
        Some(EventV::SecretScanningAlert(action_of(d), spec_member(d, "alert"@)->Some_0))
    } else if spec_is_security_advisory(d) {
        Some(EventV::SecurityAdvisory(action_of(d), spec_member(d, "security_advisory"@)->Some_0))
    } else if spec_is_security_and_analysis(d) {
        Some(EventV::SecurityAndAnalysis(spec_member(d, "changes"@)->Some_0, spec_member(d, "repository"@)->Some_0))
    } else if spec_is_sponsorship(d) {
        Some(EventV::Sponsorship(action_of(d), spec_member(d, "sponsorship"@)->Some_0))
    } else if spec_is_star(d) {
        Some(EventV::Star(action_of(d), spec_member(d, "starred_at"@)->Some_0))
    } else if spec_is_status(d) {
        Some(EventV::Status(spec_member(d, "sha"@)->Some_0, spec_member(d, "state"@)->Some_0, spec_member(d, "context"@)->Some_0))
    } else if spec_is_team_add(d) {
        Some(EventV::TeamAdd(spec_member(d, "team"@)->Some_0, spec_member(d, "repository"@)->Some_0))
    } else if spec_is_team(d) {
        Some(EventV::Team(action_of(d), spec_member(d, "team"@)->Some_0))
    } else if spec_is_watch(d) {
        Some(EventV::Watch(spec_member(d, "repository"@)->Some_0))
    } else if spec_is_workflow_dispatch(d) {
        Some(EventV::WorkflowDispatch(spec_member(d, "workflow"@)->Some_0, spec_member(d, "inputs"@)->Some_0))
    } else if spec_is_workflow_job(d) {
        Some(EventV::WorkflowJob(action_of(d), spec_member(d, "workflow_job"@)->Some_0))
    } else {
        None
    }
}

/// Which payload values the taxonomy itself can round-trip: the
/// alert-bearing shapes must carry the nested markers that tell them
/// apart, an action drawn from a fixed set must be in that set, and a
/// ping hook id must fit a JSON integer.
pub open spec fn wf_event(ev: EventV) -> bool {
    match ev {
        EventV::DependabotAlert(_a, alert) => spec_has_member(alert, "dependency"@),
        EventV::RepositoryVulnerabilityAlert(_a, alert) => spec_has_member(
            alert,
            "affected_range"@,
        ) && !spec_has_member(alert, "dependency"@),
        EventV::SecretScanningAlertLocation(_a, alert, _loc) => !spec_has_member(
            alert,
            "dependency"@,
        ) && !spec_has_member(alert, "affected_range"@),
        EventV::SecretScanningAlert(_a, alert) => spec_has_member(alert, "secret_type"@)
            && !spec_has_member(alert, "dependency"@) && !spec_has_member(
            alert,
            "affected_range"@,
        ),
        EventV::Organization(a, _o) => a == "deleted"@ || a == "member_added"@ || a == "member_invited"@ || a == "member_removed"@ || a == "renamed"@,
        EventV::Repository(a, _r) => a == "created"@ || a == "deleted"@ || a == "archived"@ || a == "unarchived"@ || a == "edited"@ || a == "renamed"@ || a == "transferred"@ || a == "publicized"@ || a == "privatized"@,
        EventV::Ping(_z, hook_id) => hook_id <= 0x7fff_ffff_ffff_ffff,
        _ => true,
    }
}

/// The leading `action` member an encoded payload carries, when any.
pub open spec fn opt_action_members(a: Option<Seq<char>>) -> Seq<(Seq<char>, JsonNode)> {
    match a {
        Some(t) => seq![("action"@, JsonNode::Str(t))],
        None => Seq::empty(),
    }
}

/// The document a payload encodes to: its `action`, when any, then its
/// identifying members, in order.
pub open spec fn spec_encode(ev: EventV) -> JsonNode {
    match ev {
        EventV::BranchProtectionRule(a, m0) => JsonNode::Obj(opt_action_members(a) + seq![("rule"@, m0)]),
        EventV::CheckRun(a, m0) => JsonNode::Obj(opt_action_members(a) + seq![("check_run"@, m0)]),
        EventV::CheckSuite(a, m0) => JsonNode::Obj(opt_action_members(a) + seq![("check_suite"@, m0)]),
        EventV::CodeScanningAlert(a, m0, m1) => JsonNode::Obj(opt_action_members(a) + seq![("alert"@, m0), ("ref"@, m1)]),
        EventV::CommitComment(a, m0) => JsonNode::Obj(opt_action_members(a) + seq![("comment"@, m0)]),
        EventV::Create(m0, m1, m2) => JsonNode::Obj(seq![("ref"@, m0), ("ref_type"@, m1), ("master_branch"@, m2)]),
        EventV::Delete(m0, m1) => JsonNode::Obj(seq![("ref"@, m0), ("ref_type"@, m1)]),
        EventV::DependabotAlert(a, m0) => JsonNode::Obj(opt_action_members(a) + seq![("alert"@, m0)]),
        EventV::DeployKey(a, m0) => JsonNode::Obj(opt_action_members(a) + seq![("key"@, m0)]),
        EventV::DeploymentProtectionRule(a, m0) => JsonNode::Obj(opt_action_members(a) + seq![("deployment_callback_url"@, m0)]),
        EventV::DeploymentStatus(a, m0) => JsonNode::Obj(opt_action_members(a) + seq![("deployment_status"@, m0)]),
        EventV::Deployment(a, m0) => JsonNode::Obj(opt_action_members(a) + seq![("deployment"@, m0)]),
        EventV::DiscussionComment(a, m0, m1) => JsonNode::Obj(opt_action_members(a) + seq![("comment"@, m0), ("discussion"@, m1)]),
        EventV::Discussion(a, m0) => JsonNode::Obj(opt_action_members(a) + seq![("discussion"@, m0)]),
        EventV::Fork(m0) => JsonNode::Obj(seq![("forkee"@, m0)]),
        EventV::GithubAppAuthorization(m0) => JsonNode::Obj(seq![("action"@, JsonNode::Str("revoked"@)), ("sender"@, m0)]),
        EventV::Gollum(m0) => JsonNode::Obj(seq![("pages"@, m0)]),
        EventV::InstallationRepositories(a, m0) => JsonNode::Obj(opt_action_members(a) + seq![("repositories_added"@, m0)]),
        EventV::InstallationTarget(a, m0, m1) => JsonNode::Obj(opt_action_members(a) + seq![("account"@, m0), ("target_type"@, m1)]),
        EventV::Installation(a, m0, m1) => JsonNode::Obj(opt_action_members(a) + seq![("installation"@, m0), ("repositories"@, m1)]),
        EventV::IssueComment(a, m0, m1) => JsonNode::Obj(opt_action_members(a) + seq![("issue"@, m0), ("comment"@, m1)]),
        EventV::Issues(a, m0) => JsonNode::Obj(opt_action_members(a) + seq![("issue"@, m0)]),
        EventV::Label(a, m0) => JsonNode::Obj(opt_action_members(a) + seq![("label"@, m0)]),
        EventV::MarketplacePurchase(a, m0) => JsonNode::Obj(opt_action_members(a) + seq![("marketplace_purchase"@, m0)]),
        EventV::Member(a, m0) => JsonNode::Obj(opt_action_members(a) + seq![("member"@, m0)]),
        EventV::Membership(a, m0, m1) => JsonNode::Obj(opt_action_members(a) + seq![("member"@, m0), ("scope"@, m1)]),
        EventV::MergeGroup(a, m0) => JsonNode::Obj(opt_action_members(a) + seq![("merge_group"@, m0)]),
        EventV::Meta(a, m0) => JsonNode::Obj(opt_action_members(a) + seq![("hook"@, m0)]),
        EventV::Milestone(a, m0) => JsonNode::Obj(opt_action_members(a) + seq![("milestone"@, m0)]),
        EventV::OrgBlock(a, m0) => JsonNode::Obj(opt_action_members(a) + seq![("blocked_user"@, m0)]),
        EventV::Organization(a, m0) => JsonNode::Obj(seq![("action"@, JsonNode::Str(a)), ("organization"@, m0)]),
        EventV::Package(a, m0) => JsonNode::Obj(opt_action_members(a) + seq![("package"@, m0)]),
        EventV::PageBuild(m0) => JsonNode::Obj(seq![("build"@, m0)]),
        EventV::PersonalAccessTokenRequest(a, m0) => JsonNode::Obj(opt_action_members(a) + seq![("personal_access_token_request"@, m0)]),
        EventV::Ping(z, h) => JsonNode::Obj(seq![("zen"@, JsonNode::Str(z)), ("hook_id"@, JsonNode::Int((h as i64) as int))]),
        EventV::ProjectCard(a, m0) => JsonNode::Obj(opt_action_members(a) + seq![("project_card"@, m0)]),
        EventV::ProjectColumn(a, m0) => JsonNode::Obj(opt_action_members(a) + seq![("project_column"@, m0)]),
        EventV::ProjectsV2Item(a, m0) => JsonNode::Obj(opt_action_members(a) + seq![("projects_v2_item"@, m0)]),
        EventV::ProjectsV2(a, m0) => JsonNode::Obj(opt_action_members(a) + seq![("projects_v2"@, m0)]),
        EventV::Public(m0, m1) => JsonNode::Obj(seq![("repository"@, m0), ("sender"@, m1)]),
        EventV::PullRequestReviewComment(a, m0, m1) => JsonNode::Obj(opt_action_members(a) + seq![("comment"@, m0), ("pull_request"@, m1)]),
        EventV::PullRequestReviewThread(a, m0, m1) => JsonNode::Obj(opt_action_members(a) + seq![("thread"@, m0), ("pull_request"@, m1)]),
        EventV::PullRequestReview(a, m0, m1) => JsonNode::Obj(opt_action_members(a) + seq![("review"@, m0), ("pull_request"@, m1)]),
        EventV::PullRequest(a, m0, m1) => JsonNode::Obj(opt_action_members(a) + seq![("pull_request"@, m0), ("number"@, m1)]),
        EventV::Push(m0, m1, m2, m3) => JsonNode::Obj(seq![("ref"@, m0), ("before"@, m1), ("after"@, m2), ("commits"@, m3)]),
        EventV::RegistryPackage(a, m0) => JsonNode::Obj(opt_action_members(a) + seq![("registry_package"@, m0)]),
        EventV::Release(a, m0) => JsonNode::Obj(opt_action_members(a) + seq![("release"@, m0)]),
        EventV::RepositoryAdvisory(a, m0) => JsonNode::Obj(opt_action_members(a) + seq![("repository_advisory"@, m0)]),
        EventV::RepositoryImport(m0, m1) => JsonNode::Obj(seq![("status"@, m0), ("repository"@, m1)]),
        EventV::RepositoryVulnerabilityAlert(a, m0) => JsonNode::Obj(opt_action_members(a) + seq![("alert"@, m0)]),
        EventV::Repository(a, m0) => JsonNode::Obj(seq![("action"@, JsonNode::Str(a)), ("repository"@, m0)]),
        EventV::SecretScanningAlertLocation(a, m0, m1) => JsonNode::Obj(opt_action_members(a) + seq![("alert"@, m0), ("location"@, m1)]),
        EventV::SecretScanningAlert(a, m0) => JsonNode::Obj(opt_action_members(a) + seq![("alert"@, m0)]),
        EventV::SecurityAdvisory(a, m0) => JsonNode::Obj(opt_action_members(a) + seq![("security_advisory"@, m0)]),
        EventV::SecurityAndAnalysis(m0, m1) => JsonNode::Obj(seq![("changes"@, m0), ("repository"@, m1)]),
        EventV::Sponsorship(a, m0) => JsonNode::Obj(opt_action_members(a) + seq![("sponsorship"@, m0)]),
        EventV::Star(a, m0) => JsonNode::Obj(opt_action_members(a) + seq![("starred_at"@, m0)]),
        EventV::Status(m0, m1, m2) => JsonNode::Obj(seq![("sha"@, m0), ("state"@, m1), ("context"@, m2)]),
        EventV::TeamAdd(m0, m1) => JsonNode::Obj(seq![("team"@, m0), ("repository"@, m1)]),
        EventV::Team(a, m0) => JsonNode::Obj(opt_action_members(a) + seq![("team"@, m0)]),
        EventV::Watch(m0) => JsonNode::Obj(seq![("action"@, JsonNode::Str("started"@)), ("repository"@, m0)]),
        EventV::WorkflowDispatch(m0, m1) => JsonNode::Obj(seq![("workflow"@, m0), ("inputs"@, m1)]),
        EventV::WorkflowJob(a, m0) => JsonNode::Obj(opt_action_members(a) + seq![("workflow_job"@, m0)]),
    }
}

/// The installation id a document carries at `installation.id`, or 0
/// when that path is absent or not a usable integer.
pub open spec fn spec_installation_id(d: JsonNode) -> u64 {
    match spec_member(d, "installation"@) {
        Some(inst) => match spec_member(inst, "id"@) {
            Some(v) => match v {
                JsonNode::Int(n) => if 0 <= n <= 0xffff_ffff_ffff_ffff {
                    n as u64
                } else {
                    0
                },
                _ => 0,
            },
            None => 0,
        },
        None => 0,
    }
}

/// The whole webhook document for a payload: the encoded payload, with
/// an `installation` object carrying `id` put first when the payload
/// itself does not define that member.
pub open spec fn spec_encode_webhook(ev: EventV, id: int) -> JsonNode {
    let d = spec_encode(ev);
    if spec_has_member(d, "installation"@) {
        d
    } else {
        JsonNode::Obj(
            seq![("installation"@, JsonNode::Obj(seq![("id"@, JsonNode::Int(id))]))]
                + d->Obj_0,
        )
    }
}

// ---------------------------------------------------------------------------
// The executable decoder.
// ---------------------------------------------------------------------------
/// Whether `v` is an object whose member `k1` is an object with `k2`.
fn nested_member(v: &JsonValue, k1: &str, k2: &str) -> (r: bool)
    ensures
        r == nested_has(node_of(*v), k1@, k2@),
{
    match v.member(k1) {
        Some(x) => x.has_member(k2),
        None => false,
    }
}

/// Whether the document's `action` is the string `lit`.
fn action_is(v: &JsonValue, lit: &str) -> (r: bool)
    ensures
        r == (action_of(node_of(*v)) == Some(lit@)),
{
    match v.member("action") {
        Some(a) => match a {
            JsonValue::Str(s) => str_eq(s.as_str(), lit),
            _ => false,
        },
        None => false,
    }
}

/// The document's `action` string, when it carries one.
fn take_action(v: &JsonValue) -> (r: Option<String>)
    ensures
        opt_view(r) == action_of(node_of(*v)),
{
    match v.member("action") {
        Some(a) => match a {
            JsonValue::Str(s) => Some(s.clone()),
            _ => None,
        },
        None => None,
    }
}

/// The document's `action` string, which the caller knows is present.
fn take_action_string(v: &JsonValue) -> (r: String)
    requires
        action_of(node_of(*v)) is Some,
    ensures
        r@ == action_of(node_of(*v))->Some_0,
{
    match v.member("action") {
        Some(a) => match a {
            JsonValue::Str(s) => s.clone(),
            _ => vstd::pervasive::unreached(),
        },
        None => vstd::pervasive::unreached(),
    }
}

/// A copy of the member `key`, which the caller knows is present.
fn member_value(v: &JsonValue, key: &str) -> (r: JsonValue)
    requires
        spec_has_member(node_of(*v), key@),
    ensures
        node_of(r) == spec_member(node_of(*v), key@)->Some_0,
{
    match v.member(key) {
        Some(x) => x.deep_copy(),
        None => vstd::pervasive::unreached(),
    }
}

/// The document's `zen` string, which the caller knows is present.
fn take_zen(v: &JsonValue) -> (r: String)
    requires
        spec_member(node_of(*v), "zen"@) matches Some(z) && z is Str,
    ensures
        r@ == spec_member(node_of(*v), "zen"@)->Some_0->Str_0,
{
    match v.member("zen") {
        Some(a) => match a {
            JsonValue::Str(s) => s.clone(),
            _ => vstd::pervasive::unreached(),
        },
        None => vstd::pervasive::unreached(),
    }
}

/// The document's `hook_id`, which the caller knows is a number at least 0.
fn take_hook_id(v: &JsonValue) -> (r: u64)
    requires
        spec_member(node_of(*v), "hook_id"@) matches Some(h) && h is Int && h->Int_0 >= 0,
    ensures
        r == (spec_member(node_of(*v), "hook_id"@)->Some_0->Int_0) as u64,
{
    match v.member("hook_id") {
        Some(a) => match a {
            JsonValue::Int(n) => *n as u64,
            _ => vstd::pervasive::unreached(),
        },
        None => vstd::pervasive::unreached(),
    }
}

/// Whether a document has the shape of a `ping` event.
fn m_ping(v: &JsonValue) -> (r: bool)
    ensures
        r == spec_is_ping(node_of(*v)),
{
    let zen_ok = match v.member("zen") {
        Some(a) => match a {
            JsonValue::Str(_) => true,
            _ => false,
        },
        None => false,
    };
    if !zen_ok {
        return false;
    }
    match v.member("hook_id") {
        Some(a) => match a {
            JsonValue::Int(n) => *n >= 0,
            _ => false,
        },
        None => false,
    }
}

/// Whether a document has the shape of a `branch_protection_rule` event.
fn m_branch_protection_rule(v: &JsonValue) -> (r: bool)
    ensures
        r == spec_is_branch_protection_rule(node_of(*v)),
{
    v.has_member("rule")
}

/// Whether a document has the shape of a `check_run` event.
fn m_check_run(v: &JsonValue) -> (r: bool)
    ensures
        r == spec_is_check_run(node_of(*v)),
{
    v.has_member("check_run")
}

/// Whether a document has the shape of a `check_suite` event.
fn m_check_suite(v: &JsonValue) -> (r: bool)
    ensures
        r == spec_is_check_suite(node_of(*v)),
{
    v.has_member("check_suite")
}

/// Whether a document has the shape of a `code_scanning_alert` event.
fn m_code_scanning_alert(v: &JsonValue) -> (r: bool)
    ensures
        r == spec_is_code_scanning_alert(node_of(*v)),
{
    v.has_member("alert")
        && v.has_member("ref")
}

/// Whether a document has the shape of a `commit_comment` event.
fn m_commit_comment(v: &JsonValue) -> (r: bool)
    ensures
        r == spec_is_commit_comment(node_of(*v)),
{
    v.has_member("comment")
        && !v.has_member("issue")
        && !v.has_member("discussion")
        && !v.has_member("pull_request")
        && !v.has_member("thread")
}

/// Whether a document has the shape of a `create` event.
fn m_create(v: &JsonValue) -> (r: bool)
    ensures
        r == spec_is_create(node_of(*v)),
{
    v.has_member("ref")
        && v.has_member("ref_type")
        && v.has_member("master_branch")
}

/// Whether a document has the shape of a `delete` event.
fn m_delete(v: &JsonValue) -> (r: bool)
    ensures
        r == spec_is_delete(node_of(*v)),
{
    v.has_member("ref")
        && v.has_member("ref_type")
}

/// Whether a document has the shape of a `dependabot_alert` event.
fn m_dependabot_alert(v: &JsonValue) -> (r: bool)
    ensures
        r == spec_is_dependabot_alert(node_of(*v)),
{
    v.has_member("alert")
        && nested_member(v, "alert", "dependency")
}

/// Whether a document has the shape of a `deploy_key` event.
fn m_deploy_key(v: &JsonValue) -> (r: bool)
    ensures
        r == spec_is_deploy_key(node_of(*v)),
{
    v.has_member("key")
}

/// Whether a document has the shape of a `deployment_protection_rule` event.
fn m_deployment_protection_rule(v: &JsonValue) -> (r: bool)
    ensures
        r == spec_is_deployment_protection_rule(node_of(*v)),
{
    v.has_member("deployment_callback_url")
}

/// Whether a document has the shape of a `deployment_status` event.
fn m_deployment_status(v: &JsonValue) -> (r: bool)
    ensures
        r == spec_is_deployment_status(node_of(*v)),
{
    v.has_member("deployment_status")
}

/// Whether a document has the shape of a `deployment` event.
fn m_deployment(v: &JsonValue) -> (r: bool)
    ensures
        r == spec_is_deployment(node_of(*v)),
{
    v.has_member("deployment")
}

/// Whether a document has the shape of a `discussion_comment` event.
fn m_discussion_comment(v: &JsonValue) -> (r: bool)
    ensures
        r == spec_is_discussion_comment(node_of(*v)),
{
    v.has_member("comment")
        && v.has_member("discussion")
}

/// Whether a document has the shape of a `discussion` event.
fn m_discussion(v: &JsonValue) -> (r: bool)
    ensures
        r == spec_is_discussion(node_of(*v)),
{
    v.has_member("discussion")
}

/// Whether a document has the shape of a `fork` event.
fn m_fork(v: &JsonValue) -> (r: bool)
    ensures
        r == spec_is_fork(node_of(*v)),
{
    v.has_member("forkee")
}

/// Whether a document has the shape of a `github_app_authorization` event.
fn m_github_app_authorization(v: &JsonValue) -> (r: bool)
    ensures
        r == spec_is_github_app_authorization(node_of(*v)),
{
    v.has_member("sender")
        && action_is(v, "revoked")
}

/// Whether a document has the shape of a `gollum` event.
fn m_gollum(v: &JsonValue) -> (r: bool)
    ensures
        r == spec_is_gollum(node_of(*v)),
{
    v.has_member("pages")
}

/// Whether a document has the shape of a `installation_repositories` event.
fn m_installation_repositories(v: &JsonValue) -> (r: bool)
    ensures
        r == spec_is_installation_repositories(node_of(*v)),
{
    v.has_member("repositories_added")
}

/// Whether a document has the shape of a `installation_target` event.
fn m_installation_target(v: &JsonValue) -> (r: bool)
    ensures
        r == spec_is_installation_target(node_of(*v)),
{
    v.has_member("account")
        && v.has_member("target_type")
}

/// Whether a document has the shape of a `installation` event.
fn m_installation(v: &JsonValue) -> (r: bool)
    ensures
        r == spec_is_installation(node_of(*v)),
{
    v.has_member("installation")
        && v.has_member("repositories")
}

/// Whether a document has the shape of a `issue_comment` event.
fn m_issue_comment(v: &JsonValue) -> (r: bool)
    ensures
        r == spec_is_issue_comment(node_of(*v)),
{
    v.has_member("issue")
        && v.has_member("comment")
}

/// Whether a document has the shape of a `issues` event.
fn m_issues(v: &JsonValue) -> (r: bool)
    ensures
        r == spec_is_issues(node_of(*v)),
{
    v.has_member("issue")
}

/// Whether a document has the shape of a `label` event.
fn m_label(v: &JsonValue) -> (r: bool)
    ensures
        r == spec_is_label(node_of(*v)),
{
    v.has_member("label")
}

/// Whether a document has the shape of a `marketplace_purchase` event.
fn m_marketplace_purchase(v: &JsonValue) -> (r: bool)
    ensures
        r == spec_is_marketplace_purchase(node_of(*v)),
{
    v.has_member("marketplace_purchase")
}

/// Whether a document has the shape of a `member` event.
fn m_member(v: &JsonValue) -> (r: bool)
    ensures
        r == spec_is_member(node_of(*v)),
{
    v.has_member("member")
        && !v.has_member("scope")
        && !v.has_member("team")
}

/// Whether a document has the shape of a `membership` event.
fn m_membership(v: &JsonValue) -> (r: bool)
    ensures
        r == spec_is_membership(node_of(*v)),
{
    v.has_member("member")
        && v.has_member("scope")
}

/// Whether a document has the shape of a `merge_group` event.
fn m_merge_group(v: &JsonValue) -> (r: bool)
    ensures
        r == spec_is_merge_group(node_of(*v)),
{
    v.has_member("merge_group")
}

/// Whether a document has the shape of a `meta` event.
fn m_meta(v: &JsonValue) -> (r: bool)
    ensures
        r == spec_is_meta(node_of(*v)),
{
    v.has_member("hook")
}

/// Whether a document has the shape of a `milestone` event.
fn m_milestone(v: &JsonValue) -> (r: bool)
    ensures
        r == spec_is_milestone(node_of(*v)),
{
    v.has_member("milestone")
}

/// Whether a document has the shape of a `org_block` event.
fn m_org_block(v: &JsonValue) -> (r: bool)
    ensures
        r == spec_is_org_block(node_of(*v)),
{
    v.has_member("blocked_user")
}

/// Whether a document has the shape of a `organization` event.
fn m_organization(v: &JsonValue) -> (r: bool)
    ensures
        r == spec_is_organization(node_of(*v)),
{
    v.has_member("organization")
        && (action_is(v, "deleted") || action_is(v, "member_added") || action_is(v, "member_invited") || action_is(v, "member_removed") || action_is(v, "renamed"))
}

/// Whether a document has the shape of a `package` event.
fn m_package(v: &JsonValue) -> (r: bool)
    ensures
        r == spec_is_package(node_of(*v)),
{
    v.has_member("package")
}

/// Whether a document has the shape of a `page_build` event.
fn m_page_build(v: &JsonValue) -> (r: bool)
    ensures
        r == spec_is_page_build(node_of(*v)),
{
    v.has_member("build")
}

/// Whether a document has the shape of a `personal_access_token_request` event.
fn m_personal_access_token_request(v: &JsonValue) -> (r: bool)
    ensures
        r == spec_is_personal_access_token_request(node_of(*v)),
{
    v.has_member("personal_access_token_request")
}

/// Whether a document has the shape of a `project_card` event.
fn m_project_card(v: &JsonValue) -> (r: bool)
    ensures
        r == spec_is_project_card(node_of(*v)),
{
    v.has_member("project_card")
}

/// Whether a document has the shape of a `project_column` event.
fn m_project_column(v: &JsonValue) -> (r: bool)
    ensures
        r == spec_is_project_column(node_of(*v)),
{
    v.has_member("project_column")
}

/// Whether a document has the shape of a `projects_v2_item` event.
fn m_projects_v2_item(v: &JsonValue) -> (r: bool)
    ensures
        r == spec_is_projects_v2_item(node_of(*v)),
{
    v.has_member("projects_v2_item")
}

/// Whether a document has the shape of a `projects_v2` event.
fn m_projects_v2(v: &JsonValue) -> (r: bool)
    ensures
        r == spec_is_projects_v2(node_of(*v)),
{
    v.has_member("projects_v2")
}

/// Whether a document has the shape of a `public` event.
fn m_public(v: &JsonValue) -> (r: bool)
    ensures
        r == spec_is_public(node_of(*v)),
{
    v.has_member("repository")
        && v.has_member("sender")
        && !v.has_member("action")
}

/// Whether a document has the shape of a `pull_request_review_comment` event.
fn m_pull_request_review_comment(v: &JsonValue) -> (r: bool)
    ensures
        r == spec_is_pull_request_review_comment(node_of(*v)),
{
    v.has_member("comment")
        && v.has_member("pull_request")
}

/// Whether a document has the shape of a `pull_request_review_thread` event.
fn m_pull_request_review_thread(v: &JsonValue) -> (r: bool)
    ensures
        r == spec_is_pull_request_review_thread(node_of(*v)),
{
    v.has_member("thread")
        && v.has_member("pull_request")
}

/// Whether a document has the shape of a `pull_request_review` event.
fn m_pull_request_review(v: &JsonValue) -> (r: bool)
    ensures
        r == spec_is_pull_request_review(node_of(*v)),
{
    v.has_member("review")
        && v.has_member("pull_request")
}

/// Whether a document has the shape of a `pull_request` event.
fn m_pull_request(v: &JsonValue) -> (r: bool)
    ensures
        r == spec_is_pull_request(node_of(*v)),
{
    v.has_member("pull_request")
        && v.has_member("number")
}

/// Whether a document has the shape of a `push` event.
fn m_push(v: &JsonValue) -> (r: bool)
    ensures
        r == spec_is_push(node_of(*v)),
{
    v.has_member("ref")
        && v.has_member("before")
        && v.has_member("after")
        && v.has_member("commits")
}

/// Whether a document has the shape of a `registry_package` event.
fn m_registry_package(v: &JsonValue) -> (r: bool)
    ensures
        r == spec_is_registry_package(node_of(*v)),
{
    v.has_member("registry_package")
}

/// Whether a document has the shape of a `release` event.
fn m_release(v: &JsonValue) -> (r: bool)
    ensures
        r == spec_is_release(node_of(*v)),
{
    v.has_member("release")
}

/// Whether a document has the shape of a `repository_advisory` event.
fn m_repository_advisory(v: &JsonValue) -> (r: bool)
    ensures
        r == spec_is_repository_advisory(node_of(*v)),
{
    v.has_member("repository_advisory")
}

/// Whether a document has the shape of a `repository_import` event.
fn m_repository_import(v: &JsonValue) -> (r: bool)
    ensures
        r == spec_is_repository_import(node_of(*v)),
{
    v.has_member("status")
        && v.has_member("repository")
}

/// Whether a document has the shape of a `repository_vulnerability_alert` event.
fn m_repository_vulnerability_alert(v: &JsonValue) -> (r: bool)
    ensures
        r == spec_is_repository_vulnerability_alert(node_of(*v)),
{
    v.has_member("alert")
        && nested_member(v, "alert", "affected_range")
}

/// Whether a document has the shape of a `repository` event.
fn m_repository(v: &JsonValue) -> (r: bool)
    ensures
        r == spec_is_repository(node_of(*v)),
{
    v.has_member("repository")
        && (action_is(v, "created") || action_is(v, "deleted") || action_is(v, "archived") || action_is(v, "unarchived") || action_is(v, "edited") || action_is(v, "renamed") || action_is(v, "transferred") || action_is(v, "publicized") || action_is(v, "privatized"))
}

/// Whether a document has the shape of a `secret_scanning_alert_location` event.
fn m_secret_scanning_alert_location(v: &JsonValue) -> (r: bool)
    ensures
        r == spec_is_secret_scanning_alert_location(node_of(*v)),
{
    v.has_member("alert")
        && v.has_member("location")
}

/// Whether a document has the shape of a `secret_scanning_alert` event.
fn m_secret_scanning_alert(v: &JsonValue) -> (r: bool)
    ensures
        r == spec_is_secret_scanning_alert(node_of(*v)),
{
    v.has_member("alert")
        && nested_member(v, "alert", "secret_type")
}

/// Whether a document has the shape of a `security_advisory` event.
fn m_security_advisory(v: &JsonValue) -> (r: bool)
    ensures
        r == spec_is_security_advisory(node_of(*v)),
{
    v.has_member("security_advisory")
}

/// Whether a document has the shape of a `security_and_analysis` event.
fn m_security_and_analysis(v: &JsonValue) -> (r: bool)
    ensures
        r == spec_is_security_and_analysis(node_of(*v)),
{
    v.has_member("changes")
        && v.has_member("repository")
}

/// Whether a document has the shape of a `sponsorship` event.
fn m_sponsorship(v: &JsonValue) -> (r: bool)
    ensures
        r == spec_is_sponsorship(node_of(*v)),
{
    v.has_member("sponsorship")
}

/// Whether a document has the shape of a `star` event.
fn m_star(v: &JsonValue) -> (r: bool)
    ensures
        r == spec_is_star(node_of(*v)),
{
    v.has_member("starred_at")
}

/// Whether a document has the shape of a `status` event.
fn m_status(v: &JsonValue) -> (r: bool)
    ensures
        r == spec_is_status(node_of(*v)),
{
    v.has_member("sha")
        && v.has_member("state")
        && v.has_member("context")
}

/// Whether a document has the shape of a `team_add` event.
fn m_team_add(v: &JsonValue) -> (r: bool)
    ensures
        r == spec_is_team_add(node_of(*v)),
{
    v.has_member("team")
        && v.has_member("repository")
        && !v.has_member("action")
}

/// Whether a document has the shape of a `team` event.
fn m_team(v: &JsonValue) -> (r: bool)
    ensures
        r == spec_is_team(node_of(*v)),
{
    v.has_member("team")
}

/// Whether a document has the shape of a `watch` event.
fn m_watch(v: &JsonValue) -> (r: bool)
    ensures
        r == spec_is_watch(node_of(*v)),
{
    v.has_member("repository")
        && action_is(v, "started")
}

/// Whether a document has the shape of a `workflow_dispatch` event.
fn m_workflow_dispatch(v: &JsonValue) -> (r: bool)
    ensures
        r == spec_is_workflow_dispatch(node_of(*v)),
{
    v.has_member("workflow")
        && v.has_member("inputs")
}

/// Whether a document has the shape of a `workflow_job` event.
fn m_workflow_job(v: &JsonValue) -> (r: bool)
    ensures
        r == spec_is_workflow_job(node_of(*v)),
{
    v.has_member("workflow_job")
}

/// Resolve a parsed document to the first shape it matches, in
/// declaration order, copying out the identified members.
#[verifier::rlimit(100)]
pub fn decode_event(v: &JsonValue) -> (r: Option<Event>)
    ensures
        match r {
            Some(e) => spec_decode(node_of(*v)) == Some(event_view(e)),
            None => spec_decode(node_of(*v)) is None,
        },
{
    if m_branch_protection_rule(v) {
        Some(Event::BranchProtectionRule(payloads::BranchProtectionRuleEvent { action: take_action(v), rule: member_value(v, "rule") }))
    } else if m_check_run(v) {
        Some(Event::CheckRun(payloads::CheckRunEvent { action: take_action(v), check_run: member_value(v, "check_run") }))
    } else if m_check_suite(v) {
        Some(Event::CheckSuite(payloads::CheckSuiteEvent { action: take_action(v), check_suite: member_value(v, "check_suite") }))
    } else if m_code_scanning_alert(v) {
        Some(Event::CodeScanningAlert(payloads::CodeScanningAlertEvent { action: take_action(v), alert: member_value(v, "alert"), git_ref: member_value(v, "ref") }))
    } else if m_commit_comment(v) {
        Some(Event::CommitComment(payloads::CommitCommentEvent { action: take_action(v), comment: member_value(v, "comment") }))
    } else if m_create(v) {
        Some(Event::Create(payloads::CreateEvent { git_ref: member_value(v, "ref"), ref_type: member_value(v, "ref_type"), master_branch: member_value(v, "master_branch") }))
    } else if m_delete(v) {
        Some(Event::Delete(payloads::DeleteEvent { git_ref: member_value(v, "ref"), ref_type: member_value(v, "ref_type") }))
    } else if m_dependabot_alert(v) {
        Some(Event::DependabotAlert(payloads::DependabotAlertEvent { action: take_action(v), alert: member_value(v, "alert") }))
    } else if m_deploy_key(v) {
        Some(Event::DeployKey(payloads::DeployKeyEvent { action: take_action(v), key: member_value(v, "key") }))
    } else if m_deployment_protection_rule(v) {
        Some(Event::DeploymentProtectionRule(payloads::DeploymentProtectionRuleEvent { action: take_action(v), deployment_callback_url: member_value(v, "deployment_callback_url") }))
    } else if m_deployment_status(v) {
        Some(Event::DeploymentStatus(payloads::DeploymentStatusEvent { action: take_action(v), deployment_status: member_value(v, "deployment_status") }))
    } else if m_deployment(v) {
        Some(Event::Deployment(payloads::DeploymentEvent { action: take_action(v), deployment: member_value(v, "deployment") }))
    } else if m_discussion_comment(v) {
        Some(Event::DiscussionComment(payloads::DiscussionCommentEvent { action: take_action(v), comment: member_value(v, "comment"), discussion: member_value(v, "discussion") }))
    } else if m_discussion(v) {
        Some(Event::Discussion(payloads::DiscussionEvent { action: take_action(v), discussion: member_value(v, "discussion") }))
    } else if m_fork(v) {
        Some(Event::Fork(payloads::ForkEvent { forkee: member_value(v, "forkee") }))
    } else if m_github_app_authorization(v) {
        Some(Event::GithubAppAuthorization(payloads::GithubAppAuthorizationEvent { sender: member_value(v, "sender") }))
    } else if m_gollum(v) {
        Some(Event::Gollum(payloads::GollumEvent { pages: member_value(v, "pages") }))
    } else if m_installation_repositories(v) {
        Some(Event::InstallationRepositories(payloads::InstallationRepositoriesEvent { action: take_action(v), repositories_added: member_value(v, "repositories_added") }))
    } else if m_installation_target(v) {
        Some(Event::InstallationTarget(payloads::InstallationTargetEvent { action: take_action(v), account: member_value(v, "account"), target_type: member_value(v, "target_type") }))
    } else if m_installation(v) {
        Some(Event::Installation(payloads::InstallationEvent { action: take_action(v), installation: member_value(v, "installation"), repositories: member_value(v, "repositories") }))
    } else if m_issue_comment(v) {
        Some(Event::IssueComment(payloads::IssueCommentEvent { action: take_action(v), issue: member_value(v, "issue"), comment: member_value(v, "comment") }))
    } else if m_issues(v) {
        Some(Event::Issues(payloads::IssuesEvent { action: take_action(v), issue: member_value(v, "issue") }))
    } else if m_label(v) {
        Some(Event::Label(payloads::LabelEvent { action: take_action(v), label: member_value(v, "label") }))
    } else if m_marketplace_purchase(v) {
        Some(Event::MarketplacePurchase(payloads::MarketplacePurchaseEvent { action: take_action(v), marketplace_purchase: member_value(v, "marketplace_purchase") }))
    } else if m_member(v) {
        Some(Event::Member(payloads::MemberEvent { action: take_action(v), member: member_value(v, "member") }))
    } else if m_membership(v) {
        Some(Event::Membership(payloads::MembershipEvent { action: take_action(v), member: member_value(v, "member"), scope: member_value(v, "scope") }))
    } else if m_merge_group(v) {
        Some(Event::MergeGroup(payloads::MergeGroupEvent { action: take_action(v), merge_group: member_value(v, "merge_group") }))
    } else if m_meta(v) {
        Some(Event::Meta(payloads::MetaEvent { action: take_action(v), hook: member_value(v, "hook") }))
    } else if m_milestone(v) {
        Some(Event::Milestone(payloads::MilestoneEvent { action: take_action(v), milestone: member_value(v, "milestone") }))
    } else if m_org_block(v) {
        Some(Event::OrgBlock(payloads::OrgBlockEvent { action: take_action(v), blocked_user: member_value(v, "blocked_user") }))
    } else if m_organization(v) {
        Some(Event::Organization(payloads::OrganizationEvent { action: take_action_string(v), organization: member_value(v, "organization") }))
    } else if m_package(v) {
        Some(Event::Package(payloads::PackageEvent { action: take_action(v), package: member_value(v, "package") }))
    } else if m_page_build(v) {
        Some(Event::PageBuild(payloads::PageBuildEvent { build: member_value(v, "build") }))
    } else if m_personal_access_token_request(v) {
        Some(Event::PersonalAccessTokenRequest(payloads::PersonalAccessTokenRequestEvent { action: take_action(v), personal_access_token_request: member_value(v, "personal_access_token_request") }))
    } else if m_ping(v) {
        Some(Event::Ping(payloads::PingEvent { zen: take_zen(v), hook_id: take_hook_id(v) }))
    } else if m_project_card(v) {
        Some(Event::ProjectCard(payloads::ProjectCardEvent { action: take_action(v), project_card: member_value(v, "project_card") }))
    } else if m_project_column(v) {
        Some(Event::ProjectColumn(payloads::ProjectColumnEvent { action: take_action(v), project_column: member_value(v, "project_column") }))
    } else if m_projects_v2_item(v) {
        Some(Event::ProjectsV2Item(payloads::ProjectsV2ItemEvent { action: take_action(v), projects_v2_item: member_value(v, "projects_v2_item") }))
    } else if m_projects_v2(v) {
        Some(Event::ProjectsV2(payloads::ProjectsV2Event { action: take_action(v), projects_v2: member_value(v, "projects_v2") }))
    } else if m_public(v) {
        Some(Event::Public(payloads::PublicEvent { repository: member_value(v, "repository"), sender: member_value(v, "sender") }))
    } else if m_pull_request_review_comment(v) {
        Some(Event::PullRequestReviewComment(payloads::PullRequestReviewCommentEvent { action: take_action(v), comment: member_value(v, "comment"), pull_request: member_value(v, "pull_request") }))
    } else if m_pull_request_review_thread(v) {
        Some(Event::PullRequestReviewThread(payloads::PullRequestReviewThreadEvent { action: take_action(v), thread: member_value(v, "thread"), pull_request: member_value(v, "pull_request") }))
    } else if m_pull_request_review(v) {
        Some(Event::PullRequestReview(payloads::PullRequestReviewEvent { action: take_action(v), review: member_value(v, "review"), pull_request: member_value(v, "pull_request") }))
    } else if m_pull_request(v) {
        Some(Event::PullRequest(payloads::PullRequestEvent { action: take_action(v), pull_request: member_value(v, "pull_request"), number: member_value(v, "number") }))
    } else if m_push(v) {
        Some(Event::Push(payloads::PushEvent { git_ref: member_value(v, "ref"), before: member_value(v, "before"), after: member_value(v, "after"), commits: member_value(v, "commits") }))
    } else if m_registry_package(v) {
        Some(Event::RegistryPackage(payloads::RegistryPackageEvent { action: take_action(v), registry_package: member_value(v, "registry_package") }))
    } else if m_release(v) {
        Some(Event::Release(payloads::ReleaseEvent { action: take_action(v), release: member_value(v, "release") }))
    } else if m_repository_advisory(v) {
        Some(Event::RepositoryAdvisory(payloads::RepositoryAdvisoryEvent { action: take_action(v), repository_advisory: member_value(v, "repository_advisory") }))
    } else if m_repository_import(v) {
        Some(Event::RepositoryImport(payloads::RepositoryImportEvent { status: member_value(v, "status"), repository: member_value(v, "repository") }))
    } else if m_repository_vulnerability_alert(v) {
        Some(Event::RepositoryVulnerabilityAlert(payloads::RepositoryVulnerabilityAlertEvent { action: take_action(v), alert: member_value(v, "alert") }))
    } else if m_repository(v) {
        Some(Event::Repository(payloads::RepositoryEvent { action: take_action_string(v), repository: member_value(v, "repository") }))
    } else if m_secret_scanning_alert_location(v) {
        Some(Event::SecretScanningAlertLocation(payloads::SecretScanningAlertLocationEvent { action: take_action(v), alert: member_value(v, "alert"), location: member_value(v, "location") }))
    } else if m_secret_scanning_alert(v) {
        Some(Event::SecretScanningAlert(payloads::SecretScanningAlertEvent { action: take_action(v), alert: member_value(v, "alert") }))
    } else if m_security_advisory(v) {
        Some(Event::SecurityAdvisory(payloads::SecurityAdvisoryEvent { action: take_action(v), security_advisory: member_value(v, "security_advisory") }))
    } else if m_security_and_analysis(v) {
        Some(Event::SecurityAndAnalysis(payloads::SecurityAndAnalysisEvent { changes: member_value(v, "changes"), repository: member_value(v, "repository") }))
    } else if m_sponsorship(v) {
        Some(Event::Sponsorship(payloads::SponsorshipEvent { action: take_action(v), sponsorship: member_value(v, "sponsorship") }))
    } else if m_star(v) {
        Some(Event::Star(payloads::StarEvent { action: take_action(v), starred_at: member_value(v, "starred_at") }))
    } else if m_status(v) {
        Some(Event::Status(payloads::StatusEvent { sha: member_value(v, "sha"), state: member_value(v, "state"), context: member_value(v, "context") }))
    } else if m_team_add(v) {
        Some(Event::TeamAdd(payloads::TeamAddEvent { team: member_value(v, "team"), repository: member_value(v, "repository") }))
    } else if m_team(v) {
        Some(Event::Team(payloads::TeamEvent { action: take_action(v), team: member_value(v, "team") }))
    } else if m_watch(v) {
        Some(Event::Watch(payloads::WatchEvent { repository: member_value(v, "repository") }))
    } else if m_workflow_dispatch(v) {
        Some(Event::WorkflowDispatch(payloads::WorkflowDispatchEvent { workflow: member_value(v, "workflow"), inputs: member_value(v, "inputs") }))
    } else if m_workflow_job(v) {
        Some(Event::WorkflowJob(payloads::WorkflowJobEvent { action: take_action(v), workflow_job: member_value(v, "workflow_job") }))
    } else {
        None
    }
}

/// Encode a payload back to a document: its `action`, when any, then
/// its identifying members, in order.
#[verifier::rlimit(100)]
pub fn encode_event(e: &Event) -> (r: JsonValue)
    ensures
        node_of(r) == spec_encode(event_view(*e)),
        r is Obj,
{
    match e {
        Event::BranchProtectionRule(p) => {
            let mut ms: Vec<(String, JsonValue)> = Vec::new();
            match &p.action {
                Some(a) => ms.push((String::from_str("action"), JsonValue::Str(a.clone()))),
                None => (),
            }
            ms.push((String::from_str("rule"), p.rule.deep_copy()));
            proof {
                lemma_members_from_zero(ms@);
                assert(members_from(ms@, 0) =~= spec_encode(event_view(*e))->Obj_0);
            }
            JsonValue::Obj(ms)
        },
        Event::CheckRun(p) => {
            let mut ms: Vec<(String, JsonValue)> = Vec::new();
            match &p.action {
                Some(a) => ms.push((String::from_str("action"), JsonValue::Str(a.clone()))),
                None => (),
            }
            ms.push((String::from_str("check_run"), p.check_run.deep_copy()));
            proof {
                lemma_members_from_zero(ms@);
                assert(members_from(ms@, 0) =~= spec_encode(event_view(*e))->Obj_0);
            }
            JsonValue::Obj(ms)
        },
        Event::CheckSuite(p) => {
            let mut ms: Vec<(String, JsonValue)> = Vec::new();
            match &p.action {
                Some(a) => ms.push((String::from_str("action"), JsonValue::Str(a.clone()))),
                None => (),
            }
            ms.push((String::from_str("check_suite"), p.check_suite.deep_copy()));
            proof {
                lemma_members_from_zero(ms@);
                assert(members_from(ms@, 0) =~= spec_encode(event_view(*e))->Obj_0);
            }
            JsonValue::Obj(ms)
        },
        Event::CodeScanningAlert(p) => {
            let mut ms: Vec<(String, JsonValue)> = Vec::new();
            match &p.action {
                Some(a) => ms.push((String::from_str("action"), JsonValue::Str(a.clone()))),
                None => (),
            }
            ms.push((String::from_str("alert"), p.alert.deep_copy()));
            ms.push((String::from_str("ref"), p.git_ref.deep_copy()));
            proof {
                lemma_members_from_zero(ms@);
                assert(members_from(ms@, 0) =~= spec_encode(event_view(*e))->Obj_0);
            }
            JsonValue::Obj(ms)
        },
        Event::CommitComment(p) => {
            let mut ms: Vec<(String, JsonValue)> = Vec::new();
            match &p.action {
                Some(a) => ms.push((String::from_str("action"), JsonValue::Str(a.clone()))),
                None => (),
            }
            ms.push((String::from_str("comment"), p.comment.deep_copy()));
            proof {
                lemma_members_from_zero(ms@);
                assert(members_from(ms@, 0) =~= spec_encode(event_view(*e))->Obj_0);
            }
            JsonValue::Obj(ms)
        },
        Event::Create(p) => {
            let mut ms: Vec<(String, JsonValue)> = Vec::new();
            ms.push((String::from_str("ref"), p.git_ref.deep_copy()));
            ms.push((String::from_str("ref_type"), p.ref_type.deep_copy()));
            ms.push((String::from_str("master_branch"), p.master_branch.deep_copy()));
            proof {
                lemma_members_from_zero(ms@);
                assert(members_from(ms@, 0) =~= spec_encode(event_view(*e))->Obj_0);
            }
            JsonValue::Obj(ms)
        },
        Event::Delete(p) => {
            let mut ms: Vec<(String, JsonValue)> = Vec::new();
            ms.push((String::from_str("ref"), p.git_ref.deep_copy()));
            ms.push((String::from_str("ref_type"), p.ref_type.deep_copy()));
            proof {
                lemma_members_from_zero(ms@);
                assert(members_from(ms@, 0) =~= spec_encode(event_view(*e))->Obj_0);
            }
            JsonValue::Obj(ms)
        },
        Event::DependabotAlert(p) => {
            let mut ms: Vec<(String, JsonValue)> = Vec::new();
            match &p.action {
                Some(a) => ms.push((String::from_str("action"), JsonValue::Str(a.clone()))),
                None => (),
            }
            ms.push((String::from_str("alert"), p.alert.deep_copy()));
            proof {
                lemma_members_from_zero(ms@);
                assert(members_from(ms@, 0) =~= spec_encode(event_view(*e))->Obj_0);
            }
            JsonValue::Obj(ms)
        },
        Event::DeployKey(p) => {
            let mut ms: Vec<(String, JsonValue)> = Vec::new();
            match &p.action {
                Some(a) => ms.push((String::from_str("action"), JsonValue::Str(a.clone()))),
                None => (),
            }
            ms.push((String::from_str("key"), p.key.deep_copy()));
            proof {
                lemma_members_from_zero(ms@);
                assert(members_from(ms@, 0) =~= spec_encode(event_view(*e))->Obj_0);
            }
            JsonValue::Obj(ms)
        },
        Event::DeploymentProtectionRule(p) => {
            let mut ms: Vec<(String, JsonValue)> = Vec::new();
            match &p.action {
                Some(a) => ms.push((String::from_str("action"), JsonValue::Str(a.clone()))),
                None => (),
            }
            ms.push((String::from_str("deployment_callback_url"), p.deployment_callback_url.deep_copy()));
            proof {
                lemma_members_from_zero(ms@);
                assert(members_from(ms@, 0) =~= spec_encode(event_view(*e))->Obj_0);
            }
            JsonValue::Obj(ms)
        },
        Event::DeploymentStatus(p) => {
            let mut ms: Vec<(String, JsonValue)> = Vec::new();
            match &p.action {
                Some(a) => ms.push((String::from_str("action"), JsonValue::Str(a.clone()))),
                None => (),
            }
            ms.push((String::from_str("deployment_status"), p.deployment_status.deep_copy()));
            proof {
                lemma_members_from_zero(ms@);
                assert(members_from(ms@, 0) =~= spec_encode(event_view(*e))->Obj_0);
            }
            JsonValue::Obj(ms)
        },
        Event::Deployment(p) => {
            let mut ms: Vec<(String, JsonValue)> = Vec::new();
            match &p.action {
                Some(a) => ms.push((String::from_str("action"), JsonValue::Str(a.clone()))),
                None => (),
            }
            ms.push((String::from_str("deployment"), p.deployment.deep_copy()));
            proof {
                lemma_members_from_zero(ms@);
                assert(members_from(ms@, 0) =~= spec_encode(event_view(*e))->Obj_0);
            }
            JsonValue::Obj(ms)
        },
        Event::DiscussionComment(p) => {
            let mut ms: Vec<(String, JsonValue)> = Vec::new();
            match &p.action {
                Some(a) => ms.push((String::from_str("action"), JsonValue::Str(a.clone()))),
                None => (),
            }
            ms.push((String::from_str("comment"), p.comment.deep_copy()));
            ms.push((String::from_str("discussion"), p.discussion.deep_copy()));
            proof {
                lemma_members_from_zero(ms@);
                assert(members_from(ms@, 0) =~= spec_encode(event_view(*e))->Obj_0);
            }
            JsonValue::Obj(ms)
        },
        Event::Discussion(p) => {
            let mut ms: Vec<(String, JsonValue)> = Vec::new();
            match &p.action {
                Some(a) => ms.push((String::from_str("action"), JsonValue::Str(a.clone()))),
                None => (),
            }
            ms.push((String::from_str("discussion"), p.discussion.deep_copy()));
            proof {
                lemma_members_from_zero(ms@);
                assert(members_from(ms@, 0) =~= spec_encode(event_view(*e))->Obj_0);
            }
            JsonValue::Obj(ms)
        },
        Event::Fork(p) => {
            let mut ms: Vec<(String, JsonValue)> = Vec::new();
            ms.push((String::from_str("forkee"), p.forkee.deep_copy()));
            proof {
                lemma_members_from_zero(ms@);
                assert(members_from(ms@, 0) =~= spec_encode(event_view(*e))->Obj_0);
            }
            JsonValue::Obj(ms)
        },
        Event::GithubAppAuthorization(p) => {
            let mut ms: Vec<(String, JsonValue)> = Vec::new();
            ms.push((String::from_str("action"), JsonValue::Str(String::from_str("revoked"))));
            ms.push((String::from_str("sender"), p.sender.deep_copy()));
            proof {
                lemma_members_from_zero(ms@);
                assert(members_from(ms@, 0) =~= spec_encode(event_view(*e))->Obj_0);
            }
            JsonValue::Obj(ms)
        },
        Event::Gollum(p) => {
            let mut ms: Vec<(String, JsonValue)> = Vec::new();
            ms.push((String::from_str("pages"), p.pages.deep_copy()));
            proof {
                lemma_members_from_zero(ms@);
                assert(members_from(ms@, 0) =~= spec_encode(event_view(*e))->Obj_0);
            }
            JsonValue::Obj(ms)
        },
        Event::InstallationRepositories(p) => {
            let mut ms: Vec<(String, JsonValue)> = Vec::new();
            match &p.action {
                Some(a) => ms.push((String::from_str("action"), JsonValue::Str(a.clone()))),
                None => (),
            }
            ms.push((String::from_str("repositories_added"), p.repositories_added.deep_copy()));
            proof {
                lemma_members_from_zero(ms@);
                assert(members_from(ms@, 0) =~= spec_encode(event_view(*e))->Obj_0);
            }
            JsonValue::Obj(ms)
        },
        Event::InstallationTarget(p) => {
            let mut ms: Vec<(String, JsonValue)> = Vec::new();
            match &p.action {
                Some(a) => ms.push((String::from_str("action"), JsonValue::Str(a.clone()))),
                None => (),
            }
            ms.push((String::from_str("account"), p.account.deep_copy()));
            ms.push((String::from_str("target_type"), p.target_type.deep_copy()));
            proof {
                lemma_members_from_zero(ms@);
                assert(members_from(ms@, 0) =~= spec_encode(event_view(*e))->Obj_0);
            }
            JsonValue::Obj(ms)
        },
        Event::Installation(p) => {
            let mut ms: Vec<(String, JsonValue)> = Vec::new();
            match &p.action {
                Some(a) => ms.push((String::from_str("action"), JsonValue::Str(a.clone()))),
                None => (),
            }
            ms.push((String::from_str("installation"), p.installation.deep_copy()));
            ms.push((String::from_str("repositories"), p.repositories.deep_copy()));
            proof {
                lemma_members_from_zero(ms@);
                assert(members_from(ms@, 0) =~= spec_encode(event_view(*e))->Obj_0);
            }
            JsonValue::Obj(ms)
        },
        Event::IssueComment(p) => {
            let mut ms: Vec<(String, JsonValue)> = Vec::new();
            match &p.action {
                Some(a) => ms.push((String::from_str("action"), JsonValue::Str(a.clone()))),
                None => (),
            }
            ms.push((String::from_str("issue"), p.issue.deep_copy()));
            ms.push((String::from_str("comment"), p.comment.deep_copy()));
            proof {
                lemma_members_from_zero(ms@);
                assert(members_from(ms@, 0) =~= spec_encode(event_view(*e))->Obj_0);
            }
            JsonValue::Obj(ms)
        },
        Event::Issues(p) => {
            let mut ms: Vec<(String, JsonValue)> = Vec::new();
            match &p.action {
                Some(a) => ms.push((String::from_str("action"), JsonValue::Str(a.clone()))),
                None => (),
            }
            ms.push((String::from_str("issue"), p.issue.deep_copy()));
            proof {
                lemma_members_from_zero(ms@);
                assert(members_from(ms@, 0) =~= spec_encode(event_view(*e))->Obj_0);
            }
            JsonValue::Obj(ms)
        },
        Event::Label(p) => {
            let mut ms: Vec<(String, JsonValue)> = Vec::new();
            match &p.action {
                Some(a) => ms.push((String::from_str("action"), JsonValue::Str(a.clone()))),
                None => (),
            }
            ms.push((String::from_str("label"), p.label.deep_copy()));
            proof {
                lemma_members_from_zero(ms@);
                assert(members_from(ms@, 0) =~= spec_encode(event_view(*e))->Obj_0);
            }
            JsonValue::Obj(ms)
        },
        Event::MarketplacePurchase(p) => {
            let mut ms: Vec<(String, JsonValue)> = Vec::new();
            match &p.action {
                Some(a) => ms.push((String::from_str("action"), JsonValue::Str(a.clone()))),
                None => (),
            }
            ms.push((String::from_str("marketplace_purchase"), p.marketplace_purchase.deep_copy()));
            proof {
                lemma_members_from_zero(ms@);
                assert(members_from(ms@, 0) =~= spec_encode(event_view(*e))->Obj_0);
            }
            JsonValue::Obj(ms)
        },
        Event::Member(p) => {
            let mut ms: Vec<(String, JsonValue)> = Vec::new();
            match &p.action {
                Some(a) => ms.push((String::from_str("action"), JsonValue::Str(a.clone()))),
                None => (),
            }
            ms.push((String::from_str("member"), p.member.deep_copy()));
            proof {
                lemma_members_from_zero(ms@);
                assert(members_from(ms@, 0) =~= spec_encode(event_view(*e))->Obj_0);
            }
            JsonValue::Obj(ms)
        },
        Event::Membership(p) => {
            let mut ms: Vec<(String, JsonValue)> = Vec::new();
            match &p.action {
                Some(a) => ms.push((String::from_str("action"), JsonValue::Str(a.clone()))),
                None => (),
            }
            ms.push((String::from_str("member"), p.member.deep_copy()));
            ms.push((String::from_str("scope"), p.scope.deep_copy()));
            proof {
                lemma_members_from_zero(ms@);
                assert(members_from(ms@, 0) =~= spec_encode(event_view(*e))->Obj_0);
            }
            JsonValue::Obj(ms)
        },
        Event::MergeGroup(p) => {
            let mut ms: Vec<(String, JsonValue)> = Vec::new();
            match &p.action {
                Some(a) => ms.push((String::from_str("action"), JsonValue::Str(a.clone()))),
                None => (),
            }
            ms.push((String::from_str("merge_group"), p.merge_group.deep_copy()));
            proof {
                lemma_members_from_zero(ms@);
                assert(members_from(ms@, 0) =~= spec_encode(event_view(*e))->Obj_0);
            }
            JsonValue::Obj(ms)
        },
        Event::Meta(p) => {
            let mut ms: Vec<(String, JsonValue)> = Vec::new();
            match &p.action {
                Some(a) => ms.push((String::from_str("action"), JsonValue::Str(a.clone()))),
                None => (),
            }
            ms.push((String::from_str("hook"), p.hook.deep_copy()));
            proof {
                lemma_members_from_zero(ms@);
                assert(members_from(ms@, 0) =~= spec_encode(event_view(*e))->Obj_0);
            }
            JsonValue::Obj(ms)
        },
        Event::Milestone(p) => {
            let mut ms: Vec<(String, JsonValue)> = Vec::new();
            match &p.action {
                Some(a) => ms.push((String::from_str("action"), JsonValue::Str(a.clone()))),
                None => (),
            }
            ms.push((String::from_str("milestone"), p.milestone.deep_copy()));
            proof {
                lemma_members_from_zero(ms@);
                assert(members_from(ms@, 0) =~= spec_encode(event_view(*e))->Obj_0);
            }
            JsonValue::Obj(ms)
        },
        Event::OrgBlock(p) => {
            let mut ms: Vec<(String, JsonValue)> = Vec::new();
            match &p.action {
                Some(a) => ms.push((String::from_str("action"), JsonValue::Str(a.clone()))),
                None => (),
            }
            ms.push((String::from_str("blocked_user"), p.blocked_user.deep_copy()));
            proof {
                lemma_members_from_zero(ms@);
                assert(members_from(ms@, 0) =~= spec_encode(event_view(*e))->Obj_0);
            }
            JsonValue::Obj(ms)
        },
        Event::Organization(p) => {
            let mut ms: Vec<(String, JsonValue)> = Vec::new();
            ms.push((String::from_str("action"), JsonValue::Str(p.action.clone())));
            ms.push((String::from_str("organization"), p.organization.deep_copy()));
            proof {
                lemma_members_from_zero(ms@);
                assert(members_from(ms@, 0) =~= spec_encode(event_view(*e))->Obj_0);
            }
            JsonValue::Obj(ms)
        },
        Event::Package(p) => {
            let mut ms: Vec<(String, JsonValue)> = Vec::new();
            match &p.action {
                Some(a) => ms.push((String::from_str("action"), JsonValue::Str(a.clone()))),
                None => (),
            }
            ms.push((String::from_str("package"), p.package.deep_copy()));
            proof {
                lemma_members_from_zero(ms@);
                assert(members_from(ms@, 0) =~= spec_encode(event_view(*e))->Obj_0);
            }
            JsonValue::Obj(ms)
        },
        Event::PageBuild(p) => {
            let mut ms: Vec<(String, JsonValue)> = Vec::new();
            ms.push((String::from_str("build"), p.build.deep_copy()));
            proof {
                lemma_members_from_zero(ms@);
                assert(members_from(ms@, 0) =~= spec_encode(event_view(*e))->Obj_0);
            }
            JsonValue::Obj(ms)
        },
        Event::PersonalAccessTokenRequest(p) => {
            let mut ms: Vec<(String, JsonValue)> = Vec::new();
            match &p.action {
                Some(a) => ms.push((String::from_str("action"), JsonValue::Str(a.clone()))),
                None => (),
            }
            ms.push((String::from_str("personal_access_token_request"), p.personal_access_token_request.deep_copy()));
            proof {
                lemma_members_from_zero(ms@);
                assert(members_from(ms@, 0) =~= spec_encode(event_view(*e))->Obj_0);
            }
            JsonValue::Obj(ms)
        },
        Event::Ping(p) => {
            let mut ms: Vec<(String, JsonValue)> = Vec::new();
            ms.push((String::from_str("zen"), JsonValue::Str(p.zen.clone())));
            ms.push((String::from_str("hook_id"), JsonValue::Int(#[verifier::truncate] (p.hook_id as i64))));
            proof {
                lemma_members_from_zero(ms@);
                assert(members_from(ms@, 0) =~= spec_encode(event_view(*e))->Obj_0);
            }
            JsonValue::Obj(ms)
        },
        Event::ProjectCard(p) => {
            let mut ms: Vec<(String, JsonValue)> = Vec::new();
            match &p.action {
                Some(a) => ms.push((String::from_str("action"), JsonValue::Str(a.clone()))),
                None => (),
            }
            ms.push((String::from_str("project_card"), p.project_card.deep_copy()));
            proof {
                lemma_members_from_zero(ms@);
                assert(members_from(ms@, 0) =~= spec_encode(event_view(*e))->Obj_0);
            }
            JsonValue::Obj(ms)
        },
        Event::ProjectColumn(p) => {
            let mut ms: Vec<(String, JsonValue)> = Vec::new();
            match &p.action {
                Some(a) => ms.push((String::from_str("action"), JsonValue::Str(a.clone()))),
                None => (),
            }
            ms.push((String::from_str("project_column"), p.project_column.deep_copy()));
            proof {
                lemma_members_from_zero(ms@);
                assert(members_from(ms@, 0) =~= spec_encode(event_view(*e))->Obj_0);
            }
            JsonValue::Obj(ms)
        },
        Event::ProjectsV2Item(p) => {
            let mut ms: Vec<(String, JsonValue)> = Vec::new();
            match &p.action {
                Some(a) => ms.push((String::from_str("action"), JsonValue::Str(a.clone()))),
                None => (),
            }
            ms.push((String::from_str("projects_v2_item"), p.projects_v2_item.deep_copy()));
            proof {
                lemma_members_from_zero(ms@);
                assert(members_from(ms@, 0) =~= spec_encode(event_view(*e))->Obj_0);
            }
            JsonValue::Obj(ms)
        },
        Event::ProjectsV2(p) => {
            let mut ms: Vec<(String, JsonValue)> = Vec::new();
            match &p.action {
                Some(a) => ms.push((String::from_str("action"), JsonValue::Str(a.clone()))),
                None => (),
            }
            ms.push((String::from_str("projects_v2"), p.projects_v2.deep_copy()));
            proof {
                lemma_members_from_zero(ms@);
                assert(members_from(ms@, 0) =~= spec_encode(event_view(*e))->Obj_0);
            }
            JsonValue::Obj(ms)
        },
        Event::Public(p) => {
            let mut ms: Vec<(String, JsonValue)> = Vec::new();
            ms.push((String::from_str("repository"), p.repository.deep_copy()));
            ms.push((String::from_str("sender"), p.sender.deep_copy()));
            proof {
                lemma_members_from_zero(ms@);
                assert(members_from(ms@, 0) =~= spec_encode(event_view(*e))->Obj_0);
            }
            JsonValue::Obj(ms)
        },
        Event::PullRequestReviewComment(p) => {
            let mut ms: Vec<(String, JsonValue)> = Vec::new();
            match &p.action {
                Some(a) => ms.push((String::from_str("action"), JsonValue::Str(a.clone()))),
                None => (),
            }
            ms.push((String::from_str("comment"), p.comment.deep_copy()));
            ms.push((String::from_str("pull_request"), p.pull_request.deep_copy()));
            proof {
                lemma_members_from_zero(ms@);
                assert(members_from(ms@, 0) =~= spec_encode(event_view(*e))->Obj_0);
            }
            JsonValue::Obj(ms)
        },
        Event::PullRequestReviewThread(p) => {
            let mut ms: Vec<(String, JsonValue)> = Vec::new();
            match &p.action {
                Some(a) => ms.push((String::from_str("action"), JsonValue::Str(a.clone()))),
                None => (),
            }
            ms.push((String::from_str("thread"), p.thread.deep_copy()));
            ms.push((String::from_str("pull_request"), p.pull_request.deep_copy()));
            proof {
                lemma_members_from_zero(ms@);
                assert(members_from(ms@, 0) =~= spec_encode(event_view(*e))->Obj_0);
            }
            JsonValue::Obj(ms)
        },
        Event::PullRequestReview(p) => {
            let mut ms: Vec<(String, JsonValue)> = Vec::new();
            match &p.action {
                Some(a) => ms.push((String::from_str("action"), JsonValue::Str(a.clone()))),
                None => (),
            }
            ms.push((String::from_str("review"), p.review.deep_copy()));
            ms.push((String::from_str("pull_request"), p.pull_request.deep_copy()));
            proof {
                lemma_members_from_zero(ms@);
                assert(members_from(ms@, 0) =~= spec_encode(event_view(*e))->Obj_0);
            }
            JsonValue::Obj(ms)
        },
        Event::PullRequest(p) => {
            let mut ms: Vec<(String, JsonValue)> = Vec::new();
            match &p.action {
                Some(a) => ms.push((String::from_str("action"), JsonValue::Str(a.clone()))),
                None => (),
            }
            ms.push((String::from_str("pull_request"), p.pull_request.deep_copy()));
            ms.push((String::from_str("number"), p.number.deep_copy()));
            proof {
                lemma_members_from_zero(ms@);
                assert(members_from(ms@, 0) =~= spec_encode(event_view(*e))->Obj_0);
            }
            JsonValue::Obj(ms)
        },
        Event::Push(p) => {
            let mut ms: Vec<(String, JsonValue)> = Vec::new();
            ms.push((String::from_str("ref"), p.git_ref.deep_copy()));
            ms.push((String::from_str("before"), p.before.deep_copy()));
            ms.push((String::from_str("after"), p.after.deep_copy()));
            ms.push((String::from_str("commits"), p.commits.deep_copy()));
            proof {
                lemma_members_from_zero(ms@);
                assert(members_from(ms@, 0) =~= spec_encode(event_view(*e))->Obj_0);
            }
            JsonValue::Obj(ms)
        },
        Event::RegistryPackage(p) => {
            let mut ms: Vec<(String, JsonValue)> = Vec::new();
            match &p.action {
                Some(a) => ms.push((String::from_str("action"), JsonValue::Str(a.clone()))),
                None => (),
            }
            ms.push((String::from_str("registry_package"), p.registry_package.deep_copy()));
            proof {
                lemma_members_from_zero(ms@);
                assert(members_from(ms@, 0) =~= spec_encode(event_view(*e))->Obj_0);
            }
            JsonValue::Obj(ms)
        },
        Event::Release(p) => {
            let mut ms: Vec<(String, JsonValue)> = Vec::new();
            match &p.action {
                Some(a) => ms.push((String::from_str("action"), JsonValue::Str(a.clone()))),
                None => (),
            }
            ms.push((String::from_str("release"), p.release.deep_copy()));
            proof {
                lemma_members_from_zero(ms@);
                assert(members_from(ms@, 0) =~= spec_encode(event_view(*e))->Obj_0);
            }
            JsonValue::Obj(ms)
        },
        Event::RepositoryAdvisory(p) => {
            let mut ms: Vec<(String, JsonValue)> = Vec::new();
            match &p.action {
                Some(a) => ms.push((String::from_str("action"), JsonValue::Str(a.clone()))),
                None => (),
            }
            ms.push((String::from_str("repository_advisory"), p.repository_advisory.deep_copy()));
            proof {
                lemma_members_from_zero(ms@);
                assert(members_from(ms@, 0) =~= spec_encode(event_view(*e))->Obj_0);
            }
            JsonValue::Obj(ms)
        },
        Event::RepositoryImport(p) => {
            let mut ms: Vec<(String, JsonValue)> = Vec::new();
            ms.push((String::from_str("status"), p.status.deep_copy()));
            ms.push((String::from_str("repository"), p.repository.deep_copy()));
            proof {
                lemma_members_from_zero(ms@);
                assert(members_from(ms@, 0) =~= spec_encode(event_view(*e))->Obj_0);
            }
            JsonValue::Obj(ms)
        },
        Event::RepositoryVulnerabilityAlert(p) => {
            let mut ms: Vec<(String, JsonValue)> = Vec::new();
            match &p.action {
                Some(a) => ms.push((String::from_str("action"), JsonValue::Str(a.clone()))),
                None => (),
            }
            ms.push((String::from_str("alert"), p.alert.deep_copy()));
            proof {
                lemma_members_from_zero(ms@);
                assert(members_from(ms@, 0) =~= spec_encode(event_view(*e))->Obj_0);
            }
            JsonValue::Obj(ms)
        },
        Event::Repository(p) => {
            let mut ms: Vec<(String, JsonValue)> = Vec::new();
            ms.push((String::from_str("action"), JsonValue::Str(p.action.clone())));
            ms.push((String::from_str("repository"), p.repository.deep_copy()));
            proof {
                lemma_members_from_zero(ms@);
                assert(members_from(ms@, 0) =~= spec_encode(event_view(*e))->Obj_0);
            }
            JsonValue::Obj(ms)
        },
        Event::SecretScanningAlertLocation(p) => {
            let mut ms: Vec<(String, JsonValue)> = Vec::new();
            match &p.action {
                Some(a) => ms.push((String::from_str("action"), JsonValue::Str(a.clone()))),
                None => (),
            }
            ms.push((String::from_str("alert"), p.alert.deep_copy()));
            ms.push((String::from_str("location"), p.location.deep_copy()));
            proof {
                lemma_members_from_zero(ms@);
                assert(members_from(ms@, 0) =~= spec_encode(event_view(*e))->Obj_0);
            }
            JsonValue::Obj(ms)
        },
        Event::SecretScanningAlert(p) => {
            let mut ms: Vec<(String, JsonValue)> = Vec::new();
            match &p.action {
                Some(a) => ms.push((String::from_str("action"), JsonValue::Str(a.clone()))),
                None => (),
            }
            ms.push((String::from_str("alert"), p.alert.deep_copy()));
            proof {
                lemma_members_from_zero(ms@);
                assert(members_from(ms@, 0) =~= spec_encode(event_view(*e))->Obj_0);
            }
            JsonValue::Obj(ms)
        },
        Event::SecurityAdvisory(p) => {
            let mut ms: Vec<(String, JsonValue)> = Vec::new();
            match &p.action {
                Some(a) => ms.push((String::from_str("action"), JsonValue::Str(a.clone()))),
                None => (),
            }
            ms.push((String::from_str("security_advisory"), p.security_advisory.deep_copy()));
            proof {
                lemma_members_from_zero(ms@);
                assert(members_from(ms@, 0) =~= spec_encode(event_view(*e))->Obj_0);
            }
            JsonValue::Obj(ms)
        },
        Event::SecurityAndAnalysis(p) => {
            let mut ms: Vec<(String, JsonValue)> = Vec::new();
            ms.push((String::from_str("changes"), p.changes.deep_copy()));
            ms.push((String::from_str("repository"), p.repository.deep_copy()));
            proof {
                lemma_members_from_zero(ms@);
                assert(members_from(ms@, 0) =~= spec_encode(event_view(*e))->Obj_0);
            }
            JsonValue::Obj(ms)
        },
        Event::Sponsorship(p) => {
            let mut ms: Vec<(String, JsonValue)> = Vec::new();
            match &p.action {
                Some(a) => ms.push((String::from_str("action"), JsonValue::Str(a.clone()))),
                None => (),
            }
            ms.push((String::from_str("sponsorship"), p.sponsorship.deep_copy()));
            proof {
                lemma_members_from_zero(ms@);
                assert(members_from(ms@, 0) =~= spec_encode(event_view(*e))->Obj_0);
            }
            JsonValue::Obj(ms)
        },
        Event::Star(p) => {
            let mut ms: Vec<(String, JsonValue)> = Vec::new();
            match &p.action {
                Some(a) => ms.push((String::from_str("action"), JsonValue::Str(a.clone()))),
                None => (),
            }
            ms.push((String::from_str("starred_at"), p.starred_at.deep_copy()));
            proof {
                lemma_members_from_zero(ms@);
                assert(members_from(ms@, 0) =~= spec_encode(event_view(*e))->Obj_0);
            }
            JsonValue::Obj(ms)
        },
        Event::Status(p) => {
            let mut ms: Vec<(String, JsonValue)> = Vec::new();
            ms.push((String::from_str("sha"), p.sha.deep_copy()));
            ms.push((String::from_str("state"), p.state.deep_copy()));
            ms.push((String::from_str("context"), p.context.deep_copy()));
            proof {
                lemma_members_from_zero(ms@);
                assert(members_from(ms@, 0) =~= spec_encode(event_view(*e))->Obj_0);
            }
            JsonValue::Obj(ms)
        },
        Event::TeamAdd(p) => {
            let mut ms: Vec<(String, JsonValue)> = Vec::new();
            ms.push((String::from_str("team"), p.team.deep_copy()));
            ms.push((String::from_str("repository"), p.repository.deep_copy()));
            proof {
                lemma_members_from_zero(ms@);
                assert(members_from(ms@, 0) =~= spec_encode(event_view(*e))->Obj_0);
            }
            JsonValue::Obj(ms)
        },
        Event::Team(p) => {
            let mut ms: Vec<(String, JsonValue)> = Vec::new();
            match &p.action {
                Some(a) => ms.push((String::from_str("action"), JsonValue::Str(a.clone()))),
                None => (),
            }
            ms.push((String::from_str("team"), p.team.deep_copy()));
            proof {
                lemma_members_from_zero(ms@);
                assert(members_from(ms@, 0) =~= spec_encode(event_view(*e))->Obj_0);
            }
            JsonValue::Obj(ms)
        },
        Event::Watch(p) => {
            let mut ms: Vec<(String, JsonValue)> = Vec::new();
            ms.push((String::from_str("action"), JsonValue::Str(String::from_str("started"))));
            ms.push((String::from_str("repository"), p.repository.deep_copy()));
            proof {
                lemma_members_from_zero(ms@);
                assert(members_from(ms@, 0) =~= spec_encode(event_view(*e))->Obj_0);
            }
            JsonValue::Obj(ms)
        },
        Event::WorkflowDispatch(p) => {
            let mut ms: Vec<(String, JsonValue)> = Vec::new();
            ms.push((String::from_str("workflow"), p.workflow.deep_copy()));
            ms.push((String::from_str("inputs"), p.inputs.deep_copy()));
            proof {
                lemma_members_from_zero(ms@);
                assert(members_from(ms@, 0) =~= spec_encode(event_view(*e))->Obj_0);
            }
            JsonValue::Obj(ms)
        },
        Event::WorkflowJob(p) => {
            let mut ms: Vec<(String, JsonValue)> = Vec::new();
            match &p.action {
                Some(a) => ms.push((String::from_str("action"), JsonValue::Str(a.clone()))),
                None => (),
            }
            ms.push((String::from_str("workflow_job"), p.workflow_job.deep_copy()));
            proof {
                lemma_members_from_zero(ms@);
                assert(members_from(ms@, 0) =~= spec_encode(event_view(*e))->Obj_0);
            }
            JsonValue::Obj(ms)
        },
    }
}

/// The installation id at `installation.id`, or 0 when absent or unusable.
pub fn doc_installation_id(v: &JsonValue) -> (r: u64)
    ensures
        r == spec_installation_id(node_of(*v)),
{
    match v.member("installation") {
        Some(inst) => match inst.member("id") {
            Some(x) => match x {
                JsonValue::Int(n) => if *n >= 0 {
                    *n as u64
                } else {
                    0
                },
                _ => 0,
            },
            None => 0,
        },
        None => 0,
    }
}

/// Parse a webhook body: the text is parsed as JSON, the installation id is
/// read from `installation.id` (defaulting to 0 when that path is absent),
/// and the document is resolved against the taxonomy.  Malformed text fails
/// with `JsonSerializationError`; a document matching no shape fails with
/// `DeserializationError`; nothing else fails.
pub fn parse_webhook(s: &str) -> (r: Result<WebHook<Event>, OctoAppError>)
    ensures
        match sp_doc(s@) {
            None => r matches Err(e) && e matches OctoAppError::JsonSerializationError(_),
            Some(d) => match spec_decode(d) {
                None => r matches Err(e) && e matches OctoAppError::DeserializationError,
                Some(ev) => r matches Ok(w) && event_view(w.0) == ev && w.1
                    == spec_installation_id(d),
            },
        },
{
    let doc = match crate::json::parse(s) {
        Ok(v) => v,
        Err(e) => {
            return Err(OctoAppError::JsonSerializationError(e));
        },
    };
    let id = doc_installation_id(&doc);
    match decode_event(&doc) {
        Some(ev) => Ok(WebHook(ev, id)),
        None => Err(OctoAppError::DeserializationError),
    }
}

/// Render a payload as a webhook document, with the installation id put in
/// an `installation` object first unless the payload defines that member
/// itself.  The id must fit a JSON integer.
pub fn encode_webhook(e: &Event, installation_id: u64) -> (r: String)
    requires
        installation_id <= 0x7fff_ffff_ffff_ffff,
    ensures
        r@ == spec_print(spec_encode_webhook(event_view(*e), installation_id as int)),
{
    let obj = encode_event(e);
    if obj.has_member("installation") {
        crate::json::to_text(&obj)
    } else {
        let ghost d = node_of(obj);
        match obj {
            JsonValue::Obj(mut ms) => {
                let ghost ms0 = ms@;
                let mut inner: Vec<(String, JsonValue)> = Vec::new();
                inner.push((String::from_str("id"), JsonValue::Int(installation_id as i64)));
                let ghost ginner = inner@;
                let pair = (String::from_str("installation"), JsonValue::Obj(inner));
                let ghost gp = pair;
                ms.insert(0, pair);
                proof {
                    lemma_members_from(ginner, 0);
                    assert(members_from(ginner, 0) =~= seq![
                        ("id"@, JsonNode::Int(installation_id as int)),
                    ]);
                    assert(node_of(gp.1) == JsonNode::Obj(
                        seq![("id"@, JsonNode::Int(installation_id as int))],
                    ));
                    assert(ms@ =~= seq![gp] + ms0);
                    crate::json::lemma_members_from_prepend(gp, ms0);
                    assert(members_from(ms@, 0) =~= seq![("installation"@, node_of(gp.1))]
                        + members_from(ms0, 0));
                    assert(d->Obj_0 == members_from(ms0, 0));
                    assert(JsonNode::Obj(members_from(ms@, 0)) == spec_encode_webhook(
                        event_view(*e),
                        installation_id as int,
                    ));
                }
                crate::json::to_text(&JsonValue::Obj(ms))
            },
            _ => vstd::pervasive::unreached(),
        }
    }
}

impl<T> WebHook<T> {
    /// Create a GitHub API client scoped to this webhook's installation,
    /// from the given configuration.  An installation id of 0 — "none
    /// resolved" — fails with `OctocrabInstallationError(0)`.
    pub fn octocrab_from_config(&self, config: &crate::config::OctoAppConfig) -> (r: Result<
        octocrab::Octocrab,
        OctoAppError,
    >)
        ensures
            self.1 == 0 ==> (r matches Err(e) && e
                matches OctoAppError::OctocrabInstallationError(id) && id == 0),
            self.1 != 0 && !config.spec_has_client_key() ==> (r matches Err(e) && e
                matches OctoAppError::MissingField(f) && f@ == "Client Key"@),
            self.1 != 0 && config.spec_has_client_key() ==> (r is Ok || (r matches Err(e) && (e
                matches OctoAppError::OctocrabError(_) || (e
                matches OctoAppError::OctocrabInstallationError(id) && id == self.1)))),
    {
        config.octocrab_by_installation(self.1)
    }
}

} // verus!
