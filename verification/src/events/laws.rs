//! The round-trip law of the taxonomy: a well-formed payload, encoded
//! as a webhook document, resolves back to itself, and the envelope
//! reads back the installation id that was written.

use crate::events::{
    action_of, nested_has, spec_decode, spec_encode, spec_encode_webhook,
    spec_installation_id, wf_event, EventV, opt_action_members,
};
use crate::json::{spec_has_member, spec_lookup, spec_member, JsonNode};
use vstd::prelude::*;

verus! {

/// How a lookup reads a 1-member object, for every key.
proof fn lemma_lookup_1(ms: Seq<(Seq<char>, JsonNode)>, p0: (Seq<char>, JsonNode))
    requires
        ms == seq![p0],
    ensures
        forall|k: Seq<char>| #[trigger] spec_lookup(ms, k) == (if p0.0 == k {
            Some(p0.1)
        } else {
            None::<JsonNode>
        }),
{
    assert forall|k: Seq<char>| #[trigger] spec_lookup(ms, k) == (if p0.0 == k {
            Some(p0.1)
        } else {
            None::<JsonNode>
        }) by {
        reveal_with_fuel(spec_lookup, 8);
        assert(seq![p0].drop_first() =~= Seq::<(Seq<char>, JsonNode)>::empty());
    }
}

/// How a lookup reads a 2-member object, for every key.
proof fn lemma_lookup_2(ms: Seq<(Seq<char>, JsonNode)>, p0: (Seq<char>, JsonNode), p1: (Seq<char>, JsonNode))
    requires
        ms == seq![p0, p1],
    ensures
        forall|k: Seq<char>| #[trigger] spec_lookup(ms, k) == (if p0.0 == k {
            Some(p0.1)
        } else if p1.0 == k {
            Some(p1.1)
        } else {
            None::<JsonNode>
        }),
{
    assert forall|k: Seq<char>| #[trigger] spec_lookup(ms, k) == (if p0.0 == k {
            Some(p0.1)
        } else if p1.0 == k {
            Some(p1.1)
        } else {
            None::<JsonNode>
        }) by {
        reveal_with_fuel(spec_lookup, 8);
        assert(seq![p0, p1].drop_first() =~= seq![p1]);
        assert(seq![p1].drop_first() =~= Seq::<(Seq<char>, JsonNode)>::empty());
    }
}

/// How a lookup reads a 3-member object, for every key.
proof fn lemma_lookup_3(ms: Seq<(Seq<char>, JsonNode)>, p0: (Seq<char>, JsonNode), p1: (Seq<char>, JsonNode), p2: (Seq<char>, JsonNode))
    requires
        ms == seq![p0, p1, p2],
    ensures
        forall|k: Seq<char>| #[trigger] spec_lookup(ms, k) == (if p0.0 == k {
            Some(p0.1)
        } else if p1.0 == k {
            Some(p1.1)
        } else if p2.0 == k {
            Some(p2.1)
        } else {
            None::<JsonNode>
        }),
{
    assert forall|k: Seq<char>| #[trigger] spec_lookup(ms, k) == (if p0.0 == k {
            Some(p0.1)
        } else if p1.0 == k {
            Some(p1.1)
        } else if p2.0 == k {
            Some(p2.1)
        } else {
            None::<JsonNode>
        }) by {
        reveal_with_fuel(spec_lookup, 8);
        assert(seq![p0, p1, p2].drop_first() =~= seq![p1, p2]);
        assert(seq![p1, p2].drop_first() =~= seq![p2]);
        assert(seq![p2].drop_first() =~= Seq::<(Seq<char>, JsonNode)>::empty());
    }
}

/// How a lookup reads a 4-member object, for every key.
proof fn lemma_lookup_4(ms: Seq<(Seq<char>, JsonNode)>, p0: (Seq<char>, JsonNode), p1: (Seq<char>, JsonNode), p2: (Seq<char>, JsonNode), p3: (Seq<char>, JsonNode))
    requires
        ms == seq![p0, p1, p2, p3],
    ensures
        forall|k: Seq<char>| #[trigger] spec_lookup(ms, k) == (if p0.0 == k {
            Some(p0.1)
        } else if p1.0 == k {
            Some(p1.1)
        } else if p2.0 == k {
            Some(p2.1)
        } else if p3.0 == k {
            Some(p3.1)
        } else {
            None::<JsonNode>
        }),
{
    assert forall|k: Seq<char>| #[trigger] spec_lookup(ms, k) == (if p0.0 == k {
            Some(p0.1)
        } else if p1.0 == k {
            Some(p1.1)
        } else if p2.0 == k {
            Some(p2.1)
        } else if p3.0 == k {
            Some(p3.1)
        } else {
            None::<JsonNode>
        }) by {
        reveal_with_fuel(spec_lookup, 8);
        assert(seq![p0, p1, p2, p3].drop_first() =~= seq![p1, p2, p3]);
        assert(seq![p1, p2, p3].drop_first() =~= seq![p2, p3]);
        assert(seq![p2, p3].drop_first() =~= seq![p3]);
        assert(seq![p3].drop_first() =~= Seq::<(Seq<char>, JsonNode)>::empty());
    }
}

/// How a lookup reads a 5-member object, for every key.
proof fn lemma_lookup_5(ms: Seq<(Seq<char>, JsonNode)>, p0: (Seq<char>, JsonNode), p1: (Seq<char>, JsonNode), p2: (Seq<char>, JsonNode), p3: (Seq<char>, JsonNode), p4: (Seq<char>, JsonNode))
    requires
        ms == seq![p0, p1, p2, p3, p4],
    ensures
        forall|k: Seq<char>| #[trigger] spec_lookup(ms, k) == (if p0.0 == k {
            Some(p0.1)
        } else if p1.0 == k {
            Some(p1.1)
        } else if p2.0 == k {
            Some(p2.1)
        } else if p3.0 == k {
            Some(p3.1)
        } else if p4.0 == k {
            Some(p4.1)
        } else {
            None::<JsonNode>
        }),
{
    assert forall|k: Seq<char>| #[trigger] spec_lookup(ms, k) == (if p0.0 == k {
            Some(p0.1)
        } else if p1.0 == k {
            Some(p1.1)
        } else if p2.0 == k {
            Some(p2.1)
        } else if p3.0 == k {
            Some(p3.1)
        } else if p4.0 == k {
            Some(p4.1)
        } else {
            None::<JsonNode>
        }) by {
        reveal_with_fuel(spec_lookup, 8);
        assert(seq![p0, p1, p2, p3, p4].drop_first() =~= seq![p1, p2, p3, p4]);
        assert(seq![p1, p2, p3, p4].drop_first() =~= seq![p2, p3, p4]);
        assert(seq![p2, p3, p4].drop_first() =~= seq![p3, p4]);
        assert(seq![p3, p4].drop_first() =~= seq![p4]);
        assert(seq![p4].drop_first() =~= Seq::<(Seq<char>, JsonNode)>::empty());
    }
}

/// The length and distinguishing characters of every key and
/// action literal the taxonomy uses, so that distinct literals
/// compare as unequal.
proof fn key_facts()
    ensures
        "account"@.len() == 7,
        "action"@.len() == 6,
        "affected_range"@.len() == 14,
        "after"@.len() == 5,
        "alert"@.len() == 5,
        "before"@.len() == 6,
        "blocked_user"@.len() == 12,
        "build"@.len() == 5,
        "changes"@.len() == 7,
        "check_run"@.len() == 9,
        "check_suite"@.len() == 11,
        "comment"@.len() == 7,
        "commits"@.len() == 7,
        "context"@.len() == 7,
        "dependency"@.len() == 10,
        "deployment"@.len() == 10,
        "deployment_callback_url"@.len() == 23,
        "deployment_status"@.len() == 17,
        "discussion"@.len() == 10,
        "forkee"@.len() == 6,
        "hook"@.len() == 4,
        "hook_id"@.len() == 7,
        "id"@.len() == 2,
        "inputs"@.len() == 6,
        "installation"@.len() == 12,
        "issue"@.len() == 5,
        "key"@.len() == 3,
        "label"@.len() == 5,
        "location"@.len() == 8,
        "marketplace_purchase"@.len() == 20,
        "master_branch"@.len() == 13,
        "member"@.len() == 6,
        "merge_group"@.len() == 11,
        "milestone"@.len() == 9,
        "number"@.len() == 6,
        "organization"@.len() == 12,
        "package"@.len() == 7,
        "pages"@.len() == 5,
        "personal_access_token_request"@.len() == 29,
        "project_card"@.len() == 12,
        "project_column"@.len() == 14,
        "projects_v2"@.len() == 11,
        "projects_v2_item"@.len() == 16,
        "pull_request"@.len() == 12,
        "ref"@.len() == 3,
        "ref_type"@.len() == 8,
        "registry_package"@.len() == 16,
        "release"@.len() == 7,
        "repositories"@.len() == 12,
        "repositories_added"@.len() == 18,
        "repository"@.len() == 10,
        "repository_advisory"@.len() == 19,
        "review"@.len() == 6,
        "rule"@.len() == 4,
        "scope"@.len() == 5,
        "secret_type"@.len() == 11,
        "security_advisory"@.len() == 17,
        "sender"@.len() == 6,
        "sha"@.len() == 3,
        "sponsorship"@.len() == 11,
        "starred_at"@.len() == 10,
        "state"@.len() == 5,
        "status"@.len() == 6,
        "target_type"@.len() == 11,
        "team"@.len() == 4,
        "thread"@.len() == 6,
        "workflow"@.len() == 8,
        "workflow_job"@.len() == 12,
        "zen"@.len() == 3,
        "archived"@.len() == 8,
        "created"@.len() == 7,
        "deleted"@.len() == 7,
        "edited"@.len() == 6,
        "member_added"@.len() == 12,
        "member_invited"@.len() == 14,
        "member_removed"@.len() == 14,
        "privatized"@.len() == 10,
        "publicized"@.len() == 10,
        "renamed"@.len() == 7,
        "revoked"@.len() == 7,
        "started"@.len() == 7,
        "transferred"@.len() == 11,
        "unarchived"@.len() == 10,
        "account"@[0] == 'a',
        "action"@[0] == 'a',
        "affected_range"@[0] == 'a',
        "after"@[0] == 'a',
        "alert"@[0] == 'a',
        "before"@[0] == 'b',
        "blocked_user"@[0] == 'b',
        "build"@[0] == 'b',
        "changes"@[0] == 'c',
        "check_run"@[0] == 'c',
        "check_suite"@[0] == 'c',
        "comment"@[0] == 'c',
        "commits"@[0] == 'c',
        "context"@[0] == 'c',
        "dependency"@[0] == 'd',
        "deployment"@[0] == 'd',
        "deployment_callback_url"@[0] == 'd',
        "deployment_status"@[0] == 'd',
        "discussion"@[0] == 'd',
        "forkee"@[0] == 'f',
        "hook"@[0] == 'h',
        "hook_id"@[0] == 'h',
        "id"@[0] == 'i',
        "inputs"@[0] == 'i',
        "installation"@[0] == 'i',
        "issue"@[0] == 'i',
        "key"@[0] == 'k',
        "label"@[0] == 'l',
        "location"@[0] == 'l',
        "marketplace_purchase"@[0] == 'm',
        "master_branch"@[0] == 'm',
        "member"@[0] == 'm',
        "merge_group"@[0] == 'm',
        "milestone"@[0] == 'm',
        "number"@[0] == 'n',
        "organization"@[0] == 'o',
        "package"@[0] == 'p',
        "pages"@[0] == 'p',
        "personal_access_token_request"@[0] == 'p',
        "project_card"@[0] == 'p',
        "project_column"@[0] == 'p',
        "projects_v2"@[0] == 'p',
        "projects_v2_item"@[0] == 'p',
        "pull_request"@[0] == 'p',
        "ref"@[0] == 'r',
        "ref_type"@[0] == 'r',
        "registry_package"@[0] == 'r',
        "release"@[0] == 'r',
        "repositories"@[0] == 'r',
        "repositories_added"@[0] == 'r',
        "repository"@[0] == 'r',
        "repository_advisory"@[0] == 'r',
        "review"@[0] == 'r',
        "rule"@[0] == 'r',
        "scope"@[0] == 's',
        "secret_type"@[0] == 's',
        "security_advisory"@[0] == 's',
        "sender"@[0] == 's',
        "sha"@[0] == 's',
        "sponsorship"@[0] == 's',
        "starred_at"@[0] == 's',
        "state"@[0] == 's',
        "status"@[0] == 's',
        "target_type"@[0] == 't',
        "team"@[0] == 't',
        "thread"@[0] == 't',
        "workflow"@[0] == 'w',
        "workflow_job"@[0] == 'w',
        "zen"@[0] == 'z',
        "archived"@[0] == 'a',
        "created"@[0] == 'c',
        "deleted"@[0] == 'd',
        "edited"@[0] == 'e',
        "member_added"@[0] == 'm',
        "member_invited"@[0] == 'm',
        "member_removed"@[0] == 'm',
        "privatized"@[0] == 'p',
        "publicized"@[0] == 'p',
        "renamed"@[0] == 'r',
        "revoked"@[0] == 'r',
        "started"@[0] == 's',
        "transferred"@[0] == 't',
        "unarchived"@[0] == 'u',
        "account"@[1] == 'c',
        "action"@[1] == 'c',
        "affected_range"@[1] == 'f',
        "after"@[1] == 'f',
        "alert"@[1] == 'l',
        "before"@[1] == 'e',
        "blocked_user"@[1] == 'l',
        "build"@[1] == 'u',
        "changes"@[1] == 'h',
        "check_run"@[1] == 'h',
        "check_suite"@[1] == 'h',
        "comment"@[1] == 'o',
        "commits"@[1] == 'o',
        "context"@[1] == 'o',
        "dependency"@[1] == 'e',
        "deployment"@[1] == 'e',
        "deployment_callback_url"@[1] == 'e',
        "deployment_status"@[1] == 'e',
        "discussion"@[1] == 'i',
        "forkee"@[1] == 'o',
        "hook"@[1] == 'o',
        "hook_id"@[1] == 'o',
        "id"@[1] == 'd',
        "inputs"@[1] == 'n',
        "installation"@[1] == 'n',
        "issue"@[1] == 's',
        "key"@[1] == 'e',
        "label"@[1] == 'a',
        "location"@[1] == 'o',
        "marketplace_purchase"@[1] == 'a',
        "master_branch"@[1] == 'a',
        "member"@[1] == 'e',
        "merge_group"@[1] == 'e',
        "milestone"@[1] == 'i',
        "number"@[1] == 'u',
        "organization"@[1] == 'r',
        "package"@[1] == 'a',
        "pages"@[1] == 'a',
        "personal_access_token_request"@[1] == 'e',
        "project_card"@[1] == 'r',
        "project_column"@[1] == 'r',
        "projects_v2"@[1] == 'r',
        "projects_v2_item"@[1] == 'r',
        "pull_request"@[1] == 'u',
        "ref"@[1] == 'e',
        "ref_type"@[1] == 'e',
        "registry_package"@[1] == 'e',
        "release"@[1] == 'e',
        "repositories"@[1] == 'e',
        "repositories_added"@[1] == 'e',
        "repository"@[1] == 'e',
        "repository_advisory"@[1] == 'e',
        "review"@[1] == 'e',
        "rule"@[1] == 'u',
        "scope"@[1] == 'c',
        "secret_type"@[1] == 'e',
        "security_advisory"@[1] == 'e',
        "sender"@[1] == 'e',
        "sha"@[1] == 'h',
        "sponsorship"@[1] == 'p',
        "starred_at"@[1] == 't',
        "state"@[1] == 't',
        "status"@[1] == 't',
        "target_type"@[1] == 'a',
        "team"@[1] == 'e',
        "thread"@[1] == 'h',
        "workflow"@[1] == 'o',
        "workflow_job"@[1] == 'o',
        "zen"@[1] == 'e',
        "archived"@[1] == 'r',
        "created"@[1] == 'r',
        "deleted"@[1] == 'e',
        "edited"@[1] == 'd',
        "member_added"@[1] == 'e',
        "member_invited"@[1] == 'e',
        "member_removed"@[1] == 'e',
        "privatized"@[1] == 'r',
        "publicized"@[1] == 'u',
        "renamed"@[1] == 'e',
        "revoked"@[1] == 'e',
        "started"@[1] == 't',
        "transferred"@[1] == 'r',
        "unarchived"@[1] == 'n',
        "comment"@[2] == 'm',
        "comment"@[4] == 'e',
        "commits"@[2] == 'm',
        "commits"@[4] == 'i',
        "context"@[2] == 'n',
        "dependency"@[3] == 'e',
        "deployment"@[3] == 'l',
        "release"@[2] == 'l',
        "member_invited"@[7] == 'i',
        "member_removed"@[7] == 'r',
        "renamed"@[2] == 'n',
        "revoked"@[2] == 'v',
{
    reveal_strlit("account");
    reveal_strlit("action");
    reveal_strlit("affected_range");
    reveal_strlit("after");
    reveal_strlit("alert");
    reveal_strlit("before");
    reveal_strlit("blocked_user");
    reveal_strlit("build");
    reveal_strlit("changes");
    reveal_strlit("check_run");
    reveal_strlit("check_suite");
    reveal_strlit("comment");
    reveal_strlit("commits");
    reveal_strlit("context");
    reveal_strlit("dependency");
    reveal_strlit("deployment");
    reveal_strlit("deployment_callback_url");
    reveal_strlit("deployment_status");
    reveal_strlit("discussion");
    reveal_strlit("forkee");
    reveal_strlit("hook");
    reveal_strlit("hook_id");
    reveal_strlit("id");
    reveal_strlit("inputs");
    reveal_strlit("installation");
    reveal_strlit("issue");
    reveal_strlit("key");
    reveal_strlit("label");
    reveal_strlit("location");
    reveal_strlit("marketplace_purchase");
    reveal_strlit("master_branch");
    reveal_strlit("member");
    reveal_strlit("merge_group");
    reveal_strlit("milestone");
    reveal_strlit("number");
    reveal_strlit("organization");
    reveal_strlit("package");
    reveal_strlit("pages");
    reveal_strlit("personal_access_token_request");
    reveal_strlit("project_card");
    reveal_strlit("project_column");
    reveal_strlit("projects_v2");
    reveal_strlit("projects_v2_item");
    reveal_strlit("pull_request");
    reveal_strlit("ref");
    reveal_strlit("ref_type");
    reveal_strlit("registry_package");
    reveal_strlit("release");
    reveal_strlit("repositories");
    reveal_strlit("repositories_added");
    reveal_strlit("repository");
    reveal_strlit("repository_advisory");
    reveal_strlit("review");
    reveal_strlit("rule");
    reveal_strlit("scope");
    reveal_strlit("secret_type");
    reveal_strlit("security_advisory");
    reveal_strlit("sender");
    reveal_strlit("sha");
    reveal_strlit("sponsorship");
    reveal_strlit("starred_at");
    reveal_strlit("state");
    reveal_strlit("status");
    reveal_strlit("target_type");
    reveal_strlit("team");
    reveal_strlit("thread");
    reveal_strlit("workflow");
    reveal_strlit("workflow_job");
    reveal_strlit("zen");
    reveal_strlit("archived");
    reveal_strlit("created");
    reveal_strlit("deleted");
    reveal_strlit("edited");
    reveal_strlit("member_added");
    reveal_strlit("member_invited");
    reveal_strlit("member_removed");
    reveal_strlit("privatized");
    reveal_strlit("publicized");
    reveal_strlit("renamed");
    reveal_strlit("revoked");
    reveal_strlit("started");
    reveal_strlit("transferred");
    reveal_strlit("unarchived");
}

/// The round trip for a `branch_protection_rule` payload.
#[verifier::rlimit(100)]
proof fn rt_branch_protection_rule(ev: EventV, installation_id: u64)
    requires
        ev is BranchProtectionRule,
        wf_event(ev),
        installation_id <= 0x7fff_ffff_ffff_ffff,
    ensures
        spec_decode(spec_encode_webhook(ev, installation_id as int)) == Some(ev),
        spec_installation_id(spec_encode_webhook(ev, installation_id as int))
            == installation_id,
{
    key_facts();
    let a = ev->BranchProtectionRule_0;
    let m0 = ev->BranchProtectionRule_1;
    if a is Some {
        let ms_e: Seq<(Seq<char>, JsonNode)> = seq![("action"@, JsonNode::Str(a->Some_0)), ("rule"@, m0)];
        assert(opt_action_members(a) + seq![("rule"@, m0)] =~= ms_e);
        assert(spec_encode(ev) == JsonNode::Obj(ms_e));
        assert(spec_encode(ev)->Obj_0 == ms_e);
        lemma_lookup_2(ms_e, ("action"@, JsonNode::Str(a->Some_0)), ("rule"@, m0));
        assert(!spec_has_member(spec_encode(ev), "installation"@));
        let ip = ("installation"@, JsonNode::Obj(
            seq![("id"@, JsonNode::Int(installation_id as int))],
        ));
        lemma_lookup_1(
            seq![("id"@, JsonNode::Int(installation_id as int))],
            ("id"@, JsonNode::Int(installation_id as int)),
        );
        assert(ip.1->Obj_0 == seq![("id"@, JsonNode::Int(installation_id as int))]);
        let ms: Seq<(Seq<char>, JsonNode)> = seq![ip] + ms_e;
        assert(ms =~= seq![ip, ("action"@, JsonNode::Str(a->Some_0)), ("rule"@, m0)]);
        lemma_lookup_3(ms, ip, ("action"@, JsonNode::Str(a->Some_0)), ("rule"@, m0));
        let d = spec_encode_webhook(ev, installation_id as int);
        assert(d == JsonNode::Obj(ms));
        assert(d->Obj_0 == ms);
        assert(spec_decode(d) == Some(ev));
        assert(spec_installation_id(d) == installation_id);
    } else {
        let ms_e: Seq<(Seq<char>, JsonNode)> = seq![("rule"@, m0)];
        assert(opt_action_members(a) + seq![("rule"@, m0)] =~= ms_e);
        assert(spec_encode(ev) == JsonNode::Obj(ms_e));
        assert(spec_encode(ev)->Obj_0 == ms_e);
        lemma_lookup_1(ms_e, ("rule"@, m0));
        assert(!spec_has_member(spec_encode(ev), "installation"@));
        let ip = ("installation"@, JsonNode::Obj(
            seq![("id"@, JsonNode::Int(installation_id as int))],
        ));
        lemma_lookup_1(
            seq![("id"@, JsonNode::Int(installation_id as int))],
            ("id"@, JsonNode::Int(installation_id as int)),
        );
        assert(ip.1->Obj_0 == seq![("id"@, JsonNode::Int(installation_id as int))]);
        let ms: Seq<(Seq<char>, JsonNode)> = seq![ip] + ms_e;
        assert(ms =~= seq![ip, ("rule"@, m0)]);
        lemma_lookup_2(ms, ip, ("rule"@, m0));
        let d = spec_encode_webhook(ev, installation_id as int);
        assert(d == JsonNode::Obj(ms));
        assert(d->Obj_0 == ms);
        assert(spec_decode(d) == Some(ev));
        assert(spec_installation_id(d) == installation_id);
    }
}

/// The round trip for a `check_run` payload.
#[verifier::rlimit(100)]
proof fn rt_check_run(ev: EventV, installation_id: u64)
    requires
        ev is CheckRun,
        wf_event(ev),
        installation_id <= 0x7fff_ffff_ffff_ffff,
    ensures
        spec_decode(spec_encode_webhook(ev, installation_id as int)) == Some(ev),
        spec_installation_id(spec_encode_webhook(ev, installation_id as int))
            == installation_id,
{
    key_facts();
    let a = ev->CheckRun_0;
    let m0 = ev->CheckRun_1;
    if a is Some {
        let ms_e: Seq<(Seq<char>, JsonNode)> = seq![("action"@, JsonNode::Str(a->Some_0)), ("check_run"@, m0)];
        assert(opt_action_members(a) + seq![("check_run"@, m0)] =~= ms_e);
        assert(spec_encode(ev) == JsonNode::Obj(ms_e));
        assert(spec_encode(ev)->Obj_0 == ms_e);
        lemma_lookup_2(ms_e, ("action"@, JsonNode::Str(a->Some_0)), ("check_run"@, m0));
        assert(!spec_has_member(spec_encode(ev), "installation"@));
        let ip = ("installation"@, JsonNode::Obj(
            seq![("id"@, JsonNode::Int(installation_id as int))],
        ));
        lemma_lookup_1(
            seq![("id"@, JsonNode::Int(installation_id as int))],
            ("id"@, JsonNode::Int(installation_id as int)),
        );
        assert(ip.1->Obj_0 == seq![("id"@, JsonNode::Int(installation_id as int))]);
        let ms: Seq<(Seq<char>, JsonNode)> = seq![ip] + ms_e;
        assert(ms =~= seq![ip, ("action"@, JsonNode::Str(a->Some_0)), ("check_run"@, m0)]);
        lemma_lookup_3(ms, ip, ("action"@, JsonNode::Str(a->Some_0)), ("check_run"@, m0));
        let d = spec_encode_webhook(ev, installation_id as int);
        assert(d == JsonNode::Obj(ms));
        assert(d->Obj_0 == ms);
        assert(spec_decode(d) == Some(ev));
        assert(spec_installation_id(d) == installation_id);
    } else {
        let ms_e: Seq<(Seq<char>, JsonNode)> = seq![("check_run"@, m0)];
        assert(opt_action_members(a) + seq![("check_run"@, m0)] =~= ms_e);
        assert(spec_encode(ev) == JsonNode::Obj(ms_e));
        assert(spec_encode(ev)->Obj_0 == ms_e);
        lemma_lookup_1(ms_e, ("check_run"@, m0));
        assert(!spec_has_member(spec_encode(ev), "installation"@));
        let ip = ("installation"@, JsonNode::Obj(
            seq![("id"@, JsonNode::Int(installation_id as int))],
        ));
        lemma_lookup_1(
            seq![("id"@, JsonNode::Int(installation_id as int))],
            ("id"@, JsonNode::Int(installation_id as int)),
        );
        assert(ip.1->Obj_0 == seq![("id"@, JsonNode::Int(installation_id as int))]);
        let ms: Seq<(Seq<char>, JsonNode)> = seq![ip] + ms_e;
        assert(ms =~= seq![ip, ("check_run"@, m0)]);
        lemma_lookup_2(ms, ip, ("check_run"@, m0));
        let d = spec_encode_webhook(ev, installation_id as int);
        assert(d == JsonNode::Obj(ms));
        assert(d->Obj_0 == ms);
        assert(spec_decode(d) == Some(ev));
        assert(spec_installation_id(d) == installation_id);
    }
}

/// The round trip for a `check_suite` payload.
#[verifier::rlimit(100)]
proof fn rt_check_suite(ev: EventV, installation_id: u64)
    requires
        ev is CheckSuite,
        wf_event(ev),
        installation_id <= 0x7fff_ffff_ffff_ffff,
    ensures
        spec_decode(spec_encode_webhook(ev, installation_id as int)) == Some(ev),
        spec_installation_id(spec_encode_webhook(ev, installation_id as int))
            == installation_id,
{
    key_facts();
    let a = ev->CheckSuite_0;
    let m0 = ev->CheckSuite_1;
    if a is Some {
        let ms_e: Seq<(Seq<char>, JsonNode)> = seq![("action"@, JsonNode::Str(a->Some_0)), ("check_suite"@, m0)];
        assert(opt_action_members(a) + seq![("check_suite"@, m0)] =~= ms_e);
        assert(spec_encode(ev) == JsonNode::Obj(ms_e));
        assert(spec_encode(ev)->Obj_0 == ms_e);
        lemma_lookup_2(ms_e, ("action"@, JsonNode::Str(a->Some_0)), ("check_suite"@, m0));
        assert(!spec_has_member(spec_encode(ev), "installation"@));
        let ip = ("installation"@, JsonNode::Obj(
            seq![("id"@, JsonNode::Int(installation_id as int))],
        ));
        lemma_lookup_1(
            seq![("id"@, JsonNode::Int(installation_id as int))],
            ("id"@, JsonNode::Int(installation_id as int)),
        );
        assert(ip.1->Obj_0 == seq![("id"@, JsonNode::Int(installation_id as int))]);
        let ms: Seq<(Seq<char>, JsonNode)> = seq![ip] + ms_e;
        assert(ms =~= seq![ip, ("action"@, JsonNode::Str(a->Some_0)), ("check_suite"@, m0)]);
        lemma_lookup_3(ms, ip, ("action"@, JsonNode::Str(a->Some_0)), ("check_suite"@, m0));
        let d = spec_encode_webhook(ev, installation_id as int);
        assert(d == JsonNode::Obj(ms));
        assert(d->Obj_0 == ms);
        assert(spec_decode(d) == Some(ev));
        assert(spec_installation_id(d) == installation_id);
    } else {
        let ms_e: Seq<(Seq<char>, JsonNode)> = seq![("check_suite"@, m0)];
        assert(opt_action_members(a) + seq![("check_suite"@, m0)] =~= ms_e);
        assert(spec_encode(ev) == JsonNode::Obj(ms_e));
        assert(spec_encode(ev)->Obj_0 == ms_e);
        lemma_lookup_1(ms_e, ("check_suite"@, m0));
        assert(!spec_has_member(spec_encode(ev), "installation"@));
        let ip = ("installation"@, JsonNode::Obj(
            seq![("id"@, JsonNode::Int(installation_id as int))],
        ));
        lemma_lookup_1(
            seq![("id"@, JsonNode::Int(installation_id as int))],
            ("id"@, JsonNode::Int(installation_id as int)),
        );
        assert(ip.1->Obj_0 == seq![("id"@, JsonNode::Int(installation_id as int))]);
        let ms: Seq<(Seq<char>, JsonNode)> = seq![ip] + ms_e;
        assert(ms =~= seq![ip, ("check_suite"@, m0)]);
        lemma_lookup_2(ms, ip, ("check_suite"@, m0));
        let d = spec_encode_webhook(ev, installation_id as int);
        assert(d == JsonNode::Obj(ms));
        assert(d->Obj_0 == ms);
        assert(spec_decode(d) == Some(ev));
        assert(spec_installation_id(d) == installation_id);
    }
}

/// The round trip for a `code_scanning_alert` payload.
#[verifier::rlimit(100)]
proof fn rt_code_scanning_alert(ev: EventV, installation_id: u64)
    requires
        ev is CodeScanningAlert,
        wf_event(ev),
        installation_id <= 0x7fff_ffff_ffff_ffff,
    ensures
        spec_decode(spec_encode_webhook(ev, installation_id as int)) == Some(ev),
        spec_installation_id(spec_encode_webhook(ev, installation_id as int))
            == installation_id,
{
    key_facts();
    let a = ev->CodeScanningAlert_0;
    let m0 = ev->CodeScanningAlert_1;
    let m1 = ev->CodeScanningAlert_2;
    if a is Some {
        let ms_e: Seq<(Seq<char>, JsonNode)> = seq![("action"@, JsonNode::Str(a->Some_0)), ("alert"@, m0), ("ref"@, m1)];
        assert(opt_action_members(a) + seq![("alert"@, m0), ("ref"@, m1)] =~= ms_e);
        assert(spec_encode(ev) == JsonNode::Obj(ms_e));
        assert(spec_encode(ev)->Obj_0 == ms_e);
        lemma_lookup_3(ms_e, ("action"@, JsonNode::Str(a->Some_0)), ("alert"@, m0), ("ref"@, m1));
        assert(!spec_has_member(spec_encode(ev), "installation"@));
        let ip = ("installation"@, JsonNode::Obj(
            seq![("id"@, JsonNode::Int(installation_id as int))],
        ));
        lemma_lookup_1(
            seq![("id"@, JsonNode::Int(installation_id as int))],
            ("id"@, JsonNode::Int(installation_id as int)),
        );
        assert(ip.1->Obj_0 == seq![("id"@, JsonNode::Int(installation_id as int))]);
        let ms: Seq<(Seq<char>, JsonNode)> = seq![ip] + ms_e;
        assert(ms =~= seq![ip, ("action"@, JsonNode::Str(a->Some_0)), ("alert"@, m0), ("ref"@, m1)]);
        lemma_lookup_4(ms, ip, ("action"@, JsonNode::Str(a->Some_0)), ("alert"@, m0), ("ref"@, m1));
        let d = spec_encode_webhook(ev, installation_id as int);
        assert(d == JsonNode::Obj(ms));
        assert(d->Obj_0 == ms);
        assert(spec_decode(d) == Some(ev));
        assert(spec_installation_id(d) == installation_id);
    } else {
        let ms_e: Seq<(Seq<char>, JsonNode)> = seq![("alert"@, m0), ("ref"@, m1)];
        assert(opt_action_members(a) + seq![("alert"@, m0), ("ref"@, m1)] =~= ms_e);
        assert(spec_encode(ev) == JsonNode::Obj(ms_e));
        assert(spec_encode(ev)->Obj_0 == ms_e);
        lemma_lookup_2(ms_e, ("alert"@, m0), ("ref"@, m1));
        assert(!spec_has_member(spec_encode(ev), "installation"@));
        let ip = ("installation"@, JsonNode::Obj(
            seq![("id"@, JsonNode::Int(installation_id as int))],
        ));
        lemma_lookup_1(
            seq![("id"@, JsonNode::Int(installation_id as int))],
            ("id"@, JsonNode::Int(installation_id as int)),
        );
        assert(ip.1->Obj_0 == seq![("id"@, JsonNode::Int(installation_id as int))]);
        let ms: Seq<(Seq<char>, JsonNode)> = seq![ip] + ms_e;
        assert(ms =~= seq![ip, ("alert"@, m0), ("ref"@, m1)]);
        lemma_lookup_3(ms, ip, ("alert"@, m0), ("ref"@, m1));
        let d = spec_encode_webhook(ev, installation_id as int);
        assert(d == JsonNode::Obj(ms));
        assert(d->Obj_0 == ms);
        assert(spec_decode(d) == Some(ev));
        assert(spec_installation_id(d) == installation_id);
    }
}

/// The round trip for a `commit_comment` payload.
#[verifier::rlimit(100)]
proof fn rt_commit_comment(ev: EventV, installation_id: u64)
    requires
        ev is CommitComment,
        wf_event(ev),
        installation_id <= 0x7fff_ffff_ffff_ffff,
    ensures
        spec_decode(spec_encode_webhook(ev, installation_id as int)) == Some(ev),
        spec_installation_id(spec_encode_webhook(ev, installation_id as int))
            == installation_id,
{
    key_facts();
    let a = ev->CommitComment_0;
    let m0 = ev->CommitComment_1;
    if a is Some {
        let ms_e: Seq<(Seq<char>, JsonNode)> = seq![("action"@, JsonNode::Str(a->Some_0)), ("comment"@, m0)];
        assert(opt_action_members(a) + seq![("comment"@, m0)] =~= ms_e);
        assert(spec_encode(ev) == JsonNode::Obj(ms_e));
        assert(spec_encode(ev)->Obj_0 == ms_e);
        lemma_lookup_2(ms_e, ("action"@, JsonNode::Str(a->Some_0)), ("comment"@, m0));
        assert(!spec_has_member(spec_encode(ev), "installation"@));
        let ip = ("installation"@, JsonNode::Obj(
            seq![("id"@, JsonNode::Int(installation_id as int))],
        ));
        lemma_lookup_1(
            seq![("id"@, JsonNode::Int(installation_id as int))],
            ("id"@, JsonNode::Int(installation_id as int)),
        );
        assert(ip.1->Obj_0 == seq![("id"@, JsonNode::Int(installation_id as int))]);
        let ms: Seq<(Seq<char>, JsonNode)> = seq![ip] + ms_e;
        assert(ms =~= seq![ip, ("action"@, JsonNode::Str(a->Some_0)), ("comment"@, m0)]);
        lemma_lookup_3(ms, ip, ("action"@, JsonNode::Str(a->Some_0)), ("comment"@, m0));
        let d = spec_encode_webhook(ev, installation_id as int);
        assert(d == JsonNode::Obj(ms));
        assert(d->Obj_0 == ms);
        assert(spec_decode(d) == Some(ev));
        assert(spec_installation_id(d) == installation_id);
    } else {
        let ms_e: Seq<(Seq<char>, JsonNode)> = seq![("comment"@, m0)];
        assert(opt_action_members(a) + seq![("comment"@, m0)] =~= ms_e);
        assert(spec_encode(ev) == JsonNode::Obj(ms_e));
        assert(spec_encode(ev)->Obj_0 == ms_e);
        lemma_lookup_1(ms_e, ("comment"@, m0));
        assert(!spec_has_member(spec_encode(ev), "installation"@));
        let ip = ("installation"@, JsonNode::Obj(
            seq![("id"@, JsonNode::Int(installation_id as int))],
        ));
        lemma_lookup_1(
            seq![("id"@, JsonNode::Int(installation_id as int))],
            ("id"@, JsonNode::Int(installation_id as int)),
        );
        assert(ip.1->Obj_0 == seq![("id"@, JsonNode::Int(installation_id as int))]);
        let ms: Seq<(Seq<char>, JsonNode)> = seq![ip] + ms_e;
        assert(ms =~= seq![ip, ("comment"@, m0)]);
        lemma_lookup_2(ms, ip, ("comment"@, m0));
        let d = spec_encode_webhook(ev, installation_id as int);
        assert(d == JsonNode::Obj(ms));
        assert(d->Obj_0 == ms);
        assert(spec_decode(d) == Some(ev));
        assert(spec_installation_id(d) == installation_id);
    }
}

/// The round trip for a `create` payload.
#[verifier::rlimit(100)]
proof fn rt_create(ev: EventV, installation_id: u64)
    requires
        ev is Create,
        wf_event(ev),
        installation_id <= 0x7fff_ffff_ffff_ffff,
    ensures
        spec_decode(spec_encode_webhook(ev, installation_id as int)) == Some(ev),
        spec_installation_id(spec_encode_webhook(ev, installation_id as int))
            == installation_id,
{
    key_facts();
    let m0 = ev->Create_0;
    let m1 = ev->Create_1;
    let m2 = ev->Create_2;
    {
        let ms_e: Seq<(Seq<char>, JsonNode)> = seq![("ref"@, m0), ("ref_type"@, m1), ("master_branch"@, m2)];
        assert(spec_encode(ev) == JsonNode::Obj(ms_e));
        assert(spec_encode(ev)->Obj_0 == ms_e);
        lemma_lookup_3(ms_e, ("ref"@, m0), ("ref_type"@, m1), ("master_branch"@, m2));
        assert(!spec_has_member(spec_encode(ev), "installation"@));
        let ip = ("installation"@, JsonNode::Obj(
            seq![("id"@, JsonNode::Int(installation_id as int))],
        ));
        lemma_lookup_1(
            seq![("id"@, JsonNode::Int(installation_id as int))],
            ("id"@, JsonNode::Int(installation_id as int)),
        );
        assert(ip.1->Obj_0 == seq![("id"@, JsonNode::Int(installation_id as int))]);
        let ms: Seq<(Seq<char>, JsonNode)> = seq![ip] + ms_e;
        assert(ms =~= seq![ip, ("ref"@, m0), ("ref_type"@, m1), ("master_branch"@, m2)]);
        lemma_lookup_4(ms, ip, ("ref"@, m0), ("ref_type"@, m1), ("master_branch"@, m2));
        let d = spec_encode_webhook(ev, installation_id as int);
        assert(d == JsonNode::Obj(ms));
        assert(d->Obj_0 == ms);
        assert(spec_decode(d) == Some(ev));
        assert(spec_installation_id(d) == installation_id);
    }
}

/// The round trip for a `delete` payload.
#[verifier::rlimit(100)]
proof fn rt_delete(ev: EventV, installation_id: u64)
    requires
        ev is Delete,
        wf_event(ev),
        installation_id <= 0x7fff_ffff_ffff_ffff,
    ensures
        spec_decode(spec_encode_webhook(ev, installation_id as int)) == Some(ev),
        spec_installation_id(spec_encode_webhook(ev, installation_id as int))
            == installation_id,
{
    key_facts();
    let m0 = ev->Delete_0;
    let m1 = ev->Delete_1;
    {
        let ms_e: Seq<(Seq<char>, JsonNode)> = seq![("ref"@, m0), ("ref_type"@, m1)];
        assert(spec_encode(ev) == JsonNode::Obj(ms_e));
        assert(spec_encode(ev)->Obj_0 == ms_e);
        lemma_lookup_2(ms_e, ("ref"@, m0), ("ref_type"@, m1));
        assert(!spec_has_member(spec_encode(ev), "installation"@));
        let ip = ("installation"@, JsonNode::Obj(
            seq![("id"@, JsonNode::Int(installation_id as int))],
        ));
        lemma_lookup_1(
            seq![("id"@, JsonNode::Int(installation_id as int))],
            ("id"@, JsonNode::Int(installation_id as int)),
        );
        assert(ip.1->Obj_0 == seq![("id"@, JsonNode::Int(installation_id as int))]);
        let ms: Seq<(Seq<char>, JsonNode)> = seq![ip] + ms_e;
        assert(ms =~= seq![ip, ("ref"@, m0), ("ref_type"@, m1)]);
        lemma_lookup_3(ms, ip, ("ref"@, m0), ("ref_type"@, m1));
        let d = spec_encode_webhook(ev, installation_id as int);
        assert(d == JsonNode::Obj(ms));
        assert(d->Obj_0 == ms);
        assert(spec_decode(d) == Some(ev));
        assert(spec_installation_id(d) == installation_id);
    }
}

/// The round trip for a `dependabot_alert` payload.
#[verifier::rlimit(100)]
proof fn rt_dependabot_alert(ev: EventV, installation_id: u64)
    requires
        ev is DependabotAlert,
        wf_event(ev),
        installation_id <= 0x7fff_ffff_ffff_ffff,
    ensures
        spec_decode(spec_encode_webhook(ev, installation_id as int)) == Some(ev),
        spec_installation_id(spec_encode_webhook(ev, installation_id as int))
            == installation_id,
{
    key_facts();
    let a = ev->DependabotAlert_0;
    let m0 = ev->DependabotAlert_1;
    if a is Some {
        let ms_e: Seq<(Seq<char>, JsonNode)> = seq![("action"@, JsonNode::Str(a->Some_0)), ("alert"@, m0)];
        assert(opt_action_members(a) + seq![("alert"@, m0)] =~= ms_e);
        assert(spec_encode(ev) == JsonNode::Obj(ms_e));
        assert(spec_encode(ev)->Obj_0 == ms_e);
        lemma_lookup_2(ms_e, ("action"@, JsonNode::Str(a->Some_0)), ("alert"@, m0));
        assert(!spec_has_member(spec_encode(ev), "installation"@));
        let ip = ("installation"@, JsonNode::Obj(
            seq![("id"@, JsonNode::Int(installation_id as int))],
        ));
        lemma_lookup_1(
            seq![("id"@, JsonNode::Int(installation_id as int))],
            ("id"@, JsonNode::Int(installation_id as int)),
        );
        assert(ip.1->Obj_0 == seq![("id"@, JsonNode::Int(installation_id as int))]);
        let ms: Seq<(Seq<char>, JsonNode)> = seq![ip] + ms_e;
        assert(ms =~= seq![ip, ("action"@, JsonNode::Str(a->Some_0)), ("alert"@, m0)]);
        lemma_lookup_3(ms, ip, ("action"@, JsonNode::Str(a->Some_0)), ("alert"@, m0));
        let d = spec_encode_webhook(ev, installation_id as int);
        assert(d == JsonNode::Obj(ms));
        assert(d->Obj_0 == ms);
        assert(spec_decode(d) == Some(ev));
        assert(spec_installation_id(d) == installation_id);
    } else {
        let ms_e: Seq<(Seq<char>, JsonNode)> = seq![("alert"@, m0)];
        assert(opt_action_members(a) + seq![("alert"@, m0)] =~= ms_e);
        assert(spec_encode(ev) == JsonNode::Obj(ms_e));
        assert(spec_encode(ev)->Obj_0 == ms_e);
        lemma_lookup_1(ms_e, ("alert"@, m0));
        assert(!spec_has_member(spec_encode(ev), "installation"@));
        let ip = ("installation"@, JsonNode::Obj(
            seq![("id"@, JsonNode::Int(installation_id as int))],
        ));
        lemma_lookup_1(
            seq![("id"@, JsonNode::Int(installation_id as int))],
            ("id"@, JsonNode::Int(installation_id as int)),
        );
        assert(ip.1->Obj_0 == seq![("id"@, JsonNode::Int(installation_id as int))]);
        let ms: Seq<(Seq<char>, JsonNode)> = seq![ip] + ms_e;
        assert(ms =~= seq![ip, ("alert"@, m0)]);
        lemma_lookup_2(ms, ip, ("alert"@, m0));
        let d = spec_encode_webhook(ev, installation_id as int);
        assert(d == JsonNode::Obj(ms));
        assert(d->Obj_0 == ms);
        assert(spec_decode(d) == Some(ev));
        assert(spec_installation_id(d) == installation_id);
    }
}

/// The round trip for a `deploy_key` payload.
#[verifier::rlimit(100)]
proof fn rt_deploy_key(ev: EventV, installation_id: u64)
    requires
        ev is DeployKey,
        wf_event(ev),
        installation_id <= 0x7fff_ffff_ffff_ffff,
    ensures
        spec_decode(spec_encode_webhook(ev, installation_id as int)) == Some(ev),
        spec_installation_id(spec_encode_webhook(ev, installation_id as int))
            == installation_id,
{
    key_facts();
    let a = ev->DeployKey_0;
    let m0 = ev->DeployKey_1;
    if a is Some {
        let ms_e: Seq<(Seq<char>, JsonNode)> = seq![("action"@, JsonNode::Str(a->Some_0)), ("key"@, m0)];
        assert(opt_action_members(a) + seq![("key"@, m0)] =~= ms_e);
        assert(spec_encode(ev) == JsonNode::Obj(ms_e));
        assert(spec_encode(ev)->Obj_0 == ms_e);
        lemma_lookup_2(ms_e, ("action"@, JsonNode::Str(a->Some_0)), ("key"@, m0));
        assert(!spec_has_member(spec_encode(ev), "installation"@));
        let ip = ("installation"@, JsonNode::Obj(
            seq![("id"@, JsonNode::Int(installation_id as int))],
        ));
        lemma_lookup_1(
            seq![("id"@, JsonNode::Int(installation_id as int))],
            ("id"@, JsonNode::Int(installation_id as int)),
        );
        assert(ip.1->Obj_0 == seq![("id"@, JsonNode::Int(installation_id as int))]);
        let ms: Seq<(Seq<char>, JsonNode)> = seq![ip] + ms_e;
        assert(ms =~= seq![ip, ("action"@, JsonNode::Str(a->Some_0)), ("key"@, m0)]);
        lemma_lookup_3(ms, ip, ("action"@, JsonNode::Str(a->Some_0)), ("key"@, m0));
        let d = spec_encode_webhook(ev, installation_id as int);
        assert(d == JsonNode::Obj(ms));
        assert(d->Obj_0 == ms);
        assert(spec_decode(d) == Some(ev));
        assert(spec_installation_id(d) == installation_id);
    } else {
        let ms_e: Seq<(Seq<char>, JsonNode)> = seq![("key"@, m0)];
        assert(opt_action_members(a) + seq![("key"@, m0)] =~= ms_e);
        assert(spec_encode(ev) == JsonNode::Obj(ms_e));
        assert(spec_encode(ev)->Obj_0 == ms_e);
        lemma_lookup_1(ms_e, ("key"@, m0));
        assert(!spec_has_member(spec_encode(ev), "installation"@));
        let ip = ("installation"@, JsonNode::Obj(
            seq![("id"@, JsonNode::Int(installation_id as int))],
        ));
        lemma_lookup_1(
            seq![("id"@, JsonNode::Int(installation_id as int))],
            ("id"@, JsonNode::Int(installation_id as int)),
        );
        assert(ip.1->Obj_0 == seq![("id"@, JsonNode::Int(installation_id as int))]);
        let ms: Seq<(Seq<char>, JsonNode)> = seq![ip] + ms_e;
        assert(ms =~= seq![ip, ("key"@, m0)]);
        lemma_lookup_2(ms, ip, ("key"@, m0));
        let d = spec_encode_webhook(ev, installation_id as int);
        assert(d == JsonNode::Obj(ms));
        assert(d->Obj_0 == ms);
        assert(spec_decode(d) == Some(ev));
        assert(spec_installation_id(d) == installation_id);
    }
}

/// The round trip for a `deployment_protection_rule` payload.
#[verifier::rlimit(100)]
proof fn rt_deployment_protection_rule(ev: EventV, installation_id: u64)
    requires
        ev is DeploymentProtectionRule,
        wf_event(ev),
        installation_id <= 0x7fff_ffff_ffff_ffff,
    ensures
        spec_decode(spec_encode_webhook(ev, installation_id as int)) == Some(ev),
        spec_installation_id(spec_encode_webhook(ev, installation_id as int))
            == installation_id,
{
    key_facts();
    let a = ev->DeploymentProtectionRule_0;
    let m0 = ev->DeploymentProtectionRule_1;
    if a is Some {
        let ms_e: Seq<(Seq<char>, JsonNode)> = seq![("action"@, JsonNode::Str(a->Some_0)), ("deployment_callback_url"@, m0)];
        assert(opt_action_members(a) + seq![("deployment_callback_url"@, m0)] =~= ms_e);
        assert(spec_encode(ev) == JsonNode::Obj(ms_e));
        assert(spec_encode(ev)->Obj_0 == ms_e);
        lemma_lookup_2(ms_e, ("action"@, JsonNode::Str(a->Some_0)), ("deployment_callback_url"@, m0));
        assert(!spec_has_member(spec_encode(ev), "installation"@));
        let ip = ("installation"@, JsonNode::Obj(
            seq![("id"@, JsonNode::Int(installation_id as int))],
        ));
        lemma_lookup_1(
            seq![("id"@, JsonNode::Int(installation_id as int))],
            ("id"@, JsonNode::Int(installation_id as int)),
        );
        assert(ip.1->Obj_0 == seq![("id"@, JsonNode::Int(installation_id as int))]);
        let ms: Seq<(Seq<char>, JsonNode)> = seq![ip] + ms_e;
        assert(ms =~= seq![ip, ("action"@, JsonNode::Str(a->Some_0)), ("deployment_callback_url"@, m0)]);
        lemma_lookup_3(ms, ip, ("action"@, JsonNode::Str(a->Some_0)), ("deployment_callback_url"@, m0));
        let d = spec_encode_webhook(ev, installation_id as int);
        assert(d == JsonNode::Obj(ms));
        assert(d->Obj_0 == ms);
        assert(spec_decode(d) == Some(ev));
        assert(spec_installation_id(d) == installation_id);
    } else {
        let ms_e: Seq<(Seq<char>, JsonNode)> = seq![("deployment_callback_url"@, m0)];
        assert(opt_action_members(a) + seq![("deployment_callback_url"@, m0)] =~= ms_e);
        assert(spec_encode(ev) == JsonNode::Obj(ms_e));
        assert(spec_encode(ev)->Obj_0 == ms_e);
        lemma_lookup_1(ms_e, ("deployment_callback_url"@, m0));
        assert(!spec_has_member(spec_encode(ev), "installation"@));
        let ip = ("installation"@, JsonNode::Obj(
            seq![("id"@, JsonNode::Int(installation_id as int))],
        ));
        lemma_lookup_1(
            seq![("id"@, JsonNode::Int(installation_id as int))],
            ("id"@, JsonNode::Int(installation_id as int)),
        );
        assert(ip.1->Obj_0 == seq![("id"@, JsonNode::Int(installation_id as int))]);
        let ms: Seq<(Seq<char>, JsonNode)> = seq![ip] + ms_e;
        assert(ms =~= seq![ip, ("deployment_callback_url"@, m0)]);
        lemma_lookup_2(ms, ip, ("deployment_callback_url"@, m0));
        let d = spec_encode_webhook(ev, installation_id as int);
        assert(d == JsonNode::Obj(ms));
        assert(d->Obj_0 == ms);
        assert(spec_decode(d) == Some(ev));
        assert(spec_installation_id(d) == installation_id);
    }
}

/// The round trip for a `deployment_status` payload.
#[verifier::rlimit(100)]
proof fn rt_deployment_status(ev: EventV, installation_id: u64)
    requires
        ev is DeploymentStatus,
        wf_event(ev),
        installation_id <= 0x7fff_ffff_ffff_ffff,
    ensures
        spec_decode(spec_encode_webhook(ev, installation_id as int)) == Some(ev),
        spec_installation_id(spec_encode_webhook(ev, installation_id as int))
            == installation_id,
{
    key_facts();
    let a = ev->DeploymentStatus_0;
    let m0 = ev->DeploymentStatus_1;
    if a is Some {
        let ms_e: Seq<(Seq<char>, JsonNode)> = seq![("action"@, JsonNode::Str(a->Some_0)), ("deployment_status"@, m0)];
        assert(opt_action_members(a) + seq![("deployment_status"@, m0)] =~= ms_e);
        assert(spec_encode(ev) == JsonNode::Obj(ms_e));
        assert(spec_encode(ev)->Obj_0 == ms_e);
        lemma_lookup_2(ms_e, ("action"@, JsonNode::Str(a->Some_0)), ("deployment_status"@, m0));
        assert(!spec_has_member(spec_encode(ev), "installation"@));
        let ip = ("installation"@, JsonNode::Obj(
            seq![("id"@, JsonNode::Int(installation_id as int))],
        ));
        lemma_lookup_1(
            seq![("id"@, JsonNode::Int(installation_id as int))],
            ("id"@, JsonNode::Int(installation_id as int)),
        );
        assert(ip.1->Obj_0 == seq![("id"@, JsonNode::Int(installation_id as int))]);
        let ms: Seq<(Seq<char>, JsonNode)> = seq![ip] + ms_e;
        assert(ms =~= seq![ip, ("action"@, JsonNode::Str(a->Some_0)), ("deployment_status"@, m0)]);
        lemma_lookup_3(ms, ip, ("action"@, JsonNode::Str(a->Some_0)), ("deployment_status"@, m0));
        let d = spec_encode_webhook(ev, installation_id as int);
        assert(d == JsonNode::Obj(ms));
        assert(d->Obj_0 == ms);
        assert(spec_decode(d) == Some(ev));
        assert(spec_installation_id(d) == installation_id);
    } else {
        let ms_e: Seq<(Seq<char>, JsonNode)> = seq![("deployment_status"@, m0)];
        assert(opt_action_members(a) + seq![("deployment_status"@, m0)] =~= ms_e);
        assert(spec_encode(ev) == JsonNode::Obj(ms_e));
        assert(spec_encode(ev)->Obj_0 == ms_e);
        lemma_lookup_1(ms_e, ("deployment_status"@, m0));
        assert(!spec_has_member(spec_encode(ev), "installation"@));
        let ip = ("installation"@, JsonNode::Obj(
            seq![("id"@, JsonNode::Int(installation_id as int))],
        ));
        lemma_lookup_1(
            seq![("id"@, JsonNode::Int(installation_id as int))],
            ("id"@, JsonNode::Int(installation_id as int)),
        );
        assert(ip.1->Obj_0 == seq![("id"@, JsonNode::Int(installation_id as int))]);
        let ms: Seq<(Seq<char>, JsonNode)> = seq![ip] + ms_e;
        assert(ms =~= seq![ip, ("deployment_status"@, m0)]);
        lemma_lookup_2(ms, ip, ("deployment_status"@, m0));
        let d = spec_encode_webhook(ev, installation_id as int);
        assert(d == JsonNode::Obj(ms));
        assert(d->Obj_0 == ms);
        assert(spec_decode(d) == Some(ev));
        assert(spec_installation_id(d) == installation_id);
    }
}

/// The round trip for a `deployment` payload.
#[verifier::rlimit(100)]
proof fn rt_deployment(ev: EventV, installation_id: u64)
    requires
        ev is Deployment,
        wf_event(ev),
        installation_id <= 0x7fff_ffff_ffff_ffff,
    ensures
        spec_decode(spec_encode_webhook(ev, installation_id as int)) == Some(ev),
        spec_installation_id(spec_encode_webhook(ev, installation_id as int))
            == installation_id,
{
    key_facts();
    let a = ev->Deployment_0;
    let m0 = ev->Deployment_1;
    if a is Some {
        let ms_e: Seq<(Seq<char>, JsonNode)> = seq![("action"@, JsonNode::Str(a->Some_0)), ("deployment"@, m0)];
        assert(opt_action_members(a) + seq![("deployment"@, m0)] =~= ms_e);
        assert(spec_encode(ev) == JsonNode::Obj(ms_e));
        assert(spec_encode(ev)->Obj_0 == ms_e);
        lemma_lookup_2(ms_e, ("action"@, JsonNode::Str(a->Some_0)), ("deployment"@, m0));
        assert(!spec_has_member(spec_encode(ev), "installation"@));
        let ip = ("installation"@, JsonNode::Obj(
            seq![("id"@, JsonNode::Int(installation_id as int))],
        ));
        lemma_lookup_1(
            seq![("id"@, JsonNode::Int(installation_id as int))],
            ("id"@, JsonNode::Int(installation_id as int)),
        );
        assert(ip.1->Obj_0 == seq![("id"@, JsonNode::Int(installation_id as int))]);
        let ms: Seq<(Seq<char>, JsonNode)> = seq![ip] + ms_e;
        assert(ms =~= seq![ip, ("action"@, JsonNode::Str(a->Some_0)), ("deployment"@, m0)]);
        lemma_lookup_3(ms, ip, ("action"@, JsonNode::Str(a->Some_0)), ("deployment"@, m0));
        let d = spec_encode_webhook(ev, installation_id as int);
        assert(d == JsonNode::Obj(ms));
        assert(d->Obj_0 == ms);
        assert(spec_decode(d) == Some(ev));
        assert(spec_installation_id(d) == installation_id);
    } else {
        let ms_e: Seq<(Seq<char>, JsonNode)> = seq![("deployment"@, m0)];
        assert(opt_action_members(a) + seq![("deployment"@, m0)] =~= ms_e);
        assert(spec_encode(ev) == JsonNode::Obj(ms_e));
        assert(spec_encode(ev)->Obj_0 == ms_e);
        lemma_lookup_1(ms_e, ("deployment"@, m0));
        assert(!spec_has_member(spec_encode(ev), "installation"@));
        let ip = ("installation"@, JsonNode::Obj(
            seq![("id"@, JsonNode::Int(installation_id as int))],
        ));
        lemma_lookup_1(
            seq![("id"@, JsonNode::Int(installation_id as int))],
            ("id"@, JsonNode::Int(installation_id as int)),
        );
        assert(ip.1->Obj_0 == seq![("id"@, JsonNode::Int(installation_id as int))]);
        let ms: Seq<(Seq<char>, JsonNode)> = seq![ip] + ms_e;
        assert(ms =~= seq![ip, ("deployment"@, m0)]);
        lemma_lookup_2(ms, ip, ("deployment"@, m0));
        let d = spec_encode_webhook(ev, installation_id as int);
        assert(d == JsonNode::Obj(ms));
        assert(d->Obj_0 == ms);
        assert(spec_decode(d) == Some(ev));
        assert(spec_installation_id(d) == installation_id);
    }
}

/// The round trip for a `discussion_comment` payload.
#[verifier::rlimit(100)]
proof fn rt_discussion_comment(ev: EventV, installation_id: u64)
    requires
        ev is DiscussionComment,
        wf_event(ev),
        installation_id <= 0x7fff_ffff_ffff_ffff,
    ensures
        spec_decode(spec_encode_webhook(ev, installation_id as int)) == Some(ev),
        spec_installation_id(spec_encode_webhook(ev, installation_id as int))
            == installation_id,
{
    key_facts();
    let a = ev->DiscussionComment_0;
    let m0 = ev->DiscussionComment_1;
    let m1 = ev->DiscussionComment_2;
    if a is Some {
        let ms_e: Seq<(Seq<char>, JsonNode)> = seq![("action"@, JsonNode::Str(a->Some_0)), ("comment"@, m0), ("discussion"@, m1)];
        assert(opt_action_members(a) + seq![("comment"@, m0), ("discussion"@, m1)] =~= ms_e);
        assert(spec_encode(ev) == JsonNode::Obj(ms_e));
        assert(spec_encode(ev)->Obj_0 == ms_e);
        lemma_lookup_3(ms_e, ("action"@, JsonNode::Str(a->Some_0)), ("comment"@, m0), ("discussion"@, m1));
        assert(!spec_has_member(spec_encode(ev), "installation"@));
        let ip = ("installation"@, JsonNode::Obj(
            seq![("id"@, JsonNode::Int(installation_id as int))],
        ));
        lemma_lookup_1(
            seq![("id"@, JsonNode::Int(installation_id as int))],
            ("id"@, JsonNode::Int(installation_id as int)),
        );
        assert(ip.1->Obj_0 == seq![("id"@, JsonNode::Int(installation_id as int))]);
        let ms: Seq<(Seq<char>, JsonNode)> = seq![ip] + ms_e;
        assert(ms =~= seq![ip, ("action"@, JsonNode::Str(a->Some_0)), ("comment"@, m0), ("discussion"@, m1)]);
        lemma_lookup_4(ms, ip, ("action"@, JsonNode::Str(a->Some_0)), ("comment"@, m0), ("discussion"@, m1));
        let d = spec_encode_webhook(ev, installation_id as int);
        assert(d == JsonNode::Obj(ms));
        assert(d->Obj_0 == ms);
        assert(spec_decode(d) == Some(ev));
        assert(spec_installation_id(d) == installation_id);
    } else {
        let ms_e: Seq<(Seq<char>, JsonNode)> = seq![("comment"@, m0), ("discussion"@, m1)];
        assert(opt_action_members(a) + seq![("comment"@, m0), ("discussion"@, m1)] =~= ms_e);
        assert(spec_encode(ev) == JsonNode::Obj(ms_e));
        assert(spec_encode(ev)->Obj_0 == ms_e);
        lemma_lookup_2(ms_e, ("comment"@, m0), ("discussion"@, m1));
        assert(!spec_has_member(spec_encode(ev), "installation"@));
        let ip = ("installation"@, JsonNode::Obj(
            seq![("id"@, JsonNode::Int(installation_id as int))],
        ));
        lemma_lookup_1(
            seq![("id"@, JsonNode::Int(installation_id as int))],
            ("id"@, JsonNode::Int(installation_id as int)),
        );
        assert(ip.1->Obj_0 == seq![("id"@, JsonNode::Int(installation_id as int))]);
        let ms: Seq<(Seq<char>, JsonNode)> = seq![ip] + ms_e;
        assert(ms =~= seq![ip, ("comment"@, m0), ("discussion"@, m1)]);
        lemma_lookup_3(ms, ip, ("comment"@, m0), ("discussion"@, m1));
        let d = spec_encode_webhook(ev, installation_id as int);
        assert(d == JsonNode::Obj(ms));
        assert(d->Obj_0 == ms);
        assert(spec_decode(d) == Some(ev));
        assert(spec_installation_id(d) == installation_id);
    }
}

/// The round trip for a `discussion` payload.
#[verifier::rlimit(100)]
proof fn rt_discussion(ev: EventV, installation_id: u64)
    requires
        ev is Discussion,
        wf_event(ev),
        installation_id <= 0x7fff_ffff_ffff_ffff,
    ensures
        spec_decode(spec_encode_webhook(ev, installation_id as int)) == Some(ev),
        spec_installation_id(spec_encode_webhook(ev, installation_id as int))
            == installation_id,
{
    key_facts();
    let a = ev->Discussion_0;
    let m0 = ev->Discussion_1;
    if a is Some {
        let ms_e: Seq<(Seq<char>, JsonNode)> = seq![("action"@, JsonNode::Str(a->Some_0)), ("discussion"@, m0)];
        assert(opt_action_members(a) + seq![("discussion"@, m0)] =~= ms_e);
        assert(spec_encode(ev) == JsonNode::Obj(ms_e));
        assert(spec_encode(ev)->Obj_0 == ms_e);
        lemma_lookup_2(ms_e, ("action"@, JsonNode::Str(a->Some_0)), ("discussion"@, m0));
        assert(!spec_has_member(spec_encode(ev), "installation"@));
        let ip = ("installation"@, JsonNode::Obj(
            seq![("id"@, JsonNode::Int(installation_id as int))],
        ));
        lemma_lookup_1(
            seq![("id"@, JsonNode::Int(installation_id as int))],
            ("id"@, JsonNode::Int(installation_id as int)),
        );
        assert(ip.1->Obj_0 == seq![("id"@, JsonNode::Int(installation_id as int))]);
        let ms: Seq<(Seq<char>, JsonNode)> = seq![ip] + ms_e;
        assert(ms =~= seq![ip, ("action"@, JsonNode::Str(a->Some_0)), ("discussion"@, m0)]);
        lemma_lookup_3(ms, ip, ("action"@, JsonNode::Str(a->Some_0)), ("discussion"@, m0));
        let d = spec_encode_webhook(ev, installation_id as int);
        assert(d == JsonNode::Obj(ms));
        assert(d->Obj_0 == ms);
        assert(spec_decode(d) == Some(ev));
        assert(spec_installation_id(d) == installation_id);
    } else {
        let ms_e: Seq<(Seq<char>, JsonNode)> = seq![("discussion"@, m0)];
        assert(opt_action_members(a) + seq![("discussion"@, m0)] =~= ms_e);
        assert(spec_encode(ev) == JsonNode::Obj(ms_e));
        assert(spec_encode(ev)->Obj_0 == ms_e);
        lemma_lookup_1(ms_e, ("discussion"@, m0));
        assert(!spec_has_member(spec_encode(ev), "installation"@));
        let ip = ("installation"@, JsonNode::Obj(
            seq![("id"@, JsonNode::Int(installation_id as int))],
        ));
        lemma_lookup_1(
            seq![("id"@, JsonNode::Int(installation_id as int))],
            ("id"@, JsonNode::Int(installation_id as int)),
        );
        assert(ip.1->Obj_0 == seq![("id"@, JsonNode::Int(installation_id as int))]);
        let ms: Seq<(Seq<char>, JsonNode)> = seq![ip] + ms_e;
        assert(ms =~= seq![ip, ("discussion"@, m0)]);
        lemma_lookup_2(ms, ip, ("discussion"@, m0));
        let d = spec_encode_webhook(ev, installation_id as int);
        assert(d == JsonNode::Obj(ms));
        assert(d->Obj_0 == ms);
        assert(spec_decode(d) == Some(ev));
        assert(spec_installation_id(d) == installation_id);
    }
}

/// The round trip for a `fork` payload.
#[verifier::rlimit(100)]
proof fn rt_fork(ev: EventV, installation_id: u64)
    requires
        ev is Fork,
        wf_event(ev),
        installation_id <= 0x7fff_ffff_ffff_ffff,
    ensures
        spec_decode(spec_encode_webhook(ev, installation_id as int)) == Some(ev),
        spec_installation_id(spec_encode_webhook(ev, installation_id as int))
            == installation_id,
{
    key_facts();
    let m0 = ev->Fork_0;
    {
        let ms_e: Seq<(Seq<char>, JsonNode)> = seq![("forkee"@, m0)];
        assert(spec_encode(ev) == JsonNode::Obj(ms_e));
        assert(spec_encode(ev)->Obj_0 == ms_e);
        lemma_lookup_1(ms_e, ("forkee"@, m0));
        assert(!spec_has_member(spec_encode(ev), "installation"@));
        let ip = ("installation"@, JsonNode::Obj(
            seq![("id"@, JsonNode::Int(installation_id as int))],
        ));
        lemma_lookup_1(
            seq![("id"@, JsonNode::Int(installation_id as int))],
            ("id"@, JsonNode::Int(installation_id as int)),
        );
        assert(ip.1->Obj_0 == seq![("id"@, JsonNode::Int(installation_id as int))]);
        let ms: Seq<(Seq<char>, JsonNode)> = seq![ip] + ms_e;
        assert(ms =~= seq![ip, ("forkee"@, m0)]);
        lemma_lookup_2(ms, ip, ("forkee"@, m0));
        let d = spec_encode_webhook(ev, installation_id as int);
        assert(d == JsonNode::Obj(ms));
        assert(d->Obj_0 == ms);
        assert(spec_decode(d) == Some(ev));
        assert(spec_installation_id(d) == installation_id);
    }
}

/// The round trip for a `github_app_authorization` payload.
#[verifier::rlimit(100)]
proof fn rt_github_app_authorization(ev: EventV, installation_id: u64)
    requires
        ev is GithubAppAuthorization,
        wf_event(ev),
        installation_id <= 0x7fff_ffff_ffff_ffff,
    ensures
        spec_decode(spec_encode_webhook(ev, installation_id as int)) == Some(ev),
        spec_installation_id(spec_encode_webhook(ev, installation_id as int))
            == installation_id,
{
    key_facts();
    let m0 = ev->GithubAppAuthorization_0;
    {
        let ms_e: Seq<(Seq<char>, JsonNode)> = seq![("action"@, JsonNode::Str("revoked"@)), ("sender"@, m0)];
        assert(spec_encode(ev) == JsonNode::Obj(ms_e));
        assert(spec_encode(ev)->Obj_0 == ms_e);
        lemma_lookup_2(ms_e, ("action"@, JsonNode::Str("revoked"@)), ("sender"@, m0));
        assert(!spec_has_member(spec_encode(ev), "installation"@));
        let ip = ("installation"@, JsonNode::Obj(
            seq![("id"@, JsonNode::Int(installation_id as int))],
        ));
        lemma_lookup_1(
            seq![("id"@, JsonNode::Int(installation_id as int))],
            ("id"@, JsonNode::Int(installation_id as int)),
        );
        assert(ip.1->Obj_0 == seq![("id"@, JsonNode::Int(installation_id as int))]);
        let ms: Seq<(Seq<char>, JsonNode)> = seq![ip] + ms_e;
        assert(ms =~= seq![ip, ("action"@, JsonNode::Str("revoked"@)), ("sender"@, m0)]);
        lemma_lookup_3(ms, ip, ("action"@, JsonNode::Str("revoked"@)), ("sender"@, m0));
        let d = spec_encode_webhook(ev, installation_id as int);
        assert(d == JsonNode::Obj(ms));
        assert(d->Obj_0 == ms);
        assert(spec_decode(d) == Some(ev));
        assert(spec_installation_id(d) == installation_id);
    }
}

/// The round trip for a `gollum` payload.
#[verifier::rlimit(100)]
proof fn rt_gollum(ev: EventV, installation_id: u64)
    requires
        ev is Gollum,
        wf_event(ev),
        installation_id <= 0x7fff_ffff_ffff_ffff,
    ensures
        spec_decode(spec_encode_webhook(ev, installation_id as int)) == Some(ev),
        spec_installation_id(spec_encode_webhook(ev, installation_id as int))
            == installation_id,
{
    key_facts();
    let m0 = ev->Gollum_0;
    {
        let ms_e: Seq<(Seq<char>, JsonNode)> = seq![("pages"@, m0)];
        assert(spec_encode(ev) == JsonNode::Obj(ms_e));
        assert(spec_encode(ev)->Obj_0 == ms_e);
        lemma_lookup_1(ms_e, ("pages"@, m0));
        assert(!spec_has_member(spec_encode(ev), "installation"@));
        let ip = ("installation"@, JsonNode::Obj(
            seq![("id"@, JsonNode::Int(installation_id as int))],
        ));
        lemma_lookup_1(
            seq![("id"@, JsonNode::Int(installation_id as int))],
            ("id"@, JsonNode::Int(installation_id as int)),
        );
        assert(ip.1->Obj_0 == seq![("id"@, JsonNode::Int(installation_id as int))]);
        let ms: Seq<(Seq<char>, JsonNode)> = seq![ip] + ms_e;
        assert(ms =~= seq![ip, ("pages"@, m0)]);
        lemma_lookup_2(ms, ip, ("pages"@, m0));
        let d = spec_encode_webhook(ev, installation_id as int);
        assert(d == JsonNode::Obj(ms));
        assert(d->Obj_0 == ms);
        assert(spec_decode(d) == Some(ev));
        assert(spec_installation_id(d) == installation_id);
    }
}

/// The round trip for a `installation_repositories` payload.
#[verifier::rlimit(100)]
proof fn rt_installation_repositories(ev: EventV, installation_id: u64)
    requires
        ev is InstallationRepositories,
        wf_event(ev),
        installation_id <= 0x7fff_ffff_ffff_ffff,
    ensures
        spec_decode(spec_encode_webhook(ev, installation_id as int)) == Some(ev),
        spec_installation_id(spec_encode_webhook(ev, installation_id as int))
            == installation_id,
{
    key_facts();
    let a = ev->InstallationRepositories_0;
    let m0 = ev->InstallationRepositories_1;
    if a is Some {
        let ms_e: Seq<(Seq<char>, JsonNode)> = seq![("action"@, JsonNode::Str(a->Some_0)), ("repositories_added"@, m0)];
        assert(opt_action_members(a) + seq![("repositories_added"@, m0)] =~= ms_e);
        assert(spec_encode(ev) == JsonNode::Obj(ms_e));
        assert(spec_encode(ev)->Obj_0 == ms_e);
        lemma_lookup_2(ms_e, ("action"@, JsonNode::Str(a->Some_0)), ("repositories_added"@, m0));
        assert(!spec_has_member(spec_encode(ev), "installation"@));
        let ip = ("installation"@, JsonNode::Obj(
            seq![("id"@, JsonNode::Int(installation_id as int))],
        ));
        lemma_lookup_1(
            seq![("id"@, JsonNode::Int(installation_id as int))],
            ("id"@, JsonNode::Int(installation_id as int)),
        );
        assert(ip.1->Obj_0 == seq![("id"@, JsonNode::Int(installation_id as int))]);
        let ms: Seq<(Seq<char>, JsonNode)> = seq![ip] + ms_e;
        assert(ms =~= seq![ip, ("action"@, JsonNode::Str(a->Some_0)), ("repositories_added"@, m0)]);
        lemma_lookup_3(ms, ip, ("action"@, JsonNode::Str(a->Some_0)), ("repositories_added"@, m0));
        let d = spec_encode_webhook(ev, installation_id as int);
        assert(d == JsonNode::Obj(ms));
        assert(d->Obj_0 == ms);
        assert(spec_decode(d) == Some(ev));
        assert(spec_installation_id(d) == installation_id);
    } else {
        let ms_e: Seq<(Seq<char>, JsonNode)> = seq![("repositories_added"@, m0)];
        assert(opt_action_members(a) + seq![("repositories_added"@, m0)] =~= ms_e);
        assert(spec_encode(ev) == JsonNode::Obj(ms_e));
        assert(spec_encode(ev)->Obj_0 == ms_e);
        lemma_lookup_1(ms_e, ("repositories_added"@, m0));
        assert(!spec_has_member(spec_encode(ev), "installation"@));
        let ip = ("installation"@, JsonNode::Obj(
            seq![("id"@, JsonNode::Int(installation_id as int))],
        ));
        lemma_lookup_1(
            seq![("id"@, JsonNode::Int(installation_id as int))],
            ("id"@, JsonNode::Int(installation_id as int)),
        );
        assert(ip.1->Obj_0 == seq![("id"@, JsonNode::Int(installation_id as int))]);
        let ms: Seq<(Seq<char>, JsonNode)> = seq![ip] + ms_e;
        assert(ms =~= seq![ip, ("repositories_added"@, m0)]);
        lemma_lookup_2(ms, ip, ("repositories_added"@, m0));
        let d = spec_encode_webhook(ev, installation_id as int);
        assert(d == JsonNode::Obj(ms));
        assert(d->Obj_0 == ms);
        assert(spec_decode(d) == Some(ev));
        assert(spec_installation_id(d) == installation_id);
    }
}

/// The round trip for a `installation_target` payload.
#[verifier::rlimit(100)]
proof fn rt_installation_target(ev: EventV, installation_id: u64)
    requires
        ev is InstallationTarget,
        wf_event(ev),
        installation_id <= 0x7fff_ffff_ffff_ffff,
    ensures
        spec_decode(spec_encode_webhook(ev, installation_id as int)) == Some(ev),
        spec_installation_id(spec_encode_webhook(ev, installation_id as int))
            == installation_id,
{
    key_facts();
    let a = ev->InstallationTarget_0;
    let m0 = ev->InstallationTarget_1;
    let m1 = ev->InstallationTarget_2;
    if a is Some {
        let ms_e: Seq<(Seq<char>, JsonNode)> = seq![("action"@, JsonNode::Str(a->Some_0)), ("account"@, m0), ("target_type"@, m1)];
        assert(opt_action_members(a) + seq![("account"@, m0), ("target_type"@, m1)] =~= ms_e);
        assert(spec_encode(ev) == JsonNode::Obj(ms_e));
        assert(spec_encode(ev)->Obj_0 == ms_e);
        lemma_lookup_3(ms_e, ("action"@, JsonNode::Str(a->Some_0)), ("account"@, m0), ("target_type"@, m1));
        assert(!spec_has_member(spec_encode(ev), "installation"@));
        let ip = ("installation"@, JsonNode::Obj(
            seq![("id"@, JsonNode::Int(installation_id as int))],
        ));
        lemma_lookup_1(
            seq![("id"@, JsonNode::Int(installation_id as int))],
            ("id"@, JsonNode::Int(installation_id as int)),
        );
        assert(ip.1->Obj_0 == seq![("id"@, JsonNode::Int(installation_id as int))]);
        let ms: Seq<(Seq<char>, JsonNode)> = seq![ip] + ms_e;
        assert(ms =~= seq![ip, ("action"@, JsonNode::Str(a->Some_0)), ("account"@, m0), ("target_type"@, m1)]);
        lemma_lookup_4(ms, ip, ("action"@, JsonNode::Str(a->Some_0)), ("account"@, m0), ("target_type"@, m1));
        let d = spec_encode_webhook(ev, installation_id as int);
        assert(d == JsonNode::Obj(ms));
        assert(d->Obj_0 == ms);
        assert(spec_decode(d) == Some(ev));
        assert(spec_installation_id(d) == installation_id);
    } else {
        let ms_e: Seq<(Seq<char>, JsonNode)> = seq![("account"@, m0), ("target_type"@, m1)];
        assert(opt_action_members(a) + seq![("account"@, m0), ("target_type"@, m1)] =~= ms_e);
        assert(spec_encode(ev) == JsonNode::Obj(ms_e));
        assert(spec_encode(ev)->Obj_0 == ms_e);
        lemma_lookup_2(ms_e, ("account"@, m0), ("target_type"@, m1));
        assert(!spec_has_member(spec_encode(ev), "installation"@));
        let ip = ("installation"@, JsonNode::Obj(
            seq![("id"@, JsonNode::Int(installation_id as int))],
        ));
        lemma_lookup_1(
            seq![("id"@, JsonNode::Int(installation_id as int))],
            ("id"@, JsonNode::Int(installation_id as int)),
        );
        assert(ip.1->Obj_0 == seq![("id"@, JsonNode::Int(installation_id as int))]);
        let ms: Seq<(Seq<char>, JsonNode)> = seq![ip] + ms_e;
        assert(ms =~= seq![ip, ("account"@, m0), ("target_type"@, m1)]);
        lemma_lookup_3(ms, ip, ("account"@, m0), ("target_type"@, m1));
        let d = spec_encode_webhook(ev, installation_id as int);
        assert(d == JsonNode::Obj(ms));
        assert(d->Obj_0 == ms);
        assert(spec_decode(d) == Some(ev));
        assert(spec_installation_id(d) == installation_id);
    }
}

/// The round trip for a `installation` payload.
#[verifier::rlimit(100)]
proof fn rt_installation(ev: EventV, installation_id: u64)
    requires
        ev is Installation,
        wf_event(ev),
        installation_id <= 0x7fff_ffff_ffff_ffff,
    ensures
        spec_decode(spec_encode_webhook(ev, installation_id as int)) == Some(ev),
{
    key_facts();
    let a = ev->Installation_0;
    let m0 = ev->Installation_1;
    let m1 = ev->Installation_2;
    if a is Some {
        let ms_e: Seq<(Seq<char>, JsonNode)> = seq![("action"@, JsonNode::Str(a->Some_0)), ("installation"@, m0), ("repositories"@, m1)];
        assert(opt_action_members(a) + seq![("installation"@, m0), ("repositories"@, m1)] =~= ms_e);
        assert(spec_encode(ev) == JsonNode::Obj(ms_e));
        assert(spec_encode(ev)->Obj_0 == ms_e);
        lemma_lookup_3(ms_e, ("action"@, JsonNode::Str(a->Some_0)), ("installation"@, m0), ("repositories"@, m1));
        assert(spec_has_member(spec_encode(ev), "installation"@));
        let d = spec_encode_webhook(ev, installation_id as int);
        assert(d == JsonNode::Obj(ms_e));
        assert(d->Obj_0 == ms_e);
        assert(spec_decode(d) == Some(ev));
    } else {
        let ms_e: Seq<(Seq<char>, JsonNode)> = seq![("installation"@, m0), ("repositories"@, m1)];
        assert(opt_action_members(a) + seq![("installation"@, m0), ("repositories"@, m1)] =~= ms_e);
        assert(spec_encode(ev) == JsonNode::Obj(ms_e));
        assert(spec_encode(ev)->Obj_0 == ms_e);
        lemma_lookup_2(ms_e, ("installation"@, m0), ("repositories"@, m1));
        assert(spec_has_member(spec_encode(ev), "installation"@));
        let d = spec_encode_webhook(ev, installation_id as int);
        assert(d == JsonNode::Obj(ms_e));
        assert(d->Obj_0 == ms_e);
        assert(spec_decode(d) == Some(ev));
    }
}

/// The round trip for a `issue_comment` payload.
#[verifier::rlimit(100)]
proof fn rt_issue_comment(ev: EventV, installation_id: u64)
    requires
        ev is IssueComment,
        wf_event(ev),
        installation_id <= 0x7fff_ffff_ffff_ffff,
    ensures
        spec_decode(spec_encode_webhook(ev, installation_id as int)) == Some(ev),
        spec_installation_id(spec_encode_webhook(ev, installation_id as int))
            == installation_id,
{
    key_facts();
    let a = ev->IssueComment_0;
    let m0 = ev->IssueComment_1;
    let m1 = ev->IssueComment_2;
    if a is Some {
        let ms_e: Seq<(Seq<char>, JsonNode)> = seq![("action"@, JsonNode::Str(a->Some_0)), ("issue"@, m0), ("comment"@, m1)];
        assert(opt_action_members(a) + seq![("issue"@, m0), ("comment"@, m1)] =~= ms_e);
        assert(spec_encode(ev) == JsonNode::Obj(ms_e));
        assert(spec_encode(ev)->Obj_0 == ms_e);
        lemma_lookup_3(ms_e, ("action"@, JsonNode::Str(a->Some_0)), ("issue"@, m0), ("comment"@, m1));
        assert(!spec_has_member(spec_encode(ev), "installation"@));
        let ip = ("installation"@, JsonNode::Obj(
            seq![("id"@, JsonNode::Int(installation_id as int))],
        ));
        lemma_lookup_1(
            seq![("id"@, JsonNode::Int(installation_id as int))],
            ("id"@, JsonNode::Int(installation_id as int)),
        );
        assert(ip.1->Obj_0 == seq![("id"@, JsonNode::Int(installation_id as int))]);
        let ms: Seq<(Seq<char>, JsonNode)> = seq![ip] + ms_e;
        assert(ms =~= seq![ip, ("action"@, JsonNode::Str(a->Some_0)), ("issue"@, m0), ("comment"@, m1)]);
        lemma_lookup_4(ms, ip, ("action"@, JsonNode::Str(a->Some_0)), ("issue"@, m0), ("comment"@, m1));
        let d = spec_encode_webhook(ev, installation_id as int);
        assert(d == JsonNode::Obj(ms));
        assert(d->Obj_0 == ms);
        assert(spec_decode(d) == Some(ev));
        assert(spec_installation_id(d) == installation_id);
    } else {
        let ms_e: Seq<(Seq<char>, JsonNode)> = seq![("issue"@, m0), ("comment"@, m1)];
        assert(opt_action_members(a) + seq![("issue"@, m0), ("comment"@, m1)] =~= ms_e);
        assert(spec_encode(ev) == JsonNode::Obj(ms_e));
        assert(spec_encode(ev)->Obj_0 == ms_e);
        lemma_lookup_2(ms_e, ("issue"@, m0), ("comment"@, m1));
        assert(!spec_has_member(spec_encode(ev), "installation"@));
        let ip = ("installation"@, JsonNode::Obj(
            seq![("id"@, JsonNode::Int(installation_id as int))],
        ));
        lemma_lookup_1(
            seq![("id"@, JsonNode::Int(installation_id as int))],
            ("id"@, JsonNode::Int(installation_id as int)),
        );
        assert(ip.1->Obj_0 == seq![("id"@, JsonNode::Int(installation_id as int))]);
        let ms: Seq<(Seq<char>, JsonNode)> = seq![ip] + ms_e;
        assert(ms =~= seq![ip, ("issue"@, m0), ("comment"@, m1)]);
        lemma_lookup_3(ms, ip, ("issue"@, m0), ("comment"@, m1));
        let d = spec_encode_webhook(ev, installation_id as int);
        assert(d == JsonNode::Obj(ms));
        assert(d->Obj_0 == ms);
        assert(spec_decode(d) == Some(ev));
        assert(spec_installation_id(d) == installation_id);
    }
}

/// The round trip for a `issues` payload.
#[verifier::rlimit(100)]
proof fn rt_issues(ev: EventV, installation_id: u64)
    requires
        ev is Issues,
        wf_event(ev),
        installation_id <= 0x7fff_ffff_ffff_ffff,
    ensures
        spec_decode(spec_encode_webhook(ev, installation_id as int)) == Some(ev),
        spec_installation_id(spec_encode_webhook(ev, installation_id as int))
            == installation_id,
{
    key_facts();
    let a = ev->Issues_0;
    let m0 = ev->Issues_1;
    if a is Some {
        let ms_e: Seq<(Seq<char>, JsonNode)> = seq![("action"@, JsonNode::Str(a->Some_0)), ("issue"@, m0)];
        assert(opt_action_members(a) + seq![("issue"@, m0)] =~= ms_e);
        assert(spec_encode(ev) == JsonNode::Obj(ms_e));
        assert(spec_encode(ev)->Obj_0 == ms_e);
        lemma_lookup_2(ms_e, ("action"@, JsonNode::Str(a->Some_0)), ("issue"@, m0));
        assert(!spec_has_member(spec_encode(ev), "installation"@));
        let ip = ("installation"@, JsonNode::Obj(
            seq![("id"@, JsonNode::Int(installation_id as int))],
        ));
        lemma_lookup_1(
            seq![("id"@, JsonNode::Int(installation_id as int))],
            ("id"@, JsonNode::Int(installation_id as int)),
        );
        assert(ip.1->Obj_0 == seq![("id"@, JsonNode::Int(installation_id as int))]);
        let ms: Seq<(Seq<char>, JsonNode)> = seq![ip] + ms_e;
        assert(ms =~= seq![ip, ("action"@, JsonNode::Str(a->Some_0)), ("issue"@, m0)]);
        lemma_lookup_3(ms, ip, ("action"@, JsonNode::Str(a->Some_0)), ("issue"@, m0));
        let d = spec_encode_webhook(ev, installation_id as int);
        assert(d == JsonNode::Obj(ms));
        assert(d->Obj_0 == ms);
        assert(spec_decode(d) == Some(ev));
        assert(spec_installation_id(d) == installation_id);
    } else {
        let ms_e: Seq<(Seq<char>, JsonNode)> = seq![("issue"@, m0)];
        assert(opt_action_members(a) + seq![("issue"@, m0)] =~= ms_e);
        assert(spec_encode(ev) == JsonNode::Obj(ms_e));
        assert(spec_encode(ev)->Obj_0 == ms_e);
        lemma_lookup_1(ms_e, ("issue"@, m0));
        assert(!spec_has_member(spec_encode(ev), "installation"@));
        let ip = ("installation"@, JsonNode::Obj(
            seq![("id"@, JsonNode::Int(installation_id as int))],
        ));
        lemma_lookup_1(
            seq![("id"@, JsonNode::Int(installation_id as int))],
            ("id"@, JsonNode::Int(installation_id as int)),
        );
        assert(ip.1->Obj_0 == seq![("id"@, JsonNode::Int(installation_id as int))]);
        let ms: Seq<(Seq<char>, JsonNode)> = seq![ip] + ms_e;
        assert(ms =~= seq![ip, ("issue"@, m0)]);
        lemma_lookup_2(ms, ip, ("issue"@, m0));
        let d = spec_encode_webhook(ev, installation_id as int);
        assert(d == JsonNode::Obj(ms));
        assert(d->Obj_0 == ms);
        assert(spec_decode(d) == Some(ev));
        assert(spec_installation_id(d) == installation_id);
    }
}

/// The round trip for a `label` payload.
#[verifier::rlimit(100)]
proof fn rt_label(ev: EventV, installation_id: u64)
    requires
        ev is Label,
        wf_event(ev),
        installation_id <= 0x7fff_ffff_ffff_ffff,
    ensures
        spec_decode(spec_encode_webhook(ev, installation_id as int)) == Some(ev),
        spec_installation_id(spec_encode_webhook(ev, installation_id as int))
            == installation_id,
{
    key_facts();
    let a = ev->Label_0;
    let m0 = ev->Label_1;
    if a is Some {
        let ms_e: Seq<(Seq<char>, JsonNode)> = seq![("action"@, JsonNode::Str(a->Some_0)), ("label"@, m0)];
        assert(opt_action_members(a) + seq![("label"@, m0)] =~= ms_e);
        assert(spec_encode(ev) == JsonNode::Obj(ms_e));
        assert(spec_encode(ev)->Obj_0 == ms_e);
        lemma_lookup_2(ms_e, ("action"@, JsonNode::Str(a->Some_0)), ("label"@, m0));
        assert(!spec_has_member(spec_encode(ev), "installation"@));
        let ip = ("installation"@, JsonNode::Obj(
            seq![("id"@, JsonNode::Int(installation_id as int))],
        ));
        lemma_lookup_1(
            seq![("id"@, JsonNode::Int(installation_id as int))],
            ("id"@, JsonNode::Int(installation_id as int)),
        );
        assert(ip.1->Obj_0 == seq![("id"@, JsonNode::Int(installation_id as int))]);
        let ms: Seq<(Seq<char>, JsonNode)> = seq![ip] + ms_e;
        assert(ms =~= seq![ip, ("action"@, JsonNode::Str(a->Some_0)), ("label"@, m0)]);
        lemma_lookup_3(ms, ip, ("action"@, JsonNode::Str(a->Some_0)), ("label"@, m0));
        let d = spec_encode_webhook(ev, installation_id as int);
        assert(d == JsonNode::Obj(ms));
        assert(d->Obj_0 == ms);
        assert(spec_decode(d) == Some(ev));
        assert(spec_installation_id(d) == installation_id);
    } else {
        let ms_e: Seq<(Seq<char>, JsonNode)> = seq![("label"@, m0)];
        assert(opt_action_members(a) + seq![("label"@, m0)] =~= ms_e);
        assert(spec_encode(ev) == JsonNode::Obj(ms_e));
        assert(spec_encode(ev)->Obj_0 == ms_e);
        lemma_lookup_1(ms_e, ("label"@, m0));
        assert(!spec_has_member(spec_encode(ev), "installation"@));
        let ip = ("installation"@, JsonNode::Obj(
            seq![("id"@, JsonNode::Int(installation_id as int))],
        ));
        lemma_lookup_1(
            seq![("id"@, JsonNode::Int(installation_id as int))],
            ("id"@, JsonNode::Int(installation_id as int)),
        );
        assert(ip.1->Obj_0 == seq![("id"@, JsonNode::Int(installation_id as int))]);
        let ms: Seq<(Seq<char>, JsonNode)> = seq![ip] + ms_e;
        assert(ms =~= seq![ip, ("label"@, m0)]);
        lemma_lookup_2(ms, ip, ("label"@, m0));
        let d = spec_encode_webhook(ev, installation_id as int);
        assert(d == JsonNode::Obj(ms));
        assert(d->Obj_0 == ms);
        assert(spec_decode(d) == Some(ev));
        assert(spec_installation_id(d) == installation_id);
    }
}

/// The round trip for a `marketplace_purchase` payload.
#[verifier::rlimit(100)]
proof fn rt_marketplace_purchase(ev: EventV, installation_id: u64)
    requires
        ev is MarketplacePurchase,
        wf_event(ev),
        installation_id <= 0x7fff_ffff_ffff_ffff,
    ensures
        spec_decode(spec_encode_webhook(ev, installation_id as int)) == Some(ev),
        spec_installation_id(spec_encode_webhook(ev, installation_id as int))
            == installation_id,
{
    key_facts();
    let a = ev->MarketplacePurchase_0;
    let m0 = ev->MarketplacePurchase_1;
    if a is Some {
        let ms_e: Seq<(Seq<char>, JsonNode)> = seq![("action"@, JsonNode::Str(a->Some_0)), ("marketplace_purchase"@, m0)];
        assert(opt_action_members(a) + seq![("marketplace_purchase"@, m0)] =~= ms_e);
        assert(spec_encode(ev) == JsonNode::Obj(ms_e));
        assert(spec_encode(ev)->Obj_0 == ms_e);
        lemma_lookup_2(ms_e, ("action"@, JsonNode::Str(a->Some_0)), ("marketplace_purchase"@, m0));
        assert(!spec_has_member(spec_encode(ev), "installation"@));
        let ip = ("installation"@, JsonNode::Obj(
            seq![("id"@, JsonNode::Int(installation_id as int))],
        ));
        lemma_lookup_1(
            seq![("id"@, JsonNode::Int(installation_id as int))],
            ("id"@, JsonNode::Int(installation_id as int)),
        );
        assert(ip.1->Obj_0 == seq![("id"@, JsonNode::Int(installation_id as int))]);
        let ms: Seq<(Seq<char>, JsonNode)> = seq![ip] + ms_e;
        assert(ms =~= seq![ip, ("action"@, JsonNode::Str(a->Some_0)), ("marketplace_purchase"@, m0)]);
        lemma_lookup_3(ms, ip, ("action"@, JsonNode::Str(a->Some_0)), ("marketplace_purchase"@, m0));
        let d = spec_encode_webhook(ev, installation_id as int);
        assert(d == JsonNode::Obj(ms));
        assert(d->Obj_0 == ms);
        assert(spec_decode(d) == Some(ev));
        assert(spec_installation_id(d) == installation_id);
    } else {
        let ms_e: Seq<(Seq<char>, JsonNode)> = seq![("marketplace_purchase"@, m0)];
        assert(opt_action_members(a) + seq![("marketplace_purchase"@, m0)] =~= ms_e);
        assert(spec_encode(ev) == JsonNode::Obj(ms_e));
        assert(spec_encode(ev)->Obj_0 == ms_e);
        lemma_lookup_1(ms_e, ("marketplace_purchase"@, m0));
        assert(!spec_has_member(spec_encode(ev), "installation"@));
        let ip = ("installation"@, JsonNode::Obj(
            seq![("id"@, JsonNode::Int(installation_id as int))],
        ));
        lemma_lookup_1(
            seq![("id"@, JsonNode::Int(installation_id as int))],
            ("id"@, JsonNode::Int(installation_id as int)),
        );
        assert(ip.1->Obj_0 == seq![("id"@, JsonNode::Int(installation_id as int))]);
        let ms: Seq<(Seq<char>, JsonNode)> = seq![ip] + ms_e;
        assert(ms =~= seq![ip, ("marketplace_purchase"@, m0)]);
        lemma_lookup_2(ms, ip, ("marketplace_purchase"@, m0));
        let d = spec_encode_webhook(ev, installation_id as int);
        assert(d == JsonNode::Obj(ms));
        assert(d->Obj_0 == ms);
        assert(spec_decode(d) == Some(ev));
        assert(spec_installation_id(d) == installation_id);
    }
}

/// The round trip for a `member` payload.
#[verifier::rlimit(100)]
proof fn rt_member(ev: EventV, installation_id: u64)
    requires
        ev is Member,
        wf_event(ev),
        installation_id <= 0x7fff_ffff_ffff_ffff,
    ensures
        spec_decode(spec_encode_webhook(ev, installation_id as int)) == Some(ev),
        spec_installation_id(spec_encode_webhook(ev, installation_id as int))
            == installation_id,
{
    key_facts();
    let a = ev->Member_0;
    let m0 = ev->Member_1;
    if a is Some {
        let ms_e: Seq<(Seq<char>, JsonNode)> = seq![("action"@, JsonNode::Str(a->Some_0)), ("member"@, m0)];
        assert(opt_action_members(a) + seq![("member"@, m0)] =~= ms_e);
        assert(spec_encode(ev) == JsonNode::Obj(ms_e));
        assert(spec_encode(ev)->Obj_0 == ms_e);
        lemma_lookup_2(ms_e, ("action"@, JsonNode::Str(a->Some_0)), ("member"@, m0));
        assert(!spec_has_member(spec_encode(ev), "installation"@));
        let ip = ("installation"@, JsonNode::Obj(
            seq![("id"@, JsonNode::Int(installation_id as int))],
        ));
        lemma_lookup_1(
            seq![("id"@, JsonNode::Int(installation_id as int))],
            ("id"@, JsonNode::Int(installation_id as int)),
        );
        assert(ip.1->Obj_0 == seq![("id"@, JsonNode::Int(installation_id as int))]);
        let ms: Seq<(Seq<char>, JsonNode)> = seq![ip] + ms_e;
        assert(ms =~= seq![ip, ("action"@, JsonNode::Str(a->Some_0)), ("member"@, m0)]);
        lemma_lookup_3(ms, ip, ("action"@, JsonNode::Str(a->Some_0)), ("member"@, m0));
        let d = spec_encode_webhook(ev, installation_id as int);
        assert(d == JsonNode::Obj(ms));
        assert(d->Obj_0 == ms);
        assert(spec_decode(d) == Some(ev));
        assert(spec_installation_id(d) == installation_id);
    } else {
        let ms_e: Seq<(Seq<char>, JsonNode)> = seq![("member"@, m0)];
        assert(opt_action_members(a) + seq![("member"@, m0)] =~= ms_e);
        assert(spec_encode(ev) == JsonNode::Obj(ms_e));
        assert(spec_encode(ev)->Obj_0 == ms_e);
        lemma_lookup_1(ms_e, ("member"@, m0));
        assert(!spec_has_member(spec_encode(ev), "installation"@));
        let ip = ("installation"@, JsonNode::Obj(
            seq![("id"@, JsonNode::Int(installation_id as int))],
        ));
        lemma_lookup_1(
            seq![("id"@, JsonNode::Int(installation_id as int))],
            ("id"@, JsonNode::Int(installation_id as int)),
        );
        assert(ip.1->Obj_0 == seq![("id"@, JsonNode::Int(installation_id as int))]);
        let ms: Seq<(Seq<char>, JsonNode)> = seq![ip] + ms_e;
        assert(ms =~= seq![ip, ("member"@, m0)]);
        lemma_lookup_2(ms, ip, ("member"@, m0));
        let d = spec_encode_webhook(ev, installation_id as int);
        assert(d == JsonNode::Obj(ms));
        assert(d->Obj_0 == ms);
        assert(spec_decode(d) == Some(ev));
        assert(spec_installation_id(d) == installation_id);
    }
}

/// The round trip for a `membership` payload.
#[verifier::rlimit(100)]
proof fn rt_membership(ev: EventV, installation_id: u64)
    requires
        ev is Membership,
        wf_event(ev),
        installation_id <= 0x7fff_ffff_ffff_ffff,
    ensures
        spec_decode(spec_encode_webhook(ev, installation_id as int)) == Some(ev),
        spec_installation_id(spec_encode_webhook(ev, installation_id as int))
            == installation_id,
{
    key_facts();
    let a = ev->Membership_0;
    let m0 = ev->Membership_1;
    let m1 = ev->Membership_2;
    if a is Some {
        let ms_e: Seq<(Seq<char>, JsonNode)> = seq![("action"@, JsonNode::Str(a->Some_0)), ("member"@, m0), ("scope"@, m1)];
        assert(opt_action_members(a) + seq![("member"@, m0), ("scope"@, m1)] =~= ms_e);
        assert(spec_encode(ev) == JsonNode::Obj(ms_e));
        assert(spec_encode(ev)->Obj_0 == ms_e);
        lemma_lookup_3(ms_e, ("action"@, JsonNode::Str(a->Some_0)), ("member"@, m0), ("scope"@, m1));
        assert(!spec_has_member(spec_encode(ev), "installation"@));
        let ip = ("installation"@, JsonNode::Obj(
            seq![("id"@, JsonNode::Int(installation_id as int))],
        ));
        lemma_lookup_1(
            seq![("id"@, JsonNode::Int(installation_id as int))],
            ("id"@, JsonNode::Int(installation_id as int)),
        );
        assert(ip.1->Obj_0 == seq![("id"@, JsonNode::Int(installation_id as int))]);
        let ms: Seq<(Seq<char>, JsonNode)> = seq![ip] + ms_e;
        assert(ms =~= seq![ip, ("action"@, JsonNode::Str(a->Some_0)), ("member"@, m0), ("scope"@, m1)]);
        lemma_lookup_4(ms, ip, ("action"@, JsonNode::Str(a->Some_0)), ("member"@, m0), ("scope"@, m1));
        let d = spec_encode_webhook(ev, installation_id as int);
        assert(d == JsonNode::Obj(ms));
        assert(d->Obj_0 == ms);
        assert(spec_decode(d) == Some(ev));
        assert(spec_installation_id(d) == installation_id);
    } else {
        let ms_e: Seq<(Seq<char>, JsonNode)> = seq![("member"@, m0), ("scope"@, m1)];
        assert(opt_action_members(a) + seq![("member"@, m0), ("scope"@, m1)] =~= ms_e);
        assert(spec_encode(ev) == JsonNode::Obj(ms_e));
        assert(spec_encode(ev)->Obj_0 == ms_e);
        lemma_lookup_2(ms_e, ("member"@, m0), ("scope"@, m1));
        assert(!spec_has_member(spec_encode(ev), "installation"@));
        let ip = ("installation"@, JsonNode::Obj(
            seq![("id"@, JsonNode::Int(installation_id as int))],
        ));
        lemma_lookup_1(
            seq![("id"@, JsonNode::Int(installation_id as int))],
            ("id"@, JsonNode::Int(installation_id as int)),
        );
        assert(ip.1->Obj_0 == seq![("id"@, JsonNode::Int(installation_id as int))]);
        let ms: Seq<(Seq<char>, JsonNode)> = seq![ip] + ms_e;
        assert(ms =~= seq![ip, ("member"@, m0), ("scope"@, m1)]);
        lemma_lookup_3(ms, ip, ("member"@, m0), ("scope"@, m1));
        let d = spec_encode_webhook(ev, installation_id as int);
        assert(d == JsonNode::Obj(ms));
        assert(d->Obj_0 == ms);
        assert(spec_decode(d) == Some(ev));
        assert(spec_installation_id(d) == installation_id);
    }
}

/// The round trip for a `merge_group` payload.
#[verifier::rlimit(100)]
proof fn rt_merge_group(ev: EventV, installation_id: u64)
    requires
        ev is MergeGroup,
        wf_event(ev),
        installation_id <= 0x7fff_ffff_ffff_ffff,
    ensures
        spec_decode(spec_encode_webhook(ev, installation_id as int)) == Some(ev),
        spec_installation_id(spec_encode_webhook(ev, installation_id as int))
            == installation_id,
{
    key_facts();
    let a = ev->MergeGroup_0;
    let m0 = ev->MergeGroup_1;
    if a is Some {
        let ms_e: Seq<(Seq<char>, JsonNode)> = seq![("action"@, JsonNode::Str(a->Some_0)), ("merge_group"@, m0)];
        assert(opt_action_members(a) + seq![("merge_group"@, m0)] =~= ms_e);
        assert(spec_encode(ev) == JsonNode::Obj(ms_e));
        assert(spec_encode(ev)->Obj_0 == ms_e);
        lemma_lookup_2(ms_e, ("action"@, JsonNode::Str(a->Some_0)), ("merge_group"@, m0));
        assert(!spec_has_member(spec_encode(ev), "installation"@));
        let ip = ("installation"@, JsonNode::Obj(
            seq![("id"@, JsonNode::Int(installation_id as int))],
        ));
        lemma_lookup_1(
            seq![("id"@, JsonNode::Int(installation_id as int))],
            ("id"@, JsonNode::Int(installation_id as int)),
        );
        assert(ip.1->Obj_0 == seq![("id"@, JsonNode::Int(installation_id as int))]);
        let ms: Seq<(Seq<char>, JsonNode)> = seq![ip] + ms_e;
        assert(ms =~= seq![ip, ("action"@, JsonNode::Str(a->Some_0)), ("merge_group"@, m0)]);
        lemma_lookup_3(ms, ip, ("action"@, JsonNode::Str(a->Some_0)), ("merge_group"@, m0));
        let d = spec_encode_webhook(ev, installation_id as int);
        assert(d == JsonNode::Obj(ms));
        assert(d->Obj_0 == ms);
        assert(spec_decode(d) == Some(ev));
        assert(spec_installation_id(d) == installation_id);
    } else {
        let ms_e: Seq<(Seq<char>, JsonNode)> = seq![("merge_group"@, m0)];
        assert(opt_action_members(a) + seq![("merge_group"@, m0)] =~= ms_e);
        assert(spec_encode(ev) == JsonNode::Obj(ms_e));
        assert(spec_encode(ev)->Obj_0 == ms_e);
        lemma_lookup_1(ms_e, ("merge_group"@, m0));
        assert(!spec_has_member(spec_encode(ev), "installation"@));
        let ip = ("installation"@, JsonNode::Obj(
            seq![("id"@, JsonNode::Int(installation_id as int))],
        ));
        lemma_lookup_1(
            seq![("id"@, JsonNode::Int(installation_id as int))],
            ("id"@, JsonNode::Int(installation_id as int)),
        );
        assert(ip.1->Obj_0 == seq![("id"@, JsonNode::Int(installation_id as int))]);
        let ms: Seq<(Seq<char>, JsonNode)> = seq![ip] + ms_e;
        assert(ms =~= seq![ip, ("merge_group"@, m0)]);
        lemma_lookup_2(ms, ip, ("merge_group"@, m0));
        let d = spec_encode_webhook(ev, installation_id as int);
        assert(d == JsonNode::Obj(ms));
        assert(d->Obj_0 == ms);
        assert(spec_decode(d) == Some(ev));
        assert(spec_installation_id(d) == installation_id);
    }
}

/// The round trip for a `meta` payload.
#[verifier::rlimit(100)]
proof fn rt_meta(ev: EventV, installation_id: u64)
    requires
        ev is Meta,
        wf_event(ev),
        installation_id <= 0x7fff_ffff_ffff_ffff,
    ensures
        spec_decode(spec_encode_webhook(ev, installation_id as int)) == Some(ev),
        spec_installation_id(spec_encode_webhook(ev, installation_id as int))
            == installation_id,
{
    key_facts();
    let a = ev->Meta_0;
    let m0 = ev->Meta_1;
    if a is Some {
        let ms_e: Seq<(Seq<char>, JsonNode)> = seq![("action"@, JsonNode::Str(a->Some_0)), ("hook"@, m0)];
        assert(opt_action_members(a) + seq![("hook"@, m0)] =~= ms_e);
        assert(spec_encode(ev) == JsonNode::Obj(ms_e));
        assert(spec_encode(ev)->Obj_0 == ms_e);
        lemma_lookup_2(ms_e, ("action"@, JsonNode::Str(a->Some_0)), ("hook"@, m0));
        assert(!spec_has_member(spec_encode(ev), "installation"@));
        let ip = ("installation"@, JsonNode::Obj(
            seq![("id"@, JsonNode::Int(installation_id as int))],
        ));
        lemma_lookup_1(
            seq![("id"@, JsonNode::Int(installation_id as int))],
            ("id"@, JsonNode::Int(installation_id as int)),
        );
        assert(ip.1->Obj_0 == seq![("id"@, JsonNode::Int(installation_id as int))]);
        let ms: Seq<(Seq<char>, JsonNode)> = seq![ip] + ms_e;
        assert(ms =~= seq![ip, ("action"@, JsonNode::Str(a->Some_0)), ("hook"@, m0)]);
        lemma_lookup_3(ms, ip, ("action"@, JsonNode::Str(a->Some_0)), ("hook"@, m0));
        let d = spec_encode_webhook(ev, installation_id as int);
        assert(d == JsonNode::Obj(ms));
        assert(d->Obj_0 == ms);
        assert(spec_decode(d) == Some(ev));
        assert(spec_installation_id(d) == installation_id);
    } else {
        let ms_e: Seq<(Seq<char>, JsonNode)> = seq![("hook"@, m0)];
        assert(opt_action_members(a) + seq![("hook"@, m0)] =~= ms_e);
        assert(spec_encode(ev) == JsonNode::Obj(ms_e));
        assert(spec_encode(ev)->Obj_0 == ms_e);
        lemma_lookup_1(ms_e, ("hook"@, m0));
        assert(!spec_has_member(spec_encode(ev), "installation"@));
        let ip = ("installation"@, JsonNode::Obj(
            seq![("id"@, JsonNode::Int(installation_id as int))],
        ));
        lemma_lookup_1(
            seq![("id"@, JsonNode::Int(installation_id as int))],
            ("id"@, JsonNode::Int(installation_id as int)),
        );
        assert(ip.1->Obj_0 == seq![("id"@, JsonNode::Int(installation_id as int))]);
        let ms: Seq<(Seq<char>, JsonNode)> = seq![ip] + ms_e;
        assert(ms =~= seq![ip, ("hook"@, m0)]);
        lemma_lookup_2(ms, ip, ("hook"@, m0));
        let d = spec_encode_webhook(ev, installation_id as int);
        assert(d == JsonNode::Obj(ms));
        assert(d->Obj_0 == ms);
        assert(spec_decode(d) == Some(ev));
        assert(spec_installation_id(d) == installation_id);
    }
}

/// The round trip for a `milestone` payload.
#[verifier::rlimit(100)]
proof fn rt_milestone(ev: EventV, installation_id: u64)
    requires
        ev is Milestone,
        wf_event(ev),
        installation_id <= 0x7fff_ffff_ffff_ffff,
    ensures
        spec_decode(spec_encode_webhook(ev, installation_id as int)) == Some(ev),
        spec_installation_id(spec_encode_webhook(ev, installation_id as int))
            == installation_id,
{
    key_facts();
    let a = ev->Milestone_0;
    let m0 = ev->Milestone_1;
    if a is Some {
        let ms_e: Seq<(Seq<char>, JsonNode)> = seq![("action"@, JsonNode::Str(a->Some_0)), ("milestone"@, m0)];
        assert(opt_action_members(a) + seq![("milestone"@, m0)] =~= ms_e);
        assert(spec_encode(ev) == JsonNode::Obj(ms_e));
        assert(spec_encode(ev)->Obj_0 == ms_e);
        lemma_lookup_2(ms_e, ("action"@, JsonNode::Str(a->Some_0)), ("milestone"@, m0));
        assert(!spec_has_member(spec_encode(ev), "installation"@));
        let ip = ("installation"@, JsonNode::Obj(
            seq![("id"@, JsonNode::Int(installation_id as int))],
        ));
        lemma_lookup_1(
            seq![("id"@, JsonNode::Int(installation_id as int))],
            ("id"@, JsonNode::Int(installation_id as int)),
        );
        assert(ip.1->Obj_0 == seq![("id"@, JsonNode::Int(installation_id as int))]);
        let ms: Seq<(Seq<char>, JsonNode)> = seq![ip] + ms_e;
        assert(ms =~= seq![ip, ("action"@, JsonNode::Str(a->Some_0)), ("milestone"@, m0)]);
        lemma_lookup_3(ms, ip, ("action"@, JsonNode::Str(a->Some_0)), ("milestone"@, m0));
        let d = spec_encode_webhook(ev, installation_id as int);
        assert(d == JsonNode::Obj(ms));
        assert(d->Obj_0 == ms);
        assert(spec_decode(d) == Some(ev));
        assert(spec_installation_id(d) == installation_id);
    } else {
        let ms_e: Seq<(Seq<char>, JsonNode)> = seq![("milestone"@, m0)];
        assert(opt_action_members(a) + seq![("milestone"@, m0)] =~= ms_e);
        assert(spec_encode(ev) == JsonNode::Obj(ms_e));
        assert(spec_encode(ev)->Obj_0 == ms_e);
        lemma_lookup_1(ms_e, ("milestone"@, m0));
        assert(!spec_has_member(spec_encode(ev), "installation"@));
        let ip = ("installation"@, JsonNode::Obj(
            seq![("id"@, JsonNode::Int(installation_id as int))],
        ));
        lemma_lookup_1(
            seq![("id"@, JsonNode::Int(installation_id as int))],
            ("id"@, JsonNode::Int(installation_id as int)),
        );
        assert(ip.1->Obj_0 == seq![("id"@, JsonNode::Int(installation_id as int))]);
        let ms: Seq<(Seq<char>, JsonNode)> = seq![ip] + ms_e;
        assert(ms =~= seq![ip, ("milestone"@, m0)]);
        lemma_lookup_2(ms, ip, ("milestone"@, m0));
        let d = spec_encode_webhook(ev, installation_id as int);
        assert(d == JsonNode::Obj(ms));
        assert(d->Obj_0 == ms);
        assert(spec_decode(d) == Some(ev));
        assert(spec_installation_id(d) == installation_id);
    }
}

/// The round trip for a `org_block` payload.
#[verifier::rlimit(100)]
proof fn rt_org_block(ev: EventV, installation_id: u64)
    requires
        ev is OrgBlock,
        wf_event(ev),
        installation_id <= 0x7fff_ffff_ffff_ffff,
    ensures
        spec_decode(spec_encode_webhook(ev, installation_id as int)) == Some(ev),
        spec_installation_id(spec_encode_webhook(ev, installation_id as int))
            == installation_id,
{
    key_facts();
    let a = ev->OrgBlock_0;
    let m0 = ev->OrgBlock_1;
    if a is Some {
        let ms_e: Seq<(Seq<char>, JsonNode)> = seq![("action"@, JsonNode::Str(a->Some_0)), ("blocked_user"@, m0)];
        assert(opt_action_members(a) + seq![("blocked_user"@, m0)] =~= ms_e);
        assert(spec_encode(ev) == JsonNode::Obj(ms_e));
        assert(spec_encode(ev)->Obj_0 == ms_e);
        lemma_lookup_2(ms_e, ("action"@, JsonNode::Str(a->Some_0)), ("blocked_user"@, m0));
        assert(!spec_has_member(spec_encode(ev), "installation"@));
        let ip = ("installation"@, JsonNode::Obj(
            seq![("id"@, JsonNode::Int(installation_id as int))],
        ));
        lemma_lookup_1(
            seq![("id"@, JsonNode::Int(installation_id as int))],
            ("id"@, JsonNode::Int(installation_id as int)),
        );
        assert(ip.1->Obj_0 == seq![("id"@, JsonNode::Int(installation_id as int))]);
        let ms: Seq<(Seq<char>, JsonNode)> = seq![ip] + ms_e;
        assert(ms =~= seq![ip, ("action"@, JsonNode::Str(a->Some_0)), ("blocked_user"@, m0)]);
        lemma_lookup_3(ms, ip, ("action"@, JsonNode::Str(a->Some_0)), ("blocked_user"@, m0));
        let d = spec_encode_webhook(ev, installation_id as int);
        assert(d == JsonNode::Obj(ms));
        assert(d->Obj_0 == ms);
        assert(spec_decode(d) == Some(ev));
        assert(spec_installation_id(d) == installation_id);
    } else {
        let ms_e: Seq<(Seq<char>, JsonNode)> = seq![("blocked_user"@, m0)];
        assert(opt_action_members(a) + seq![("blocked_user"@, m0)] =~= ms_e);
        assert(spec_encode(ev) == JsonNode::Obj(ms_e));
        assert(spec_encode(ev)->Obj_0 == ms_e);
        lemma_lookup_1(ms_e, ("blocked_user"@, m0));
        assert(!spec_has_member(spec_encode(ev), "installation"@));
        let ip = ("installation"@, JsonNode::Obj(
            seq![("id"@, JsonNode::Int(installation_id as int))],
        ));
        lemma_lookup_1(
            seq![("id"@, JsonNode::Int(installation_id as int))],
            ("id"@, JsonNode::Int(installation_id as int)),
        );
        assert(ip.1->Obj_0 == seq![("id"@, JsonNode::Int(installation_id as int))]);
        let ms: Seq<(Seq<char>, JsonNode)> = seq![ip] + ms_e;
        assert(ms =~= seq![ip, ("blocked_user"@, m0)]);
        lemma_lookup_2(ms, ip, ("blocked_user"@, m0));
        let d = spec_encode_webhook(ev, installation_id as int);
        assert(d == JsonNode::Obj(ms));
        assert(d->Obj_0 == ms);
        assert(spec_decode(d) == Some(ev));
        assert(spec_installation_id(d) == installation_id);
    }
}

/// The round trip for a `organization` payload.
#[verifier::rlimit(100)]
proof fn rt_organization(ev: EventV, installation_id: u64)
    requires
        ev is Organization,
        wf_event(ev),
        installation_id <= 0x7fff_ffff_ffff_ffff,
    ensures
        spec_decode(spec_encode_webhook(ev, installation_id as int)) == Some(ev),
        spec_installation_id(spec_encode_webhook(ev, installation_id as int))
            == installation_id,
{
    key_facts();
    let a = ev->Organization_0;
    let m0 = ev->Organization_1;
    {
        let ms_e: Seq<(Seq<char>, JsonNode)> = seq![("action"@, JsonNode::Str(a)), ("organization"@, m0)];
        assert(spec_encode(ev) == JsonNode::Obj(ms_e));
        assert(spec_encode(ev)->Obj_0 == ms_e);
        lemma_lookup_2(ms_e, ("action"@, JsonNode::Str(a)), ("organization"@, m0));
        assert(!spec_has_member(spec_encode(ev), "installation"@));
        let ip = ("installation"@, JsonNode::Obj(
            seq![("id"@, JsonNode::Int(installation_id as int))],
        ));
        lemma_lookup_1(
            seq![("id"@, JsonNode::Int(installation_id as int))],
            ("id"@, JsonNode::Int(installation_id as int)),
        );
        assert(ip.1->Obj_0 == seq![("id"@, JsonNode::Int(installation_id as int))]);
        let ms: Seq<(Seq<char>, JsonNode)> = seq![ip] + ms_e;
        assert(ms =~= seq![ip, ("action"@, JsonNode::Str(a)), ("organization"@, m0)]);
        lemma_lookup_3(ms, ip, ("action"@, JsonNode::Str(a)), ("organization"@, m0));
        let d = spec_encode_webhook(ev, installation_id as int);
        assert(d == JsonNode::Obj(ms));
        assert(d->Obj_0 == ms);
        assert(spec_decode(d) == Some(ev));
        assert(spec_installation_id(d) == installation_id);
    }
}

/// The round trip for a `package` payload.
#[verifier::rlimit(100)]
proof fn rt_package(ev: EventV, installation_id: u64)
    requires
        ev is Package,
        wf_event(ev),
        installation_id <= 0x7fff_ffff_ffff_ffff,
    ensures
        spec_decode(spec_encode_webhook(ev, installation_id as int)) == Some(ev),
        spec_installation_id(spec_encode_webhook(ev, installation_id as int))
            == installation_id,
{
    key_facts();
    let a = ev->Package_0;
    let m0 = ev->Package_1;
    if a is Some {
        let ms_e: Seq<(Seq<char>, JsonNode)> = seq![("action"@, JsonNode::Str(a->Some_0)), ("package"@, m0)];
        assert(opt_action_members(a) + seq![("package"@, m0)] =~= ms_e);
        assert(spec_encode(ev) == JsonNode::Obj(ms_e));
        assert(spec_encode(ev)->Obj_0 == ms_e);
        lemma_lookup_2(ms_e, ("action"@, JsonNode::Str(a->Some_0)), ("package"@, m0));
        assert(!spec_has_member(spec_encode(ev), "installation"@));
        let ip = ("installation"@, JsonNode::Obj(
            seq![("id"@, JsonNode::Int(installation_id as int))],
        ));
        lemma_lookup_1(
            seq![("id"@, JsonNode::Int(installation_id as int))],
            ("id"@, JsonNode::Int(installation_id as int)),
        );
        assert(ip.1->Obj_0 == seq![("id"@, JsonNode::Int(installation_id as int))]);
        let ms: Seq<(Seq<char>, JsonNode)> = seq![ip] + ms_e;
        assert(ms =~= seq![ip, ("action"@, JsonNode::Str(a->Some_0)), ("package"@, m0)]);
        lemma_lookup_3(ms, ip, ("action"@, JsonNode::Str(a->Some_0)), ("package"@, m0));
        let d = spec_encode_webhook(ev, installation_id as int);
        assert(d == JsonNode::Obj(ms));
        assert(d->Obj_0 == ms);
        assert(spec_decode(d) == Some(ev));
        assert(spec_installation_id(d) == installation_id);
    } else {
        let ms_e: Seq<(Seq<char>, JsonNode)> = seq![("package"@, m0)];
        assert(opt_action_members(a) + seq![("package"@, m0)] =~= ms_e);
        assert(spec_encode(ev) == JsonNode::Obj(ms_e));
        assert(spec_encode(ev)->Obj_0 == ms_e);
        lemma_lookup_1(ms_e, ("package"@, m0));
        assert(!spec_has_member(spec_encode(ev), "installation"@));
        let ip = ("installation"@, JsonNode::Obj(
            seq![("id"@, JsonNode::Int(installation_id as int))],
        ));
        lemma_lookup_1(
            seq![("id"@, JsonNode::Int(installation_id as int))],
            ("id"@, JsonNode::Int(installation_id as int)),
        );
        assert(ip.1->Obj_0 == seq![("id"@, JsonNode::Int(installation_id as int))]);
        let ms: Seq<(Seq<char>, JsonNode)> = seq![ip] + ms_e;
        assert(ms =~= seq![ip, ("package"@, m0)]);
        lemma_lookup_2(ms, ip, ("package"@, m0));
        let d = spec_encode_webhook(ev, installation_id as int);
        assert(d == JsonNode::Obj(ms));
        assert(d->Obj_0 == ms);
        assert(spec_decode(d) == Some(ev));
        assert(spec_installation_id(d) == installation_id);
    }
}

/// The round trip for a `page_build` payload.
#[verifier::rlimit(100)]
proof fn rt_page_build(ev: EventV, installation_id: u64)
    requires
        ev is PageBuild,
        wf_event(ev),
        installation_id <= 0x7fff_ffff_ffff_ffff,
    ensures
        spec_decode(spec_encode_webhook(ev, installation_id as int)) == Some(ev),
        spec_installation_id(spec_encode_webhook(ev, installation_id as int))
            == installation_id,
{
    key_facts();
    let m0 = ev->PageBuild_0;
    {
        let ms_e: Seq<(Seq<char>, JsonNode)> = seq![("build"@, m0)];
        assert(spec_encode(ev) == JsonNode::Obj(ms_e));
        assert(spec_encode(ev)->Obj_0 == ms_e);
        lemma_lookup_1(ms_e, ("build"@, m0));
        assert(!spec_has_member(spec_encode(ev), "installation"@));
        let ip = ("installation"@, JsonNode::Obj(
            seq![("id"@, JsonNode::Int(installation_id as int))],
        ));
        lemma_lookup_1(
            seq![("id"@, JsonNode::Int(installation_id as int))],
            ("id"@, JsonNode::Int(installation_id as int)),
        );
        assert(ip.1->Obj_0 == seq![("id"@, JsonNode::Int(installation_id as int))]);
        let ms: Seq<(Seq<char>, JsonNode)> = seq![ip] + ms_e;
        assert(ms =~= seq![ip, ("build"@, m0)]);
        lemma_lookup_2(ms, ip, ("build"@, m0));
        let d = spec_encode_webhook(ev, installation_id as int);
        assert(d == JsonNode::Obj(ms));
        assert(d->Obj_0 == ms);
        assert(spec_decode(d) == Some(ev));
        assert(spec_installation_id(d) == installation_id);
    }
}

/// The round trip for a `personal_access_token_request` payload.
#[verifier::rlimit(100)]
proof fn rt_personal_access_token_request(ev: EventV, installation_id: u64)
    requires
        ev is PersonalAccessTokenRequest,
        wf_event(ev),
        installation_id <= 0x7fff_ffff_ffff_ffff,
    ensures
        spec_decode(spec_encode_webhook(ev, installation_id as int)) == Some(ev),
        spec_installation_id(spec_encode_webhook(ev, installation_id as int))
            == installation_id,
{
    key_facts();
    let a = ev->PersonalAccessTokenRequest_0;
    let m0 = ev->PersonalAccessTokenRequest_1;
    if a is Some {
        let ms_e: Seq<(Seq<char>, JsonNode)> = seq![("action"@, JsonNode::Str(a->Some_0)), ("personal_access_token_request"@, m0)];
        assert(opt_action_members(a) + seq![("personal_access_token_request"@, m0)] =~= ms_e);
        assert(spec_encode(ev) == JsonNode::Obj(ms_e));
        assert(spec_encode(ev)->Obj_0 == ms_e);
        lemma_lookup_2(ms_e, ("action"@, JsonNode::Str(a->Some_0)), ("personal_access_token_request"@, m0));
        assert(!spec_has_member(spec_encode(ev), "installation"@));
        let ip = ("installation"@, JsonNode::Obj(
            seq![("id"@, JsonNode::Int(installation_id as int))],
        ));
        lemma_lookup_1(
            seq![("id"@, JsonNode::Int(installation_id as int))],
            ("id"@, JsonNode::Int(installation_id as int)),
        );
        assert(ip.1->Obj_0 == seq![("id"@, JsonNode::Int(installation_id as int))]);
        let ms: Seq<(Seq<char>, JsonNode)> = seq![ip] + ms_e;
        assert(ms =~= seq![ip, ("action"@, JsonNode::Str(a->Some_0)), ("personal_access_token_request"@, m0)]);
        lemma_lookup_3(ms, ip, ("action"@, JsonNode::Str(a->Some_0)), ("personal_access_token_request"@, m0));
        let d = spec_encode_webhook(ev, installation_id as int);
        assert(d == JsonNode::Obj(ms));
        assert(d->Obj_0 == ms);
        assert(spec_decode(d) == Some(ev));
        assert(spec_installation_id(d) == installation_id);
    } else {
        let ms_e: Seq<(Seq<char>, JsonNode)> = seq![("personal_access_token_request"@, m0)];
        assert(opt_action_members(a) + seq![("personal_access_token_request"@, m0)] =~= ms_e);
        assert(spec_encode(ev) == JsonNode::Obj(ms_e));
        assert(spec_encode(ev)->Obj_0 == ms_e);
        lemma_lookup_1(ms_e, ("personal_access_token_request"@, m0));
        assert(!spec_has_member(spec_encode(ev), "installation"@));
        let ip = ("installation"@, JsonNode::Obj(
            seq![("id"@, JsonNode::Int(installation_id as int))],
        ));
        lemma_lookup_1(
            seq![("id"@, JsonNode::Int(installation_id as int))],
            ("id"@, JsonNode::Int(installation_id as int)),
        );
        assert(ip.1->Obj_0 == seq![("id"@, JsonNode::Int(installation_id as int))]);
        let ms: Seq<(Seq<char>, JsonNode)> = seq![ip] + ms_e;
        assert(ms =~= seq![ip, ("personal_access_token_request"@, m0)]);
        lemma_lookup_2(ms, ip, ("personal_access_token_request"@, m0));
        let d = spec_encode_webhook(ev, installation_id as int);
        assert(d == JsonNode::Obj(ms));
        assert(d->Obj_0 == ms);
        assert(spec_decode(d) == Some(ev));
        assert(spec_installation_id(d) == installation_id);
    }
}

/// The round trip for a `ping` payload.
#[verifier::rlimit(100)]
proof fn rt_ping(ev: EventV, installation_id: u64)
    requires
        ev is Ping,
        wf_event(ev),
        installation_id <= 0x7fff_ffff_ffff_ffff,
    ensures
        spec_decode(spec_encode_webhook(ev, installation_id as int)) == Some(ev),
        spec_installation_id(spec_encode_webhook(ev, installation_id as int))
            == installation_id,
{
    key_facts();
    let z = ev->Ping_0;
    let h = ev->Ping_1;
    {
        let ms_e: Seq<(Seq<char>, JsonNode)> = seq![("zen"@, JsonNode::Str(z)), ("hook_id"@, JsonNode::Int((h as i64) as int))];
        assert(spec_encode(ev) == JsonNode::Obj(ms_e));
        assert(spec_encode(ev)->Obj_0 == ms_e);
        lemma_lookup_2(ms_e, ("zen"@, JsonNode::Str(z)), ("hook_id"@, JsonNode::Int((h as i64) as int)));
        assert(!spec_has_member(spec_encode(ev), "installation"@));
        let ip = ("installation"@, JsonNode::Obj(
            seq![("id"@, JsonNode::Int(installation_id as int))],
        ));
        lemma_lookup_1(
            seq![("id"@, JsonNode::Int(installation_id as int))],
            ("id"@, JsonNode::Int(installation_id as int)),
        );
        assert(ip.1->Obj_0 == seq![("id"@, JsonNode::Int(installation_id as int))]);
        let ms: Seq<(Seq<char>, JsonNode)> = seq![ip] + ms_e;
        assert(ms =~= seq![ip, ("zen"@, JsonNode::Str(z)), ("hook_id"@, JsonNode::Int((h as i64) as int))]);
        lemma_lookup_3(ms, ip, ("zen"@, JsonNode::Str(z)), ("hook_id"@, JsonNode::Int((h as i64) as int)));
        let d = spec_encode_webhook(ev, installation_id as int);
        assert(d == JsonNode::Obj(ms));
        assert(d->Obj_0 == ms);
        assert(spec_decode(d) == Some(ev));
        assert(spec_installation_id(d) == installation_id);
    }
}

/// The round trip for a `project_card` payload.
#[verifier::rlimit(100)]
proof fn rt_project_card(ev: EventV, installation_id: u64)
    requires
        ev is ProjectCard,
        wf_event(ev),
        installation_id <= 0x7fff_ffff_ffff_ffff,
    ensures
        spec_decode(spec_encode_webhook(ev, installation_id as int)) == Some(ev),
        spec_installation_id(spec_encode_webhook(ev, installation_id as int))
            == installation_id,
{
    key_facts();
    let a = ev->ProjectCard_0;
    let m0 = ev->ProjectCard_1;
    if a is Some {
        let ms_e: Seq<(Seq<char>, JsonNode)> = seq![("action"@, JsonNode::Str(a->Some_0)), ("project_card"@, m0)];
        assert(opt_action_members(a) + seq![("project_card"@, m0)] =~= ms_e);
        assert(spec_encode(ev) == JsonNode::Obj(ms_e));
        assert(spec_encode(ev)->Obj_0 == ms_e);
        lemma_lookup_2(ms_e, ("action"@, JsonNode::Str(a->Some_0)), ("project_card"@, m0));
        assert(!spec_has_member(spec_encode(ev), "installation"@));
        let ip = ("installation"@, JsonNode::Obj(
            seq![("id"@, JsonNode::Int(installation_id as int))],
        ));
        lemma_lookup_1(
            seq![("id"@, JsonNode::Int(installation_id as int))],
            ("id"@, JsonNode::Int(installation_id as int)),
        );
        assert(ip.1->Obj_0 == seq![("id"@, JsonNode::Int(installation_id as int))]);
        let ms: Seq<(Seq<char>, JsonNode)> = seq![ip] + ms_e;
        assert(ms =~= seq![ip, ("action"@, JsonNode::Str(a->Some_0)), ("project_card"@, m0)]);
        lemma_lookup_3(ms, ip, ("action"@, JsonNode::Str(a->Some_0)), ("project_card"@, m0));
        let d = spec_encode_webhook(ev, installation_id as int);
        assert(d == JsonNode::Obj(ms));
        assert(d->Obj_0 == ms);
        assert(spec_decode(d) == Some(ev));
        assert(spec_installation_id(d) == installation_id);
    } else {
        let ms_e: Seq<(Seq<char>, JsonNode)> = seq![("project_card"@, m0)];
        assert(opt_action_members(a) + seq![("project_card"@, m0)] =~= ms_e);
        assert(spec_encode(ev) == JsonNode::Obj(ms_e));
        assert(spec_encode(ev)->Obj_0 == ms_e);
        lemma_lookup_1(ms_e, ("project_card"@, m0));
        assert(!spec_has_member(spec_encode(ev), "installation"@));
        let ip = ("installation"@, JsonNode::Obj(
            seq![("id"@, JsonNode::Int(installation_id as int))],
        ));
        lemma_lookup_1(
            seq![("id"@, JsonNode::Int(installation_id as int))],
            ("id"@, JsonNode::Int(installation_id as int)),
        );
        assert(ip.1->Obj_0 == seq![("id"@, JsonNode::Int(installation_id as int))]);
        let ms: Seq<(Seq<char>, JsonNode)> = seq![ip] + ms_e;
        assert(ms =~= seq![ip, ("project_card"@, m0)]);
        lemma_lookup_2(ms, ip, ("project_card"@, m0));
        let d = spec_encode_webhook(ev, installation_id as int);
        assert(d == JsonNode::Obj(ms));
        assert(d->Obj_0 == ms);
        assert(spec_decode(d) == Some(ev));
        assert(spec_installation_id(d) == installation_id);
    }
}

/// The round trip for a `project_column` payload.
#[verifier::rlimit(100)]
proof fn rt_project_column(ev: EventV, installation_id: u64)
    requires
        ev is ProjectColumn,
        wf_event(ev),
        installation_id <= 0x7fff_ffff_ffff_ffff,
    ensures
        spec_decode(spec_encode_webhook(ev, installation_id as int)) == Some(ev),
        spec_installation_id(spec_encode_webhook(ev, installation_id as int))
            == installation_id,
{
    key_facts();
    let a = ev->ProjectColumn_0;
    let m0 = ev->ProjectColumn_1;
    if a is Some {
        let ms_e: Seq<(Seq<char>, JsonNode)> = seq![("action"@, JsonNode::Str(a->Some_0)), ("project_column"@, m0)];
        assert(opt_action_members(a) + seq![("project_column"@, m0)] =~= ms_e);
        assert(spec_encode(ev) == JsonNode::Obj(ms_e));
        assert(spec_encode(ev)->Obj_0 == ms_e);
        lemma_lookup_2(ms_e, ("action"@, JsonNode::Str(a->Some_0)), ("project_column"@, m0));
        assert(!spec_has_member(spec_encode(ev), "installation"@));
        let ip = ("installation"@, JsonNode::Obj(
            seq![("id"@, JsonNode::Int(installation_id as int))],
        ));
        lemma_lookup_1(
            seq![("id"@, JsonNode::Int(installation_id as int))],
            ("id"@, JsonNode::Int(installation_id as int)),
        );
        assert(ip.1->Obj_0 == seq![("id"@, JsonNode::Int(installation_id as int))]);
        let ms: Seq<(Seq<char>, JsonNode)> = seq![ip] + ms_e;
        assert(ms =~= seq![ip, ("action"@, JsonNode::Str(a->Some_0)), ("project_column"@, m0)]);
        lemma_lookup_3(ms, ip, ("action"@, JsonNode::Str(a->Some_0)), ("project_column"@, m0));
        let d = spec_encode_webhook(ev, installation_id as int);
        assert(d == JsonNode::Obj(ms));
        assert(d->Obj_0 == ms);
        assert(spec_decode(d) == Some(ev));
        assert(spec_installation_id(d) == installation_id);
    } else {
        let ms_e: Seq<(Seq<char>, JsonNode)> = seq![("project_column"@, m0)];
        assert(opt_action_members(a) + seq![("project_column"@, m0)] =~= ms_e);
        assert(spec_encode(ev) == JsonNode::Obj(ms_e));
        assert(spec_encode(ev)->Obj_0 == ms_e);
        lemma_lookup_1(ms_e, ("project_column"@, m0));
        assert(!spec_has_member(spec_encode(ev), "installation"@));
        let ip = ("installation"@, JsonNode::Obj(
            seq![("id"@, JsonNode::Int(installation_id as int))],
        ));
        lemma_lookup_1(
            seq![("id"@, JsonNode::Int(installation_id as int))],
            ("id"@, JsonNode::Int(installation_id as int)),
        );
        assert(ip.1->Obj_0 == seq![("id"@, JsonNode::Int(installation_id as int))]);
        let ms: Seq<(Seq<char>, JsonNode)> = seq![ip] + ms_e;
        assert(ms =~= seq![ip, ("project_column"@, m0)]);
        lemma_lookup_2(ms, ip, ("project_column"@, m0));
        let d = spec_encode_webhook(ev, installation_id as int);
        assert(d == JsonNode::Obj(ms));
        assert(d->Obj_0 == ms);
        assert(spec_decode(d) == Some(ev));
        assert(spec_installation_id(d) == installation_id);
    }
}

/// The round trip for a `projects_v2_item` payload.
#[verifier::rlimit(100)]
proof fn rt_projects_v2_item(ev: EventV, installation_id: u64)
    requires
        ev is ProjectsV2Item,
        wf_event(ev),
        installation_id <= 0x7fff_ffff_ffff_ffff,
    ensures
        spec_decode(spec_encode_webhook(ev, installation_id as int)) == Some(ev),
        spec_installation_id(spec_encode_webhook(ev, installation_id as int))
            == installation_id,
{
    key_facts();
    let a = ev->ProjectsV2Item_0;
    let m0 = ev->ProjectsV2Item_1;
    if a is Some {
        let ms_e: Seq<(Seq<char>, JsonNode)> = seq![("action"@, JsonNode::Str(a->Some_0)), ("projects_v2_item"@, m0)];
        assert(opt_action_members(a) + seq![("projects_v2_item"@, m0)] =~= ms_e);
        assert(spec_encode(ev) == JsonNode::Obj(ms_e));
        assert(spec_encode(ev)->Obj_0 == ms_e);
        lemma_lookup_2(ms_e, ("action"@, JsonNode::Str(a->Some_0)), ("projects_v2_item"@, m0));
        assert(!spec_has_member(spec_encode(ev), "installation"@));
        let ip = ("installation"@, JsonNode::Obj(
            seq![("id"@, JsonNode::Int(installation_id as int))],
        ));
        lemma_lookup_1(
            seq![("id"@, JsonNode::Int(installation_id as int))],
            ("id"@, JsonNode::Int(installation_id as int)),
        );
        assert(ip.1->Obj_0 == seq![("id"@, JsonNode::Int(installation_id as int))]);
        let ms: Seq<(Seq<char>, JsonNode)> = seq![ip] + ms_e;
        assert(ms =~= seq![ip, ("action"@, JsonNode::Str(a->Some_0)), ("projects_v2_item"@, m0)]);
        lemma_lookup_3(ms, ip, ("action"@, JsonNode::Str(a->Some_0)), ("projects_v2_item"@, m0));
        let d = spec_encode_webhook(ev, installation_id as int);
        assert(d == JsonNode::Obj(ms));
        assert(d->Obj_0 == ms);
        assert(spec_decode(d) == Some(ev));
        assert(spec_installation_id(d) == installation_id);
    } else {
        let ms_e: Seq<(Seq<char>, JsonNode)> = seq![("projects_v2_item"@, m0)];
        assert(opt_action_members(a) + seq![("projects_v2_item"@, m0)] =~= ms_e);
        assert(spec_encode(ev) == JsonNode::Obj(ms_e));
        assert(spec_encode(ev)->Obj_0 == ms_e);
        lemma_lookup_1(ms_e, ("projects_v2_item"@, m0));
        assert(!spec_has_member(spec_encode(ev), "installation"@));
        let ip = ("installation"@, JsonNode::Obj(
            seq![("id"@, JsonNode::Int(installation_id as int))],
        ));
        lemma_lookup_1(
            seq![("id"@, JsonNode::Int(installation_id as int))],
            ("id"@, JsonNode::Int(installation_id as int)),
        );
        assert(ip.1->Obj_0 == seq![("id"@, JsonNode::Int(installation_id as int))]);
        let ms: Seq<(Seq<char>, JsonNode)> = seq![ip] + ms_e;
        assert(ms =~= seq![ip, ("projects_v2_item"@, m0)]);
        lemma_lookup_2(ms, ip, ("projects_v2_item"@, m0));
        let d = spec_encode_webhook(ev, installation_id as int);
        assert(d == JsonNode::Obj(ms));
        assert(d->Obj_0 == ms);
        assert(spec_decode(d) == Some(ev));
        assert(spec_installation_id(d) == installation_id);
    }
}

/// The round trip for a `projects_v2` payload.
#[verifier::rlimit(100)]
proof fn rt_projects_v2(ev: EventV, installation_id: u64)
    requires
        ev is ProjectsV2,
        wf_event(ev),
        installation_id <= 0x7fff_ffff_ffff_ffff,
    ensures
        spec_decode(spec_encode_webhook(ev, installation_id as int)) == Some(ev),
        spec_installation_id(spec_encode_webhook(ev, installation_id as int))
            == installation_id,
{
    key_facts();
    let a = ev->ProjectsV2_0;
    let m0 = ev->ProjectsV2_1;
    if a is Some {
        let ms_e: Seq<(Seq<char>, JsonNode)> = seq![("action"@, JsonNode::Str(a->Some_0)), ("projects_v2"@, m0)];
        assert(opt_action_members(a) + seq![("projects_v2"@, m0)] =~= ms_e);
        assert(spec_encode(ev) == JsonNode::Obj(ms_e));
        assert(spec_encode(ev)->Obj_0 == ms_e);
        lemma_lookup_2(ms_e, ("action"@, JsonNode::Str(a->Some_0)), ("projects_v2"@, m0));
        assert(!spec_has_member(spec_encode(ev), "installation"@));
        let ip = ("installation"@, JsonNode::Obj(
            seq![("id"@, JsonNode::Int(installation_id as int))],
        ));
        lemma_lookup_1(
            seq![("id"@, JsonNode::Int(installation_id as int))],
            ("id"@, JsonNode::Int(installation_id as int)),
        );
        assert(ip.1->Obj_0 == seq![("id"@, JsonNode::Int(installation_id as int))]);
        let ms: Seq<(Seq<char>, JsonNode)> = seq![ip] + ms_e;
        assert(ms =~= seq![ip, ("action"@, JsonNode::Str(a->Some_0)), ("projects_v2"@, m0)]);
        lemma_lookup_3(ms, ip, ("action"@, JsonNode::Str(a->Some_0)), ("projects_v2"@, m0));
        let d = spec_encode_webhook(ev, installation_id as int);
        assert(d == JsonNode::Obj(ms));
        assert(d->Obj_0 == ms);
        assert(spec_decode(d) == Some(ev));
        assert(spec_installation_id(d) == installation_id);
    } else {
        let ms_e: Seq<(Seq<char>, JsonNode)> = seq![("projects_v2"@, m0)];
        assert(opt_action_members(a) + seq![("projects_v2"@, m0)] =~= ms_e);
        assert(spec_encode(ev) == JsonNode::Obj(ms_e));
        assert(spec_encode(ev)->Obj_0 == ms_e);
        lemma_lookup_1(ms_e, ("projects_v2"@, m0));
        assert(!spec_has_member(spec_encode(ev), "installation"@));
        let ip = ("installation"@, JsonNode::Obj(
            seq![("id"@, JsonNode::Int(installation_id as int))],
        ));
        lemma_lookup_1(
            seq![("id"@, JsonNode::Int(installation_id as int))],
            ("id"@, JsonNode::Int(installation_id as int)),
        );
        assert(ip.1->Obj_0 == seq![("id"@, JsonNode::Int(installation_id as int))]);
        let ms: Seq<(Seq<char>, JsonNode)> = seq![ip] + ms_e;
        assert(ms =~= seq![ip, ("projects_v2"@, m0)]);
        lemma_lookup_2(ms, ip, ("projects_v2"@, m0));
        let d = spec_encode_webhook(ev, installation_id as int);
        assert(d == JsonNode::Obj(ms));
        assert(d->Obj_0 == ms);
        assert(spec_decode(d) == Some(ev));
        assert(spec_installation_id(d) == installation_id);
    }
}

/// The round trip for a `public` payload.
#[verifier::rlimit(100)]
proof fn rt_public(ev: EventV, installation_id: u64)
    requires
        ev is Public,
        wf_event(ev),
        installation_id <= 0x7fff_ffff_ffff_ffff,
    ensures
        spec_decode(spec_encode_webhook(ev, installation_id as int)) == Some(ev),
        spec_installation_id(spec_encode_webhook(ev, installation_id as int))
            == installation_id,
{
    key_facts();
    let m0 = ev->Public_0;
    let m1 = ev->Public_1;
    {
        let ms_e: Seq<(Seq<char>, JsonNode)> = seq![("repository"@, m0), ("sender"@, m1)];
        assert(spec_encode(ev) == JsonNode::Obj(ms_e));
        assert(spec_encode(ev)->Obj_0 == ms_e);
        lemma_lookup_2(ms_e, ("repository"@, m0), ("sender"@, m1));
        assert(!spec_has_member(spec_encode(ev), "installation"@));
        let ip = ("installation"@, JsonNode::Obj(
            seq![("id"@, JsonNode::Int(installation_id as int))],
        ));
        lemma_lookup_1(
            seq![("id"@, JsonNode::Int(installation_id as int))],
            ("id"@, JsonNode::Int(installation_id as int)),
        );
        assert(ip.1->Obj_0 == seq![("id"@, JsonNode::Int(installation_id as int))]);
        let ms: Seq<(Seq<char>, JsonNode)> = seq![ip] + ms_e;
        assert(ms =~= seq![ip, ("repository"@, m0), ("sender"@, m1)]);
        lemma_lookup_3(ms, ip, ("repository"@, m0), ("sender"@, m1));
        let d = spec_encode_webhook(ev, installation_id as int);
        assert(d == JsonNode::Obj(ms));
        assert(d->Obj_0 == ms);
        assert(spec_decode(d) == Some(ev));
        assert(spec_installation_id(d) == installation_id);
    }
}

/// The round trip for a `pull_request_review_comment` payload.
#[verifier::rlimit(100)]
proof fn rt_pull_request_review_comment(ev: EventV, installation_id: u64)
    requires
        ev is PullRequestReviewComment,
        wf_event(ev),
        installation_id <= 0x7fff_ffff_ffff_ffff,
    ensures
        spec_decode(spec_encode_webhook(ev, installation_id as int)) == Some(ev),
        spec_installation_id(spec_encode_webhook(ev, installation_id as int))
            == installation_id,
{
    key_facts();
    let a = ev->PullRequestReviewComment_0;
    let m0 = ev->PullRequestReviewComment_1;
    let m1 = ev->PullRequestReviewComment_2;
    if a is Some {
        let ms_e: Seq<(Seq<char>, JsonNode)> = seq![("action"@, JsonNode::Str(a->Some_0)), ("comment"@, m0), ("pull_request"@, m1)];
        assert(opt_action_members(a) + seq![("comment"@, m0), ("pull_request"@, m1)] =~= ms_e);
        assert(spec_encode(ev) == JsonNode::Obj(ms_e));
        assert(spec_encode(ev)->Obj_0 == ms_e);
        lemma_lookup_3(ms_e, ("action"@, JsonNode::Str(a->Some_0)), ("comment"@, m0), ("pull_request"@, m1));
        assert(!spec_has_member(spec_encode(ev), "installation"@));
        let ip = ("installation"@, JsonNode::Obj(
            seq![("id"@, JsonNode::Int(installation_id as int))],
        ));
        lemma_lookup_1(
            seq![("id"@, JsonNode::Int(installation_id as int))],
            ("id"@, JsonNode::Int(installation_id as int)),
        );
        assert(ip.1->Obj_0 == seq![("id"@, JsonNode::Int(installation_id as int))]);
        let ms: Seq<(Seq<char>, JsonNode)> = seq![ip] + ms_e;
        assert(ms =~= seq![ip, ("action"@, JsonNode::Str(a->Some_0)), ("comment"@, m0), ("pull_request"@, m1)]);
        lemma_lookup_4(ms, ip, ("action"@, JsonNode::Str(a->Some_0)), ("comment"@, m0), ("pull_request"@, m1));
        let d = spec_encode_webhook(ev, installation_id as int);
        assert(d == JsonNode::Obj(ms));
        assert(d->Obj_0 == ms);
        assert(spec_decode(d) == Some(ev));
        assert(spec_installation_id(d) == installation_id);
    } else {
        let ms_e: Seq<(Seq<char>, JsonNode)> = seq![("comment"@, m0), ("pull_request"@, m1)];
        assert(opt_action_members(a) + seq![("comment"@, m0), ("pull_request"@, m1)] =~= ms_e);
        assert(spec_encode(ev) == JsonNode::Obj(ms_e));
        assert(spec_encode(ev)->Obj_0 == ms_e);
        lemma_lookup_2(ms_e, ("comment"@, m0), ("pull_request"@, m1));
        assert(!spec_has_member(spec_encode(ev), "installation"@));
        let ip = ("installation"@, JsonNode::Obj(
            seq![("id"@, JsonNode::Int(installation_id as int))],
        ));
        lemma_lookup_1(
            seq![("id"@, JsonNode::Int(installation_id as int))],
            ("id"@, JsonNode::Int(installation_id as int)),
        );
        assert(ip.1->Obj_0 == seq![("id"@, JsonNode::Int(installation_id as int))]);
        let ms: Seq<(Seq<char>, JsonNode)> = seq![ip] + ms_e;
        assert(ms =~= seq![ip, ("comment"@, m0), ("pull_request"@, m1)]);
        lemma_lookup_3(ms, ip, ("comment"@, m0), ("pull_request"@, m1));
        let d = spec_encode_webhook(ev, installation_id as int);
        assert(d == JsonNode::Obj(ms));
        assert(d->Obj_0 == ms);
        assert(spec_decode(d) == Some(ev));
        assert(spec_installation_id(d) == installation_id);
    }
}

/// The round trip for a `pull_request_review_thread` payload.
#[verifier::rlimit(100)]
proof fn rt_pull_request_review_thread(ev: EventV, installation_id: u64)
    requires
        ev is PullRequestReviewThread,
        wf_event(ev),
        installation_id <= 0x7fff_ffff_ffff_ffff,
    ensures
        spec_decode(spec_encode_webhook(ev, installation_id as int)) == Some(ev),
        spec_installation_id(spec_encode_webhook(ev, installation_id as int))
            == installation_id,
{
    key_facts();
    let a = ev->PullRequestReviewThread_0;
    let m0 = ev->PullRequestReviewThread_1;
    let m1 = ev->PullRequestReviewThread_2;
    if a is Some {
        let ms_e: Seq<(Seq<char>, JsonNode)> = seq![("action"@, JsonNode::Str(a->Some_0)), ("thread"@, m0), ("pull_request"@, m1)];
        assert(opt_action_members(a) + seq![("thread"@, m0), ("pull_request"@, m1)] =~= ms_e);
        assert(spec_encode(ev) == JsonNode::Obj(ms_e));
        assert(spec_encode(ev)->Obj_0 == ms_e);
        lemma_lookup_3(ms_e, ("action"@, JsonNode::Str(a->Some_0)), ("thread"@, m0), ("pull_request"@, m1));
        assert(!spec_has_member(spec_encode(ev), "installation"@));
        let ip = ("installation"@, JsonNode::Obj(
            seq![("id"@, JsonNode::Int(installation_id as int))],
        ));
        lemma_lookup_1(
            seq![("id"@, JsonNode::Int(installation_id as int))],
            ("id"@, JsonNode::Int(installation_id as int)),
        );
        assert(ip.1->Obj_0 == seq![("id"@, JsonNode::Int(installation_id as int))]);
        let ms: Seq<(Seq<char>, JsonNode)> = seq![ip] + ms_e;
        assert(ms =~= seq![ip, ("action"@, JsonNode::Str(a->Some_0)), ("thread"@, m0), ("pull_request"@, m1)]);
        lemma_lookup_4(ms, ip, ("action"@, JsonNode::Str(a->Some_0)), ("thread"@, m0), ("pull_request"@, m1));
        let d = spec_encode_webhook(ev, installation_id as int);
        assert(d == JsonNode::Obj(ms));
        assert(d->Obj_0 == ms);
        assert(spec_decode(d) == Some(ev));
        assert(spec_installation_id(d) == installation_id);
    } else {
        let ms_e: Seq<(Seq<char>, JsonNode)> = seq![("thread"@, m0), ("pull_request"@, m1)];
        assert(opt_action_members(a) + seq![("thread"@, m0), ("pull_request"@, m1)] =~= ms_e);
        assert(spec_encode(ev) == JsonNode::Obj(ms_e));
        assert(spec_encode(ev)->Obj_0 == ms_e);
        lemma_lookup_2(ms_e, ("thread"@, m0), ("pull_request"@, m1));
        assert(!spec_has_member(spec_encode(ev), "installation"@));
        let ip = ("installation"@, JsonNode::Obj(
            seq![("id"@, JsonNode::Int(installation_id as int))],
        ));
        lemma_lookup_1(
            seq![("id"@, JsonNode::Int(installation_id as int))],
            ("id"@, JsonNode::Int(installation_id as int)),
        );
        assert(ip.1->Obj_0 == seq![("id"@, JsonNode::Int(installation_id as int))]);
        let ms: Seq<(Seq<char>, JsonNode)> = seq![ip] + ms_e;
        assert(ms =~= seq![ip, ("thread"@, m0), ("pull_request"@, m1)]);
        lemma_lookup_3(ms, ip, ("thread"@, m0), ("pull_request"@, m1));
        let d = spec_encode_webhook(ev, installation_id as int);
        assert(d == JsonNode::Obj(ms));
        assert(d->Obj_0 == ms);
        assert(spec_decode(d) == Some(ev));
        assert(spec_installation_id(d) == installation_id);
    }
}

/// The round trip for a `pull_request_review` payload.
#[verifier::rlimit(100)]
proof fn rt_pull_request_review(ev: EventV, installation_id: u64)
    requires
        ev is PullRequestReview,
        wf_event(ev),
        installation_id <= 0x7fff_ffff_ffff_ffff,
    ensures
        spec_decode(spec_encode_webhook(ev, installation_id as int)) == Some(ev),
        spec_installation_id(spec_encode_webhook(ev, installation_id as int))
            == installation_id,
{
    key_facts();
    let a = ev->PullRequestReview_0;
    let m0 = ev->PullRequestReview_1;
    let m1 = ev->PullRequestReview_2;
    if a is Some {
        let ms_e: Seq<(Seq<char>, JsonNode)> = seq![("action"@, JsonNode::Str(a->Some_0)), ("review"@, m0), ("pull_request"@, m1)];
        assert(opt_action_members(a) + seq![("review"@, m0), ("pull_request"@, m1)] =~= ms_e);
        assert(spec_encode(ev) == JsonNode::Obj(ms_e));
        assert(spec_encode(ev)->Obj_0 == ms_e);
        lemma_lookup_3(ms_e, ("action"@, JsonNode::Str(a->Some_0)), ("review"@, m0), ("pull_request"@, m1));
        assert(!spec_has_member(spec_encode(ev), "installation"@));
        let ip = ("installation"@, JsonNode::Obj(
            seq![("id"@, JsonNode::Int(installation_id as int))],
        ));
        lemma_lookup_1(
            seq![("id"@, JsonNode::Int(installation_id as int))],
            ("id"@, JsonNode::Int(installation_id as int)),
        );
        assert(ip.1->Obj_0 == seq![("id"@, JsonNode::Int(installation_id as int))]);
        let ms: Seq<(Seq<char>, JsonNode)> = seq![ip] + ms_e;
        assert(ms =~= seq![ip, ("action"@, JsonNode::Str(a->Some_0)), ("review"@, m0), ("pull_request"@, m1)]);
        lemma_lookup_4(ms, ip, ("action"@, JsonNode::Str(a->Some_0)), ("review"@, m0), ("pull_request"@, m1));
        let d = spec_encode_webhook(ev, installation_id as int);
        assert(d == JsonNode::Obj(ms));
        assert(d->Obj_0 == ms);
        assert(spec_decode(d) == Some(ev));
        assert(spec_installation_id(d) == installation_id);
    } else {
        let ms_e: Seq<(Seq<char>, JsonNode)> = seq![("review"@, m0), ("pull_request"@, m1)];
        assert(opt_action_members(a) + seq![("review"@, m0), ("pull_request"@, m1)] =~= ms_e);
        assert(spec_encode(ev) == JsonNode::Obj(ms_e));
        assert(spec_encode(ev)->Obj_0 == ms_e);
        lemma_lookup_2(ms_e, ("review"@, m0), ("pull_request"@, m1));
        assert(!spec_has_member(spec_encode(ev), "installation"@));
        let ip = ("installation"@, JsonNode::Obj(
            seq![("id"@, JsonNode::Int(installation_id as int))],
        ));
        lemma_lookup_1(
            seq![("id"@, JsonNode::Int(installation_id as int))],
            ("id"@, JsonNode::Int(installation_id as int)),
        );
        assert(ip.1->Obj_0 == seq![("id"@, JsonNode::Int(installation_id as int))]);
        let ms: Seq<(Seq<char>, JsonNode)> = seq![ip] + ms_e;
        assert(ms =~= seq![ip, ("review"@, m0), ("pull_request"@, m1)]);
        lemma_lookup_3(ms, ip, ("review"@, m0), ("pull_request"@, m1));
        let d = spec_encode_webhook(ev, installation_id as int);
        assert(d == JsonNode::Obj(ms));
        assert(d->Obj_0 == ms);
        assert(spec_decode(d) == Some(ev));
        assert(spec_installation_id(d) == installation_id);
    }
}

/// The round trip for a `pull_request` payload.
#[verifier::rlimit(100)]
proof fn rt_pull_request(ev: EventV, installation_id: u64)
    requires
        ev is PullRequest,
        wf_event(ev),
        installation_id <= 0x7fff_ffff_ffff_ffff,
    ensures
        spec_decode(spec_encode_webhook(ev, installation_id as int)) == Some(ev),
        spec_installation_id(spec_encode_webhook(ev, installation_id as int))
            == installation_id,
{
    key_facts();
    let a = ev->PullRequest_0;
    let m0 = ev->PullRequest_1;
    let m1 = ev->PullRequest_2;
    if a is Some {
        let ms_e: Seq<(Seq<char>, JsonNode)> = seq![("action"@, JsonNode::Str(a->Some_0)), ("pull_request"@, m0), ("number"@, m1)];
        assert(opt_action_members(a) + seq![("pull_request"@, m0), ("number"@, m1)] =~= ms_e);
        assert(spec_encode(ev) == JsonNode::Obj(ms_e));
        assert(spec_encode(ev)->Obj_0 == ms_e);
        lemma_lookup_3(ms_e, ("action"@, JsonNode::Str(a->Some_0)), ("pull_request"@, m0), ("number"@, m1));
        assert(!spec_has_member(spec_encode(ev), "installation"@));
        let ip = ("installation"@, JsonNode::Obj(
            seq![("id"@, JsonNode::Int(installation_id as int))],
        ));
        lemma_lookup_1(
            seq![("id"@, JsonNode::Int(installation_id as int))],
            ("id"@, JsonNode::Int(installation_id as int)),
        );
        assert(ip.1->Obj_0 == seq![("id"@, JsonNode::Int(installation_id as int))]);
        let ms: Seq<(Seq<char>, JsonNode)> = seq![ip] + ms_e;
        assert(ms =~= seq![ip, ("action"@, JsonNode::Str(a->Some_0)), ("pull_request"@, m0), ("number"@, m1)]);
        lemma_lookup_4(ms, ip, ("action"@, JsonNode::Str(a->Some_0)), ("pull_request"@, m0), ("number"@, m1));
        let d = spec_encode_webhook(ev, installation_id as int);
        assert(d == JsonNode::Obj(ms));
        assert(d->Obj_0 == ms);
        assert(spec_decode(d) == Some(ev));
        assert(spec_installation_id(d) == installation_id);
    } else {
        let ms_e: Seq<(Seq<char>, JsonNode)> = seq![("pull_request"@, m0), ("number"@, m1)];
        assert(opt_action_members(a) + seq![("pull_request"@, m0), ("number"@, m1)] =~= ms_e);
        assert(spec_encode(ev) == JsonNode::Obj(ms_e));
        assert(spec_encode(ev)->Obj_0 == ms_e);
        lemma_lookup_2(ms_e, ("pull_request"@, m0), ("number"@, m1));
        assert(!spec_has_member(spec_encode(ev), "installation"@));
        let ip = ("installation"@, JsonNode::Obj(
            seq![("id"@, JsonNode::Int(installation_id as int))],
        ));
        lemma_lookup_1(
            seq![("id"@, JsonNode::Int(installation_id as int))],
            ("id"@, JsonNode::Int(installation_id as int)),
        );
        assert(ip.1->Obj_0 == seq![("id"@, JsonNode::Int(installation_id as int))]);
        let ms: Seq<(Seq<char>, JsonNode)> = seq![ip] + ms_e;
        assert(ms =~= seq![ip, ("pull_request"@, m0), ("number"@, m1)]);
        lemma_lookup_3(ms, ip, ("pull_request"@, m0), ("number"@, m1));
        let d = spec_encode_webhook(ev, installation_id as int);
        assert(d == JsonNode::Obj(ms));
        assert(d->Obj_0 == ms);
        assert(spec_decode(d) == Some(ev));
        assert(spec_installation_id(d) == installation_id);
    }
}

/// The round trip for a `push` payload.
#[verifier::rlimit(100)]
proof fn rt_push(ev: EventV, installation_id: u64)
    requires
        ev is Push,
        wf_event(ev),
        installation_id <= 0x7fff_ffff_ffff_ffff,
    ensures
        spec_decode(spec_encode_webhook(ev, installation_id as int)) == Some(ev),
        spec_installation_id(spec_encode_webhook(ev, installation_id as int))
            == installation_id,
{
    key_facts();
    let m0 = ev->Push_0;
    let m1 = ev->Push_1;
    let m2 = ev->Push_2;
    let m3 = ev->Push_3;
    {
        let ms_e: Seq<(Seq<char>, JsonNode)> = seq![("ref"@, m0), ("before"@, m1), ("after"@, m2), ("commits"@, m3)];
        assert(spec_encode(ev) == JsonNode::Obj(ms_e));
        assert(spec_encode(ev)->Obj_0 == ms_e);
        lemma_lookup_4(ms_e, ("ref"@, m0), ("before"@, m1), ("after"@, m2), ("commits"@, m3));
        assert(!spec_has_member(spec_encode(ev), "installation"@));
        let ip = ("installation"@, JsonNode::Obj(
            seq![("id"@, JsonNode::Int(installation_id as int))],
        ));
        lemma_lookup_1(
            seq![("id"@, JsonNode::Int(installation_id as int))],
            ("id"@, JsonNode::Int(installation_id as int)),
        );
        assert(ip.1->Obj_0 == seq![("id"@, JsonNode::Int(installation_id as int))]);
        let ms: Seq<(Seq<char>, JsonNode)> = seq![ip] + ms_e;
        assert(ms =~= seq![ip, ("ref"@, m0), ("before"@, m1), ("after"@, m2), ("commits"@, m3)]);
        lemma_lookup_5(ms, ip, ("ref"@, m0), ("before"@, m1), ("after"@, m2), ("commits"@, m3));
        let d = spec_encode_webhook(ev, installation_id as int);
        assert(d == JsonNode::Obj(ms));
        assert(d->Obj_0 == ms);
        assert(spec_decode(d) == Some(ev));
        assert(spec_installation_id(d) == installation_id);
    }
}

/// The round trip for a `registry_package` payload.
#[verifier::rlimit(100)]
proof fn rt_registry_package(ev: EventV, installation_id: u64)
    requires
        ev is RegistryPackage,
        wf_event(ev),
        installation_id <= 0x7fff_ffff_ffff_ffff,
    ensures
        spec_decode(spec_encode_webhook(ev, installation_id as int)) == Some(ev),
        spec_installation_id(spec_encode_webhook(ev, installation_id as int))
            == installation_id,
{
    key_facts();
    let a = ev->RegistryPackage_0;
    let m0 = ev->RegistryPackage_1;
    if a is Some {
        let ms_e: Seq<(Seq<char>, JsonNode)> = seq![("action"@, JsonNode::Str(a->Some_0)), ("registry_package"@, m0)];
        assert(opt_action_members(a) + seq![("registry_package"@, m0)] =~= ms_e);
        assert(spec_encode(ev) == JsonNode::Obj(ms_e));
        assert(spec_encode(ev)->Obj_0 == ms_e);
        lemma_lookup_2(ms_e, ("action"@, JsonNode::Str(a->Some_0)), ("registry_package"@, m0));
        assert(!spec_has_member(spec_encode(ev), "installation"@));
        let ip = ("installation"@, JsonNode::Obj(
            seq![("id"@, JsonNode::Int(installation_id as int))],
        ));
        lemma_lookup_1(
            seq![("id"@, JsonNode::Int(installation_id as int))],
            ("id"@, JsonNode::Int(installation_id as int)),
        );
        assert(ip.1->Obj_0 == seq![("id"@, JsonNode::Int(installation_id as int))]);
        let ms: Seq<(Seq<char>, JsonNode)> = seq![ip] + ms_e;
        assert(ms =~= seq![ip, ("action"@, JsonNode::Str(a->Some_0)), ("registry_package"@, m0)]);
        lemma_lookup_3(ms, ip, ("action"@, JsonNode::Str(a->Some_0)), ("registry_package"@, m0));
        let d = spec_encode_webhook(ev, installation_id as int);
        assert(d == JsonNode::Obj(ms));
        assert(d->Obj_0 == ms);
        assert(spec_decode(d) == Some(ev));
        assert(spec_installation_id(d) == installation_id);
    } else {
        let ms_e: Seq<(Seq<char>, JsonNode)> = seq![("registry_package"@, m0)];
        assert(opt_action_members(a) + seq![("registry_package"@, m0)] =~= ms_e);
        assert(spec_encode(ev) == JsonNode::Obj(ms_e));
        assert(spec_encode(ev)->Obj_0 == ms_e);
        lemma_lookup_1(ms_e, ("registry_package"@, m0));
        assert(!spec_has_member(spec_encode(ev), "installation"@));
        let ip = ("installation"@, JsonNode::Obj(
            seq![("id"@, JsonNode::Int(installation_id as int))],
        ));
        lemma_lookup_1(
            seq![("id"@, JsonNode::Int(installation_id as int))],
            ("id"@, JsonNode::Int(installation_id as int)),
        );
        assert(ip.1->Obj_0 == seq![("id"@, JsonNode::Int(installation_id as int))]);
        let ms: Seq<(Seq<char>, JsonNode)> = seq![ip] + ms_e;
        assert(ms =~= seq![ip, ("registry_package"@, m0)]);
        lemma_lookup_2(ms, ip, ("registry_package"@, m0));
        let d = spec_encode_webhook(ev, installation_id as int);
        assert(d == JsonNode::Obj(ms));
        assert(d->Obj_0 == ms);
        assert(spec_decode(d) == Some(ev));
        assert(spec_installation_id(d) == installation_id);
    }
}

/// The round trip for a `release` payload.
#[verifier::rlimit(100)]
proof fn rt_release(ev: EventV, installation_id: u64)
    requires
        ev is Release,
        wf_event(ev),
        installation_id <= 0x7fff_ffff_ffff_ffff,
    ensures
        spec_decode(spec_encode_webhook(ev, installation_id as int)) == Some(ev),
        spec_installation_id(spec_encode_webhook(ev, installation_id as int))
            == installation_id,
{
    key_facts();
    let a = ev->Release_0;
    let m0 = ev->Release_1;
    if a is Some {
        let ms_e: Seq<(Seq<char>, JsonNode)> = seq![("action"@, JsonNode::Str(a->Some_0)), ("release"@, m0)];
        assert(opt_action_members(a) + seq![("release"@, m0)] =~= ms_e);
        assert(spec_encode(ev) == JsonNode::Obj(ms_e));
        assert(spec_encode(ev)->Obj_0 == ms_e);
        lemma_lookup_2(ms_e, ("action"@, JsonNode::Str(a->Some_0)), ("release"@, m0));
        assert(!spec_has_member(spec_encode(ev), "installation"@));
        let ip = ("installation"@, JsonNode::Obj(
            seq![("id"@, JsonNode::Int(installation_id as int))],
        ));
        lemma_lookup_1(
            seq![("id"@, JsonNode::Int(installation_id as int))],
            ("id"@, JsonNode::Int(installation_id as int)),
        );
        assert(ip.1->Obj_0 == seq![("id"@, JsonNode::Int(installation_id as int))]);
        let ms: Seq<(Seq<char>, JsonNode)> = seq![ip] + ms_e;
        assert(ms =~= seq![ip, ("action"@, JsonNode::Str(a->Some_0)), ("release"@, m0)]);
        lemma_lookup_3(ms, ip, ("action"@, JsonNode::Str(a->Some_0)), ("release"@, m0));
        let d = spec_encode_webhook(ev, installation_id as int);
        assert(d == JsonNode::Obj(ms));
        assert(d->Obj_0 == ms);
        assert(spec_decode(d) == Some(ev));
        assert(spec_installation_id(d) == installation_id);
    } else {
        let ms_e: Seq<(Seq<char>, JsonNode)> = seq![("release"@, m0)];
        assert(opt_action_members(a) + seq![("release"@, m0)] =~= ms_e);
        assert(spec_encode(ev) == JsonNode::Obj(ms_e));
        assert(spec_encode(ev)->Obj_0 == ms_e);
        lemma_lookup_1(ms_e, ("release"@, m0));
        assert(!spec_has_member(spec_encode(ev), "installation"@));
        let ip = ("installation"@, JsonNode::Obj(
            seq![("id"@, JsonNode::Int(installation_id as int))],
        ));
        lemma_lookup_1(
            seq![("id"@, JsonNode::Int(installation_id as int))],
            ("id"@, JsonNode::Int(installation_id as int)),
        );
        assert(ip.1->Obj_0 == seq![("id"@, JsonNode::Int(installation_id as int))]);
        let ms: Seq<(Seq<char>, JsonNode)> = seq![ip] + ms_e;
        assert(ms =~= seq![ip, ("release"@, m0)]);
        lemma_lookup_2(ms, ip, ("release"@, m0));
        let d = spec_encode_webhook(ev, installation_id as int);
        assert(d == JsonNode::Obj(ms));
        assert(d->Obj_0 == ms);
        assert(spec_decode(d) == Some(ev));
        assert(spec_installation_id(d) == installation_id);
    }
}

/// The round trip for a `repository_advisory` payload.
#[verifier::rlimit(100)]
proof fn rt_repository_advisory(ev: EventV, installation_id: u64)
    requires
        ev is RepositoryAdvisory,
        wf_event(ev),
        installation_id <= 0x7fff_ffff_ffff_ffff,
    ensures
        spec_decode(spec_encode_webhook(ev, installation_id as int)) == Some(ev),
        spec_installation_id(spec_encode_webhook(ev, installation_id as int))
            == installation_id,
{
    key_facts();
    let a = ev->RepositoryAdvisory_0;
    let m0 = ev->RepositoryAdvisory_1;
    if a is Some {
        let ms_e: Seq<(Seq<char>, JsonNode)> = seq![("action"@, JsonNode::Str(a->Some_0)), ("repository_advisory"@, m0)];
        assert(opt_action_members(a) + seq![("repository_advisory"@, m0)] =~= ms_e);
        assert(spec_encode(ev) == JsonNode::Obj(ms_e));
        assert(spec_encode(ev)->Obj_0 == ms_e);
        lemma_lookup_2(ms_e, ("action"@, JsonNode::Str(a->Some_0)), ("repository_advisory"@, m0));
        assert(!spec_has_member(spec_encode(ev), "installation"@));
        let ip = ("installation"@, JsonNode::Obj(
            seq![("id"@, JsonNode::Int(installation_id as int))],
        ));
        lemma_lookup_1(
            seq![("id"@, JsonNode::Int(installation_id as int))],
            ("id"@, JsonNode::Int(installation_id as int)),
        );
        assert(ip.1->Obj_0 == seq![("id"@, JsonNode::Int(installation_id as int))]);
        let ms: Seq<(Seq<char>, JsonNode)> = seq![ip] + ms_e;
        assert(ms =~= seq![ip, ("action"@, JsonNode::Str(a->Some_0)), ("repository_advisory"@, m0)]);
        lemma_lookup_3(ms, ip, ("action"@, JsonNode::Str(a->Some_0)), ("repository_advisory"@, m0));
        let d = spec_encode_webhook(ev, installation_id as int);
        assert(d == JsonNode::Obj(ms));
        assert(d->Obj_0 == ms);
        assert(spec_decode(d) == Some(ev));
        assert(spec_installation_id(d) == installation_id);
    } else {
        let ms_e: Seq<(Seq<char>, JsonNode)> = seq![("repository_advisory"@, m0)];
        assert(opt_action_members(a) + seq![("repository_advisory"@, m0)] =~= ms_e);
        assert(spec_encode(ev) == JsonNode::Obj(ms_e));
        assert(spec_encode(ev)->Obj_0 == ms_e);
        lemma_lookup_1(ms_e, ("repository_advisory"@, m0));
        assert(!spec_has_member(spec_encode(ev), "installation"@));
        let ip = ("installation"@, JsonNode::Obj(
            seq![("id"@, JsonNode::Int(installation_id as int))],
        ));
        lemma_lookup_1(
            seq![("id"@, JsonNode::Int(installation_id as int))],
            ("id"@, JsonNode::Int(installation_id as int)),
        );
        assert(ip.1->Obj_0 == seq![("id"@, JsonNode::Int(installation_id as int))]);
        let ms: Seq<(Seq<char>, JsonNode)> = seq![ip] + ms_e;
        assert(ms =~= seq![ip, ("repository_advisory"@, m0)]);
        lemma_lookup_2(ms, ip, ("repository_advisory"@, m0));
        let d = spec_encode_webhook(ev, installation_id as int);
        assert(d == JsonNode::Obj(ms));
        assert(d->Obj_0 == ms);
        assert(spec_decode(d) == Some(ev));
        assert(spec_installation_id(d) == installation_id);
    }
}

/// The round trip for a `repository_import` payload.
#[verifier::rlimit(100)]
proof fn rt_repository_import(ev: EventV, installation_id: u64)
    requires
        ev is RepositoryImport,
        wf_event(ev),
        installation_id <= 0x7fff_ffff_ffff_ffff,
    ensures
        spec_decode(spec_encode_webhook(ev, installation_id as int)) == Some(ev),
        spec_installation_id(spec_encode_webhook(ev, installation_id as int))
            == installation_id,
{
    key_facts();
    let m0 = ev->RepositoryImport_0;
    let m1 = ev->RepositoryImport_1;
    {
        let ms_e: Seq<(Seq<char>, JsonNode)> = seq![("status"@, m0), ("repository"@, m1)];
        assert(spec_encode(ev) == JsonNode::Obj(ms_e));
        assert(spec_encode(ev)->Obj_0 == ms_e);
        lemma_lookup_2(ms_e, ("status"@, m0), ("repository"@, m1));
        assert(!spec_has_member(spec_encode(ev), "installation"@));
        let ip = ("installation"@, JsonNode::Obj(
            seq![("id"@, JsonNode::Int(installation_id as int))],
        ));
        lemma_lookup_1(
            seq![("id"@, JsonNode::Int(installation_id as int))],
            ("id"@, JsonNode::Int(installation_id as int)),
        );
        assert(ip.1->Obj_0 == seq![("id"@, JsonNode::Int(installation_id as int))]);
        let ms: Seq<(Seq<char>, JsonNode)> = seq![ip] + ms_e;
        assert(ms =~= seq![ip, ("status"@, m0), ("repository"@, m1)]);
        lemma_lookup_3(ms, ip, ("status"@, m0), ("repository"@, m1));
        let d = spec_encode_webhook(ev, installation_id as int);
        assert(d == JsonNode::Obj(ms));
        assert(d->Obj_0 == ms);
        assert(spec_decode(d) == Some(ev));
        assert(spec_installation_id(d) == installation_id);
    }
}

/// The round trip for a `repository_vulnerability_alert` payload.
#[verifier::rlimit(100)]
proof fn rt_repository_vulnerability_alert(ev: EventV, installation_id: u64)
    requires
        ev is RepositoryVulnerabilityAlert,
        wf_event(ev),
        installation_id <= 0x7fff_ffff_ffff_ffff,
    ensures
        spec_decode(spec_encode_webhook(ev, installation_id as int)) == Some(ev),
        spec_installation_id(spec_encode_webhook(ev, installation_id as int))
            == installation_id,
{
    key_facts();
    let a = ev->RepositoryVulnerabilityAlert_0;
    let m0 = ev->RepositoryVulnerabilityAlert_1;
    if a is Some {
        let ms_e: Seq<(Seq<char>, JsonNode)> = seq![("action"@, JsonNode::Str(a->Some_0)), ("alert"@, m0)];
        assert(opt_action_members(a) + seq![("alert"@, m0)] =~= ms_e);
        assert(spec_encode(ev) == JsonNode::Obj(ms_e));
        assert(spec_encode(ev)->Obj_0 == ms_e);
        lemma_lookup_2(ms_e, ("action"@, JsonNode::Str(a->Some_0)), ("alert"@, m0));
        assert(!spec_has_member(spec_encode(ev), "installation"@));
        let ip = ("installation"@, JsonNode::Obj(
            seq![("id"@, JsonNode::Int(installation_id as int))],
        ));
        lemma_lookup_1(
            seq![("id"@, JsonNode::Int(installation_id as int))],
            ("id"@, JsonNode::Int(installation_id as int)),
        );
        assert(ip.1->Obj_0 == seq![("id"@, JsonNode::Int(installation_id as int))]);
        let ms: Seq<(Seq<char>, JsonNode)> = seq![ip] + ms_e;
        assert(ms =~= seq![ip, ("action"@, JsonNode::Str(a->Some_0)), ("alert"@, m0)]);
        lemma_lookup_3(ms, ip, ("action"@, JsonNode::Str(a->Some_0)), ("alert"@, m0));
        let d = spec_encode_webhook(ev, installation_id as int);
        assert(d == JsonNode::Obj(ms));
        assert(d->Obj_0 == ms);
        assert(spec_decode(d) == Some(ev));
        assert(spec_installation_id(d) == installation_id);
    } else {
        let ms_e: Seq<(Seq<char>, JsonNode)> = seq![("alert"@, m0)];
        assert(opt_action_members(a) + seq![("alert"@, m0)] =~= ms_e);
        assert(spec_encode(ev) == JsonNode::Obj(ms_e));
        assert(spec_encode(ev)->Obj_0 == ms_e);
        lemma_lookup_1(ms_e, ("alert"@, m0));
        assert(!spec_has_member(spec_encode(ev), "installation"@));
        let ip = ("installation"@, JsonNode::Obj(
            seq![("id"@, JsonNode::Int(installation_id as int))],
        ));
        lemma_lookup_1(
            seq![("id"@, JsonNode::Int(installation_id as int))],
            ("id"@, JsonNode::Int(installation_id as int)),
        );
        assert(ip.1->Obj_0 == seq![("id"@, JsonNode::Int(installation_id as int))]);
        let ms: Seq<(Seq<char>, JsonNode)> = seq![ip] + ms_e;
        assert(ms =~= seq![ip, ("alert"@, m0)]);
        lemma_lookup_2(ms, ip, ("alert"@, m0));
        let d = spec_encode_webhook(ev, installation_id as int);
        assert(d == JsonNode::Obj(ms));
        assert(d->Obj_0 == ms);
        assert(spec_decode(d) == Some(ev));
        assert(spec_installation_id(d) == installation_id);
    }
}

/// The round trip for a `repository` payload.
#[verifier::rlimit(100)]
proof fn rt_repository(ev: EventV, installation_id: u64)
    requires
        ev is Repository,
        wf_event(ev),
        installation_id <= 0x7fff_ffff_ffff_ffff,
    ensures
        spec_decode(spec_encode_webhook(ev, installation_id as int)) == Some(ev),
        spec_installation_id(spec_encode_webhook(ev, installation_id as int))
            == installation_id,
{
    key_facts();
    let a = ev->Repository_0;
    let m0 = ev->Repository_1;
    {
        let ms_e: Seq<(Seq<char>, JsonNode)> = seq![("action"@, JsonNode::Str(a)), ("repository"@, m0)];
        assert(spec_encode(ev) == JsonNode::Obj(ms_e));
        assert(spec_encode(ev)->Obj_0 == ms_e);
        lemma_lookup_2(ms_e, ("action"@, JsonNode::Str(a)), ("repository"@, m0));
        assert(!spec_has_member(spec_encode(ev), "installation"@));
        let ip = ("installation"@, JsonNode::Obj(
            seq![("id"@, JsonNode::Int(installation_id as int))],
        ));
        lemma_lookup_1(
            seq![("id"@, JsonNode::Int(installation_id as int))],
            ("id"@, JsonNode::Int(installation_id as int)),
        );
        assert(ip.1->Obj_0 == seq![("id"@, JsonNode::Int(installation_id as int))]);
        let ms: Seq<(Seq<char>, JsonNode)> = seq![ip] + ms_e;
        assert(ms =~= seq![ip, ("action"@, JsonNode::Str(a)), ("repository"@, m0)]);
        lemma_lookup_3(ms, ip, ("action"@, JsonNode::Str(a)), ("repository"@, m0));
        let d = spec_encode_webhook(ev, installation_id as int);
        assert(d == JsonNode::Obj(ms));
        assert(d->Obj_0 == ms);
        assert(spec_decode(d) == Some(ev));
        assert(spec_installation_id(d) == installation_id);
    }
}

/// The round trip for a `secret_scanning_alert_location` payload.
#[verifier::rlimit(100)]
proof fn rt_secret_scanning_alert_location(ev: EventV, installation_id: u64)
    requires
        ev is SecretScanningAlertLocation,
        wf_event(ev),
        installation_id <= 0x7fff_ffff_ffff_ffff,
    ensures
        spec_decode(spec_encode_webhook(ev, installation_id as int)) == Some(ev),
        spec_installation_id(spec_encode_webhook(ev, installation_id as int))
            == installation_id,
{
    key_facts();
    let a = ev->SecretScanningAlertLocation_0;
    let m0 = ev->SecretScanningAlertLocation_1;
    let m1 = ev->SecretScanningAlertLocation_2;
    if a is Some {
        let ms_e: Seq<(Seq<char>, JsonNode)> = seq![("action"@, JsonNode::Str(a->Some_0)), ("alert"@, m0), ("location"@, m1)];
        assert(opt_action_members(a) + seq![("alert"@, m0), ("location"@, m1)] =~= ms_e);
        assert(spec_encode(ev) == JsonNode::Obj(ms_e));
        assert(spec_encode(ev)->Obj_0 == ms_e);
        lemma_lookup_3(ms_e, ("action"@, JsonNode::Str(a->Some_0)), ("alert"@, m0), ("location"@, m1));
        assert(!spec_has_member(spec_encode(ev), "installation"@));
        let ip = ("installation"@, JsonNode::Obj(
            seq![("id"@, JsonNode::Int(installation_id as int))],
        ));
        lemma_lookup_1(
            seq![("id"@, JsonNode::Int(installation_id as int))],
            ("id"@, JsonNode::Int(installation_id as int)),
        );
        assert(ip.1->Obj_0 == seq![("id"@, JsonNode::Int(installation_id as int))]);
        let ms: Seq<(Seq<char>, JsonNode)> = seq![ip] + ms_e;
        assert(ms =~= seq![ip, ("action"@, JsonNode::Str(a->Some_0)), ("alert"@, m0), ("location"@, m1)]);
        lemma_lookup_4(ms, ip, ("action"@, JsonNode::Str(a->Some_0)), ("alert"@, m0), ("location"@, m1));
        let d = spec_encode_webhook(ev, installation_id as int);
        assert(d == JsonNode::Obj(ms));
        assert(d->Obj_0 == ms);
        assert(spec_decode(d) == Some(ev));
        assert(spec_installation_id(d) == installation_id);
    } else {
        let ms_e: Seq<(Seq<char>, JsonNode)> = seq![("alert"@, m0), ("location"@, m1)];
        assert(opt_action_members(a) + seq![("alert"@, m0), ("location"@, m1)] =~= ms_e);
        assert(spec_encode(ev) == JsonNode::Obj(ms_e));
        assert(spec_encode(ev)->Obj_0 == ms_e);
        lemma_lookup_2(ms_e, ("alert"@, m0), ("location"@, m1));
        assert(!spec_has_member(spec_encode(ev), "installation"@));
        let ip = ("installation"@, JsonNode::Obj(
            seq![("id"@, JsonNode::Int(installation_id as int))],
        ));
        lemma_lookup_1(
            seq![("id"@, JsonNode::Int(installation_id as int))],
            ("id"@, JsonNode::Int(installation_id as int)),
        );
        assert(ip.1->Obj_0 == seq![("id"@, JsonNode::Int(installation_id as int))]);
        let ms: Seq<(Seq<char>, JsonNode)> = seq![ip] + ms_e;
        assert(ms =~= seq![ip, ("alert"@, m0), ("location"@, m1)]);
        lemma_lookup_3(ms, ip, ("alert"@, m0), ("location"@, m1));
        let d = spec_encode_webhook(ev, installation_id as int);
        assert(d == JsonNode::Obj(ms));
        assert(d->Obj_0 == ms);
        assert(spec_decode(d) == Some(ev));
        assert(spec_installation_id(d) == installation_id);
    }
}

/// The round trip for a `secret_scanning_alert` payload.
#[verifier::rlimit(100)]
proof fn rt_secret_scanning_alert(ev: EventV, installation_id: u64)
    requires
        ev is SecretScanningAlert,
        wf_event(ev),
        installation_id <= 0x7fff_ffff_ffff_ffff,
    ensures
        spec_decode(spec_encode_webhook(ev, installation_id as int)) == Some(ev),
        spec_installation_id(spec_encode_webhook(ev, installation_id as int))
            == installation_id,
{
    key_facts();
    let a = ev->SecretScanningAlert_0;
    let m0 = ev->SecretScanningAlert_1;
    if a is Some {
        let ms_e: Seq<(Seq<char>, JsonNode)> = seq![("action"@, JsonNode::Str(a->Some_0)), ("alert"@, m0)];
        assert(opt_action_members(a) + seq![("alert"@, m0)] =~= ms_e);
        assert(spec_encode(ev) == JsonNode::Obj(ms_e));
        assert(spec_encode(ev)->Obj_0 == ms_e);
        lemma_lookup_2(ms_e, ("action"@, JsonNode::Str(a->Some_0)), ("alert"@, m0));
        assert(!spec_has_member(spec_encode(ev), "installation"@));
        let ip = ("installation"@, JsonNode::Obj(
            seq![("id"@, JsonNode::Int(installation_id as int))],
        ));
        lemma_lookup_1(
            seq![("id"@, JsonNode::Int(installation_id as int))],
            ("id"@, JsonNode::Int(installation_id as int)),
        );
        assert(ip.1->Obj_0 == seq![("id"@, JsonNode::Int(installation_id as int))]);
        let ms: Seq<(Seq<char>, JsonNode)> = seq![ip] + ms_e;
        assert(ms =~= seq![ip, ("action"@, JsonNode::Str(a->Some_0)), ("alert"@, m0)]);
        lemma_lookup_3(ms, ip, ("action"@, JsonNode::Str(a->Some_0)), ("alert"@, m0));
        let d = spec_encode_webhook(ev, installation_id as int);
        assert(d == JsonNode::Obj(ms));
        assert(d->Obj_0 == ms);
        assert(spec_decode(d) == Some(ev));
        assert(spec_installation_id(d) == installation_id);
    } else {
        let ms_e: Seq<(Seq<char>, JsonNode)> = seq![("alert"@, m0)];
        assert(opt_action_members(a) + seq![("alert"@, m0)] =~= ms_e);
        assert(spec_encode(ev) == JsonNode::Obj(ms_e));
        assert(spec_encode(ev)->Obj_0 == ms_e);
        lemma_lookup_1(ms_e, ("alert"@, m0));
        assert(!spec_has_member(spec_encode(ev), "installation"@));
        let ip = ("installation"@, JsonNode::Obj(
            seq![("id"@, JsonNode::Int(installation_id as int))],
        ));
        lemma_lookup_1(
            seq![("id"@, JsonNode::Int(installation_id as int))],
            ("id"@, JsonNode::Int(installation_id as int)),
        );
        assert(ip.1->Obj_0 == seq![("id"@, JsonNode::Int(installation_id as int))]);
        let ms: Seq<(Seq<char>, JsonNode)> = seq![ip] + ms_e;
        assert(ms =~= seq![ip, ("alert"@, m0)]);
        lemma_lookup_2(ms, ip, ("alert"@, m0));
        let d = spec_encode_webhook(ev, installation_id as int);
        assert(d == JsonNode::Obj(ms));
        assert(d->Obj_0 == ms);
        assert(spec_decode(d) == Some(ev));
        assert(spec_installation_id(d) == installation_id);
    }
}

/// The round trip for a `security_advisory` payload.
#[verifier::rlimit(100)]
proof fn rt_security_advisory(ev: EventV, installation_id: u64)
    requires
        ev is SecurityAdvisory,
        wf_event(ev),
        installation_id <= 0x7fff_ffff_ffff_ffff,
    ensures
        spec_decode(spec_encode_webhook(ev, installation_id as int)) == Some(ev),
        spec_installation_id(spec_encode_webhook(ev, installation_id as int))
            == installation_id,
{
    key_facts();
    let a = ev->SecurityAdvisory_0;
    let m0 = ev->SecurityAdvisory_1;
    if a is Some {
        let ms_e: Seq<(Seq<char>, JsonNode)> = seq![("action"@, JsonNode::Str(a->Some_0)), ("security_advisory"@, m0)];
        assert(opt_action_members(a) + seq![("security_advisory"@, m0)] =~= ms_e);
        assert(spec_encode(ev) == JsonNode::Obj(ms_e));
        assert(spec_encode(ev)->Obj_0 == ms_e);
        lemma_lookup_2(ms_e, ("action"@, JsonNode::Str(a->Some_0)), ("security_advisory"@, m0));
        assert(!spec_has_member(spec_encode(ev), "installation"@));
        let ip = ("installation"@, JsonNode::Obj(
            seq![("id"@, JsonNode::Int(installation_id as int))],
        ));
        lemma_lookup_1(
            seq![("id"@, JsonNode::Int(installation_id as int))],
            ("id"@, JsonNode::Int(installation_id as int)),
        );
        assert(ip.1->Obj_0 == seq![("id"@, JsonNode::Int(installation_id as int))]);
        let ms: Seq<(Seq<char>, JsonNode)> = seq![ip] + ms_e;
        assert(ms =~= seq![ip, ("action"@, JsonNode::Str(a->Some_0)), ("security_advisory"@, m0)]);
        lemma_lookup_3(ms, ip, ("action"@, JsonNode::Str(a->Some_0)), ("security_advisory"@, m0));
        let d = spec_encode_webhook(ev, installation_id as int);
        assert(d == JsonNode::Obj(ms));
        assert(d->Obj_0 == ms);
        assert(spec_decode(d) == Some(ev));
        assert(spec_installation_id(d) == installation_id);
    } else {
        let ms_e: Seq<(Seq<char>, JsonNode)> = seq![("security_advisory"@, m0)];
        assert(opt_action_members(a) + seq![("security_advisory"@, m0)] =~= ms_e);
        assert(spec_encode(ev) == JsonNode::Obj(ms_e));
        assert(spec_encode(ev)->Obj_0 == ms_e);
        lemma_lookup_1(ms_e, ("security_advisory"@, m0));
        assert(!spec_has_member(spec_encode(ev), "installation"@));
        let ip = ("installation"@, JsonNode::Obj(
            seq![("id"@, JsonNode::Int(installation_id as int))],
        ));
        lemma_lookup_1(
            seq![("id"@, JsonNode::Int(installation_id as int))],
            ("id"@, JsonNode::Int(installation_id as int)),
        );
        assert(ip.1->Obj_0 == seq![("id"@, JsonNode::Int(installation_id as int))]);
        let ms: Seq<(Seq<char>, JsonNode)> = seq![ip] + ms_e;
        assert(ms =~= seq![ip, ("security_advisory"@, m0)]);
        lemma_lookup_2(ms, ip, ("security_advisory"@, m0));
        let d = spec_encode_webhook(ev, installation_id as int);
        assert(d == JsonNode::Obj(ms));
        assert(d->Obj_0 == ms);
        assert(spec_decode(d) == Some(ev));
        assert(spec_installation_id(d) == installation_id);
    }
}

/// The round trip for a `security_and_analysis` payload.
#[verifier::rlimit(100)]
proof fn rt_security_and_analysis(ev: EventV, installation_id: u64)
    requires
        ev is SecurityAndAnalysis,
        wf_event(ev),
        installation_id <= 0x7fff_ffff_ffff_ffff,
    ensures
        spec_decode(spec_encode_webhook(ev, installation_id as int)) == Some(ev),
        spec_installation_id(spec_encode_webhook(ev, installation_id as int))
            == installation_id,
{
    key_facts();
    let m0 = ev->SecurityAndAnalysis_0;
    let m1 = ev->SecurityAndAnalysis_1;
    {
        let ms_e: Seq<(Seq<char>, JsonNode)> = seq![("changes"@, m0), ("repository"@, m1)];
        assert(spec_encode(ev) == JsonNode::Obj(ms_e));
        assert(spec_encode(ev)->Obj_0 == ms_e);
        lemma_lookup_2(ms_e, ("changes"@, m0), ("repository"@, m1));
        assert(!spec_has_member(spec_encode(ev), "installation"@));
        let ip = ("installation"@, JsonNode::Obj(
            seq![("id"@, JsonNode::Int(installation_id as int))],
        ));
        lemma_lookup_1(
            seq![("id"@, JsonNode::Int(installation_id as int))],
            ("id"@, JsonNode::Int(installation_id as int)),
        );
        assert(ip.1->Obj_0 == seq![("id"@, JsonNode::Int(installation_id as int))]);
        let ms: Seq<(Seq<char>, JsonNode)> = seq![ip] + ms_e;
        assert(ms =~= seq![ip, ("changes"@, m0), ("repository"@, m1)]);
        lemma_lookup_3(ms, ip, ("changes"@, m0), ("repository"@, m1));
        let d = spec_encode_webhook(ev, installation_id as int);
        assert(d == JsonNode::Obj(ms));
        assert(d->Obj_0 == ms);
        assert(spec_decode(d) == Some(ev));
        assert(spec_installation_id(d) == installation_id);
    }
}

/// The round trip for a `sponsorship` payload.
#[verifier::rlimit(100)]
proof fn rt_sponsorship(ev: EventV, installation_id: u64)
    requires
        ev is Sponsorship,
        wf_event(ev),
        installation_id <= 0x7fff_ffff_ffff_ffff,
    ensures
        spec_decode(spec_encode_webhook(ev, installation_id as int)) == Some(ev),
        spec_installation_id(spec_encode_webhook(ev, installation_id as int))
            == installation_id,
{
    key_facts();
    let a = ev->Sponsorship_0;
    let m0 = ev->Sponsorship_1;
    if a is Some {
        let ms_e: Seq<(Seq<char>, JsonNode)> = seq![("action"@, JsonNode::Str(a->Some_0)), ("sponsorship"@, m0)];
        assert(opt_action_members(a) + seq![("sponsorship"@, m0)] =~= ms_e);
        assert(spec_encode(ev) == JsonNode::Obj(ms_e));
        assert(spec_encode(ev)->Obj_0 == ms_e);
        lemma_lookup_2(ms_e, ("action"@, JsonNode::Str(a->Some_0)), ("sponsorship"@, m0));
        assert(!spec_has_member(spec_encode(ev), "installation"@));
        let ip = ("installation"@, JsonNode::Obj(
            seq![("id"@, JsonNode::Int(installation_id as int))],
        ));
        lemma_lookup_1(
            seq![("id"@, JsonNode::Int(installation_id as int))],
            ("id"@, JsonNode::Int(installation_id as int)),
        );
        assert(ip.1->Obj_0 == seq![("id"@, JsonNode::Int(installation_id as int))]);
        let ms: Seq<(Seq<char>, JsonNode)> = seq![ip] + ms_e;
        assert(ms =~= seq![ip, ("action"@, JsonNode::Str(a->Some_0)), ("sponsorship"@, m0)]);
        lemma_lookup_3(ms, ip, ("action"@, JsonNode::Str(a->Some_0)), ("sponsorship"@, m0));
        let d = spec_encode_webhook(ev, installation_id as int);
        assert(d == JsonNode::Obj(ms));
        assert(d->Obj_0 == ms);
        assert(spec_decode(d) == Some(ev));
        assert(spec_installation_id(d) == installation_id);
    } else {
        let ms_e: Seq<(Seq<char>, JsonNode)> = seq![("sponsorship"@, m0)];
        assert(opt_action_members(a) + seq![("sponsorship"@, m0)] =~= ms_e);
        assert(spec_encode(ev) == JsonNode::Obj(ms_e));
        assert(spec_encode(ev)->Obj_0 == ms_e);
        lemma_lookup_1(ms_e, ("sponsorship"@, m0));
        assert(!spec_has_member(spec_encode(ev), "installation"@));
        let ip = ("installation"@, JsonNode::Obj(
            seq![("id"@, JsonNode::Int(installation_id as int))],
        ));
        lemma_lookup_1(
            seq![("id"@, JsonNode::Int(installation_id as int))],
            ("id"@, JsonNode::Int(installation_id as int)),
        );
        assert(ip.1->Obj_0 == seq![("id"@, JsonNode::Int(installation_id as int))]);
        let ms: Seq<(Seq<char>, JsonNode)> = seq![ip] + ms_e;
        assert(ms =~= seq![ip, ("sponsorship"@, m0)]);
        lemma_lookup_2(ms, ip, ("sponsorship"@, m0));
        let d = spec_encode_webhook(ev, installation_id as int);
        assert(d == JsonNode::Obj(ms));
        assert(d->Obj_0 == ms);
        assert(spec_decode(d) == Some(ev));
        assert(spec_installation_id(d) == installation_id);
    }
}

/// The round trip for a `star` payload.
#[verifier::rlimit(100)]
proof fn rt_star(ev: EventV, installation_id: u64)
    requires
        ev is Star,
        wf_event(ev),
        installation_id <= 0x7fff_ffff_ffff_ffff,
    ensures
        spec_decode(spec_encode_webhook(ev, installation_id as int)) == Some(ev),
        spec_installation_id(spec_encode_webhook(ev, installation_id as int))
            == installation_id,
{
    key_facts();
    let a = ev->Star_0;
    let m0 = ev->Star_1;
    if a is Some {
        let ms_e: Seq<(Seq<char>, JsonNode)> = seq![("action"@, JsonNode::Str(a->Some_0)), ("starred_at"@, m0)];
        assert(opt_action_members(a) + seq![("starred_at"@, m0)] =~= ms_e);
        assert(spec_encode(ev) == JsonNode::Obj(ms_e));
        assert(spec_encode(ev)->Obj_0 == ms_e);
        lemma_lookup_2(ms_e, ("action"@, JsonNode::Str(a->Some_0)), ("starred_at"@, m0));
        assert(!spec_has_member(spec_encode(ev), "installation"@));
        let ip = ("installation"@, JsonNode::Obj(
            seq![("id"@, JsonNode::Int(installation_id as int))],
        ));
        lemma_lookup_1(
            seq![("id"@, JsonNode::Int(installation_id as int))],
            ("id"@, JsonNode::Int(installation_id as int)),
        );
        assert(ip.1->Obj_0 == seq![("id"@, JsonNode::Int(installation_id as int))]);
        let ms: Seq<(Seq<char>, JsonNode)> = seq![ip] + ms_e;
        assert(ms =~= seq![ip, ("action"@, JsonNode::Str(a->Some_0)), ("starred_at"@, m0)]);
        lemma_lookup_3(ms, ip, ("action"@, JsonNode::Str(a->Some_0)), ("starred_at"@, m0));
        let d = spec_encode_webhook(ev, installation_id as int);
        assert(d == JsonNode::Obj(ms));
        assert(d->Obj_0 == ms);
        assert(spec_decode(d) == Some(ev));
        assert(spec_installation_id(d) == installation_id);
    } else {
        let ms_e: Seq<(Seq<char>, JsonNode)> = seq![("starred_at"@, m0)];
        assert(opt_action_members(a) + seq![("starred_at"@, m0)] =~= ms_e);
        assert(spec_encode(ev) == JsonNode::Obj(ms_e));
        assert(spec_encode(ev)->Obj_0 == ms_e);
        lemma_lookup_1(ms_e, ("starred_at"@, m0));
        assert(!spec_has_member(spec_encode(ev), "installation"@));
        let ip = ("installation"@, JsonNode::Obj(
            seq![("id"@, JsonNode::Int(installation_id as int))],
        ));
        lemma_lookup_1(
            seq![("id"@, JsonNode::Int(installation_id as int))],
            ("id"@, JsonNode::Int(installation_id as int)),
        );
        assert(ip.1->Obj_0 == seq![("id"@, JsonNode::Int(installation_id as int))]);
        let ms: Seq<(Seq<char>, JsonNode)> = seq![ip] + ms_e;
        assert(ms =~= seq![ip, ("starred_at"@, m0)]);
        lemma_lookup_2(ms, ip, ("starred_at"@, m0));
        let d = spec_encode_webhook(ev, installation_id as int);
        assert(d == JsonNode::Obj(ms));
        assert(d->Obj_0 == ms);
        assert(spec_decode(d) == Some(ev));
        assert(spec_installation_id(d) == installation_id);
    }
}

/// The round trip for a `status` payload.
#[verifier::rlimit(100)]
proof fn rt_status(ev: EventV, installation_id: u64)
    requires
        ev is Status,
        wf_event(ev),
        installation_id <= 0x7fff_ffff_ffff_ffff,
    ensures
        spec_decode(spec_encode_webhook(ev, installation_id as int)) == Some(ev),
        spec_installation_id(spec_encode_webhook(ev, installation_id as int))
            == installation_id,
{
    key_facts();
    let m0 = ev->Status_0;
    let m1 = ev->Status_1;
    let m2 = ev->Status_2;
    {
        let ms_e: Seq<(Seq<char>, JsonNode)> = seq![("sha"@, m0), ("state"@, m1), ("context"@, m2)];
        assert(spec_encode(ev) == JsonNode::Obj(ms_e));
        assert(spec_encode(ev)->Obj_0 == ms_e);
        lemma_lookup_3(ms_e, ("sha"@, m0), ("state"@, m1), ("context"@, m2));
        assert(!spec_has_member(spec_encode(ev), "installation"@));
        let ip = ("installation"@, JsonNode::Obj(
            seq![("id"@, JsonNode::Int(installation_id as int))],
        ));
        lemma_lookup_1(
            seq![("id"@, JsonNode::Int(installation_id as int))],
            ("id"@, JsonNode::Int(installation_id as int)),
        );
        assert(ip.1->Obj_0 == seq![("id"@, JsonNode::Int(installation_id as int))]);
        let ms: Seq<(Seq<char>, JsonNode)> = seq![ip] + ms_e;
        assert(ms =~= seq![ip, ("sha"@, m0), ("state"@, m1), ("context"@, m2)]);
        lemma_lookup_4(ms, ip, ("sha"@, m0), ("state"@, m1), ("context"@, m2));
        let d = spec_encode_webhook(ev, installation_id as int);
        assert(d == JsonNode::Obj(ms));
        assert(d->Obj_0 == ms);
        assert(spec_decode(d) == Some(ev));
        assert(spec_installation_id(d) == installation_id);
    }
}

/// The round trip for a `team_add` payload.
#[verifier::rlimit(100)]
proof fn rt_team_add(ev: EventV, installation_id: u64)
    requires
        ev is TeamAdd,
        wf_event(ev),
        installation_id <= 0x7fff_ffff_ffff_ffff,
    ensures
        spec_decode(spec_encode_webhook(ev, installation_id as int)) == Some(ev),
        spec_installation_id(spec_encode_webhook(ev, installation_id as int))
            == installation_id,
{
    key_facts();
    let m0 = ev->TeamAdd_0;
    let m1 = ev->TeamAdd_1;
    {
        let ms_e: Seq<(Seq<char>, JsonNode)> = seq![("team"@, m0), ("repository"@, m1)];
        assert(spec_encode(ev) == JsonNode::Obj(ms_e));
        assert(spec_encode(ev)->Obj_0 == ms_e);
        lemma_lookup_2(ms_e, ("team"@, m0), ("repository"@, m1));
        assert(!spec_has_member(spec_encode(ev), "installation"@));
        let ip = ("installation"@, JsonNode::Obj(
            seq![("id"@, JsonNode::Int(installation_id as int))],
        ));
        lemma_lookup_1(
            seq![("id"@, JsonNode::Int(installation_id as int))],
            ("id"@, JsonNode::Int(installation_id as int)),
        );
        assert(ip.1->Obj_0 == seq![("id"@, JsonNode::Int(installation_id as int))]);
        let ms: Seq<(Seq<char>, JsonNode)> = seq![ip] + ms_e;
        assert(ms =~= seq![ip, ("team"@, m0), ("repository"@, m1)]);
        lemma_lookup_3(ms, ip, ("team"@, m0), ("repository"@, m1));
        let d = spec_encode_webhook(ev, installation_id as int);
        assert(d == JsonNode::Obj(ms));
        assert(d->Obj_0 == ms);
        assert(spec_decode(d) == Some(ev));
        assert(spec_installation_id(d) == installation_id);
    }
}

/// The round trip for a `team` payload.
#[verifier::rlimit(100)]
proof fn rt_team(ev: EventV, installation_id: u64)
    requires
        ev is Team,
        wf_event(ev),
        installation_id <= 0x7fff_ffff_ffff_ffff,
    ensures
        spec_decode(spec_encode_webhook(ev, installation_id as int)) == Some(ev),
        spec_installation_id(spec_encode_webhook(ev, installation_id as int))
            == installation_id,
{
    key_facts();
    let a = ev->Team_0;
    let m0 = ev->Team_1;
    if a is Some {
        let ms_e: Seq<(Seq<char>, JsonNode)> = seq![("action"@, JsonNode::Str(a->Some_0)), ("team"@, m0)];
        assert(opt_action_members(a) + seq![("team"@, m0)] =~= ms_e);
        assert(spec_encode(ev) == JsonNode::Obj(ms_e));
        assert(spec_encode(ev)->Obj_0 == ms_e);
        lemma_lookup_2(ms_e, ("action"@, JsonNode::Str(a->Some_0)), ("team"@, m0));
        assert(!spec_has_member(spec_encode(ev), "installation"@));
        let ip = ("installation"@, JsonNode::Obj(
            seq![("id"@, JsonNode::Int(installation_id as int))],
        ));
        lemma_lookup_1(
            seq![("id"@, JsonNode::Int(installation_id as int))],
            ("id"@, JsonNode::Int(installation_id as int)),
        );
        assert(ip.1->Obj_0 == seq![("id"@, JsonNode::Int(installation_id as int))]);
        let ms: Seq<(Seq<char>, JsonNode)> = seq![ip] + ms_e;
        assert(ms =~= seq![ip, ("action"@, JsonNode::Str(a->Some_0)), ("team"@, m0)]);
        lemma_lookup_3(ms, ip, ("action"@, JsonNode::Str(a->Some_0)), ("team"@, m0));
        let d = spec_encode_webhook(ev, installation_id as int);
        assert(d == JsonNode::Obj(ms));
        assert(d->Obj_0 == ms);
        assert(spec_decode(d) == Some(ev));
        assert(spec_installation_id(d) == installation_id);
    } else {
        let ms_e: Seq<(Seq<char>, JsonNode)> = seq![("team"@, m0)];
        assert(opt_action_members(a) + seq![("team"@, m0)] =~= ms_e);
        assert(spec_encode(ev) == JsonNode::Obj(ms_e));
        assert(spec_encode(ev)->Obj_0 == ms_e);
        lemma_lookup_1(ms_e, ("team"@, m0));
        assert(!spec_has_member(spec_encode(ev), "installation"@));
        let ip = ("installation"@, JsonNode::Obj(
            seq![("id"@, JsonNode::Int(installation_id as int))],
        ));
        lemma_lookup_1(
            seq![("id"@, JsonNode::Int(installation_id as int))],
            ("id"@, JsonNode::Int(installation_id as int)),
        );
        assert(ip.1->Obj_0 == seq![("id"@, JsonNode::Int(installation_id as int))]);
        let ms: Seq<(Seq<char>, JsonNode)> = seq![ip] + ms_e;
        assert(ms =~= seq![ip, ("team"@, m0)]);
        lemma_lookup_2(ms, ip, ("team"@, m0));
        let d = spec_encode_webhook(ev, installation_id as int);
        assert(d == JsonNode::Obj(ms));
        assert(d->Obj_0 == ms);
        assert(spec_decode(d) == Some(ev));
        assert(spec_installation_id(d) == installation_id);
    }
}

/// The round trip for a `watch` payload.
#[verifier::rlimit(100)]
proof fn rt_watch(ev: EventV, installation_id: u64)
    requires
        ev is Watch,
        wf_event(ev),
        installation_id <= 0x7fff_ffff_ffff_ffff,
    ensures
        spec_decode(spec_encode_webhook(ev, installation_id as int)) == Some(ev),
        spec_installation_id(spec_encode_webhook(ev, installation_id as int))
            == installation_id,
{
    key_facts();
    let m0 = ev->Watch_0;
    {
        let ms_e: Seq<(Seq<char>, JsonNode)> = seq![("action"@, JsonNode::Str("started"@)), ("repository"@, m0)];
        assert(spec_encode(ev) == JsonNode::Obj(ms_e));
        assert(spec_encode(ev)->Obj_0 == ms_e);
        lemma_lookup_2(ms_e, ("action"@, JsonNode::Str("started"@)), ("repository"@, m0));
        assert(!spec_has_member(spec_encode(ev), "installation"@));
        let ip = ("installation"@, JsonNode::Obj(
            seq![("id"@, JsonNode::Int(installation_id as int))],
        ));
        lemma_lookup_1(
            seq![("id"@, JsonNode::Int(installation_id as int))],
            ("id"@, JsonNode::Int(installation_id as int)),
        );
        assert(ip.1->Obj_0 == seq![("id"@, JsonNode::Int(installation_id as int))]);
        let ms: Seq<(Seq<char>, JsonNode)> = seq![ip] + ms_e;
        assert(ms =~= seq![ip, ("action"@, JsonNode::Str("started"@)), ("repository"@, m0)]);
        lemma_lookup_3(ms, ip, ("action"@, JsonNode::Str("started"@)), ("repository"@, m0));
        let d = spec_encode_webhook(ev, installation_id as int);
        assert(d == JsonNode::Obj(ms));
        assert(d->Obj_0 == ms);
        assert(spec_decode(d) == Some(ev));
        assert(spec_installation_id(d) == installation_id);
    }
}

/// The round trip for a `workflow_dispatch` payload.
#[verifier::rlimit(100)]
proof fn rt_workflow_dispatch(ev: EventV, installation_id: u64)
    requires
        ev is WorkflowDispatch,
        wf_event(ev),
        installation_id <= 0x7fff_ffff_ffff_ffff,
    ensures
        spec_decode(spec_encode_webhook(ev, installation_id as int)) == Some(ev),
        spec_installation_id(spec_encode_webhook(ev, installation_id as int))
            == installation_id,
{
    key_facts();
    let m0 = ev->WorkflowDispatch_0;
    let m1 = ev->WorkflowDispatch_1;
    {
        let ms_e: Seq<(Seq<char>, JsonNode)> = seq![("workflow"@, m0), ("inputs"@, m1)];
        assert(spec_encode(ev) == JsonNode::Obj(ms_e));
        assert(spec_encode(ev)->Obj_0 == ms_e);
        lemma_lookup_2(ms_e, ("workflow"@, m0), ("inputs"@, m1));
        assert(!spec_has_member(spec_encode(ev), "installation"@));
        let ip = ("installation"@, JsonNode::Obj(
            seq![("id"@, JsonNode::Int(installation_id as int))],
        ));
        lemma_lookup_1(
            seq![("id"@, JsonNode::Int(installation_id as int))],
            ("id"@, JsonNode::Int(installation_id as int)),
        );
        assert(ip.1->Obj_0 == seq![("id"@, JsonNode::Int(installation_id as int))]);
        let ms: Seq<(Seq<char>, JsonNode)> = seq![ip] + ms_e;
        assert(ms =~= seq![ip, ("workflow"@, m0), ("inputs"@, m1)]);
        lemma_lookup_3(ms, ip, ("workflow"@, m0), ("inputs"@, m1));
        let d = spec_encode_webhook(ev, installation_id as int);
        assert(d == JsonNode::Obj(ms));
        assert(d->Obj_0 == ms);
        assert(spec_decode(d) == Some(ev));
        assert(spec_installation_id(d) == installation_id);
    }
}

/// The round trip for a `workflow_job` payload.
#[verifier::rlimit(100)]
proof fn rt_workflow_job(ev: EventV, installation_id: u64)
    requires
        ev is WorkflowJob,
        wf_event(ev),
        installation_id <= 0x7fff_ffff_ffff_ffff,
    ensures
        spec_decode(spec_encode_webhook(ev, installation_id as int)) == Some(ev),
        spec_installation_id(spec_encode_webhook(ev, installation_id as int))
            == installation_id,
{
    key_facts();
    let a = ev->WorkflowJob_0;
    let m0 = ev->WorkflowJob_1;
    if a is Some {
        let ms_e: Seq<(Seq<char>, JsonNode)> = seq![("action"@, JsonNode::Str(a->Some_0)), ("workflow_job"@, m0)];
        assert(opt_action_members(a) + seq![("workflow_job"@, m0)] =~= ms_e);
        assert(spec_encode(ev) == JsonNode::Obj(ms_e));
        assert(spec_encode(ev)->Obj_0 == ms_e);
        lemma_lookup_2(ms_e, ("action"@, JsonNode::Str(a->Some_0)), ("workflow_job"@, m0));
        assert(!spec_has_member(spec_encode(ev), "installation"@));
        let ip = ("installation"@, JsonNode::Obj(
            seq![("id"@, JsonNode::Int(installation_id as int))],
        ));
        lemma_lookup_1(
            seq![("id"@, JsonNode::Int(installation_id as int))],
            ("id"@, JsonNode::Int(installation_id as int)),
        );
        assert(ip.1->Obj_0 == seq![("id"@, JsonNode::Int(installation_id as int))]);
        let ms: Seq<(Seq<char>, JsonNode)> = seq![ip] + ms_e;
        assert(ms =~= seq![ip, ("action"@, JsonNode::Str(a->Some_0)), ("workflow_job"@, m0)]);
        lemma_lookup_3(ms, ip, ("action"@, JsonNode::Str(a->Some_0)), ("workflow_job"@, m0));
        let d = spec_encode_webhook(ev, installation_id as int);
        assert(d == JsonNode::Obj(ms));
        assert(d->Obj_0 == ms);
        assert(spec_decode(d) == Some(ev));
        assert(spec_installation_id(d) == installation_id);
    } else {
        let ms_e: Seq<(Seq<char>, JsonNode)> = seq![("workflow_job"@, m0)];
        assert(opt_action_members(a) + seq![("workflow_job"@, m0)] =~= ms_e);
        assert(spec_encode(ev) == JsonNode::Obj(ms_e));
        assert(spec_encode(ev)->Obj_0 == ms_e);
        lemma_lookup_1(ms_e, ("workflow_job"@, m0));
        assert(!spec_has_member(spec_encode(ev), "installation"@));
        let ip = ("installation"@, JsonNode::Obj(
            seq![("id"@, JsonNode::Int(installation_id as int))],
        ));
        lemma_lookup_1(
            seq![("id"@, JsonNode::Int(installation_id as int))],
            ("id"@, JsonNode::Int(installation_id as int)),
        );
        assert(ip.1->Obj_0 == seq![("id"@, JsonNode::Int(installation_id as int))]);
        let ms: Seq<(Seq<char>, JsonNode)> = seq![ip] + ms_e;
        assert(ms =~= seq![ip, ("workflow_job"@, m0)]);
        lemma_lookup_2(ms, ip, ("workflow_job"@, m0));
        let d = spec_encode_webhook(ev, installation_id as int);
        assert(d == JsonNode::Obj(ms));
        assert(d->Obj_0 == ms);
        assert(spec_decode(d) == Some(ev));
        assert(spec_installation_id(d) == installation_id);
    }
}

/// The round-trip law: a well-formed payload, encoded as a webhook
/// document with an installation id, resolves back to the same payload,
/// and — unless the payload itself defines an `installation` member —
/// the envelope reads back exactly the id that was written.
pub proof fn lemma_webhook_round_trip(ev: EventV, installation_id: u64)
    requires
        wf_event(ev),
        installation_id <= 0x7fff_ffff_ffff_ffff,
    ensures
        spec_decode(spec_encode_webhook(ev, installation_id as int)) == Some(ev),
        !(ev is Installation) ==> spec_installation_id(
            spec_encode_webhook(ev, installation_id as int),
        ) == installation_id,
{
    match ev {
        EventV::BranchProtectionRule(_, _) => rt_branch_protection_rule(ev, installation_id),
        EventV::CheckRun(_, _) => rt_check_run(ev, installation_id),
        EventV::CheckSuite(_, _) => rt_check_suite(ev, installation_id),
        EventV::CodeScanningAlert(_, _, _) => rt_code_scanning_alert(ev, installation_id),
        EventV::CommitComment(_, _) => rt_commit_comment(ev, installation_id),
        EventV::Create(_, _, _) => rt_create(ev, installation_id),
        EventV::Delete(_, _) => rt_delete(ev, installation_id),
        EventV::DependabotAlert(_, _) => rt_dependabot_alert(ev, installation_id),
        EventV::DeployKey(_, _) => rt_deploy_key(ev, installation_id),
        EventV::DeploymentProtectionRule(_, _) => rt_deployment_protection_rule(ev, installation_id),
        EventV::DeploymentStatus(_, _) => rt_deployment_status(ev, installation_id),
        EventV::Deployment(_, _) => rt_deployment(ev, installation_id),
        EventV::DiscussionComment(_, _, _) => rt_discussion_comment(ev, installation_id),
        EventV::Discussion(_, _) => rt_discussion(ev, installation_id),
        EventV::Fork(_) => rt_fork(ev, installation_id),
        EventV::GithubAppAuthorization(_) => rt_github_app_authorization(ev, installation_id),
        EventV::Gollum(_) => rt_gollum(ev, installation_id),
        EventV::InstallationRepositories(_, _) => rt_installation_repositories(ev, installation_id),
        EventV::InstallationTarget(_, _, _) => rt_installation_target(ev, installation_id),
        EventV::Installation(_, _, _) => rt_installation(ev, installation_id),
        EventV::IssueComment(_, _, _) => rt_issue_comment(ev, installation_id),
        EventV::Issues(_, _) => rt_issues(ev, installation_id),
        EventV::Label(_, _) => rt_label(ev, installation_id),
        EventV::MarketplacePurchase(_, _) => rt_marketplace_purchase(ev, installation_id),
        EventV::Member(_, _) => rt_member(ev, installation_id),
        EventV::Membership(_, _, _) => rt_membership(ev, installation_id),
        EventV::MergeGroup(_, _) => rt_merge_group(ev, installation_id),
        EventV::Meta(_, _) => rt_meta(ev, installation_id),
        EventV::Milestone(_, _) => rt_milestone(ev, installation_id),
        EventV::OrgBlock(_, _) => rt_org_block(ev, installation_id),
        EventV::Organization(_, _) => rt_organization(ev, installation_id),
        EventV::Package(_, _) => rt_package(ev, installation_id),
        EventV::PageBuild(_) => rt_page_build(ev, installation_id),
        EventV::PersonalAccessTokenRequest(_, _) => rt_personal_access_token_request(ev, installation_id),
        EventV::Ping(_, _) => rt_ping(ev, installation_id),
        EventV::ProjectCard(_, _) => rt_project_card(ev, installation_id),
        EventV::ProjectColumn(_, _) => rt_project_column(ev, installation_id),
        EventV::ProjectsV2Item(_, _) => rt_projects_v2_item(ev, installation_id),
        EventV::ProjectsV2(_, _) => rt_projects_v2(ev, installation_id),
        EventV::Public(_, _) => rt_public(ev, installation_id),
        EventV::PullRequestReviewComment(_, _, _) => rt_pull_request_review_comment(ev, installation_id),
        EventV::PullRequestReviewThread(_, _, _) => rt_pull_request_review_thread(ev, installation_id),
        EventV::PullRequestReview(_, _, _) => rt_pull_request_review(ev, installation_id),
        EventV::PullRequest(_, _, _) => rt_pull_request(ev, installation_id),
        EventV::Push(_, _, _, _) => rt_push(ev, installation_id),
        EventV::RegistryPackage(_, _) => rt_registry_package(ev, installation_id),
        EventV::Release(_, _) => rt_release(ev, installation_id),
        EventV::RepositoryAdvisory(_, _) => rt_repository_advisory(ev, installation_id),
        EventV::RepositoryImport(_, _) => rt_repository_import(ev, installation_id),
        EventV::RepositoryVulnerabilityAlert(_, _) => rt_repository_vulnerability_alert(ev, installation_id),
        EventV::Repository(_, _) => rt_repository(ev, installation_id),
        EventV::SecretScanningAlertLocation(_, _, _) => rt_secret_scanning_alert_location(ev, installation_id),
        EventV::SecretScanningAlert(_, _) => rt_secret_scanning_alert(ev, installation_id),
        EventV::SecurityAdvisory(_, _) => rt_security_advisory(ev, installation_id),
        EventV::SecurityAndAnalysis(_, _) => rt_security_and_analysis(ev, installation_id),
        EventV::Sponsorship(_, _) => rt_sponsorship(ev, installation_id),
        EventV::Star(_, _) => rt_star(ev, installation_id),
        EventV::Status(_, _, _) => rt_status(ev, installation_id),
        EventV::TeamAdd(_, _) => rt_team_add(ev, installation_id),
        EventV::Team(_, _) => rt_team(ev, installation_id),
        EventV::Watch(_) => rt_watch(ev, installation_id),
        EventV::WorkflowDispatch(_, _) => rt_workflow_dispatch(ev, installation_id),
        EventV::WorkflowJob(_, _) => rt_workflow_job(ev, installation_id),
    }
}

/// A document with no `installation` member yields the default id 0;
/// whether its payload resolves is a separate question that the id
/// does not influence.
pub proof fn lemma_missing_installation_defaults(d: JsonNode)
    requires
        !spec_has_member(d, "installation"@),
    ensures
        spec_installation_id(d) == 0,
{
}

} // verus!
