//! Reading subscriptions back from joined rows, and the text of the partial
//! update of a subscription.

use vstd::prelude::*;
use vstd::string::*;

use crate::domain::branch_name::{branch_name_error, valid_branch_name};
use crate::domain::event_type::{event_type_error, valid_event_type};
use crate::domain::repo_url::{repo_url_error, valid_repo_url};
use crate::domain::target_repo::{target_repo_error, valid_target_repo};
use crate::domain::{BranchName, EventType, RepoUrl, TargetRepo};
use crate::model::{SourceBranchInfo, Subscription, SubscriptionWithBranch, UpdateSubscription};
use crate::repository::RepositoryError;

verus! {

/// A row of the `subscriptions` table joined with its `branches` row, as
/// the database returns it.
#[derive(Debug)]
pub struct SubscriptionWithBranchRow {
    /// Subscription primary key.
    pub id: i64,
    /// Foreign key to the `branches` table.
    pub branch_id: i64,
    /// Raw `target_repo` column.
    pub target_repo: String,
    /// Raw `event_type` column.
    pub event_type: String,
    /// GitHub App installation ID.
    pub gh_app_installation_id: i64,
    /// Creation timestamp.
    pub created_at: String,
    /// Last-update timestamp.
    pub updated_at: String,
    /// Repo URL of the source branch, from the join.
    pub branch_repo_url: String,
    /// Name of the source branch, from the join.
    pub branch_name: String,
}

/// Every stored text of the row passes its rule.
pub open spec fn row_valid(r: SubscriptionWithBranchRow) -> bool {
    &&& valid_target_repo(r.target_repo@)
    &&& valid_event_type(r.event_type@)
    &&& valid_repo_url(r.branch_repo_url@)
    &&& valid_branch_name(r.branch_name@)
}

/// The message of the first rule the row breaks, checked in the order
/// target repository, event type, repository URL, branch name, as a
/// validation error displays it.
pub open spec fn row_error(r: SubscriptionWithBranchRow) -> Seq<char> {
    "Validation error: "@ + if !valid_target_repo(r.target_repo@) {
        target_repo_error(r.target_repo@)
    } else if !valid_event_type(r.event_type@) {
        event_type_error(r.event_type@)
    } else if !valid_repo_url(r.branch_repo_url@) {
        repo_url_error(r.branch_repo_url@)
    } else {
        branch_name_error(r.branch_name@)
    }
}

/// `s` holds exactly the values of row `r`.
pub open spec fn represents(s: SubscriptionWithBranch, r: SubscriptionWithBranchRow) -> bool {
    &&& s.subscription.id == r.id
    &&& s.subscription.branch_id == r.branch_id
    &&& s.subscription.target_repo@ == r.target_repo@
    &&& s.subscription.event_type@ == r.event_type@
    &&& s.subscription.gh_app_installation_id == r.gh_app_installation_id
    &&& s.subscription.created_at@ == r.created_at@
    &&& s.subscription.updated_at@ == r.updated_at@
    &&& s.source_branch.repo_url@ == r.branch_repo_url@
    &&& s.source_branch.name@ == r.branch_name@
}

impl SubscriptionWithBranch {
    /// Reads a joined row back into a validated subscription; a stored
    /// value that fails its rule is a mapping error.
    pub fn from_row(row: SubscriptionWithBranchRow) -> (r: Result<Self, RepositoryError>)
        ensures
            r is Ok <==> row_valid(row),
            r matches Ok(s) ==> represents(s, row),
            r matches Err(e) ==> (e matches RepositoryError::Mapping(m) && m@ == row_error(row)),
    {
        let ghost row0 = row;
        let target_repo = match TargetRepo::new(row.target_repo) {
            Ok(v) => v,
            Err(e) => {
                return Err(RepositoryError::Mapping(e.to_display_string()));
            },
        };
        let event_type = match EventType::new(row.event_type) {
            Ok(v) => v,
            Err(e) => {
                return Err(RepositoryError::Mapping(e.to_display_string()));
            },
        };
        let repo_url = match RepoUrl::new(row.branch_repo_url) {
            Ok(v) => v,
            Err(e) => {
                return Err(RepositoryError::Mapping(e.to_display_string()));
            },
        };
        let name = match BranchName::new(row.branch_name) {
            Ok(v) => v,
            Err(e) => {
                return Err(RepositoryError::Mapping(e.to_display_string()));
            },
        };
        Ok(
            SubscriptionWithBranch {
                subscription: Subscription {
                    id: row.id,
                    branch_id: row.branch_id,
                    target_repo,
                    event_type,
                    gh_app_installation_id: row.gh_app_installation_id,
                    created_at: row.created_at,
                    updated_at: row.updated_at,
                },
                source_branch: SourceBranchInfo { repo_url, name },
            },
        )
    }

    /// Reads joined rows back in order; the first row that fails gives the
    /// error.
    pub fn from_rows(rows: Vec<SubscriptionWithBranchRow>) -> (r: Result<
        Vec<SubscriptionWithBranch>,
        RepositoryError,
    >)
        ensures
            r is Ok <==> forall|i: int| 0 <= i < rows@.len() ==> #[trigger] row_valid(rows@[i]),
            r matches Ok(v) ==> v@.len() == rows@.len() && forall|i: int|
                0 <= i < rows@.len() ==> #[trigger] represents(v@[i], rows@[i]),
            r matches Err(e) ==> exists|k: int|
                {
                    &&& 0 <= k < rows@.len()
                    &&& !row_valid(#[trigger] rows@[k])
                    &&& forall|j: int| 0 <= j < k ==> row_valid(rows@[j])
                    &&& e == RepositoryError::Mapping(e->Mapping_0)
                    &&& e->Mapping_0@ == row_error(rows@[k])
                },
    {
        let ghost all = rows@;
        let mut rest = rows;
        let mut out: Vec<SubscriptionWithBranch> = Vec::new();
        while rest.len() > 0
            invariant
                all == rows@,
                out@.len() + rest@.len() == all.len(),
                rest@ == all.subrange(out@.len() as int, all.len() as int),
                forall|i: int| 0 <= i < out@.len() ==> #[trigger] row_valid(all[i]),
                forall|i: int| 0 <= i < out@.len() ==> #[trigger] represents(out@[i], all[i]),
            decreases rest@.len(),
        {
            let ghost k = out@.len() as int;
            let row = rest.remove(0);
            assert(row == all[k]);
            assert(rest@ =~= all.subrange(k + 1, all.len() as int));
            match Self::from_row(row) {
                Ok(s) => {
                    out.push(s);
                },
                Err(e) => {
                    assert(!row_valid(all[k]));
                    return Err(e);
                },
            }
        }
        Ok(out)
    }
}

/// A value bound to a `?` of a statement.
#[derive(Debug, Clone, PartialEq, Eq)]
pub enum SqlValue {
    /// A text value.
    Text(String),
    /// An integer value.
    Integer(i64),
}

/// The mathematical value of a bound value.
pub enum BoundValue {
    Text(Seq<char>),
    Integer(int),
}

impl View for SqlValue {
    type V = BoundValue;

    open spec fn view(&self) -> BoundValue {
        match self {
            SqlValue::Text(t) => BoundValue::Text(t@),
            SqlValue::Integer(n) => BoundValue::Integer(*n as int),
        }
    }
}

/// A statement and the values bound to its `?`s, in order.
#[derive(Debug)]
pub struct SqlStatement {
    /// The statement text.
    pub sql: String,
    /// The bound values.
    pub binds: Vec<SqlValue>,
}

/// The assignments of the partial update: one `column = ?, ` for each
/// field the payload sets, then the update of `updated_at`.
pub open spec fn update_assignments(p: UpdateSubscription) -> Seq<char> {
    (if p.target_repo is Some {
        "target_repo = ?, "@
    } else {
        Seq::empty()
    }) + (if p.event_type is Some {
        "event_type = ?, "@
    } else {
        Seq::empty()
    }) + (if p.gh_app_installation_id is Some {
        "gh_app_installation_id = ?, "@
    } else {
        Seq::empty()
    }) + "updated_at = CURRENT_TIMESTAMP"@
}

/// The values bound by the partial update, in the order of its `?`s.
pub open spec fn update_binds(id: i64, p: UpdateSubscription) -> Seq<BoundValue> {
    (if p.target_repo is Some {
        seq![BoundValue::Text(p.target_repo->0@)]
    } else {
        Seq::empty()
    }) + (if p.event_type is Some {
        seq![BoundValue::Text(p.event_type->0@)]
    } else {
        Seq::empty()
    }) + (if p.gh_app_installation_id is Some {
        seq![BoundValue::Integer(p.gh_app_installation_id->0 as int)]
    } else {
        Seq::empty()
    }) + seq![BoundValue::Integer(id as int)]
}

/// Each bound value belongs to the column of its placeholder: the
/// assignments name the set columns in the order `target_repo`,
/// `event_type`, `gh_app_installation_id`, each with one `?`, and the
/// bound values follow that order: the new target repository, the new
/// event type and the new installation ID, each where the payload sets it,
/// then the subscription's ID for the `WHERE id = ?` that ends the
/// statement.
pub proof fn lemma_update_binds_follow_columns(id: i64, p: UpdateSubscription)
    ensures
        ({
            let b = update_binds(id, p);
            let a = update_assignments(p);
            let nt: int = if p.target_repo is Some { 1 } else { 0 };
            let ne: int = if p.event_type is Some { 1 } else { 0 };
            let ng: int = if p.gh_app_installation_id is Some { 1 } else { 0 };
            let at: int = if p.target_repo is Some { 17 } else { 0 };
            let ae: int = if p.event_type is Some { 16 } else { 0 };
            &&& b.len() == nt + ne + ng + 1
            &&& b[b.len() - 1] == BoundValue::Integer(id as int)
            &&& p.target_repo is Some ==> b[0] == BoundValue::Text(p.target_repo->0@)
                && a.subrange(0, 17) == "target_repo = ?, "@
            &&& p.event_type is Some ==> b[nt] == BoundValue::Text(p.event_type->0@)
                && a.subrange(at, at + 16) == "event_type = ?, "@
            &&& p.gh_app_installation_id is Some ==> b[nt + ne] == BoundValue::Integer(
                p.gh_app_installation_id->0 as int,
            ) && a.subrange(at + ae, at + ae + 28) == "gh_app_installation_id = ?, "@
        }),
{
    reveal_strlit("target_repo = ?, ");
    reveal_strlit("event_type = ?, ");
    reveal_strlit("gh_app_installation_id = ?, ");
    reveal_strlit("updated_at = CURRENT_TIMESTAMP");
    let ta: Seq<char> = if p.target_repo is Some {
        "target_repo = ?, "@
    } else {
        Seq::empty()
    };
    let ea: Seq<char> = if p.event_type is Some {
        "event_type = ?, "@
    } else {
        Seq::empty()
    };
    let ga: Seq<char> = if p.gh_app_installation_id is Some {
        "gh_app_installation_id = ?, "@
    } else {
        Seq::empty()
    };
    let a = update_assignments(p);
    assert(a == ta + ea + ga + "updated_at = CURRENT_TIMESTAMP"@);
    if p.target_repo is Some {
        assert(a.subrange(0, 17) =~= ta);
    }
    if p.event_type is Some {
        assert(a.subrange(ta.len() as int, ta.len() as int + 16) =~= ea);
    }
    if p.gh_app_installation_id is Some {
        assert(a.subrange(ta.len() + ea.len() as int, ta.len() + ea.len() as int + 28) =~= ga);
    }
}

/// Builds the statement that updates the fields `payload` sets on the
/// subscription `id`, stamps `updated_at`, and returns the updated row.
pub fn update_statement(id: i64, payload: &UpdateSubscription) -> (s: SqlStatement)
    ensures
        s.sql@ == "UPDATE subscriptions SET "@ + update_assignments(*payload)
            + " WHERE id = ? RETURNING *"@,
        s.binds@.map_values(|b: SqlValue| b@) == update_binds(id, *payload),
        placeholder_count(s.sql@) == s.binds@.len(),
{
    let mut sql = String::from_str("UPDATE subscriptions SET ");
    let mut binds: Vec<SqlValue> = Vec::new();
    let ghost sql0 = sql@;
    if let Some(target_repo) = &payload.target_repo {
        sql.append("target_repo = ?, ");
        binds.push(SqlValue::Text(String::from_str(target_repo.as_str())));
    }
    let ghost sql1 = sql@;
    let ghost b1 = binds@;
    if let Some(event_type) = &payload.event_type {
        sql.append("event_type = ?, ");
        binds.push(SqlValue::Text(String::from_str(event_type.as_str())));
    }
    let ghost sql2 = sql@;
    let ghost b2 = binds@;
    if let Some(installation_id) = payload.gh_app_installation_id {
        sql.append("gh_app_installation_id = ?, ");
        binds.push(SqlValue::Integer(installation_id));
    }
    sql.append("updated_at = CURRENT_TIMESTAMP");
    sql.append(" WHERE id = ?");
    binds.push(SqlValue::Integer(id));
    sql.append(" RETURNING *");
    proof {
        let ta: Seq<char> = if payload.target_repo is Some {
            "target_repo = ?, "@
        } else {
            Seq::empty()
        };
        let ea: Seq<char> = if payload.event_type is Some {
            "event_type = ?, "@
        } else {
            Seq::empty()
        };
        let ga: Seq<char> = if payload.gh_app_installation_id is Some {
            "gh_app_installation_id = ?, "@
        } else {
            Seq::empty()
        };
        assert(sql1 =~= sql0 + ta);
        assert(sql2 =~= sql1 + ea);
        assert(sql@ =~= "UPDATE subscriptions SET "@ + (ta + ea + ga + "updated_at = CURRENT_TIMESTAMP"@)
            + (" WHERE id = ?"@ + " RETURNING *"@));
        assert(" WHERE id = ?"@ + " RETURNING *"@ =~= " WHERE id = ? RETURNING *"@) by {
            reveal_strlit(" WHERE id = ?");
            reveal_strlit(" RETURNING *");
            reveal_strlit(" WHERE id = ? RETURNING *");
        }
        assert(binds@.map_values(|b: SqlValue| b@) =~= update_binds(id, *payload));
        lemma_update_placeholders(id, *payload);
    }
    SqlStatement { sql, binds }
}

/// The number of `?` placeholders in a statement text.
pub open spec fn placeholder_count(s: Seq<char>) -> nat
    decreases s.len(),
{
    if s.len() == 0 {
        0
    } else {
        placeholder_count(s.drop_last()) + if s.last() == '?' {
            1nat
        } else {
            0nat
        }
    }
}

/// Placeholders of a concatenation are those of its parts.
proof fn lemma_placeholder_count_add(a: Seq<char>, b: Seq<char>)
    ensures
        placeholder_count(a + b) == placeholder_count(a) + placeholder_count(b),
    decreases b.len(),
{
    if b.len() > 0 {
        lemma_placeholder_count_add(a, b.drop_last());
        assert((a + b).drop_last() =~= a + b.drop_last());
    } else {
        assert(a + b =~= a);
    }
}

/// Each `?` of the partial update stands for one bound value.
#[verifier::spinoff_prover]
#[verifier::rlimit(40)]
proof fn lemma_update_placeholders(id: i64, p: UpdateSubscription)
    ensures
        placeholder_count(
            "UPDATE subscriptions SET "@ + update_assignments(p) + " WHERE id = ? RETURNING *"@,
        ) == update_binds(id, p).len(),
{
    reveal_strlit("UPDATE subscriptions SET ");
    reveal_strlit("target_repo = ?, ");
    reveal_strlit("event_type = ?, ");
    reveal_strlit("gh_app_installation_id = ?, ");
    reveal_strlit("updated_at = CURRENT_TIMESTAMP");
    reveal_strlit(" WHERE id = ? RETURNING *");
    assert(placeholder_count("UPDATE subscriptions SET "@) == 0) by {
        reveal_with_fuel(placeholder_count, 26);
    }
    assert(placeholder_count("target_repo = ?, "@) == 1) by {
        reveal_with_fuel(placeholder_count, 18);
    }
    assert(placeholder_count("event_type = ?, "@) == 1) by {
        reveal_with_fuel(placeholder_count, 17);
    }
    assert(placeholder_count("gh_app_installation_id = ?, "@) == 1) by {
        reveal_with_fuel(placeholder_count, 29);
    }
    assert(placeholder_count("updated_at = CURRENT_TIMESTAMP"@) == 0) by {
        reveal_with_fuel(placeholder_count, 31);
    }
    assert(placeholder_count(" WHERE id = ? RETURNING *"@) == 1) by {
        reveal_with_fuel(placeholder_count, 26);
    }
    assert(placeholder_count(Seq::<char>::empty()) == 0);
    let ta: Seq<char> = if p.target_repo is Some {
        "target_repo = ?, "@
    } else {
        Seq::empty()
    };
    let ea: Seq<char> = if p.event_type is Some {
        "event_type = ?, "@
    } else {
        Seq::empty()
    };
    let ga: Seq<char> = if p.gh_app_installation_id is Some {
        "gh_app_installation_id = ?, "@
    } else {
        Seq::empty()
    };
    let tail = "updated_at = CURRENT_TIMESTAMP"@;
    lemma_placeholder_count_add(ta, ea);
    lemma_placeholder_count_add(ta + ea, ga);
    lemma_placeholder_count_add(ta + ea + ga, tail);
    lemma_placeholder_count_add("UPDATE subscriptions SET "@, update_assignments(p));
    lemma_placeholder_count_add(
        "UPDATE subscriptions SET "@ + update_assignments(p),
        " WHERE id = ? RETURNING *"@,
    );
}

} // verus!
