//! The permission resolver: a user's effective access level on a resource
//! target is the maximum level over all permission rows whose grantee is the
//! user or any group containing the user and whose target matches; an admin
//! bypasses the rows entirely and resolves to the maximal level.

use vstd::prelude::*;
use vstd::string::StrSliceExecFns;

use crate::model::Permission;
use crate::model::PermissionLevel;
use crate::model::PermissionView;
use crate::model::ResourceTarget;
use crate::model::ResourceTargetVariant;
use crate::model::ResourceTargetView;
use crate::model::User;
use crate::model::UserGroup;
use crate::model::UserGroupView;
use crate::model::UserTarget;
use crate::model::UserTargetView;
use crate::model::UserView;

verus! {

/// The target view built from a variant and an id.
pub open spec fn target_of(variant: ResourceTargetVariant, id: Seq<char>) -> ResourceTargetView {
    ResourceTargetView { variant, id }
}

/// Some group of the table has this id and contains this user.
pub open spec fn group_grants(
    groups: Seq<UserGroupView>,
    group_id: Seq<char>,
    user_id: Seq<char>,
) -> bool {
    exists|i: int|
        0 <= i < groups.len() && groups[i].id == group_id && groups[i].users.contains(user_id)
}

/// A grantee identity applies to the user: it is the user itself, or a group
/// containing the user.
pub open spec fn grantee_matches(
    grantee: UserTargetView,
    user_id: Seq<char>,
    groups: Seq<UserGroupView>,
) -> bool {
    match grantee {
        UserTargetView::User(id) => id == user_id,
        UserTargetView::UserGroup(gid) => group_grants(groups, gid, user_id),
    }
}

/// A permission row applies to the user on the target.
pub open spec fn row_matches(
    row: PermissionView,
    user_id: Seq<char>,
    groups: Seq<UserGroupView>,
    target: ResourceTargetView,
) -> bool {
    row.resource_target == target && grantee_matches(row.user_target, user_id, groups)
}

/// Rank of the maximum level over the rows that apply to the user on the
/// target; `0` (the rank of `NoAccess`) when none applies.
pub open spec fn max_matching_rank(
    rows: Seq<PermissionView>,
    user_id: Seq<char>,
    groups: Seq<UserGroupView>,
    target: ResourceTargetView,
) -> int
    decreases rows.len(),
{
    if rows.len() == 0 {
        0
    } else {
        let rest = max_matching_rank(rows.drop_last(), user_id, groups, target);
        if row_matches(rows.last(), user_id, groups, target) && rows.last().level.rank() > rest {
            rows.last().level.rank()
        } else {
            rest
        }
    }
}

/// Rank of the user's effective level: maximal for an admin, otherwise the
/// maximum over the applicable rows.
pub open spec fn effective_level_rank(
    user: UserView,
    groups: Seq<UserGroupView>,
    rows: Seq<PermissionView>,
    target: ResourceTargetView,
) -> int {
    if user.admin {
        PermissionLevel::Write.rank()
    } else {
        max_matching_rank(rows, user.id, groups, target)
    }
}

/// Character-for-character string equality.
pub fn str_eq(a: &str, b: &str) -> (r: bool)
    ensures
        r == (a@ == b@),
{
    let na = a.unicode_len();
    let nb = b.unicode_len();
    if na != nb {
        return false;
    }
    let mut k: usize = 0;
    while k < na
        invariant
            na == a@.len(),
            na == b@.len(),
            k <= na,
            forall|i: int| 0 <= i < k ==> a@[i] == b@[i],
        decreases na - k,
    {
        if a.get_char(k) != b.get_char(k) {
            return false;
        }
        k += 1;
    }
    proof {
        assert(a@ =~= b@);
    }
    true
}

/// Whether one of the strings of `v` equals `s`.
pub fn contains_str(v: &Vec<String>, s: &str) -> (r: bool)
    ensures
        r == v.deep_view().contains(s@),
{
    let mut k: usize = 0;
    while k < v.len()
        invariant
            k <= v.len(),
            forall|i: int| 0 <= i < k ==> v.deep_view()[i] != s@,
        decreases v.len() - k,
    {
        if str_eq(v[k].as_str(), s) {
            proof {
                assert(v.deep_view()[k as int] == s@);
            }
            return true;
        }
        k += 1;
    }
    false
}

/// Whether the group table grants `user_id` membership under `group_id`.
fn group_grants_exec(groups: &Vec<UserGroup>, group_id: &str, user_id: &str) -> (r: bool)
    ensures
        r == group_grants(groups.deep_view(), group_id@, user_id@),
{
    let mut k: usize = 0;
    while k < groups.len()
        invariant
            k <= groups.len(),
            forall|i: int|
                0 <= i < k ==> !(groups.deep_view()[i].id == group_id@
                    && groups.deep_view()[i].users.contains(user_id@)),
        decreases groups.len() - k,
    {
        if str_eq(groups[k].id.as_str(), group_id) && contains_str(&groups[k].users, user_id) {
            proof {
                assert(groups.deep_view()[k as int].id == group_id@);
                assert(groups.deep_view()[k as int].users.contains(user_id@));
            }
            return true;
        }
        k += 1;
    }
    false
}

/// Whether a grantee identity applies to the user.
fn grantee_matches_exec(grantee: &UserTarget, user_id: &str, groups: &Vec<UserGroup>) -> (r: bool)
    ensures
        r == grantee_matches(grantee@, user_id@, groups.deep_view()),
{
    match grantee {
        UserTarget::User(id) => str_eq(id.as_str(), user_id),
        UserTarget::UserGroup(gid) => group_grants_exec(groups, gid.as_str(), user_id),
    }
}

/// Ids of every group that contains the user, deduplicated.
pub fn get_user_user_group_ids(user_id: &str, user_groups: &Vec<UserGroup>) -> (r: Vec<String>)
    ensures
        forall|gid: Seq<char>| #[trigger]
            r.deep_view().contains(gid) ==> group_grants(user_groups.deep_view(), gid, user_id@),
        forall|i: int|
            0 <= i < user_groups.len() && #[trigger] user_groups.deep_view()[i].users.contains(
                user_id@,
            ) ==> r.deep_view().contains(user_groups.deep_view()[i].id),
        forall|i: int, j: int| 0 <= i < j < r.len() ==> r.deep_view()[i] != r.deep_view()[j],
{
    let ghost gs = user_groups.deep_view();
    let mut out: Vec<String> = Vec::new();
    let mut k: usize = 0;
    while k < user_groups.len()
        invariant
            k <= user_groups.len(),
            gs == user_groups.deep_view(),
            forall|gid: Seq<char>| #[trigger]
                out.deep_view().contains(gid) ==> group_grants(gs, gid, user_id@),
            forall|i: int|
                0 <= i < k && #[trigger] gs[i].users.contains(user_id@) ==> out.deep_view().contains(
                    gs[i].id,
                ),
            forall|i: int, j: int| 0 <= i < j < out.len() ==> out.deep_view()[i] != out.deep_view()[j],
        decreases user_groups.len() - k,
    {
        if contains_str(&user_groups[k].users, user_id) && !contains_str(
            &out,
            user_groups[k].id.as_str(),
        ) {
            let ghost before = out.deep_view();
            out.push(user_groups[k].id.clone());
            proof {
                assert(out.deep_view() =~= before.push(gs[k as int].id));
                assert(gs[k as int].users.contains(user_id@));
                assert(group_grants(gs, gs[k as int].id, user_id@));
                assert(forall|gid: Seq<char>| #[trigger]
                    out.deep_view().contains(gid) ==> before.contains(gid) || gid == gs[
                        k as int
                    ].id);
                assert(out.deep_view()[before.len() as int] == gs[k as int].id);
                assert(out.deep_view().contains(gs[k as int].id));
                assert forall|x: Seq<char>| #[trigger]
                    before.contains(x) implies out.deep_view().contains(x) by {
                    let i = choose|i: int| 0 <= i < before.len() && before[i] == x;
                    assert(out.deep_view()[i] == x);
                }
            }
        }
        k += 1;
    }
    out
}

/// The grantee identity list for a user: the user itself, then one entry per
/// group id.
pub fn user_target_query(user_id: &str, group_ids: &Vec<String>) -> (r: Vec<UserTarget>)
    ensures
        r.deep_view() == seq![UserTargetView::User(user_id@)] + group_ids.deep_view().map_values(
            |g: Seq<char>| UserTargetView::UserGroup(g),
        ),
{
    let ghost expected = seq![UserTargetView::User(user_id@)]
        + group_ids.deep_view().map_values(|g: Seq<char>| UserTargetView::UserGroup(g));
    let mut out: Vec<UserTarget> = Vec::new();
    out.push(UserTarget::User(user_id.to_owned()));
    let mut k: usize = 0;
    while k < group_ids.len()
        invariant
            k <= group_ids.len(),
            out.deep_view() == expected.subrange(0, k as int + 1),
            expected == seq![UserTargetView::User(user_id@)]
                + group_ids.deep_view().map_values(|g: Seq<char>| UserTargetView::UserGroup(g)),
        decreases group_ids.len() - k,
    {
        let ghost before = out.deep_view();
        out.push(UserTarget::UserGroup(group_ids[k].clone()));
        proof {
            assert(out.deep_view() =~= before.push(UserTargetView::UserGroup(
                group_ids.deep_view()[k as int],
            )));
            assert(out.deep_view() =~= expected.subrange(0, k as int + 2));
        }
        k += 1;
    }
    proof {
        assert(out.deep_view() =~= expected);
    }
    out
}

/// The user's effective permission level on `(resource_variant, resource_id)`:
/// maximal for an admin without consulting any row, otherwise the maximum
/// level over the rows whose grantee applies to the user and whose target
/// matches, `NoAccess` when none does.
pub fn get_user_permission_on_resource(
    user: &User,
    user_groups: &Vec<UserGroup>,
    permissions: &Vec<Permission>,
    resource_variant: ResourceTargetVariant,
    resource_id: &str,
) -> (r: PermissionLevel)
    ensures
        r.rank() == effective_level_rank(
            user@,
            user_groups.deep_view(),
            permissions.deep_view(),
            target_of(resource_variant, resource_id@),
        ),
{
    if user.admin {
        return PermissionLevel::Write;
    }
    let ghost rows = permissions.deep_view();
    let ghost gs = user_groups.deep_view();
    let ghost target = target_of(resource_variant, resource_id@);
    let mut cur = PermissionLevel::NoAccess;
    let mut k: usize = 0;
    while k < permissions.len()
        invariant
            k <= permissions.len(),
            rows == permissions.deep_view(),
            gs == user_groups.deep_view(),
            target == target_of(resource_variant, resource_id@),
            !user.admin,
            cur.rank() == max_matching_rank(
                rows.subrange(0, k as int),
                user@.id,
                gs,
                target,
            ),
        decreases permissions.len() - k,
    {
        let p = &permissions[k];
        let is_match = p.resource_target.variant == resource_variant && str_eq(
            p.resource_target.id.as_str(),
            resource_id,
        ) && grantee_matches_exec(&p.user_target, user.id.as_str(), user_groups);
        proof {
            let prefix = rows.subrange(0, k as int + 1);
            assert(prefix.drop_last() =~= rows.subrange(0, k as int));
            assert(prefix.last() == rows[k as int]);
            if is_match {
                assert(rows[k as int].resource_target =~= target);
            } else {
                assert(!(rows[k as int].resource_target == target && grantee_matches(
                    rows[k as int].user_target,
                    user@.id,
                    gs,
                )));
            }
        }
        if is_match {
            cur = cur.max_with(p.level);
        }
        k += 1;
    }
    proof {
        assert(rows.subrange(0, permissions.len() as int) =~= rows);
    }
    cur
}

/// Whether the user may see an update on `update_target`: an admin always
/// may; anyone else needs an effective level above `NoAccess` there.
pub fn user_can_see_update(
    user: &User,
    update_target: &ResourceTarget,
    user_groups: &Vec<UserGroup>,
    permissions: &Vec<Permission>,
) -> (r: bool)
    ensures
        r == (effective_level_rank(
            user@,
            user_groups.deep_view(),
            permissions.deep_view(),
            update_target@,
        ) > 0),
{
    if user.admin {
        return true;
    }
    let (variant, id) = update_target.extract_variant_id();
    let level = get_user_permission_on_resource(user, user_groups, permissions, variant, id);
    proof {
        assert(target_of(variant, id@) =~= update_target@);
    }
    level.above(&PermissionLevel::NoAccess)
}

/// Whether some row grants the user at least `Read` on an id of the variant.
pub open spec fn grants_id(
    rows: Seq<PermissionView>,
    user_id: Seq<char>,
    groups: Seq<UserGroupView>,
    variant: ResourceTargetVariant,
    id: Seq<char>,
) -> bool {
    exists|i: int|
        0 <= i < rows.len() && #[trigger] grantee_matches(rows[i].user_target, user_id, groups)
            && rows[i].resource_target.variant == variant && rows[i].resource_target.id == id
            && rows[i].level.rank() > 0
}

/// Every resource id of the given variant on which the user holds at least
/// `Read` through any grant path; a true set, without duplicates.
pub fn get_resource_ids_for_non_admin(
    user_id: &str,
    user_groups: &Vec<UserGroup>,
    permissions: &Vec<Permission>,
    resource_variant: ResourceTargetVariant,
) -> (r: Vec<String>)
    ensures
        forall|id: Seq<char>| #[trigger]
            r.deep_view().contains(id) ==> grants_id(
                permissions.deep_view(),
                user_id@,
                user_groups.deep_view(),
                resource_variant,
                id,
            ),
        forall|i: int|
            0 <= i < permissions.len() && #[trigger] grantee_matches(
                permissions.deep_view()[i].user_target,
                user_id@,
                user_groups.deep_view(),
            ) && permissions.deep_view()[i].resource_target.variant == resource_variant
                && permissions.deep_view()[i].level.rank() > 0 ==> r.deep_view().contains(
                permissions.deep_view()[i].resource_target.id,
            ),
        forall|i: int, j: int| 0 <= i < j < r.len() ==> r.deep_view()[i] != r.deep_view()[j],
{
    let ghost rows = permissions.deep_view();
    let ghost gs = user_groups.deep_view();
    let mut out: Vec<String> = Vec::new();
    let mut k: usize = 0;
    while k < permissions.len()
        invariant
            k <= permissions.len(),
            rows == permissions.deep_view(),
            gs == user_groups.deep_view(),
            forall|id: Seq<char>| #[trigger]
                out.deep_view().contains(id) ==> grants_id(rows, user_id@, gs, resource_variant, id),
            forall|i: int|
                0 <= i < k && #[trigger] grantee_matches(rows[i].user_target, user_id@, gs)
                    && rows[i].resource_target.variant == resource_variant
                    && rows[i].level.rank() > 0 ==> out.deep_view().contains(
                    rows[i].resource_target.id,
                ),
            forall|i: int, j: int| 0 <= i < j < out.len() ==> out.deep_view()[i] != out.deep_view()[j],
        decreases permissions.len() - k,
    {
        let p = &permissions[k];
        let is_match = p.resource_target.variant == resource_variant && p.level.above(
            &PermissionLevel::NoAccess,
        ) && grantee_matches_exec(&p.user_target, user_id, user_groups);
        if is_match {
            if !contains_str(&out, p.resource_target.id.as_str()) {
                let ghost before = out.deep_view();
                out.push(p.resource_target.id.clone());
                proof {
                    assert(out.deep_view() =~= before.push(rows[k as int].resource_target.id));
                    assert(grantee_matches(rows[k as int].user_target, user_id@, gs));
                    assert(grants_id(rows, user_id@, gs, resource_variant, rows[k as int].resource_target.id));
                    assert(forall|id: Seq<char>| #[trigger]
                        out.deep_view().contains(id) ==> before.contains(id) || id == rows[
                            k as int
                        ].resource_target.id);
                    assert(out.deep_view()[before.len() as int] == rows[
                        k as int
                    ].resource_target.id);
                    assert(out.deep_view().contains(rows[k as int].resource_target.id));
                    assert forall|x: Seq<char>| #[trigger]
                        before.contains(x) implies out.deep_view().contains(x) by {
                        let i = choose|i: int| 0 <= i < before.len() && before[i] == x;
                        assert(out.deep_view()[i] == x);
                    }
                }
            }
        }
        k += 1;
    }
    out
}

/// The effective level is an upper bound on every applicable row, is attained
/// by one of them unless no row applies, and is `NoAccess` when none applies.
/// Together: for a non-admin it is exactly the maximum level among applicable
/// rows, `NoAccess` when there are none.
pub proof fn lemma_max_matching_rank_is_maximum(
    rows: Seq<PermissionView>,
    user_id: Seq<char>,
    groups: Seq<UserGroupView>,
    target: ResourceTargetView,
)
    ensures
        0 <= max_matching_rank(rows, user_id, groups, target) <= 3,
        forall|i: int|
            0 <= i < rows.len() && #[trigger] row_matches(rows[i], user_id, groups, target)
                ==> rows[i].level.rank() <= max_matching_rank(rows, user_id, groups, target),
        max_matching_rank(rows, user_id, groups, target) != 0 ==> exists|i: int|
            0 <= i < rows.len() && #[trigger] row_matches(rows[i], user_id, groups, target)
                && rows[i].level.rank() == max_matching_rank(rows, user_id, groups, target),
        (forall|i: int|
            0 <= i < rows.len() ==> !(#[trigger] row_matches(rows[i], user_id, groups, target)))
            ==> max_matching_rank(rows, user_id, groups, target) == 0,
    decreases rows.len(),
{
    if rows.len() > 0 {
        lemma_max_matching_rank_is_maximum(rows.drop_last(), user_id, groups, target);
        assert(forall|i: int| 0 <= i < rows.len() - 1 ==> rows[i] == rows.drop_last()[i]);
        assert(rows.last() == rows[rows.len() - 1]);
    }
}

/// An admin's effective level is maximal whatever rows are present.
pub proof fn lemma_admin_effective_level(
    user: UserView,
    groups: Seq<UserGroupView>,
    rows: Seq<PermissionView>,
    target: ResourceTargetView,
)
    requires
        user.admin,
    ensures
        effective_level_rank(user, groups, rows, target) == PermissionLevel::Write.rank(),
{
}

/// For a non-admin, the effective level is exactly the maximum level among
/// the rows that apply to the user on the target, `NoAccess` when none does.
pub proof fn lemma_effective_level_is_row_maximum(
    user: UserView,
    groups: Seq<UserGroupView>,
    rows: Seq<PermissionView>,
    target: ResourceTargetView,
)
    requires
        !user.admin,
    ensures
        forall|i: int|
            0 <= i < rows.len() && #[trigger] row_matches(rows[i], user.id, groups, target)
                ==> rows[i].level.rank() <= effective_level_rank(user, groups, rows, target),
        effective_level_rank(user, groups, rows, target) != 0 ==> exists|i: int|
            0 <= i < rows.len() && #[trigger] row_matches(rows[i], user.id, groups, target)
                && rows[i].level.rank() == effective_level_rank(user, groups, rows, target),
        (forall|i: int|
            0 <= i < rows.len() ==> !(#[trigger] row_matches(rows[i], user.id, groups, target)))
            ==> effective_level_rank(user, groups, rows, target) == 0,
{
    lemma_max_matching_rank_is_maximum(rows, user.id, groups, target);
}

/// The fold is unchanged under any change of the group table that leaves
/// every grantee's applicability unchanged.
proof fn lemma_max_matching_rank_congruence(
    rows: Seq<PermissionView>,
    user_id: Seq<char>,
    groups1: Seq<UserGroupView>,
    groups2: Seq<UserGroupView>,
    target: ResourceTargetView,
)
    requires
        forall|g: UserTargetView| #[trigger]
            grantee_matches(g, user_id, groups1) == grantee_matches(g, user_id, groups2),
    ensures
        max_matching_rank(rows, user_id, groups1, target) == max_matching_rank(
            rows,
            user_id,
            groups2,
            target,
        ),
    decreases rows.len(),
{
    if rows.len() > 0 {
        lemma_max_matching_rank_congruence(rows.drop_last(), user_id, groups1, groups2, target);
        assert(grantee_matches(rows.last().user_target, user_id, groups1) == grantee_matches(
            rows.last().user_target,
            user_id,
            groups2,
        ));
    }
}

/// Appending a row that is already present never changes the resolved
/// maximum: duplicate rows are idempotent.
pub proof fn lemma_duplicate_row_no_change(
    rows: Seq<PermissionView>,
    row: PermissionView,
    user_id: Seq<char>,
    groups: Seq<UserGroupView>,
    target: ResourceTargetView,
)
    requires
        rows.contains(row),
    ensures
        max_matching_rank(rows.push(row), user_id, groups, target) == max_matching_rank(
            rows,
            user_id,
            groups,
            target,
        ),
{
    lemma_max_matching_rank_is_maximum(rows, user_id, groups, target);
    assert(rows.push(row).drop_last() =~= rows);
    assert(rows.push(row).last() == row);
    let j = choose|j: int| 0 <= j < rows.len() && rows[j] == row;
    if row_matches(row, user_id, groups, target) {
        assert(row_matches(rows[j], user_id, groups, target));
    }
}

/// Appending a group membership that is already present never changes the
/// resolved maximum: duplicate memberships are idempotent.
pub proof fn lemma_duplicate_group_no_change(
    rows: Seq<PermissionView>,
    groups: Seq<UserGroupView>,
    group: UserGroupView,
    user_id: Seq<char>,
    target: ResourceTargetView,
)
    requires
        groups.contains(group),
    ensures
        max_matching_rank(rows, user_id, groups.push(group), target) == max_matching_rank(
            rows,
            user_id,
            groups,
            target,
        ),
{
    let pushed = groups.push(group);
    assert forall|g: UserTargetView| #[trigger]
        grantee_matches(g, user_id, pushed) == grantee_matches(g, user_id, groups) by {
        match g {
            UserTargetView::User(_) => {},
            UserTargetView::UserGroup(gid) => {
                if group_grants(pushed, gid, user_id) {
                    let i = choose|i: int|
                        0 <= i < pushed.len() && pushed[i].id == gid && pushed[i].users.contains(
                            user_id,
                        );
                    if i < groups.len() {
                        assert(group_grants(groups, gid, user_id));
                    } else {
                        let j = choose|j: int| 0 <= j < groups.len() && groups[j] == group;
                        assert(groups[j].id == gid && groups[j].users.contains(user_id));
                        assert(group_grants(groups, gid, user_id));
                    }
                }
                if group_grants(groups, gid, user_id) {
                    let i = choose|i: int|
                        0 <= i < groups.len() && groups[i].id == gid && groups[i].users.contains(
                            user_id,
                        );
                    assert(pushed[i].id == gid && pushed[i].users.contains(user_id));
                    assert(group_grants(pushed, gid, user_id));
                }
            },
        }
    }
    lemma_max_matching_rank_congruence(rows, user_id, pushed, groups, target);
}

} // verus!
