//! The resource store, modeled as plain data: point lookups by id, the
//! membership and grant queries of the resolver, insert and full-record
//! replace for updates. A real deployment keeps these collections in a
//! document store; the decisions made over them are what this module
//! verifies.

use vstd::prelude::*;
use vstd::string::StrSliceExecFns;

use crate::helpers::is_object_id;
use crate::model::Permission;
use crate::model::PermissionLevel;
use crate::model::ResourceTarget;
use crate::model::ResourceTargetView;
use crate::model::Tag;
use crate::model::TagView;
use crate::model::Update;
use crate::model::User;
use crate::model::UserGroup;
use crate::model::UserTarget;
use crate::model::UserView;
use crate::permission::str_eq;

verus! {

/// Why a store operation failed.
#[derive(Clone, Copy, Debug, PartialEq, Eq, Structural)]
pub enum StoreError {
    /// No record matches the lookup.
    NotFound,
    /// The record exists but the account is disabled.
    NotEnabled,
    /// The caller is neither admin nor the record's owner.
    NotOwner,
}

/// The first user of the table whose id equals `id`.
pub open spec fn first_user_with_id(users: Seq<UserView>, id: Seq<char>) -> Option<UserView>
    decreases users.len(),
{
    if users.len() == 0 {
        Option::None
    } else if users[0].id == id {
        Some(users[0])
    } else {
        first_user_with_id(users.drop_first(), id)
    }
}

/// The first tag whose id (or, when `by_name`, whose name) equals `key`.
pub open spec fn first_tag_with_key(tags: Seq<TagView>, key: Seq<char>, by_name: bool) -> Option<
    TagView,
>
    decreases tags.len(),
{
    if tags.len() == 0 {
        Option::None
    } else if (if by_name {
        tags[0].name == key
    } else {
        tags[0].id == key
    }) {
        Some(tags[0])
    } else {
        first_tag_with_key(tags.drop_first(), key, by_name)
    }
}

/// `s` with every occurrence of `t` removed, order kept.
pub open spec fn without_target(s: Seq<ResourceTargetView>, t: ResourceTargetView) -> Seq<
    ResourceTargetView,
>
    decreases s.len(),
{
    if s.len() == 0 {
        Seq::empty()
    } else {
        let rest = without_target(s.drop_last(), t);
        if s.last() == t {
            rest
        } else {
            rest.push(s.last())
        }
    }
}

/// The store: every collection the core queries, and the id counter for
/// update records.
pub struct Store {
    pub users: Vec<User>,
    pub user_groups: Vec<UserGroup>,
    pub permissions: Vec<Permission>,
    pub updates: Vec<Update>,
    pub tags: Vec<Tag>,
    pub next_update_id: u64,
}

impl Store {
    /// Update ids are store-assigned: `0` is never assigned, every stored
    /// record's id is below the counter, and ids are unique.
    pub open spec fn wf(&self) -> bool {
        &&& self.next_update_id >= 1
        &&& forall|i: int|
            0 <= i < self.updates@.len() ==> 1 <= #[trigger] self.updates@[i].id
                < self.next_update_id
        &&& forall|i: int, j: int|
            0 <= i < j < self.updates@.len() ==> self.updates@[i].id != self.updates@[j].id
    }

    /// An empty store.
    pub fn new() -> (r: Store)
        ensures
            r.wf(),
            r.users@.len() == 0,
            r.user_groups@.len() == 0,
            r.permissions@.len() == 0,
            r.updates@.len() == 0,
            r.tags@.len() == 0,
    {
        Store {
            users: Vec::new(),
            user_groups: Vec::new(),
            permissions: Vec::new(),
            updates: Vec::new(),
            tags: Vec::new(),
            next_update_id: 1,
        }
    }

    /// Point lookup of a user by id: the first record with that id.
    pub fn find_user(&self, user_id: &str) -> (r: Option<User>)
        ensures
            match first_user_with_id(self.users.deep_view(), user_id@) {
                Some(u) => r matches Some(found) && found@ == u,
                Option::None => r is None,
            },
    {
        let ghost us = self.users.deep_view();
        proof {
            assert(us.subrange(0, us.len() as int) =~= us);
        }
        let mut k: usize = 0;
        while k < self.users.len()
            invariant
                k <= self.users.len(),
                us == self.users.deep_view(),
                first_user_with_id(us, user_id@) == first_user_with_id(
                    us.subrange(k as int, us.len() as int),
                    user_id@,
                ),
            decreases self.users.len() - k,
        {
            let ghost suffix = us.subrange(k as int, us.len() as int);
            if str_eq(self.users[k].id.as_str(), user_id) {
                proof {
                    assert(suffix[0] == us[k as int]);
                }
                let u = &self.users[k];
                let found = User {
                    id: u.id.clone(),
                    username: u.username.clone(),
                    admin: u.admin,
                    enabled: u.enabled,
                    recently_viewed: clone_targets(&u.recently_viewed),
                };
                proof {
                    assert(found@ =~= us[k as int]);
                }
                return Some(found);
            }
            proof {
                assert(suffix[0] == us[k as int]);
                assert(suffix.drop_first() =~= us.subrange(k as int + 1, us.len() as int));
            }
            k += 1;
        }
        proof {
            assert(us.subrange(us.len() as int, us.len() as int).len() == 0);
        }
        Option::None
    }

    /// Resolves a user id to its account. A service account is not a stored
    /// record: when the caller's service-account scheme recognises the id it
    /// passes the ready-made account in, and the store is not consulted.
    pub fn get_user(&self, user_id: &str, service_user: Option<User>) -> (r: Result<
        User,
        StoreError,
    >)
        ensures
            match service_user {
                Some(su) => r matches Ok(u) && u == su,
                Option::None => match first_user_with_id(self.users.deep_view(), user_id@) {
                    Some(u) => r matches Ok(found) && found@ == u,
                    Option::None => r == Err::<User, StoreError>(StoreError::NotFound),
                },
            },
    {
        match service_user {
            Some(su) => Ok(su),
            Option::None => match self.find_user(user_id) {
                Some(u) => Ok(u),
                Option::None => Err(StoreError::NotFound),
            },
        }
    }

    /// The mid-stream identity recheck: the user must still exist and still
    /// be enabled. A service shortcut is deliberately absent here — the
    /// check models identity revocation taking effect.
    pub fn check_user_valid(&self, user_id: &str) -> (r: Result<User, StoreError>)
        ensures
            match first_user_with_id(self.users.deep_view(), user_id@) {
                Option::None => r == Err::<User, StoreError>(StoreError::NotFound),
                Some(u) => if u.enabled {
                    r matches Ok(found) && found@ == u
                } else {
                    r == Err::<User, StoreError>(StoreError::NotEnabled)
                },
            },
    {
        match self.find_user(user_id) {
            Option::None => Err(StoreError::NotFound),
            Some(u) => {
                if u.enabled {
                    Ok(u)
                } else {
                    Err(StoreError::NotEnabled)
                }
            },
        }
    }

    /// Records a permission row granting `level` on `target` to the user.
    /// Admins hold every permission implicitly, so no row is written for
    /// them and the store is unchanged.
    pub fn create_permission(&mut self, user: &User, target: ResourceTarget, level: PermissionLevel)
        ensures
            user@.admin ==> final(self).permissions@ == old(self).permissions@,
            !user@.admin ==> final(self).permissions.deep_view() == old(
                self,
            ).permissions.deep_view().push(
                crate::model::PermissionView {
                    id: Seq::<char>::empty(),
                    user_target: crate::model::UserTargetView::User(user@.id),
                    resource_target: target@,
                    level,
                },
            ),
            final(self).users == old(self).users,
            final(self).user_groups == old(self).user_groups,
            final(self).updates == old(self).updates,
            final(self).tags == old(self).tags,
            final(self).next_update_id == old(self).next_update_id,
    {
        if user.admin {
            return ;
        }
        let row = Permission {
            id: String::new(),
            user_target: UserTarget::User(user.id.clone()),
            resource_target: target,
            level,
        };
        let ghost before = self.permissions.deep_view();
        let ghost rowv = row@;
        self.permissions.push(row);
        proof {
            assert(self.permissions.deep_view() =~= before.push(rowv));
        }
    }

    /// Inserts a fresh update record, assigning it the next id; the record's
    /// id field is overwritten with the assigned one.
    pub fn insert_update(&mut self, update: Update) -> (id: u64)
        requires
            old(self).wf(),
            old(self).next_update_id < u64::MAX,
        ensures
            final(self).wf(),
            id == old(self).next_update_id,
            final(self).next_update_id == old(self).next_update_id + 1,
            final(self).updates.deep_view() == old(self).updates.deep_view().push(
                crate::model::UpdateView { id: old(self).next_update_id, ..update@ },
            ),
            final(self).users == old(self).users,
            final(self).user_groups == old(self).user_groups,
            final(self).permissions == old(self).permissions,
            final(self).tags == old(self).tags,
    {
        let id = self.next_update_id;
        let mut record = update;
        record.id = id;
        let ghost before = self.updates.deep_view();
        let ghost recv = record@;
        self.updates.push(record);
        self.next_update_id = id + 1;
        proof {
            assert(self.updates.deep_view() =~= before.push(recv));
        }
        id
    }

    /// Replaces the stored record carrying `update.id` with `update`, whole
    /// record at a time (no partial patching). Returns whether a record with
    /// that id existed; nothing else changes either way.
    pub fn replace_update(&mut self, update: &Update) -> (found: bool)
        requires
            old(self).wf(),
        ensures
            final(self).wf(),
            found == exists|i: int|
                0 <= i < old(self).updates@.len() && #[trigger] old(self).updates@[i].id
                    == update.id,
            final(self).updates@.len() == old(self).updates@.len(),
            forall|i: int|
                0 <= i < old(self).updates@.len() ==> #[trigger] final(self).updates.deep_view()[i]
                    == if old(self).updates@[i].id == update.id {
                    update@
                } else {
                    old(self).updates.deep_view()[i]
                },
            final(self).next_update_id == old(self).next_update_id,
            final(self).users == old(self).users,
            final(self).user_groups == old(self).user_groups,
            final(self).permissions == old(self).permissions,
            final(self).tags == old(self).tags,
    {
        let n = self.updates.len();
        let mut out: Vec<Update> = Vec::new();
        let mut found = false;
        let mut k: usize = 0;
        while k < n
            invariant
                k <= n,
                n == self.updates@.len(),
                out@.len() == k,
                found == exists|i: int|
                    0 <= i < k && #[trigger] self.updates@[i].id == update.id,
                forall|i: int|
                    0 <= i < k ==> #[trigger] out.deep_view()[i] == if self.updates@[i].id
                        == update.id {
                        update@
                    } else {
                        self.updates.deep_view()[i]
                    },
            decreases n - k,
        {
            let ghost before = out.deep_view();
            if self.updates[k].id == update.id {
                out.push(update.duplicate());
                found = true;
                proof {
                    assert(self.updates@[k as int].id == update.id);
                    assert(out.deep_view() =~= before.push(update@));
                }
            } else {
                out.push(self.updates[k].duplicate());
                proof {
                    assert(out.deep_view() =~= before.push(self.updates.deep_view()[k as int]));
                }
            }
            k += 1;
        }
        proof {
            assert(forall|i: int|
                0 <= i < out@.len() ==> #[trigger] out.deep_view()[i].id == out@[i].id);
            assert(forall|i: int|
                0 <= i < self.updates@.len() ==> #[trigger] self.updates.deep_view()[i].id
                    == self.updates@[i].id);
        }
        self.updates = out;
        proof {
            assert forall|i: int| 0 <= i < self.updates@.len() implies #[trigger] self.updates@[i].id
                == old(self).updates@[i].id by {
                assert(self.updates.deep_view()[i].id == self.updates@[i].id);
                assert(old(self).updates.deep_view()[i].id == old(self).updates@[i].id);
            }
        }
        found
    }

    /// Point lookup of a tag by the canonical id shape or, failing that, by
    /// name — the same filter the store applies to user-supplied strings.
    pub fn get_tag(&self, id_or_name: &str) -> (r: Result<Tag, StoreError>)
        ensures
            match first_tag_with_key(
                self.tags.deep_view(),
                id_or_name@,
                !is_object_id(id_or_name@),
            ) {
                Some(t) => r matches Ok(found) && found@ == t,
                Option::None => r == Err::<Tag, StoreError>(StoreError::NotFound),
            },
    {
        let by_name = !crate::helpers::matches_object_id(id_or_name);
        let ghost ts = self.tags.deep_view();
        proof {
            assert(ts.subrange(0, ts.len() as int) =~= ts);
        }
        let mut k: usize = 0;
        while k < self.tags.len()
            invariant
                k <= self.tags.len(),
                ts == self.tags.deep_view(),
                by_name == !is_object_id(id_or_name@),
                first_tag_with_key(ts, id_or_name@, by_name) == first_tag_with_key(
                    ts.subrange(k as int, ts.len() as int),
                    id_or_name@,
                    by_name,
                ),
            decreases self.tags.len() - k,
        {
            let ghost suffix = ts.subrange(k as int, ts.len() as int);
            let hit = if by_name {
                str_eq(self.tags[k].name.as_str(), id_or_name)
            } else {
                str_eq(self.tags[k].id.as_str(), id_or_name)
            };
            proof {
                assert(suffix[0] == ts[k as int]);
                assert(suffix.drop_first() =~= ts.subrange(k as int + 1, ts.len() as int));
            }
            if hit {
                let t = &self.tags[k];
                let found = Tag { id: t.id.clone(), name: t.name.clone(), owner: t.owner.clone() };
                proof {
                    assert(found@ =~= ts[k as int]);
                }
                return Ok(found);
            }
            k += 1;
        }
        proof {
            assert(ts.subrange(ts.len() as int, ts.len() as int).len() == 0);
        }
        Err(StoreError::NotFound)
    }

    /// Tag lookup gated by ownership: only an admin or the tag's recorded
    /// owner may act on it.
    pub fn get_tag_check_owner(&self, id_or_name: &str, user: &User) -> (r: Result<Tag, StoreError>)
        ensures
            match first_tag_with_key(
                self.tags.deep_view(),
                id_or_name@,
                !is_object_id(id_or_name@),
            ) {
                Option::None => r == Err::<Tag, StoreError>(StoreError::NotFound),
                Some(t) => if user@.admin || t.owner == user@.id {
                    r matches Ok(found) && found@ == t
                } else {
                    r == Err::<Tag, StoreError>(StoreError::NotOwner)
                },
            },
    {
        match self.get_tag(id_or_name) {
            Err(e) => Err(e),
            Ok(tag) => {
                if user.admin || str_eq(tag.owner.as_str(), user.id.as_str()) {
                    Ok(tag)
                } else {
                    Err(StoreError::NotOwner)
                }
            },
        }
    }

    /// Removes the resource from every user's recently-viewed list; nothing
    /// else about any user changes.
    pub fn remove_from_recently_viewed(&mut self, resource: &ResourceTarget)
        ensures
            final(self).users@.len() == old(self).users@.len(),
            forall|i: int|
                0 <= i < old(self).users@.len() ==> {
                    let before = old(self).users.deep_view()[i];
                    let after = #[trigger] final(self).users.deep_view()[i];
                    &&& after.id == before.id
                    &&& after.username == before.username
                    &&& after.admin == before.admin
                    &&& after.enabled == before.enabled
                    &&& after.recently_viewed == without_target(before.recently_viewed, resource@)
                },
            final(self).user_groups == old(self).user_groups,
            final(self).permissions == old(self).permissions,
            final(self).updates == old(self).updates,
            final(self).tags == old(self).tags,
            final(self).next_update_id == old(self).next_update_id,
    {
        let n = self.users.len();
        let mut out: Vec<User> = Vec::new();
        let mut k: usize = 0;
        while k < n
            invariant
                k <= n,
                n == self.users@.len(),
                out@.len() == k,
                forall|i: int|
                    0 <= i < k ==> {
                        let before = self.users.deep_view()[i];
                        let after = #[trigger] out.deep_view()[i];
                        &&& after.id == before.id
                        &&& after.username == before.username
                        &&& after.admin == before.admin
                        &&& after.enabled == before.enabled
                        &&& after.recently_viewed == without_target(
                            before.recently_viewed,
                            resource@,
                        )
                    },
            decreases n - k,
        {
            let u = &self.users[k];
            let kept = targets_without(&u.recently_viewed, resource);
            let ghost before = out.deep_view();
            let replacement = User {
                id: u.id.clone(),
                username: u.username.clone(),
                admin: u.admin,
                enabled: u.enabled,
                recently_viewed: kept,
            };
            let ghost rv = replacement@;
            out.push(replacement);
            proof {
                assert(out.deep_view() =~= before.push(rv));
            }
            k += 1;
        }
        self.users = out;
    }
}

/// A copy of a target list with the same view.
fn clone_targets(v: &Vec<ResourceTarget>) -> (r: Vec<ResourceTarget>)
    ensures
        r.deep_view() == v.deep_view(),
{
    let mut out: Vec<ResourceTarget> = Vec::new();
    let mut k: usize = 0;
    while k < v.len()
        invariant
            k <= v.len(),
            out.deep_view() == v.deep_view().subrange(0, k as int),
        decreases v.len() - k,
    {
        let t = &v[k];
        let ghost before = out.deep_view();
        out.push(ResourceTarget { variant: t.variant, id: t.id.clone() });
        proof {
            assert(out.deep_view() =~= before.push(v.deep_view()[k as int]));
            assert(out.deep_view() =~= v.deep_view().subrange(0, k as int + 1));
        }
        k += 1;
    }
    proof {
        assert(v.deep_view().subrange(0, v@.len() as int) =~= v.deep_view());
    }
    out
}

/// The list without every occurrence of `resource`, order kept.
fn targets_without(v: &Vec<ResourceTarget>, resource: &ResourceTarget) -> (r: Vec<ResourceTarget>)
    ensures
        r.deep_view() == without_target(v.deep_view(), resource@),
{
    let ghost vs = v.deep_view();
    let mut out: Vec<ResourceTarget> = Vec::new();
    let mut k: usize = 0;
    while k < v.len()
        invariant
            k <= v.len(),
            vs == v.deep_view(),
            out.deep_view() == without_target(vs.subrange(0, k as int), resource@),
        decreases v.len() - k,
    {
        let ghost prefix = vs.subrange(0, k as int + 1);
        proof {
            assert(prefix.drop_last() =~= vs.subrange(0, k as int));
            assert(prefix.last() == vs[k as int]);
        }
        let t = &v[k];
        if !t.same_target(resource) {
            let ghost before = out.deep_view();
            out.push(ResourceTarget { variant: t.variant, id: t.id.clone() });
            proof {
                assert(out.deep_view() =~= before.push(vs[k as int]));
            }
        }
        k += 1;
    }
    proof {
        assert(vs.subrange(0, v@.len() as int) =~= vs);
    }
    out
}

} // verus!
