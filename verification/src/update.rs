//! The update lifecycle: create or mutate a record in the store, project it
//! to its list shape (resolving the operator to a display username), and
//! publish the projection on the broadcast bus. Publication is best-effort
//! by construction: the record is durably stored whether or not any live
//! subscriber sees the projection, and a projection failure never undoes
//! the store write.

use vstd::prelude::*;

use crate::bus::UpdateBus;
use crate::model::Operation;
use crate::model::ResourceTarget;
use crate::model::Update;
use crate::model::UpdateListItem;
use crate::model::UpdateListItemView;
use crate::model::UpdateStatus;
use crate::model::UpdateView;
use crate::model::User;
use crate::model::UserView;
use crate::model::Version;
use crate::store::first_user_with_id;
use crate::store::Store;
use crate::store::StoreError;

verus! {

/// The list projection of an update: the record's fields with the operator
/// resolved to a display username. A service operator's username is its id,
/// with no store lookup; any other operator must be present in the user
/// table.
pub open spec fn project_update(
    u: UpdateView,
    users: Seq<UserView>,
    operator_is_service: bool,
) -> Option<UpdateListItemView> {
    let username = if operator_is_service {
        Some(u.operator)
    } else {
        match first_user_with_id(users, u.operator) {
            Some(account) => Some(account.username),
            Option::None => Option::None,
        }
    };
    match username {
        Some(name) => Some(
            UpdateListItemView {
                id: u.id,
                operation: u.operation,
                start_ts: u.start_ts,
                success: u.success,
                operator: u.operator,
                target: u.target,
                status: u.status,
                version: u.version,
                username: name,
            },
        ),
        Option::None => Option::None,
    }
}

/// A fresh update record for an operation the user starts: not yet
/// inserted (id `0`), marked successful until something fails, queued,
/// version zero.
pub fn make_update(target: ResourceTarget, operation: Operation, user: &User, start_ts: i64) -> (r:
    Update)
    ensures
        r@ == (UpdateView {
            id: 0,
            operation,
            start_ts,
            success: true,
            operator: user@.id,
            target: target@,
            status: UpdateStatus::Queued,
            version: Version { major: 0, minor: 0, patch: 0 },
        }),
{
    let r = Update {
        id: 0,
        operation,
        start_ts,
        success: true,
        operator: user.id.clone(),
        target,
        status: UpdateStatus::Queued,
        version: Version { major: 0, minor: 0, patch: 0 },
    };
    proof {
        assert(r@ =~= (UpdateView {
            id: 0,
            operation,
            start_ts,
            success: true,
            operator: user@.id,
            target: r.target@,
            status: UpdateStatus::Queued,
            version: Version { major: 0, minor: 0, patch: 0 },
        }));
    }
    r
}

/// Builds the list projection of `update`, resolving the operator against
/// the store unless it is a service account.
pub fn update_list_item(update: Update, operator_is_service: bool, store: &Store) -> (r: Result<
    UpdateListItem,
    StoreError,
>)
    ensures
        match project_update(update@, store.users.deep_view(), operator_is_service) {
            Some(item) => r matches Ok(got) && got@ == item,
            Option::None => r == Err::<UpdateListItem, StoreError>(StoreError::NotFound),
        },
{
    let username = if operator_is_service {
        update.operator.clone()
    } else {
        match store.find_user(update.operator.as_str()) {
            Some(account) => account.username,
            Option::None => {
                return Err(StoreError::NotFound);
            },
        }
    };
    let item = UpdateListItem {
        id: update.id,
        operation: update.operation,
        start_ts: update.start_ts,
        success: update.success,
        operator: update.operator,
        target: update.target,
        status: update.status,
        version: update.version,
        username,
    };
    proof {
        assert(Some(item@) =~= project_update(
            update@,
            store.users.deep_view(),
            operator_is_service,
        ));
    }
    Ok(item)
}

/// Hands a projection to the broadcast bus. The bus never blocks and keeps
/// no failure to report: whether any subscriber observes the item is
/// invisible to the caller.
pub fn send_update(bus: &mut UpdateBus, update: UpdateListItem)
    requires
        old(bus).wf(),
        old(bus).history().len() < usize::MAX,
    ensures
        final(bus).wf(),
        final(bus).history() == old(bus).history().push(update@),
        final(bus).capacity_spec() == old(bus).capacity_spec(),
{
    bus.publish(update);
}

/// Creates an update: persists the record under a store-assigned id, then
/// projects and publishes it. The record is stored and the id returned even
/// though publication is best-effort; only a failure to resolve the
/// operator's username is reported, and even then the record stays stored.
pub fn add_update(
    store: &mut Store,
    bus: &mut UpdateBus,
    update: Update,
    operator_is_service: bool,
) -> (r: Result<u64, StoreError>)
    requires
        old(store).wf(),
        old(store).next_update_id < u64::MAX,
        old(bus).wf(),
        old(bus).history().len() < usize::MAX,
    ensures
        final(store).wf(),
        final(store).updates.deep_view() == old(store).updates.deep_view().push(
            UpdateView { id: old(store).next_update_id, ..update@ },
        ),
        final(store).next_update_id == old(store).next_update_id + 1,
        final(store).users == old(store).users,
        final(store).user_groups == old(store).user_groups,
        final(store).permissions == old(store).permissions,
        final(store).tags == old(store).tags,
        final(bus).wf(),
        final(bus).capacity_spec() == old(bus).capacity_spec(),
        match project_update(
            UpdateView { id: old(store).next_update_id, ..update@ },
            old(store).users.deep_view(),
            operator_is_service,
        ) {
            Some(item) => r matches Ok(id) && id == old(store).next_update_id
                && final(bus).history() == old(bus).history().push(item),
            Option::None => r == Err::<u64, StoreError>(StoreError::NotFound)
                && final(bus).history() == old(bus).history(),
        },
{
    let record = update.duplicate();
    let id = store.insert_update(record);
    let mut assigned = update;
    assigned.id = id;
    match update_list_item(assigned, operator_is_service, store) {
        Ok(item) => {
            send_update(bus, item);
            Ok(id)
        },
        Err(e) => Err(e),
    }
}

/// Mutates an update: replaces the stored record carrying its id, whole
/// record at a time, then projects and publishes the new shape. A missing
/// id leaves nothing replaced but is not an error; only a failure to
/// resolve the operator's username is reported, and even then the
/// replacement stands.
pub fn update_update(
    store: &mut Store,
    bus: &mut UpdateBus,
    update: Update,
    operator_is_service: bool,
) -> (r: Result<(), StoreError>)
    requires
        old(store).wf(),
        old(bus).wf(),
        old(bus).history().len() < usize::MAX,
    ensures
        final(store).wf(),
        final(store).updates@.len() == old(store).updates@.len(),
        forall|i: int|
            0 <= i < old(store).updates@.len() ==> #[trigger] final(store).updates.deep_view()[i]
                == if old(store).updates@[i].id == update.id {
                update@
            } else {
                old(store).updates.deep_view()[i]
            },
        final(store).next_update_id == old(store).next_update_id,
        final(store).users == old(store).users,
        final(store).user_groups == old(store).user_groups,
        final(store).permissions == old(store).permissions,
        final(store).tags == old(store).tags,
        final(bus).wf(),
        final(bus).capacity_spec() == old(bus).capacity_spec(),
        match project_update(update@, old(store).users.deep_view(), operator_is_service) {
            Some(item) => r matches Ok(u) && final(bus).history() == old(bus).history().push(item),
            Option::None => r == Err::<(), StoreError>(StoreError::NotFound) && final(bus).history()
                == old(bus).history(),
        },
{
    let record = update.duplicate();
    let _found = store.replace_update(&record);
    match update_list_item(update, operator_is_service, store) {
        Ok(item) => {
            send_update(bus, item);
            Ok(())
        },
        Err(e) => Err(e),
    }
}

} // verus!
