//! Data model: permission levels, resource targets, users, groups,
//! permission rows, update records and their list projection.

use vstd::prelude::*;

verus! {

/// Access level of a permission row, ordered
/// `NoAccess < Read < Execute < Write`.
#[derive(Clone, Copy, Debug, PartialEq, Eq, Structural)]
pub enum PermissionLevel {
    NoAccess,
    Read,
    Execute,
    Write,
}

impl PermissionLevel {
    /// Position of the level in the order; `Write` is maximal.
    pub open spec fn rank(self) -> int {
        match self {
            PermissionLevel::NoAccess => 0,
            PermissionLevel::Read => 1,
            PermissionLevel::Execute => 2,
            PermissionLevel::Write => 3,
        }
    }

    /// Exec comparison: `self` is strictly above `other`.
    pub fn above(&self, other: &PermissionLevel) -> (r: bool)
        ensures
            r == (self.rank() > other.rank()),
    {
        self.rank_u8() > other.rank_u8()
    }

    fn rank_u8(&self) -> (r: u8)
        ensures
            r as int == self.rank(),
    {
        match self {
            PermissionLevel::NoAccess => 0,
            PermissionLevel::Read => 1,
            PermissionLevel::Execute => 2,
            PermissionLevel::Write => 3,
        }
    }

    /// The larger of two levels; the result is one of the two.
    pub fn max_with(self, other: PermissionLevel) -> (r: PermissionLevel)
        ensures
            r.rank() == if self.rank() >= other.rank() { self.rank() } else { other.rank() },
            r == self || r == other,
    {
        if self.rank_u8() >= other.rank_u8() {
            self
        } else {
            other
        }
    }
}

/// The closed enumeration of resource kinds that can carry permissions.
#[derive(Clone, Copy, Debug, PartialEq, Eq, Hash, Structural)]
pub enum ResourceTargetVariant {
    System,
    Server,
    Deployment,
    Build,
    Repo,
    Procedure,
    UserGroup,
    User,
}

/// A typed `(variant, id)` identifier for a permission-bearing entity.
/// Equality is variant plus id equality; the derived equality and hash make
/// it usable as a map key outside verified code, which compares targets
/// through `same_target`.
#[derive(Clone, Debug, PartialEq, Eq, Hash)]
pub struct ResourceTarget {
    pub variant: ResourceTargetVariant,
    pub id: String,
}

#[verifier::ext_equal]
pub ghost struct ResourceTargetView {
    pub variant: ResourceTargetVariant,
    pub id: Seq<char>,
}

impl View for ResourceTarget {
    type V = ResourceTargetView;

    open spec fn view(&self) -> ResourceTargetView {
        ResourceTargetView { variant: self.variant, id: self.id@ }
    }
}

impl DeepView for ResourceTarget {
    type V = ResourceTargetView;

    open spec fn deep_view(&self) -> ResourceTargetView {
        self.view()
    }
}

impl ResourceTarget {
    /// The `(variant, id)` pair, for use as a query predicate.
    pub fn extract_variant_id(&self) -> (r: (ResourceTargetVariant, &str))
        ensures
            r.0 == self.variant,
            r.1@ == self@.id,
    {
        (self.variant, self.id.as_str())
    }

    /// Exec equality on targets, matching view equality.
    pub fn same_target(&self, other: &ResourceTarget) -> (r: bool)
        ensures
            r == (self@ == other@),
    {
        let eq = self.variant == other.variant && self.id == other.id;
        proof {
            if eq {
                assert(self@ =~= other@);
            }
        }
        eq
    }
}

/// A user account. Service accounts are not stored records; where one is
/// involved the caller passes it in directly (see `store::get_user`).
#[derive(Clone, Debug)]
pub struct User {
    pub id: String,
    pub username: String,
    pub admin: bool,
    pub enabled: bool,
    /// Targets the user viewed recently; maintained best-effort by the store.
    pub recently_viewed: Vec<ResourceTarget>,
}

#[verifier::ext_equal]
pub ghost struct UserView {
    pub id: Seq<char>,
    pub username: Seq<char>,
    pub admin: bool,
    pub enabled: bool,
    pub recently_viewed: Seq<ResourceTargetView>,
}

impl View for User {
    type V = UserView;

    open spec fn view(&self) -> UserView {
        UserView {
            id: self.id@,
            username: self.username@,
            admin: self.admin,
            enabled: self.enabled,
            recently_viewed: self.recently_viewed.deep_view(),
        }
    }
}

impl DeepView for User {
    type V = UserView;

    open spec fn deep_view(&self) -> UserView {
        self.view()
    }
}

/// A named set of member user ids; membership is many-to-many.
#[derive(Clone, Debug)]
pub struct UserGroup {
    pub id: String,
    pub users: Vec<String>,
}

#[verifier::ext_equal]
pub ghost struct UserGroupView {
    pub id: Seq<char>,
    pub users: Seq<Seq<char>>,
}

impl View for UserGroup {
    type V = UserGroupView;

    open spec fn view(&self) -> UserGroupView {
        UserGroupView { id: self.id@, users: self.users.deep_view() }
    }
}

impl DeepView for UserGroup {
    type V = UserGroupView;

    open spec fn deep_view(&self) -> UserGroupView {
        self.view()
    }
}

/// The grantee of a permission row: a single user or a user group, tagged.
#[derive(Clone, Debug)]
pub enum UserTarget {
    User(String),
    UserGroup(String),
}

pub ghost enum UserTargetView {
    User(Seq<char>),
    UserGroup(Seq<char>),
}

impl View for UserTarget {
    type V = UserTargetView;

    open spec fn view(&self) -> UserTargetView {
        match self {
            UserTarget::User(id) => UserTargetView::User(id@),
            UserTarget::UserGroup(id) => UserTargetView::UserGroup(id@),
        }
    }
}

impl DeepView for UserTarget {
    type V = UserTargetView;

    open spec fn deep_view(&self) -> UserTargetView {
        self.view()
    }
}

/// A permission row: a grantee holds a level on a resource target.
/// Rows are created by administrative action and read-only to this core.
#[derive(Clone, Debug)]
pub struct Permission {
    pub id: String,
    pub user_target: UserTarget,
    pub resource_target: ResourceTarget,
    pub level: PermissionLevel,
}

#[verifier::ext_equal]
pub ghost struct PermissionView {
    pub id: Seq<char>,
    pub user_target: UserTargetView,
    pub resource_target: ResourceTargetView,
    pub level: PermissionLevel,
}

impl View for Permission {
    type V = PermissionView;

    open spec fn view(&self) -> PermissionView {
        PermissionView {
            id: self.id@,
            user_target: self.user_target@,
            resource_target: self.resource_target@,
            level: self.level,
        }
    }
}

impl DeepView for Permission {
    type V = PermissionView;

    open spec fn deep_view(&self) -> PermissionView {
        self.view()
    }
}

/// The kind of operation an update reports on.
#[derive(Clone, Copy, Debug, PartialEq, Eq, Structural)]
pub enum Operation {
    CreateServer,
    UpdateServer,
    CreateDeployment,
    Deploy,
    StartContainer,
    StopContainer,
    CreateBuild,
    RunBuild,
}

/// Progress of the operation an update belongs to.
#[derive(Clone, Copy, Debug, PartialEq, Eq, Structural)]
pub enum UpdateStatus {
    Queued,
    InProgress,
    Complete,
}

/// A semantic version attached to an update.
#[derive(Clone, Copy, Debug, PartialEq, Eq, Structural)]
pub struct Version {
    pub major: u64,
    pub minor: u64,
    pub patch: u64,
}

/// An update record. The id is assigned by the store on first insert
/// (`0` marks a record not yet inserted) and is immutable afterwards;
/// later mutations fully replace the record under that id.
#[derive(Clone, Debug)]
pub struct Update {
    pub id: u64,
    pub operation: Operation,
    pub start_ts: i64,
    pub success: bool,
    pub operator: String,
    pub target: ResourceTarget,
    pub status: UpdateStatus,
    pub version: Version,
}

#[verifier::ext_equal]
pub ghost struct UpdateView {
    pub id: u64,
    pub operation: Operation,
    pub start_ts: i64,
    pub success: bool,
    pub operator: Seq<char>,
    pub target: ResourceTargetView,
    pub status: UpdateStatus,
    pub version: Version,
}

impl View for Update {
    type V = UpdateView;

    open spec fn view(&self) -> UpdateView {
        UpdateView {
            id: self.id,
            operation: self.operation,
            start_ts: self.start_ts,
            success: self.success,
            operator: self.operator@,
            target: self.target@,
            status: self.status,
            version: self.version,
        }
    }
}

impl DeepView for Update {
    type V = UpdateView;

    open spec fn deep_view(&self) -> UpdateView {
        self.view()
    }
}

impl Update {
    /// A copy with the same view.
    pub fn duplicate(&self) -> (r: Update)
        ensures
            r@ == self@,
    {
        let r = Update {
            id: self.id,
            operation: self.operation,
            start_ts: self.start_ts,
            success: self.success,
            operator: self.operator.clone(),
            target: ResourceTarget { variant: self.target.variant, id: self.target.id.clone() },
            status: self.status,
            version: self.version,
        };
        proof {
            assert(r@ =~= self@);
        }
        r
    }
}

/// The read projection of an `Update` with the operator id resolved to a
/// display username. This is the only shape ever broadcast or streamed.
#[derive(Clone, Debug)]
pub struct UpdateListItem {
    pub id: u64,
    pub operation: Operation,
    pub start_ts: i64,
    pub success: bool,
    pub operator: String,
    pub target: ResourceTarget,
    pub status: UpdateStatus,
    pub version: Version,
    pub username: String,
}

#[verifier::ext_equal]
pub ghost struct UpdateListItemView {
    pub id: u64,
    pub operation: Operation,
    pub start_ts: i64,
    pub success: bool,
    pub operator: Seq<char>,
    pub target: ResourceTargetView,
    pub status: UpdateStatus,
    pub version: Version,
    pub username: Seq<char>,
}

impl View for UpdateListItem {
    type V = UpdateListItemView;

    open spec fn view(&self) -> UpdateListItemView {
        UpdateListItemView {
            id: self.id,
            operation: self.operation,
            start_ts: self.start_ts,
            success: self.success,
            operator: self.operator@,
            target: self.target@,
            status: self.status,
            version: self.version,
            username: self.username@,
        }
    }
}

impl DeepView for UpdateListItem {
    type V = UpdateListItemView;

    open spec fn deep_view(&self) -> UpdateListItemView {
        self.view()
    }
}

impl UpdateListItem {
    /// A copy with the same view, for handing one subscriber's item out
    /// while the bus keeps its own.
    pub fn duplicate(&self) -> (r: UpdateListItem)
        ensures
            r@ == self@,
    {
        let r = UpdateListItem {
            id: self.id,
            operation: self.operation,
            start_ts: self.start_ts,
            success: self.success,
            operator: self.operator.clone(),
            target: ResourceTarget { variant: self.target.variant, id: self.target.id.clone() },
            status: self.status,
            version: self.version,
            username: self.username.clone(),
        };
        proof {
            assert(r@ =~= self@);
        }
        r
    }
}

/// Reachability of a server, as decided from its config and a health probe.
#[derive(Clone, Copy, Debug, PartialEq, Eq, Structural)]
pub enum ServerStatus {
    Disabled,
    Healthy,
    Unhealthy,
}

/// State of a deployment's container as reported by its server.
#[derive(Clone, Copy, Debug, PartialEq, Eq, Structural)]
pub enum DockerContainerState {
    Unknown,
    NotDeployed,
    Created,
    Restarting,
    Running,
    Removing,
    Paused,
    Exited,
    Dead,
}

/// One container of a server's container list: its name and state.
#[derive(Clone, Debug)]
pub struct ContainerSummary {
    pub name: String,
    pub state: DockerContainerState,
}

#[verifier::ext_equal]
pub ghost struct ContainerSummaryView {
    pub name: Seq<char>,
    pub state: DockerContainerState,
}

impl View for ContainerSummary {
    type V = ContainerSummaryView;

    open spec fn view(&self) -> ContainerSummaryView {
        ContainerSummaryView { name: self.name@, state: self.state }
    }
}

impl DeepView for ContainerSummary {
    type V = ContainerSummaryView;

    open spec fn deep_view(&self) -> ContainerSummaryView {
        self.view()
    }
}

/// A tag record, with its recorded owner.
#[derive(Clone, Debug)]
pub struct Tag {
    pub id: String,
    pub name: String,
    pub owner: String,
}

#[verifier::ext_equal]
pub ghost struct TagView {
    pub id: Seq<char>,
    pub name: Seq<char>,
    pub owner: Seq<char>,
}

impl View for Tag {
    type V = TagView;

    open spec fn view(&self) -> TagView {
        TagView { id: self.id@, name: self.name@, owner: self.owner@ }
    }
}

impl DeepView for Tag {
    type V = TagView;

    open spec fn deep_view(&self) -> TagView {
        self.view()
    }
}

} // verus!
