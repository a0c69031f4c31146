use vstd::prelude::*;

use crate::identifier::{spec_from_name_and_date, Timestamp};
use crate::migration::{
    current_group_name, legacy_group_name, spec_next, Command, GroupRow, Outcome, Phase,
    Statement, StepError, UserRow, FIRST_VERSION,
};
use crate::schema::{membership_keys, membership_keys_declared, ForeignKeyDef, SchemaVersion};

verus! {

/// A group as the store holds it.
pub struct GroupRecord {
    pub group_id: i32,
    pub display_name: Seq<char>,
    pub creation_date: Timestamp,
    pub uuid: Seq<char>,
}

/// A user as the store holds it.
pub struct UserRecord {
    pub user_id: Seq<char>,
    pub creation_date: Timestamp,
    pub uuid: Seq<char>,
}

/// The state of a store as the step sees it: which tables and added columns
/// exist, the rows the step reads or writes, the foreign keys the
/// memberships table was created with, and the store's clock. An absent
/// table is `None`.
pub struct StoreModel {
    pub foreign_keys: bool,
    pub users: Option<Seq<UserRecord>>,
    pub users_have_uuid: bool,
    pub groups: Option<Seq<GroupRecord>>,
    pub groups_have_date: bool,
    pub groups_have_uuid: bool,
    pub memberships: Option<Seq<ForeignKeyDef>>,
    pub versions: Option<Seq<u8>>,
    pub now: Timestamp,
}

/// The group rows renamed from the legacy display name to the current one.
pub open spec fn renamed(groups: Seq<GroupRecord>) -> Seq<GroupRecord> {
    groups.map_values(
        |g: GroupRecord|
            if g.display_name == legacy_group_name() {
                GroupRecord { display_name: current_group_name(), ..g }
            } else {
                g
            },
    )
}

/// Whether some group has the legacy display name.
pub open spec fn has_legacy_group(groups: Seq<GroupRecord>) -> bool {
    exists|i: int| 0 <= i < groups.len() && #[trigger] groups[i].display_name == legacy_group_name()
}

/// What a statement does to the store.
pub open spec fn apply(s: StoreModel, st: Statement) -> StoreModel {
    match st {
        Statement::EnableForeignKeys => StoreModel { foreign_keys: true, ..s },
        Statement::CreateUsers => if s.users is None {
            StoreModel { users: Some(Seq::empty()), users_have_uuid: true, ..s }
        } else {
            s
        },
        Statement::CreateGroups => if s.groups is None {
            StoreModel {
                groups: Some(Seq::empty()),
                groups_have_date: true,
                groups_have_uuid: true,
                ..s
            }
        } else {
            s
        },
        Statement::AddGroupsCreationDate => if s.groups is Some && !s.groups_have_date {
            StoreModel {
                groups: Some(
                    s.groups->0.map_values(|g: GroupRecord| GroupRecord { creation_date: s.now, ..g }),
                ),
                groups_have_date: true,
                ..s
            }
        } else {
            s
        },
        Statement::AddGroupsUuid => if s.groups is Some && !s.groups_have_uuid {
            StoreModel {
                groups: Some(
                    s.groups->0.map_values(|g: GroupRecord| GroupRecord { uuid: Seq::empty(), ..g }),
                ),
                groups_have_uuid: true,
                ..s
            }
        } else {
            s
        },
        Statement::SetGroupUuid { group_id, uuid } => if s.groups is Some {
            StoreModel {
                groups: Some(
                    s.groups->0.map_values(
                        |g: GroupRecord|
                            if g.group_id == group_id {
                                GroupRecord { uuid: uuid@, ..g }
                            } else {
                                g
                            },
                    ),
                ),
                ..s
            }
        } else {
            s
        },
        Statement::AddUsersUuid => if s.users is Some && !s.users_have_uuid {
            StoreModel {
                users: Some(s.users->0.map_values(|u: UserRecord| UserRecord { uuid: Seq::empty(), ..u })),
                users_have_uuid: true,
                ..s
            }
        } else {
            s
        },
        Statement::SetUserUuid { user_id, uuid } => if s.users is Some {
            StoreModel {
                users: Some(
                    s.users->0.map_values(
                        |u: UserRecord|
                            if u.user_id == user_id@ {
                                UserRecord { uuid: uuid@, ..u }
                            } else {
                                u
                            },
                    ),
                ),
                ..s
            }
        } else {
            s
        },
        Statement::CreateMemberships => if s.memberships is None {
            StoreModel { memberships: Some(membership_keys()), ..s }
        } else {
            s
        },
        Statement::RenameLegacyGroup => if s.groups is Some {
            StoreModel { groups: Some(renamed(s.groups->0)), ..s }
        } else {
            s
        },
        Statement::CreateMetadata => if s.versions is None {
            StoreModel { versions: Some(Seq::empty()), ..s }
        } else {
            s
        },
        Statement::InsertVersion(v) => if s.versions is Some {
            StoreModel { versions: Some(s.versions->0.push(v.0)), ..s }
        } else {
            s
        },
        _ => s,
    }
}

/// Whether `rows` are the groups of the store, as read for the backfill.
pub open spec fn reads_groups(rows: Seq<GroupRow>, groups: Seq<GroupRecord>) -> bool {
    &&& rows.len() == groups.len()
    &&& forall|i: int|
        0 <= i < rows.len() ==> {
            &&& #[trigger] rows[i].group_id == groups[i].group_id
            &&& rows[i].display_name@ == groups[i].display_name
            &&& rows[i].creation_date == groups[i].creation_date
        }
}

/// Whether `rows` are the users of the store, as read for the backfill.
pub open spec fn reads_users(rows: Seq<UserRow>, users: Seq<UserRecord>) -> bool {
    &&& rows.len() == users.len()
    &&& forall|i: int|
        0 <= i < rows.len() ==> {
            &&& #[trigger] rows[i].user_id@ == users[i].user_id
            &&& rows[i].creation_date == users[i].creation_date
        }
}

/// Whether `o` is what the store can answer to a statement: adding a column
/// that exists, or reading or writing a table that does not, fails with
/// some failure of the store; a read returns the rows the store holds.
pub open spec fn answers<E>(s: StoreModel, st: Statement, o: Outcome<E>) -> bool {
    match st {
        Statement::AddGroupsCreationDate => if s.groups is Some && !s.groups_have_date {
            o == Outcome::<E>::Done
        } else {
            o is Failed
        },
        Statement::AddGroupsUuid => if s.groups is Some && !s.groups_have_uuid {
            o == Outcome::<E>::Done
        } else {
            o is Failed
        },
        Statement::AddUsersUuid => if s.users is Some && !s.users_have_uuid {
            o == Outcome::<E>::Done
        } else {
            o is Failed
        },
        Statement::SelectGroups => if s.groups is Some {
            o matches Outcome::Groups(v) && reads_groups(v@, s.groups->0)
        } else {
            o is Failed
        },
        Statement::SelectUsers => if s.users is Some {
            o matches Outcome::Users(v) && reads_users(v@, s.users->0)
        } else {
            o is Failed
        },
        Statement::SetGroupUuid { .. } | Statement::RenameLegacyGroup => if s.groups is Some {
            o == Outcome::<E>::Done
        } else {
            o is Failed
        },
        Statement::SetUserUuid { .. } => if s.users is Some {
            o == Outcome::<E>::Done
        } else {
            o is Failed
        },
        Statement::FindLegacyGroup => if s.groups is Some {
            o == Outcome::<E>::Exists(has_legacy_group(s.groups->0))
        } else {
            o is Failed
        },
        Statement::InsertVersion(_) => if s.versions is Some {
            o == Outcome::<E>::Done
        } else {
            o is Failed
        },
        Statement::ReadVersion => if s.versions is Some && s.versions->0.len() > 0 {
            o == Outcome::<E>::Version(Some(SchemaVersion(s.versions->0[0])))
        } else {
            o == Outcome::<E>::Version(None)
        },
        _ => o == Outcome::<E>::Done,
    }
}

/// Whether the step, from command `c` on store `s`, can end with `r` and
/// leave the store as `fin`, after at most `fuel` statements, each answered
/// as the store can answer it.
pub open spec fn runs<E>(
    s: StoreModel,
    c: Command<E>,
    fin: StoreModel,
    r: Result<(), StepError<E>>,
    fuel: nat,
) -> bool
    decreases fuel,
{
    match c {
        Command::Finish(x) => fin == s && r == x,
        Command::Run(phase, st) => fuel > 0 && exists|o: Outcome<E>, d: Command<E>|
            answers(s, st, o) && #[trigger] spec_next(phase, o, d) && runs(
                apply(s, st),
                d,
                fin,
                r,
                (fuel - 1) as nat,
            ),
    }
}

/// The first command of the step.
pub open spec fn first_command<E>() -> Command<E> {
    Command::Run(Phase::ForeignKeys, Statement::EnableForeignKeys)
}

/// The store before anything was created in it.
pub open spec fn is_empty_store(s: StoreModel) -> bool {
    &&& s.users is None
    &&& s.groups is None
    &&& s.memberships is None
    &&& s.versions is None
}

/// Whether the store is as the step leaves it: every table and added column
/// present, no group under the legacy name, and the first version recorded.
pub open spec fn is_migrated(s: StoreModel) -> bool {
    &&& s.users is Some && s.users_have_uuid
    &&& s.groups is Some && s.groups_have_date && s.groups_have_uuid
    &&& !has_legacy_group(s.groups->0)
    &&& s.memberships is Some
    &&& s.versions is Some && s.versions->0.len() > 0 && s.versions->0[0] == FIRST_VERSION
}

/// Whether the store has every table and added column but no version
/// record yet, as a release from before versioning could leave it.
pub open spec fn is_unversioned_current(s: StoreModel) -> bool {
    &&& s.users is Some && s.users_have_uuid
    &&& s.groups is Some && s.groups_have_date && s.groups_have_uuid
    &&& s.memberships is Some
    &&& s.versions is None
}

/// One statement of a run whose decision the store's answer fixes to `c`.
proof fn lemma_runs_one<E>(
    s: StoreModel,
    phase: Phase,
    st: Statement,
    c: Command<E>,
    fin: StoreModel,
    r: Result<(), StepError<E>>,
    fuel: nat,
)
    requires
        runs(s, Command::<E>::Run(phase, st), fin, r, fuel),
        forall|o: Outcome<E>, d: Command<E>|
            answers(s, st, o) && spec_next(phase, o, d) ==> d == c,
    ensures
        fuel > 0,
        runs(apply(s, st), c, fin, r, (fuel - 1) as nat),
{
}

/// After the rename no group has the legacy name.
proof fn lemma_renamed_has_no_legacy(groups: Seq<GroupRecord>)
    ensures
        !has_legacy_group(renamed(groups)),
{
    reveal_strlit("lldap_readonly");
    reveal_strlit("lldap_password_manager");
    assert(current_group_name().len() != legacy_group_name().len());
    let r = renamed(groups);
    assert forall|i: int| 0 <= i < r.len() implies #[trigger] r[i].display_name != legacy_group_name() by {
    }
}

/// Migrating an empty store creates the four tables with all their columns,
/// turns foreign keys on, writes no row but the single version record of the
/// first version, and ends without error.
pub proof fn lemma_fresh_store<E>(
    s: StoreModel,
    fin: StoreModel,
    r: Result<(), StepError<E>>,
    fuel: nat,
)
    requires
        is_empty_store(s),
        runs(s, first_command(), fin, r, fuel),
    ensures
        r == Ok::<(), StepError<E>>(()),
        fin.foreign_keys,
        fin.users == Some(Seq::<UserRecord>::empty()) && fin.users_have_uuid,
        fin.groups == Some(Seq::<GroupRecord>::empty()),
        fin.groups_have_date && fin.groups_have_uuid,
        fin.memberships == Some(membership_keys()),
        membership_keys_declared(membership_keys()),
        fin.versions == Some(seq![FIRST_VERSION]),
{
    let s1 = apply(s, Statement::EnableForeignKeys);
    lemma_runs_one(s, Phase::ForeignKeys, Statement::EnableForeignKeys,
        Command::<E>::Run(Phase::UsersTable, Statement::CreateUsers), fin, r, fuel);
    let s2 = apply(s1, Statement::CreateUsers);
    lemma_runs_one(s1, Phase::UsersTable, Statement::CreateUsers,
        Command::<E>::Run(Phase::GroupsTable, Statement::CreateGroups), fin, r, (fuel - 1) as nat);
    let s3 = apply(s2, Statement::CreateGroups);
    lemma_runs_one(s2, Phase::GroupsTable, Statement::CreateGroups,
        Command::<E>::Run(Phase::GroupsCreationDate, Statement::AddGroupsCreationDate), fin, r, (fuel - 2) as nat);
    lemma_runs_one(s3, Phase::GroupsCreationDate, Statement::AddGroupsCreationDate,
        Command::<E>::Run(Phase::GroupsUuid, Statement::AddGroupsUuid), fin, r, (fuel - 3) as nat);
    lemma_runs_one(s3, Phase::GroupsUuid, Statement::AddGroupsUuid,
        Command::<E>::Run(Phase::UsersUuid, Statement::AddUsersUuid), fin, r, (fuel - 4) as nat);
    lemma_runs_one(s3, Phase::UsersUuid, Statement::AddUsersUuid,
        Command::<E>::Run(Phase::MembershipsTable, Statement::CreateMemberships), fin, r, (fuel - 5) as nat);
    let s7 = apply(s3, Statement::CreateMemberships);
    lemma_runs_one(s3, Phase::MembershipsTable, Statement::CreateMemberships,
        Command::<E>::Run(Phase::LegacyGroupLookup, Statement::FindLegacyGroup), fin, r, (fuel - 6) as nat);
    lemma_runs_one(s7, Phase::LegacyGroupLookup, Statement::FindLegacyGroup,
        Command::<E>::Run(Phase::MetadataTable, Statement::CreateMetadata), fin, r, (fuel - 7) as nat);
    let s9 = apply(s7, Statement::CreateMetadata);
    lemma_runs_one(s7, Phase::MetadataTable, Statement::CreateMetadata,
        Command::<E>::Run(Phase::VersionLookup, Statement::ReadVersion), fin, r, (fuel - 8) as nat);
    lemma_runs_one(s9, Phase::VersionLookup, Statement::ReadVersion,
        Command::<E>::Run(Phase::VersionInsert, Statement::InsertVersion(SchemaVersion(FIRST_VERSION))),
        fin, r, (fuel - 9) as nat);
    let s10 = apply(s9, Statement::InsertVersion(SchemaVersion(FIRST_VERSION)));
    lemma_runs_one(s9, Phase::VersionInsert, Statement::InsertVersion(SchemaVersion(FIRST_VERSION)),
        Command::<E>::Run(Phase::VersionCheck, Statement::ReadVersion), fin, r, (fuel - 10) as nat);
    assert(s10.versions->0 =~= seq![FIRST_VERSION]);
    lemma_runs_one(s10, Phase::VersionCheck, Statement::ReadVersion, Command::<E>::Finish(Ok(())),
        fin, r, (fuel - 11) as nat);
}

/// Running the step again on a migrated store changes no table, no column
/// and no row, the version record included; it only asks for foreign keys
/// on the connection again, and it ends without error.
pub proof fn lemma_rerun_changes_nothing<E>(
    s: StoreModel,
    fin: StoreModel,
    r: Result<(), StepError<E>>,
    fuel: nat,
)
    requires
        is_migrated(s),
        runs(s, first_command(), fin, r, fuel),
    ensures
        r == Ok::<(), StepError<E>>(()),
        fin == (StoreModel { foreign_keys: true, ..s }),
        is_migrated(fin),
{
    let s1 = apply(s, Statement::EnableForeignKeys);
    lemma_runs_one(s, Phase::ForeignKeys, Statement::EnableForeignKeys,
        Command::<E>::Run(Phase::UsersTable, Statement::CreateUsers), fin, r, fuel);
    lemma_runs_one(s1, Phase::UsersTable, Statement::CreateUsers,
        Command::<E>::Run(Phase::GroupsTable, Statement::CreateGroups), fin, r, (fuel - 1) as nat);
    lemma_runs_one(s1, Phase::GroupsTable, Statement::CreateGroups,
        Command::<E>::Run(Phase::GroupsCreationDate, Statement::AddGroupsCreationDate), fin, r, (fuel - 2) as nat);
    lemma_runs_one(s1, Phase::GroupsCreationDate, Statement::AddGroupsCreationDate,
        Command::<E>::Run(Phase::GroupsUuid, Statement::AddGroupsUuid), fin, r, (fuel - 3) as nat);
    lemma_runs_one(s1, Phase::GroupsUuid, Statement::AddGroupsUuid,
        Command::<E>::Run(Phase::UsersUuid, Statement::AddUsersUuid), fin, r, (fuel - 4) as nat);
    lemma_runs_one(s1, Phase::UsersUuid, Statement::AddUsersUuid,
        Command::<E>::Run(Phase::MembershipsTable, Statement::CreateMemberships), fin, r, (fuel - 5) as nat);
    lemma_runs_one(s1, Phase::MembershipsTable, Statement::CreateMemberships,
        Command::<E>::Run(Phase::LegacyGroupLookup, Statement::FindLegacyGroup), fin, r, (fuel - 6) as nat);
    lemma_runs_one(s1, Phase::LegacyGroupLookup, Statement::FindLegacyGroup,
        Command::<E>::Run(Phase::MetadataTable, Statement::CreateMetadata), fin, r, (fuel - 7) as nat);
    lemma_runs_one(s1, Phase::MetadataTable, Statement::CreateMetadata,
        Command::<E>::Run(Phase::VersionLookup, Statement::ReadVersion), fin, r, (fuel - 8) as nat);
    lemma_runs_one(s1, Phase::VersionLookup, Statement::ReadVersion, Command::<E>::Finish(Ok(())),
        fin, r, (fuel - 9) as nat);
}

/// On a store that has every table and column but no version record, the
/// step gives the group under the legacy name its current name and leaves
/// every other group as it was; without such a group it leaves the groups
/// untouched. Either way no user changes and the first version is recorded.
pub proof fn lemma_legacy_group_renamed<E>(
    s: StoreModel,
    fin: StoreModel,
    r: Result<(), StepError<E>>,
    fuel: nat,
)
    requires
        is_unversioned_current(s),
        runs(s, first_command(), fin, r, fuel),
    ensures
        r == Ok::<(), StepError<E>>(()),
        fin.users == s.users,
        fin.groups == Some(
            if has_legacy_group(s.groups->0) { renamed(s.groups->0) } else { s.groups->0 },
        ),
        is_migrated(fin),
{
    let legacy = has_legacy_group(s.groups->0);
    let s1 = apply(s, Statement::EnableForeignKeys);
    lemma_runs_one(s, Phase::ForeignKeys, Statement::EnableForeignKeys,
        Command::<E>::Run(Phase::UsersTable, Statement::CreateUsers), fin, r, fuel);
    lemma_runs_one(s1, Phase::UsersTable, Statement::CreateUsers,
        Command::<E>::Run(Phase::GroupsTable, Statement::CreateGroups), fin, r, (fuel - 1) as nat);
    lemma_runs_one(s1, Phase::GroupsTable, Statement::CreateGroups,
        Command::<E>::Run(Phase::GroupsCreationDate, Statement::AddGroupsCreationDate), fin, r, (fuel - 2) as nat);
    lemma_runs_one(s1, Phase::GroupsCreationDate, Statement::AddGroupsCreationDate,
        Command::<E>::Run(Phase::GroupsUuid, Statement::AddGroupsUuid), fin, r, (fuel - 3) as nat);
    lemma_runs_one(s1, Phase::GroupsUuid, Statement::AddGroupsUuid,
        Command::<E>::Run(Phase::UsersUuid, Statement::AddUsersUuid), fin, r, (fuel - 4) as nat);
    lemma_runs_one(s1, Phase::UsersUuid, Statement::AddUsersUuid,
        Command::<E>::Run(Phase::MembershipsTable, Statement::CreateMemberships), fin, r, (fuel - 5) as nat);
    lemma_runs_one(s1, Phase::MembershipsTable, Statement::CreateMemberships,
        Command::<E>::Run(Phase::LegacyGroupLookup, Statement::FindLegacyGroup), fin, r, (fuel - 6) as nat);
    let rest: nat = if legacy { (fuel - 9) as nat } else { (fuel - 8) as nat };
    let s8 = if legacy {
        lemma_runs_one(s1, Phase::LegacyGroupLookup, Statement::FindLegacyGroup,
            Command::<E>::Run(Phase::LegacyGroupRename, Statement::RenameLegacyGroup), fin, r, (fuel - 7) as nat);
        lemma_runs_one(s1, Phase::LegacyGroupRename, Statement::RenameLegacyGroup,
            Command::<E>::Run(Phase::MetadataTable, Statement::CreateMetadata), fin, r, (fuel - 8) as nat);
        lemma_renamed_has_no_legacy(s.groups->0);
        apply(s1, Statement::RenameLegacyGroup)
    } else {
        lemma_runs_one(s1, Phase::LegacyGroupLookup, Statement::FindLegacyGroup,
            Command::<E>::Run(Phase::MetadataTable, Statement::CreateMetadata), fin, r, (fuel - 7) as nat);
        s1
    };
    let s9 = apply(s8, Statement::CreateMetadata);
    lemma_runs_one(s8, Phase::MetadataTable, Statement::CreateMetadata,
        Command::<E>::Run(Phase::VersionLookup, Statement::ReadVersion), fin, r, rest);
    lemma_runs_one(s9, Phase::VersionLookup, Statement::ReadVersion,
        Command::<E>::Run(Phase::VersionInsert, Statement::InsertVersion(SchemaVersion(FIRST_VERSION))),
        fin, r, (rest - 1) as nat);
    let s10 = apply(s9, Statement::InsertVersion(SchemaVersion(FIRST_VERSION)));
    lemma_runs_one(s9, Phase::VersionInsert, Statement::InsertVersion(SchemaVersion(FIRST_VERSION)),
        Command::<E>::Run(Phase::VersionCheck, Statement::ReadVersion), fin, r, (rest - 2) as nat);
    lemma_runs_one(s10, Phase::VersionCheck, Statement::ReadVersion, Command::<E>::Finish(Ok(())),
        fin, r, (rest - 3) as nat);
}

/// The users table with its identifier column.
pub open spec fn users_ready(s: StoreModel) -> bool {
    s.users is Some && s.users_have_uuid
}

/// The groups table with its creation date and identifier columns.
pub open spec fn groups_ready(s: StoreModel) -> bool {
    s.groups is Some && s.groups_have_date && s.groups_have_uuid
}

/// What holds of the store whenever the step is about to run a statement:
/// the statement is the one of its phase, and what the earlier phases
/// established still stands. When the step has ended without error, the
/// store is migrated.
pub open spec fn step_invariant<E>(s: StoreModel, c: Command<E>) -> bool {
    let done = users_ready(s) && groups_ready(s) && s.memberships is Some;
    match c {
        Command::Finish(r) => r is Ok ==> is_migrated(s),
        Command::Run(phase, st) => match phase {
            Phase::ForeignKeys => st == Statement::EnableForeignKeys,
            Phase::UsersTable => st == Statement::CreateUsers,
            Phase::GroupsTable => st == Statement::CreateGroups && s.users is Some,
            Phase::GroupsCreationDate => st == Statement::AddGroupsCreationDate && s.users is Some
                && s.groups is Some,
            Phase::GroupsUuid => st == Statement::AddGroupsUuid && s.users is Some && s.groups is Some
                && s.groups_have_date,
            Phase::GroupRows => st == Statement::SelectGroups && s.users is Some && groups_ready(s),
            Phase::GroupBackfill { .. } => st is SetGroupUuid && s.users is Some && groups_ready(s),
            Phase::UsersUuid => st == Statement::AddUsersUuid && s.users is Some && groups_ready(s),
            Phase::UserRows => st == Statement::SelectUsers && users_ready(s) && groups_ready(s),
            Phase::UserBackfill { .. } => st is SetUserUuid && users_ready(s) && groups_ready(s),
            Phase::MembershipsTable => st == Statement::CreateMemberships && users_ready(s)
                && groups_ready(s),
            Phase::LegacyGroupLookup => st == Statement::FindLegacyGroup && done,
            Phase::LegacyGroupRename => st == Statement::RenameLegacyGroup && done,
            Phase::MetadataTable => st == Statement::CreateMetadata && done
                && !has_legacy_group(s.groups->0),
            Phase::VersionLookup => st == Statement::ReadVersion && done
                && !has_legacy_group(s.groups->0) && s.versions is Some,
            Phase::VersionInsert => st == Statement::InsertVersion(SchemaVersion(FIRST_VERSION))
                && done && !has_legacy_group(s.groups->0) && s.versions is Some,
            Phase::VersionCheck => st == Statement::ReadVersion && done
                && !has_legacy_group(s.groups->0) && s.versions is Some,
        },
    }
}

/// One statement keeps the invariant, whatever the store answers.
proof fn lemma_invariant_step<E>(s: StoreModel, phase: Phase, st: Statement, o: Outcome<E>, d: Command<E>)
    requires
        step_invariant(s, Command::<E>::Run(phase, st)),
        answers(s, st, o),
        spec_next(phase, o, d),
    ensures
        step_invariant(apply(s, st), d),
{
    if phase is LegacyGroupRename {
        lemma_renamed_has_no_legacy(s.groups->0);
    }
}

/// A run that starts in the invariant and ends without error leaves the
/// store migrated.
proof fn lemma_invariant_run<E>(
    s: StoreModel,
    c: Command<E>,
    fin: StoreModel,
    r: Result<(), StepError<E>>,
    fuel: nat,
)
    requires
        step_invariant(s, c),
        runs(s, c, fin, r, fuel),
        r is Ok,
    ensures
        is_migrated(fin),
    decreases fuel,
{
    match c {
        Command::Finish(_) => {},
        Command::Run(phase, st) => {
            let (o, d): (Outcome<E>, Command<E>) = choose|o: Outcome<E>, d: Command<E>|
                answers(s, st, o) && #[trigger] spec_next(phase, o, d) && runs(
                    apply(s, st),
                    d,
                    fin,
                    r,
                    (fuel - 1) as nat,
                );
            lemma_invariant_step(s, phase, st, o, d);
            lemma_invariant_run(apply(s, st), d, fin, r, (fuel - 1) as nat);
        },
    }
}

/// Whatever the store held, a step that ends without error leaves it
/// migrated: every table and added column present, no group under the legacy
/// name, and the version reader reporting the first version.
pub proof fn lemma_success_leaves_migrated<E>(
    s: StoreModel,
    fin: StoreModel,
    r: Result<(), StepError<E>>,
    fuel: nat,
)
    requires
        runs(s, first_command(), fin, r, fuel),
        r is Ok,
    ensures
        is_migrated(fin),
{
    lemma_invariant_run(s, first_command(), fin, r, fuel);
}

/// Running the step twice is running it once: whatever the store held, once
/// the step has ended without error, running it again ends without error and
/// changes no table, no column and no row, the single version record
/// included.
pub proof fn lemma_step_idempotent<E>(
    s: StoreModel,
    mid: StoreModel,
    r1: Result<(), StepError<E>>,
    fuel1: nat,
    fin: StoreModel,
    r2: Result<(), StepError<E>>,
    fuel2: nat,
)
    requires
        runs(s, first_command(), mid, r1, fuel1),
        r1 is Ok,
        runs(mid, first_command(), fin, r2, fuel2),
    ensures
        is_migrated(mid),
        r2 == Ok::<(), StepError<E>>(()),
        fin == (StoreModel { foreign_keys: true, ..mid }),
{
    lemma_invariant_run(s, first_command(), mid, r1, fuel1);
    lemma_rerun_changes_nothing(mid, fin, r2, fuel2);
}

/// The id and display name of each group, in order.
pub open spec fn group_names(groups: Seq<GroupRecord>) -> Seq<(i32, Seq<char>)> {
    groups.map_values(|g: GroupRecord| (g.group_id, g.display_name))
}

/// The ids and display names of the groups a store starts with; none when
/// it has no groups table.
pub open spec fn initial_group_names(groups: Option<Seq<GroupRecord>>) -> Seq<(i32, Seq<char>)> {
    match groups {
        Some(g) => group_names(g),
        None => Seq::empty(),
    }
}

/// The ids and display names with the legacy name replaced by the current
/// one.
pub open spec fn renamed_names(names: Seq<(i32, Seq<char>)>) -> Seq<(i32, Seq<char>)> {
    names.map_values(
        |p: (i32, Seq<char>)|
            if p.1 == legacy_group_name() {
                (p.0, current_group_name())
            } else {
                p
            },
    )
}

/// How the groups' ids and names relate to those the store started with:
/// unchanged until the rename, renamed from then on.
pub open spec fn rename_invariant<E>(s: StoreModel, c: Command<E>, g0: Option<Seq<GroupRecord>>) -> bool {
    let base = initial_group_names(g0);
    match c {
        Command::Finish(r) => r is Ok ==> group_names(s.groups->0) == renamed_names(base),
        Command::Run(phase, _) => match phase {
            Phase::ForeignKeys | Phase::UsersTable | Phase::GroupsTable => s.groups == g0,
            Phase::MetadataTable | Phase::VersionLookup | Phase::VersionInsert | Phase::VersionCheck =>
                group_names(s.groups->0) == renamed_names(base),
            _ => group_names(s.groups->0) == base,
        },
    }
}

proof fn lemma_names_renamed(groups: Seq<GroupRecord>)
    ensures
        group_names(renamed(groups)) == renamed_names(group_names(groups)),
        !has_legacy_group(groups) ==> renamed_names(group_names(groups)) == group_names(groups),
{
    assert(group_names(renamed(groups)) =~= renamed_names(group_names(groups)));
    if !has_legacy_group(groups) {
        assert forall|i: int| 0 <= i < groups.len() implies
            #[trigger] renamed_names(group_names(groups))[i] == group_names(groups)[i] by {
            assert(groups[i].display_name != legacy_group_name());
        }
        assert(renamed_names(group_names(groups)) =~= group_names(groups));
    }
}

/// One statement keeps the rename invariant, whatever the store answers.
proof fn lemma_rename_step<E>(
    s: StoreModel,
    phase: Phase,
    st: Statement,
    o: Outcome<E>,
    d: Command<E>,
    g0: Option<Seq<GroupRecord>>,
)
    requires
        step_invariant(s, Command::<E>::Run(phase, st)),
        rename_invariant(s, Command::<E>::Run(phase, st), g0),
        answers(s, st, o),
        spec_next(phase, o, d),
    ensures
        rename_invariant(apply(s, st), d, g0),
{
    let t = apply(s, st);
    if s.groups is Some {
        let g = s.groups->0;
        if t.groups is Some {
            if st is AddGroupsCreationDate || st is AddGroupsUuid || st is SetGroupUuid {
                assert(group_names(t.groups->0) =~= group_names(g));
            }
        }
        lemma_names_renamed(g);
    }
    if phase is GroupsTable {
        if g0 is None {
            assert(group_names(t.groups->0) =~= Seq::<(i32, Seq<char>)>::empty());
        }
    }
}

proof fn lemma_rename_run<E>(
    s: StoreModel,
    c: Command<E>,
    fin: StoreModel,
    r: Result<(), StepError<E>>,
    fuel: nat,
    g0: Option<Seq<GroupRecord>>,
)
    requires
        step_invariant(s, c),
        rename_invariant(s, c, g0),
        runs(s, c, fin, r, fuel),
        r is Ok,
    ensures
        group_names(fin.groups->0) == renamed_names(initial_group_names(g0)),
    decreases fuel,
{
    match c {
        Command::Finish(_) => {},
        Command::Run(phase, st) => {
            let (o, d): (Outcome<E>, Command<E>) = choose|o: Outcome<E>, d: Command<E>|
                answers(s, st, o) && #[trigger] spec_next(phase, o, d) && runs(
                    apply(s, st),
                    d,
                    fin,
                    r,
                    (fuel - 1) as nat,
                );
            lemma_invariant_step(s, phase, st, o, d);
            lemma_rename_step(s, phase, st, o, d, g0);
            lemma_rename_run(apply(s, st), d, fin, r, (fuel - 1) as nat, g0);
        },
    }
}

/// Whatever the store held, a step that ends without error leaves the
/// groups it started with, in order and with their ids, under their names,
/// except that a group under the legacy name now has the current name; a
/// store without such a group keeps every group's name. A store without a
/// groups table ends with none.
pub proof fn lemma_rename_on_migrate<E>(
    s: StoreModel,
    fin: StoreModel,
    r: Result<(), StepError<E>>,
    fuel: nat,
)
    requires
        runs(s, first_command(), fin, r, fuel),
        r is Ok,
    ensures
        group_names(fin.groups->0) == renamed_names(initial_group_names(s.groups)),
        s.groups is Some && !has_legacy_group(s.groups->0) ==> group_names(fin.groups->0)
            == group_names(s.groups->0),
{
    lemma_rename_run(s, first_command(), fin, r, fuel, s.groups);
    if s.groups is Some {
        lemma_names_renamed(s.groups->0);
    }
}

/// Whether no two groups share an id, as the groups' primary key ensures.
pub open spec fn group_ids_unique(groups: Seq<GroupRecord>) -> bool {
    forall|i: int, j: int|
        0 <= i < groups.len() && 0 <= j < groups.len() && i != j ==> #[trigger] groups[i].group_id
            != #[trigger] groups[j].group_id
}

/// Whether the group at `i` has the identifier derived from its display name
/// and creation date.
pub open spec fn group_backfilled(groups: Seq<GroupRecord>, i: int) -> bool {
    groups[i].uuid == spec_from_name_and_date(groups[i].display_name, groups[i].creation_date)
}

/// What holds of the groups along a run from a store whose groups predate
/// the identifier column and include none under the legacy name.
pub open spec fn backfill_invariant<E>(s: StoreModel, c: Command<E>) -> bool {
    let g = s.groups->0;
    let base = s.groups is Some && group_ids_unique(g) && !has_legacy_group(g);
    let all = forall|j: int| 0 <= j < g.len() ==> #[trigger] group_backfilled(g, j);
    match c {
        Command::Finish(r) => r is Ok ==> base && all,
        Command::Run(phase, st) => match phase {
            Phase::ForeignKeys | Phase::UsersTable | Phase::GroupsTable | Phase::GroupsCreationDate
            | Phase::GroupsUuid => base && !s.groups_have_uuid,
            Phase::GroupRows => base,
            Phase::GroupBackfill { groups: rows, index } => {
                &&& base
                &&& reads_groups(rows@, g)
                &&& index < rows.len()
                &&& st matches Statement::SetGroupUuid { group_id, uuid } && group_id
                    == g[index as int].group_id && uuid@ == spec_from_name_and_date(
                    g[index as int].display_name,
                    g[index as int].creation_date,
                )
                &&& forall|j: int| 0 <= j < index ==> #[trigger] group_backfilled(g, j)
            },
            Phase::LegacyGroupRename => false,
            _ => base && all,
        },
    }
}

/// The update keyed by a group's id writes the identifier of that group
/// only.
proof fn lemma_set_group_uuid(s: StoreModel, group_id: i32, uuid: crate::identifier::Uuid, k: int)
    requires
        s.groups is Some,
        group_ids_unique(s.groups->0),
        0 <= k < s.groups->0.len(),
        s.groups->0[k].group_id == group_id,
    ensures
        ({
            let t = apply(s, Statement::SetGroupUuid { group_id, uuid });
            let g = s.groups->0;
            let h = t.groups->0;
            &&& h.len() == g.len()
            &&& h[k].uuid == uuid@
            &&& forall|j: int| 0 <= j < g.len() ==> {
                &&& #[trigger] h[j].group_id == g[j].group_id
                &&& h[j].display_name == g[j].display_name
                &&& h[j].creation_date == g[j].creation_date
                &&& (j != k ==> h[j].uuid == g[j].uuid)
            }
        }),
{
}

/// A change that keeps every group's id and display name keeps the ids
/// unique and the legacy name absent.
proof fn lemma_same_names_keep_base(g: Seq<GroupRecord>, h: Seq<GroupRecord>)
    requires
        h.len() == g.len(),
        forall|j: int| 0 <= j < g.len() ==> #[trigger] h[j].group_id == g[j].group_id
            && h[j].display_name == g[j].display_name,
        group_ids_unique(g),
        !has_legacy_group(g),
    ensures
        group_ids_unique(h),
        !has_legacy_group(h),
{
    assert forall|i: int, j: int|
        0 <= i < h.len() && 0 <= j < h.len() && i != j implies #[trigger] h[i].group_id
        != #[trigger] h[j].group_id by {
        assert(g[i].group_id != g[j].group_id);
    }
    assert forall|i: int| 0 <= i < h.len() implies #[trigger] h[i].display_name != legacy_group_name() by {
        assert(h[i].group_id == g[i].group_id);
        assert(g[i].display_name != legacy_group_name());
    }
}

/// One statement keeps the backfill invariant, whatever the store answers.
proof fn lemma_backfill_step<E>(s: StoreModel, phase: Phase, st: Statement, o: Outcome<E>, d: Command<E>)
    requires
        step_invariant(s, Command::<E>::Run(phase, st)),
        backfill_invariant(s, Command::<E>::Run(phase, st)),
        answers(s, st, o),
        spec_next(phase, o, d),
    ensures
        backfill_invariant(apply(s, st), d),
{
    let g = s.groups->0;
    let t = apply(s, st);
    let h = t.groups->0;
    match phase {
        Phase::GroupsCreationDate => {
            lemma_same_names_keep_base(g, h);
        },
        Phase::GroupsUuid => {
            lemma_same_names_keep_base(g, h);
        },
        Phase::GroupRows => {
            if let Outcome::Groups(v) = o {
                if 0 < v@.len() {
                    assert(v@[0].group_id == g[0].group_id);
                    assert(v@[0].display_name@ == g[0].display_name);
                }
            }
        },
        Phase::GroupBackfill { groups: rows, index } => {
            if let Statement::SetGroupUuid { group_id, uuid } = st {
                lemma_set_group_uuid(s, group_id, uuid, index as int);
                lemma_same_names_keep_base(g, h);
                assert(reads_groups(rows@, h));
                assert forall|j: int| 0 <= j <= index implies #[trigger] group_backfilled(h, j) by {
                    if j < index {
                        assert(group_backfilled(g, j));
                    }
                }
                if index + 1 < rows.len() {
                    let k = index + 1;
                    assert(rows@[k as int].group_id == h[k as int].group_id);
                    assert(rows@[k as int].display_name@ == h[k as int].display_name);
                }
            }
        },
        _ => {},
    }
}

proof fn lemma_backfill_run<E>(
    s: StoreModel,
    c: Command<E>,
    fin: StoreModel,
    r: Result<(), StepError<E>>,
    fuel: nat,
)
    requires
        step_invariant(s, c),
        backfill_invariant(s, c),
        runs(s, c, fin, r, fuel),
        r is Ok,
    ensures
        forall|j: int| 0 <= j < fin.groups->0.len() ==> #[trigger] group_backfilled(fin.groups->0, j),
    decreases fuel,
{
    match c {
        Command::Finish(_) => {},
        Command::Run(phase, st) => {
            let (o, d): (Outcome<E>, Command<E>) = choose|o: Outcome<E>, d: Command<E>|
                answers(s, st, o) && #[trigger] spec_next(phase, o, d) && runs(
                    apply(s, st),
                    d,
                    fin,
                    r,
                    (fuel - 1) as nat,
                );
            lemma_invariant_step(s, phase, st, o, d);
            lemma_backfill_step(s, phase, st, o, d);
            lemma_backfill_run(apply(s, st), d, fin, r, (fuel - 1) as nat);
        },
    }
}

/// Backfill determinism: from a store whose groups predate the identifier
/// column, a step that ends without error leaves every group with the
/// identifier derived from its display name and creation date. The store
/// must hold no group under the legacy name: that group is renamed after the
/// backfill and keeps the identifier of its former name.
pub proof fn lemma_groups_backfilled<E>(
    s: StoreModel,
    fin: StoreModel,
    r: Result<(), StepError<E>>,
    fuel: nat,
)
    requires
        s.groups is Some,
        !s.groups_have_uuid,
        group_ids_unique(s.groups->0),
        !has_legacy_group(s.groups->0),
        runs(s, first_command(), fin, r, fuel),
        r is Ok,
    ensures
        forall|j: int| 0 <= j < fin.groups->0.len() ==> #[trigger] fin.groups->0[j].uuid
            == spec_from_name_and_date(fin.groups->0[j].display_name, fin.groups->0[j].creation_date),
{
    lemma_backfill_run(s, first_command(), fin, r, fuel);
    assert forall|j: int| 0 <= j < fin.groups->0.len() implies #[trigger] fin.groups->0[j].uuid
        == spec_from_name_and_date(fin.groups->0[j].display_name, fin.groups->0[j].creation_date) by {
        assert(group_backfilled(fin.groups->0, j));
    }
}

/// Whether no two users share an id, as the users' primary key ensures.
pub open spec fn user_ids_unique(users: Seq<UserRecord>) -> bool {
    forall|i: int, j: int|
        0 <= i < users.len() && 0 <= j < users.len() && i != j ==> #[trigger] users[i].user_id
            != #[trigger] users[j].user_id
}

/// Whether the user at `i` has the identifier derived from its id and
/// creation date.
pub open spec fn user_backfilled(users: Seq<UserRecord>, i: int) -> bool {
    users[i].uuid == spec_from_name_and_date(users[i].user_id, users[i].creation_date)
}

/// What holds of the users along a run from a store whose users predate
/// the identifier column.
pub open spec fn user_backfill_invariant<E>(s: StoreModel, c: Command<E>) -> bool {
    let u = s.users->0;
    let base = s.users is Some && user_ids_unique(u);
    let all = forall|j: int| 0 <= j < u.len() ==> #[trigger] user_backfilled(u, j);
    match c {
        Command::Finish(r) => r is Ok ==> base && all,
        Command::Run(phase, st) => match phase {
            Phase::ForeignKeys | Phase::UsersTable | Phase::GroupsTable | Phase::GroupsCreationDate
            | Phase::GroupsUuid | Phase::GroupRows | Phase::GroupBackfill { .. } | Phase::UsersUuid =>
                base && !s.users_have_uuid,
            Phase::UserRows => base,
            Phase::UserBackfill { users: rows, index } => {
                &&& base
                &&& reads_users(rows@, u)
                &&& index < rows.len()
                &&& st matches Statement::SetUserUuid { user_id, uuid } && user_id@
                    == u[index as int].user_id && uuid@ == spec_from_name_and_date(
                    u[index as int].user_id,
                    u[index as int].creation_date,
                )
                &&& forall|j: int| 0 <= j < index ==> #[trigger] user_backfilled(u, j)
            },
            _ => base && all,
        },
    }
}

/// One statement keeps the users' backfill invariant, whatever the store
/// answers.
proof fn lemma_user_backfill_step<E>(s: StoreModel, phase: Phase, st: Statement, o: Outcome<E>, d: Command<E>)
    requires
        step_invariant(s, Command::<E>::Run(phase, st)),
        user_backfill_invariant(s, Command::<E>::Run(phase, st)),
        answers(s, st, o),
        spec_next(phase, o, d),
    ensures
        user_backfill_invariant(apply(s, st), d),
{
    let u = s.users->0;
    let t = apply(s, st);
    let h = t.users->0;
    match phase {
        Phase::UsersUuid => {
            assert forall|i: int, j: int|
                0 <= i < h.len() && 0 <= j < h.len() && i != j implies #[trigger] h[i].user_id
                != #[trigger] h[j].user_id by {
                assert(u[i].user_id != u[j].user_id);
            }
        },
        Phase::UserRows => {
            if let Outcome::Users(v) = o {
                if 0 < v@.len() {
                    assert(v@[0].user_id@ == u[0].user_id);
                }
            }
        },
        Phase::UserBackfill { users: rows, index } => {
            if let Statement::SetUserUuid { user_id, uuid } = st {
                assert(h.len() == u.len());
                assert forall|j: int| 0 <= j < u.len() implies #[trigger] h[j].user_id == u[j].user_id
                    && h[j].creation_date == u[j].creation_date
                    && (u[j].user_id != user_id@ ==> h[j].uuid == u[j].uuid)
                    && (u[j].user_id == user_id@ ==> h[j].uuid == uuid@) by {
                }
                assert forall|i: int, j: int|
                    0 <= i < h.len() && 0 <= j < h.len() && i != j implies #[trigger] h[i].user_id
                    != #[trigger] h[j].user_id by {
                    assert(u[i].user_id != u[j].user_id);
                }
                assert(reads_users(rows@, h));
                assert forall|j: int| 0 <= j <= index implies #[trigger] user_backfilled(h, j) by {
                    assert(h[j].user_id == u[j].user_id);
                    if j < index {
                        assert(user_backfilled(u, j));
                        assert(u[j].user_id != u[index as int].user_id);
                    }
                }
                if index + 1 < rows.len() {
                    let k = index + 1;
                    assert(rows@[k as int].user_id@ == h[k as int].user_id);
                }
            }
        },
        _ => {},
    }
}

proof fn lemma_user_backfill_run<E>(
    s: StoreModel,
    c: Command<E>,
    fin: StoreModel,
    r: Result<(), StepError<E>>,
    fuel: nat,
)
    requires
        step_invariant(s, c),
        user_backfill_invariant(s, c),
        runs(s, c, fin, r, fuel),
        r is Ok,
    ensures
        forall|j: int| 0 <= j < fin.users->0.len() ==> #[trigger] user_backfilled(fin.users->0, j),
    decreases fuel,
{
    match c {
        Command::Finish(_) => {},
        Command::Run(phase, st) => {
            let (o, d): (Outcome<E>, Command<E>) = choose|o: Outcome<E>, d: Command<E>|
                answers(s, st, o) && #[trigger] spec_next(phase, o, d) && runs(
                    apply(s, st),
                    d,
                    fin,
                    r,
                    (fuel - 1) as nat,
                );
            lemma_invariant_step(s, phase, st, o, d);
            lemma_user_backfill_step(s, phase, st, o, d);
            lemma_user_backfill_run(apply(s, st), d, fin, r, (fuel - 1) as nat);
        },
    }
}

/// Backfill determinism for users: from a store whose users predate the
/// identifier column, a step that ends without error leaves every user with
/// the identifier derived from its id and creation date.
pub proof fn lemma_users_backfilled<E>(
    s: StoreModel,
    fin: StoreModel,
    r: Result<(), StepError<E>>,
    fuel: nat,
)
    requires
        s.users is Some,
        !s.users_have_uuid,
        user_ids_unique(s.users->0),
        runs(s, first_command(), fin, r, fuel),
        r is Ok,
    ensures
        forall|j: int| 0 <= j < fin.users->0.len() ==> #[trigger] fin.users->0[j].uuid
            == spec_from_name_and_date(fin.users->0[j].user_id, fin.users->0[j].creation_date),
{
    lemma_user_backfill_run(s, first_command(), fin, r, fuel);
    assert forall|j: int| 0 <= j < fin.users->0.len() implies #[trigger] fin.users->0[j].uuid
        == spec_from_name_and_date(fin.users->0[j].user_id, fin.users->0[j].creation_date) by {
        assert(user_backfilled(fin.users->0, j));
    }
}

} // verus!
