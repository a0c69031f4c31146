use vstd::prelude::*;

use crate::identifier::{spec_from_name_and_date, Timestamp, Uuid};
use crate::schema::SchemaVersion;

verus! {

/// The display name that the built-in password-manager group had before it
/// was renamed.
pub open spec fn legacy_group_name() -> Seq<char> {
    "lldap_readonly"@
}

/// The current display name of the built-in password-manager group.
pub open spec fn current_group_name() -> Seq<char> {
    "lldap_password_manager"@
}

/// The legacy display name, as the rename statement matches it.
pub fn legacy_group_display_name() -> (r: &'static str)
    ensures
        r@ == legacy_group_name(),
{
    "lldap_readonly"
}

/// The current display name, as the rename statement writes it.
pub fn current_group_display_name() -> (r: &'static str)
    ensures
        r@ == current_group_name(),
{
    "lldap_password_manager"
}

/// The version that the step from an unversioned store records.
pub const FIRST_VERSION: u8 = 1;

/// A group as read for the identifier backfill.
#[derive(Clone, Debug, PartialEq, Eq)]
pub struct GroupRow {
    pub group_id: i32,
    pub display_name: String,
    pub creation_date: Timestamp,
}

/// A user as read for the identifier backfill.
#[derive(Clone, Debug, PartialEq, Eq)]
pub struct UserRow {
    pub user_id: String,
    pub creation_date: Timestamp,
}

/// A statement that the step asks the store to run.
#[derive(Clone, Debug, PartialEq, Eq)]
pub enum Statement {
    /// Ask for foreign-key enforcement on the connection.
    EnableForeignKeys,
    /// Create the users table with all its columns, if it is absent.
    CreateUsers,
    /// Create the groups table with all its columns, if it is absent.
    CreateGroups,
    /// Add the creation date to the groups table, defaulting to now.
    AddGroupsCreationDate,
    /// Add the identifier to the groups table, defaulting to empty.
    AddGroupsUuid,
    /// Read the id, name and creation date of every group.
    SelectGroups,
    /// Set the identifier of the group with this id.
    SetGroupUuid { group_id: i32, uuid: Uuid },
    /// Add the identifier to the users table, defaulting to empty.
    AddUsersUuid,
    /// Read the id and creation date of every user.
    SelectUsers,
    /// Set the identifier of the user with this id.
    SetUserUuid { user_id: String, uuid: Uuid },
    /// Create the memberships table with its cascading foreign keys, if it
    /// is absent.
    CreateMemberships,
    /// Ask whether a group has the legacy display name.
    FindLegacyGroup,
    /// Give the group with the legacy display name its current name.
    RenameLegacyGroup,
    /// Create the metadata table, if it is absent.
    CreateMetadata,
    /// Insert a metadata row that records this version; the step asks for
    /// it only when no version is recorded.
    InsertVersion(SchemaVersion),
    /// Read the recorded version.
    ReadVersion,
}

/// What the store answered to a statement; `E` is the store's failure.
#[derive(Clone, Debug, PartialEq, Eq)]
pub enum Outcome<E> {
    /// The statement ran and returned no rows.
    Done,
    /// The statement failed.
    Failed(E),
    /// The rows of the groups.
    Groups(Vec<GroupRow>),
    /// The rows of the users.
    Users(Vec<UserRow>),
    /// Whether a row was found.
    Exists(bool),
    /// The recorded version, or none.
    Version(Option<SchemaVersion>),
}

/// Why the step stopped.
#[derive(Clone, Debug, PartialEq, Eq)]
pub enum StepError<E> {
    /// A statement that must succeed failed; the failure is handed on as is.
    Store(E),
    /// The store answered with an outcome that does not fit the statement.
    UnexpectedOutcome,
    /// A row's creation date lies outside the range that can be rendered.
    DateOutOfRange,
    /// After the step the store does not report the version it recorded.
    /// This is a defect, not a condition the caller can recover from.
    VersionNotRecorded(Option<SchemaVersion>),
}

/// The statement whose outcome the step waits for.
#[derive(Clone, Debug, PartialEq, Eq)]
pub enum Phase {
    ForeignKeys,
    UsersTable,
    GroupsTable,
    GroupsCreationDate,
    GroupsUuid,
    GroupRows,
    GroupBackfill { groups: Vec<GroupRow>, index: usize },
    UsersUuid,
    UserRows,
    UserBackfill { users: Vec<UserRow>, index: usize },
    MembershipsTable,
    LegacyGroupLookup,
    LegacyGroupRename,
    MetadataTable,
    VersionLookup,
    VersionInsert,
    VersionCheck,
}

/// What to do next: run a statement and wait in a phase, or stop.
#[derive(Debug, PartialEq, Eq)]
pub enum Command<E> {
    Run(Phase, Statement),
    Finish(Result<(), StepError<E>>),
}

/// A statement that must succeed: on success the step goes on with `then`,
/// on failure it stops with the store's failure.
pub open spec fn required<E>(outcome: Outcome<E>, c: Command<E>, then: Command<E>) -> bool {
    match outcome {
        Outcome::Done => c == then,
        Outcome::Failed(e) => c == Command::<E>::Finish(Err(StepError::Store(e))),
        _ => c == Command::<E>::Finish(Err(StepError::UnexpectedOutcome)),
    }
}

/// An added column: when the column was added the step goes on with
/// `added`; when adding it failed the column was already there and the step
/// goes on with `present`.
pub open spec fn add_column<E>(
    outcome: Outcome<E>,
    c: Command<E>,
    added: Command<E>,
    present: Command<E>,
) -> bool {
    match outcome {
        Outcome::Done => c == added,
        Outcome::Failed(_) => c == present,
        _ => c == Command::<E>::Finish(Err(StepError::UnexpectedOutcome)),
    }
}

/// The command that backfills the groups of the snapshot `rows` from
/// `index` on: the identifier of the group at `index`, computed from its
/// display name and creation date and keyed by its id; past the last group,
/// the identifier column of the users.
pub open spec fn is_group_backfill_from<E>(rows: Seq<GroupRow>, index: int, c: Command<E>) -> bool {
    if index < rows.len() {
        let row = rows[index];
        if row.creation_date.wf() {
            match c {
                Command::Run(Phase::GroupBackfill { groups: r, index: i }, Statement::SetGroupUuid { group_id, uuid }) =>
                    r@ == rows && i == index && group_id == row.group_id
                        && uuid@ == spec_from_name_and_date(row.display_name@, row.creation_date),
                _ => false,
            }
        } else {
            c == Command::<E>::Finish(Err(StepError::DateOutOfRange))
        }
    } else {
        c == Command::<E>::Run(Phase::UsersUuid, Statement::AddUsersUuid)
    }
}

/// The command that backfills the users of the snapshot `rows` from `index`
/// on: the identifier of the user at `index`, computed from its id and
/// creation date and keyed by its id; past the last user, the memberships
/// table.
pub open spec fn is_user_backfill_from<E>(rows: Seq<UserRow>, index: int, c: Command<E>) -> bool {
    if index < rows.len() {
        let row = rows[index];
        if row.creation_date.wf() {
            match c {
                Command::Run(Phase::UserBackfill { users: r, index: i }, Statement::SetUserUuid { user_id, uuid }) =>
                    r@ == rows && i == index && user_id@ == row.user_id@
                        && uuid@ == spec_from_name_and_date(row.user_id@, row.creation_date),
                _ => false,
            }
        } else {
            c == Command::<E>::Finish(Err(StepError::DateOutOfRange))
        }
    } else {
        c == Command::<E>::Run(Phase::MembershipsTable, Statement::CreateMemberships)
    }
}

/// The step's decision: after the statement of `phase` answered `outcome`,
/// the step does `c`.
pub open spec fn spec_next<E>(phase: Phase, outcome: Outcome<E>, c: Command<E>) -> bool {
    match phase {
        Phase::ForeignKeys => c == Command::<E>::Run(Phase::UsersTable, Statement::CreateUsers),
        Phase::UsersTable => required(outcome, c, Command::Run(Phase::GroupsTable, Statement::CreateGroups)),
        Phase::GroupsTable => required(
            outcome,
            c,
            Command::Run(Phase::GroupsCreationDate, Statement::AddGroupsCreationDate),
        ),
        Phase::GroupsCreationDate => add_column(
            outcome,
            c,
            Command::Run(Phase::GroupsUuid, Statement::AddGroupsUuid),
            Command::Run(Phase::GroupsUuid, Statement::AddGroupsUuid),
        ),
        Phase::GroupsUuid => add_column(
            outcome,
            c,
            Command::Run(Phase::GroupRows, Statement::SelectGroups),
            Command::Run(Phase::UsersUuid, Statement::AddUsersUuid),
        ),
        Phase::GroupRows => match outcome {
            Outcome::Groups(rows) => is_group_backfill_from(rows@, 0, c),
            Outcome::Failed(e) => c == Command::<E>::Finish(Err(StepError::Store(e))),
            _ => c == Command::<E>::Finish(Err(StepError::UnexpectedOutcome)),
        },
        Phase::GroupBackfill { groups, index } => match outcome {
            Outcome::Done => is_group_backfill_from(groups@, index + 1, c),
            Outcome::Failed(e) => c == Command::<E>::Finish(Err(StepError::Store(e))),
            _ => c == Command::<E>::Finish(Err(StepError::UnexpectedOutcome)),
        },
        Phase::UsersUuid => add_column(
            outcome,
            c,
            Command::Run(Phase::UserRows, Statement::SelectUsers),
            Command::Run(Phase::MembershipsTable, Statement::CreateMemberships),
        ),
        Phase::UserRows => match outcome {
            Outcome::Users(rows) => is_user_backfill_from(rows@, 0, c),
            Outcome::Failed(e) => c == Command::<E>::Finish(Err(StepError::Store(e))),
            _ => c == Command::<E>::Finish(Err(StepError::UnexpectedOutcome)),
        },
        Phase::UserBackfill { users, index } => match outcome {
            Outcome::Done => is_user_backfill_from(users@, index + 1, c),
            Outcome::Failed(e) => c == Command::<E>::Finish(Err(StepError::Store(e))),
            _ => c == Command::<E>::Finish(Err(StepError::UnexpectedOutcome)),
        },
        Phase::MembershipsTable => required(
            outcome,
            c,
            Command::Run(Phase::LegacyGroupLookup, Statement::FindLegacyGroup),
        ),
        Phase::LegacyGroupLookup => match outcome {
            Outcome::Exists(true) => c == Command::<E>::Run(
                Phase::LegacyGroupRename,
                Statement::RenameLegacyGroup,
            ),
            Outcome::Exists(false) => c == Command::<E>::Run(Phase::MetadataTable, Statement::CreateMetadata),
            Outcome::Failed(e) => c == Command::<E>::Finish(Err(StepError::Store(e))),
            _ => c == Command::<E>::Finish(Err(StepError::UnexpectedOutcome)),
        },
        Phase::LegacyGroupRename => required(
            outcome,
            c,
            Command::Run(Phase::MetadataTable, Statement::CreateMetadata),
        ),
        Phase::MetadataTable => required(
            outcome,
            c,
            Command::Run(Phase::VersionLookup, Statement::ReadVersion),
        ),
        Phase::VersionLookup => match outcome {
            Outcome::Version(None) => c == Command::<E>::Run(
                Phase::VersionInsert,
                Statement::InsertVersion(SchemaVersion(FIRST_VERSION)),
            ),
            Outcome::Version(Some(v)) => if v.0 == FIRST_VERSION {
                c == Command::<E>::Finish(Ok(()))
            } else {
                c == Command::<E>::Finish(Err(StepError::VersionNotRecorded(Some(v))))
            },
            Outcome::Failed(e) => c == Command::<E>::Finish(Err(StepError::Store(e))),
            _ => c == Command::<E>::Finish(Err(StepError::UnexpectedOutcome)),
        },
        Phase::VersionInsert => required(
            outcome,
            c,
            Command::Run(Phase::VersionCheck, Statement::ReadVersion),
        ),
        Phase::VersionCheck => match outcome {
            Outcome::Version(Some(v)) => if v.0 == FIRST_VERSION {
                c == Command::<E>::Finish(Ok(()))
            } else {
                c == Command::<E>::Finish(Err(StepError::VersionNotRecorded(Some(v))))
            },
            _ => c == Command::<E>::Finish(Err(StepError::VersionNotRecorded(None))),
        },
    }
}

/// The first command of the step.
pub fn start<E>() -> (c: Command<E>)
    ensures
        c == Command::<E>::Run(Phase::ForeignKeys, Statement::EnableForeignKeys),
{
    Command::Run(Phase::ForeignKeys, Statement::EnableForeignKeys)
}

fn must_succeed<E>(outcome: Outcome<E>, then: Command<E>) -> (c: Command<E>)
    ensures
        required(outcome, c, then),
{
    match outcome {
        Outcome::Done => then,
        Outcome::Failed(e) => Command::Finish(Err(StepError::Store(e))),
        _ => Command::Finish(Err(StepError::UnexpectedOutcome)),
    }
}

fn added_column<E>(outcome: Outcome<E>, added: Command<E>, present: Command<E>) -> (c: Command<E>)
    ensures
        add_column(outcome, c, added, present),
{
    match outcome {
        Outcome::Done => added,
        Outcome::Failed(_) => present,
        _ => Command::Finish(Err(StepError::UnexpectedOutcome)),
    }
}

fn group_backfill_from<E>(rows: Vec<GroupRow>, index: usize) -> (c: Command<E>)
    ensures
        is_group_backfill_from(rows@, index as int, c),
{
    if index < rows.len() {
        if rows[index].creation_date.in_range() {
            let uuid = Uuid::from_name_and_date(rows[index].display_name.as_str(), &rows[index].creation_date);
            let group_id = rows[index].group_id;
            Command::Run(Phase::GroupBackfill { groups: rows, index }, Statement::SetGroupUuid { group_id, uuid })
        } else {
            Command::Finish(Err(StepError::DateOutOfRange))
        }
    } else {
        Command::Run(Phase::UsersUuid, Statement::AddUsersUuid)
    }
}

fn user_backfill_from<E>(rows: Vec<UserRow>, index: usize) -> (c: Command<E>)
    ensures
        is_user_backfill_from(rows@, index as int, c),
{
    if index < rows.len() {
        if rows[index].creation_date.in_range() {
            let uuid = Uuid::from_name_and_date(rows[index].user_id.as_str(), &rows[index].creation_date);
            let user_id = rows[index].user_id.clone();
            Command::Run(Phase::UserBackfill { users: rows, index }, Statement::SetUserUuid { user_id, uuid })
        } else {
            Command::Finish(Err(StepError::DateOutOfRange))
        }
    } else {
        Command::Run(Phase::MembershipsTable, Statement::CreateMemberships)
    }
}

/// The step's decision after the statement of `phase` answered `outcome`.
pub fn next<E>(phase: Phase, outcome: Outcome<E>) -> (c: Command<E>)
    ensures
        spec_next(phase, outcome, c),
{
    match phase {
        Phase::ForeignKeys => Command::Run(Phase::UsersTable, Statement::CreateUsers),
        Phase::UsersTable => must_succeed(outcome, Command::Run(Phase::GroupsTable, Statement::CreateGroups)),
        Phase::GroupsTable => must_succeed(
            outcome,
            Command::Run(Phase::GroupsCreationDate, Statement::AddGroupsCreationDate),
        ),
        Phase::GroupsCreationDate => added_column(
            outcome,
            Command::Run(Phase::GroupsUuid, Statement::AddGroupsUuid),
            Command::Run(Phase::GroupsUuid, Statement::AddGroupsUuid),
        ),
        Phase::GroupsUuid => added_column(
            outcome,
            Command::Run(Phase::GroupRows, Statement::SelectGroups),
            Command::Run(Phase::UsersUuid, Statement::AddUsersUuid),
        ),
        Phase::GroupRows => match outcome {
            Outcome::Groups(rows) => group_backfill_from(rows, 0),
            Outcome::Failed(e) => Command::Finish(Err(StepError::Store(e))),
            _ => Command::Finish(Err(StepError::UnexpectedOutcome)),
        },
        Phase::GroupBackfill { groups, index } => match outcome {
            Outcome::Done => if index < groups.len() {
                group_backfill_from(groups, index + 1)
            } else {
                let len = groups.len();
                group_backfill_from(groups, len)
            },
            Outcome::Failed(e) => Command::Finish(Err(StepError::Store(e))),
            _ => Command::Finish(Err(StepError::UnexpectedOutcome)),
        },
        Phase::UsersUuid => added_column(
            outcome,
            Command::Run(Phase::UserRows, Statement::SelectUsers),
            Command::Run(Phase::MembershipsTable, Statement::CreateMemberships),
        ),
        Phase::UserRows => match outcome {
            Outcome::Users(rows) => user_backfill_from(rows, 0),
            Outcome::Failed(e) => Command::Finish(Err(StepError::Store(e))),
            _ => Command::Finish(Err(StepError::UnexpectedOutcome)),
        },
        Phase::UserBackfill { users, index } => match outcome {
            Outcome::Done => if index < users.len() {
                user_backfill_from(users, index + 1)
            } else {
                let len = users.len();
                user_backfill_from(users, len)
            },
            Outcome::Failed(e) => Command::Finish(Err(StepError::Store(e))),
            _ => Command::Finish(Err(StepError::UnexpectedOutcome)),
        },
        Phase::MembershipsTable => must_succeed(
            outcome,
            Command::Run(Phase::LegacyGroupLookup, Statement::FindLegacyGroup),
        ),
        Phase::LegacyGroupLookup => match outcome {
            Outcome::Exists(true) => Command::Run(Phase::LegacyGroupRename, Statement::RenameLegacyGroup),
            Outcome::Exists(false) => Command::Run(Phase::MetadataTable, Statement::CreateMetadata),
            Outcome::Failed(e) => Command::Finish(Err(StepError::Store(e))),
            _ => Command::Finish(Err(StepError::UnexpectedOutcome)),
        },
        Phase::LegacyGroupRename => must_succeed(
            outcome,
            Command::Run(Phase::MetadataTable, Statement::CreateMetadata),
        ),
        Phase::MetadataTable => must_succeed(
            outcome,
            Command::Run(Phase::VersionLookup, Statement::ReadVersion),
        ),
        Phase::VersionLookup => match outcome {
            Outcome::Version(None) => Command::Run(
                Phase::VersionInsert,
                Statement::InsertVersion(SchemaVersion(FIRST_VERSION)),
            ),
            Outcome::Version(Some(v)) => if v.0 == FIRST_VERSION {
                Command::Finish(Ok(()))
            } else {
                Command::Finish(Err(StepError::VersionNotRecorded(Some(v))))
            },
            Outcome::Failed(e) => Command::Finish(Err(StepError::Store(e))),
            _ => Command::Finish(Err(StepError::UnexpectedOutcome)),
        },
        Phase::VersionInsert => must_succeed(
            outcome,
            Command::Run(Phase::VersionCheck, Statement::ReadVersion),
        ),
        Phase::VersionCheck => match outcome {
            Outcome::Version(Some(v)) => if v.0 == FIRST_VERSION {
                Command::Finish(Ok(()))
            } else {
                Command::Finish(Err(StepError::VersionNotRecorded(Some(v))))
            },
            _ => Command::Finish(Err(StepError::VersionNotRecorded(None))),
        },
    }
}

} // verus!
