use lldap_migrations::identifier::{Timestamp, Uuid};
use lldap_migrations::migration::{
    next, start, Command, GroupRow, Outcome, Phase, Statement, StepError, UserRow,
};
use lldap_migrations::orchestrator::{
    migrate_from_version, next_step, schema_version_from_query, MigrationError,
};
use lldap_migrations::schema::{JustSchemaVersion, SchemaVersion};

type GroupRecord = (i32, String, Timestamp, Option<String>);
type UserRecord = (String, Timestamp, Option<String>);

/// An in-memory store that answers the step's statements as a SQL store
/// would; a column that is absent holds `None`.
#[derive(Clone, Debug, PartialEq, Default)]
struct FakeStore {
    foreign_keys: bool,
    users: Option<Vec<UserRecord>>,
    users_have_uuid: bool,
    groups: Option<Vec<GroupRecord>>,
    groups_have_date: bool,
    groups_have_uuid: bool,
    memberships: Option<Vec<(String, i32)>>,
    metadata: Option<Vec<u8>>,
}

const NOW: Timestamp = Timestamp { secs: 1_700_000_000, nanos: 0 };

fn duplicate() -> Outcome<String> {
    Outcome::Failed("duplicate column".to_string())
}

impl FakeStore {
    fn answer(&mut self, st: &Statement, log: &mut Vec<Statement>) -> Outcome<String> {
        log.push(st.clone());
        match st {
            Statement::EnableForeignKeys => {
                self.foreign_keys = true;
                Outcome::Done
            }
            Statement::CreateUsers => {
                if self.users.is_none() {
                    self.users = Some(vec![]);
                    self.users_have_uuid = true;
                }
                Outcome::Done
            }
            Statement::CreateGroups => {
                if self.groups.is_none() {
                    self.groups = Some(vec![]);
                    self.groups_have_date = true;
                    self.groups_have_uuid = true;
                }
                Outcome::Done
            }
            Statement::AddGroupsCreationDate => {
                if self.groups_have_date {
                    return duplicate();
                }
                self.groups_have_date = true;
                for g in self.groups.as_mut().unwrap() {
                    g.2 = NOW;
                }
                Outcome::Done
            }
            Statement::AddGroupsUuid => {
                if self.groups_have_uuid {
                    return duplicate();
                }
                self.groups_have_uuid = true;
                for g in self.groups.as_mut().unwrap() {
                    g.3 = Some(String::new());
                }
                Outcome::Done
            }
            Statement::SelectGroups => Outcome::Groups(
                self.groups
                    .as_ref()
                    .unwrap()
                    .iter()
                    .map(|g| GroupRow { group_id: g.0, display_name: g.1.clone(), creation_date: g.2 })
                    .collect(),
            ),
            Statement::SetGroupUuid { group_id, uuid } => {
                for g in self.groups.as_mut().unwrap() {
                    if g.0 == *group_id {
                        g.3 = Some(uuid.0.clone());
                    }
                }
                Outcome::Done
            }
            Statement::AddUsersUuid => {
                if self.users_have_uuid {
                    return duplicate();
                }
                self.users_have_uuid = true;
                for u in self.users.as_mut().unwrap() {
                    u.2 = Some(String::new());
                }
                Outcome::Done
            }
            Statement::SelectUsers => Outcome::Users(
                self.users
                    .as_ref()
                    .unwrap()
                    .iter()
                    .map(|u| UserRow { user_id: u.0.clone(), creation_date: u.1 })
                    .collect(),
            ),
            Statement::SetUserUuid { user_id, uuid } => {
                for u in self.users.as_mut().unwrap() {
                    if u.0 == *user_id {
                        u.2 = Some(uuid.0.clone());
                    }
                }
                Outcome::Done
            }
            Statement::CreateMemberships => {
                if self.memberships.is_none() {
                    self.memberships = Some(vec![]);
                }
                Outcome::Done
            }
            Statement::FindLegacyGroup => Outcome::Exists(
                self.groups.as_ref().unwrap().iter().any(|g| g.1 == "lldap_readonly"),
            ),
            Statement::RenameLegacyGroup => {
                for g in self.groups.as_mut().unwrap() {
                    if g.1 == "lldap_readonly" {
                        g.1 = "lldap_password_manager".to_string();
                    }
                }
                Outcome::Done
            }
            Statement::CreateMetadata => {
                if self.metadata.is_none() {
                    self.metadata = Some(vec![]);
                }
                Outcome::Done
            }
            Statement::InsertVersion(v) => {
                self.metadata.as_mut().unwrap().push(v.0);
                Outcome::Done
            }
            Statement::ReadVersion => Outcome::Version(self.read_version()),
        }
    }

    fn read_version(&self) -> Option<SchemaVersion> {
        self.metadata.as_ref().and_then(|m| m.first().map(|v| SchemaVersion(*v)))
    }

    /// A store written by a release from before the identifiers: no uuid
    /// columns, no creation date on groups, no metadata.
    fn pre_identifier(groups: Vec<(i32, &str)>, users: Vec<(&str, Timestamp)>) -> FakeStore {
        FakeStore {
            foreign_keys: false,
            users: Some(users.into_iter().map(|(id, d)| (id.to_string(), d, None)).collect()),
            users_have_uuid: false,
            groups: Some(
                groups
                    .into_iter()
                    .map(|(id, n)| (id, n.to_string(), Timestamp { secs: 0, nanos: 0 }, None))
                    .collect(),
            ),
            groups_have_date: false,
            groups_have_uuid: false,
            memberships: Some(vec![]),
            metadata: None,
        }
    }
}

fn run_step(store: &mut FakeStore, log: &mut Vec<Statement>) -> Result<(), StepError<String>> {
    let mut c: Command<String> = start();
    loop {
        match c {
            Command::Run(phase, st) => {
                let o = store.answer(&st, log);
                c = next(phase, o);
            }
            Command::Finish(r) => return r,
        }
    }
}

fn migrate(store: &mut FakeStore, target: u8, log: &mut Vec<Statement>) -> Result<(), MigrationError> {
    loop {
        match next_step(store.read_version(), SchemaVersion(target))? {
            None => return Ok(()),
            Some(v) => {
                assert_eq!(v, SchemaVersion(1));
                run_step(store, log).unwrap();
            }
        }
    }
}

fn expected_uuid(name: &str, date: Timestamp) -> String {
    let rendered = chrono::DateTime::<chrono::Utc>::from_timestamp(date.secs, date.nanos)
        .unwrap()
        .to_rfc3339();
    let bytes = [name.as_bytes(), rendered.as_bytes()].concat();
    uuid::Uuid::new_v3(&uuid::Uuid::NAMESPACE_X500, &bytes).to_string()
}

#[test]
fn fresh_store_gets_four_tables_and_version_one() {
    let mut store = FakeStore::default();
    let mut log = vec![];
    migrate(&mut store, 1, &mut log).unwrap();
    assert_eq!(store.users, Some(vec![]));
    assert_eq!(store.groups, Some(vec![]));
    assert_eq!(store.memberships, Some(vec![]));
    assert_eq!(store.metadata, Some(vec![1]));
    assert!(store.foreign_keys);
    assert!(!log.iter().any(|s| matches!(
        s,
        Statement::SetGroupUuid { .. } | Statement::SetUserUuid { .. } | Statement::RenameLegacyGroup
    )));
}

#[test]
fn migrating_twice_is_migrating_once() {
    let t = Timestamp { secs: 1_600_000_000, nanos: 0 };
    let mut once = FakeStore::pre_identifier(vec![(1, "engineering"), (2, "lldap_readonly")], vec![("bob", t)]);
    let mut log = vec![];
    migrate(&mut once, 1, &mut log).unwrap();
    let mut twice = once.clone();
    let mut log2 = vec![];
    migrate(&mut twice, 1, &mut log2).unwrap();
    assert_eq!(once, twice);
    assert!(log2.is_empty());
}

#[test]
fn step_run_again_changes_nothing() {
    let t = Timestamp { secs: 1_600_000_000, nanos: 0 };
    let mut once = FakeStore::pre_identifier(vec![(1, "lldap_readonly")], vec![("bob", t)]);
    let mut log = vec![];
    run_step(&mut once, &mut log).unwrap();
    assert_eq!(once.metadata, Some(vec![1]));
    let mut twice = once.clone();
    run_step(&mut twice, &mut log).unwrap();
    assert_eq!(twice, once);
    assert_eq!(twice.metadata, Some(vec![1]));
}

#[test]
fn backfill_derives_group_identifier_from_name_and_date() {
    let t = Timestamp { secs: 1_600_000_000, nanos: 0 };
    let mut store = FakeStore::pre_identifier(vec![(7, "engineering")], vec![]);
    store.groups_have_date = true;
    store.groups.as_mut().unwrap()[0].2 = t;
    let mut log = vec![];
    migrate(&mut store, 1, &mut log).unwrap();
    let uuid = store.groups.as_ref().unwrap()[0].3.clone().unwrap();
    assert_eq!(uuid, expected_uuid("engineering", t));
    assert_eq!(uuid.len(), 36);
    let replay = Uuid::from_name_and_date("engineering", &t);
    assert_eq!(replay.0, uuid);
    assert!(log.contains(&Statement::SetGroupUuid { group_id: 7, uuid: replay }));
}

#[test]
fn backfill_derives_user_identifier_from_id_and_date() {
    let t = Timestamp { secs: 1_234_567_890, nanos: 500 };
    let mut store = FakeStore::pre_identifier(vec![], vec![("alice", t)]);
    let mut log = vec![];
    migrate(&mut store, 1, &mut log).unwrap();
    let uuid = store.users.as_ref().unwrap()[0].2.clone().unwrap();
    assert_eq!(uuid, expected_uuid("alice", t));
    assert_ne!(uuid, expected_uuid("alice", Timestamp { secs: 1_234_567_891, nanos: 500 }));
}

#[test]
fn identifier_depends_on_name_and_date() {
    let t = Timestamp { secs: 0, nanos: 0 };
    let a = Uuid::from_name_and_date("engineering", &t);
    assert_eq!(a, Uuid::from_name_and_date("engineering", &t));
    assert_ne!(a, Uuid::from_name_and_date("engineerinG", &t));
    assert_ne!(a.0, "engineering");
    assert_eq!(a.0, expected_uuid("engineering", t));
}

#[test]
fn legacy_group_is_renamed() {
    let mut store = FakeStore::pre_identifier(vec![(1, "lldap_readonly"), (2, "admins")], vec![]);
    let mut log = vec![];
    migrate(&mut store, 1, &mut log).unwrap();
    let names: Vec<String> = store.groups.as_ref().unwrap().iter().map(|g| g.1.clone()).collect();
    assert_eq!(names, vec!["lldap_password_manager".to_string(), "admins".to_string()]);
}

#[test]
fn store_without_legacy_group_is_not_renamed() {
    let mut store = FakeStore::pre_identifier(vec![(1, "admins")], vec![]);
    let mut log = vec![];
    migrate(&mut store, 1, &mut log).unwrap();
    assert_eq!(store.groups.as_ref().unwrap()[0].1, "admins");
    assert!(!log.contains(&Statement::RenameLegacyGroup));
}

#[test]
fn downgrade_is_refused_without_statements() {
    let mut store = FakeStore::default();
    store.metadata = Some(vec![2]);
    let before = store.clone();
    let mut log = vec![];
    let r = migrate(&mut store, 1, &mut log);
    assert_eq!(
        r,
        Err(MigrationError::DowngradeNotSupported { current: SchemaVersion(2), target: SchemaVersion(1) })
    );
    assert!(log.is_empty());
    assert_eq!(store, before);
    assert_eq!(
        migrate_from_version(SchemaVersion(2)),
        Err(MigrationError::DowngradeNotSupported { current: SchemaVersion(2), target: SchemaVersion(1) })
    );
    assert_eq!(migrate_from_version(SchemaVersion(1)), Ok(None));
    assert_eq!(migrate_from_version(SchemaVersion(0)), Ok(Some(SchemaVersion(1))));
}

#[test]
fn same_version_is_a_no_op() {
    assert_eq!(next_step(Some(SchemaVersion(1)), SchemaVersion(1)), Ok(None));
    assert_eq!(next_step(None, SchemaVersion(0)), Ok(None));
    let mut store = FakeStore::default();
    store.metadata = Some(vec![1]);
    let before = store.clone();
    let mut log = vec![];
    migrate(&mut store, 1, &mut log).unwrap();
    assert!(log.is_empty());
    assert_eq!(store, before);
}

#[test]
fn unversioned_store_takes_the_first_step() {
    assert_eq!(next_step(None, SchemaVersion(1)), Ok(Some(SchemaVersion(1))));
    assert_eq!(next_step(Some(SchemaVersion(0)), SchemaVersion(1)), Ok(Some(SchemaVersion(1))));
    assert_eq!(next_step(Some(SchemaVersion(1)), SchemaVersion(2)), Err(MigrationError::NoStepTo(SchemaVersion(2))));
    assert_eq!(
        next_step(Some(SchemaVersion(3)), SchemaVersion(0)),
        Err(MigrationError::DowngradeNotSupported { current: SchemaVersion(3), target: SchemaVersion(0) })
    );
}

#[test]
fn version_reader_maps_missing_table_to_none() {
    let failed: Result<Option<JustSchemaVersion>, String> = Err("no such table: metadata".to_string());
    assert_eq!(schema_version_from_query(failed), None);
    let empty: Result<Option<JustSchemaVersion>, String> = Ok(None);
    assert_eq!(schema_version_from_query(empty), None);
    let row: Result<Option<JustSchemaVersion>, String> =
        Ok(Some(JustSchemaVersion { version: SchemaVersion(1) }));
    assert_eq!(schema_version_from_query(row), Some(SchemaVersion(1)));
}

#[test]
fn failed_table_creation_is_handed_on() {
    let c: Command<String> = next(Phase::UsersTable, Outcome::Failed("disk full".to_string()));
    assert_eq!(c, Command::Finish(Err(StepError::Store("disk full".to_string()))));
    let c: Command<String> = next(Phase::UsersTable, Outcome::Done);
    assert_eq!(c, Command::Run(Phase::GroupsTable, Statement::CreateGroups));
}

#[test]
fn unsupported_foreign_key_pragma_is_ignored() {
    let c: Command<String> = next(Phase::ForeignKeys, Outcome::Failed("syntax error".to_string()));
    assert_eq!(c, Command::Run(Phase::UsersTable, Statement::CreateUsers));
}

#[test]
fn existing_column_skips_backfill() {
    let c: Command<String> = next(Phase::GroupsUuid, Outcome::Failed("duplicate column".to_string()));
    assert_eq!(c, Command::Run(Phase::UsersUuid, Statement::AddUsersUuid));
    let c: Command<String> = next(Phase::UsersUuid, Outcome::Failed("duplicate column".to_string()));
    assert_eq!(c, Command::Run(Phase::MembershipsTable, Statement::CreateMemberships));
}

#[test]
fn mismatched_outcome_is_reported() {
    let c: Command<String> = next(Phase::GroupRows, Outcome::Done);
    assert_eq!(c, Command::Finish(Err(StepError::UnexpectedOutcome)));
}

#[test]
fn out_of_range_date_is_reported() {
    let rows = vec![GroupRow {
        group_id: 1,
        display_name: "g".to_string(),
        creation_date: Timestamp { secs: i64::MAX, nanos: 0 },
    }];
    let c: Command<String> = next(Phase::GroupRows, Outcome::Groups(rows));
    assert_eq!(c, Command::Finish(Err(StepError::DateOutOfRange)));
}

#[test]
fn version_not_recorded_is_a_defect() {
    let c: Command<String> = next(Phase::VersionCheck, Outcome::Version(Some(SchemaVersion(0))));
    assert_eq!(c, Command::Finish(Err(StepError::VersionNotRecorded(Some(SchemaVersion(0))))));
    let c: Command<String> = next(Phase::VersionCheck, Outcome::Version(None));
    assert_eq!(c, Command::Finish(Err(StepError::VersionNotRecorded(None))));
    let c: Command<String> = next(Phase::VersionCheck, Outcome::Version(Some(SchemaVersion(1))));
    assert_eq!(c, Command::Finish(Ok(())));
}

#[test]
fn failed_backfill_update_is_handed_on() {
    let rows = vec![UserRow { user_id: "u".to_string(), creation_date: NOW }];
    let c: Command<String> = next(
        Phase::UserBackfill { users: rows, index: 0 },
        Outcome::Failed("locked".to_string()),
    );
    assert_eq!(c, Command::Finish(Err(StepError::Store("locked".to_string()))));
}

#[test]
fn timestamp_range() {
    assert_eq!(Timestamp::new(0, 0), Some(Timestamp { secs: 0, nanos: 0 }));
    assert_eq!(Timestamp::new(0, 1_000_000_000), None);
    assert_eq!(Timestamp::new(-8_000_000_000_001, 0), None);
    assert!(Timestamp::new(8_000_000_000_000, 999_999_999).is_some());
}

#[test]
fn failed_legacy_lookup_is_handed_on() {
    let c: Command<String> = next(Phase::LegacyGroupLookup, Outcome::Failed("locked".to_string()));
    assert_eq!(c, Command::Finish(Err(StepError::Store("locked".to_string()))));
    let c: Command<String> = next(Phase::LegacyGroupLookup, Outcome::Exists(true));
    assert_eq!(c, Command::Run(Phase::LegacyGroupRename, Statement::RenameLegacyGroup));
    let c: Command<String> = next(Phase::LegacyGroupLookup, Outcome::Exists(false));
    assert_eq!(c, Command::Run(Phase::MetadataTable, Statement::CreateMetadata));
    let c: Command<String> = next(Phase::LegacyGroupLookup, Outcome::Done);
    assert_eq!(c, Command::Finish(Err(StepError::UnexpectedOutcome)));
}

#[test]
fn recorded_version_is_not_inserted_again() {
    let c: Command<String> = next(Phase::VersionLookup, Outcome::Version(Some(SchemaVersion(1))));
    assert_eq!(c, Command::Finish(Ok(())));
    let c: Command<String> = next(Phase::VersionLookup, Outcome::Version(None));
    assert_eq!(c, Command::Run(Phase::VersionInsert, Statement::InsertVersion(SchemaVersion(1))));
    let c: Command<String> = next(Phase::VersionLookup, Outcome::Failed("gone".to_string()));
    assert_eq!(c, Command::Finish(Err(StepError::Store("gone".to_string()))));
}
