use vstd::prelude::*;

verus! {

/// A structural revision of the store; a store without one is at revision 0.
#[derive(Clone, Copy, Debug, PartialEq, Eq, Structural)]
pub struct SchemaVersion(pub u8);

/// The single row of the metadata table.
#[derive(Clone, Copy, Debug, PartialEq, Eq, Structural)]
pub struct JustSchemaVersion {
    pub version: SchemaVersion,
}

/// The users table and its columns.
#[derive(Clone, Copy, Debug, PartialEq, Eq, Structural)]
pub enum Users {
    Table,
    UserId,
    Email,
    DisplayName,
    FirstName,
    LastName,
    Avatar,
    CreationDate,
    PasswordHash,
    TotpSecret,
    MfaType,
    Uuid,
}

/// The groups table and its columns.
#[derive(Clone, Copy, Debug, PartialEq, Eq, Structural)]
pub enum Groups {
    Table,
    GroupId,
    DisplayName,
    CreationDate,
    Uuid,
}

/// The memberships table and its columns.
#[derive(Clone, Copy, Debug, PartialEq, Eq, Structural)]
pub enum Memberships {
    Table,
    UserId,
    GroupId,
}

/// The metadata table, which records the schema version.
#[derive(Clone, Copy, Debug, PartialEq, Eq, Structural)]
pub enum Metadata {
    Table,
    Version,
}

impl Users {
    /// The SQL identifier: the table's name, or the column's in snake case.
    pub open spec fn spec_name(self) -> Seq<char> {
        match self {
            Users::Table => "users"@,
            Users::UserId => "user_id"@,
            Users::Email => "email"@,
            Users::DisplayName => "display_name"@,
            Users::FirstName => "first_name"@,
            Users::LastName => "last_name"@,
            Users::Avatar => "avatar"@,
            Users::CreationDate => "creation_date"@,
            Users::PasswordHash => "password_hash"@,
            Users::TotpSecret => "totp_secret"@,
            Users::MfaType => "mfa_type"@,
            Users::Uuid => "uuid"@,
        }
    }

    pub fn name(&self) -> (r: &'static str)
        ensures
            r@ == self.spec_name(),
    {
        match self {
            Users::Table => "users",
            Users::UserId => "user_id",
            Users::Email => "email",
            Users::DisplayName => "display_name",
            Users::FirstName => "first_name",
            Users::LastName => "last_name",
            Users::Avatar => "avatar",
            Users::CreationDate => "creation_date",
            Users::PasswordHash => "password_hash",
            Users::TotpSecret => "totp_secret",
            Users::MfaType => "mfa_type",
            Users::Uuid => "uuid",
        }
    }
}

impl Groups {
    /// The SQL identifier: the table's name, or the column's in snake case.
    pub open spec fn spec_name(self) -> Seq<char> {
        match self {
            Groups::Table => "groups"@,
            Groups::GroupId => "group_id"@,
            Groups::DisplayName => "display_name"@,
            Groups::CreationDate => "creation_date"@,
            Groups::Uuid => "uuid"@,
        }
    }

    pub fn name(&self) -> (r: &'static str)
        ensures
            r@ == self.spec_name(),
    {
        match self {
            Groups::Table => "groups",
            Groups::GroupId => "group_id",
            Groups::DisplayName => "display_name",
            Groups::CreationDate => "creation_date",
            Groups::Uuid => "uuid",
        }
    }
}

impl Memberships {
    /// The SQL identifier: the table's name, or the column's in snake case.
    pub open spec fn spec_name(self) -> Seq<char> {
        match self {
            Memberships::Table => "memberships"@,
            Memberships::UserId => "user_id"@,
            Memberships::GroupId => "group_id"@,
        }
    }

    pub fn name(&self) -> (r: &'static str)
        ensures
            r@ == self.spec_name(),
    {
        match self {
            Memberships::Table => "memberships",
            Memberships::UserId => "user_id",
            Memberships::GroupId => "group_id",
        }
    }
}

impl Metadata {
    /// The SQL identifier: the table's name, or the column's in snake case.
    pub open spec fn spec_name(self) -> Seq<char> {
        match self {
            Metadata::Table => "metadata"@,
            Metadata::Version => "version"@,
        }
    }

    pub fn name(&self) -> (r: &'static str)
        ensures
            r@ == self.spec_name(),
    {
        match self {
            Metadata::Table => "metadata",
            Metadata::Version => "version",
        }
    }
}

/// The type of a column's values; a text column holds at most the given
/// number of characters.
#[derive(Clone, Copy, Debug, PartialEq, Eq, Structural)]
pub enum ColumnKind {
    Text(u32),
    Binary,
    DateTime,
    Integer,
    TinyInteger,
}

/// How a column is declared when its table is created.
#[derive(Clone, Copy, Debug, PartialEq, Eq, Structural)]
pub struct ColumnDef {
    pub kind: ColumnKind,
    pub not_null: bool,
    pub primary_key: bool,
    pub unique: bool,
}

impl Users {
    /// The declaration of a column; the table itself has none.
    pub open spec fn spec_column_def(self) -> Option<ColumnDef> {
        match self {
            Users::Table => None,
            Users::UserId => Some(ColumnDef { kind: ColumnKind::Text(255), not_null: true, primary_key: true, unique: false }),
            Users::Email => Some(ColumnDef { kind: ColumnKind::Text(255), not_null: true, primary_key: false, unique: false }),
            Users::DisplayName => Some(ColumnDef { kind: ColumnKind::Text(255), not_null: true, primary_key: false, unique: false }),
            Users::FirstName => Some(ColumnDef { kind: ColumnKind::Text(255), not_null: false, primary_key: false, unique: false }),
            Users::LastName => Some(ColumnDef { kind: ColumnKind::Text(255), not_null: false, primary_key: false, unique: false }),
            Users::Avatar => Some(ColumnDef { kind: ColumnKind::Binary, not_null: false, primary_key: false, unique: false }),
            Users::CreationDate => Some(ColumnDef { kind: ColumnKind::DateTime, not_null: true, primary_key: false, unique: false }),
            Users::PasswordHash => Some(ColumnDef { kind: ColumnKind::Binary, not_null: false, primary_key: false, unique: false }),
            Users::TotpSecret => Some(ColumnDef { kind: ColumnKind::Text(64), not_null: false, primary_key: false, unique: false }),
            Users::MfaType => Some(ColumnDef { kind: ColumnKind::Text(64), not_null: false, primary_key: false, unique: false }),
            Users::Uuid => Some(ColumnDef { kind: ColumnKind::Text(36), not_null: true, primary_key: false, unique: false }),
        }
    }

    pub fn column_def(&self) -> (r: Option<ColumnDef>)
        ensures
            r == self.spec_column_def(),
    {
        match self {
            Users::Table => None,
            Users::UserId => Some(ColumnDef { kind: ColumnKind::Text(255), not_null: true, primary_key: true, unique: false }),
            Users::Email => Some(ColumnDef { kind: ColumnKind::Text(255), not_null: true, primary_key: false, unique: false }),
            Users::DisplayName => Some(ColumnDef { kind: ColumnKind::Text(255), not_null: true, primary_key: false, unique: false }),
            Users::FirstName => Some(ColumnDef { kind: ColumnKind::Text(255), not_null: false, primary_key: false, unique: false }),
            Users::LastName => Some(ColumnDef { kind: ColumnKind::Text(255), not_null: false, primary_key: false, unique: false }),
            Users::Avatar => Some(ColumnDef { kind: ColumnKind::Binary, not_null: false, primary_key: false, unique: false }),
            Users::CreationDate => Some(ColumnDef { kind: ColumnKind::DateTime, not_null: true, primary_key: false, unique: false }),
            Users::PasswordHash => Some(ColumnDef { kind: ColumnKind::Binary, not_null: false, primary_key: false, unique: false }),
            Users::TotpSecret => Some(ColumnDef { kind: ColumnKind::Text(64), not_null: false, primary_key: false, unique: false }),
            Users::MfaType => Some(ColumnDef { kind: ColumnKind::Text(64), not_null: false, primary_key: false, unique: false }),
            Users::Uuid => Some(ColumnDef { kind: ColumnKind::Text(36), not_null: true, primary_key: false, unique: false }),
        }
    }

    /// The columns of the table, in the order in which it is created.
    pub open spec fn spec_columns() -> Seq<Users> {
        seq![Users::UserId, Users::Email, Users::DisplayName, Users::FirstName, Users::LastName, Users::Avatar, Users::CreationDate, Users::PasswordHash, Users::TotpSecret, Users::MfaType, Users::Uuid]
    }

    pub fn columns() -> (r: Vec<Users>)
        ensures
            r@ == Self::spec_columns(),
    {
        let mut v: Vec<Users> = Vec::new();
        v.push(Users::UserId);
        v.push(Users::Email);
        v.push(Users::DisplayName);
        v.push(Users::FirstName);
        v.push(Users::LastName);
        v.push(Users::Avatar);
        v.push(Users::CreationDate);
        v.push(Users::PasswordHash);
        v.push(Users::TotpSecret);
        v.push(Users::MfaType);
        v.push(Users::Uuid);
        assert(v@ =~= Self::spec_columns());
        v
    }
}

impl Groups {
    /// The declaration of a column; the table itself has none.
    pub open spec fn spec_column_def(self) -> Option<ColumnDef> {
        match self {
            Groups::Table => None,
            Groups::GroupId => Some(ColumnDef { kind: ColumnKind::Integer, not_null: true, primary_key: true, unique: false }),
            Groups::DisplayName => Some(ColumnDef { kind: ColumnKind::Text(255), not_null: true, primary_key: false, unique: true }),
            Groups::CreationDate => Some(ColumnDef { kind: ColumnKind::DateTime, not_null: true, primary_key: false, unique: false }),
            Groups::Uuid => Some(ColumnDef { kind: ColumnKind::Text(36), not_null: true, primary_key: false, unique: false }),
        }
    }

    pub fn column_def(&self) -> (r: Option<ColumnDef>)
        ensures
            r == self.spec_column_def(),
    {
        match self {
            Groups::Table => None,
            Groups::GroupId => Some(ColumnDef { kind: ColumnKind::Integer, not_null: true, primary_key: true, unique: false }),
            Groups::DisplayName => Some(ColumnDef { kind: ColumnKind::Text(255), not_null: true, primary_key: false, unique: true }),
            Groups::CreationDate => Some(ColumnDef { kind: ColumnKind::DateTime, not_null: true, primary_key: false, unique: false }),
            Groups::Uuid => Some(ColumnDef { kind: ColumnKind::Text(36), not_null: true, primary_key: false, unique: false }),
        }
    }

    /// The columns of the table, in the order in which it is created.
    pub open spec fn spec_columns() -> Seq<Groups> {
        seq![Groups::GroupId, Groups::DisplayName, Groups::CreationDate, Groups::Uuid]
    }

    pub fn columns() -> (r: Vec<Groups>)
        ensures
            r@ == Self::spec_columns(),
    {
        let mut v: Vec<Groups> = Vec::new();
        v.push(Groups::GroupId);
        v.push(Groups::DisplayName);
        v.push(Groups::CreationDate);
        v.push(Groups::Uuid);
        assert(v@ =~= Self::spec_columns());
        v
    }
}

impl Memberships {
    /// The declaration of a column; the table itself has none.
    pub open spec fn spec_column_def(self) -> Option<ColumnDef> {
        match self {
            Memberships::Table => None,
            Memberships::UserId => Some(ColumnDef { kind: ColumnKind::Text(255), not_null: true, primary_key: false, unique: false }),
            Memberships::GroupId => Some(ColumnDef { kind: ColumnKind::Integer, not_null: true, primary_key: false, unique: false }),
        }
    }

    pub fn column_def(&self) -> (r: Option<ColumnDef>)
        ensures
            r == self.spec_column_def(),
    {
        match self {
            Memberships::Table => None,
            Memberships::UserId => Some(ColumnDef { kind: ColumnKind::Text(255), not_null: true, primary_key: false, unique: false }),
            Memberships::GroupId => Some(ColumnDef { kind: ColumnKind::Integer, not_null: true, primary_key: false, unique: false }),
        }
    }

    /// The columns of the table, in the order in which it is created.
    pub open spec fn spec_columns() -> Seq<Memberships> {
        seq![Memberships::UserId, Memberships::GroupId]
    }

    pub fn columns() -> (r: Vec<Memberships>)
        ensures
            r@ == Self::spec_columns(),
    {
        let mut v: Vec<Memberships> = Vec::new();
        v.push(Memberships::UserId);
        v.push(Memberships::GroupId);
        assert(v@ =~= Self::spec_columns());
        v
    }
}

impl Metadata {
    /// The declaration of a column; the table itself has none.
    pub open spec fn spec_column_def(self) -> Option<ColumnDef> {
        match self {
            Metadata::Table => None,
            Metadata::Version => Some(ColumnDef { kind: ColumnKind::TinyInteger, not_null: false, primary_key: false, unique: false }),
        }
    }

    pub fn column_def(&self) -> (r: Option<ColumnDef>)
        ensures
            r == self.spec_column_def(),
    {
        match self {
            Metadata::Table => None,
            Metadata::Version => Some(ColumnDef { kind: ColumnKind::TinyInteger, not_null: false, primary_key: false, unique: false }),
        }
    }

    /// The columns of the table, in the order in which it is created.
    pub open spec fn spec_columns() -> Seq<Metadata> {
        seq![Metadata::Version]
    }

    pub fn columns() -> (r: Vec<Metadata>)
        ensures
            r@ == Self::spec_columns(),
    {
        let mut v: Vec<Metadata> = Vec::new();
        v.push(Metadata::Version);
        assert(v@ =~= Self::spec_columns());
        v
    }
}

/// What a foreign key does to the referencing rows when the referenced row
/// is deleted or its key updated.
#[derive(Clone, Copy, Debug, PartialEq, Eq, Structural)]
pub enum ReferentialAction {
    Cascade,
    Restrict,
    SetNull,
    NoAction,
}

/// The column that a membership's foreign key refers to.
#[derive(Clone, Copy, Debug, PartialEq, Eq, Structural)]
pub enum Referenced {
    UserId,
    GroupId,
}

/// A foreign key of the memberships table.
#[derive(Clone, Copy, Debug, PartialEq, Eq)]
pub struct ForeignKeyDef {
    pub name: &'static str,
    pub column: Memberships,
    pub references: Referenced,
    pub on_delete: ReferentialAction,
    pub on_update: ReferentialAction,
}

/// Whether `fk` is the constraint `name` from `column` to `references`,
/// cascading both deletes and updates.
pub open spec fn is_cascading_key(
    fk: ForeignKeyDef,
    name: Seq<char>,
    column: Memberships,
    references: Referenced,
) -> bool {
    &&& fk.name@ == name
    &&& fk.column == column
    &&& fk.references == references
    &&& fk.on_delete == ReferentialAction::Cascade
    &&& fk.on_update == ReferentialAction::Cascade
}

/// The foreign keys the step declares when it creates the memberships
/// table.
pub open spec fn membership_keys() -> Seq<ForeignKeyDef> {
    seq![
        ForeignKeyDef {
            name: "MembershipUserForeignKey",
            column: Memberships::UserId,
            references: Referenced::UserId,
            on_delete: ReferentialAction::Cascade,
            on_update: ReferentialAction::Cascade,
        },
        ForeignKeyDef {
            name: "MembershipGroupForeignKey",
            column: Memberships::GroupId,
            references: Referenced::GroupId,
            on_delete: ReferentialAction::Cascade,
            on_update: ReferentialAction::Cascade,
        },
    ]
}

/// Whether `keys` are the two cascading keys of the memberships table.
pub open spec fn membership_keys_declared(keys: Seq<ForeignKeyDef>) -> bool {
    &&& keys.len() == 2
    &&& is_cascading_key(keys[0], "MembershipUserForeignKey"@, Memberships::UserId, Referenced::UserId)
    &&& is_cascading_key(keys[1], "MembershipGroupForeignKey"@, Memberships::GroupId, Referenced::GroupId)
}

/// The foreign keys of the memberships table: a membership refers to its
/// user by id and to its group by id, and goes with either when that user or
/// group is deleted or renumbered.
pub fn memberships_foreign_keys() -> (r: Vec<ForeignKeyDef>)
    ensures
        r@.len() == 2,
        is_cascading_key(r@[0], "MembershipUserForeignKey"@, Memberships::UserId, Referenced::UserId),
        is_cascading_key(r@[1], "MembershipGroupForeignKey"@, Memberships::GroupId, Referenced::GroupId),
        membership_keys_declared(r@),
        r@ == membership_keys(),
{
    let mut r: Vec<ForeignKeyDef> = Vec::new();
    r.push(ForeignKeyDef {
        name: "MembershipUserForeignKey",
        column: Memberships::UserId,
        references: Referenced::UserId,
        on_delete: ReferentialAction::Cascade,
        on_update: ReferentialAction::Cascade,
    });
    r.push(ForeignKeyDef {
        name: "MembershipGroupForeignKey",
        column: Memberships::GroupId,
        references: Referenced::GroupId,
        on_delete: ReferentialAction::Cascade,
        on_update: ReferentialAction::Cascade,
    });
    r
}

} // verus!
