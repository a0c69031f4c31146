use lldap_migrations::migration::{current_group_display_name, legacy_group_display_name};
use lldap_migrations::schema::{
    memberships_foreign_keys, ColumnDef, ColumnKind, Groups, Memberships, Metadata, Referenced,
    ReferentialAction, Users,
};

#[test]
fn table_and_column_names() {
    assert_eq!(Users::Table.name(), "users");
    assert_eq!(Users::TotpSecret.name(), "totp_secret");
    assert_eq!(Groups::Table.name(), "groups");
    assert_eq!(Groups::DisplayName.name(), "display_name");
    assert_eq!(Memberships::Table.name(), "memberships");
    assert_eq!(Memberships::GroupId.name(), "group_id");
    assert_eq!(Metadata::Table.name(), "metadata");
    assert_eq!(Metadata::Version.name(), "version");
}

#[test]
fn column_definitions() {
    assert_eq!(Users::Table.column_def(), None);
    assert_eq!(
        Users::UserId.column_def(),
        Some(ColumnDef { kind: ColumnKind::Text(255), not_null: true, primary_key: true, unique: false })
    );
    assert_eq!(
        Users::Uuid.column_def(),
        Some(ColumnDef { kind: ColumnKind::Text(36), not_null: true, primary_key: false, unique: false })
    );
    assert_eq!(
        Groups::DisplayName.column_def(),
        Some(ColumnDef { kind: ColumnKind::Text(255), not_null: true, primary_key: false, unique: true })
    );
    assert_eq!(
        Metadata::Version.column_def(),
        Some(ColumnDef { kind: ColumnKind::TinyInteger, not_null: false, primary_key: false, unique: false })
    );
    assert_eq!(Users::columns().len(), 11);
    assert_eq!(Groups::columns(), vec![Groups::GroupId, Groups::DisplayName, Groups::CreationDate, Groups::Uuid]);
    assert_eq!(Memberships::columns(), vec![Memberships::UserId, Memberships::GroupId]);
}

#[test]
fn memberships_cascade_to_users_and_groups() {
    let fks = memberships_foreign_keys();
    assert_eq!(fks.len(), 2);
    assert_eq!(fks[0].name, "MembershipUserForeignKey");
    assert_eq!(fks[0].column, Memberships::UserId);
    assert_eq!(fks[0].references, Referenced::UserId);
    assert_eq!(fks[1].column, Memberships::GroupId);
    assert_eq!(fks[1].references, Referenced::GroupId);
    for fk in &fks {
        assert_eq!(fk.on_delete, ReferentialAction::Cascade);
        assert_eq!(fk.on_update, ReferentialAction::Cascade);
    }
}

#[test]
fn built_in_group_names() {
    assert_eq!(legacy_group_display_name(), "lldap_readonly");
    assert_eq!(current_group_display_name(), "lldap_password_manager");
}
