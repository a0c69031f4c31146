use vstd::prelude::*;

use crate::migration::{Command, Outcome, Phase, StepError, spec_next, FIRST_VERSION};
use crate::schema::{JustSchemaVersion, SchemaVersion};

verus! {

/// The newest version that a step of this library reaches.
pub const LATEST_VERSION: u8 = 1;

/// Why the store cannot be brought to the version asked for.
#[derive(Clone, Copy, Debug, PartialEq, Eq, Structural)]
pub enum MigrationError {
    /// The store is newer than the version asked for; nothing was written.
    DowngradeNotSupported { current: SchemaVersion, target: SchemaVersion },
    /// No step of this library leads to this version.
    NoStepTo(SchemaVersion),
}

/// The version of a store, where a store without one counts as version 0.
pub open spec fn version_or_zero(current: Option<SchemaVersion>) -> int {
    match current {
        Some(v) => v.0 as int,
        None => 0,
    }
}

/// What the orchestrator decides: no step when the store is at the target,
/// the step to the next version when it is behind, a refusal when it is
/// ahead or when no step leads further.
pub open spec fn spec_next_step(
    current: Option<SchemaVersion>,
    target: SchemaVersion,
) -> Result<Option<SchemaVersion>, MigrationError> {
    let cur = version_or_zero(current);
    if cur > target.0 {
        Err(MigrationError::DowngradeNotSupported { current: SchemaVersion(cur as u8), target })
    } else if cur == target.0 {
        Ok(None)
    } else if cur + 1 <= LATEST_VERSION {
        Ok(Some(SchemaVersion((cur + 1) as u8)))
    } else {
        Err(MigrationError::NoStepTo(SchemaVersion((cur + 1) as u8)))
    }
}

/// The step to run next to bring a store at `current` to `target`, or
/// `None` when it is there already.
pub fn next_step(current: Option<SchemaVersion>, target: SchemaVersion) -> (r: Result<
    Option<SchemaVersion>,
    MigrationError,
>)
    ensures
        r == spec_next_step(current, target),
        version_or_zero(current) > target.0 <==> r matches Err(
            MigrationError::DowngradeNotSupported { .. },
        ),
        version_or_zero(current) == target.0 <==> r == Ok::<Option<SchemaVersion>, MigrationError>(
            None,
        ),
{
    let cur: u8 = match current {
        Some(v) => v.0,
        None => 0,
    };
    if cur > target.0 {
        Err(MigrationError::DowngradeNotSupported { current: SchemaVersion(cur), target })
    } else if cur == target.0 {
        Ok(None)
    } else if cur < LATEST_VERSION {
        Ok(Some(SchemaVersion(cur + 1)))
    } else {
        Err(MigrationError::NoStepTo(SchemaVersion(cur + 1)))
    }
}

/// The step to run next for a store recorded at `version`, toward the
/// latest version this library reaches: `None` when it is there, the step to
/// the next version when it is behind, a refusal when it is newer.
pub fn migrate_from_version(version: SchemaVersion) -> (r: Result<Option<SchemaVersion>, MigrationError>)
    ensures
        r == spec_next_step(Some(version), SchemaVersion(LATEST_VERSION)),
        version.0 > LATEST_VERSION <==> r is Err,
        version.0 < LATEST_VERSION ==> r == Ok::<Option<SchemaVersion>, MigrationError>(
            Some(SchemaVersion((version.0 + 1) as u8)),
        ),
{
    next_step(Some(version), SchemaVersion(LATEST_VERSION))
}

/// The version that the metadata query reports: the version of the row it
/// found, or none when the query failed (the table is absent) or found no
/// row.
pub fn schema_version_from_query<E>(answer: Result<Option<JustSchemaVersion>, E>) -> (r: Option<
    SchemaVersion,
>)
    ensures
        r == (match answer {
            Ok(Some(row)) => Some(row.version),
            _ => None::<SchemaVersion>,
        }),
{
    match answer {
        Ok(Some(row)) => Some(row.version),
        _ => None,
    }
}

/// When the step has finished without error, its last check read the first
/// version back, and from that version the orchestrator asks for no further
/// step toward it.
pub proof fn lemma_migration_idempotent<E>(outcome: Outcome<E>, c: Command<E>)
    requires
        spec_next(Phase::VersionCheck, outcome, c),
        c == Command::<E>::Finish(Ok(())),
    ensures
        outcome matches Outcome::Version(Some(v)) && v.0 == FIRST_VERSION,
        spec_next_step(Some(SchemaVersion(FIRST_VERSION)), SchemaVersion(FIRST_VERSION)) == Ok::<
            Option<SchemaVersion>,
            MigrationError,
        >(None),
{
}

/// A store without a version is brought to the first version by the step
/// from the unversioned store, and a store ahead of its target is refused.
pub proof fn lemma_fresh_and_downgrade(target: SchemaVersion, current: SchemaVersion)
    requires
        target.0 == FIRST_VERSION,
        current.0 > target.0,
    ensures
        spec_next_step(None, target) == Ok::<Option<SchemaVersion>, MigrationError>(
            Some(SchemaVersion(FIRST_VERSION)),
        ),
        spec_next_step(Some(current), target) == Err::<Option<SchemaVersion>, MigrationError>(
            MigrationError::DowngradeNotSupported { current, target },
        ),
{
}

} // verus!
