//! Which schema migrations a database needs before the store may use it.
use vstd::prelude::*;
use super::error::EventStoreError;

verus! {

/// The newest database schema that this store knows.
pub const CURRENT_DATABASE_SCHEMA_VERSION: i64 = 12;

/// The migrations, in order, that bring a database at schema `current` to the newest schema:
/// every version above `current`, up to the newest one.
pub open spec fn migrations_after(current: i64) -> Seq<u32> {
    Seq::new(
        (if current < 0 { 12 } else { 12 - current }) as nat,
        |k: int| (k + 1 + (if current < 0 { 0 } else { current as int })) as u32,
    )
}

/// The migrations that a database at schema `current` needs; a database written by a newer
/// schema is refused.
pub fn pending_migrations(current: i64) -> (r: Result<Vec<u32>, EventStoreError>)
    ensures
        current > CURRENT_DATABASE_SCHEMA_VERSION ==> r == Err::<Vec<u32>, EventStoreError>(
            EventStoreError::UnsupportedDatabaseSchemaVersion {
                current,
                supported: CURRENT_DATABASE_SCHEMA_VERSION,
            },
        ),
        current <= CURRENT_DATABASE_SCHEMA_VERSION ==> (r matches Ok(v) && v@ == migrations_after(current)),
{
    if current > CURRENT_DATABASE_SCHEMA_VERSION {
        return Err(EventStoreError::UnsupportedDatabaseSchemaVersion {
            current,
            supported: CURRENT_DATABASE_SCHEMA_VERSION,
        });
    }
    let mut versions: Vec<u32> = Vec::new();
    let mut version: u32 = 1;
    while version <= 12
        invariant
            1 <= version <= 13,
            current <= 12,
            forall|k: int| 0 <= k < versions@.len() ==> versions@[k] > current && versions@[k] < version,
            versions@ =~= Seq::new(
                (if current < 0 { version - 1 } else if current >= version { 0 } else { version - 1 - current }) as nat,
                |k: int| (k + 1 + (if current < 0 { 0 } else { current as int })) as u32,
            ),
        decreases 13 - version,
    {
        if current < version as i64 {
            versions.push(version);
        }
        version = version + 1;
    }
    Ok(versions)
}

/// Migrating brings any supported database to the newest schema: the last migration applied is
/// the newest one, and every applied migration is one the database did not have.
pub proof fn law_migrations_reach_the_newest_schema(current: i64)
    requires
        current < CURRENT_DATABASE_SCHEMA_VERSION,
    ensures
        migrations_after(current).len() > 0,
        migrations_after(current).last() == CURRENT_DATABASE_SCHEMA_VERSION,
        forall|k: int| 0 <= k < migrations_after(current).len() ==> migrations_after(current)[k] > current,
        forall|k: int, l: int| 0 <= k < l < migrations_after(current).len() ==> migrations_after(current)[k] < migrations_after(current)[l],
{
}

} // verus!
