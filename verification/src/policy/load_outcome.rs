//! Shared migration-audit load-outcome helper used by policy and engine loaders.

use vstd::prelude::*;

use super::migration::MigrationAuditRecord;

verus! {

/// Generic container for a loaded value plus migration audit evidence.
#[derive(Clone, Debug, PartialEq, Eq)]
pub struct LoadOutcome<T> {
    value: T,
    migration_audit: MigrationAuditRecord,
}

impl<T> LoadOutcome<T> {
    /// The loaded value.
    pub closed spec fn loaded(&self) -> T {
        self.value
    }

    /// The migration audit evidence.
    pub closed spec fn audit(&self) -> MigrationAuditRecord {
        self.migration_audit
    }

    /// Build a load outcome from a value and migration audit evidence.
    pub fn new(value: T, migration_audit: MigrationAuditRecord) -> (outcome: Self)
        ensures
            outcome.loaded() == value,
            outcome.audit() == migration_audit,
    {
        Self { value, migration_audit }
    }

    /// Return the loaded value.
    pub fn value(&self) -> (value: &T)
        ensures
            *value == self.loaded(),
    {
        &self.value
    }

    /// Return migration audit evidence.
    pub fn migration_audit(&self) -> (migration_audit: &MigrationAuditRecord)
        ensures
            *migration_audit == self.audit(),
    {
        &self.migration_audit
    }

    /// Consume this outcome and return both value and audit evidence.
    pub fn into_parts(self) -> (parts: (T, MigrationAuditRecord))
        ensures
            parts.0 == self.loaded(),
            parts.1 == self.audit(),
    {
        (self.value, self.migration_audit)
    }
}

} // verus!
