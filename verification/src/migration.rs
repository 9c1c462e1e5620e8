use vstd::prelude::*;
use core::marker::PhantomData;
use crate::codec::{AccountCodec, AccountDeserialize, AccountSerialize, Migrate, Owner};
use crate::error::ErrorCode;
use crate::record::{OwnerId, Record};

verus! {

/// A transient handle binding one [`Record`] to its decoded old-schema
/// value.
///
/// Construction ([`Migration::try_from`]) validates ownership and lifecycle
/// and decodes the record's bytes as `MigrateFrom`; the single exit call
/// ([`Migration::exit_with_expected_owner`]) re-encodes the value, mapped to
/// `MigrateTo` by the caller-defined [`Migrate`] impl, back into the same
/// buffer. Nothing is persisted before exit, and a handle is never reused
/// past it.
pub struct Migration<MigrateFrom, MigrateTo> where
    MigrateFrom: AccountDeserialize + Migrate<MigrateTo>,
    MigrateTo: AccountSerialize,
{
    account: MigrateFrom,
    _migrate_to: PhantomData<MigrateTo>,
}

impl<MigrateFrom, MigrateTo> Migration<MigrateFrom, MigrateTo> where
    MigrateFrom: AccountDeserialize + Migrate<MigrateTo>,
    MigrateTo: AccountSerialize,
{
    /// The old-schema value the handle currently holds, as its view.
    pub closed spec fn spec_inner(self) -> MigrateFrom::V {
        self.account@
    }

    pub(crate) fn new(account: MigrateFrom) -> (r: Self)
        ensures
            r.spec_inner() == account@,
    {
        Migration { account, _migrate_to: PhantomData }
    }

    /// Re-reads the record's current bytes and decodes them as
    /// `MigrateFrom`, discarding unpersisted in-memory changes. Used to
    /// observe side effects of an external call made since construction.
    pub fn reload(&mut self, record: &Record) -> (r: Result<(), ErrorCode>)
        ensures
            match r {
                Ok(()) => MigrateFrom::spec_deserialize(record.data@) == Some(
                    final(self).spec_inner(),
                ),
                Err(e) => MigrateFrom::spec_deserialize(record.data@) is None && e
                    == ErrorCode::AccountDidNotDeserialize && *final(self) == *old(self),
            },
    {
        match MigrateFrom::try_deserialize(record.data.as_slice()) {
            Ok(account) => {
                self.account = account;
                Ok(())
            },
            Err(e) => Err(e),
        }
    }

    /// Consumes the handle, yielding the decoded value.
    pub fn into_inner(self) -> (r: MigrateFrom)
        ensures
            r@ == self.spec_inner(),
    {
        self.account
    }

    /// Replaces the decoded value in place; nothing is persisted until exit.
    pub fn set_inner(&mut self, inner: MigrateFrom)
        ensures
            final(self).spec_inner() == inner@,
    {
        self.account = inner;
    }

    /// Whether an exit call persists: the executing context must still hold
    /// the schema's declared authority, and the record must not have been
    /// closed in the meantime.
    pub open spec fn spec_exit_persists(
        record: Record,
        expected_owner: OwnerId,
        program_id: OwnerId,
    ) -> bool {
        expected_owner == program_id && !record.spec_is_closed()
    }

    /// The record bytes after a persisting exit: the new-schema
    /// serialization of the migrated value, written from offset zero, with
    /// the remainder of the buffer untouched.
    pub open spec fn spec_exit_data(self, old_data: Seq<u8>) -> Seq<u8> {
        let bytes = MigrateTo::spec_serialized(MigrateFrom::spec_migrate(self.spec_inner()));
        bytes + old_data.skip(bytes.len() as int)
    }

    /// The single terminal write of a migration.
    ///
    /// A silent no-op — buffer untouched — unless `expected_owner` equals
    /// `program_id` and the record is still open. When it persists, the
    /// migrated value's serialization overwrites the buffer from offset
    /// zero without resizing it; a value the codec cannot represent, or one
    /// whose serialization exceeds the buffer's capacity, fails with
    /// `AccountDidNotSerialize` and leaves the buffer unchanged.
    pub fn exit_with_expected_owner(
        &self,
        record: &mut Record,
        expected_owner: &OwnerId,
        program_id: &OwnerId,
    ) -> (r: Result<(), ErrorCode>)
        ensures
            !Self::spec_exit_persists(*old(record), *expected_owner, *program_id) ==> r == Ok::<
                (),
                ErrorCode,
            >(()) && *final(record) == *old(record),
            Self::spec_exit_persists(*old(record), *expected_owner, *program_id) ==> ({
                let migrated = MigrateFrom::spec_migrate(self.spec_inner());
                if !MigrateTo::codec_valid(migrated) || MigrateTo::spec_serialized(
                    migrated,
                ).len() > old(record).data@.len() {
                    r == Err::<(), ErrorCode>(ErrorCode::AccountDidNotSerialize) && *final(record)
                        == *old(record)
                } else {
                    r == Ok::<(), ErrorCode>(()) && final(record).owner == old(record).owner
                        && final(record).lamports == old(record).lamports && final(record).data@
                        == self.spec_exit_data(old(record).data@)
                }
            }),
    {
        if !(*expected_owner == *program_id) {
            return Ok(());
        }
        if record.is_closed() {
            return Ok(());
        }
        let migrated = self.account.migrate();
        let bytes = match migrated.try_serialize() {
            Ok(bytes) => bytes,
            Err(e) => {
                return Err(e);
            },
        };
        let n = bytes.len();
        if n > record.data.len() {
            return Err(ErrorCode::AccountDidNotSerialize);
        }
        let mut i: usize = 0;
        while i < n
            invariant
                i <= n,
                n == bytes@.len(),
                n <= record.data@.len(),
                record.owner == old(record).owner,
                record.lamports == old(record).lamports,
                record.data@.len() == old(record).data@.len(),
                forall|j: int| 0 <= j < i ==> record.data@[j] == bytes@[j],
                forall|j: int|
                    i <= j < record.data@.len() ==> record.data@[j] == old(record).data@[j],
            decreases n - i,
        {
            let b = bytes[i];
            record.data.set(i, b);
            i += 1;
        }
        proof {
            assert(record.data@ =~= bytes@ + old(record).data@.skip(n as int));
        }
        Ok(())
    }
}

impl<MigrateFrom, MigrateTo> Migration<MigrateFrom, MigrateTo> where
    MigrateFrom: AccountDeserialize + Migrate<MigrateTo> + Owner,
    MigrateTo: AccountSerialize,
{
    /// What construction yields on a record: the checks in order —
    /// initialization, ownership, then the codec.
    pub open spec fn spec_construct(record: Record) -> Result<MigrateFrom::V, ErrorCode> {
        if record.is_uninitialized() {
            Err(ErrorCode::AccountNotInitialized)
        } else if record.owner != MigrateFrom::spec_owner() {
            Err(
                ErrorCode::AccountOwnedByWrongProgram {
                    actual: record.owner,
                    expected: MigrateFrom::spec_owner(),
                },
            )
        } else {
            match MigrateFrom::spec_deserialize(record.data@) {
                Some(v) => Ok(v),
                None => Err(ErrorCode::AccountDidNotDeserialize),
            }
        }
    }

    /// As [`Migration::spec_construct`], but with the tag-skipping decoder.
    pub open spec fn spec_construct_unchecked(record: Record) -> Result<MigrateFrom::V, ErrorCode> {
        if record.is_uninitialized() {
            Err(ErrorCode::AccountNotInitialized)
        } else if record.owner != MigrateFrom::spec_owner() {
            Err(
                ErrorCode::AccountOwnedByWrongProgram {
                    actual: record.owner,
                    expected: MigrateFrom::spec_owner(),
                },
            )
        } else {
            match MigrateFrom::spec_deserialize_unchecked(record.data@) {
                Some(v) => Ok(v),
                None => Err(ErrorCode::AccountDidNotDeserialize),
            }
        }
    }

    /// Validates ownership and lifecycle, then decodes the record's bytes
    /// as `MigrateFrom`. The record is only read.
    pub fn try_from(record: &Record) -> (r: Result<Self, ErrorCode>)
        ensures
            match r {
                Ok(m) => Self::spec_construct(*record) == Ok::<MigrateFrom::V, ErrorCode>(
                    m.spec_inner(),
                ),
                Err(e) => Self::spec_construct(*record) == Err::<MigrateFrom::V, ErrorCode>(e),
            },
    {
        let null = OwnerId::null();
        if record.owner == null && record.lamports == 0 {
            return Err(ErrorCode::AccountNotInitialized);
        }
        let expected = MigrateFrom::owner();
        if !(record.owner == expected) {
            return Err(ErrorCode::AccountOwnedByWrongProgram { actual: record.owner, expected });
        }
        match MigrateFrom::try_deserialize(record.data.as_slice()) {
            Ok(account) => Ok(Migration::new(account)),
            Err(e) => Err(e),
        }
    }

    /// As [`Migration::try_from`], but decodes without validating the
    /// schema tag, trusting the caller to have checked it already.
    pub fn try_from_unchecked(record: &Record) -> (r: Result<Self, ErrorCode>)
        ensures
            match r {
                Ok(m) => Self::spec_construct_unchecked(*record) == Ok::<MigrateFrom::V, ErrorCode>(
                    m.spec_inner(),
                ),
                Err(e) => Self::spec_construct_unchecked(*record) == Err::<
                    MigrateFrom::V,
                    ErrorCode,
                >(e),
            },
    {
        let null = OwnerId::null();
        if record.owner == null && record.lamports == 0 {
            return Err(ErrorCode::AccountNotInitialized);
        }
        let expected = MigrateFrom::owner();
        if !(record.owner == expected) {
            return Err(ErrorCode::AccountOwnedByWrongProgram { actual: record.owner, expected });
        }
        match MigrateFrom::try_deserialize_unchecked(record.data.as_slice()) {
            Ok(account) => Ok(Migration::new(account)),
            Err(e) => Err(e),
        }
    }

    /// Exits under the schema's own declared authority.
    pub fn exit(&self, record: &mut Record, program_id: &OwnerId) -> (r: Result<(), ErrorCode>)
        ensures
            !Self::spec_exit_persists(*old(record), MigrateFrom::spec_owner(), *program_id) ==> r
                == Ok::<(), ErrorCode>(()) && *final(record) == *old(record),
            Self::spec_exit_persists(*old(record), MigrateFrom::spec_owner(), *program_id) ==> ({
                let migrated = MigrateFrom::spec_migrate(self.spec_inner());
                if !MigrateTo::codec_valid(migrated) || MigrateTo::spec_serialized(
                    migrated,
                ).len() > old(record).data@.len() {
                    r == Err::<(), ErrorCode>(ErrorCode::AccountDidNotSerialize) && *final(record)
                        == *old(record)
                } else {
                    r == Ok::<(), ErrorCode>(()) && final(record).owner == old(record).owner
                        && final(record).lamports == old(record).lamports && final(record).data@
                        == self.spec_exit_data(old(record).data@)
                }
            }),
    {
        let expected = MigrateFrom::owner();
        self.exit_with_expected_owner(record, &expected, program_id)
    }
}

/// Law: construction fails with `AccountNotInitialized` exactly on the
/// records owned by the null sentinel with zero existence weight.
pub proof fn lemma_construct_uninitialized<MigrateFrom, MigrateTo>(record: Record) where
    MigrateFrom: AccountDeserialize + Migrate<MigrateTo> + Owner,
    MigrateTo: AccountSerialize,

    ensures
        Migration::<MigrateFrom, MigrateTo>::spec_construct(record) == Err::<
            MigrateFrom::V,
            ErrorCode,
        >(ErrorCode::AccountNotInitialized) <==> record.is_uninitialized(),
{
}

/// Law: on every initialized record whose owner differs from the schema's
/// declared owner, construction fails with `AccountOwnedByWrongProgram`,
/// carrying the two conflicting identities.
pub proof fn lemma_construct_wrong_owner<MigrateFrom, MigrateTo>(record: Record) where
    MigrateFrom: AccountDeserialize + Migrate<MigrateTo> + Owner,
    MigrateTo: AccountSerialize,

    requires
        !record.is_uninitialized(),
        record.owner != MigrateFrom::spec_owner(),
    ensures
        Migration::<MigrateFrom, MigrateTo>::spec_construct(record) == Err::<
            MigrateFrom::V,
            ErrorCode,
        >(
            ErrorCode::AccountOwnedByWrongProgram {
                actual: record.owner,
                expected: MigrateFrom::spec_owner(),
            },
        ),
{
}

/// Law: after a persisting exit of sufficient capacity, the buffer decodes
/// under the new schema to exactly the migrated value — whatever bytes
/// followed the serialization in the buffer.
pub proof fn lemma_exit_roundtrip<MigrateFrom, MigrateTo>(
    m: Migration<MigrateFrom, MigrateTo>,
    old_data: Seq<u8>,
) where
    MigrateFrom: AccountDeserialize + Migrate<MigrateTo>,
    MigrateTo: AccountCodec,

    requires
        MigrateTo::codec_valid(MigrateFrom::spec_migrate(m.spec_inner())),
        MigrateTo::spec_serialized(MigrateFrom::spec_migrate(m.spec_inner())).len()
            <= old_data.len(),
    ensures
        MigrateTo::spec_deserialize(m.spec_exit_data(old_data)) == Some(
            MigrateFrom::spec_migrate(m.spec_inner()),
        ),
{
    let migrated = MigrateFrom::spec_migrate(m.spec_inner());
    let bytes = MigrateTo::spec_serialized(migrated);
    MigrateTo::lemma_serialize_roundtrip(migrated, old_data.skip(bytes.len() as int));
}

} // verus!
