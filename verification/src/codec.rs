use vstd::prelude::*;
use crate::error::ErrorCode;
use crate::record::OwnerId;

verus! {

/// A schema type that can be written out under its byte layout.
///
/// The layout is stated over the type's view: `spec_serialized` is the byte
/// sequence a value persists as, and `codec_valid` delimits the values the
/// layout can represent at all (for instance, bounded payload lengths).
pub trait AccountSerialize: View + Sized {
    /// Which values the codec can represent.
    spec fn codec_valid(v: Self::V) -> bool;

    /// The byte layout of a representable value.
    spec fn spec_serialized(v: Self::V) -> Seq<u8>;

    /// Serializes `self`, failing exactly on values the codec cannot
    /// represent.
    fn try_serialize(&self) -> (r: Result<Vec<u8>, ErrorCode>)
        ensures
            match r {
                Ok(bytes) => Self::codec_valid(self@) && bytes@ == Self::spec_serialized(self@),
                Err(e) => !Self::codec_valid(self@) && e == ErrorCode::AccountDidNotSerialize,
            },
    ;
}

/// A schema type that can be read back from its byte layout.
///
/// `spec_deserialize` is the full decoder, schema tag included;
/// `spec_deserialize_unchecked` is the variant that trusts the caller to
/// have validated the tag already. Either yields `Some` exactly on the
/// buffers it accepts.
pub trait AccountDeserialize: View + Sized {
    /// What the full decoder yields on a buffer.
    spec fn spec_deserialize(data: Seq<u8>) -> Option<Self::V>;

    /// What the tag-skipping decoder yields on a buffer.
    spec fn spec_deserialize_unchecked(data: Seq<u8>) -> Option<Self::V>;

    /// Decodes a buffer, validating the schema tag.
    fn try_deserialize(data: &[u8]) -> (r: Result<Self, ErrorCode>)
        ensures
            match r {
                Ok(v) => Self::spec_deserialize(data@) == Some(v@),
                Err(e) => Self::spec_deserialize(data@) is None && e
                    == ErrorCode::AccountDidNotDeserialize,
            },
    ;

    /// Decodes a buffer without validating the schema tag.
    fn try_deserialize_unchecked(data: &[u8]) -> (r: Result<Self, ErrorCode>)
        ensures
            match r {
                Ok(v) => Self::spec_deserialize_unchecked(data@) == Some(v@),
                Err(e) => Self::spec_deserialize_unchecked(data@) is None && e
                    == ErrorCode::AccountDidNotDeserialize,
            },
    ;
}

/// A schema that both writes and reads its own layout.
///
/// The law says the codec is prefix-unambiguous: decoding a buffer that
/// begins with the serialization of a representable value yields that value
/// back, whatever bytes follow it.
pub trait AccountCodec: AccountSerialize + AccountDeserialize {
    /// Law: serialize-then-deserialize round-trips under any trailing bytes.
    proof fn lemma_serialize_roundtrip(v: Self::V, tail: Seq<u8>)
        requires
            Self::codec_valid(v),
        ensures
            Self::spec_deserialize(Self::spec_serialized(v) + tail) == Some(v),
    ;
}

/// A schema type's statically declared owner identity: only records held by
/// this identity may be decoded under the schema.
pub trait Owner {
    /// The declared owner identity.
    spec fn spec_owner() -> OwnerId;

    /// Returns the declared owner identity.
    fn owner() -> (r: OwnerId)
        ensures
            r == Self::spec_owner(),
    ;
}

/// The caller-defined mapping from an old-schema value to its new-schema
/// form; the migration handle invokes it once, at exit.
pub trait Migrate<MigrateTo: View>: View {
    /// The mapping, stated over the two schemas' views.
    spec fn spec_migrate(v: Self::V) -> MigrateTo::V;

    /// Computes the new-schema value.
    fn migrate(&self) -> (r: MigrateTo)
        ensures
            r@ == Self::spec_migrate(self@),
    ;
}

} // verus!
