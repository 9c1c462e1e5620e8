use vstd::prelude::*;
use crate::bytes::{
    le_bytes,
    le_val,
    lemma_le_bytes_len,
    lemma_le_roundtrip,
    pow256,
    push_le_bytes,
    read_le_bytes,
};
use crate::codec::{AccountCodec, AccountDeserialize, AccountSerialize, Migrate, Owner};
use crate::error::ErrorCode;
use crate::record::OwnerId;

verus! {

/// The schema tag of [`LegacyState`], as a 64-bit little-endian value.
pub const LEGACY_STATE_TAG: u64 = 0x100a11d;

/// The schema tag of [`CurrentState`], as a 64-bit little-endian value.
pub const CURRENT_STATE_TAG: u64 = 0x200a11d;

/// The sample schemas' shared byte layout: an 8-byte schema tag, the bump
/// seed, a 4-byte little-endian payload length, then the payload.
pub open spec fn spec_schema_encoded(tag: u64, bump: u8, data: Seq<u8>) -> Seq<u8> {
    le_bytes(tag as nat, 8) + seq![bump] + le_bytes(data.len(), 4) + data
}

/// The layout carries exactly the payloads whose length fits its 4-byte
/// length field.
pub open spec fn spec_schema_valid(data: Seq<u8>) -> bool {
    data.len() < pow256(4)
}

/// What decoding the shared layout yields; `check_tag` selects the full or
/// the tag-skipping rule.
pub open spec fn spec_schema_decoded(tag: u64, check_tag: bool, input: Seq<u8>) -> Option<
    (u8, Seq<u8>),
> {
    if input.len() < 13 {
        None
    } else if check_tag && input.subrange(0, 8) != le_bytes(tag as nat, 8) {
        None
    } else {
        let len = le_val(input.subrange(9, 13));
        if input.len() < 13 + len {
            None
        } else {
            Some((input[8], input.subrange(13, 13 + len as int)))
        }
    }
}

/// Writes the shared layout, failing exactly on payloads its length field
/// cannot describe.
fn encode_schema(tag: u64, bump: u8, data: &Vec<u8>) -> (r: Result<Vec<u8>, ErrorCode>)
    ensures
        match r {
            Ok(out) => spec_schema_valid(data@) && out@ == spec_schema_encoded(tag, bump, data@),
            Err(e) => !spec_schema_valid(data@) && e == ErrorCode::AccountDidNotSerialize,
        },
{
    proof {
        assert(pow256(0) == 1);
        assert(pow256(1) == 256);
        assert(pow256(2) == 256 * 256);
        assert(pow256(3) == 256 * pow256(2));
        assert(pow256(4) == 256 * pow256(3));
    }
    if data.len() as u64 >= 0x1_0000_0000u64 {
        return Err(ErrorCode::AccountDidNotSerialize);
    }
    let mut out: Vec<u8> = Vec::new();
    push_le_bytes(&mut out, tag, 8);
    out.push(bump);
    push_le_bytes(&mut out, data.len() as u64, 4);
    let ghost prefix = le_bytes(tag as nat, 8) + seq![bump] + le_bytes(data@.len(), 4);
    proof {
        assert(out@ =~= prefix);
    }
    let n = data.len();
    let mut i: usize = 0;
    while i < n
        invariant
            i <= n,
            n == data@.len(),
            out@ == prefix + data@.take(i as int),
        decreases n - i,
    {
        let b = data[i];
        out.push(b);
        proof {
            assert(prefix + data@.take(i + 1) =~= (prefix + data@.take(i as int)).push(b));
        }
        i += 1;
    }
    proof {
        assert(out@ =~= spec_schema_encoded(tag, bump, data@));
    }
    Ok(out)
}

/// Reads the shared layout back, failing exactly on the buffers the layout
/// rejects.
fn decode_schema(tag: u64, check_tag: bool, input: &[u8]) -> (r: Result<(u8, Vec<u8>), ErrorCode>)
    ensures
        match r {
            Ok(pair) => spec_schema_decoded(tag, check_tag, input@) == Some((pair.0, pair.1@)),
            Err(e) => spec_schema_decoded(tag, check_tag, input@) is None && e
                == ErrorCode::AccountDidNotDeserialize,
        },
{
    if input.len() < 13 {
        return Err(ErrorCode::AccountDidNotDeserialize);
    }
    if check_tag {
        let mut expected: Vec<u8> = Vec::new();
        push_le_bytes(&mut expected, tag, 8);
        proof {
            lemma_le_bytes_len(tag as nat, 8);
        }
        let mut j: usize = 0;
        while j < 8
            invariant
                j <= 8,
                check_tag,
                input@.len() >= 13,
                expected@ == le_bytes(tag as nat, 8),
                expected@.len() == 8,
                forall|t: int| 0 <= t < j ==> input@[t] == expected@[t],
            decreases 8 - j,
        {
            if input[j] != expected[j] {
                proof {
                    assert(input@.subrange(0, 8)[j as int] != le_bytes(tag as nat, 8)[j as int]);
                    assert(input@.subrange(0, 8) != le_bytes(tag as nat, 8));
                }
                return Err(ErrorCode::AccountDidNotDeserialize);
            }
            j += 1;
        }
        proof {
            assert(input@.subrange(0, 8) =~= le_bytes(tag as nat, 8));
        }
    }
    let bump = input[8];
    let len64 = read_le_bytes(input, 9, 4);
    if len64 > (input.len() - 13) as u64 {
        return Err(ErrorCode::AccountDidNotDeserialize);
    }
    let len = len64 as usize;
    let mut payload: Vec<u8> = Vec::new();
    let mut i: usize = 0;
    while i < len
        invariant
            i <= len,
            13 + len <= input@.len() <= usize::MAX,
            payload@ == input@.subrange(13, 13 + i as int),
        decreases len - i,
    {
        let b = input[13 + i];
        payload.push(b);
        proof {
            assert(input@.subrange(13, 13 + i + 1) =~= input@.subrange(13, 13 + i as int).push(b));
        }
        i += 1;
    }
    Ok((bump, payload))
}

/// Law: the shared layout is prefix-unambiguous — decoding a buffer that
/// begins with the serialization of a representable payload yields the
/// payload back, whatever bytes follow it.
pub proof fn lemma_schema_roundtrip(tag: u64, bump: u8, data: Seq<u8>, tail: Seq<u8>)
    requires
        spec_schema_valid(data),
    ensures
        spec_schema_decoded(tag, true, spec_schema_encoded(tag, bump, data) + tail) == Some(
            (bump, data),
        ),
{
    let enc = spec_schema_encoded(tag, bump, data) + tail;
    lemma_le_bytes_len(tag as nat, 8);
    lemma_le_bytes_len(data.len(), 4);
    assert(enc.subrange(0, 8) =~= le_bytes(tag as nat, 8));
    assert(enc[8] == bump);
    assert(enc.subrange(9, 13) =~= le_bytes(data.len(), 4));
    lemma_le_roundtrip(data.len(), 4);
    assert(enc.subrange(13, 13 + data.len() as int) =~= data);
}

/// The old-schema sample record: a bump seed and a variable byte payload.
#[derive(Clone, Debug)]
pub struct LegacyState {
    pub bump: u8,
    pub data: Vec<u8>,
}

/// The view of [`LegacyState`]: the same fields over a byte sequence.
pub struct LegacyStateView {
    pub bump: u8,
    pub data: Seq<u8>,
}

impl View for LegacyState {
    type V = LegacyStateView;

    open spec fn view(&self) -> LegacyStateView {
        LegacyStateView { bump: self.bump, data: self.data@ }
    }
}

/// The new-schema sample record that [`LegacyState`] migrates to.
#[derive(Clone, Debug)]
pub struct CurrentState {
    pub bump: u8,
    pub data: Vec<u8>,
}

/// The view of [`CurrentState`]: the same fields over a byte sequence.
pub struct CurrentStateView {
    pub bump: u8,
    pub data: Seq<u8>,
}

impl View for CurrentState {
    type V = CurrentStateView;

    open spec fn view(&self) -> CurrentStateView {
        CurrentStateView { bump: self.bump, data: self.data@ }
    }
}

/// The identity under which both sample schemas' records are held.
pub open spec fn spec_sample_program_id() -> OwnerId {
    OwnerId { hi: 0x51a7e, lo: 0x0d15c }
}

impl AccountSerialize for LegacyState {
    open spec fn codec_valid(v: LegacyStateView) -> bool {
        spec_schema_valid(v.data)
    }

    open spec fn spec_serialized(v: LegacyStateView) -> Seq<u8> {
        spec_schema_encoded(LEGACY_STATE_TAG, v.bump, v.data)
    }

    fn try_serialize(&self) -> (r: Result<Vec<u8>, ErrorCode>) {
        encode_schema(LEGACY_STATE_TAG, self.bump, &self.data)
    }
}

impl AccountDeserialize for LegacyState {
    open spec fn spec_deserialize(data: Seq<u8>) -> Option<LegacyStateView> {
        match spec_schema_decoded(LEGACY_STATE_TAG, true, data) {
            Some(pair) => Some(LegacyStateView { bump: pair.0, data: pair.1 }),
            None => None,
        }
    }

    open spec fn spec_deserialize_unchecked(data: Seq<u8>) -> Option<LegacyStateView> {
        match spec_schema_decoded(LEGACY_STATE_TAG, false, data) {
            Some(pair) => Some(LegacyStateView { bump: pair.0, data: pair.1 }),
            None => None,
        }
    }

    fn try_deserialize(data: &[u8]) -> (r: Result<Self, ErrorCode>) {
        match decode_schema(LEGACY_STATE_TAG, true, data) {
            Ok(pair) => Ok(LegacyState { bump: pair.0, data: pair.1 }),
            Err(e) => Err(e),
        }
    }

    fn try_deserialize_unchecked(data: &[u8]) -> (r: Result<Self, ErrorCode>) {
        match decode_schema(LEGACY_STATE_TAG, false, data) {
            Ok(pair) => Ok(LegacyState { bump: pair.0, data: pair.1 }),
            Err(e) => Err(e),
        }
    }
}

impl AccountCodec for LegacyState {
    proof fn lemma_serialize_roundtrip(v: LegacyStateView, tail: Seq<u8>) {
        lemma_schema_roundtrip(LEGACY_STATE_TAG, v.bump, v.data, tail);
    }
}

impl Owner for LegacyState {
    open spec fn spec_owner() -> OwnerId {
        spec_sample_program_id()
    }

    fn owner() -> (r: OwnerId) {
        OwnerId { hi: 0x51a7e, lo: 0x0d15c }
    }
}

impl AccountSerialize for CurrentState {
    open spec fn codec_valid(v: CurrentStateView) -> bool {
        spec_schema_valid(v.data)
    }

    open spec fn spec_serialized(v: CurrentStateView) -> Seq<u8> {
        spec_schema_encoded(CURRENT_STATE_TAG, v.bump, v.data)
    }

    fn try_serialize(&self) -> (r: Result<Vec<u8>, ErrorCode>) {
        encode_schema(CURRENT_STATE_TAG, self.bump, &self.data)
    }
}

impl AccountDeserialize for CurrentState {
    open spec fn spec_deserialize(data: Seq<u8>) -> Option<CurrentStateView> {
        match spec_schema_decoded(CURRENT_STATE_TAG, true, data) {
            Some(pair) => Some(CurrentStateView { bump: pair.0, data: pair.1 }),
            None => None,
        }
    }

    open spec fn spec_deserialize_unchecked(data: Seq<u8>) -> Option<CurrentStateView> {
        match spec_schema_decoded(CURRENT_STATE_TAG, false, data) {
            Some(pair) => Some(CurrentStateView { bump: pair.0, data: pair.1 }),
            None => None,
        }
    }

    fn try_deserialize(data: &[u8]) -> (r: Result<Self, ErrorCode>) {
        match decode_schema(CURRENT_STATE_TAG, true, data) {
            Ok(pair) => Ok(CurrentState { bump: pair.0, data: pair.1 }),
            Err(e) => Err(e),
        }
    }

    fn try_deserialize_unchecked(data: &[u8]) -> (r: Result<Self, ErrorCode>) {
        match decode_schema(CURRENT_STATE_TAG, false, data) {
            Ok(pair) => Ok(CurrentState { bump: pair.0, data: pair.1 }),
            Err(e) => Err(e),
        }
    }
}

impl AccountCodec for CurrentState {
    proof fn lemma_serialize_roundtrip(v: CurrentStateView, tail: Seq<u8>) {
        lemma_schema_roundtrip(CURRENT_STATE_TAG, v.bump, v.data, tail);
    }
}

impl Owner for CurrentState {
    open spec fn spec_owner() -> OwnerId {
        spec_sample_program_id()
    }

    fn owner() -> (r: OwnerId) {
        OwnerId { hi: 0x51a7e, lo: 0x0d15c }
    }
}

impl Migrate<CurrentState> for LegacyState {
    /// The sample migration widens the payload to 64 bytes of `0x0b`,
    /// keeping the bump seed.
    open spec fn spec_migrate(v: LegacyStateView) -> CurrentStateView {
        CurrentStateView { bump: v.bump, data: Seq::new(64, |i: int| 0x0bu8) }
    }

    fn migrate(&self) -> (r: CurrentState) {
        let mut data: Vec<u8> = Vec::new();
        let mut i: usize = 0;
        while i < 64
            invariant
                i <= 64,
                data@ == Seq::new(i as nat, |j: int| 0x0bu8),
            decreases 64 - i,
        {
            data.push(0x0b);
            proof {
                assert(Seq::new((i + 1) as nat, |j: int| 0x0bu8) =~= Seq::new(
                    i as nat,
                    |j: int| 0x0bu8,
                ).push(0x0b));
            }
            i += 1;
        }
        CurrentState { bump: self.bump, data }
    }
}

} // verus!
