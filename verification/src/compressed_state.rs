use vstd::prelude::*;
use crate::error::ErrorCode;

verus! {

/// The digest that the hash commitment stores: a pure function of the
/// committed bytes alone.
pub uninterp spec fn hash_of(state: Seq<u8>) -> Seq<u8>;

/// Relies on `solana_program::hash::hash`: the SHA-256 digest of the input,
/// 32 bytes, a function of the input bytes alone.
#[verifier::external_body]
fn sha256_digest(state: &[u8]) -> (r: Vec<u8>)
    ensures
        r@ == hash_of(state@),
        r@.len() == 32,
{
    solana_program::hash::hash(state).to_bytes().to_vec()
}

/// The version tag of an integrity envelope. `Zero` asserts nothing;
/// `Hash` commits to a 32-byte digest. The tag alone determines how many
/// payload bytes follow it, so future commitment schemes can be added
/// without breaking decoders of existing records.
#[derive(Clone, Debug, PartialEq, Eq, Structural)]
pub enum CompressedStateVersion {
    Zero,
    Hash,
}

impl CompressedStateVersion {
    /// The version a tag byte denotes, if any.
    pub open spec fn spec_from_tag(value: u8) -> Result<CompressedStateVersion, ErrorCode> {
        if value == 0 {
            Ok(CompressedStateVersion::Zero)
        } else if value == 1 {
            Ok(CompressedStateVersion::Hash)
        } else {
            Err(ErrorCode::CompressedStateInvalidVersion)
        }
    }

    /// The tag byte of a version.
    pub open spec fn spec_tag(self) -> u8 {
        match self {
            CompressedStateVersion::Zero => 0,
            CompressedStateVersion::Hash => 1,
        }
    }

    /// Reads a tag byte; an unrecognized tag is always an error, never
    /// silently ignored.
    pub fn try_from(value: &u8) -> (r: Result<CompressedStateVersion, ErrorCode>)
        ensures
            r == Self::spec_from_tag(*value),
    {
        if *value == 0 {
            Ok(CompressedStateVersion::Zero)
        } else if *value == 1 {
            Ok(CompressedStateVersion::Hash)
        } else {
            Err(ErrorCode::CompressedStateInvalidVersion)
        }
    }
}

/// A versioned integrity envelope, stored as the first bytes of a record:
/// either no commitment, or a hash commitment over detached state that the
/// caller supplies at verification time.
#[derive(Clone, Debug)]
pub struct CompressedState {
    version: CompressedStateVersion,
    state: Vec<u8>,
}

impl CompressedState {
    /// The envelope's version tag.
    pub closed spec fn spec_version(&self) -> CompressedStateVersion {
        self.version
    }

    /// The envelope's commitment payload.
    pub closed spec fn spec_state(&self) -> Seq<u8> {
        self.state@
    }

    /// The tag fully determines the payload length: empty for `Zero`,
    /// 32 bytes for `Hash`.
    pub open spec fn well_formed(&self) -> bool {
        match self.spec_version() {
            CompressedStateVersion::Zero => self.spec_state().len() == 0,
            CompressedStateVersion::Hash => self.spec_state().len() == 32,
        }
    }

    /// The persisted layout: the version tag byte, then the payload.
    pub open spec fn spec_encode(version: CompressedStateVersion, state: Seq<u8>) -> Seq<u8> {
        seq![version.spec_tag()] + state
    }

    /// What decoding a byte buffer yields: the tag selects the rule, and a
    /// buffer too short for its tag's payload is rejected.
    pub open spec fn spec_decode(data: Seq<u8>) -> Result<
        (CompressedStateVersion, Seq<u8>),
        ErrorCode,
    > {
        if data.len() == 0 {
            Err(ErrorCode::CompressedStateDidNotDeserialize)
        } else {
            match CompressedStateVersion::spec_from_tag(data[0]) {
                Err(e) => Err(e),
                Ok(CompressedStateVersion::Zero) => Ok(
                    (CompressedStateVersion::Zero, Seq::empty()),
                ),
                Ok(CompressedStateVersion::Hash) => if data.len() < 33 {
                    Err(ErrorCode::CompressedStateDidNotDeserialize)
                } else {
                    Ok((CompressedStateVersion::Hash, data.subrange(1, 33)))
                },
            }
        }
    }

    /// What verifying a candidate state blob yields: `Zero` asserts
    /// nothing and always succeeds; `Hash` succeeds exactly when the
    /// candidate's digest matches the stored commitment.
    pub open spec fn spec_verify(
        version: CompressedStateVersion,
        commitment: Seq<u8>,
        state: Seq<u8>,
    ) -> Result<(), ErrorCode> {
        match version {
            CompressedStateVersion::Zero => Ok(()),
            CompressedStateVersion::Hash => if hash_of(state) == commitment {
                Ok(())
            } else {
                Err(ErrorCode::CompressedStateMismatch)
            },
        }
    }

    /// The envelope that asserts nothing.
    pub fn new_zero() -> (r: CompressedState)
        ensures
            r.spec_version() == CompressedStateVersion::Zero,
            r.spec_state() == Seq::<u8>::empty(),
            r.well_formed(),
    {
        CompressedState { version: CompressedStateVersion::Zero, state: Vec::new() }
    }

    /// The envelope committing to `state` by its digest.
    pub fn commit_to(state: &[u8]) -> (r: CompressedState)
        ensures
            r.spec_version() == CompressedStateVersion::Hash,
            r.spec_state() == hash_of(state@),
            r.well_formed(),
    {
        CompressedState { version: CompressedStateVersion::Hash, state: sha256_digest(state) }
    }

    /// Writes the envelope out in its persisted layout.
    pub fn encode(&self) -> (r: Vec<u8>)
        ensures
            r@ == Self::spec_encode(self.spec_version(), self.spec_state()),
    {
        let mut out: Vec<u8> = Vec::new();
        match self.version {
            CompressedStateVersion::Zero => out.push(0),
            CompressedStateVersion::Hash => out.push(1),
        }
        let mut i: usize = 0;
        while i < self.state.len()
            invariant
                i <= self.state@.len(),
                out@ == seq![self.spec_version().spec_tag()] + self.state@.take(i as int),
            decreases self.state@.len() - i,
        {
            let b = self.state[i];
            out.push(b);
            proof {
                assert(seq![self.spec_version().spec_tag()] + self.state@.take(i as int + 1)
                    =~= (seq![self.spec_version().spec_tag()] + self.state@.take(i as int)).push(
                    b,
                ));
            }
            i += 1;
        }
        proof {
            assert(self.state@.take(self.state@.len() as int) =~= self.state@);
        }
        out
    }

    /// Decodes an envelope from raw bytes. Reads the tag byte, then the
    /// payload the tag calls for; a zero-length buffer, or one too short
    /// for its tag's payload, fails with `CompressedStateDidNotDeserialize`,
    /// and an unrecognized tag with `CompressedStateInvalidVersion`.
    pub fn try_from(data: &[u8]) -> (r: Result<CompressedState, ErrorCode>)
        ensures
            match r {
                Ok(cs) => Self::spec_decode(data@) == Ok::<_, ErrorCode>(
                    (cs.spec_version(), cs.spec_state()),
                ) && cs.well_formed(),
                Err(e) => Self::spec_decode(data@) == Err::<
                    (CompressedStateVersion, Seq<u8>),
                    ErrorCode,
                >(e),
            },
    {
        if data.len() == 0 {
            return Err(ErrorCode::CompressedStateDidNotDeserialize);
        }
        let tag = data[0];
        let version = match CompressedStateVersion::try_from(&tag) {
            Ok(version) => version,
            Err(e) => {
                return Err(e);
            },
        };
        match version {
            CompressedStateVersion::Zero => Ok(
                CompressedState { version, state: Vec::new() },
            ),
            CompressedStateVersion::Hash => {
                if data.len() < 33 {
                    return Err(ErrorCode::CompressedStateDidNotDeserialize);
                }
                let mut state: Vec<u8> = Vec::new();
                let mut i: usize = 1;
                while i < 33
                    invariant
                        1 <= i <= 33,
                        data@.len() >= 33,
                        state@ == data@.subrange(1, i as int),
                    decreases 33 - i,
                {
                    let b = data[i];
                    state.push(b);
                    proof {
                        assert(data@.subrange(1, i as int + 1) =~= data@.subrange(1, i as int).push(
                            b,
                        ));
                    }
                    i += 1;
                }
                Ok(CompressedState { version, state })
            },
        }
    }

    /// Verifies a candidate state blob against the envelope's commitment.
    pub fn verify_state(&self, state: &[u8]) -> (r: Result<(), ErrorCode>)
        ensures
            r == Self::spec_verify(self.spec_version(), self.spec_state(), state@),
    {
        match self.version {
            CompressedStateVersion::Zero => Ok(()),
            CompressedStateVersion::Hash => {
                let digest = sha256_digest(state);
                if bytes_eq(digest.as_slice(), self.state.as_slice()) {
                    Ok(())
                } else {
                    Err(ErrorCode::CompressedStateMismatch)
                }
            },
        }
    }
}

impl PartialEq for CompressedState {
    /// Envelopes are equal when their versions and payloads are.
    fn eq(&self, other: &CompressedState) -> (r: bool) {
        self.version == other.version && bytes_eq(self.state.as_slice(), other.state.as_slice())
    }
}

impl vstd::std_specs::cmp::PartialEqSpecImpl for CompressedState {
    open spec fn obeys_eq_spec() -> bool {
        true
    }

    open spec fn eq_spec(&self, other: &CompressedState) -> bool {
        self.spec_version() == other.spec_version() && self.spec_state() == other.spec_state()
    }
}

/// Byte-for-byte comparison of two buffers.
fn bytes_eq(a: &[u8], b: &[u8]) -> (r: bool)
    ensures
        r == (a@ == b@),
{
    if a.len() != b.len() {
        proof {
            assert(a@ != b@);
        }
        return false;
    }
    let n = a.len();
    let mut i: usize = 0;
    while i < n
        invariant
            i <= n,
            n == a@.len() == b@.len(),
            forall|j: int| 0 <= j < i ==> a@[j] == b@[j],
        decreases n - i,
    {
        if a[i] != b[i] {
            return false;
        }
        i += 1;
    }
    proof {
        assert(a@ =~= b@);
    }
    true
}

/// Law: a well-formed envelope round-trips through its persisted layout —
/// encoding then decoding yields the same version and payload.
pub proof fn lemma_encode_decode_roundtrip(version: CompressedStateVersion, state: Seq<u8>)
    requires
        match version {
            CompressedStateVersion::Zero => state.len() == 0,
            CompressedStateVersion::Hash => state.len() == 32,
        },
    ensures
        CompressedState::spec_decode(CompressedState::spec_encode(version, state)) == Ok::<
            _,
            ErrorCode,
        >((version, state)),
{
    let data = CompressedState::spec_encode(version, state);
    assert(data[0] == version.spec_tag());
    match version {
        CompressedStateVersion::Zero => {
            assert(state =~= Seq::<u8>::empty());
        },
        CompressedStateVersion::Hash => {
            assert(data.subrange(1, 33) =~= state);
        },
    }
}

/// Law: the no-commitment version asserts nothing — it verifies every
/// candidate state blob, whatever payload stands beside it.
pub proof fn lemma_zero_verifies_all(commitment: Seq<u8>, candidate: Seq<u8>)
    ensures
        CompressedState::spec_verify(CompressedStateVersion::Zero, commitment, candidate) == Ok::<
            (),
            ErrorCode,
        >(()),
{
}

/// Law: a hash commitment over a blob accepts that blob, and rejects, with
/// `CompressedStateMismatch`, every blob whose digest differs.
pub proof fn lemma_hash_commitment(state: Seq<u8>, other: Seq<u8>)
    ensures
        CompressedState::spec_verify(CompressedStateVersion::Hash, hash_of(state), state) == Ok::<
            (),
            ErrorCode,
        >(()),
        hash_of(other) != hash_of(state) ==> CompressedState::spec_verify(
            CompressedStateVersion::Hash,
            hash_of(state),
            other,
        ) == Err::<(), ErrorCode>(ErrorCode::CompressedStateMismatch),
{
}

/// Law: the decode failures, exactly. A buffer shorter than one byte, or a
/// hash-tagged buffer with fewer than 32 trailing bytes, fails with
/// `CompressedStateDidNotDeserialize`; any unrecognized tag fails with
/// `CompressedStateInvalidVersion`.
pub proof fn lemma_decode_errors(data: Seq<u8>)
    ensures
        data.len() == 0 ==> CompressedState::spec_decode(data) == Err::<
            (CompressedStateVersion, Seq<u8>),
            ErrorCode,
        >(ErrorCode::CompressedStateDidNotDeserialize),
        data.len() >= 1 && data[0] == 1 && data.len() < 33 ==> CompressedState::spec_decode(data)
            == Err::<(CompressedStateVersion, Seq<u8>), ErrorCode>(
            ErrorCode::CompressedStateDidNotDeserialize,
        ),
        data.len() >= 1 && data[0] >= 2 ==> CompressedState::spec_decode(data) == Err::<
            (CompressedStateVersion, Seq<u8>),
            ErrorCode,
        >(ErrorCode::CompressedStateInvalidVersion),
{
}

} // verus!
