use crate::mode::{mode_byte, mode_of_byte, CheckMetadataHashMode};
use crate::text::str_eq;
use vstd::prelude::*;

verus! {

/// A 32-byte metadata digest.
pub type Digest = [u8; 32];

#[verifier::external_type_specification]
#[verifier::external_body]
pub struct ExPortableRegistry(scale_info::PortableRegistry);

/// Why a signed extension, or a whole chain of them, could not be built.
#[derive(Debug, PartialEq, Eq, Structural)]
pub enum ConstructionError {
    /// The chain declares, at this position, a name that the unit
    /// configured there does not identify.
    UnrecognizedExtension { index: usize },
    /// The chain declares fewer extensions than are configured; the unit
    /// at this position has no name to bind to.
    MissingExtension { index: usize },
}

/// The name under which the chain declares the metadata-check extension.
pub open spec fn check_metadata_hash_name() -> Seq<char> {
    "CheckMetadataHash"@
}

/// The bytes that a digest contributes to the additional data: all of it
/// when present, nothing otherwise.
pub open spec fn digest_bytes(d: Option<Digest>) -> Seq<u8> {
    match d {
        Some(h) => h@,
        None => Seq::empty(),
    }
}

/// Relies on parity-scale-codec's `Encode` for `[u8; 32]`: a byte array is
/// written as its bytes, in order, with no length prefix.
#[verifier::external_body]
fn encode_digest_to(d: &Digest, v: &mut Vec<u8>)
    ensures
        final(v)@ == old(v)@ + d@,
{
    parity_scale_codec::Encode::encode_to(d, v)
}

/// The parameters from which a [`CheckMetadataHash`] is built.
pub struct CheckMetadataHashParams {
    pub mode: CheckMetadataHashMode,
    pub metadata_digest: Option<Digest>,
}

impl Default for CheckMetadataHashParams {
    /// Checking disabled, no digest.
    fn default() -> (r: Self)
        ensures
            r.mode == CheckMetadataHashMode::Disabled,
            r.metadata_digest.is_none(),
            r.wf(),
    {
        CheckMetadataHashParams { mode: CheckMetadataHashMode::Disabled, metadata_digest: None }
    }
}

impl CheckMetadataHashParams {
    /// Checking enabled, against `metadata_digest`.
    pub fn enabled(metadata_digest: Digest) -> (r: Self)
        ensures
            r.mode == CheckMetadataHashMode::Enabled,
            r.metadata_digest == Some(metadata_digest),
            r.wf(),
    {
        CheckMetadataHashParams {
            mode: CheckMetadataHashMode::Enabled,
            metadata_digest: Some(metadata_digest),
        }
    }

    /// A digest is present exactly when checking is enabled.
    pub open spec fn wf(&self) -> bool {
        (self.mode == CheckMetadataHashMode::Enabled) == self.metadata_digest.is_some()
    }
}

/// The `CheckMetadataHash` signed extension.
pub struct CheckMetadataHash {
    pub mode: CheckMetadataHashMode,
    pub metadata_digest: Option<Digest>,
}

impl CheckMetadataHash {
    /// A digest is present exactly when checking is enabled.
    pub open spec fn wf(&self) -> bool {
        (self.mode == CheckMetadataHashMode::Enabled) == self.metadata_digest.is_some()
    }

    /// The extra data: the mode byte alone.
    pub open spec fn extra_spec(&self) -> Seq<u8> {
        seq![mode_byte(self.mode)]
    }

    /// The additional data: the mode byte, then the digest if there is one.
    pub open spec fn additional_spec(&self) -> Seq<u8> {
        seq![mode_byte(self.mode)] + digest_bytes(self.metadata_digest)
    }

    /// Builds the extension from its parameters, copied as they are.
    /// This never fails.
    pub fn new(params: CheckMetadataHashParams) -> (r: Result<Self, ConstructionError>)
        ensures
            r matches Ok(e) && e.mode == params.mode && e.metadata_digest
                == params.metadata_digest,
            r matches Ok(e) && (params.wf() ==> e.wf()),
    {
        Ok(CheckMetadataHash { mode: params.mode, metadata_digest: params.metadata_digest })
    }

    /// Appends the extra data to `v`.
    pub fn encode_extra_to(&self, v: &mut Vec<u8>)
        ensures
            final(v)@ == old(v)@ + self.extra_spec(),
    {
        let ghost v0 = v@;
        self.mode.encode_to(v);
        assert(v@ =~= v0 + self.extra_spec());
    }

    /// Appends the additional data to `v`.
    pub fn encode_additional_to(&self, v: &mut Vec<u8>)
        ensures
            final(v)@ == old(v)@ + self.additional_spec(),
    {
        let ghost v0 = v@;
        self.mode.encode_to(v);
        if let Some(digest) = &self.metadata_digest {
            encode_digest_to(digest, v);
        }
        assert(v@ =~= v0 + self.additional_spec());
    }

    /// The extra data as a fresh buffer.
    pub fn encode_extra(&self) -> (r: Vec<u8>)
        ensures
            r@ == self.extra_spec(),
    {
        let mut v: Vec<u8> = Vec::new();
        self.encode_extra_to(&mut v);
        assert(v@ =~= self.extra_spec());
        v
    }

    /// The additional data as a fresh buffer.
    pub fn encode_additional(&self) -> (r: Vec<u8>)
        ensures
            r@ == self.additional_spec(),
    {
        let mut v: Vec<u8> = Vec::new();
        self.encode_additional_to(&mut v);
        assert(v@ =~= self.additional_spec());
        v
    }

    /// Does the chain's extension name `identifier` name this extension?
    /// Only the name counts: the type and registry are not looked at.
    pub fn matches(identifier: &str, _type_id: u32, _types: &scale_info::PortableRegistry) -> (r:
        bool)
        ensures
            r == (identifier@ == check_metadata_hash_name()),
    {
        str_eq(identifier, "CheckMetadataHash")
    }
}

/// Decoding the mode from an instance's extra data gives back the
/// instance's mode.
pub proof fn lemma_extra_decodes_to_mode(h: CheckMetadataHash)
    ensures
        h.extra_spec().len() == 1,
        mode_of_byte(h.extra_spec()[0]) == Some(h.mode),
{
}

/// A disabled instance encodes as `[0x00]` in both buffers; an instance
/// enabled with digest `d` encodes as `[0x01]` in its extra data and as
/// `[0x01]` followed by the 32 bytes of `d` in its additional data.
pub proof fn lemma_encoding_by_mode(d: Digest)
    ensures
        ({
            let h = CheckMetadataHash { mode: CheckMetadataHashMode::Disabled, metadata_digest: None };
            h.extra_spec() == seq![0u8] && h.additional_spec() == seq![0u8]
        }),
        ({
            let h = CheckMetadataHash {
                mode: CheckMetadataHashMode::Enabled,
                metadata_digest: Some(d),
            };
            &&& h.extra_spec() == seq![1u8]
            &&& h.additional_spec() == seq![1u8] + d@
            &&& h.additional_spec().len() == 33
        }),
{
    assert(seq![0u8] + Seq::<u8>::empty() =~= seq![0u8]);
}

} // verus!
