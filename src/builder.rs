use crate::chain::{binds, units_of, DeclaredExtension, ExtensionParams};
use crate::extension::{CheckMetadataHashParams, Digest};
use crate::mode::CheckMetadataHashMode;
use vstd::prelude::*;

verus! {

/// One position after the override: a metadata-check position is enabled
/// with digest `d`; every other position is left as it was.
pub open spec fn override_spec(p: ExtensionParams, d: Digest) -> ExtensionParams {
    match p {
        ExtensionParams::MetadataCheck(_) => ExtensionParams::MetadataCheck(
            CheckMetadataHashParams {
                mode: CheckMetadataHashMode::Enabled,
                metadata_digest: Some(d),
            },
        ),
        _ => p,
    }
}

/// The whole parameter set after the override, position by position.
pub open spec fn custom_spec(params: Seq<ExtensionParams>, d: Digest) -> Seq<ExtensionParams> {
    params.map_values(|p: ExtensionParams| override_spec(p, d))
}

/// Takes a chain's default parameters and enables metadata checking against
/// `digest` at the metadata-check position, leaving all others unchanged.
pub fn custom(params: Vec<ExtensionParams>, digest: Digest) -> (r: Vec<ExtensionParams>)
    ensures
        r@ == custom_spec(params@, digest),
{
    let n = params.len();
    let ghost p0 = params@;
    let mut rest = params;
    let mut out: Vec<ExtensionParams> = Vec::new();
    let mut k: usize = 0;
    while k < n
        invariant
            n == p0.len(),
            k <= n,
            rest@ == p0.subrange(k as int, n as int),
            out@ == custom_spec(p0.subrange(0, k as int), digest),
        decreases n - k,
    {
        let p = rest.remove(0);
        assert(p == p0[k as int]);
        let q = match p {
            ExtensionParams::MetadataCheck(_) => ExtensionParams::MetadataCheck(
                CheckMetadataHashParams::enabled(digest),
            ),
            other => other,
        };
        out.push(q);
        k += 1;
        assert(rest@ =~= p0.subrange(k as int, n as int));
        assert(out@ =~= custom_spec(p0.subrange(0, k as int), digest));
    }
    assert(p0.subrange(0, n as int) =~= p0);
    out
}

/// Overriding the same defaults with two digests gives parameter sets that
/// bind to a chain exactly when the defaults do, and whose units differ only
/// at the metadata-check positions: there the extra data is `[0x01]` in both
/// and the additional data is `[0x01]` followed by the respective digest.
/// Every other unit encodes identically in both.
pub proof fn lemma_override_changes_only_digest(
    params: Seq<ExtensionParams>,
    declared: Seq<DeclaredExtension>,
    d1: Digest,
    d2: Digest,
)
    ensures
        binds(custom_spec(params, d1), declared) == binds(params, declared),
        binds(custom_spec(params, d2), declared) == binds(params, declared),
        units_of(custom_spec(params, d1)).len() == params.len(),
        units_of(custom_spec(params, d2)).len() == params.len(),
        forall|i: int|
            0 <= i < params.len() ==> {
                let u1 = #[trigger] units_of(custom_spec(params, d1))[i];
                let u2 = units_of(custom_spec(params, d2))[i];
                if params[i] is MetadataCheck {
                    &&& u1.extra_spec() == seq![1u8]
                    &&& u2.extra_spec() == seq![1u8]
                    &&& u1.additional_spec() == seq![1u8] + d1@
                    &&& u2.additional_spec() == seq![1u8] + d2@
                } else {
                    &&& u1.extra_spec() == u2.extra_spec()
                    &&& u1.additional_spec() == u2.additional_spec()
                }
            },
{
    lemma_override_keeps_binding(params, declared, d1);
    lemma_override_keeps_binding(params, declared, d2);
}

proof fn lemma_override_keeps_binding(
    params: Seq<ExtensionParams>,
    declared: Seq<DeclaredExtension>,
    d: Digest,
)
    ensures
        binds(custom_spec(params, d), declared) == binds(params, declared),
{
    let q = custom_spec(params, d);
    assert forall|j: int| 0 <= j < params.len() && j < declared.len() implies
        #[trigger] q[j].identifies_spec(declared[j].identifier@)
        == params[j].identifies_spec(declared[j].identifier@) by {}
    if binds(params, declared) {
        assert forall|j: int| 0 <= j < q.len() implies #[trigger] q[j].identifies_spec(
            declared[j].identifier@,
        ) by {
            assert(params[j].identifies_spec(declared[j].identifier@));
        }
    }
    if binds(q, declared) {
        assert forall|j: int| 0 <= j < params.len() implies #[trigger] params[j].identifies_spec(
            declared[j].identifier@,
        ) by {
            assert(q[j].identifies_spec(declared[j].identifier@));
        }
    }
}

} // verus!
