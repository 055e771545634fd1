use crate::extension::{
    check_metadata_hash_name, CheckMetadataHash, CheckMetadataHashParams, ConstructionError,
};
use crate::text::str_eq;
use vstd::prelude::*;

verus! {

/// One signed extension as the chain's metadata declares it.
pub struct DeclaredExtension {
    /// The name the chain gives the extension.
    pub identifier: String,
    /// The type id of the extension's extra data in the chain's registry.
    pub extra_ty: u32,
}

/// The construction parameters of one position of an extension chain.
pub enum ExtensionParams {
    /// A unit whose two encodings were already resolved from chain state,
    /// known to the chain under `name`.
    Encoded { name: String, extra: Vec<u8>, additional: Vec<u8> },
    /// The metadata-check extension.
    MetadataCheck(CheckMetadataHashParams),
}

/// One built position of an extension chain.
pub enum Extension {
    /// A unit with fixed encodings, known to the chain under `name`.
    Encoded { name: String, extra: Vec<u8>, additional: Vec<u8> },
    /// The metadata-check extension.
    MetadataCheck(CheckMetadataHash),
}

impl ExtensionParams {
    /// Does the unit configured with these parameters go by the name `id`?
    pub open spec fn identifies_spec(&self, id: Seq<char>) -> bool {
        match self {
            ExtensionParams::Encoded { name, .. } => name@ == id,
            ExtensionParams::MetadataCheck(_) => id == check_metadata_hash_name(),
        }
    }

    /// The unit that these parameters build.
    pub open spec fn unit_spec(&self) -> Extension {
        match self {
            ExtensionParams::Encoded { name, extra, additional } => Extension::Encoded {
                name: *name,
                extra: *extra,
                additional: *additional,
            },
            ExtensionParams::MetadataCheck(p) => Extension::MetadataCheck(
                CheckMetadataHash { mode: p.mode, metadata_digest: p.metadata_digest },
            ),
        }
    }

    /// Does the unit configured here identify the chain's name `identifier`?
    pub fn identifies(
        &self,
        identifier: &str,
        type_id: u32,
        types: &scale_info::PortableRegistry,
    ) -> (r: bool)
        ensures
            r == self.identifies_spec(identifier@),
    {
        match self {
            ExtensionParams::Encoded { name, .. } => str_eq(name.as_str(), identifier),
            ExtensionParams::MetadataCheck(_) => CheckMetadataHash::matches(
                identifier,
                type_id,
                types,
            ),
        }
    }
}

impl Extension {
    /// The unit's extra data.
    pub open spec fn extra_spec(&self) -> Seq<u8> {
        match self {
            Extension::Encoded { extra, .. } => extra@,
            Extension::MetadataCheck(h) => h.extra_spec(),
        }
    }

    /// The unit's additional data.
    pub open spec fn additional_spec(&self) -> Seq<u8> {
        match self {
            Extension::Encoded { additional, .. } => additional@,
            Extension::MetadataCheck(h) => h.additional_spec(),
        }
    }

    /// Builds one unit from its parameters.
    pub fn new(params: ExtensionParams) -> (r: Result<Extension, ConstructionError>)
        ensures
            r == Ok::<Extension, ConstructionError>(params.unit_spec()),
    {
        match params {
            ExtensionParams::Encoded { name, extra, additional } => Ok(
                Extension::Encoded { name, extra, additional },
            ),
            ExtensionParams::MetadataCheck(p) => match CheckMetadataHash::new(p) {
                Ok(h) => Ok(Extension::MetadataCheck(h)),
                Err(e) => Err(e),
            },
        }
    }

    /// Appends the unit's extra data to `v`.
    pub fn encode_extra_to(&self, v: &mut Vec<u8>)
        ensures
            final(v)@ == old(v)@ + self.extra_spec(),
    {
        match self {
            Extension::Encoded { extra, .. } => {
                let ghost v0 = v@;
                let mut i: usize = 0;
                while i < extra.len()
                    invariant
                        i <= extra@.len(),
                        v@ == v0 + extra@.subrange(0, i as int),
                    decreases extra@.len() - i,
                {
                    v.push(extra[i]);
                    i += 1;
                    assert(v@ =~= v0 + extra@.subrange(0, i as int));
                }
                assert(extra@.subrange(0, i as int) =~= extra@);
            },
            Extension::MetadataCheck(h) => h.encode_extra_to(v),
        }
    }

    /// Appends the unit's additional data to `v`.
    pub fn encode_additional_to(&self, v: &mut Vec<u8>)
        ensures
            final(v)@ == old(v)@ + self.additional_spec(),
    {
        match self {
            Extension::Encoded { additional, .. } => {
                let ghost v0 = v@;
                let mut i: usize = 0;
                while i < additional.len()
                    invariant
                        i <= additional@.len(),
                        v@ == v0 + additional@.subrange(0, i as int),
                    decreases additional@.len() - i,
                {
                    v.push(additional[i]);
                    i += 1;
                    assert(v@ =~= v0 + additional@.subrange(0, i as int));
                }
                assert(additional@.subrange(0, i as int) =~= additional@);
            },
            Extension::MetadataCheck(h) => h.encode_additional_to(v),
        }
    }
}

/// The units' extra data, concatenated in position order.
pub open spec fn concat_extra(units: Seq<Extension>) -> Seq<u8>
    decreases units.len(),
{
    if units.len() == 0 {
        Seq::empty()
    } else {
        concat_extra(units.drop_last()) + units.last().extra_spec()
    }
}

/// The units' additional data, concatenated in position order.
pub open spec fn concat_additional(units: Seq<Extension>) -> Seq<u8>
    decreases units.len(),
{
    if units.len() == 0 {
        Seq::empty()
    } else {
        concat_additional(units.drop_last()) + units.last().additional_spec()
    }
}

/// The sum of the units' extra-data lengths.
pub open spec fn sum_extra_len(units: Seq<Extension>) -> nat
    decreases units.len(),
{
    if units.len() == 0 {
        0
    } else {
        sum_extra_len(units.drop_last()) + units.last().extra_spec().len()
    }
}

/// Every position `j < k` is configured with a unit that identifies the
/// name the chain declares there.
pub open spec fn binds_prefix(
    params: Seq<ExtensionParams>,
    declared: Seq<DeclaredExtension>,
    k: int,
) -> bool {
    &&& k <= params.len()
    &&& k <= declared.len()
    &&& forall|j: int| 0 <= j < k ==> #[trigger] params[j].identifies_spec(declared[j].identifier@)
}

/// The configured units match the chain's declared extensions one to one,
/// position by position.
pub open spec fn binds(params: Seq<ExtensionParams>, declared: Seq<DeclaredExtension>) -> bool {
    &&& params.len() == declared.len()
    &&& binds_prefix(params, declared, params.len() as int)
}

/// The units that a sequence of parameters builds, position by position.
pub open spec fn units_of(params: Seq<ExtensionParams>) -> Seq<Extension> {
    params.map_values(|p: ExtensionParams| p.unit_spec())
}

/// An ordered, fixed sequence of signed extensions bound to a chain.
pub struct ExtensionChain {
    pub units: Vec<Extension>,
}

impl ExtensionChain {
    /// Builds one unit per configured position, after checking that the unit
    /// at each position identifies the name that the chain declares there.
    /// Fails at the first position where that does not hold, and when the
    /// chain declares more or fewer extensions than are configured; no
    /// partial chain is returned.
    pub fn new(
        declared: &Vec<DeclaredExtension>,
        types: &scale_info::PortableRegistry,
        params: Vec<ExtensionParams>,
    ) -> (r: Result<ExtensionChain, ConstructionError>)
        ensures
            r is Ok <==> binds(params@, declared@),
            r matches Ok(c) ==> c.units@ == units_of(params@),
            r matches Err(ConstructionError::MissingExtension { index }) ==> index
                == declared@.len() && index < params@.len() && binds_prefix(
                params@,
                declared@,
                index as int,
            ),
            r matches Err(ConstructionError::UnrecognizedExtension { index }) ==> index
                < declared@.len() && binds_prefix(params@, declared@, index as int) && (index
                < params@.len() ==> !params@[index as int].identifies_spec(
                declared@[index as int].identifier@,
            )),
    {
        let n = params.len();
        let mut i: usize = 0;
        while i < n
            invariant
                n == params@.len(),
                i <= n,
                binds_prefix(params@, declared@, i as int),
            decreases n - i,
        {
            if i >= declared.len() {
                return Err(ConstructionError::MissingExtension { index: i });
            }
            if !params[i].identifies(declared[i].identifier.as_str(), declared[i].extra_ty, types) {
                return Err(ConstructionError::UnrecognizedExtension { index: i });
            }
            i += 1;
        }
        if declared.len() > n {
            return Err(ConstructionError::UnrecognizedExtension { index: n });
        }
        let ghost p0 = params@;
        let mut rest = params;
        let mut units: Vec<Extension> = Vec::new();
        let mut k: usize = 0;
        while k < n
            invariant
                n == p0.len(),
                k <= n,
                rest@ == p0.subrange(k as int, n as int),
                units@ == units_of(p0.subrange(0, k as int)),
            decreases n - k,
        {
            let p = rest.remove(0);
            assert(p == p0[k as int]);
            let u = match Extension::new(p) {
                Ok(u) => u,
                Err(e) => return Err(e),
            };
            units.push(u);
            k += 1;
            assert(rest@ =~= p0.subrange(k as int, n as int));
            assert(units@ =~= units_of(p0.subrange(0, k as int)));
        }
        assert(p0.subrange(0, n as int) =~= p0);
        Ok(ExtensionChain { units })
    }

    /// Every unit's extra data, concatenated in position order.
    pub fn encode_extra_all(&self) -> (r: Vec<u8>)
        ensures
            r@ == concat_extra(self.units@),
    {
        let mut v: Vec<u8> = Vec::new();
        let mut i: usize = 0;
        while i < self.units.len()
            invariant
                i <= self.units@.len(),
                v@ == concat_extra(self.units@.subrange(0, i as int)),
            decreases self.units@.len() - i,
        {
            self.units[i].encode_extra_to(&mut v);
            i += 1;
            assert(self.units@.subrange(0, i as int).drop_last() =~= self.units@.subrange(
                0,
                i - 1,
            ));
        }
        assert(self.units@.subrange(0, i as int) =~= self.units@);
        v
    }

    /// Every unit's additional data, concatenated in position order.
    pub fn encode_additional_all(&self) -> (r: Vec<u8>)
        ensures
            r@ == concat_additional(self.units@),
    {
        let mut v: Vec<u8> = Vec::new();
        let mut i: usize = 0;
        while i < self.units.len()
            invariant
                i <= self.units@.len(),
                v@ == concat_additional(self.units@.subrange(0, i as int)),
            decreases self.units@.len() - i,
        {
            self.units[i].encode_additional_to(&mut v);
            i += 1;
            assert(self.units@.subrange(0, i as int).drop_last() =~= self.units@.subrange(
                0,
                i - 1,
            ));
        }
        assert(self.units@.subrange(0, i as int) =~= self.units@);
        v
    }
}

/// The extra data of a whole chain is as long as the sum of its units'
/// extra data, and a metadata-check unit always adds exactly one byte.
pub proof fn lemma_extra_all_len(units: Seq<Extension>)
    ensures
        concat_extra(units).len() == sum_extra_len(units),
        forall|i: int|
            0 <= i < units.len() && (#[trigger] units[i] is MetadataCheck) ==> units[i].extra_spec().len()
                == 1,
    decreases units.len(),
{
    if units.len() > 0 {
        lemma_extra_all_len(units.drop_last());
    }
}

/// A chain whose declared names do not name the metadata-check extension at
/// the position where it is configured cannot be bound.
pub proof fn lemma_missing_metadata_check_unbound(
    params: Seq<ExtensionParams>,
    declared: Seq<DeclaredExtension>,
    i: int,
)
    requires
        0 <= i < params.len(),
        params[i] is MetadataCheck,
        i >= declared.len() || declared[i].identifier@ != check_metadata_hash_name(),
    ensures
        !binds(params, declared),
{
    if binds(params, declared) {
        assert(params[i].identifies_spec(declared[i].identifier@));
    }
}

} // verus!
