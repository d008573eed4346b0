//! The facet aggregators: each filters the resolved pallets by one declared
//! part and emits one aggregate artifact parameterized by the matching
//! pallets' paths, instance qualifiers, generics and final indices.

use vstd::prelude::*;
use vstd::string::StringExecFns;

use crate::decl::{clone_opt_string, clone_strings, find_part_spec, has_part_spec, Pallet};
use crate::error::CompositionError;

verus! {

/// The pallets declaring the given part, in declaration order.
pub open spec fn filtered_by_part(ps: Seq<Pallet>, part: Seq<char>) -> Seq<Pallet>
    decreases ps.len(),
{
    if ps.len() == 0 {
        Seq::empty()
    } else {
        let r = filtered_by_part(ps.drop_last(), part);
        if has_part_spec(ps.last().pallet_parts@, part) {
            r.push(ps.last())
        } else {
            r
        }
    }
}

/// The pallets declaring the given part, in declaration order, with the
/// pallet at position `skip` left out.
pub open spec fn filtered_by_part_except(ps: Seq<Pallet>, part: Seq<char>, skip: int) -> Seq<
    Pallet,
>
    decreases ps.len(),
{
    if ps.len() == 0 {
        Seq::empty()
    } else {
        let r = filtered_by_part_except(ps.drop_last(), part, skip);
        if ps.len() - 1 != skip && has_part_spec(ps.last().pallet_parts@, part) {
            r.push(ps.last())
        } else {
            r
        }
    }
}

/// An instance-qualified pallet whose given part carries no generics cannot
/// be aggregated: one non-generic type cannot be shared across instances.
pub open spec fn instance_without_generics(p: Pallet, part: Seq<char>) -> bool {
    match find_part_spec(p.pallet_parts@, part) {
        Option::Some(f) => p.instance is Some && f.generics@.len() == 0,
        Option::None => false,
    }
}

/// One variant of the aggregate event or origin union: the pallet path, its
/// instance qualifier, the generics of the aggregated part, and the final
/// index used as the wire-format discriminant.
#[derive(Debug)]
pub struct ExpandedVariant {
    pub pallet: String,
    pub instance: Option<String>,
    pub generics: Vec<String>,
    pub index: u8,
}

/// The aggregate event union over all pallets declaring `Event`.
#[derive(Debug)]
pub struct OuterEvent {
    pub runtime: String,
    pub variants: Vec<ExpandedVariant>,
}

/// The aggregate origin union: the variants of all pallets declaring
/// `Origin` except the system pallet, which is always included separately
/// through its own path and index.
#[derive(Debug)]
pub struct OuterOrigin {
    pub runtime: String,
    pub system_pallet: String,
    pub system_index: u8,
    pub variants: Vec<ExpandedVariant>,
}

/// One variant of the aggregate dispatch union: pallet path, declared name,
/// and the final index used as the wire-format discriminant.
#[derive(Debug)]
pub struct CallVariant {
    pub pallet: String,
    pub name: String,
    pub index: u8,
}

/// The aggregate dispatchable-call union over all pallets declaring `Call`.
#[derive(Debug)]
pub struct OuterDispatch {
    pub runtime: String,
    pub variants: Vec<CallVariant>,
}

/// One row of the metadata table: path, declared name, instance qualifier,
/// final index, and the names of the other declared parts.
#[derive(Debug)]
pub struct MetadataEntry {
    pub pallet: String,
    pub name: String,
    pub instance: Option<String>,
    pub index: u8,
    pub part_names: Vec<String>,
}

/// The metadata table over all pallets declaring the `Pallet` marker part.
#[derive(Debug)]
pub struct RuntimeMetadata {
    pub runtime: String,
    pub extrinsic: String,
    pub entries: Vec<MetadataEntry>,
}

/// One entry of the genesis-configuration aggregate: the derived config
/// name, the pallet path, its instance qualifier, and the generics of the
/// `Config` part.
#[derive(Debug)]
pub struct ConfigEntry {
    pub config_name: String,
    pub pallet: String,
    pub instance: Option<String>,
    pub generics: Vec<String>,
}

/// The genesis-configuration aggregate over all pallets declaring `Config`.
#[derive(Debug)]
pub struct OuterConfig {
    pub runtime: String,
    pub entries: Vec<ConfigEntry>,
}

/// The inherent-data aggregator: only the names of the pallets declaring
/// `Inherent`, with the block and extrinsic types it is parameterized by.
#[derive(Debug)]
pub struct OuterInherent {
    pub runtime: String,
    pub block: String,
    pub unchecked_extrinsic: String,
    pub pallets: Vec<String>,
}

/// The validation-hook aggregator: only the names of the pallets declaring
/// `ValidateUnsigned`.
#[derive(Debug)]
pub struct OuterValidateUnsigned {
    pub runtime: String,
    pub pallets: Vec<String>,
}

/// The names of the given pallets, in order.
pub open spec fn names_of(ps: Seq<Pallet>) -> Seq<String> {
    ps.map_values(|p: Pallet| p.name)
}

/// The variant carries the pallet's path, instance, final index, and the
/// generics of the pallet's first part with the given name.
pub open spec fn expanded_variant_matches(v: ExpandedVariant, p: Pallet, part: Seq<char>) -> bool {
    &&& v.pallet == p.pallet
    &&& v.instance == p.instance
    &&& (find_part_spec(p.pallet_parts@, part) matches Option::Some(f) && v.generics@
        == f.generics@)
    &&& v.index == p.index
}

/// The aggregate event union lists one variant per pallet declaring
/// `Event`, in declaration order.
pub open spec fn outer_event_matches(ev: OuterEvent, runtime: Seq<char>, ps: Seq<Pallet>) -> bool {
    &&& ev.runtime@ == runtime
    &&& ev.variants@.len() == filtered_by_part(ps, "Event"@).len()
    &&& forall|k: int|
        0 <= k < ev.variants@.len() ==> expanded_variant_matches(
            #[trigger] ev.variants@[k],
            filtered_by_part(ps, "Event"@)[k],
            "Event"@,
        )
}

/// The aggregate origin union lists one variant per non-system pallet
/// declaring `Origin`, in declaration order, and carries the system
/// pallet's path and index separately.
pub open spec fn outer_origin_matches(
    og: OuterOrigin,
    runtime: Seq<char>,
    ps: Seq<Pallet>,
    sys: int,
) -> bool {
    &&& og.runtime@ == runtime
    &&& og.system_pallet == ps[sys].pallet
    &&& og.system_index == ps[sys].index
    &&& og.variants@.len() == filtered_by_part_except(ps, "Origin"@, sys).len()
    &&& forall|k: int|
        0 <= k < og.variants@.len() ==> expanded_variant_matches(
            #[trigger] og.variants@[k],
            filtered_by_part_except(ps, "Origin"@, sys)[k],
            "Origin"@,
        )
}

/// The variant carries the pallet's path, declared name and final index.
pub open spec fn call_variant_matches(v: CallVariant, p: Pallet) -> bool {
    &&& v.pallet == p.pallet
    &&& v.name == p.name
    &&& v.index == p.index
}

/// The aggregate dispatch union lists one variant per pallet declaring
/// `Call`, in declaration order.
pub open spec fn outer_dispatch_matches(d: OuterDispatch, runtime: Seq<char>, ps: Seq<Pallet>) -> bool {
    &&& d.runtime@ == runtime
    &&& d.variants@.len() == filtered_by_part(ps, "Call"@).len()
    &&& forall|k: int|
        0 <= k < d.variants@.len() ==> call_variant_matches(
            #[trigger] d.variants@[k],
            filtered_by_part(ps, "Call"@)[k],
        )
}

/// The names of the pallet's declared parts other than the `Pallet` marker,
/// in declaration order.
pub open spec fn other_part_names(parts: Seq<crate::decl::PalletPart>) -> Seq<String>
    decreases parts.len(),
{
    if parts.len() == 0 {
        Seq::empty()
    } else {
        let r = other_part_names(parts.drop_last());
        if parts.last().name@ == "Pallet"@ {
            r
        } else {
            r.push(parts.last().name)
        }
    }
}

/// The row carries the pallet's path, declared name, instance, final index,
/// and the names of its parts other than the `Pallet` marker.
pub open spec fn metadata_entry_matches(e: MetadataEntry, p: Pallet) -> bool {
    &&& e.pallet == p.pallet
    &&& e.name == p.name
    &&& e.instance == p.instance
    &&& e.index == p.index
    &&& e.part_names@ == other_part_names(p.pallet_parts@)
}

/// The metadata table lists one row per pallet declaring the `Pallet`
/// marker part, in declaration order.
pub open spec fn metadata_matches(
    md: RuntimeMetadata,
    runtime: Seq<char>,
    extrinsic: Seq<char>,
    ps: Seq<Pallet>,
) -> bool {
    &&& md.runtime@ == runtime
    &&& md.extrinsic@ == extrinsic
    &&& md.entries@.len() == filtered_by_part(ps, "Pallet"@).len()
    &&& forall|k: int|
        0 <= k < md.entries@.len() ==> metadata_entry_matches(
            #[trigger] md.entries@[k],
            filtered_by_part(ps, "Pallet"@)[k],
        )
}

/// The entry names the pallet's genesis configuration after its declared
/// name, and carries its path, instance and the generics of its `Config`
/// part.
pub open spec fn config_entry_matches(e: ConfigEntry, p: Pallet) -> bool {
    &&& e.config_name@ == p.name@ + "Config"@
    &&& e.pallet == p.pallet
    &&& e.instance == p.instance
    &&& (find_part_spec(p.pallet_parts@, "Config"@) matches Option::Some(f) && e.generics@
        == f.generics@)
}

/// The genesis aggregate lists one entry per pallet declaring `Config`, in
/// declaration order.
pub open spec fn outer_config_matches(c: OuterConfig, runtime: Seq<char>, ps: Seq<Pallet>) -> bool {
    &&& c.runtime@ == runtime
    &&& c.entries@.len() == filtered_by_part(ps, "Config"@).len()
    &&& forall|k: int|
        0 <= k < c.entries@.len() ==> config_entry_matches(
            #[trigger] c.entries@[k],
            filtered_by_part(ps, "Config"@)[k],
        )
}

/// The inherent aggregator lists the names of the pallets declaring
/// `Inherent`, in declaration order.
pub open spec fn outer_inherent_matches(
    ih: OuterInherent,
    runtime: Seq<char>,
    block: Seq<char>,
    unchecked_extrinsic: Seq<char>,
    ps: Seq<Pallet>,
) -> bool {
    &&& ih.runtime@ == runtime
    &&& ih.block@ == block
    &&& ih.unchecked_extrinsic@ == unchecked_extrinsic
    &&& ih.pallets@ == names_of(filtered_by_part(ps, "Inherent"@))
}

/// The validation aggregator lists the names of the pallets declaring
/// `ValidateUnsigned`, in declaration order.
pub open spec fn validate_unsigned_matches(
    vu: OuterValidateUnsigned,
    runtime: Seq<char>,
    ps: Seq<Pallet>,
) -> bool {
    &&& vu.runtime@ == runtime
    &&& vu.pallets@ == names_of(filtered_by_part(ps, "ValidateUnsigned"@))
}

/// Aggregate the event union.  Fails on the first pallet (in declaration
/// order) that is instance-qualified but declares a non-generic `Event`.
#[verifier::loop_isolation(false)]
pub fn decl_outer_event(runtime: &String, pallets: &Vec<Pallet>) -> (r: Result<
    OuterEvent,
    CompositionError,
>)
    ensures
        (match r {
            Result::Ok(ev) => {
                &&& outer_event_matches(ev, runtime@, pallets@)
                &&& forall|k: int|
                    0 <= k < pallets@.len() ==> !instance_without_generics(
                        #[trigger] pallets@[k],
                        "Event"@,
                    )
            },
            Result::Err(e) => match e {
                CompositionError::InstanceRequiresGenericEvent { at } => {
                    &&& at < pallets@.len()
                    &&& instance_without_generics(pallets@[at as int], "Event"@)
                    &&& forall|m: int|
                        0 <= m < at ==> !instance_without_generics(
                            #[trigger] pallets@[m],
                            "Event"@,
                        )
                },
                _ => false,
            },
        }),
{
    let mut variants: Vec<ExpandedVariant> = Vec::new();
    let mut j: usize = 0;
    proof {
        assert(pallets@.take(0) =~= Seq::<Pallet>::empty());
    }
    while j < pallets.len()
        invariant
            j <= pallets@.len(),
            variants@.len() == filtered_by_part(pallets@.take(j as int), "Event"@).len(),
            forall|k: int|
                0 <= k < variants@.len() ==> expanded_variant_matches(
                    #[trigger] variants@[k],
                    filtered_by_part(pallets@.take(j as int), "Event"@)[k],
                    "Event"@,
                ),
            forall|m: int|
                0 <= m < j ==> !instance_without_generics(#[trigger] pallets@[m], "Event"@),
        decreases pallets@.len() - j,
    {
        let p = &pallets[j];
        proof {
            assert(pallets@.take(j as int + 1).drop_last() =~= pallets@.take(j as int));
            assert(pallets@.take(j as int + 1).last() == pallets@[j as int]);
        }
        if let Some(part) = p.find_part("Event") {
            if p.instance.is_some() && part.generics.len() == 0 {
                return Err(CompositionError::InstanceRequiresGenericEvent { at: j });
            }
            variants.push(
                ExpandedVariant {
                    pallet: p.pallet.clone(),
                    instance: clone_opt_string(&p.instance),
                    generics: clone_strings(&part.generics),
                    index: p.index,
                },
            );
        }
        j = j + 1;
    }
    proof {
        assert(pallets@.take(j as int) =~= pallets@);
    }
    Ok(OuterEvent { runtime: runtime.clone(), variants })
}

/// Aggregate the origin union over all pallets but the system one, which is
/// always included separately by its own path and index.  Fails on the
/// first non-system pallet (in declaration order) that is
/// instance-qualified but declares a non-generic `Origin`.
#[verifier::loop_isolation(false)]
pub fn decl_outer_origin(runtime: &String, pallets: &Vec<Pallet>, system_pos: usize) -> (r: Result<
    OuterOrigin,
    CompositionError,
>)
    requires
        system_pos < pallets@.len(),
    ensures
        (match r {
            Result::Ok(og) => {
                &&& outer_origin_matches(og, runtime@, pallets@, system_pos as int)
                &&& forall|k: int|
                    0 <= k < pallets@.len() && k != system_pos ==> !instance_without_generics(
                        #[trigger] pallets@[k],
                        "Origin"@,
                    )
            },
            Result::Err(e) => match e {
                CompositionError::InstanceRequiresGenericOrigin { at } => {
                    &&& at < pallets@.len()
                    &&& at != system_pos
                    &&& instance_without_generics(pallets@[at as int], "Origin"@)
                    &&& forall|m: int|
                        0 <= m < at && m != system_pos ==> !instance_without_generics(
                            #[trigger] pallets@[m],
                            "Origin"@,
                        )
                },
                _ => false,
            },
        }),
{
    let mut variants: Vec<ExpandedVariant> = Vec::new();
    let mut j: usize = 0;
    proof {
        assert(pallets@.take(0) =~= Seq::<Pallet>::empty());
    }
    while j < pallets.len()
        invariant
            j <= pallets@.len(),
            variants@.len() == filtered_by_part_except(
                pallets@.take(j as int),
                "Origin"@,
                system_pos as int,
            ).len(),
            forall|k: int|
                0 <= k < variants@.len() ==> expanded_variant_matches(
                    #[trigger] variants@[k],
                    filtered_by_part_except(pallets@.take(j as int), "Origin"@, system_pos as int)[k],
                    "Origin"@,
                ),
            forall|m: int|
                0 <= m < j && m != system_pos ==> !instance_without_generics(
                    #[trigger] pallets@[m],
                    "Origin"@,
                ),
        decreases pallets@.len() - j,
    {
        proof {
            assert(pallets@.take(j as int + 1).drop_last() =~= pallets@.take(j as int));
            assert(pallets@.take(j as int + 1).last() == pallets@[j as int]);
        }
        if j != system_pos {
            let p = &pallets[j];
            if let Some(part) = p.find_part("Origin") {
                if p.instance.is_some() && part.generics.len() == 0 {
                    return Err(CompositionError::InstanceRequiresGenericOrigin { at: j });
                }
                variants.push(
                    ExpandedVariant {
                        pallet: p.pallet.clone(),
                        instance: clone_opt_string(&p.instance),
                        generics: clone_strings(&part.generics),
                        index: p.index,
                    },
                );
            }
        }
        j = j + 1;
    }
    proof {
        assert(pallets@.take(j as int) =~= pallets@);
    }
    let system = &pallets[system_pos];
    Ok(
        OuterOrigin {
            runtime: runtime.clone(),
            system_pallet: system.pallet.clone(),
            system_index: system.index,
            variants,
        },
    )
}

/// Aggregate the dispatchable-call union over all pallets declaring `Call`.
#[verifier::loop_isolation(false)]
pub fn decl_outer_dispatch(runtime: &String, pallets: &Vec<Pallet>) -> (r: OuterDispatch)
    ensures
        outer_dispatch_matches(r, runtime@, pallets@),
{
    let mut variants: Vec<CallVariant> = Vec::new();
    let mut j: usize = 0;
    proof {
        assert(pallets@.take(0) =~= Seq::<Pallet>::empty());
    }
    while j < pallets.len()
        invariant
            j <= pallets@.len(),
            variants@.len() == filtered_by_part(pallets@.take(j as int), "Call"@).len(),
            forall|k: int|
                0 <= k < variants@.len() ==> call_variant_matches(
                    #[trigger] variants@[k],
                    filtered_by_part(pallets@.take(j as int), "Call"@)[k],
                ),
        decreases pallets@.len() - j,
    {
        let p = &pallets[j];
        proof {
            assert(pallets@.take(j as int + 1).drop_last() =~= pallets@.take(j as int));
            assert(pallets@.take(j as int + 1).last() == pallets@[j as int]);
        }
        if p.exists_part("Call") {
            variants.push(
                CallVariant { pallet: p.pallet.clone(), name: p.name.clone(), index: p.index },
            );
        }
        j = j + 1;
    }
    proof {
        assert(pallets@.take(j as int) =~= pallets@);
    }
    OuterDispatch { runtime: runtime.clone(), variants }
}

/// Build the metadata table: one row per pallet declaring the `Pallet`
/// marker part, carrying the names of its other parts.
#[verifier::loop_isolation(false)]
pub fn decl_runtime_metadata(runtime: &String, pallets: &Vec<Pallet>, extrinsic: &String) -> (r:
    RuntimeMetadata)
    ensures
        metadata_matches(r, runtime@, extrinsic@, pallets@),
{
    let mut entries: Vec<MetadataEntry> = Vec::new();
    let mut j: usize = 0;
    proof {
        assert(pallets@.take(0) =~= Seq::<Pallet>::empty());
    }
    while j < pallets.len()
        invariant
            j <= pallets@.len(),
            entries@.len() == filtered_by_part(pallets@.take(j as int), "Pallet"@).len(),
            forall|k: int|
                0 <= k < entries@.len() ==> metadata_entry_matches(
                    #[trigger] entries@[k],
                    filtered_by_part(pallets@.take(j as int), "Pallet"@)[k],
                ),
        decreases pallets@.len() - j,
    {
        let p = &pallets[j];
        proof {
            assert(pallets@.take(j as int + 1).drop_last() =~= pallets@.take(j as int));
            assert(pallets@.take(j as int + 1).last() == pallets@[j as int]);
        }
        if p.exists_part("Pallet") {
            let parts = p.pallet_parts();
            let mut part_names: Vec<String> = Vec::new();
            let mut i: usize = 0;
            proof {
                assert(parts@.take(0) =~= Seq::<crate::decl::PalletPart>::empty());
            }
            while i < parts.len()
                invariant
                    i <= parts@.len(),
                    part_names@ == other_part_names(parts@.take(i as int)),
                decreases parts@.len() - i,
            {
                proof {
                    assert(parts@.take(i as int + 1).drop_last() =~= parts@.take(i as int));
                    assert(parts@.take(i as int + 1).last() == parts@[i as int]);
                }
                let not_marker: bool = {
                    let marker: String = "Pallet".to_owned();
                    !(parts[i].name == marker)
                };
                if not_marker {
                    part_names.push(parts[i].name.clone());
                }
                i = i + 1;
            }
            proof {
                assert(parts@.take(i as int) =~= parts@);
            }
            entries.push(
                MetadataEntry {
                    pallet: p.pallet.clone(),
                    name: p.name.clone(),
                    instance: clone_opt_string(&p.instance),
                    index: p.index,
                    part_names,
                },
            );
        }
        j = j + 1;
    }
    proof {
        assert(pallets@.take(j as int) =~= pallets@);
    }
    RuntimeMetadata { runtime: runtime.clone(), extrinsic: extrinsic.clone(), entries }
}

/// Aggregate the genesis configuration: one entry per pallet declaring
/// `Config`, named after the pallet's declared name.
#[verifier::loop_isolation(false)]
pub fn decl_outer_config(runtime: &String, pallets: &Vec<Pallet>) -> (r: OuterConfig)
    ensures
        outer_config_matches(r, runtime@, pallets@),
{
    let mut entries: Vec<ConfigEntry> = Vec::new();
    let mut j: usize = 0;
    proof {
        assert(pallets@.take(0) =~= Seq::<Pallet>::empty());
    }
    while j < pallets.len()
        invariant
            j <= pallets@.len(),
            entries@.len() == filtered_by_part(pallets@.take(j as int), "Config"@).len(),
            forall|k: int|
                0 <= k < entries@.len() ==> config_entry_matches(
                    #[trigger] entries@[k],
                    filtered_by_part(pallets@.take(j as int), "Config"@)[k],
                ),
        decreases pallets@.len() - j,
    {
        let p = &pallets[j];
        proof {
            assert(pallets@.take(j as int + 1).drop_last() =~= pallets@.take(j as int));
            assert(pallets@.take(j as int + 1).last() == pallets@[j as int]);
        }
        if let Some(part) = p.find_part("Config") {
            entries.push(
                ConfigEntry {
                    config_name: p.name.clone().concat("Config"),
                    pallet: p.pallet.clone(),
                    instance: clone_opt_string(&p.instance),
                    generics: clone_strings(&part.generics),
                },
            );
        }
        j = j + 1;
    }
    proof {
        assert(pallets@.take(j as int) =~= pallets@);
    }
    OuterConfig { runtime: runtime.clone(), entries }
}

/// Aggregate the inherent-data aggregator: the names of the pallets
/// declaring `Inherent`.
#[verifier::loop_isolation(false)]
pub fn decl_outer_inherent(
    runtime: &String,
    block: &String,
    unchecked_extrinsic: &String,
    pallets: &Vec<Pallet>,
) -> (r: OuterInherent)
    ensures
        outer_inherent_matches(r, runtime@, block@, unchecked_extrinsic@, pallets@),
{
    let names = part_pallet_names(pallets, "Inherent");
    proof {
        assert(names@ == names_of(filtered_by_part(pallets@, "Inherent"@)));
    }
    OuterInherent {
        runtime: runtime.clone(),
        block: block.clone(),
        unchecked_extrinsic: unchecked_extrinsic.clone(),
        pallets: names,
    }
}

/// Aggregate the validation-hook aggregator: the names of the pallets
/// declaring `ValidateUnsigned`.
#[verifier::loop_isolation(false)]
pub fn decl_validate_unsigned(runtime: &String, pallets: &Vec<Pallet>) -> (r: OuterValidateUnsigned)
    ensures
        validate_unsigned_matches(r, runtime@, pallets@),
{
    let names = part_pallet_names(pallets, "ValidateUnsigned");
    OuterValidateUnsigned { runtime: runtime.clone(), pallets: names }
}

/// The names of the pallets declaring the given part, in declaration order.
#[verifier::loop_isolation(false)]
fn part_pallet_names(pallets: &Vec<Pallet>, part: &str) -> (r: Vec<String>)
    ensures
        r@ == names_of(filtered_by_part(pallets@, part@)),
{
    let mut names: Vec<String> = Vec::new();
    let mut j: usize = 0;
    proof {
        assert(pallets@.take(0) =~= Seq::<Pallet>::empty());
        assert(names@ =~= names_of(filtered_by_part(pallets@.take(0), part@)));
    }
    while j < pallets.len()
        invariant
            j <= pallets@.len(),
            names@ == names_of(filtered_by_part(pallets@.take(j as int), part@)),
        decreases pallets@.len() - j,
    {
        let p = &pallets[j];
        proof {
            assert(pallets@.take(j as int + 1).drop_last() =~= pallets@.take(j as int));
            assert(pallets@.take(j as int + 1).last() == pallets@[j as int]);
        }
        if p.exists_part(part) {
            names.push(p.name.clone());
            proof {
                assert(names@ =~= names_of(filtered_by_part(pallets@.take(j as int + 1), part@)));
            }
        }
        j = j + 1;
    }
    proof {
        assert(pallets@.take(j as int) =~= pallets@);
    }
    names
}

} // verus!
