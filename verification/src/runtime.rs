//! The top-level orchestrator: validates the presence of the mandatory
//! system pallet, runs the index assignment engine, invokes every aggregator
//! and builder over the resolved pallets, and bundles their artifacts.

use vstd::prelude::*;

use crate::aggregate::{
    decl_outer_config, decl_outer_dispatch, decl_outer_event, decl_outer_inherent,
    decl_outer_origin, decl_runtime_metadata, decl_validate_unsigned, instance_without_generics,
    metadata_matches, outer_config_matches, outer_dispatch_matches, outer_event_matches,
    outer_inherent_matches, outer_origin_matches, validate_unsigned_matches, OuterConfig,
    OuterDispatch, OuterEvent, OuterInherent, OuterOrigin, OuterValidateUnsigned,
    RuntimeMetadata,
};
use crate::compose::{all_pallets_matches, decl_all_pallets, system_name, AllPallets};
use crate::decl::{Pallet, PalletDeclaration};
use crate::error::CompositionError;
use crate::lookup::{decl_pallet_runtime_setup, pallet_info_matches, PalletInfo};
use crate::resolve::{
    complete_pallets, lemma_resolution_ok_final, resolution_ok, resolution_result, resolved_seq,
};

verus! {

/// The parsed runtime composition: the runtime name, the three associated
/// type references of its `where` clause, and the ordered pallet
/// declarations.
#[derive(Debug)]
pub struct RuntimeDefinition {
    pub name: String,
    pub block: String,
    pub node_block: String,
    pub unchecked_extrinsic: String,
    pub pallets: Vec<PalletDeclaration>,
}

/// The fixed postamble fragment: an integrity-test harness invoking the
/// well-known integrity check on the "all pallets" composition, reached
/// through the crate-access alias.
#[derive(Debug)]
pub struct IntegrityTest {
    pub crate_access: String,
}

/// The complete artifact bundle, in emission order: the crate-access
/// preamble, the unused-type suppression marker and zero-sized runtime
/// marker (the type references below), the event union, the origin union,
/// the composition list, the lookup table, the call union, the metadata
/// table, the genesis aggregate, the inherent aggregator, the validation
/// aggregator, and the integrity-test postamble.
#[derive(Debug)]
pub struct ArtifactBundle {
    pub crate_access: String,
    pub name: String,
    pub block: String,
    pub node_block: String,
    pub unchecked_extrinsic: String,
    pub outer_event: OuterEvent,
    pub outer_origin: OuterOrigin,
    pub all_pallets: AllPallets,
    pub pallet_info: PalletInfo,
    pub dispatch: OuterDispatch,
    pub metadata: RuntimeMetadata,
    pub outer_config: OuterConfig,
    pub inherent: OuterInherent,
    pub validate_unsigned: OuterValidateUnsigned,
    pub integrity_test: IntegrityTest,
}

/// The position of the first pallet carrying the reserved system name.
pub open spec fn system_position(ps: Seq<Pallet>) -> Option<int>
    decreases ps.len(),
{
    if ps.len() == 0 {
        Option::None
    } else if ps[0].name@ == system_name() {
        Option::Some(0int)
    } else {
        match system_position(ps.skip(1)) {
            Option::Some(i) => Option::Some(i + 1),
            Option::None => Option::None,
        }
    }
}

/// Whether some pallet carries the reserved system name.
pub open spec fn has_system(ps: Seq<Pallet>) -> bool {
    system_position(ps) is Some
}

/// No pallet is instance-qualified with a non-generic `Event` part.
pub open spec fn event_clean(ps: Seq<Pallet>) -> bool {
    forall|k: int| 0 <= k < ps.len() ==> !instance_without_generics(#[trigger] ps[k], "Event"@)
}

/// No pallet other than the one at `sys` is instance-qualified with a
/// non-generic `Origin` part.
pub open spec fn origin_clean(ps: Seq<Pallet>, sys: int) -> bool {
    forall|k: int|
        0 <= k < ps.len() && k != sys ==> !instance_without_generics(#[trigger] ps[k], "Origin"@)
}

/// Whether the whole composition builds: resolution succeeds, the system
/// pallet is present, and the event and origin aggregations raise no
/// failure.
pub open spec fn build_ok(decls: Seq<PalletDeclaration>) -> bool {
    &&& resolution_ok(decls)
    &&& has_system(resolved_seq(decls))
    &&& event_clean(resolved_seq(decls))
    &&& origin_clean(resolved_seq(decls), system_position(resolved_seq(decls)).unwrap())
}

/// The failure a build reports: the resolution failure if resolution fails;
/// else the missing system pallet; else the first event violation in
/// declaration order; else the first origin violation in declaration order.
pub open spec fn build_error_matches(e: CompositionError, decls: Seq<PalletDeclaration>) -> bool {
    if !resolution_ok(decls) {
        resolution_result(decls) == Result::Err::<Seq<int>, CompositionError>(e)
    } else {
        let ps = resolved_seq(decls);
        if !has_system(ps) {
            e == CompositionError::MissingSystemModule
        } else {
            let sys = system_position(ps).unwrap();
            if !event_clean(ps) {
                match e {
                    CompositionError::InstanceRequiresGenericEvent { at } => {
                        &&& at < ps.len()
                        &&& instance_without_generics(ps[at as int], "Event"@)
                        &&& forall|m: int|
                            0 <= m < at ==> !instance_without_generics(
                                #[trigger] ps[m],
                                "Event"@,
                            )
                    },
                    _ => false,
                }
            } else {
                match e {
                    CompositionError::InstanceRequiresGenericOrigin { at } => {
                        &&& at < ps.len()
                        &&& at != sys
                        &&& instance_without_generics(ps[at as int], "Origin"@)
                        &&& forall|m: int|
                            0 <= m < at && m != sys ==> !instance_without_generics(
                                #[trigger] ps[m],
                                "Origin"@,
                            )
                    },
                    _ => false,
                }
            }
        }
    }
}

/// Every artifact of the bundle is consistent with the resolved pallets of
/// the definition: same names, same paths, same instances, same final
/// indices throughout.
pub open spec fn bundle_matches(
    b: ArtifactBundle,
    def: RuntimeDefinition,
    crate_access: Seq<char>,
) -> bool {
    let ps = resolved_seq(def.pallets@);
    let sys = system_position(ps).unwrap();
    &&& b.crate_access@ == crate_access
    &&& b.name@ == def.name@
    &&& b.block@ == def.block@
    &&& b.node_block@ == def.node_block@
    &&& b.unchecked_extrinsic@ == def.unchecked_extrinsic@
    &&& outer_event_matches(b.outer_event, def.name@, ps)
    &&& outer_origin_matches(b.outer_origin, def.name@, ps, sys)
    &&& all_pallets_matches(b.all_pallets, ps)
    &&& pallet_info_matches(b.pallet_info, ps)
    &&& b.pallet_info.wf()
    &&& outer_dispatch_matches(b.dispatch, def.name@, ps)
    &&& metadata_matches(b.metadata, def.name@, def.unchecked_extrinsic@, ps)
    &&& outer_config_matches(b.outer_config, def.name@, ps)
    &&& outer_inherent_matches(b.inherent, def.name@, def.block@, def.unchecked_extrinsic@, ps)
    &&& validate_unsigned_matches(b.validate_unsigned, def.name@, ps)
    &&& b.integrity_test.crate_access@ == crate_access
}

/// If row `i` is the first one named `System`, the system position is `i`.
proof fn lemma_system_position_first(ps: Seq<Pallet>, i: int)
    requires
        0 <= i < ps.len(),
        ps[i].name@ == system_name(),
        forall|m: int| 0 <= m < i ==> ps[m].name@ != system_name(),
    ensures
        system_position(ps) == Option::Some(i),
    decreases ps.len(),
{
    if i > 0 {
        let rest = ps.skip(1);
        assert(forall|m: int| 0 <= m < rest.len() ==> rest[m] == ps[m + 1]);
        lemma_system_position_first(rest, i - 1);
    }
}

/// Without a row named `System`, there is no system position.
proof fn lemma_system_position_none(ps: Seq<Pallet>)
    requires
        forall|m: int| 0 <= m < ps.len() ==> ps[m].name@ != system_name(),
    ensures
        system_position(ps) is None,
    decreases ps.len(),
{
    if ps.len() > 0 {
        let rest = ps.skip(1);
        assert(forall|m: int| 0 <= m < rest.len() ==> rest[m] == ps[m + 1]);
        lemma_system_position_none(rest);
    }
}

/// Locate the mandatory system pallet by its reserved name.
#[verifier::loop_isolation(false)]
fn find_system(pallets: &Vec<Pallet>) -> (r: Option<usize>)
    ensures
        (match r {
            Option::Some(u) => system_position(pallets@) == Option::Some(u as int) && u
                < pallets@.len(),
            Option::None => system_position(pallets@) is None,
        }),
{
    let system: String = "System".to_owned();
    let mut i: usize = 0;
    while i < pallets.len()
        invariant
            i <= pallets@.len(),
            system@ == system_name(),
            forall|m: int| 0 <= m < i ==> pallets@[m].name@ != system_name(),
        decreases pallets@.len() - i,
    {
        if pallets[i].name == system {
            proof {
                lemma_system_position_first(pallets@, i as int);
            }
            return Some(i);
        }
        i = i + 1;
    }
    proof {
        lemma_system_position_none(pallets@);
    }
    None
}

/// The fixed integrity-test postamble, reached through the crate-access
/// alias.
pub fn decl_integrity_test(crate_access: &String) -> (r: IntegrityTest)
    ensures
        r.crate_access@ == crate_access@,
{
    IntegrityTest { crate_access: crate_access.clone() }
}

/// Build the whole composition: resolve the declarations, require the
/// system pallet, aggregate every artifact over the resolved pallets, and
/// bundle them.  Any failure aborts the whole build; nothing is emitted.
#[verifier::rlimit(60)]
pub fn construct_runtime(definition: RuntimeDefinition, crate_access: String) -> (r: Result<
    ArtifactBundle,
    CompositionError,
>)
    ensures
        (match r {
            Result::Ok(bundle) => build_ok(definition.pallets@) && bundle_matches(
                bundle,
                definition,
                crate_access@,
            ),
            Result::Err(e) => !build_ok(definition.pallets@) && build_error_matches(
                e,
                definition.pallets@,
            ),
        }),
{
    let ghost decls: Seq<PalletDeclaration> = definition.pallets@;
    let RuntimeDefinition { name, block, node_block, unchecked_extrinsic, pallets } = definition;
    let resolved = match complete_pallets(pallets) {
        Ok(ps) => ps,
        Err(e) => {
            return Err(e);
        },
    };
    let ghost ps: Seq<Pallet> = resolved@;
    proof {
        lemma_resolution_ok_final(decls);
        assert forall|i: int, j: int| 0 <= i < j < ps.len() implies ps[i].name@ != ps[j].name@
            && ps[i].index != ps[j].index by {
            assert(ps[i] == crate::resolve::resolved_of(decls[i], crate::resolve::final_indices(decls)[i]));
            assert(ps[j] == crate::resolve::resolved_of(decls[j], crate::resolve::final_indices(decls)[j]));
            assert(0 <= crate::resolve::final_indices(decls)[i] <= 255);
            assert(0 <= crate::resolve::final_indices(decls)[j] <= 255);
        }
    }
    let sys: usize = match find_system(&resolved) {
        Some(i) => i,
        None => {
            return Err(CompositionError::MissingSystemModule);
        },
    };
    let outer_event = match decl_outer_event(&name, &resolved) {
        Ok(v) => v,
        Err(e) => {
            return Err(e);
        },
    };
    let outer_origin = match decl_outer_origin(&name, &resolved, sys) {
        Ok(v) => v,
        Err(e) => {
            return Err(e);
        },
    };
    let all_pallets = decl_all_pallets(&resolved);
    let pallet_info = decl_pallet_runtime_setup(&resolved);
    let dispatch = decl_outer_dispatch(&name, &resolved);
    let metadata = decl_runtime_metadata(&name, &resolved, &unchecked_extrinsic);
    let outer_config = decl_outer_config(&name, &resolved);
    let inherent = decl_outer_inherent(&name, &block, &unchecked_extrinsic, &resolved);
    let validate_unsigned = decl_validate_unsigned(&name, &resolved);
    let integrity_test = decl_integrity_test(&crate_access);
    proof {
        assert forall|i: int, j: int|
            0 <= i < j < pallet_info.entries@.len() implies pallet_info.entries@[i].name@
            != pallet_info.entries@[j].name@ && pallet_info.entries@[i].index
            != pallet_info.entries@[j].index by {
            assert(pallet_info.entries@[i].name == ps[i].name);
            assert(pallet_info.entries@[j].name == ps[j].name);
            assert(pallet_info.entries@[i].index == ps[i].index);
            assert(pallet_info.entries@[j].index == ps[j].index);
        }
    }
    let bundle = ArtifactBundle {
        crate_access,
        name,
        block,
        node_block,
        unchecked_extrinsic,
        outer_event,
        outer_origin,
        all_pallets,
        pallet_info,
        dispatch,
        metadata,
        outer_config,
        inherent,
        validate_unsigned,
        integrity_test,
    };
    Ok(bundle)
}

} // verus!
