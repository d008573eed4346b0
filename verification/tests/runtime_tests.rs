use runtime_composition::compose::PalletComposition;
use runtime_composition::decl::{PalletDeclaration, PalletPart};
use runtime_composition::error::CompositionError;
use runtime_composition::runtime::{construct_runtime, RuntimeDefinition};

fn plain_part(name: &str) -> PalletPart {
    PalletPart { name: name.to_string(), generics: vec![] }
}

fn generic_part(name: &str, generic: &str) -> PalletPart {
    PalletPart { name: name.to_string(), generics: vec![generic.to_string()] }
}

fn pallet_decl(name: &str, path: &str, index: Option<u8>, parts: Vec<PalletPart>) -> PalletDeclaration {
    PalletDeclaration {
        name: name.to_string(),
        pallet: path.to_string(),
        instance: None,
        index,
        pallet_parts: parts,
    }
}

fn system_decl() -> PalletDeclaration {
    pallet_decl(
        "System",
        "frame_system",
        None,
        vec![
            plain_part("Pallet"),
            plain_part("Call"),
            generic_part("Config", "T"),
            generic_part("Event", "T"),
            generic_part("Origin", "T"),
        ],
    )
}

fn definition(pallets: Vec<PalletDeclaration>) -> RuntimeDefinition {
    RuntimeDefinition {
        name: "Runtime".to_string(),
        block: "Block".to_string(),
        node_block: "NodeBlock".to_string(),
        unchecked_extrinsic: "UncheckedExtrinsic".to_string(),
        pallets,
    }
}

fn flatten(c: &PalletComposition) -> Vec<String> {
    match c {
        PalletComposition::Nil => vec![],
        PalletComposition::Pair(name, rest) => {
            let mut v = flatten(rest);
            v.push(name.clone());
            v
        },
    }
}

#[test]
fn missing_system_module_is_rejected() {
    let def = definition(vec![pallet_decl(
        "Balances",
        "pallet_balances",
        None,
        vec![plain_part("Pallet")],
    )]);
    let err = construct_runtime(def, "frame_support".to_string()).unwrap_err();
    assert_eq!(err, CompositionError::MissingSystemModule);
}

#[test]
fn system_pallet_accepted_at_any_position() {
    let def = definition(vec![
        pallet_decl("Balances", "pallet_balances", None, vec![plain_part("Pallet")]),
        system_decl(),
    ]);
    let bundle = construct_runtime(def, "frame_support".to_string()).unwrap();
    assert_eq!(bundle.outer_origin.system_pallet, "frame_system");
    assert_eq!(bundle.outer_origin.system_index, 1);
}

#[test]
fn bundle_carries_definition_and_crate_access() {
    let def = definition(vec![system_decl()]);
    let bundle = construct_runtime(def, "frame_support".to_string()).unwrap();
    assert_eq!(bundle.crate_access, "frame_support");
    assert_eq!(bundle.name, "Runtime");
    assert_eq!(bundle.block, "Block");
    assert_eq!(bundle.node_block, "NodeBlock");
    assert_eq!(bundle.unchecked_extrinsic, "UncheckedExtrinsic");
    assert_eq!(bundle.integrity_test.crate_access, "frame_support");
    assert_eq!(bundle.inherent.block, "Block");
    assert_eq!(bundle.inherent.unchecked_extrinsic, "UncheckedExtrinsic");
    assert_eq!(bundle.metadata.extrinsic, "UncheckedExtrinsic");
}

#[test]
fn event_union_collects_indexed_variants() {
    let def = definition(vec![
        system_decl(),
        pallet_decl("Utility", "pallet_utility", None, vec![plain_part("Pallet"), plain_part("Call")]),
        pallet_decl(
            "Balances",
            "pallet_balances",
            Some(9),
            vec![plain_part("Pallet"), generic_part("Event", "T")],
        ),
    ]);
    let bundle = construct_runtime(def, "frame_support".to_string()).unwrap();
    let ev = &bundle.outer_event;
    assert_eq!(ev.runtime, "Runtime");
    assert_eq!(ev.variants.len(), 2);
    assert_eq!(ev.variants[0].pallet, "frame_system");
    assert_eq!(ev.variants[0].index, 0);
    assert_eq!(ev.variants[0].generics, vec!["T".to_string()]);
    assert_eq!(ev.variants[1].pallet, "pallet_balances");
    assert_eq!(ev.variants[1].index, 9);
}

#[test]
fn instance_with_generic_event_is_accepted() {
    let mut tokens = pallet_decl(
        "Tokens",
        "pallet_tokens",
        None,
        vec![plain_part("Pallet"), generic_part("Event", "T")],
    );
    tokens.instance = Some("Instance1".to_string());
    let def = definition(vec![system_decl(), tokens]);
    let bundle = construct_runtime(def, "frame_support".to_string()).unwrap();
    assert_eq!(bundle.outer_event.variants.len(), 2);
    assert_eq!(bundle.outer_event.variants[1].instance, Some("Instance1".to_string()));
}

#[test]
fn instance_requires_generic_event() {
    let mut tokens = pallet_decl(
        "Tokens",
        "pallet_tokens",
        None,
        vec![plain_part("Pallet"), plain_part("Event")],
    );
    tokens.instance = Some("Instance1".to_string());
    let def = definition(vec![system_decl(), tokens]);
    let err = construct_runtime(def, "frame_support".to_string()).unwrap_err();
    assert_eq!(err, CompositionError::InstanceRequiresGenericEvent { at: 1 });
}

#[test]
fn instance_requires_generic_origin() {
    let mut tokens = pallet_decl(
        "Tokens",
        "pallet_tokens",
        None,
        vec![plain_part("Pallet"), generic_part("Event", "T"), plain_part("Origin")],
    );
    tokens.instance = Some("Instance1".to_string());
    let def = definition(vec![system_decl(), tokens]);
    let err = construct_runtime(def, "frame_support".to_string()).unwrap_err();
    assert_eq!(err, CompositionError::InstanceRequiresGenericOrigin { at: 1 });
}

#[test]
fn event_failure_reported_before_origin_failure() {
    let mut tokens = pallet_decl(
        "Tokens",
        "pallet_tokens",
        None,
        vec![plain_part("Pallet"), plain_part("Event"), plain_part("Origin")],
    );
    tokens.instance = Some("Instance1".to_string());
    let def = definition(vec![system_decl(), tokens]);
    let err = construct_runtime(def, "frame_support".to_string()).unwrap_err();
    assert_eq!(err, CompositionError::InstanceRequiresGenericEvent { at: 1 });
}

#[test]
fn dispatch_union_collects_call_pallets() {
    let def = definition(vec![
        system_decl(),
        pallet_decl("Timestamp", "pallet_timestamp", None, vec![plain_part("Pallet")]),
        pallet_decl(
            "Balances",
            "pallet_balances",
            None,
            vec![plain_part("Pallet"), plain_part("Call")],
        ),
    ]);
    let bundle = construct_runtime(def, "frame_support".to_string()).unwrap();
    let d = &bundle.dispatch;
    assert_eq!(d.variants.len(), 2);
    assert_eq!(d.variants[0].pallet, "frame_system");
    assert_eq!(d.variants[0].name, "System");
    assert_eq!(d.variants[0].index, 0);
    assert_eq!(d.variants[1].pallet, "pallet_balances");
    assert_eq!(d.variants[1].name, "Balances");
    assert_eq!(d.variants[1].index, 2);
}

#[test]
fn genesis_config_entries_are_named_after_pallets() {
    let def = definition(vec![
        system_decl(),
        pallet_decl(
            "Balances",
            "pallet_balances",
            None,
            vec![plain_part("Pallet"), generic_part("Config", "T")],
        ),
        pallet_decl("Utility", "pallet_utility", None, vec![plain_part("Pallet")]),
    ]);
    let bundle = construct_runtime(def, "frame_support".to_string()).unwrap();
    let c = &bundle.outer_config;
    assert_eq!(c.entries.len(), 2);
    assert_eq!(c.entries[0].config_name, "SystemConfig");
    assert_eq!(c.entries[0].pallet, "frame_system");
    assert_eq!(c.entries[1].config_name, "BalancesConfig");
    assert_eq!(c.entries[1].generics, vec!["T".to_string()]);
    assert_eq!(c.entries[1].instance, None);
}

#[test]
fn metadata_rows_list_other_parts() {
    let def = definition(vec![
        system_decl(),
        pallet_decl(
            "Balances",
            "pallet_balances",
            Some(4),
            vec![plain_part("Pallet"), plain_part("Call"), generic_part("Event", "T")],
        ),
    ]);
    let bundle = construct_runtime(def, "frame_support".to_string()).unwrap();
    let md = &bundle.metadata;
    assert_eq!(md.entries.len(), 2);
    assert_eq!(md.entries[1].pallet, "pallet_balances");
    assert_eq!(md.entries[1].name, "Balances");
    assert_eq!(md.entries[1].index, 4);
    assert_eq!(md.entries[1].part_names, vec!["Call".to_string(), "Event".to_string()]);
}

#[test]
fn inherent_and_validation_aggregators_list_names() {
    let def = definition(vec![
        system_decl(),
        pallet_decl(
            "Timestamp",
            "pallet_timestamp",
            None,
            vec![plain_part("Pallet"), plain_part("Inherent")],
        ),
        pallet_decl(
            "Claims",
            "pallet_claims",
            None,
            vec![plain_part("Pallet"), plain_part("ValidateUnsigned"), plain_part("Inherent")],
        ),
    ]);
    let bundle = construct_runtime(def, "frame_support".to_string()).unwrap();
    assert_eq!(bundle.inherent.pallets, vec!["Timestamp".to_string(), "Claims".to_string()]);
    assert_eq!(bundle.validate_unsigned.pallets, vec!["Claims".to_string()]);
}

#[test]
fn composition_recovers_declaration_order() {
    let def = definition(vec![
        pallet_decl("Babe", "pallet_babe", None, vec![plain_part("Pallet")]),
        system_decl(),
        pallet_decl("Grandpa", "pallet_grandpa", None, vec![plain_part("Pallet")]),
    ]);
    let bundle = construct_runtime(def, "frame_support".to_string()).unwrap();
    let with_system = flatten(&bundle.all_pallets.all_pallets_with_system);
    assert_eq!(with_system, vec!["Babe".to_string(), "System".to_string(), "Grandpa".to_string()]);
    let without_system = flatten(&bundle.all_pallets.all_pallets);
    assert_eq!(without_system, vec!["Babe".to_string(), "Grandpa".to_string()]);
}

#[test]
fn deprecated_composition_aliases_match() {
    let def = definition(vec![system_decl(), pallet_decl(
        "Balances",
        "pallet_balances",
        None,
        vec![plain_part("Pallet")],
    )]);
    let bundle = construct_runtime(def, "frame_support".to_string()).unwrap();
    assert_eq!(flatten(bundle.all_pallets.all_modules()), flatten(&bundle.all_pallets.all_pallets));
    assert_eq!(
        flatten(bundle.all_pallets.all_modules_with_system()),
        flatten(&bundle.all_pallets.all_pallets_with_system)
    );
}

#[test]
fn pallet_aliases_carry_instance() {
    let mut tokens = pallet_decl(
        "Tokens",
        "pallet_tokens",
        None,
        vec![plain_part("Pallet"), generic_part("Event", "T")],
    );
    tokens.instance = Some("Instance1".to_string());
    let def = definition(vec![system_decl(), tokens]);
    let bundle = construct_runtime(def, "frame_support".to_string()).unwrap();
    assert_eq!(bundle.all_pallets.aliases.len(), 2);
    assert_eq!(bundle.all_pallets.aliases[0].name, "System");
    assert_eq!(bundle.all_pallets.aliases[0].instance, None);
    assert_eq!(bundle.all_pallets.aliases[1].name, "Tokens");
    assert_eq!(bundle.all_pallets.aliases[1].pallet, "pallet_tokens");
    assert_eq!(bundle.all_pallets.aliases[1].instance, Some("Instance1".to_string()));
}

#[test]
fn lookup_round_trip_over_resolved_pallets() {
    let def = definition(vec![
        system_decl(),
        pallet_decl("Balances", "pallet_balances", Some(7), vec![plain_part("Pallet")]),
        pallet_decl("Grandpa", "pallet_grandpa", None, vec![plain_part("Pallet")]),
    ]);
    let bundle = construct_runtime(def, "frame_support".to_string()).unwrap();
    let info = &bundle.pallet_info;
    assert_eq!(info.index_of("System"), Some(0));
    assert_eq!(info.index_of("Balances"), Some(7));
    assert_eq!(info.index_of("Grandpa"), Some(8));
    assert_eq!(info.name_of(0), Some("System".to_string()));
    assert_eq!(info.name_of(7), Some("Balances".to_string()));
    assert_eq!(info.name_of(8), Some("Grandpa".to_string()));
    assert_eq!(info.index_of("Aura"), None);
    assert_eq!(info.name_of(3), None);
}

#[test]
fn resolution_failure_aborts_the_whole_build() {
    let def = definition(vec![
        system_decl(),
        pallet_decl("Balances", "pallet_balances", Some(0), vec![plain_part("Pallet")]),
    ]);
    let err = construct_runtime(def, "frame_support".to_string()).unwrap_err();
    assert_eq!(err, CompositionError::DuplicateIndex { first: 0, second: 1, index: 0 });
}
