use runtime_composition::decl::{PalletDeclaration, PalletPart};
use runtime_composition::error::CompositionError;
use runtime_composition::resolve::complete_pallets;

fn part(name: &str) -> PalletPart {
    PalletPart { name: name.to_string(), generics: vec![] }
}

fn decl(name: &str, index: Option<u8>) -> PalletDeclaration {
    PalletDeclaration {
        name: name.to_string(),
        pallet: format!("{}_pallet", name.to_lowercase()),
        instance: None,
        index,
        pallet_parts: vec![part("Pallet")],
    }
}

#[test]
fn implicit_indices_are_sequential() {
    let decls = vec![decl("System", None), decl("Balances", None), decl("Grandpa", None)];
    let pallets = complete_pallets(decls).unwrap();
    let indices: Vec<u8> = pallets.iter().map(|p| p.index).collect();
    assert_eq!(indices, vec![0, 1, 2]);
    let names: Vec<String> = pallets.iter().map(|p| p.name.clone()).collect();
    assert_eq!(names, vec!["System", "Balances", "Grandpa"]);
}

#[test]
fn explicit_index_resets_baseline() {
    let decls = vec![
        decl("System", Some(0)),
        decl("Balances", None),
        decl("Consensus", Some(5)),
        decl("Grandpa", None),
    ];
    let pallets = complete_pallets(decls).unwrap();
    let indices: Vec<u8> = pallets.iter().map(|p| p.index).collect();
    assert_eq!(indices, vec![0, 1, 5, 6]);
}

#[test]
fn resolved_pallets_keep_declaration_fields() {
    let mut d = decl("Balances", Some(3));
    d.instance = Some("Instance1".to_string());
    d.pallet_parts.push(part("Call"));
    let pallets = complete_pallets(vec![d]).unwrap();
    assert_eq!(pallets.len(), 1);
    assert_eq!(pallets[0].name, "Balances");
    assert_eq!(pallets[0].index, 3);
    assert_eq!(pallets[0].pallet, "balances_pallet");
    assert_eq!(pallets[0].instance, Some("Instance1".to_string()));
    assert_eq!(pallets[0].pallet_parts.len(), 2);
    assert_eq!(pallets[0].pallet_parts[1].name, "Call");
}

#[test]
fn duplicate_explicit_index_names_both_sites() {
    let decls = vec![decl("System", Some(2)), decl("Balances", Some(2))];
    let err = complete_pallets(decls).unwrap_err();
    assert_eq!(err, CompositionError::DuplicateIndex { first: 0, second: 1, index: 2 });
}

#[test]
fn implicit_index_can_conflict_with_explicit() {
    let decls = vec![decl("System", None), decl("Balances", Some(0))];
    let err = complete_pallets(decls).unwrap_err();
    assert_eq!(err, CompositionError::DuplicateIndex { first: 0, second: 1, index: 0 });
}

#[test]
fn duplicate_name_names_both_sites() {
    let decls = vec![decl("System", None), decl("Balances", None), decl("Balances", None)];
    let err = complete_pallets(decls).unwrap_err();
    assert_eq!(err, CompositionError::DuplicateName { first: 1, second: 2 });
}

#[test]
fn duplicate_index_reported_before_duplicate_name() {
    let decls = vec![decl("Balances", Some(0)), decl("Balances", Some(0))];
    let err = complete_pallets(decls).unwrap_err();
    assert_eq!(err, CompositionError::DuplicateIndex { first: 0, second: 1, index: 0 });
}

#[test]
fn implicit_index_past_255_overflows() {
    let decls = vec![decl("System", Some(255)), decl("Balances", None)];
    let err = complete_pallets(decls).unwrap_err();
    assert_eq!(err, CompositionError::IndexOverflow { at: 1 });
}

#[test]
fn overflow_reported_at_offending_declaration() {
    let decls = vec![decl("System", None), decl("Consensus", Some(255)), decl("Grandpa", None)];
    let err = complete_pallets(decls).unwrap_err();
    assert_eq!(err, CompositionError::IndexOverflow { at: 2 });
}

#[test]
fn explicit_255_alone_is_accepted() {
    let decls = vec![decl("System", Some(255))];
    let pallets = complete_pallets(decls).unwrap();
    assert_eq!(pallets[0].index, 255);
}

#[test]
fn empty_declaration_list_resolves() {
    let pallets = complete_pallets(vec![]).unwrap();
    assert!(pallets.is_empty());
}
