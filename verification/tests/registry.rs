use content_registry::dynamic_types::payload::Functions;
use content_registry::dynamic_types::registry::{
    feature_map, filter_ids_by_tag, get_type_info_by_type_id, get_type_info_ref_by_id_module,
    get_type_info_ref_by_type_id, into_id_module_info, Registry,
};
use content_registry::dynamic_types::{
    exp_orb, stone, type_eq, type_id_eq, PayloadKind, Role, Tag,
};

#[test]
fn filter_by_stone_yields_stone() {
    let registry = feature_map();
    assert_eq!(filter_ids_by_tag(&registry, Tag::Stone), vec!["stone"]);
}

#[test]
fn filter_by_can_be_burn_yields_stone() {
    let registry = feature_map();
    assert_eq!(filter_ids_by_tag(&registry, Tag::CanBeBurn), vec!["stone"]);
}

#[test]
fn filter_by_a_tag_that_nothing_carries_is_empty() {
    let registry = feature_map();
    assert_eq!(filter_ids_by_tag(&registry, Tag::Wood), Vec::<&str>::new());
    assert_eq!(filter_ids_by_tag(&registry, Tag::RedStonePowerSource), Vec::<&str>::new());
    assert_eq!(filter_ids_by_tag(&registry, Tag::Dirt), Vec::<&str>::new());
}

#[test]
fn filter_on_the_empty_registry_is_empty() {
    let registry = Registry::new();
    assert_eq!(filter_ids_by_tag(&registry, Tag::Stone), Vec::<&str>::new());
}

#[test]
fn filter_keeps_the_order_of_registration() {
    let mut registry = Registry::new();
    assert!(registry.register::<exp_orb::Module>());
    assert!(registry.register::<stone::Module>());
    assert_eq!(filter_ids_by_tag(&registry, Tag::Stone), vec!["stone"]);
    assert_eq!(registry.get(0).unwrap().type_id(), "exp_orb");
    assert_eq!(registry.get(1).unwrap().type_id(), "stone");
}

#[test]
fn lookup_of_an_unknown_identifier_finds_nothing() {
    let registry = feature_map();
    assert!(get_type_info_ref_by_type_id(&registry, "unknown").is_none());
    assert!(get_type_info_by_type_id(&registry, "unknown").is_none());
    assert!(get_type_info_ref_by_type_id(&registry, "").is_none());
    assert!(get_type_info_ref_by_type_id(&registry, "ston").is_none());
    assert!(get_type_info_ref_by_type_id(&registry, "stone ").is_none());
}

#[test]
fn lookup_of_stone_finds_its_descriptor() {
    let registry = feature_map();
    let info = get_type_info_ref_by_type_id(&registry, "stone").unwrap();
    assert_eq!(info.type_id(), "stone");
    assert_eq!(info.tags(), &[Tag::Stone, Tag::CanBeBurn]);
    assert_eq!(
        info.block_functions(),
        Some(Functions { kind: PayloadKind::StoneBlock, serialized_size_hint: 0 })
    );
    assert_eq!(info.entity_functions(), None);
    assert_eq!(
        info.item_functions(),
        Some(Functions { kind: PayloadKind::StoneItem, serialized_size_hint: 0 })
    );
}

#[test]
fn lookup_of_exp_orb_finds_its_descriptor() {
    let registry = feature_map();
    let info = get_type_info_by_type_id(&registry, "exp_orb").unwrap();
    assert_eq!(info.type_id(), "exp_orb");
    assert!(info.tags().is_empty());
    assert_eq!(info.functions(Role::Block), None);
    assert_eq!(
        info.functions(Role::Entity),
        Some(Functions { kind: PayloadKind::ExpOrbEntity, serialized_size_hint: 8 })
    );
    assert_eq!(info.functions(Role::Item), None);
}

#[test]
fn lookup_by_content_type_finds_the_same_descriptor() {
    let registry = feature_map();
    let info = get_type_info_ref_by_id_module::<stone::Module>(&registry);
    assert_eq!(info.type_id(), "stone");
    let info = get_type_info_ref_by_id_module::<exp_orb::Module>(&registry);
    assert_eq!(info.type_id(), "exp_orb");
}

#[test]
fn the_feature_map_lists_stone_then_exp_orb() {
    let registry = feature_map();
    assert_eq!(registry.len(), 2);
    assert_eq!(registry.get(0).unwrap().type_id(), "stone");
    assert_eq!(registry.get(1).unwrap().type_id(), "exp_orb");
    assert!(registry.get(2).is_none());
    assert_eq!(registry.position("stone"), Some(0));
    assert_eq!(registry.position("exp_orb"), Some(1));
    assert_eq!(registry.position("unknown"), None);
}

#[test]
fn an_identifier_is_registered_once() {
    let mut registry = Registry::new();
    assert_eq!(registry.len(), 0);
    assert!(registry.register::<stone::Module>());
    assert!(!registry.register::<stone::Module>());
    assert_eq!(registry.len(), 1);
    assert!(registry.register::<exp_orb::Module>());
    assert!(!registry.register::<exp_orb::Module>());
    assert!(!registry.register::<stone::Module>());
    assert_eq!(registry.len(), 2);
    registry.well_formed();
}

#[test]
fn a_descriptor_has_a_bundle_for_each_role_that_is_offered() {
    let info = into_id_module_info::<stone::Module>();
    assert!(info.has_tag(Tag::Stone));
    assert!(info.has_tag(Tag::CanBeBurn));
    assert!(!info.has_tag(Tag::Wood));
    assert!(info.functions(Role::Block).is_some());
    assert!(info.functions(Role::Entity).is_none());
    assert!(info.functions(Role::Item).is_some());
    let info = into_id_module_info::<exp_orb::Module>();
    assert!(!info.has_tag(Tag::Stone));
    assert!(info.functions(Role::Block).is_none());
    assert!(info.functions(Role::Entity).is_some());
    assert!(info.functions(Role::Item).is_none());
}

#[test]
fn payload_types_are_told_apart_by_their_kind() {
    assert!(type_eq::<(), ()>());
    assert!(type_eq::<stone::Block, stone::Block>());
    assert!(!type_eq::<stone::Block, ()>());
    assert!(!type_eq::<(), exp_orb::Entity>());
    assert!(!type_eq::<stone::Block, stone::Item>());
    assert!(!type_eq::<stone::Item, exp_orb::Entity>());
}

#[test]
fn identifiers_are_the_same_when_they_spell_the_same() {
    assert!(type_id_eq("stone", "stone"));
    assert!(type_id_eq("", ""));
    assert!(!type_id_eq("stone", "exp_orb"));
    assert!(!type_id_eq("stone", "stony"));
    assert!(!type_id_eq("stone", "ston"));
    assert!(!type_id_eq("", "stone"));
    assert!(type_id_eq("经验球", "经验球"));
    assert!(!type_id_eq("经验球", "石头"));
}

#[test]
fn every_kind_plays_one_role() {
    assert_eq!(PayloadKind::StoneBlock.role(), Role::Block);
    assert_eq!(PayloadKind::StoneItem.role(), Role::Item);
    assert_eq!(PayloadKind::ExpOrbEntity.role(), Role::Entity);
}
