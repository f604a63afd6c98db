use content_registry::dynamic_types::containers::{
    BlockDynamicValue, DynamicValue, EntityDynamicValue, ItemDynamicValue,
};
use content_registry::dynamic_types::payload::{Functions, Payload};
use content_registry::dynamic_types::registry::{feature_map, Registry};
use content_registry::dynamic_types::{exp_orb, stone, PayloadKind, Role, Value};

#[test]
fn an_orb_from_no_bytes_has_the_amount_zero() {
    let registry = feature_map();
    let orb = EntityDynamicValue::deserialize_from(&registry, &[], "exp_orb").unwrap();
    assert_eq!(orb.type_id(), "exp_orb");
    assert_eq!(
        orb.get_concrete_value::<exp_orb::Module>(),
        Some(&exp_orb::Entity { exp_amount: 0 })
    );
    assert_eq!(orb.serialize_into(), vec![0u8; 8]);
}

#[test]
fn an_orb_from_eight_bytes_has_their_amount() {
    let registry = feature_map();
    let bytes = [0x05u8, 0, 0, 0, 0, 0, 0, 0];
    let orb = EntityDynamicValue::deserialize_from(&registry, &bytes, "exp_orb").unwrap();
    assert_eq!(
        orb.get_concrete_value::<exp_orb::Module>(),
        Some(&exp_orb::Entity { exp_amount: 5 })
    );
    assert_eq!(orb.serialize_into(), bytes.to_vec());
}

#[test]
fn an_orb_is_no_block_and_no_item() {
    let registry = feature_map();
    let bytes = [1u8, 2, 3, 4, 5, 6, 7, 8, 9];
    assert!(BlockDynamicValue::deserialize_from(&registry, &bytes, "exp_orb").is_none());
    assert!(ItemDynamicValue::deserialize_from(&registry, &bytes, "exp_orb").is_none());
    assert!(BlockDynamicValue::deserialize_from(&registry, &[], "exp_orb").is_none());
}

#[test]
fn stone_is_a_block_and_an_item_and_no_entity() {
    let registry = feature_map();
    let block = BlockDynamicValue::deserialize_from(&registry, &[9, 9, 9], "stone").unwrap();
    assert_eq!(block.type_id(), "stone");
    assert_eq!(block.get_concrete_value::<stone::Module>(), Some(&stone::Block {}));
    assert_eq!(block.serialize_into(), Vec::<u8>::new());
    let item = ItemDynamicValue::deserialize_from(&registry, &[], "stone").unwrap();
    assert_eq!(item.type_id(), "stone");
    assert_eq!(item.get_concrete_value::<stone::Module>(), Some(&stone::Item {}));
    assert_eq!(item.serialize_into(), Vec::<u8>::new());
    assert!(EntityDynamicValue::deserialize_from(&registry, &[], "stone").is_none());
}

#[test]
fn an_unknown_identifier_decodes_to_nothing() {
    let registry = feature_map();
    assert!(BlockDynamicValue::deserialize_from(&registry, &[], "unknown").is_none());
    assert!(EntityDynamicValue::deserialize_from(&registry, &[1, 2], "unknown").is_none());
    assert!(ItemDynamicValue::deserialize_from(&registry, &[], "").is_none());
    let empty = Registry::new();
    assert!(BlockDynamicValue::deserialize_from(&empty, &[], "stone").is_none());
    assert!(EntityDynamicValue::deserialize_from(&empty, &[], "exp_orb").is_none());
}

#[test]
fn every_length_of_input_decodes() {
    let registry = feature_map();
    let mut bytes: Vec<u8> = Vec::new();
    for n in 0..40u8 {
        assert!(EntityDynamicValue::deserialize_from(&registry, &bytes, "exp_orb").is_some());
        assert!(BlockDynamicValue::deserialize_from(&registry, &bytes, "stone").is_some());
        assert!(ItemDynamicValue::deserialize_from(&registry, &bytes, "stone").is_some());
        bytes.push(n.wrapping_mul(37).wrapping_add(200));
    }
}

#[test]
fn one_round_trip_reaches_a_fixed_point() {
    let registry = feature_map();
    let inputs: Vec<Vec<u8>> = vec![
        vec![],
        vec![1],
        vec![1, 2, 3, 4, 5, 6, 7],
        vec![1, 2, 3, 4, 5, 6, 7, 8],
        vec![255; 8],
        vec![0xde, 0xad, 0xbe, 0xef, 0, 1, 2, 3, 4, 5, 6, 7],
    ];
    for input in inputs.iter() {
        let first = EntityDynamicValue::deserialize_from(&registry, input, "exp_orb").unwrap();
        let encoded = first.serialize_into();
        let second = EntityDynamicValue::deserialize_from(&registry, &encoded, "exp_orb").unwrap();
        assert_eq!(
            second.get_concrete_value::<exp_orb::Module>(),
            first.get_concrete_value::<exp_orb::Module>()
        );
        assert_eq!(second.serialize_into(), encoded);

        let first = BlockDynamicValue::deserialize_from(&registry, input, "stone").unwrap();
        let encoded = first.serialize_into();
        let second = BlockDynamicValue::deserialize_from(&registry, &encoded, "stone").unwrap();
        assert_eq!(second.payload().kind(), first.payload().kind());
        assert_eq!(second.serialize_into(), encoded);
    }
}

#[test]
fn a_typed_view_is_given_for_the_right_content_type_only() {
    let registry = feature_map();
    let orb = EntityDynamicValue::deserialize_from(&registry, &[], "exp_orb").unwrap();
    assert!(orb.get_concrete_value::<exp_orb::Module>().is_some());
    assert!(orb.get_concrete_value::<stone::Module>().is_none());
    let block = BlockDynamicValue::deserialize_from(&registry, &[], "stone").unwrap();
    assert!(block.get_concrete_value::<stone::Module>().is_some());
    assert!(block.get_concrete_value::<exp_orb::Module>().is_none());
}

#[test]
fn the_payload_keeps_its_kind() {
    let registry = feature_map();
    let orb = EntityDynamicValue::deserialize_from(&registry, &[], "exp_orb").unwrap();
    assert_eq!(orb.payload().kind(), PayloadKind::ExpOrbEntity);
    let block = BlockDynamicValue::deserialize_from(&registry, &[], "stone").unwrap();
    assert_eq!(block.payload().kind(), PayloadKind::StoneBlock);
    let item = ItemDynamicValue::deserialize_from(&registry, &[], "stone").unwrap();
    assert_eq!(item.payload().kind(), PayloadKind::StoneItem);
}

#[test]
fn a_value_is_released_by_giving_it_up() {
    let registry = feature_map();
    let orb = EntityDynamicValue::deserialize_from(&registry, &[7; 8], "exp_orb").unwrap();
    orb.valid();
    orb.destroy();
    let block = BlockDynamicValue::deserialize_from(&registry, &[], "stone").unwrap();
    block.valid();
    block.destroy();
    let item = ItemDynamicValue::deserialize_from(&registry, &[], "stone").unwrap();
    item.valid();
    item.destroy();
}

#[test]
fn a_plain_value_names_its_registry_and_role_each_time() {
    let registry = feature_map();
    let orb = DynamicValue::deserialize_entity_from(&registry, &[2, 1], "exp_orb").unwrap();
    assert!(orb.is_valid_in(&registry, Role::Entity));
    assert!(!orb.is_valid_in(&registry, Role::Block));
    assert!(!orb.is_valid_in(&registry, Role::Item));
    assert!(!orb.is_valid_in(&Registry::new(), Role::Entity));
    assert_eq!(orb.type_id(), "exp_orb");
    assert_eq!(orb.serialize_entity_into(&registry), vec![0u8; 8]);
    assert_eq!(orb.serialize_into(&registry, Role::Entity), vec![0u8; 8]);
    assert!(orb.get_concrete_entity_value::<exp_orb::Module>().is_some());
    assert!(orb.get_concrete_block_value::<exp_orb::Module>().is_none());
    assert!(orb.get_concrete_item_value::<exp_orb::Module>().is_none());
    assert!(orb.get_concrete_entity_value::<stone::Module>().is_none());
    orb.destroy(&registry, Role::Entity);

    let block = DynamicValue::deserialize_block_from(&registry, &[], "stone").unwrap();
    assert!(block.is_valid_in(&registry, Role::Block));
    assert!(!block.is_valid_in(&registry, Role::Item));
    assert_eq!(block.serialize_block_into(&registry), Vec::<u8>::new());
    assert_eq!(block.get_concrete_block_value::<stone::Module>(), Some(&stone::Block {}));
    let item = DynamicValue::deserialize_item_from(&registry, &[], "stone").unwrap();
    assert!(item.is_valid_in(&registry, Role::Item));
    assert_eq!(item.serialize_item_into(&registry), Vec::<u8>::new());
    assert_eq!(item.get_concrete_item_value::<stone::Module>(), Some(&stone::Item {}));

    assert!(DynamicValue::deserialize_block_from(&registry, &[], "exp_orb").is_none());
    assert!(DynamicValue::deserialize_item_from(&registry, &[], "exp_orb").is_none());
    assert!(DynamicValue::deserialize_entity_from(&registry, &[], "stone").is_none());
    assert!(DynamicValue::deserialize_from(&registry, Role::Entity, &[], "unknown").is_none());
}

#[test]
fn a_bundle_decodes_and_encodes_its_own_kind() {
    let orbs = Functions::of::<exp_orb::Entity>().unwrap();
    assert_eq!(orbs, Functions { kind: PayloadKind::ExpOrbEntity, serialized_size_hint: 8 });
    let data = orbs.deserialize_from(&[1, 1, 0, 0, 0, 0, 0, 0]);
    assert!(orbs.accepts(&data));
    assert_eq!(exp_orb::Entity::downcast(&data), Some(&exp_orb::Entity { exp_amount: 257 }));
    assert_eq!(orbs.serialize_into(&data), vec![1, 1, 0, 0, 0, 0, 0, 0]);
    let blocks = Functions::of::<stone::Block>().unwrap();
    assert!(!blocks.accepts(&data));
    orbs.destroy(data);
    assert!(Functions::of::<()>().is_none());
    let data = blocks.deserialize_from(&[1, 2, 3]);
    assert!(matches!(data, Payload::StoneBlock(_)));
    assert_eq!(blocks.serialize_into(&data), Vec::<u8>::new());
}
