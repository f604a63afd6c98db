use content_registry::dynamic_types::payload::Payload;
use content_registry::dynamic_types::{exp_orb, stone, PayloadKind, Value};

#[test]
fn an_amount_is_spelled_least_significant_byte_first() {
    let orb = exp_orb::Entity { exp_amount: 0x0102_0304_0506_0708 };
    assert_eq!(orb.serialize_into(), vec![8, 7, 6, 5, 4, 3, 2, 1]);
    let orb = exp_orb::Entity::deserialize_from(&[8, 7, 6, 5, 4, 3, 2, 1]);
    assert_eq!(orb.exp_amount, 0x0102_0304_0506_0708);
}

#[test]
fn the_codec_agrees_with_the_standard_library() {
    let amounts = [0u64, 1, 255, 256, 65_535, 65_536, 1 << 32, u64::MAX - 1, u64::MAX];
    for amount in amounts.iter() {
        let orb = exp_orb::Entity { exp_amount: *amount };
        assert_eq!(orb.serialize_into(), amount.to_le_bytes().to_vec());
        assert_eq!(exp_orb::Entity::deserialize_from(&amount.to_le_bytes()), orb);
    }
}

#[test]
fn short_input_is_the_amount_zero() {
    assert_eq!(exp_orb::Entity::deserialize_from(&[]).exp_amount, 0);
    assert_eq!(exp_orb::Entity::deserialize_from(&[9]).exp_amount, 0);
    assert_eq!(exp_orb::Entity::deserialize_from(&[9, 9, 9, 9, 9, 9, 9]).exp_amount, 0);
}

#[test]
fn bytes_after_the_eighth_are_ignored() {
    let orb = exp_orb::Entity::deserialize_from(&[5, 0, 0, 0, 0, 0, 0, 0, 77, 88]);
    assert_eq!(orb.exp_amount, 5);
    assert_eq!(orb.serialize_into(), vec![5, 0, 0, 0, 0, 0, 0, 0]);
}

#[test]
fn the_largest_amount_survives() {
    let orb = exp_orb::Entity::deserialize_from(&[255; 8]);
    assert_eq!(orb.exp_amount, u64::MAX);
    assert_eq!(orb.serialize_into(), vec![255; 8]);
}

#[test]
fn stone_carries_no_bytes() {
    assert_eq!(stone::Block::deserialize_from(&[1, 2, 3]), stone::Block {});
    assert_eq!(stone::Block {}.serialize_into(), Vec::<u8>::new());
    assert_eq!(stone::Item::deserialize_from(&[]), stone::Item {});
    assert_eq!(stone::Item {}.serialize_into(), Vec::<u8>::new());
    assert_eq!(stone::Block::serialized_size_hint(), 0);
    assert_eq!(stone::Item::serialized_size_hint(), 0);
    assert_eq!(exp_orb::Entity::serialized_size_hint(), 8);
    assert_eq!(exp_orb::ENCODED_LEN, 8);
}

#[test]
fn payload_types_name_their_kind() {
    assert_eq!(stone::Block::kind(), Some(PayloadKind::StoneBlock));
    assert_eq!(stone::Item::kind(), Some(PayloadKind::StoneItem));
    assert_eq!(exp_orb::Entity::kind(), Some(PayloadKind::ExpOrbEntity));
    assert_eq!(<() as Value>::kind(), None);
}

#[test]
fn erasing_and_looking_inside_give_the_payload_back() {
    let orb = exp_orb::Entity { exp_amount: 42 };
    let erased = orb.erase().unwrap();
    assert_eq!(erased.kind(), PayloadKind::ExpOrbEntity);
    assert_eq!(exp_orb::Entity::downcast(&erased), Some(&orb));
    assert_eq!(stone::Block::downcast(&erased), None);
    assert_eq!(stone::Item::downcast(&erased), None);
    assert_eq!(<() as Value>::downcast(&erased), None);
    let erased = stone::Block {}.erase().unwrap();
    assert!(matches!(erased, Payload::StoneBlock(_)));
    assert_eq!(stone::Block::downcast(&erased), Some(&stone::Block {}));
    assert_eq!(stone::Item::downcast(&erased), None);
    let erased = stone::Item {}.erase().unwrap();
    assert!(matches!(erased, Payload::StoneItem(_)));
    assert_eq!(stone::Item::downcast(&erased), Some(&stone::Item {}));
}

#[test]
fn the_marker_holds_nothing() {
    assert_eq!(<() as Value>::deserialize_from(&[1, 2, 3]), ());
    assert_eq!(().serialize_into(), Vec::<u8>::new());
    assert!(().erase().is_none());
    assert_eq!(<() as Value>::serialized_size_hint(), 0);
    ().destroy();
}
