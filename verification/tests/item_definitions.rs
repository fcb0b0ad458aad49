use rs3cache::buffer::DecodeError;
use rs3cache::item_config::{compute_config_id, ItemConfig};
use rs3cache::item_config_fields::{Rotation, Translation};
use rs3cache::paramtable::Param;

fn sample() -> Vec<u8> {
    let mut v = vec![1, 0x00, 0x10];
    v.extend_from_slice(&[2, b'S', b'w', b'o', b'r', b'd', 0]);
    v.extend_from_slice(&[4, 0x01, 0x00]);
    v.extend_from_slice(&[6, 0x00, 0x02]);
    v.extend_from_slice(&[11]);
    v.extend_from_slice(&[12, 0xff, 0xff, 0xff, 0xff]);
    v.extend_from_slice(&[23, 0x80, 0x00, 0x00, 0x05]);
    v.extend_from_slice(&[30, b'T', b'a', b'k', b'e', 0]);
    v.extend_from_slice(&[40, 1, 0, 1, 0, 2]);
    v.extend_from_slice(&[44, 0x00, 0x03]);
    v.extend_from_slice(&[100, 0, 1, 0, 2]);
    v.extend_from_slice(&[113, 0xfe]);
    v.extend_from_slice(&[125, 0, 1, 0]);
    v.extend_from_slice(&[249, 1, 0, 0, 0, 7, 0, 0, 0, 3]);
    v.push(0);
    v
}

#[test]
fn decodes_sample_definition() {
    let item = ItemConfig::deserialize(42, sample());
    assert_eq!(item.id, 42);
    assert_eq!(item.base_model, Some(16));
    assert_eq!(item.name.as_deref(), Some("Sword"));
    assert_eq!(item.rotation, Some(Rotation { yaw: 256, pitch: 0, roll: 2 }));
    assert_eq!(item.translation, None);
    assert_eq!(item.stackable, Some(true));
    assert_eq!(item.value, Some(-1));
    assert_eq!(item.male_models, Some([Some(5), None, None]));
    assert_eq!(
        item.ground_actions,
        Some([Some("Take".to_string()), None, None, None, None])
    );
    assert_eq!(item.colour_replacements.as_ref().map(|c| c.colours.clone()), Some(vec![(1, 2)]));
    assert_eq!(item.recolour_indices, Some(3));
    let mut stack = [None; 10];
    stack[0] = Some((1, 2));
    assert_eq!(item.stack_info, Some(stack));
    assert_eq!(item.ambiance, Some(-2));
    assert_eq!(item.male_translate, Some(256));
    let params = item.params.expect("params");
    assert!(matches!(params.params.get(&7), Some(Param::Integer(3))));
    assert_eq!(item.is_members, None);
    assert_eq!(item.multi_stack_size, None);
}

#[test]
fn only_terminator_gives_empty_definition() {
    let item = ItemConfig::deserialize(7, vec![0]);
    assert_eq!(item.id, 7);
    assert_eq!(item.name, None);
    assert_eq!(item.base_model, None);
    assert_eq!(item.params.is_none(), true);
}

#[test]
fn default_definition_is_empty() {
    let item = ItemConfig::default();
    assert_eq!(item.id, 0);
    assert_eq!(item.stackable, None);
    assert_eq!(item.rotation, None);
}

#[test]
fn unknown_opcode_is_rejected() {
    assert!(matches!(
        ItemConfig::try_deserialize(1, vec![9, 0]),
        Err(DecodeError::UnknownOpcode(9))
    ));
    assert!(matches!(
        ItemConfig::try_deserialize(1, vec![11, 250, 0]),
        Err(DecodeError::UnknownOpcode(250))
    ));
}

#[test]
fn trailing_bytes_are_rejected() {
    assert!(matches!(ItemConfig::try_deserialize(1, vec![0, 0]), Err(DecodeError::TrailingBytes)));
}

#[test]
fn missing_terminator_is_rejected() {
    assert!(matches!(ItemConfig::try_deserialize(1, vec![]), Err(DecodeError::UnexpectedEnd)));
    assert!(matches!(ItemConfig::try_deserialize(1, vec![11]), Err(DecodeError::UnexpectedEnd)));
    assert!(matches!(ItemConfig::try_deserialize(1, vec![12, 0, 0]), Err(DecodeError::UnexpectedEnd)));
}

#[test]
fn model_sentinel_is_rejected() {
    assert!(matches!(
        ItemConfig::try_deserialize(1, vec![1, 0x7f, 0xff, 0]),
        Err(DecodeError::MissingModel)
    ));
}

#[test]
fn later_entry_wins() {
    let item = ItemConfig::deserialize(3, vec![95, 0, 1, 95, 0, 2, 0]);
    assert_eq!(item.model_yaw, Some(2));
    let item = ItemConfig::deserialize(3, vec![2, b'a', 0, 2, b'b', 0, 0]);
    assert_eq!(item.name.as_deref(), Some("b"));
}

#[test]
fn entries_commute() {
    let a = ItemConfig::deserialize(3, vec![4, 0, 1, 5, 0, 2, 7, 0, 9, 0]);
    let b = ItemConfig::deserialize(3, vec![7, 0, 9, 5, 0, 2, 4, 0, 1, 0]);
    assert_eq!(a.rotation, b.rotation);
    assert_eq!(a.translation, Some(Translation { x: 9, y: 0 }));
    assert_eq!(a.translation, b.translation);
    let c = ItemConfig::deserialize(3, vec![24, 0, 8, 78, 0, 9, 0]);
    let d = ItemConfig::deserialize(3, vec![78, 0, 9, 24, 0, 8, 0]);
    assert_eq!(c.male_models, Some([None, Some(8), Some(9)]));
    assert_eq!(c.male_models, d.male_models);
}

#[test]
fn flags_and_slots() {
    let item = ItemConfig::deserialize(
        9,
        vec![15, 16, 65, 157, 165, 167, 168, 111, 0, 4, 146, 0, 6, 36, b'x', 0, 0],
    );
    assert_eq!(item.unknown_15, Some(true));
    assert_eq!(item.is_members, Some(true));
    assert_eq!(item.is_tradeable, Some(true));
    assert_eq!(item.randomize_ground_pos, Some(true));
    assert_eq!(item.never_stackable, Some(true));
    assert_eq!(item.unknown_167, Some(true));
    assert_eq!(item.unknown_168, Some(true));
    assert_eq!(item.scale, Some([None, Some(4), None]));
    assert_eq!(item.ground_action_cursor, Some([None, None, None, None, Some(6)]));
    assert_eq!(item.widget_actions, Some([None, Some("x".to_string()), None, None, None]));
}

#[test]
fn config_id_combines_archive_and_file() {
    assert_eq!(compute_config_id(3, 7), 775);
    assert_eq!(compute_config_id(0, 255), 255);
    assert_eq!(compute_config_id(0x0100_0001, 2), 0x0000_0102);
}

#[test]
fn dump_keys_definitions_by_id() {
    let archives = vec![
        (0, vec![(1, vec![0]), (2, vec![2, b'a', 0, 0])]),
        (1, vec![(0, vec![11, 0])]),
    ];
    let dump = ItemConfig::dump_all(archives).expect("dump");
    assert_eq!(dump.len(), 3);
    for (k, v) in dump.iter() {
        assert_eq!(*k, v.id);
    }
    assert_eq!(dump.get(&2).and_then(|c| c.name.clone()), Some("a".to_string()));
    assert_eq!(dump.get(&256).and_then(|c| c.stackable), Some(true));
}

#[test]
fn dump_reports_first_bad_file() {
    let archives = vec![
        (0, vec![(1, vec![0]), (2, vec![9, 0])]),
        (1, vec![(0, vec![])]),
    ];
    assert!(matches!(
        ItemConfig::dump_all(archives),
        Err((2, DecodeError::UnknownOpcode(9)))
    ));
}

#[test]
fn dump_later_file_replaces_earlier() {
    let archives = vec![(0, vec![(4, vec![2, b'a', 0, 0]), (4, vec![2, b'b', 0, 0])])];
    let dump = ItemConfig::dump_all(archives).expect("dump");
    assert_eq!(dump.len(), 1);
    assert_eq!(dump.get(&4).and_then(|c| c.name.clone()), Some("b".to_string()));
}
