use rs3cache::buffer::{Buffer, DecodeError};
use rs3cache::item_config_fields::{
    ColourReplacements, Quests, RecolourPalette, StackInfo, Textures,
};
use rs3cache::paramtable::{Param, ParamTable};

#[test]
fn colour_replacements_in_order() {
    let mut b = Buffer::new(vec![2, 0, 1, 0, 2, 0, 3, 0, 4, 9]);
    let c = ColourReplacements::deserialize(&mut b);
    assert_eq!(c.colours, vec![(1, 2), (3, 4)]);
    assert_eq!(b.remaining(), 1);
}

#[test]
fn colour_replacements_truncated() {
    let mut b = Buffer::new(vec![2, 0, 1, 0, 2, 0, 3]);
    assert!(matches!(ColourReplacements::try_deserialize(&mut b), Err(DecodeError::UnexpectedEnd)));
}

#[test]
fn textures_later_pair_wins() {
    let mut b = Buffer::new(vec![3, 0, 5, 0, 6, 0, 1, 0, 2, 0, 5, 0, 7]);
    let t = Textures::deserialize(&mut b);
    assert_eq!(t.textures.len(), 2);
    assert_eq!(t.textures.get(&5), Some(&7));
    assert_eq!(t.textures.get(&1), Some(&2));
    assert_eq!(b.remaining(), 0);
}

#[test]
fn quests_list() {
    let mut b = Buffer::new(vec![3, 0, 1, 1, 0, 0xff, 0xff]);
    let q = Quests::deserialize(&mut b);
    assert_eq!(q.quests, vec![1, 256, 65535]);
}

#[test]
fn empty_quests_list() {
    let mut b = Buffer::new(vec![0]);
    let q = Quests::deserialize(&mut b);
    assert!(q.quests.is_empty());
    assert_eq!(b.remaining(), 0);
}

#[test]
fn stack_info_pair() {
    let mut b = Buffer::new(vec![0, 10, 1, 0]);
    let s = StackInfo::deserialize(&mut b);
    assert_eq!(s.unknown_1(), 10);
    assert_eq!(s.unknown_2(), 256);
    let mut short = Buffer::new(vec![0, 10, 1]);
    assert!(matches!(StackInfo::try_deserialize(&mut short), Err(DecodeError::UnexpectedEnd)));
}

#[test]
fn recolour_palette_signed() {
    let mut b = Buffer::new(vec![3, 0xff, 0x00, 0x7f]);
    let p = RecolourPalette::deserialize(&mut b);
    assert_eq!(p.palette, vec![-1, 0, 127]);
}

#[test]
fn param_table_entries() {
    let mut b = Buffer::new(vec![
        3, // entries
        0, 0x00, 0x01, 0x00, 0xff, 0xff, 0xff, 0xff, // key 256 = -1
        1, 0x00, 0x00, 0x05, b'o', b'k', 0, // key 5 = "ok"
        0, 0x00, 0x01, 0x00, 0x00, 0x00, 0x00, 0x09, // key 256 = 9, replaces -1
    ]);
    let t = ParamTable::deserialize(&mut b);
    assert_eq!(t.params.len(), 2);
    assert!(matches!(t.params.get(&256), Some(Param::Integer(9))));
    match t.params.get(&5) {
        Some(Param::String(s)) => assert_eq!(s, "ok"),
        other => panic!("unexpected {:?}", other),
    }
    assert_eq!(b.remaining(), 0);
}

#[test]
fn param_table_truncated() {
    let mut b = Buffer::new(vec![1, 1, 0, 0, 5, b'o']);
    assert!(matches!(ParamTable::try_deserialize(&mut b), Err(DecodeError::UnexpectedEnd)));
}
