//! What each opcode of the format does, stated over all of its operands: the
//! stream made of the entry alone and the terminating 0 decodes to the empty
//! definition with exactly one field set, whose value is written out from the
//! operand bytes.

use vstd::prelude::*;

use crate::buffer::{cp1252_char, i8_of, u16_at, lemma_terminated_at_unique, spec_read_string, terminated_at, DecodeError};
use crate::item_config::{apply_entry, decode_from, opcode_kind, spec_decode, spec_read_entry, ItemConfigView};
use crate::item_config_fields::{pairs_to_map, u16_pairs, Rotation, Translation};
use crate::paramtable::{spec_read_param_table, spec_read_params, ParamView};

verus! {

/// A string without zero bytes, then its terminator, reads as the
/// Windows-1252 characters of its bytes and takes them and the terminator.
pub proof fn lemma_read_text(t: Seq<u8>, rest: Seq<u8>)
    requires
        forall|j: int| 0 <= j < t.len() ==> t[j] != 0,
    ensures
        spec_read_string(t + seq![0u8] + rest) == Some(
            (Seq::new(t.len(), |j: int| cp1252_char(t[j])), t.len() + 1),
        ),
{
    let s = t + seq![0u8] + rest;
    assert(terminated_at(s, t.len() as int));
    let m = choose|m: int| terminated_at(s, m);
    lemma_terminated_at_unique(s, m, t.len() as int);
    assert(Seq::new(t.len(), |j: int| cp1252_char(s[j])) =~= Seq::new(t.len(), |j: int| cp1252_char(t[j])));
}

/// A table of one integer entry.
proof fn lemma_one_param(k0: u8, k1: u8, k2: u8, b0: u8, b1: u8, b2: u8, b3: u8)
    ensures
        spec_read_param_table(seq![1u8, 0u8, k0, k1, k2, b0, b1, b2, b3, 0u8]) == Some((
            Map::<u32, ParamView>::empty().insert(((k0 * 256 + k1) * 256 + k2) as u32, ParamView::Integer((if b0 >= 128 { ((b0 * 256 + b1) * 256 + b2) * 256 + b3 - 0x1_0000_0000 } else { ((b0 * 256 + b1) * 256 + b2) * 256 + b3 }) as i32)),
            9nat,
        )),
{
    let s = seq![1u8, 0u8, k0, k1, k2, b0, b1, b2, b3, 0u8];
    reveal_with_fuel(spec_read_params, 2);
    reveal_with_fuel(pairs_to_map, 2);
    assert(s.skip(1) =~= seq![0u8, k0, k1, k2, b0, b1, b2, b3, 0u8]);
    assert(s.skip(1).skip(0) =~= s.skip(1));
    let e = spec_read_params(s.skip(1), 1).unwrap().0;
    assert(e.drop_last() =~= Seq::<(u32, ParamView)>::empty());
}

/// Opcode 1, followed by a model id in two bytes (high bit clear), sets `base_model` and nothing else.
pub proof fn lemma_opcode_1_base_model_short(id: u32, b0: u8, b1: u8)
    requires
        b0 < 128,
        b0 * 256 + b1 != 32767,
    ensures
        spec_decode(id, seq![1u8, b0, b1, 0u8]) == Ok::<ItemConfigView, DecodeError>(
            ItemConfigView { base_model: Some((b0 * 256 + b1) as u32), ..ItemConfigView::empty(id) },
        ),
{
    let s = seq![1u8, b0, b1, 0u8];
    reveal_with_fuel(decode_from, 2);
    assert(s.skip(1) =~= seq![b0, b1, 0u8]);
    assert(s.skip(3) =~= seq![0u8]);
}

/// Opcode 1, followed by a model id in four bytes (high bit set, then cleared), sets `base_model` and nothing else.
pub proof fn lemma_opcode_1_base_model_long(id: u32, b0: u8, b1: u8, b2: u8, b3: u8)
    requires
        b0 >= 128,
    ensures
        spec_decode(id, seq![1u8, b0, b1, b2, b3, 0u8]) == Ok::<ItemConfigView, DecodeError>(
            ItemConfigView { base_model: Some(((((b0 - 128) * 256 + b1) * 256 + b2) * 256 + b3) as u32), ..ItemConfigView::empty(id) },
        ),
{
    let s = seq![1u8, b0, b1, b2, b3, 0u8];
    reveal_with_fuel(decode_from, 2);
    assert(s.skip(1) =~= seq![b0, b1, b2, b3, 0u8]);
    assert(s.skip(5) =~= seq![0u8]);
}

/// Opcode 2, followed by a zero-terminated string, sets `name` and nothing else.
pub proof fn lemma_opcode_2_name(id: u32, t: Seq<u8>)
    requires
        forall|j: int| 0 <= j < t.len() ==> t[j] != 0,
    ensures
        spec_decode(id, seq![2u8] + t + seq![0u8, 0u8]) == Ok::<ItemConfigView, DecodeError>(
            ItemConfigView { name: Some(Seq::new(t.len(), |j: int| cp1252_char(t[j]))), ..ItemConfigView::empty(id) },
        ),
{
    let s = seq![2u8] + t + seq![0u8, 0u8];
    reveal_with_fuel(decode_from, 2);
    assert(s.skip(1) =~= t + seq![0u8] + seq![0u8]);
    lemma_read_text(t, seq![0u8]);
    assert(s.skip(1 + t.len() as int + 1) =~= seq![0u8]);
}

/// Opcode 3, followed by a zero-terminated string, sets `buff_effect` and nothing else.
pub proof fn lemma_opcode_3_buff_effect(id: u32, t: Seq<u8>)
    requires
        forall|j: int| 0 <= j < t.len() ==> t[j] != 0,
    ensures
        spec_decode(id, seq![3u8] + t + seq![0u8, 0u8]) == Ok::<ItemConfigView, DecodeError>(
            ItemConfigView { buff_effect: Some(Seq::new(t.len(), |j: int| cp1252_char(t[j]))), ..ItemConfigView::empty(id) },
        ),
{
    let s = seq![3u8] + t + seq![0u8, 0u8];
    reveal_with_fuel(decode_from, 2);
    assert(s.skip(1) =~= t + seq![0u8] + seq![0u8]);
    lemma_read_text(t, seq![0u8]);
    assert(s.skip(1 + t.len() as int + 1) =~= seq![0u8]);
}

/// Opcode 4, followed by a big-endian unsigned 16-bit integer, sets `rotation` and nothing else.
pub proof fn lemma_opcode_4_rotation(id: u32, b0: u8, b1: u8)
    ensures
        spec_decode(id, seq![4u8, b0, b1, 0u8]) == Ok::<ItemConfigView, DecodeError>(
            ItemConfigView { rotation: Some(Rotation { yaw: (b0 * 256 + b1) as u16, pitch: 0, roll: 0 }), ..ItemConfigView::empty(id) },
        ),
{
    let s = seq![4u8, b0, b1, 0u8];
    reveal_with_fuel(decode_from, 2);
    assert(s.skip(1) =~= seq![b0, b1, 0u8]);
    assert(s.skip(3) =~= seq![0u8]);
}

/// Opcode 5, followed by a big-endian unsigned 16-bit integer, sets `rotation` and nothing else.
pub proof fn lemma_opcode_5_rotation(id: u32, b0: u8, b1: u8)
    ensures
        spec_decode(id, seq![5u8, b0, b1, 0u8]) == Ok::<ItemConfigView, DecodeError>(
            ItemConfigView { rotation: Some(Rotation { yaw: 0, pitch: (b0 * 256 + b1) as u16, roll: 0 }), ..ItemConfigView::empty(id) },
        ),
{
    let s = seq![5u8, b0, b1, 0u8];
    reveal_with_fuel(decode_from, 2);
    assert(s.skip(1) =~= seq![b0, b1, 0u8]);
    assert(s.skip(3) =~= seq![0u8]);
}

/// Opcode 6, followed by a big-endian unsigned 16-bit integer, sets `rotation` and nothing else.
pub proof fn lemma_opcode_6_rotation(id: u32, b0: u8, b1: u8)
    ensures
        spec_decode(id, seq![6u8, b0, b1, 0u8]) == Ok::<ItemConfigView, DecodeError>(
            ItemConfigView { rotation: Some(Rotation { yaw: 0, pitch: 0, roll: (b0 * 256 + b1) as u16 }), ..ItemConfigView::empty(id) },
        ),
{
    let s = seq![6u8, b0, b1, 0u8];
    reveal_with_fuel(decode_from, 2);
    assert(s.skip(1) =~= seq![b0, b1, 0u8]);
    assert(s.skip(3) =~= seq![0u8]);
}

/// Opcode 7, followed by a big-endian unsigned 16-bit integer, sets `translation` and nothing else.
pub proof fn lemma_opcode_7_translation(id: u32, b0: u8, b1: u8)
    ensures
        spec_decode(id, seq![7u8, b0, b1, 0u8]) == Ok::<ItemConfigView, DecodeError>(
            ItemConfigView { translation: Some(Translation { x: (b0 * 256 + b1) as u16, y: 0 }), ..ItemConfigView::empty(id) },
        ),
{
    let s = seq![7u8, b0, b1, 0u8];
    reveal_with_fuel(decode_from, 2);
    assert(s.skip(1) =~= seq![b0, b1, 0u8]);
    assert(s.skip(3) =~= seq![0u8]);
}

/// Opcode 8, followed by a big-endian unsigned 16-bit integer, sets `translation` and nothing else.
pub proof fn lemma_opcode_8_translation(id: u32, b0: u8, b1: u8)
    ensures
        spec_decode(id, seq![8u8, b0, b1, 0u8]) == Ok::<ItemConfigView, DecodeError>(
            ItemConfigView { translation: Some(Translation { x: 0, y: (b0 * 256 + b1) as u16 }), ..ItemConfigView::empty(id) },
        ),
{
    let s = seq![8u8, b0, b1, 0u8];
    reveal_with_fuel(decode_from, 2);
    assert(s.skip(1) =~= seq![b0, b1, 0u8]);
    assert(s.skip(3) =~= seq![0u8]);
}

/// Opcode 11, followed by no value, sets `stackable` and nothing else.
pub proof fn lemma_opcode_11_stackable(id: u32)
    ensures
        spec_decode(id, seq![11u8, 0u8]) == Ok::<ItemConfigView, DecodeError>(
            ItemConfigView { stackable: Some(true), ..ItemConfigView::empty(id) },
        ),
{
    let s = seq![11u8, 0u8];
    reveal_with_fuel(decode_from, 2);
    assert(s.skip(1) =~= seq![0u8]);
    assert(s.skip(1) =~= seq![0u8]);
}

/// Opcode 12, followed by a big-endian signed 32-bit integer, sets `value` and nothing else.
pub proof fn lemma_opcode_12_value(id: u32, b0: u8, b1: u8, b2: u8, b3: u8)
    ensures
        spec_decode(id, seq![12u8, b0, b1, b2, b3, 0u8]) == Ok::<ItemConfigView, DecodeError>(
            ItemConfigView { value: Some((if b0 >= 128 { ((b0 * 256 + b1) * 256 + b2) * 256 + b3 - 0x1_0000_0000 } else { ((b0 * 256 + b1) * 256 + b2) * 256 + b3 }) as i32), ..ItemConfigView::empty(id) },
        ),
{
    let s = seq![12u8, b0, b1, b2, b3, 0u8];
    reveal_with_fuel(decode_from, 2);
    assert(s.skip(1) =~= seq![b0, b1, b2, b3, 0u8]);
    assert(s.skip(5) =~= seq![0u8]);
}

/// Opcode 13, followed by an unsigned byte, sets `equipslot_id` and nothing else.
pub proof fn lemma_opcode_13_equipslot_id(id: u32, b0: u8)
    ensures
        spec_decode(id, seq![13u8, b0, 0u8]) == Ok::<ItemConfigView, DecodeError>(
            ItemConfigView { equipslot_id: Some(b0), ..ItemConfigView::empty(id) },
        ),
{
    let s = seq![13u8, b0, 0u8];
    reveal_with_fuel(decode_from, 2);
    assert(s.skip(1) =~= seq![b0, 0u8]);
    assert(s.skip(2) =~= seq![0u8]);
}

/// Opcode 14, followed by an unsigned byte, sets `equip_id` and nothing else.
pub proof fn lemma_opcode_14_equip_id(id: u32, b0: u8)
    ensures
        spec_decode(id, seq![14u8, b0, 0u8]) == Ok::<ItemConfigView, DecodeError>(
            ItemConfigView { equip_id: Some(b0), ..ItemConfigView::empty(id) },
        ),
{
    let s = seq![14u8, b0, 0u8];
    reveal_with_fuel(decode_from, 2);
    assert(s.skip(1) =~= seq![b0, 0u8]);
    assert(s.skip(2) =~= seq![0u8]);
}

/// Opcode 15, followed by no value, sets `unknown_15` and nothing else.
pub proof fn lemma_opcode_15_unknown_15(id: u32)
    ensures
        spec_decode(id, seq![15u8, 0u8]) == Ok::<ItemConfigView, DecodeError>(
            ItemConfigView { unknown_15: Some(true), ..ItemConfigView::empty(id) },
        ),
{
    let s = seq![15u8, 0u8];
    reveal_with_fuel(decode_from, 2);
    assert(s.skip(1) =~= seq![0u8]);
    assert(s.skip(1) =~= seq![0u8]);
}

/// Opcode 16, followed by no value, sets `is_members` and nothing else.
pub proof fn lemma_opcode_16_is_members(id: u32)
    ensures
        spec_decode(id, seq![16u8, 0u8]) == Ok::<ItemConfigView, DecodeError>(
            ItemConfigView { is_members: Some(true), ..ItemConfigView::empty(id) },
        ),
{
    let s = seq![16u8, 0u8];
    reveal_with_fuel(decode_from, 2);
    assert(s.skip(1) =~= seq![0u8]);
    assert(s.skip(1) =~= seq![0u8]);
}

/// Opcode 23, followed by a model id in two bytes (high bit clear), sets `male_models` and nothing else.
pub proof fn lemma_opcode_23_male_models_short(id: u32, b0: u8, b1: u8)
    requires
        b0 < 128,
        b0 * 256 + b1 != 32767,
    ensures
        spec_decode(id, seq![23u8, b0, b1, 0u8]) == Ok::<ItemConfigView, DecodeError>(
            ItemConfigView { male_models: Some(Seq::new(3, |j: int| if j == 0 { Some((b0 * 256 + b1) as u32) } else { None })), ..ItemConfigView::empty(id) },
        ),
{
    let s = seq![23u8, b0, b1, 0u8];
    reveal_with_fuel(decode_from, 2);
    assert(s.skip(1) =~= seq![b0, b1, 0u8]);
    assert(s.skip(3) =~= seq![0u8]);
    let expected = ItemConfigView { male_models: Some(Seq::new(3, |j: int| if j == 0 { Some((b0 * 256 + b1) as u32) } else { None })), ..ItemConfigView::empty(id) };
    assert(apply_entry(ItemConfigView::empty(id), 23u8, spec_read_entry(23u8, s.skip(1)).unwrap().0).male_models.unwrap() =~= expected.male_models.unwrap());
}

/// Opcode 23, followed by a model id in four bytes (high bit set, then cleared), sets `male_models` and nothing else.
pub proof fn lemma_opcode_23_male_models_long(id: u32, b0: u8, b1: u8, b2: u8, b3: u8)
    requires
        b0 >= 128,
    ensures
        spec_decode(id, seq![23u8, b0, b1, b2, b3, 0u8]) == Ok::<ItemConfigView, DecodeError>(
            ItemConfigView { male_models: Some(Seq::new(3, |j: int| if j == 0 { Some(((((b0 - 128) * 256 + b1) * 256 + b2) * 256 + b3) as u32) } else { None })), ..ItemConfigView::empty(id) },
        ),
{
    let s = seq![23u8, b0, b1, b2, b3, 0u8];
    reveal_with_fuel(decode_from, 2);
    assert(s.skip(1) =~= seq![b0, b1, b2, b3, 0u8]);
    assert(s.skip(5) =~= seq![0u8]);
    let expected = ItemConfigView { male_models: Some(Seq::new(3, |j: int| if j == 0 { Some(((((b0 - 128) * 256 + b1) * 256 + b2) * 256 + b3) as u32) } else { None })), ..ItemConfigView::empty(id) };
    assert(apply_entry(ItemConfigView::empty(id), 23u8, spec_read_entry(23u8, s.skip(1)).unwrap().0).male_models.unwrap() =~= expected.male_models.unwrap());
}

/// Opcode 24, followed by a model id in two bytes (high bit clear), sets `male_models` and nothing else.
pub proof fn lemma_opcode_24_male_models_short(id: u32, b0: u8, b1: u8)
    requires
        b0 < 128,
        b0 * 256 + b1 != 32767,
    ensures
        spec_decode(id, seq![24u8, b0, b1, 0u8]) == Ok::<ItemConfigView, DecodeError>(
            ItemConfigView { male_models: Some(Seq::new(3, |j: int| if j == 1 { Some((b0 * 256 + b1) as u32) } else { None })), ..ItemConfigView::empty(id) },
        ),
{
    let s = seq![24u8, b0, b1, 0u8];
    reveal_with_fuel(decode_from, 2);
    assert(s.skip(1) =~= seq![b0, b1, 0u8]);
    assert(s.skip(3) =~= seq![0u8]);
    let expected = ItemConfigView { male_models: Some(Seq::new(3, |j: int| if j == 1 { Some((b0 * 256 + b1) as u32) } else { None })), ..ItemConfigView::empty(id) };
    assert(apply_entry(ItemConfigView::empty(id), 24u8, spec_read_entry(24u8, s.skip(1)).unwrap().0).male_models.unwrap() =~= expected.male_models.unwrap());
}

/// Opcode 24, followed by a model id in four bytes (high bit set, then cleared), sets `male_models` and nothing else.
pub proof fn lemma_opcode_24_male_models_long(id: u32, b0: u8, b1: u8, b2: u8, b3: u8)
    requires
        b0 >= 128,
    ensures
        spec_decode(id, seq![24u8, b0, b1, b2, b3, 0u8]) == Ok::<ItemConfigView, DecodeError>(
            ItemConfigView { male_models: Some(Seq::new(3, |j: int| if j == 1 { Some(((((b0 - 128) * 256 + b1) * 256 + b2) * 256 + b3) as u32) } else { None })), ..ItemConfigView::empty(id) },
        ),
{
    let s = seq![24u8, b0, b1, b2, b3, 0u8];
    reveal_with_fuel(decode_from, 2);
    assert(s.skip(1) =~= seq![b0, b1, b2, b3, 0u8]);
    assert(s.skip(5) =~= seq![0u8]);
    let expected = ItemConfigView { male_models: Some(Seq::new(3, |j: int| if j == 1 { Some(((((b0 - 128) * 256 + b1) * 256 + b2) * 256 + b3) as u32) } else { None })), ..ItemConfigView::empty(id) };
    assert(apply_entry(ItemConfigView::empty(id), 24u8, spec_read_entry(24u8, s.skip(1)).unwrap().0).male_models.unwrap() =~= expected.male_models.unwrap());
}

/// Opcode 25, followed by a model id in two bytes (high bit clear), sets `female_models` and nothing else.
pub proof fn lemma_opcode_25_female_models_short(id: u32, b0: u8, b1: u8)
    requires
        b0 < 128,
        b0 * 256 + b1 != 32767,
    ensures
        spec_decode(id, seq![25u8, b0, b1, 0u8]) == Ok::<ItemConfigView, DecodeError>(
            ItemConfigView { female_models: Some(Seq::new(3, |j: int| if j == 0 { Some((b0 * 256 + b1) as u32) } else { None })), ..ItemConfigView::empty(id) },
        ),
{
    let s = seq![25u8, b0, b1, 0u8];
    reveal_with_fuel(decode_from, 2);
    assert(s.skip(1) =~= seq![b0, b1, 0u8]);
    assert(s.skip(3) =~= seq![0u8]);
    let expected = ItemConfigView { female_models: Some(Seq::new(3, |j: int| if j == 0 { Some((b0 * 256 + b1) as u32) } else { None })), ..ItemConfigView::empty(id) };
    assert(apply_entry(ItemConfigView::empty(id), 25u8, spec_read_entry(25u8, s.skip(1)).unwrap().0).female_models.unwrap() =~= expected.female_models.unwrap());
}

/// Opcode 25, followed by a model id in four bytes (high bit set, then cleared), sets `female_models` and nothing else.
pub proof fn lemma_opcode_25_female_models_long(id: u32, b0: u8, b1: u8, b2: u8, b3: u8)
    requires
        b0 >= 128,
    ensures
        spec_decode(id, seq![25u8, b0, b1, b2, b3, 0u8]) == Ok::<ItemConfigView, DecodeError>(
            ItemConfigView { female_models: Some(Seq::new(3, |j: int| if j == 0 { Some(((((b0 - 128) * 256 + b1) * 256 + b2) * 256 + b3) as u32) } else { None })), ..ItemConfigView::empty(id) },
        ),
{
    let s = seq![25u8, b0, b1, b2, b3, 0u8];
    reveal_with_fuel(decode_from, 2);
    assert(s.skip(1) =~= seq![b0, b1, b2, b3, 0u8]);
    assert(s.skip(5) =~= seq![0u8]);
    let expected = ItemConfigView { female_models: Some(Seq::new(3, |j: int| if j == 0 { Some(((((b0 - 128) * 256 + b1) * 256 + b2) * 256 + b3) as u32) } else { None })), ..ItemConfigView::empty(id) };
    assert(apply_entry(ItemConfigView::empty(id), 25u8, spec_read_entry(25u8, s.skip(1)).unwrap().0).female_models.unwrap() =~= expected.female_models.unwrap());
}

/// Opcode 26, followed by a model id in two bytes (high bit clear), sets `female_models` and nothing else.
pub proof fn lemma_opcode_26_female_models_short(id: u32, b0: u8, b1: u8)
    requires
        b0 < 128,
        b0 * 256 + b1 != 32767,
    ensures
        spec_decode(id, seq![26u8, b0, b1, 0u8]) == Ok::<ItemConfigView, DecodeError>(
            ItemConfigView { female_models: Some(Seq::new(3, |j: int| if j == 1 { Some((b0 * 256 + b1) as u32) } else { None })), ..ItemConfigView::empty(id) },
        ),
{
    let s = seq![26u8, b0, b1, 0u8];
    reveal_with_fuel(decode_from, 2);
    assert(s.skip(1) =~= seq![b0, b1, 0u8]);
    assert(s.skip(3) =~= seq![0u8]);
    let expected = ItemConfigView { female_models: Some(Seq::new(3, |j: int| if j == 1 { Some((b0 * 256 + b1) as u32) } else { None })), ..ItemConfigView::empty(id) };
    assert(apply_entry(ItemConfigView::empty(id), 26u8, spec_read_entry(26u8, s.skip(1)).unwrap().0).female_models.unwrap() =~= expected.female_models.unwrap());
}

/// Opcode 26, followed by a model id in four bytes (high bit set, then cleared), sets `female_models` and nothing else.
pub proof fn lemma_opcode_26_female_models_long(id: u32, b0: u8, b1: u8, b2: u8, b3: u8)
    requires
        b0 >= 128,
    ensures
        spec_decode(id, seq![26u8, b0, b1, b2, b3, 0u8]) == Ok::<ItemConfigView, DecodeError>(
            ItemConfigView { female_models: Some(Seq::new(3, |j: int| if j == 1 { Some(((((b0 - 128) * 256 + b1) * 256 + b2) * 256 + b3) as u32) } else { None })), ..ItemConfigView::empty(id) },
        ),
{
    let s = seq![26u8, b0, b1, b2, b3, 0u8];
    reveal_with_fuel(decode_from, 2);
    assert(s.skip(1) =~= seq![b0, b1, b2, b3, 0u8]);
    assert(s.skip(5) =~= seq![0u8]);
    let expected = ItemConfigView { female_models: Some(Seq::new(3, |j: int| if j == 1 { Some(((((b0 - 128) * 256 + b1) * 256 + b2) * 256 + b3) as u32) } else { None })), ..ItemConfigView::empty(id) };
    assert(apply_entry(ItemConfigView::empty(id), 26u8, spec_read_entry(26u8, s.skip(1)).unwrap().0).female_models.unwrap() =~= expected.female_models.unwrap());
}

/// Opcode 27, followed by an unsigned byte, sets `unknown_27` and nothing else.
pub proof fn lemma_opcode_27_unknown_27(id: u32, b0: u8)
    ensures
        spec_decode(id, seq![27u8, b0, 0u8]) == Ok::<ItemConfigView, DecodeError>(
            ItemConfigView { unknown_27: Some(b0), ..ItemConfigView::empty(id) },
        ),
{
    let s = seq![27u8, b0, 0u8];
    reveal_with_fuel(decode_from, 2);
    assert(s.skip(1) =~= seq![b0, 0u8]);
    assert(s.skip(2) =~= seq![0u8]);
}

/// Opcode 30, followed by a zero-terminated string, sets `ground_actions` and nothing else.
pub proof fn lemma_opcode_30_ground_actions(id: u32, t: Seq<u8>)
    requires
        forall|j: int| 0 <= j < t.len() ==> t[j] != 0,
    ensures
        spec_decode(id, seq![30u8] + t + seq![0u8, 0u8]) == Ok::<ItemConfigView, DecodeError>(
            ItemConfigView { ground_actions: Some(Seq::new(5, |j: int| if j == 0 { Some(Seq::new(t.len(), |j: int| cp1252_char(t[j]))) } else { None })), ..ItemConfigView::empty(id) },
        ),
{
    let s = seq![30u8] + t + seq![0u8, 0u8];
    reveal_with_fuel(decode_from, 2);
    assert(s.skip(1) =~= t + seq![0u8] + seq![0u8]);
    lemma_read_text(t, seq![0u8]);
    assert(s.skip(1 + t.len() as int + 1) =~= seq![0u8]);
    let expected = ItemConfigView { ground_actions: Some(Seq::new(5, |j: int| if j == 0 { Some(Seq::new(t.len(), |j: int| cp1252_char(t[j]))) } else { None })), ..ItemConfigView::empty(id) };
    assert(apply_entry(ItemConfigView::empty(id), 30u8, spec_read_entry(30u8, s.skip(1)).unwrap().0).ground_actions.unwrap() =~= expected.ground_actions.unwrap());
}

/// Opcode 31, followed by a zero-terminated string, sets `ground_actions` and nothing else.
pub proof fn lemma_opcode_31_ground_actions(id: u32, t: Seq<u8>)
    requires
        forall|j: int| 0 <= j < t.len() ==> t[j] != 0,
    ensures
        spec_decode(id, seq![31u8] + t + seq![0u8, 0u8]) == Ok::<ItemConfigView, DecodeError>(
            ItemConfigView { ground_actions: Some(Seq::new(5, |j: int| if j == 1 { Some(Seq::new(t.len(), |j: int| cp1252_char(t[j]))) } else { None })), ..ItemConfigView::empty(id) },
        ),
{
    let s = seq![31u8] + t + seq![0u8, 0u8];
    reveal_with_fuel(decode_from, 2);
    assert(s.skip(1) =~= t + seq![0u8] + seq![0u8]);
    lemma_read_text(t, seq![0u8]);
    assert(s.skip(1 + t.len() as int + 1) =~= seq![0u8]);
    let expected = ItemConfigView { ground_actions: Some(Seq::new(5, |j: int| if j == 1 { Some(Seq::new(t.len(), |j: int| cp1252_char(t[j]))) } else { None })), ..ItemConfigView::empty(id) };
    assert(apply_entry(ItemConfigView::empty(id), 31u8, spec_read_entry(31u8, s.skip(1)).unwrap().0).ground_actions.unwrap() =~= expected.ground_actions.unwrap());
}

/// Opcode 32, followed by a zero-terminated string, sets `ground_actions` and nothing else.
pub proof fn lemma_opcode_32_ground_actions(id: u32, t: Seq<u8>)
    requires
        forall|j: int| 0 <= j < t.len() ==> t[j] != 0,
    ensures
        spec_decode(id, seq![32u8] + t + seq![0u8, 0u8]) == Ok::<ItemConfigView, DecodeError>(
            ItemConfigView { ground_actions: Some(Seq::new(5, |j: int| if j == 2 { Some(Seq::new(t.len(), |j: int| cp1252_char(t[j]))) } else { None })), ..ItemConfigView::empty(id) },
        ),
{
    let s = seq![32u8] + t + seq![0u8, 0u8];
    reveal_with_fuel(decode_from, 2);
    assert(s.skip(1) =~= t + seq![0u8] + seq![0u8]);
    lemma_read_text(t, seq![0u8]);
    assert(s.skip(1 + t.len() as int + 1) =~= seq![0u8]);
    let expected = ItemConfigView { ground_actions: Some(Seq::new(5, |j: int| if j == 2 { Some(Seq::new(t.len(), |j: int| cp1252_char(t[j]))) } else { None })), ..ItemConfigView::empty(id) };
    assert(apply_entry(ItemConfigView::empty(id), 32u8, spec_read_entry(32u8, s.skip(1)).unwrap().0).ground_actions.unwrap() =~= expected.ground_actions.unwrap());
}

/// Opcode 33, followed by a zero-terminated string, sets `ground_actions` and nothing else.
pub proof fn lemma_opcode_33_ground_actions(id: u32, t: Seq<u8>)
    requires
        forall|j: int| 0 <= j < t.len() ==> t[j] != 0,
    ensures
        spec_decode(id, seq![33u8] + t + seq![0u8, 0u8]) == Ok::<ItemConfigView, DecodeError>(
            ItemConfigView { ground_actions: Some(Seq::new(5, |j: int| if j == 3 { Some(Seq::new(t.len(), |j: int| cp1252_char(t[j]))) } else { None })), ..ItemConfigView::empty(id) },
        ),
{
    let s = seq![33u8] + t + seq![0u8, 0u8];
    reveal_with_fuel(decode_from, 2);
    assert(s.skip(1) =~= t + seq![0u8] + seq![0u8]);
    lemma_read_text(t, seq![0u8]);
    assert(s.skip(1 + t.len() as int + 1) =~= seq![0u8]);
    let expected = ItemConfigView { ground_actions: Some(Seq::new(5, |j: int| if j == 3 { Some(Seq::new(t.len(), |j: int| cp1252_char(t[j]))) } else { None })), ..ItemConfigView::empty(id) };
    assert(apply_entry(ItemConfigView::empty(id), 33u8, spec_read_entry(33u8, s.skip(1)).unwrap().0).ground_actions.unwrap() =~= expected.ground_actions.unwrap());
}

/// Opcode 34, followed by a zero-terminated string, sets `ground_actions` and nothing else.
pub proof fn lemma_opcode_34_ground_actions(id: u32, t: Seq<u8>)
    requires
        forall|j: int| 0 <= j < t.len() ==> t[j] != 0,
    ensures
        spec_decode(id, seq![34u8] + t + seq![0u8, 0u8]) == Ok::<ItemConfigView, DecodeError>(
            ItemConfigView { ground_actions: Some(Seq::new(5, |j: int| if j == 4 { Some(Seq::new(t.len(), |j: int| cp1252_char(t[j]))) } else { None })), ..ItemConfigView::empty(id) },
        ),
{
    let s = seq![34u8] + t + seq![0u8, 0u8];
    reveal_with_fuel(decode_from, 2);
    assert(s.skip(1) =~= t + seq![0u8] + seq![0u8]);
    lemma_read_text(t, seq![0u8]);
    assert(s.skip(1 + t.len() as int + 1) =~= seq![0u8]);
    let expected = ItemConfigView { ground_actions: Some(Seq::new(5, |j: int| if j == 4 { Some(Seq::new(t.len(), |j: int| cp1252_char(t[j]))) } else { None })), ..ItemConfigView::empty(id) };
    assert(apply_entry(ItemConfigView::empty(id), 34u8, spec_read_entry(34u8, s.skip(1)).unwrap().0).ground_actions.unwrap() =~= expected.ground_actions.unwrap());
}

/// Opcode 35, followed by a zero-terminated string, sets `widget_actions` and nothing else.
pub proof fn lemma_opcode_35_widget_actions(id: u32, t: Seq<u8>)
    requires
        forall|j: int| 0 <= j < t.len() ==> t[j] != 0,
    ensures
        spec_decode(id, seq![35u8] + t + seq![0u8, 0u8]) == Ok::<ItemConfigView, DecodeError>(
            ItemConfigView { widget_actions: Some(Seq::new(5, |j: int| if j == 0 { Some(Seq::new(t.len(), |j: int| cp1252_char(t[j]))) } else { None })), ..ItemConfigView::empty(id) },
        ),
{
    let s = seq![35u8] + t + seq![0u8, 0u8];
    reveal_with_fuel(decode_from, 2);
    assert(s.skip(1) =~= t + seq![0u8] + seq![0u8]);
    lemma_read_text(t, seq![0u8]);
    assert(s.skip(1 + t.len() as int + 1) =~= seq![0u8]);
    let expected = ItemConfigView { widget_actions: Some(Seq::new(5, |j: int| if j == 0 { Some(Seq::new(t.len(), |j: int| cp1252_char(t[j]))) } else { None })), ..ItemConfigView::empty(id) };
    assert(apply_entry(ItemConfigView::empty(id), 35u8, spec_read_entry(35u8, s.skip(1)).unwrap().0).widget_actions.unwrap() =~= expected.widget_actions.unwrap());
}

/// Opcode 36, followed by a zero-terminated string, sets `widget_actions` and nothing else.
pub proof fn lemma_opcode_36_widget_actions(id: u32, t: Seq<u8>)
    requires
        forall|j: int| 0 <= j < t.len() ==> t[j] != 0,
    ensures
        spec_decode(id, seq![36u8] + t + seq![0u8, 0u8]) == Ok::<ItemConfigView, DecodeError>(
            ItemConfigView { widget_actions: Some(Seq::new(5, |j: int| if j == 1 { Some(Seq::new(t.len(), |j: int| cp1252_char(t[j]))) } else { None })), ..ItemConfigView::empty(id) },
        ),
{
    let s = seq![36u8] + t + seq![0u8, 0u8];
    reveal_with_fuel(decode_from, 2);
    assert(s.skip(1) =~= t + seq![0u8] + seq![0u8]);
    lemma_read_text(t, seq![0u8]);
    assert(s.skip(1 + t.len() as int + 1) =~= seq![0u8]);
    let expected = ItemConfigView { widget_actions: Some(Seq::new(5, |j: int| if j == 1 { Some(Seq::new(t.len(), |j: int| cp1252_char(t[j]))) } else { None })), ..ItemConfigView::empty(id) };
    assert(apply_entry(ItemConfigView::empty(id), 36u8, spec_read_entry(36u8, s.skip(1)).unwrap().0).widget_actions.unwrap() =~= expected.widget_actions.unwrap());
}

/// Opcode 37, followed by a zero-terminated string, sets `widget_actions` and nothing else.
pub proof fn lemma_opcode_37_widget_actions(id: u32, t: Seq<u8>)
    requires
        forall|j: int| 0 <= j < t.len() ==> t[j] != 0,
    ensures
        spec_decode(id, seq![37u8] + t + seq![0u8, 0u8]) == Ok::<ItemConfigView, DecodeError>(
            ItemConfigView { widget_actions: Some(Seq::new(5, |j: int| if j == 2 { Some(Seq::new(t.len(), |j: int| cp1252_char(t[j]))) } else { None })), ..ItemConfigView::empty(id) },
        ),
{
    let s = seq![37u8] + t + seq![0u8, 0u8];
    reveal_with_fuel(decode_from, 2);
    assert(s.skip(1) =~= t + seq![0u8] + seq![0u8]);
    lemma_read_text(t, seq![0u8]);
    assert(s.skip(1 + t.len() as int + 1) =~= seq![0u8]);
    let expected = ItemConfigView { widget_actions: Some(Seq::new(5, |j: int| if j == 2 { Some(Seq::new(t.len(), |j: int| cp1252_char(t[j]))) } else { None })), ..ItemConfigView::empty(id) };
    assert(apply_entry(ItemConfigView::empty(id), 37u8, spec_read_entry(37u8, s.skip(1)).unwrap().0).widget_actions.unwrap() =~= expected.widget_actions.unwrap());
}

/// Opcode 38, followed by a zero-terminated string, sets `widget_actions` and nothing else.
pub proof fn lemma_opcode_38_widget_actions(id: u32, t: Seq<u8>)
    requires
        forall|j: int| 0 <= j < t.len() ==> t[j] != 0,
    ensures
        spec_decode(id, seq![38u8] + t + seq![0u8, 0u8]) == Ok::<ItemConfigView, DecodeError>(
            ItemConfigView { widget_actions: Some(Seq::new(5, |j: int| if j == 3 { Some(Seq::new(t.len(), |j: int| cp1252_char(t[j]))) } else { None })), ..ItemConfigView::empty(id) },
        ),
{
    let s = seq![38u8] + t + seq![0u8, 0u8];
    reveal_with_fuel(decode_from, 2);
    assert(s.skip(1) =~= t + seq![0u8] + seq![0u8]);
    lemma_read_text(t, seq![0u8]);
    assert(s.skip(1 + t.len() as int + 1) =~= seq![0u8]);
    let expected = ItemConfigView { widget_actions: Some(Seq::new(5, |j: int| if j == 3 { Some(Seq::new(t.len(), |j: int| cp1252_char(t[j]))) } else { None })), ..ItemConfigView::empty(id) };
    assert(apply_entry(ItemConfigView::empty(id), 38u8, spec_read_entry(38u8, s.skip(1)).unwrap().0).widget_actions.unwrap() =~= expected.widget_actions.unwrap());
}

/// Opcode 39, followed by a zero-terminated string, sets `widget_actions` and nothing else.
pub proof fn lemma_opcode_39_widget_actions(id: u32, t: Seq<u8>)
    requires
        forall|j: int| 0 <= j < t.len() ==> t[j] != 0,
    ensures
        spec_decode(id, seq![39u8] + t + seq![0u8, 0u8]) == Ok::<ItemConfigView, DecodeError>(
            ItemConfigView { widget_actions: Some(Seq::new(5, |j: int| if j == 4 { Some(Seq::new(t.len(), |j: int| cp1252_char(t[j]))) } else { None })), ..ItemConfigView::empty(id) },
        ),
{
    let s = seq![39u8] + t + seq![0u8, 0u8];
    reveal_with_fuel(decode_from, 2);
    assert(s.skip(1) =~= t + seq![0u8] + seq![0u8]);
    lemma_read_text(t, seq![0u8]);
    assert(s.skip(1 + t.len() as int + 1) =~= seq![0u8]);
    let expected = ItemConfigView { widget_actions: Some(Seq::new(5, |j: int| if j == 4 { Some(Seq::new(t.len(), |j: int| cp1252_char(t[j]))) } else { None })), ..ItemConfigView::empty(id) };
    assert(apply_entry(ItemConfigView::empty(id), 39u8, spec_read_entry(39u8, s.skip(1)).unwrap().0).widget_actions.unwrap() =~= expected.widget_actions.unwrap());
}

/// Opcode 40, followed by a count byte, then that many pairs of 16-bit colours, sets `colour_replacements` and nothing else.
pub proof fn lemma_opcode_40_colour_replacements(id: u32, b0: u8, b1: u8, b2: u8, b3: u8)
    ensures
        spec_decode(id, seq![40u8, 1u8, b0, b1, b2, b3, 0u8]) == Ok::<ItemConfigView, DecodeError>(
            ItemConfigView { colour_replacements: Some(seq![((b0 * 256 + b1) as u16, (b2 * 256 + b3) as u16)]), ..ItemConfigView::empty(id) },
        ),
{
    let s = seq![40u8, 1u8, b0, b1, b2, b3, 0u8];
    reveal_with_fuel(decode_from, 2);
    assert(s.skip(1) =~= seq![1u8, b0, b1, b2, b3, 0u8]);
    assert(s.skip(6) =~= seq![0u8]);
    assert(u16_pairs(s.skip(1), 1, 1) =~= seq![((b0 * 256 + b1) as u16, (b2 * 256 + b3) as u16)]);
}

/// Opcode 41, followed by a count byte, then that many pairs of 16-bit textures, sets `textures` and nothing else.
pub proof fn lemma_opcode_41_textures(id: u32, b0: u8, b1: u8, b2: u8, b3: u8)
    ensures
        spec_decode(id, seq![41u8, 1u8, b0, b1, b2, b3, 0u8]) == Ok::<ItemConfigView, DecodeError>(
            ItemConfigView { textures: Some(Map::<u16, u16>::empty().insert((b0 * 256 + b1) as u16, (b2 * 256 + b3) as u16)), ..ItemConfigView::empty(id) },
        ),
{
    let s = seq![41u8, 1u8, b0, b1, b2, b3, 0u8];
    reveal_with_fuel(decode_from, 2);
    assert(s.skip(1) =~= seq![1u8, b0, b1, b2, b3, 0u8]);
    assert(s.skip(6) =~= seq![0u8]);
    assert(u16_pairs(s.skip(1), 1, 1) =~= seq![((b0 * 256 + b1) as u16, (b2 * 256 + b3) as u16)]);
    reveal_with_fuel(pairs_to_map, 2);
    assert(seq![((b0 * 256 + b1) as u16, (b2 * 256 + b3) as u16)].drop_last() =~= Seq::<(u16, u16)>::empty());
}

/// Opcode 42, followed by a count byte, then that many signed bytes, sets `recolour_palette` and nothing else.
pub proof fn lemma_opcode_42_recolour_palette(id: u32, b0: u8)
    ensures
        spec_decode(id, seq![42u8, 1u8, b0, 0u8]) == Ok::<ItemConfigView, DecodeError>(
            ItemConfigView { recolour_palette: Some(seq![(if b0 >= 128 { b0 - 256 } else { b0 as int }) as i8]), ..ItemConfigView::empty(id) },
        ),
{
    let s = seq![42u8, 1u8, b0, 0u8];
    reveal_with_fuel(decode_from, 2);
    assert(s.skip(1) =~= seq![1u8, b0, 0u8]);
    assert(s.skip(3) =~= seq![0u8]);
    assert(Seq::new(1, |i: int| i8_of(s.skip(1)[1 + i])) =~= seq![(if b0 >= 128 { b0 - 256 } else { b0 as int }) as i8]);
}

/// Opcode 44, followed by a big-endian unsigned 16-bit integer, sets `recolour_indices` and nothing else.
pub proof fn lemma_opcode_44_recolour_indices(id: u32, b0: u8, b1: u8)
    ensures
        spec_decode(id, seq![44u8, b0, b1, 0u8]) == Ok::<ItemConfigView, DecodeError>(
            ItemConfigView { recolour_indices: Some((b0 * 256 + b1) as u16), ..ItemConfigView::empty(id) },
        ),
{
    let s = seq![44u8, b0, b1, 0u8];
    reveal_with_fuel(decode_from, 2);
    assert(s.skip(1) =~= seq![b0, b1, 0u8]);
    assert(s.skip(3) =~= seq![0u8]);
}

/// Opcode 45, followed by a big-endian unsigned 16-bit integer, sets `retexture_indices` and nothing else.
pub proof fn lemma_opcode_45_retexture_indices(id: u32, b0: u8, b1: u8)
    ensures
        spec_decode(id, seq![45u8, b0, b1, 0u8]) == Ok::<ItemConfigView, DecodeError>(
            ItemConfigView { retexture_indices: Some((b0 * 256 + b1) as u16), ..ItemConfigView::empty(id) },
        ),
{
    let s = seq![45u8, b0, b1, 0u8];
    reveal_with_fuel(decode_from, 2);
    assert(s.skip(1) =~= seq![b0, b1, 0u8]);
    assert(s.skip(3) =~= seq![0u8]);
}

/// Opcode 65, followed by no value, sets `is_tradeable` and nothing else.
pub proof fn lemma_opcode_65_is_tradeable(id: u32)
    ensures
        spec_decode(id, seq![65u8, 0u8]) == Ok::<ItemConfigView, DecodeError>(
            ItemConfigView { is_tradeable: Some(true), ..ItemConfigView::empty(id) },
        ),
{
    let s = seq![65u8, 0u8];
    reveal_with_fuel(decode_from, 2);
    assert(s.skip(1) =~= seq![0u8]);
    assert(s.skip(1) =~= seq![0u8]);
}

/// Opcode 69, followed by a big-endian signed 32-bit integer, sets `ge_buy_limit` and nothing else.
pub proof fn lemma_opcode_69_ge_buy_limit(id: u32, b0: u8, b1: u8, b2: u8, b3: u8)
    ensures
        spec_decode(id, seq![69u8, b0, b1, b2, b3, 0u8]) == Ok::<ItemConfigView, DecodeError>(
            ItemConfigView { ge_buy_limit: Some((if b0 >= 128 { ((b0 * 256 + b1) * 256 + b2) * 256 + b3 - 0x1_0000_0000 } else { ((b0 * 256 + b1) * 256 + b2) * 256 + b3 }) as i32), ..ItemConfigView::empty(id) },
        ),
{
    let s = seq![69u8, b0, b1, b2, b3, 0u8];
    reveal_with_fuel(decode_from, 2);
    assert(s.skip(1) =~= seq![b0, b1, b2, b3, 0u8]);
    assert(s.skip(5) =~= seq![0u8]);
}

/// Opcode 78, followed by a model id in two bytes (high bit clear), sets `male_models` and nothing else.
pub proof fn lemma_opcode_78_male_models_short(id: u32, b0: u8, b1: u8)
    requires
        b0 < 128,
        b0 * 256 + b1 != 32767,
    ensures
        spec_decode(id, seq![78u8, b0, b1, 0u8]) == Ok::<ItemConfigView, DecodeError>(
            ItemConfigView { male_models: Some(Seq::new(3, |j: int| if j == 2 { Some((b0 * 256 + b1) as u32) } else { None })), ..ItemConfigView::empty(id) },
        ),
{
    let s = seq![78u8, b0, b1, 0u8];
    reveal_with_fuel(decode_from, 2);
    assert(s.skip(1) =~= seq![b0, b1, 0u8]);
    assert(s.skip(3) =~= seq![0u8]);
    let expected = ItemConfigView { male_models: Some(Seq::new(3, |j: int| if j == 2 { Some((b0 * 256 + b1) as u32) } else { None })), ..ItemConfigView::empty(id) };
    assert(apply_entry(ItemConfigView::empty(id), 78u8, spec_read_entry(78u8, s.skip(1)).unwrap().0).male_models.unwrap() =~= expected.male_models.unwrap());
}

/// Opcode 78, followed by a model id in four bytes (high bit set, then cleared), sets `male_models` and nothing else.
pub proof fn lemma_opcode_78_male_models_long(id: u32, b0: u8, b1: u8, b2: u8, b3: u8)
    requires
        b0 >= 128,
    ensures
        spec_decode(id, seq![78u8, b0, b1, b2, b3, 0u8]) == Ok::<ItemConfigView, DecodeError>(
            ItemConfigView { male_models: Some(Seq::new(3, |j: int| if j == 2 { Some(((((b0 - 128) * 256 + b1) * 256 + b2) * 256 + b3) as u32) } else { None })), ..ItemConfigView::empty(id) },
        ),
{
    let s = seq![78u8, b0, b1, b2, b3, 0u8];
    reveal_with_fuel(decode_from, 2);
    assert(s.skip(1) =~= seq![b0, b1, b2, b3, 0u8]);
    assert(s.skip(5) =~= seq![0u8]);
    let expected = ItemConfigView { male_models: Some(Seq::new(3, |j: int| if j == 2 { Some(((((b0 - 128) * 256 + b1) * 256 + b2) * 256 + b3) as u32) } else { None })), ..ItemConfigView::empty(id) };
    assert(apply_entry(ItemConfigView::empty(id), 78u8, spec_read_entry(78u8, s.skip(1)).unwrap().0).male_models.unwrap() =~= expected.male_models.unwrap());
}

/// Opcode 79, followed by a model id in two bytes (high bit clear), sets `female_models` and nothing else.
pub proof fn lemma_opcode_79_female_models_short(id: u32, b0: u8, b1: u8)
    requires
        b0 < 128,
        b0 * 256 + b1 != 32767,
    ensures
        spec_decode(id, seq![79u8, b0, b1, 0u8]) == Ok::<ItemConfigView, DecodeError>(
            ItemConfigView { female_models: Some(Seq::new(3, |j: int| if j == 2 { Some((b0 * 256 + b1) as u32) } else { None })), ..ItemConfigView::empty(id) },
        ),
{
    let s = seq![79u8, b0, b1, 0u8];
    reveal_with_fuel(decode_from, 2);
    assert(s.skip(1) =~= seq![b0, b1, 0u8]);
    assert(s.skip(3) =~= seq![0u8]);
    let expected = ItemConfigView { female_models: Some(Seq::new(3, |j: int| if j == 2 { Some((b0 * 256 + b1) as u32) } else { None })), ..ItemConfigView::empty(id) };
    assert(apply_entry(ItemConfigView::empty(id), 79u8, spec_read_entry(79u8, s.skip(1)).unwrap().0).female_models.unwrap() =~= expected.female_models.unwrap());
}

/// Opcode 79, followed by a model id in four bytes (high bit set, then cleared), sets `female_models` and nothing else.
pub proof fn lemma_opcode_79_female_models_long(id: u32, b0: u8, b1: u8, b2: u8, b3: u8)
    requires
        b0 >= 128,
    ensures
        spec_decode(id, seq![79u8, b0, b1, b2, b3, 0u8]) == Ok::<ItemConfigView, DecodeError>(
            ItemConfigView { female_models: Some(Seq::new(3, |j: int| if j == 2 { Some(((((b0 - 128) * 256 + b1) * 256 + b2) * 256 + b3) as u32) } else { None })), ..ItemConfigView::empty(id) },
        ),
{
    let s = seq![79u8, b0, b1, b2, b3, 0u8];
    reveal_with_fuel(decode_from, 2);
    assert(s.skip(1) =~= seq![b0, b1, b2, b3, 0u8]);
    assert(s.skip(5) =~= seq![0u8]);
    let expected = ItemConfigView { female_models: Some(Seq::new(3, |j: int| if j == 2 { Some(((((b0 - 128) * 256 + b1) * 256 + b2) * 256 + b3) as u32) } else { None })), ..ItemConfigView::empty(id) };
    assert(apply_entry(ItemConfigView::empty(id), 79u8, spec_read_entry(79u8, s.skip(1)).unwrap().0).female_models.unwrap() =~= expected.female_models.unwrap());
}

/// Opcode 90, followed by a model id in two bytes (high bit clear), sets `male_head_models` and nothing else.
pub proof fn lemma_opcode_90_male_head_models_short(id: u32, b0: u8, b1: u8)
    requires
        b0 < 128,
        b0 * 256 + b1 != 32767,
    ensures
        spec_decode(id, seq![90u8, b0, b1, 0u8]) == Ok::<ItemConfigView, DecodeError>(
            ItemConfigView { male_head_models: Some(Seq::new(2, |j: int| if j == 0 { Some((b0 * 256 + b1) as u32) } else { None })), ..ItemConfigView::empty(id) },
        ),
{
    let s = seq![90u8, b0, b1, 0u8];
    reveal_with_fuel(decode_from, 2);
    assert(s.skip(1) =~= seq![b0, b1, 0u8]);
    assert(s.skip(3) =~= seq![0u8]);
    let expected = ItemConfigView { male_head_models: Some(Seq::new(2, |j: int| if j == 0 { Some((b0 * 256 + b1) as u32) } else { None })), ..ItemConfigView::empty(id) };
    assert(apply_entry(ItemConfigView::empty(id), 90u8, spec_read_entry(90u8, s.skip(1)).unwrap().0).male_head_models.unwrap() =~= expected.male_head_models.unwrap());
}

/// Opcode 90, followed by a model id in four bytes (high bit set, then cleared), sets `male_head_models` and nothing else.
pub proof fn lemma_opcode_90_male_head_models_long(id: u32, b0: u8, b1: u8, b2: u8, b3: u8)
    requires
        b0 >= 128,
    ensures
        spec_decode(id, seq![90u8, b0, b1, b2, b3, 0u8]) == Ok::<ItemConfigView, DecodeError>(
            ItemConfigView { male_head_models: Some(Seq::new(2, |j: int| if j == 0 { Some(((((b0 - 128) * 256 + b1) * 256 + b2) * 256 + b3) as u32) } else { None })), ..ItemConfigView::empty(id) },
        ),
{
    let s = seq![90u8, b0, b1, b2, b3, 0u8];
    reveal_with_fuel(decode_from, 2);
    assert(s.skip(1) =~= seq![b0, b1, b2, b3, 0u8]);
    assert(s.skip(5) =~= seq![0u8]);
    let expected = ItemConfigView { male_head_models: Some(Seq::new(2, |j: int| if j == 0 { Some(((((b0 - 128) * 256 + b1) * 256 + b2) * 256 + b3) as u32) } else { None })), ..ItemConfigView::empty(id) };
    assert(apply_entry(ItemConfigView::empty(id), 90u8, spec_read_entry(90u8, s.skip(1)).unwrap().0).male_head_models.unwrap() =~= expected.male_head_models.unwrap());
}

/// Opcode 91, followed by a model id in two bytes (high bit clear), sets `female_head_models` and nothing else.
pub proof fn lemma_opcode_91_female_head_models_short(id: u32, b0: u8, b1: u8)
    requires
        b0 < 128,
        b0 * 256 + b1 != 32767,
    ensures
        spec_decode(id, seq![91u8, b0, b1, 0u8]) == Ok::<ItemConfigView, DecodeError>(
            ItemConfigView { female_head_models: Some(Seq::new(2, |j: int| if j == 0 { Some((b0 * 256 + b1) as u32) } else { None })), ..ItemConfigView::empty(id) },
        ),
{
    let s = seq![91u8, b0, b1, 0u8];
    reveal_with_fuel(decode_from, 2);
    assert(s.skip(1) =~= seq![b0, b1, 0u8]);
    assert(s.skip(3) =~= seq![0u8]);
    let expected = ItemConfigView { female_head_models: Some(Seq::new(2, |j: int| if j == 0 { Some((b0 * 256 + b1) as u32) } else { None })), ..ItemConfigView::empty(id) };
    assert(apply_entry(ItemConfigView::empty(id), 91u8, spec_read_entry(91u8, s.skip(1)).unwrap().0).female_head_models.unwrap() =~= expected.female_head_models.unwrap());
}

/// Opcode 91, followed by a model id in four bytes (high bit set, then cleared), sets `female_head_models` and nothing else.
pub proof fn lemma_opcode_91_female_head_models_long(id: u32, b0: u8, b1: u8, b2: u8, b3: u8)
    requires
        b0 >= 128,
    ensures
        spec_decode(id, seq![91u8, b0, b1, b2, b3, 0u8]) == Ok::<ItemConfigView, DecodeError>(
            ItemConfigView { female_head_models: Some(Seq::new(2, |j: int| if j == 0 { Some(((((b0 - 128) * 256 + b1) * 256 + b2) * 256 + b3) as u32) } else { None })), ..ItemConfigView::empty(id) },
        ),
{
    let s = seq![91u8, b0, b1, b2, b3, 0u8];
    reveal_with_fuel(decode_from, 2);
    assert(s.skip(1) =~= seq![b0, b1, b2, b3, 0u8]);
    assert(s.skip(5) =~= seq![0u8]);
    let expected = ItemConfigView { female_head_models: Some(Seq::new(2, |j: int| if j == 0 { Some(((((b0 - 128) * 256 + b1) * 256 + b2) * 256 + b3) as u32) } else { None })), ..ItemConfigView::empty(id) };
    assert(apply_entry(ItemConfigView::empty(id), 91u8, spec_read_entry(91u8, s.skip(1)).unwrap().0).female_head_models.unwrap() =~= expected.female_head_models.unwrap());
}

/// Opcode 92, followed by a model id in two bytes (high bit clear), sets `male_head_models` and nothing else.
pub proof fn lemma_opcode_92_male_head_models_short(id: u32, b0: u8, b1: u8)
    requires
        b0 < 128,
        b0 * 256 + b1 != 32767,
    ensures
        spec_decode(id, seq![92u8, b0, b1, 0u8]) == Ok::<ItemConfigView, DecodeError>(
            ItemConfigView { male_head_models: Some(Seq::new(2, |j: int| if j == 1 { Some((b0 * 256 + b1) as u32) } else { None })), ..ItemConfigView::empty(id) },
        ),
{
    let s = seq![92u8, b0, b1, 0u8];
    reveal_with_fuel(decode_from, 2);
    assert(s.skip(1) =~= seq![b0, b1, 0u8]);
    assert(s.skip(3) =~= seq![0u8]);
    let expected = ItemConfigView { male_head_models: Some(Seq::new(2, |j: int| if j == 1 { Some((b0 * 256 + b1) as u32) } else { None })), ..ItemConfigView::empty(id) };
    assert(apply_entry(ItemConfigView::empty(id), 92u8, spec_read_entry(92u8, s.skip(1)).unwrap().0).male_head_models.unwrap() =~= expected.male_head_models.unwrap());
}

/// Opcode 92, followed by a model id in four bytes (high bit set, then cleared), sets `male_head_models` and nothing else.
pub proof fn lemma_opcode_92_male_head_models_long(id: u32, b0: u8, b1: u8, b2: u8, b3: u8)
    requires
        b0 >= 128,
    ensures
        spec_decode(id, seq![92u8, b0, b1, b2, b3, 0u8]) == Ok::<ItemConfigView, DecodeError>(
            ItemConfigView { male_head_models: Some(Seq::new(2, |j: int| if j == 1 { Some(((((b0 - 128) * 256 + b1) * 256 + b2) * 256 + b3) as u32) } else { None })), ..ItemConfigView::empty(id) },
        ),
{
    let s = seq![92u8, b0, b1, b2, b3, 0u8];
    reveal_with_fuel(decode_from, 2);
    assert(s.skip(1) =~= seq![b0, b1, b2, b3, 0u8]);
    assert(s.skip(5) =~= seq![0u8]);
    let expected = ItemConfigView { male_head_models: Some(Seq::new(2, |j: int| if j == 1 { Some(((((b0 - 128) * 256 + b1) * 256 + b2) * 256 + b3) as u32) } else { None })), ..ItemConfigView::empty(id) };
    assert(apply_entry(ItemConfigView::empty(id), 92u8, spec_read_entry(92u8, s.skip(1)).unwrap().0).male_head_models.unwrap() =~= expected.male_head_models.unwrap());
}

/// Opcode 93, followed by a model id in two bytes (high bit clear), sets `female_head_models` and nothing else.
pub proof fn lemma_opcode_93_female_head_models_short(id: u32, b0: u8, b1: u8)
    requires
        b0 < 128,
        b0 * 256 + b1 != 32767,
    ensures
        spec_decode(id, seq![93u8, b0, b1, 0u8]) == Ok::<ItemConfigView, DecodeError>(
            ItemConfigView { female_head_models: Some(Seq::new(2, |j: int| if j == 1 { Some((b0 * 256 + b1) as u32) } else { None })), ..ItemConfigView::empty(id) },
        ),
{
    let s = seq![93u8, b0, b1, 0u8];
    reveal_with_fuel(decode_from, 2);
    assert(s.skip(1) =~= seq![b0, b1, 0u8]);
    assert(s.skip(3) =~= seq![0u8]);
    let expected = ItemConfigView { female_head_models: Some(Seq::new(2, |j: int| if j == 1 { Some((b0 * 256 + b1) as u32) } else { None })), ..ItemConfigView::empty(id) };
    assert(apply_entry(ItemConfigView::empty(id), 93u8, spec_read_entry(93u8, s.skip(1)).unwrap().0).female_head_models.unwrap() =~= expected.female_head_models.unwrap());
}

/// Opcode 93, followed by a model id in four bytes (high bit set, then cleared), sets `female_head_models` and nothing else.
pub proof fn lemma_opcode_93_female_head_models_long(id: u32, b0: u8, b1: u8, b2: u8, b3: u8)
    requires
        b0 >= 128,
    ensures
        spec_decode(id, seq![93u8, b0, b1, b2, b3, 0u8]) == Ok::<ItemConfigView, DecodeError>(
            ItemConfigView { female_head_models: Some(Seq::new(2, |j: int| if j == 1 { Some(((((b0 - 128) * 256 + b1) * 256 + b2) * 256 + b3) as u32) } else { None })), ..ItemConfigView::empty(id) },
        ),
{
    let s = seq![93u8, b0, b1, b2, b3, 0u8];
    reveal_with_fuel(decode_from, 2);
    assert(s.skip(1) =~= seq![b0, b1, b2, b3, 0u8]);
    assert(s.skip(5) =~= seq![0u8]);
    let expected = ItemConfigView { female_head_models: Some(Seq::new(2, |j: int| if j == 1 { Some(((((b0 - 128) * 256 + b1) * 256 + b2) * 256 + b3) as u32) } else { None })), ..ItemConfigView::empty(id) };
    assert(apply_entry(ItemConfigView::empty(id), 93u8, spec_read_entry(93u8, s.skip(1)).unwrap().0).female_head_models.unwrap() =~= expected.female_head_models.unwrap());
}

/// Opcode 94, followed by a big-endian unsigned 16-bit integer, sets `category` and nothing else.
pub proof fn lemma_opcode_94_category(id: u32, b0: u8, b1: u8)
    ensures
        spec_decode(id, seq![94u8, b0, b1, 0u8]) == Ok::<ItemConfigView, DecodeError>(
            ItemConfigView { category: Some((b0 * 256 + b1) as u16), ..ItemConfigView::empty(id) },
        ),
{
    let s = seq![94u8, b0, b1, 0u8];
    reveal_with_fuel(decode_from, 2);
    assert(s.skip(1) =~= seq![b0, b1, 0u8]);
    assert(s.skip(3) =~= seq![0u8]);
}

/// Opcode 95, followed by a big-endian unsigned 16-bit integer, sets `model_yaw` and nothing else.
pub proof fn lemma_opcode_95_model_yaw(id: u32, b0: u8, b1: u8)
    ensures
        spec_decode(id, seq![95u8, b0, b1, 0u8]) == Ok::<ItemConfigView, DecodeError>(
            ItemConfigView { model_yaw: Some((b0 * 256 + b1) as u16), ..ItemConfigView::empty(id) },
        ),
{
    let s = seq![95u8, b0, b1, 0u8];
    reveal_with_fuel(decode_from, 2);
    assert(s.skip(1) =~= seq![b0, b1, 0u8]);
    assert(s.skip(3) =~= seq![0u8]);
}

/// Opcode 96, followed by an unsigned byte, sets `dummy_item` and nothing else.
pub proof fn lemma_opcode_96_dummy_item(id: u32, b0: u8)
    ensures
        spec_decode(id, seq![96u8, b0, 0u8]) == Ok::<ItemConfigView, DecodeError>(
            ItemConfigView { dummy_item: Some(b0), ..ItemConfigView::empty(id) },
        ),
{
    let s = seq![96u8, b0, 0u8];
    reveal_with_fuel(decode_from, 2);
    assert(s.skip(1) =~= seq![b0, 0u8]);
    assert(s.skip(2) =~= seq![0u8]);
}

/// Opcode 97, followed by a big-endian unsigned 16-bit integer, sets `note_data` and nothing else.
pub proof fn lemma_opcode_97_note_data(id: u32, b0: u8, b1: u8)
    ensures
        spec_decode(id, seq![97u8, b0, b1, 0u8]) == Ok::<ItemConfigView, DecodeError>(
            ItemConfigView { note_data: Some((b0 * 256 + b1) as u16), ..ItemConfigView::empty(id) },
        ),
{
    let s = seq![97u8, b0, b1, 0u8];
    reveal_with_fuel(decode_from, 2);
    assert(s.skip(1) =~= seq![b0, b1, 0u8]);
    assert(s.skip(3) =~= seq![0u8]);
}

/// Opcode 98, followed by a big-endian unsigned 16-bit integer, sets `note_template` and nothing else.
pub proof fn lemma_opcode_98_note_template(id: u32, b0: u8, b1: u8)
    ensures
        spec_decode(id, seq![98u8, b0, b1, 0u8]) == Ok::<ItemConfigView, DecodeError>(
            ItemConfigView { note_template: Some((b0 * 256 + b1) as u16), ..ItemConfigView::empty(id) },
        ),
{
    let s = seq![98u8, b0, b1, 0u8];
    reveal_with_fuel(decode_from, 2);
    assert(s.skip(1) =~= seq![b0, b1, 0u8]);
    assert(s.skip(3) =~= seq![0u8]);
}

/// Opcode 100, followed by two big-endian unsigned 16-bit integers, sets `stack_info` and nothing else.
pub proof fn lemma_opcode_100_stack_info(id: u32, b0: u8, b1: u8, b2: u8, b3: u8)
    ensures
        spec_decode(id, seq![100u8, b0, b1, b2, b3, 0u8]) == Ok::<ItemConfigView, DecodeError>(
            ItemConfigView { stack_info: Some(Seq::new(10, |j: int| if j == 0 { Some(((b0 * 256 + b1) as u16, (b2 * 256 + b3) as u16)) } else { None })), ..ItemConfigView::empty(id) },
        ),
{
    let s = seq![100u8, b0, b1, b2, b3, 0u8];
    reveal_with_fuel(decode_from, 2);
    assert(s.skip(1) =~= seq![b0, b1, b2, b3, 0u8]);
    assert(s.skip(5) =~= seq![0u8]);
    let expected = ItemConfigView { stack_info: Some(Seq::new(10, |j: int| if j == 0 { Some(((b0 * 256 + b1) as u16, (b2 * 256 + b3) as u16)) } else { None })), ..ItemConfigView::empty(id) };
    assert(apply_entry(ItemConfigView::empty(id), 100u8, spec_read_entry(100u8, s.skip(1)).unwrap().0).stack_info.unwrap() =~= expected.stack_info.unwrap());
}

/// Opcode 101, followed by two big-endian unsigned 16-bit integers, sets `stack_info` and nothing else.
pub proof fn lemma_opcode_101_stack_info(id: u32, b0: u8, b1: u8, b2: u8, b3: u8)
    ensures
        spec_decode(id, seq![101u8, b0, b1, b2, b3, 0u8]) == Ok::<ItemConfigView, DecodeError>(
            ItemConfigView { stack_info: Some(Seq::new(10, |j: int| if j == 1 { Some(((b0 * 256 + b1) as u16, (b2 * 256 + b3) as u16)) } else { None })), ..ItemConfigView::empty(id) },
        ),
{
    let s = seq![101u8, b0, b1, b2, b3, 0u8];
    reveal_with_fuel(decode_from, 2);
    assert(s.skip(1) =~= seq![b0, b1, b2, b3, 0u8]);
    assert(s.skip(5) =~= seq![0u8]);
    let expected = ItemConfigView { stack_info: Some(Seq::new(10, |j: int| if j == 1 { Some(((b0 * 256 + b1) as u16, (b2 * 256 + b3) as u16)) } else { None })), ..ItemConfigView::empty(id) };
    assert(apply_entry(ItemConfigView::empty(id), 101u8, spec_read_entry(101u8, s.skip(1)).unwrap().0).stack_info.unwrap() =~= expected.stack_info.unwrap());
}

/// Opcode 102, followed by two big-endian unsigned 16-bit integers, sets `stack_info` and nothing else.
pub proof fn lemma_opcode_102_stack_info(id: u32, b0: u8, b1: u8, b2: u8, b3: u8)
    ensures
        spec_decode(id, seq![102u8, b0, b1, b2, b3, 0u8]) == Ok::<ItemConfigView, DecodeError>(
            ItemConfigView { stack_info: Some(Seq::new(10, |j: int| if j == 2 { Some(((b0 * 256 + b1) as u16, (b2 * 256 + b3) as u16)) } else { None })), ..ItemConfigView::empty(id) },
        ),
{
    let s = seq![102u8, b0, b1, b2, b3, 0u8];
    reveal_with_fuel(decode_from, 2);
    assert(s.skip(1) =~= seq![b0, b1, b2, b3, 0u8]);
    assert(s.skip(5) =~= seq![0u8]);
    let expected = ItemConfigView { stack_info: Some(Seq::new(10, |j: int| if j == 2 { Some(((b0 * 256 + b1) as u16, (b2 * 256 + b3) as u16)) } else { None })), ..ItemConfigView::empty(id) };
    assert(apply_entry(ItemConfigView::empty(id), 102u8, spec_read_entry(102u8, s.skip(1)).unwrap().0).stack_info.unwrap() =~= expected.stack_info.unwrap());
}

/// Opcode 103, followed by two big-endian unsigned 16-bit integers, sets `stack_info` and nothing else.
pub proof fn lemma_opcode_103_stack_info(id: u32, b0: u8, b1: u8, b2: u8, b3: u8)
    ensures
        spec_decode(id, seq![103u8, b0, b1, b2, b3, 0u8]) == Ok::<ItemConfigView, DecodeError>(
            ItemConfigView { stack_info: Some(Seq::new(10, |j: int| if j == 3 { Some(((b0 * 256 + b1) as u16, (b2 * 256 + b3) as u16)) } else { None })), ..ItemConfigView::empty(id) },
        ),
{
    let s = seq![103u8, b0, b1, b2, b3, 0u8];
    reveal_with_fuel(decode_from, 2);
    assert(s.skip(1) =~= seq![b0, b1, b2, b3, 0u8]);
    assert(s.skip(5) =~= seq![0u8]);
    let expected = ItemConfigView { stack_info: Some(Seq::new(10, |j: int| if j == 3 { Some(((b0 * 256 + b1) as u16, (b2 * 256 + b3) as u16)) } else { None })), ..ItemConfigView::empty(id) };
    assert(apply_entry(ItemConfigView::empty(id), 103u8, spec_read_entry(103u8, s.skip(1)).unwrap().0).stack_info.unwrap() =~= expected.stack_info.unwrap());
}

/// Opcode 104, followed by two big-endian unsigned 16-bit integers, sets `stack_info` and nothing else.
pub proof fn lemma_opcode_104_stack_info(id: u32, b0: u8, b1: u8, b2: u8, b3: u8)
    ensures
        spec_decode(id, seq![104u8, b0, b1, b2, b3, 0u8]) == Ok::<ItemConfigView, DecodeError>(
            ItemConfigView { stack_info: Some(Seq::new(10, |j: int| if j == 4 { Some(((b0 * 256 + b1) as u16, (b2 * 256 + b3) as u16)) } else { None })), ..ItemConfigView::empty(id) },
        ),
{
    let s = seq![104u8, b0, b1, b2, b3, 0u8];
    reveal_with_fuel(decode_from, 2);
    assert(s.skip(1) =~= seq![b0, b1, b2, b3, 0u8]);
    assert(s.skip(5) =~= seq![0u8]);
    let expected = ItemConfigView { stack_info: Some(Seq::new(10, |j: int| if j == 4 { Some(((b0 * 256 + b1) as u16, (b2 * 256 + b3) as u16)) } else { None })), ..ItemConfigView::empty(id) };
    assert(apply_entry(ItemConfigView::empty(id), 104u8, spec_read_entry(104u8, s.skip(1)).unwrap().0).stack_info.unwrap() =~= expected.stack_info.unwrap());
}

/// Opcode 105, followed by two big-endian unsigned 16-bit integers, sets `stack_info` and nothing else.
pub proof fn lemma_opcode_105_stack_info(id: u32, b0: u8, b1: u8, b2: u8, b3: u8)
    ensures
        spec_decode(id, seq![105u8, b0, b1, b2, b3, 0u8]) == Ok::<ItemConfigView, DecodeError>(
            ItemConfigView { stack_info: Some(Seq::new(10, |j: int| if j == 5 { Some(((b0 * 256 + b1) as u16, (b2 * 256 + b3) as u16)) } else { None })), ..ItemConfigView::empty(id) },
        ),
{
    let s = seq![105u8, b0, b1, b2, b3, 0u8];
    reveal_with_fuel(decode_from, 2);
    assert(s.skip(1) =~= seq![b0, b1, b2, b3, 0u8]);
    assert(s.skip(5) =~= seq![0u8]);
    let expected = ItemConfigView { stack_info: Some(Seq::new(10, |j: int| if j == 5 { Some(((b0 * 256 + b1) as u16, (b2 * 256 + b3) as u16)) } else { None })), ..ItemConfigView::empty(id) };
    assert(apply_entry(ItemConfigView::empty(id), 105u8, spec_read_entry(105u8, s.skip(1)).unwrap().0).stack_info.unwrap() =~= expected.stack_info.unwrap());
}

/// Opcode 106, followed by two big-endian unsigned 16-bit integers, sets `stack_info` and nothing else.
pub proof fn lemma_opcode_106_stack_info(id: u32, b0: u8, b1: u8, b2: u8, b3: u8)
    ensures
        spec_decode(id, seq![106u8, b0, b1, b2, b3, 0u8]) == Ok::<ItemConfigView, DecodeError>(
            ItemConfigView { stack_info: Some(Seq::new(10, |j: int| if j == 6 { Some(((b0 * 256 + b1) as u16, (b2 * 256 + b3) as u16)) } else { None })), ..ItemConfigView::empty(id) },
        ),
{
    let s = seq![106u8, b0, b1, b2, b3, 0u8];
    reveal_with_fuel(decode_from, 2);
    assert(s.skip(1) =~= seq![b0, b1, b2, b3, 0u8]);
    assert(s.skip(5) =~= seq![0u8]);
    let expected = ItemConfigView { stack_info: Some(Seq::new(10, |j: int| if j == 6 { Some(((b0 * 256 + b1) as u16, (b2 * 256 + b3) as u16)) } else { None })), ..ItemConfigView::empty(id) };
    assert(apply_entry(ItemConfigView::empty(id), 106u8, spec_read_entry(106u8, s.skip(1)).unwrap().0).stack_info.unwrap() =~= expected.stack_info.unwrap());
}

/// Opcode 107, followed by two big-endian unsigned 16-bit integers, sets `stack_info` and nothing else.
pub proof fn lemma_opcode_107_stack_info(id: u32, b0: u8, b1: u8, b2: u8, b3: u8)
    ensures
        spec_decode(id, seq![107u8, b0, b1, b2, b3, 0u8]) == Ok::<ItemConfigView, DecodeError>(
            ItemConfigView { stack_info: Some(Seq::new(10, |j: int| if j == 7 { Some(((b0 * 256 + b1) as u16, (b2 * 256 + b3) as u16)) } else { None })), ..ItemConfigView::empty(id) },
        ),
{
    let s = seq![107u8, b0, b1, b2, b3, 0u8];
    reveal_with_fuel(decode_from, 2);
    assert(s.skip(1) =~= seq![b0, b1, b2, b3, 0u8]);
    assert(s.skip(5) =~= seq![0u8]);
    let expected = ItemConfigView { stack_info: Some(Seq::new(10, |j: int| if j == 7 { Some(((b0 * 256 + b1) as u16, (b2 * 256 + b3) as u16)) } else { None })), ..ItemConfigView::empty(id) };
    assert(apply_entry(ItemConfigView::empty(id), 107u8, spec_read_entry(107u8, s.skip(1)).unwrap().0).stack_info.unwrap() =~= expected.stack_info.unwrap());
}

/// Opcode 108, followed by two big-endian unsigned 16-bit integers, sets `stack_info` and nothing else.
pub proof fn lemma_opcode_108_stack_info(id: u32, b0: u8, b1: u8, b2: u8, b3: u8)
    ensures
        spec_decode(id, seq![108u8, b0, b1, b2, b3, 0u8]) == Ok::<ItemConfigView, DecodeError>(
            ItemConfigView { stack_info: Some(Seq::new(10, |j: int| if j == 8 { Some(((b0 * 256 + b1) as u16, (b2 * 256 + b3) as u16)) } else { None })), ..ItemConfigView::empty(id) },
        ),
{
    let s = seq![108u8, b0, b1, b2, b3, 0u8];
    reveal_with_fuel(decode_from, 2);
    assert(s.skip(1) =~= seq![b0, b1, b2, b3, 0u8]);
    assert(s.skip(5) =~= seq![0u8]);
    let expected = ItemConfigView { stack_info: Some(Seq::new(10, |j: int| if j == 8 { Some(((b0 * 256 + b1) as u16, (b2 * 256 + b3) as u16)) } else { None })), ..ItemConfigView::empty(id) };
    assert(apply_entry(ItemConfigView::empty(id), 108u8, spec_read_entry(108u8, s.skip(1)).unwrap().0).stack_info.unwrap() =~= expected.stack_info.unwrap());
}

/// Opcode 109, followed by two big-endian unsigned 16-bit integers, sets `stack_info` and nothing else.
pub proof fn lemma_opcode_109_stack_info(id: u32, b0: u8, b1: u8, b2: u8, b3: u8)
    ensures
        spec_decode(id, seq![109u8, b0, b1, b2, b3, 0u8]) == Ok::<ItemConfigView, DecodeError>(
            ItemConfigView { stack_info: Some(Seq::new(10, |j: int| if j == 9 { Some(((b0 * 256 + b1) as u16, (b2 * 256 + b3) as u16)) } else { None })), ..ItemConfigView::empty(id) },
        ),
{
    let s = seq![109u8, b0, b1, b2, b3, 0u8];
    reveal_with_fuel(decode_from, 2);
    assert(s.skip(1) =~= seq![b0, b1, b2, b3, 0u8]);
    assert(s.skip(5) =~= seq![0u8]);
    let expected = ItemConfigView { stack_info: Some(Seq::new(10, |j: int| if j == 9 { Some(((b0 * 256 + b1) as u16, (b2 * 256 + b3) as u16)) } else { None })), ..ItemConfigView::empty(id) };
    assert(apply_entry(ItemConfigView::empty(id), 109u8, spec_read_entry(109u8, s.skip(1)).unwrap().0).stack_info.unwrap() =~= expected.stack_info.unwrap());
}

/// Opcode 110, followed by a big-endian unsigned 16-bit integer, sets `scale` and nothing else.
pub proof fn lemma_opcode_110_scale(id: u32, b0: u8, b1: u8)
    ensures
        spec_decode(id, seq![110u8, b0, b1, 0u8]) == Ok::<ItemConfigView, DecodeError>(
            ItemConfigView { scale: Some(Seq::new(3, |j: int| if j == 0 { Some((b0 * 256 + b1) as u16) } else { None })), ..ItemConfigView::empty(id) },
        ),
{
    let s = seq![110u8, b0, b1, 0u8];
    reveal_with_fuel(decode_from, 2);
    assert(s.skip(1) =~= seq![b0, b1, 0u8]);
    assert(s.skip(3) =~= seq![0u8]);
    let expected = ItemConfigView { scale: Some(Seq::new(3, |j: int| if j == 0 { Some((b0 * 256 + b1) as u16) } else { None })), ..ItemConfigView::empty(id) };
    assert(apply_entry(ItemConfigView::empty(id), 110u8, spec_read_entry(110u8, s.skip(1)).unwrap().0).scale.unwrap() =~= expected.scale.unwrap());
}

/// Opcode 111, followed by a big-endian unsigned 16-bit integer, sets `scale` and nothing else.
pub proof fn lemma_opcode_111_scale(id: u32, b0: u8, b1: u8)
    ensures
        spec_decode(id, seq![111u8, b0, b1, 0u8]) == Ok::<ItemConfigView, DecodeError>(
            ItemConfigView { scale: Some(Seq::new(3, |j: int| if j == 1 { Some((b0 * 256 + b1) as u16) } else { None })), ..ItemConfigView::empty(id) },
        ),
{
    let s = seq![111u8, b0, b1, 0u8];
    reveal_with_fuel(decode_from, 2);
    assert(s.skip(1) =~= seq![b0, b1, 0u8]);
    assert(s.skip(3) =~= seq![0u8]);
    let expected = ItemConfigView { scale: Some(Seq::new(3, |j: int| if j == 1 { Some((b0 * 256 + b1) as u16) } else { None })), ..ItemConfigView::empty(id) };
    assert(apply_entry(ItemConfigView::empty(id), 111u8, spec_read_entry(111u8, s.skip(1)).unwrap().0).scale.unwrap() =~= expected.scale.unwrap());
}

/// Opcode 112, followed by a big-endian unsigned 16-bit integer, sets `scale` and nothing else.
pub proof fn lemma_opcode_112_scale(id: u32, b0: u8, b1: u8)
    ensures
        spec_decode(id, seq![112u8, b0, b1, 0u8]) == Ok::<ItemConfigView, DecodeError>(
            ItemConfigView { scale: Some(Seq::new(3, |j: int| if j == 2 { Some((b0 * 256 + b1) as u16) } else { None })), ..ItemConfigView::empty(id) },
        ),
{
    let s = seq![112u8, b0, b1, 0u8];
    reveal_with_fuel(decode_from, 2);
    assert(s.skip(1) =~= seq![b0, b1, 0u8]);
    assert(s.skip(3) =~= seq![0u8]);
    let expected = ItemConfigView { scale: Some(Seq::new(3, |j: int| if j == 2 { Some((b0 * 256 + b1) as u16) } else { None })), ..ItemConfigView::empty(id) };
    assert(apply_entry(ItemConfigView::empty(id), 112u8, spec_read_entry(112u8, s.skip(1)).unwrap().0).scale.unwrap() =~= expected.scale.unwrap());
}

/// Opcode 113, followed by a signed byte, sets `ambiance` and nothing else.
pub proof fn lemma_opcode_113_ambiance(id: u32, b0: u8)
    ensures
        spec_decode(id, seq![113u8, b0, 0u8]) == Ok::<ItemConfigView, DecodeError>(
            ItemConfigView { ambiance: Some((if b0 >= 128 { b0 - 256 } else { b0 as int }) as i8), ..ItemConfigView::empty(id) },
        ),
{
    let s = seq![113u8, b0, 0u8];
    reveal_with_fuel(decode_from, 2);
    assert(s.skip(1) =~= seq![b0, 0u8]);
    assert(s.skip(2) =~= seq![0u8]);
}

/// Opcode 114, followed by a signed byte, sets `contrast` and nothing else.
pub proof fn lemma_opcode_114_contrast(id: u32, b0: u8)
    ensures
        spec_decode(id, seq![114u8, b0, 0u8]) == Ok::<ItemConfigView, DecodeError>(
            ItemConfigView { contrast: Some((if b0 >= 128 { b0 - 256 } else { b0 as int }) as i8), ..ItemConfigView::empty(id) },
        ),
{
    let s = seq![114u8, b0, 0u8];
    reveal_with_fuel(decode_from, 2);
    assert(s.skip(1) =~= seq![b0, 0u8]);
    assert(s.skip(2) =~= seq![0u8]);
}

/// Opcode 115, followed by an unsigned byte, sets `team` and nothing else.
pub proof fn lemma_opcode_115_team(id: u32, b0: u8)
    ensures
        spec_decode(id, seq![115u8, b0, 0u8]) == Ok::<ItemConfigView, DecodeError>(
            ItemConfigView { team: Some(b0), ..ItemConfigView::empty(id) },
        ),
{
    let s = seq![115u8, b0, 0u8];
    reveal_with_fuel(decode_from, 2);
    assert(s.skip(1) =~= seq![b0, 0u8]);
    assert(s.skip(2) =~= seq![0u8]);
}

/// Opcode 121, followed by a big-endian unsigned 16-bit integer, sets `loan_id` and nothing else.
pub proof fn lemma_opcode_121_loan_id(id: u32, b0: u8, b1: u8)
    ensures
        spec_decode(id, seq![121u8, b0, b1, 0u8]) == Ok::<ItemConfigView, DecodeError>(
            ItemConfigView { loan_id: Some((b0 * 256 + b1) as u16), ..ItemConfigView::empty(id) },
        ),
{
    let s = seq![121u8, b0, b1, 0u8];
    reveal_with_fuel(decode_from, 2);
    assert(s.skip(1) =~= seq![b0, b1, 0u8]);
    assert(s.skip(3) =~= seq![0u8]);
}

/// Opcode 122, followed by a big-endian unsigned 16-bit integer, sets `loan_template` and nothing else.
pub proof fn lemma_opcode_122_loan_template(id: u32, b0: u8, b1: u8)
    ensures
        spec_decode(id, seq![122u8, b0, b1, 0u8]) == Ok::<ItemConfigView, DecodeError>(
            ItemConfigView { loan_template: Some((b0 * 256 + b1) as u16), ..ItemConfigView::empty(id) },
        ),
{
    let s = seq![122u8, b0, b1, 0u8];
    reveal_with_fuel(decode_from, 2);
    assert(s.skip(1) =~= seq![b0, b1, 0u8]);
    assert(s.skip(3) =~= seq![0u8]);
}

/// Opcode 125, followed by a big-endian unsigned 24-bit integer, sets `male_translate` and nothing else.
pub proof fn lemma_opcode_125_male_translate(id: u32, b0: u8, b1: u8, b2: u8)
    ensures
        spec_decode(id, seq![125u8, b0, b1, b2, 0u8]) == Ok::<ItemConfigView, DecodeError>(
            ItemConfigView { male_translate: Some(((b0 * 256 + b1) * 256 + b2) as u32), ..ItemConfigView::empty(id) },
        ),
{
    let s = seq![125u8, b0, b1, b2, 0u8];
    reveal_with_fuel(decode_from, 2);
    assert(s.skip(1) =~= seq![b0, b1, b2, 0u8]);
    assert(s.skip(4) =~= seq![0u8]);
}

/// Opcode 126, followed by a big-endian unsigned 24-bit integer, sets `female_translate` and nothing else.
pub proof fn lemma_opcode_126_female_translate(id: u32, b0: u8, b1: u8, b2: u8)
    ensures
        spec_decode(id, seq![126u8, b0, b1, b2, 0u8]) == Ok::<ItemConfigView, DecodeError>(
            ItemConfigView { female_translate: Some(((b0 * 256 + b1) * 256 + b2) as u32), ..ItemConfigView::empty(id) },
        ),
{
    let s = seq![126u8, b0, b1, b2, 0u8];
    reveal_with_fuel(decode_from, 2);
    assert(s.skip(1) =~= seq![b0, b1, b2, 0u8]);
    assert(s.skip(4) =~= seq![0u8]);
}

/// Opcode 132, followed by a count byte, then that many 16-bit quest ids, sets `quests` and nothing else.
pub proof fn lemma_opcode_132_quests(id: u32, b0: u8, b1: u8)
    ensures
        spec_decode(id, seq![132u8, 1u8, b0, b1, 0u8]) == Ok::<ItemConfigView, DecodeError>(
            ItemConfigView { quests: Some(seq![(b0 * 256 + b1) as u16]), ..ItemConfigView::empty(id) },
        ),
{
    let s = seq![132u8, 1u8, b0, b1, 0u8];
    reveal_with_fuel(decode_from, 2);
    assert(s.skip(1) =~= seq![1u8, b0, b1, 0u8]);
    assert(s.skip(4) =~= seq![0u8]);
    assert(Seq::new(1, |i: int| u16_at(s.skip(1), 1 + 2 * i)) =~= seq![(b0 * 256 + b1) as u16]);
}

/// Opcode 134, followed by an unsigned byte, sets `pick_size_shift` and nothing else.
pub proof fn lemma_opcode_134_pick_size_shift(id: u32, b0: u8)
    ensures
        spec_decode(id, seq![134u8, b0, 0u8]) == Ok::<ItemConfigView, DecodeError>(
            ItemConfigView { pick_size_shift: Some(b0), ..ItemConfigView::empty(id) },
        ),
{
    let s = seq![134u8, b0, 0u8];
    reveal_with_fuel(decode_from, 2);
    assert(s.skip(1) =~= seq![b0, 0u8]);
    assert(s.skip(2) =~= seq![0u8]);
}

/// Opcode 139, followed by a big-endian unsigned 16-bit integer, sets `unknown_bind_link` and nothing else.
pub proof fn lemma_opcode_139_unknown_bind_link(id: u32, b0: u8, b1: u8)
    ensures
        spec_decode(id, seq![139u8, b0, b1, 0u8]) == Ok::<ItemConfigView, DecodeError>(
            ItemConfigView { unknown_bind_link: Some((b0 * 256 + b1) as u16), ..ItemConfigView::empty(id) },
        ),
{
    let s = seq![139u8, b0, b1, 0u8];
    reveal_with_fuel(decode_from, 2);
    assert(s.skip(1) =~= seq![b0, b1, 0u8]);
    assert(s.skip(3) =~= seq![0u8]);
}

/// Opcode 140, followed by a big-endian unsigned 16-bit integer, sets `bind_template` and nothing else.
pub proof fn lemma_opcode_140_bind_template(id: u32, b0: u8, b1: u8)
    ensures
        spec_decode(id, seq![140u8, b0, b1, 0u8]) == Ok::<ItemConfigView, DecodeError>(
            ItemConfigView { bind_template: Some((b0 * 256 + b1) as u16), ..ItemConfigView::empty(id) },
        ),
{
    let s = seq![140u8, b0, b1, 0u8];
    reveal_with_fuel(decode_from, 2);
    assert(s.skip(1) =~= seq![b0, b1, 0u8]);
    assert(s.skip(3) =~= seq![0u8]);
}

/// Opcode 142, followed by a big-endian unsigned 16-bit integer, sets `ground_action_cursor` and nothing else.
pub proof fn lemma_opcode_142_ground_action_cursor(id: u32, b0: u8, b1: u8)
    ensures
        spec_decode(id, seq![142u8, b0, b1, 0u8]) == Ok::<ItemConfigView, DecodeError>(
            ItemConfigView { ground_action_cursor: Some(Seq::new(5, |j: int| if j == 0 { Some((b0 * 256 + b1) as u16) } else { None })), ..ItemConfigView::empty(id) },
        ),
{
    let s = seq![142u8, b0, b1, 0u8];
    reveal_with_fuel(decode_from, 2);
    assert(s.skip(1) =~= seq![b0, b1, 0u8]);
    assert(s.skip(3) =~= seq![0u8]);
    let expected = ItemConfigView { ground_action_cursor: Some(Seq::new(5, |j: int| if j == 0 { Some((b0 * 256 + b1) as u16) } else { None })), ..ItemConfigView::empty(id) };
    assert(apply_entry(ItemConfigView::empty(id), 142u8, spec_read_entry(142u8, s.skip(1)).unwrap().0).ground_action_cursor.unwrap() =~= expected.ground_action_cursor.unwrap());
}

/// Opcode 143, followed by a big-endian unsigned 16-bit integer, sets `ground_action_cursor` and nothing else.
pub proof fn lemma_opcode_143_ground_action_cursor(id: u32, b0: u8, b1: u8)
    ensures
        spec_decode(id, seq![143u8, b0, b1, 0u8]) == Ok::<ItemConfigView, DecodeError>(
            ItemConfigView { ground_action_cursor: Some(Seq::new(5, |j: int| if j == 1 { Some((b0 * 256 + b1) as u16) } else { None })), ..ItemConfigView::empty(id) },
        ),
{
    let s = seq![143u8, b0, b1, 0u8];
    reveal_with_fuel(decode_from, 2);
    assert(s.skip(1) =~= seq![b0, b1, 0u8]);
    assert(s.skip(3) =~= seq![0u8]);
    let expected = ItemConfigView { ground_action_cursor: Some(Seq::new(5, |j: int| if j == 1 { Some((b0 * 256 + b1) as u16) } else { None })), ..ItemConfigView::empty(id) };
    assert(apply_entry(ItemConfigView::empty(id), 143u8, spec_read_entry(143u8, s.skip(1)).unwrap().0).ground_action_cursor.unwrap() =~= expected.ground_action_cursor.unwrap());
}

/// Opcode 144, followed by a big-endian unsigned 16-bit integer, sets `ground_action_cursor` and nothing else.
pub proof fn lemma_opcode_144_ground_action_cursor(id: u32, b0: u8, b1: u8)
    ensures
        spec_decode(id, seq![144u8, b0, b1, 0u8]) == Ok::<ItemConfigView, DecodeError>(
            ItemConfigView { ground_action_cursor: Some(Seq::new(5, |j: int| if j == 2 { Some((b0 * 256 + b1) as u16) } else { None })), ..ItemConfigView::empty(id) },
        ),
{
    let s = seq![144u8, b0, b1, 0u8];
    reveal_with_fuel(decode_from, 2);
    assert(s.skip(1) =~= seq![b0, b1, 0u8]);
    assert(s.skip(3) =~= seq![0u8]);
    let expected = ItemConfigView { ground_action_cursor: Some(Seq::new(5, |j: int| if j == 2 { Some((b0 * 256 + b1) as u16) } else { None })), ..ItemConfigView::empty(id) };
    assert(apply_entry(ItemConfigView::empty(id), 144u8, spec_read_entry(144u8, s.skip(1)).unwrap().0).ground_action_cursor.unwrap() =~= expected.ground_action_cursor.unwrap());
}

/// Opcode 145, followed by a big-endian unsigned 16-bit integer, sets `ground_action_cursor` and nothing else.
pub proof fn lemma_opcode_145_ground_action_cursor(id: u32, b0: u8, b1: u8)
    ensures
        spec_decode(id, seq![145u8, b0, b1, 0u8]) == Ok::<ItemConfigView, DecodeError>(
            ItemConfigView { ground_action_cursor: Some(Seq::new(5, |j: int| if j == 3 { Some((b0 * 256 + b1) as u16) } else { None })), ..ItemConfigView::empty(id) },
        ),
{
    let s = seq![145u8, b0, b1, 0u8];
    reveal_with_fuel(decode_from, 2);
    assert(s.skip(1) =~= seq![b0, b1, 0u8]);
    assert(s.skip(3) =~= seq![0u8]);
    let expected = ItemConfigView { ground_action_cursor: Some(Seq::new(5, |j: int| if j == 3 { Some((b0 * 256 + b1) as u16) } else { None })), ..ItemConfigView::empty(id) };
    assert(apply_entry(ItemConfigView::empty(id), 145u8, spec_read_entry(145u8, s.skip(1)).unwrap().0).ground_action_cursor.unwrap() =~= expected.ground_action_cursor.unwrap());
}

/// Opcode 146, followed by a big-endian unsigned 16-bit integer, sets `ground_action_cursor` and nothing else.
pub proof fn lemma_opcode_146_ground_action_cursor(id: u32, b0: u8, b1: u8)
    ensures
        spec_decode(id, seq![146u8, b0, b1, 0u8]) == Ok::<ItemConfigView, DecodeError>(
            ItemConfigView { ground_action_cursor: Some(Seq::new(5, |j: int| if j == 4 { Some((b0 * 256 + b1) as u16) } else { None })), ..ItemConfigView::empty(id) },
        ),
{
    let s = seq![146u8, b0, b1, 0u8];
    reveal_with_fuel(decode_from, 2);
    assert(s.skip(1) =~= seq![b0, b1, 0u8]);
    assert(s.skip(3) =~= seq![0u8]);
    let expected = ItemConfigView { ground_action_cursor: Some(Seq::new(5, |j: int| if j == 4 { Some((b0 * 256 + b1) as u16) } else { None })), ..ItemConfigView::empty(id) };
    assert(apply_entry(ItemConfigView::empty(id), 146u8, spec_read_entry(146u8, s.skip(1)).unwrap().0).ground_action_cursor.unwrap() =~= expected.ground_action_cursor.unwrap());
}

/// Opcode 150, followed by a big-endian unsigned 16-bit integer, sets `widget_action_cursor` and nothing else.
pub proof fn lemma_opcode_150_widget_action_cursor(id: u32, b0: u8, b1: u8)
    ensures
        spec_decode(id, seq![150u8, b0, b1, 0u8]) == Ok::<ItemConfigView, DecodeError>(
            ItemConfigView { widget_action_cursor: Some(Seq::new(5, |j: int| if j == 0 { Some((b0 * 256 + b1) as u16) } else { None })), ..ItemConfigView::empty(id) },
        ),
{
    let s = seq![150u8, b0, b1, 0u8];
    reveal_with_fuel(decode_from, 2);
    assert(s.skip(1) =~= seq![b0, b1, 0u8]);
    assert(s.skip(3) =~= seq![0u8]);
    let expected = ItemConfigView { widget_action_cursor: Some(Seq::new(5, |j: int| if j == 0 { Some((b0 * 256 + b1) as u16) } else { None })), ..ItemConfigView::empty(id) };
    assert(apply_entry(ItemConfigView::empty(id), 150u8, spec_read_entry(150u8, s.skip(1)).unwrap().0).widget_action_cursor.unwrap() =~= expected.widget_action_cursor.unwrap());
}

/// Opcode 151, followed by a big-endian unsigned 16-bit integer, sets `widget_action_cursor` and nothing else.
pub proof fn lemma_opcode_151_widget_action_cursor(id: u32, b0: u8, b1: u8)
    ensures
        spec_decode(id, seq![151u8, b0, b1, 0u8]) == Ok::<ItemConfigView, DecodeError>(
            ItemConfigView { widget_action_cursor: Some(Seq::new(5, |j: int| if j == 1 { Some((b0 * 256 + b1) as u16) } else { None })), ..ItemConfigView::empty(id) },
        ),
{
    let s = seq![151u8, b0, b1, 0u8];
    reveal_with_fuel(decode_from, 2);
    assert(s.skip(1) =~= seq![b0, b1, 0u8]);
    assert(s.skip(3) =~= seq![0u8]);
    let expected = ItemConfigView { widget_action_cursor: Some(Seq::new(5, |j: int| if j == 1 { Some((b0 * 256 + b1) as u16) } else { None })), ..ItemConfigView::empty(id) };
    assert(apply_entry(ItemConfigView::empty(id), 151u8, spec_read_entry(151u8, s.skip(1)).unwrap().0).widget_action_cursor.unwrap() =~= expected.widget_action_cursor.unwrap());
}

/// Opcode 152, followed by a big-endian unsigned 16-bit integer, sets `widget_action_cursor` and nothing else.
pub proof fn lemma_opcode_152_widget_action_cursor(id: u32, b0: u8, b1: u8)
    ensures
        spec_decode(id, seq![152u8, b0, b1, 0u8]) == Ok::<ItemConfigView, DecodeError>(
            ItemConfigView { widget_action_cursor: Some(Seq::new(5, |j: int| if j == 2 { Some((b0 * 256 + b1) as u16) } else { None })), ..ItemConfigView::empty(id) },
        ),
{
    let s = seq![152u8, b0, b1, 0u8];
    reveal_with_fuel(decode_from, 2);
    assert(s.skip(1) =~= seq![b0, b1, 0u8]);
    assert(s.skip(3) =~= seq![0u8]);
    let expected = ItemConfigView { widget_action_cursor: Some(Seq::new(5, |j: int| if j == 2 { Some((b0 * 256 + b1) as u16) } else { None })), ..ItemConfigView::empty(id) };
    assert(apply_entry(ItemConfigView::empty(id), 152u8, spec_read_entry(152u8, s.skip(1)).unwrap().0).widget_action_cursor.unwrap() =~= expected.widget_action_cursor.unwrap());
}

/// Opcode 153, followed by a big-endian unsigned 16-bit integer, sets `widget_action_cursor` and nothing else.
pub proof fn lemma_opcode_153_widget_action_cursor(id: u32, b0: u8, b1: u8)
    ensures
        spec_decode(id, seq![153u8, b0, b1, 0u8]) == Ok::<ItemConfigView, DecodeError>(
            ItemConfigView { widget_action_cursor: Some(Seq::new(5, |j: int| if j == 3 { Some((b0 * 256 + b1) as u16) } else { None })), ..ItemConfigView::empty(id) },
        ),
{
    let s = seq![153u8, b0, b1, 0u8];
    reveal_with_fuel(decode_from, 2);
    assert(s.skip(1) =~= seq![b0, b1, 0u8]);
    assert(s.skip(3) =~= seq![0u8]);
    let expected = ItemConfigView { widget_action_cursor: Some(Seq::new(5, |j: int| if j == 3 { Some((b0 * 256 + b1) as u16) } else { None })), ..ItemConfigView::empty(id) };
    assert(apply_entry(ItemConfigView::empty(id), 153u8, spec_read_entry(153u8, s.skip(1)).unwrap().0).widget_action_cursor.unwrap() =~= expected.widget_action_cursor.unwrap());
}

/// Opcode 154, followed by a big-endian unsigned 16-bit integer, sets `widget_action_cursor` and nothing else.
pub proof fn lemma_opcode_154_widget_action_cursor(id: u32, b0: u8, b1: u8)
    ensures
        spec_decode(id, seq![154u8, b0, b1, 0u8]) == Ok::<ItemConfigView, DecodeError>(
            ItemConfigView { widget_action_cursor: Some(Seq::new(5, |j: int| if j == 4 { Some((b0 * 256 + b1) as u16) } else { None })), ..ItemConfigView::empty(id) },
        ),
{
    let s = seq![154u8, b0, b1, 0u8];
    reveal_with_fuel(decode_from, 2);
    assert(s.skip(1) =~= seq![b0, b1, 0u8]);
    assert(s.skip(3) =~= seq![0u8]);
    let expected = ItemConfigView { widget_action_cursor: Some(Seq::new(5, |j: int| if j == 4 { Some((b0 * 256 + b1) as u16) } else { None })), ..ItemConfigView::empty(id) };
    assert(apply_entry(ItemConfigView::empty(id), 154u8, spec_read_entry(154u8, s.skip(1)).unwrap().0).widget_action_cursor.unwrap() =~= expected.widget_action_cursor.unwrap());
}

/// Opcode 157, followed by no value, sets `randomize_ground_pos` and nothing else.
pub proof fn lemma_opcode_157_randomize_ground_pos(id: u32)
    ensures
        spec_decode(id, seq![157u8, 0u8]) == Ok::<ItemConfigView, DecodeError>(
            ItemConfigView { randomize_ground_pos: Some(true), ..ItemConfigView::empty(id) },
        ),
{
    let s = seq![157u8, 0u8];
    reveal_with_fuel(decode_from, 2);
    assert(s.skip(1) =~= seq![0u8]);
    assert(s.skip(1) =~= seq![0u8]);
}

/// Opcode 161, followed by a big-endian unsigned 16-bit integer, sets `combine_info` and nothing else.
pub proof fn lemma_opcode_161_combine_info(id: u32, b0: u8, b1: u8)
    ensures
        spec_decode(id, seq![161u8, b0, b1, 0u8]) == Ok::<ItemConfigView, DecodeError>(
            ItemConfigView { combine_info: Some((b0 * 256 + b1) as u16), ..ItemConfigView::empty(id) },
        ),
{
    let s = seq![161u8, b0, b1, 0u8];
    reveal_with_fuel(decode_from, 2);
    assert(s.skip(1) =~= seq![b0, b1, 0u8]);
    assert(s.skip(3) =~= seq![0u8]);
}

/// Opcode 162, followed by a big-endian unsigned 16-bit integer, sets `combine_template` and nothing else.
pub proof fn lemma_opcode_162_combine_template(id: u32, b0: u8, b1: u8)
    ensures
        spec_decode(id, seq![162u8, b0, b1, 0u8]) == Ok::<ItemConfigView, DecodeError>(
            ItemConfigView { combine_template: Some((b0 * 256 + b1) as u16), ..ItemConfigView::empty(id) },
        ),
{
    let s = seq![162u8, b0, b1, 0u8];
    reveal_with_fuel(decode_from, 2);
    assert(s.skip(1) =~= seq![b0, b1, 0u8]);
    assert(s.skip(3) =~= seq![0u8]);
}

/// Opcode 163, followed by a big-endian unsigned 16-bit integer, sets `combine_num_required` and nothing else.
pub proof fn lemma_opcode_163_combine_num_required(id: u32, b0: u8, b1: u8)
    ensures
        spec_decode(id, seq![163u8, b0, b1, 0u8]) == Ok::<ItemConfigView, DecodeError>(
            ItemConfigView { combine_num_required: Some((b0 * 256 + b1) as u16), ..ItemConfigView::empty(id) },
        ),
{
    let s = seq![163u8, b0, b1, 0u8];
    reveal_with_fuel(decode_from, 2);
    assert(s.skip(1) =~= seq![b0, b1, 0u8]);
    assert(s.skip(3) =~= seq![0u8]);
}

/// Opcode 164, followed by a zero-terminated string, sets `combine_shard_name` and nothing else.
pub proof fn lemma_opcode_164_combine_shard_name(id: u32, t: Seq<u8>)
    requires
        forall|j: int| 0 <= j < t.len() ==> t[j] != 0,
    ensures
        spec_decode(id, seq![164u8] + t + seq![0u8, 0u8]) == Ok::<ItemConfigView, DecodeError>(
            ItemConfigView { combine_shard_name: Some(Seq::new(t.len(), |j: int| cp1252_char(t[j]))), ..ItemConfigView::empty(id) },
        ),
{
    let s = seq![164u8] + t + seq![0u8, 0u8];
    reveal_with_fuel(decode_from, 2);
    assert(s.skip(1) =~= t + seq![0u8] + seq![0u8]);
    lemma_read_text(t, seq![0u8]);
    assert(s.skip(1 + t.len() as int + 1) =~= seq![0u8]);
}

/// Opcode 165, followed by no value, sets `never_stackable` and nothing else.
pub proof fn lemma_opcode_165_never_stackable(id: u32)
    ensures
        spec_decode(id, seq![165u8, 0u8]) == Ok::<ItemConfigView, DecodeError>(
            ItemConfigView { never_stackable: Some(true), ..ItemConfigView::empty(id) },
        ),
{
    let s = seq![165u8, 0u8];
    reveal_with_fuel(decode_from, 2);
    assert(s.skip(1) =~= seq![0u8]);
    assert(s.skip(1) =~= seq![0u8]);
}

/// Opcode 167, followed by no value, sets `unknown_167` and nothing else.
pub proof fn lemma_opcode_167_unknown_167(id: u32)
    ensures
        spec_decode(id, seq![167u8, 0u8]) == Ok::<ItemConfigView, DecodeError>(
            ItemConfigView { unknown_167: Some(true), ..ItemConfigView::empty(id) },
        ),
{
    let s = seq![167u8, 0u8];
    reveal_with_fuel(decode_from, 2);
    assert(s.skip(1) =~= seq![0u8]);
    assert(s.skip(1) =~= seq![0u8]);
}

/// Opcode 168, followed by no value, sets `unknown_168` and nothing else.
pub proof fn lemma_opcode_168_unknown_168(id: u32)
    ensures
        spec_decode(id, seq![168u8, 0u8]) == Ok::<ItemConfigView, DecodeError>(
            ItemConfigView { unknown_168: Some(true), ..ItemConfigView::empty(id) },
        ),
{
    let s = seq![168u8, 0u8];
    reveal_with_fuel(decode_from, 2);
    assert(s.skip(1) =~= seq![0u8]);
    assert(s.skip(1) =~= seq![0u8]);
}

/// Opcode 249, followed by a count byte, then entries of a type byte, a 24-bit key and a value, sets `params` and nothing else.
pub proof fn lemma_opcode_249_params(id: u32, k0: u8, k1: u8, k2: u8, b0: u8, b1: u8, b2: u8, b3: u8)
    ensures
        spec_decode(id, seq![249u8, 1u8, 0u8, k0, k1, k2, b0, b1, b2, b3, 0u8]) == Ok::<ItemConfigView, DecodeError>(
            ItemConfigView { params: Some(Map::<u32, ParamView>::empty().insert(((k0 * 256 + k1) * 256 + k2) as u32, ParamView::Integer((if b0 >= 128 { ((b0 * 256 + b1) * 256 + b2) * 256 + b3 - 0x1_0000_0000 } else { ((b0 * 256 + b1) * 256 + b2) * 256 + b3 }) as i32))), ..ItemConfigView::empty(id) },
        ),
{
    let s = seq![249u8, 1u8, 0u8, k0, k1, k2, b0, b1, b2, b3, 0u8];
    reveal_with_fuel(decode_from, 2);
    assert(s.skip(1) =~= seq![1u8, 0u8, k0, k1, k2, b0, b1, b2, b3, 0u8]);
    assert(s.skip(10) =~= seq![0u8]);
    lemma_one_param(k0, k1, k2, b0, b1, b2, b3);
}

/// The opcodes that the format defines: 1-8, 11-16, 23-27, 30-42, 44, 45,
/// 65, 69, 78, 79, 90-98, 100-115, 121, 122, 125, 126, 132, 134, 139, 140,
/// 142-146, 150-154, 157, 161-165, 167, 168 and 249.
pub open spec fn is_defined_opcode(op: u8) -> bool {
    1 <= op <= 8 || 11 <= op <= 16 || 23 <= op <= 27 || 30 <= op <= 42 || 44 <= op <= 45 || op == 65 || op == 69 || 78 <= op <= 79 || 90 <= op <= 98 || 100 <= op <= 115 || 121 <= op <= 122 || 125 <= op <= 126 || op == 132 || op == 134 || 139 <= op <= 140 || 142 <= op <= 146 || 150 <= op <= 154 || op == 157 || 161 <= op <= 165 || 167 <= op <= 168 || op == 249
}

/// Exactly the defined opcodes have a kind of value.
pub proof fn lemma_defined_opcodes(op: u8)
    ensures
        opcode_kind(op) is Some <==> is_defined_opcode(op),
{
}

/// An entry whose opcode the format does not define makes decoding fail
/// with that opcode, whatever follows it.
pub proof fn lemma_undefined_opcode_rejected(id: u32, op: u8, rest: Seq<u8>)
    requires
        op != 0,
        !is_defined_opcode(op),
    ensures
        spec_decode(id, seq![op] + rest) == Err::<ItemConfigView, DecodeError>(DecodeError::UnknownOpcode(op)),
{
    assert((seq![op] + rest)[0] == op);
    assert(opcode_kind(op) is None);
}

/// The stream of opcode 1 with the two-byte "no model" value 32767 fails.
pub proof fn lemma_missing_model_rejected(id: u32, rest: Seq<u8>)
    ensures
        spec_decode(id, seq![1u8, 0x7fu8, 0xffu8] + rest) == Err::<ItemConfigView, DecodeError>(DecodeError::MissingModel),
{
    let s = seq![1u8, 0x7fu8, 0xffu8] + rest;
    assert(s[0] == 1);
    assert(s.skip(1)[0] == 0x7f && s.skip(1)[1] == 0xff);
}

} // verus!
