//! Properties of the decoder that hold for every input.

use vstd::prelude::*;

use crate::buffer::{
    cp1252_char, spec_read_i32, spec_read_i8, spec_read_smart32, spec_read_u16, spec_read_u24, spec_read_u8,
    DecodeError,
};
use crate::item_config_fields::{
    pairs_to_map, spec_read_i8_list, spec_read_u16_list, spec_read_u16_pairs,
};
use crate::paramtable::{spec_read_param, ParamView};
use crate::item_config::{
    config_id,
    apply_entry, decode_from, fill_slot, opcode_kind, opt_view, spec_decode, spec_dump,
    spec_read_entry, text_slots_view, value_medium, value_model, value_pair, value_text,
    value_u16, ItemConfig, ItemConfigView, ValueView,
};

verus! {

/// Applying an entry never changes the id of a definition.
pub proof fn lemma_apply_keeps_id(c: ItemConfigView, op: u8, v: ValueView)
    ensures
        apply_entry(c, op, v).id == c.id,
{
}

/// Decoding from a definition gives, where it succeeds, a definition of the same id.
proof fn lemma_decode_from_keeps_id(c: ItemConfigView, s: Seq<u8>)
    ensures
        decode_from(c, s) matches Ok(d) ==> d.id == c.id,
    decreases s.len(),
{
    if s.len() > 0 && s[0] != 0 {
        if let Ok((v, n)) = spec_read_entry(s[0], s.skip(1)) {
            crate::item_config::lemma_read_value_fits(opcode_kind(s[0]).unwrap(), s.skip(1));
            lemma_apply_keeps_id(c, s[0], v);
            lemma_decode_from_keeps_id(apply_entry(c, s[0], v), s.skip(1 + n as int));
        }
    }
}

/// The definition decoded for item `id` has the id `id`.
pub proof fn lemma_decode_keeps_id(id: u32, s: Seq<u8>)
    ensures
        spec_decode(id, s) matches Ok(c) ==> c.id == id,
{
    lemma_decode_from_keeps_id(ItemConfigView::empty(id), s);
}

/// Every definition in a dump is stored under its own id.
pub proof fn lemma_dump_keys_are_ids(files: Seq<(u32, Seq<u8>)>)
    ensures
        spec_dump(files) matches Ok(m) ==> forall|k: u32| #[trigger] m.contains_key(k) ==> m[k].id == k,
    decreases files.len(),
{
    if files.len() > 0 {
        lemma_dump_keys_are_ids(files.drop_last());
        lemma_decode_keeps_id(files.last().0, files.last().1);
    }
}

/// A stream that decodes ends with the opcode 0.
pub proof fn lemma_decoded_stream_is_terminated(c: ItemConfigView, s: Seq<u8>)
    ensures
        decode_from(c, s) is Ok ==> s.len() >= 1 && s.last() == 0,
    decreases s.len(),
{
    if s.len() > 0 && s[0] != 0 {
        if let Ok((v, n)) = spec_read_entry(s[0], s.skip(1)) {
            crate::item_config::lemma_read_value_fits(opcode_kind(s[0]).unwrap(), s.skip(1));
            lemma_decoded_stream_is_terminated(apply_entry(c, s[0], v), s.skip(1 + n as int));
            if decode_from(c, s) is Ok {
                assert(s.skip(1 + n as int).last() == s.last());
            }
        }
    }
}

/// An entry whose opcode the format does not define makes the whole stream
/// fail with that opcode, whatever follows it.
pub proof fn lemma_unknown_opcode_rejected(c: ItemConfigView, op: u8, rest: Seq<u8>)
    requires
        op != 0,
        opcode_kind(op) is None,
    ensures
        decode_from(c, seq![op] + rest) == Err::<ItemConfigView, DecodeError>(
            DecodeError::UnknownOpcode(op),
        ),
{
    assert((seq![op] + rest)[0] == op);
}

/// Setting one slot of an array field twice keeps the second value.
proof fn lemma_fill_slot_twice<T>(slots: Option<Seq<Option<T>>>, len: nat, i: int, x: Option<T>, y: Option<T>)
    requires
        0 <= i < len,
        slots matches Some(a) ==> a.len() == len,
    ensures
        fill_slot(fill_slot(slots, len, i, x), len, i, y) == fill_slot(slots, len, i, y),
{
    let base = match slots {
        Some(a) => a,
        None => Seq::new(len, |j: int| None),
    };
    assert(base.update(i, x).update(i, y) =~= base.update(i, y));
}

/// Setting two different slots of an array field gives the same in either order.
proof fn lemma_fill_slots_commute<T>(slots: Option<Seq<Option<T>>>, len: nat, i: int, x: Option<T>, j: int, y: Option<T>)
    requires
        0 <= i < len,
        0 <= j < len,
        i != j,
        slots matches Some(a) ==> a.len() == len,
    ensures
        fill_slot(fill_slot(slots, len, i, x), len, j, y) == fill_slot(fill_slot(slots, len, j, y), len, i, x),
{
    let base = match slots {
        Some(a) => a,
        None => Seq::new(len, |k: int| None),
    };
    assert(base.update(i, x).update(j, y) =~= base.update(j, y).update(i, x));
}

/// The slots of an array field are as many as the array has.
proof fn lemma_slots_len<T, const N: usize>(slots: Option<[Option<T>; N]>)
    ensures
        opt_view(slots) matches Some(a) ==> a.len() == N,
{
    if let Some(a) = slots {
        vstd::array::array_len_matches_n(&a);
    }
}

/// The slots of an array field of strings are as many as the array has.
proof fn lemma_text_slots_len<const N: usize>(slots: Option<[Option<String>; N]>)
    ensures
        text_slots_view(slots) matches Some(a) ==> a.len() == N,
{
    if let Some(a) = slots {
        vstd::array::array_len_matches_n(&a);
    }
}

/// A later entry of an opcode overrides an earlier one of the same opcode:
/// applying both gives what applying the later one alone gives.
pub proof fn lemma_later_entry_wins(c: ItemConfig, op: u8, v1: ValueView, v2: ValueView)
    ensures
        apply_entry(apply_entry(c@, op, v1), op, v2) == apply_entry(c@, op, v2),
{
    let d = apply_entry(apply_entry(c@, op, v1), op, v2);
    let e = apply_entry(c@, op, v2);
    assert(d.base_model == e.base_model);
    assert(d.name == e.name);
    assert(d.buff_effect == e.buff_effect);
    assert(d.rotation == e.rotation);
    assert(d.translation == e.translation);
    assert(d.stackable == e.stackable);
    assert(d.value == e.value);
    assert(d.equipslot_id == e.equipslot_id);
    assert(d.equip_id == e.equip_id);
    assert(d.unknown_15 == e.unknown_15);
    assert(d.is_members == e.is_members);
    assert(d.multi_stack_size == e.multi_stack_size);
    assert(d.male_models == e.male_models) by {
        lemma_slots_len(c.male_models);
        if op == 23 {
            lemma_fill_slot_twice(c@.male_models, 3, 0, Some(value_model(v1)), Some(value_model(v2)));
        }
        if op == 24 {
            lemma_fill_slot_twice(c@.male_models, 3, 1, Some(value_model(v1)), Some(value_model(v2)));
        }
        if op == 78 {
            lemma_fill_slot_twice(c@.male_models, 3, 2, Some(value_model(v1)), Some(value_model(v2)));
        }
    }
    assert(d.female_models == e.female_models) by {
        lemma_slots_len(c.female_models);
        if op == 25 {
            lemma_fill_slot_twice(c@.female_models, 3, 0, Some(value_model(v1)), Some(value_model(v2)));
        }
        if op == 26 {
            lemma_fill_slot_twice(c@.female_models, 3, 1, Some(value_model(v1)), Some(value_model(v2)));
        }
        if op == 79 {
            lemma_fill_slot_twice(c@.female_models, 3, 2, Some(value_model(v1)), Some(value_model(v2)));
        }
    }
    assert(d.unknown_27 == e.unknown_27);
    assert(d.ground_actions == e.ground_actions) by {
        lemma_text_slots_len(c.ground_actions);
        if op == 30 {
            lemma_fill_slot_twice(c@.ground_actions, 5, 0, Some(value_text(v1)), Some(value_text(v2)));
        }
        if op == 31 {
            lemma_fill_slot_twice(c@.ground_actions, 5, 1, Some(value_text(v1)), Some(value_text(v2)));
        }
        if op == 32 {
            lemma_fill_slot_twice(c@.ground_actions, 5, 2, Some(value_text(v1)), Some(value_text(v2)));
        }
        if op == 33 {
            lemma_fill_slot_twice(c@.ground_actions, 5, 3, Some(value_text(v1)), Some(value_text(v2)));
        }
        if op == 34 {
            lemma_fill_slot_twice(c@.ground_actions, 5, 4, Some(value_text(v1)), Some(value_text(v2)));
        }
    }
    assert(d.widget_actions == e.widget_actions) by {
        lemma_text_slots_len(c.widget_actions);
        if op == 35 {
            lemma_fill_slot_twice(c@.widget_actions, 5, 0, Some(value_text(v1)), Some(value_text(v2)));
        }
        if op == 36 {
            lemma_fill_slot_twice(c@.widget_actions, 5, 1, Some(value_text(v1)), Some(value_text(v2)));
        }
        if op == 37 {
            lemma_fill_slot_twice(c@.widget_actions, 5, 2, Some(value_text(v1)), Some(value_text(v2)));
        }
        if op == 38 {
            lemma_fill_slot_twice(c@.widget_actions, 5, 3, Some(value_text(v1)), Some(value_text(v2)));
        }
        if op == 39 {
            lemma_fill_slot_twice(c@.widget_actions, 5, 4, Some(value_text(v1)), Some(value_text(v2)));
        }
    }
    assert(d.colour_replacements == e.colour_replacements);
    assert(d.textures == e.textures);
    assert(d.recolour_palette == e.recolour_palette);
    assert(d.name_color == e.name_color);
    assert(d.recolour_indices == e.recolour_indices);
    assert(d.retexture_indices == e.retexture_indices);
    assert(d.is_tradeable == e.is_tradeable);
    assert(d.ge_buy_limit == e.ge_buy_limit);
    assert(d.male_head_models == e.male_head_models) by {
        lemma_slots_len(c.male_head_models);
        if op == 90 {
            lemma_fill_slot_twice(c@.male_head_models, 2, 0, Some(value_model(v1)), Some(value_model(v2)));
        }
        if op == 92 {
            lemma_fill_slot_twice(c@.male_head_models, 2, 1, Some(value_model(v1)), Some(value_model(v2)));
        }
    }
    assert(d.female_head_models == e.female_head_models) by {
        lemma_slots_len(c.female_head_models);
        if op == 91 {
            lemma_fill_slot_twice(c@.female_head_models, 2, 0, Some(value_model(v1)), Some(value_model(v2)));
        }
        if op == 93 {
            lemma_fill_slot_twice(c@.female_head_models, 2, 1, Some(value_model(v1)), Some(value_model(v2)));
        }
    }
    assert(d.category == e.category);
    assert(d.model_yaw == e.model_yaw);
    assert(d.dummy_item == e.dummy_item);
    assert(d.note_data == e.note_data);
    assert(d.note_template == e.note_template);
    assert(d.stack_info == e.stack_info) by {
        lemma_slots_len(c.stack_info);
        if op == 100 {
            lemma_fill_slot_twice(c@.stack_info, 10, 0, Some(value_pair(v1)), Some(value_pair(v2)));
        }
        if op == 101 {
            lemma_fill_slot_twice(c@.stack_info, 10, 1, Some(value_pair(v1)), Some(value_pair(v2)));
        }
        if op == 102 {
            lemma_fill_slot_twice(c@.stack_info, 10, 2, Some(value_pair(v1)), Some(value_pair(v2)));
        }
        if op == 103 {
            lemma_fill_slot_twice(c@.stack_info, 10, 3, Some(value_pair(v1)), Some(value_pair(v2)));
        }
        if op == 104 {
            lemma_fill_slot_twice(c@.stack_info, 10, 4, Some(value_pair(v1)), Some(value_pair(v2)));
        }
        if op == 105 {
            lemma_fill_slot_twice(c@.stack_info, 10, 5, Some(value_pair(v1)), Some(value_pair(v2)));
        }
        if op == 106 {
            lemma_fill_slot_twice(c@.stack_info, 10, 6, Some(value_pair(v1)), Some(value_pair(v2)));
        }
        if op == 107 {
            lemma_fill_slot_twice(c@.stack_info, 10, 7, Some(value_pair(v1)), Some(value_pair(v2)));
        }
        if op == 108 {
            lemma_fill_slot_twice(c@.stack_info, 10, 8, Some(value_pair(v1)), Some(value_pair(v2)));
        }
        if op == 109 {
            lemma_fill_slot_twice(c@.stack_info, 10, 9, Some(value_pair(v1)), Some(value_pair(v2)));
        }
    }
    assert(d.scale == e.scale) by {
        lemma_slots_len(c.scale);
        if op == 110 {
            lemma_fill_slot_twice(c@.scale, 3, 0, Some(value_u16(v1)), Some(value_u16(v2)));
        }
        if op == 111 {
            lemma_fill_slot_twice(c@.scale, 3, 1, Some(value_u16(v1)), Some(value_u16(v2)));
        }
        if op == 112 {
            lemma_fill_slot_twice(c@.scale, 3, 2, Some(value_u16(v1)), Some(value_u16(v2)));
        }
    }
    assert(d.contrast == e.contrast);
    assert(d.team == e.team);
    assert(d.ambiance == e.ambiance);
    assert(d.loan_id == e.loan_id);
    assert(d.loan_template == e.loan_template);
    assert(d.male_translate == e.male_translate);
    assert(d.female_translate == e.female_translate);
    assert(d.quests == e.quests);
    assert(d.pick_size_shift == e.pick_size_shift);
    assert(d.unknown_bind_link == e.unknown_bind_link);
    assert(d.bind_template == e.bind_template);
    assert(d.ground_action_cursor == e.ground_action_cursor) by {
        lemma_slots_len(c.ground_action_cursor);
        if op == 142 {
            lemma_fill_slot_twice(c@.ground_action_cursor, 5, 0, Some(value_u16(v1)), Some(value_u16(v2)));
        }
        if op == 143 {
            lemma_fill_slot_twice(c@.ground_action_cursor, 5, 1, Some(value_u16(v1)), Some(value_u16(v2)));
        }
        if op == 144 {
            lemma_fill_slot_twice(c@.ground_action_cursor, 5, 2, Some(value_u16(v1)), Some(value_u16(v2)));
        }
        if op == 145 {
            lemma_fill_slot_twice(c@.ground_action_cursor, 5, 3, Some(value_u16(v1)), Some(value_u16(v2)));
        }
        if op == 146 {
            lemma_fill_slot_twice(c@.ground_action_cursor, 5, 4, Some(value_u16(v1)), Some(value_u16(v2)));
        }
    }
    assert(d.widget_action_cursor == e.widget_action_cursor) by {
        lemma_slots_len(c.widget_action_cursor);
        if op == 150 {
            lemma_fill_slot_twice(c@.widget_action_cursor, 5, 0, Some(value_u16(v1)), Some(value_u16(v2)));
        }
        if op == 151 {
            lemma_fill_slot_twice(c@.widget_action_cursor, 5, 1, Some(value_u16(v1)), Some(value_u16(v2)));
        }
        if op == 152 {
            lemma_fill_slot_twice(c@.widget_action_cursor, 5, 2, Some(value_u16(v1)), Some(value_u16(v2)));
        }
        if op == 153 {
            lemma_fill_slot_twice(c@.widget_action_cursor, 5, 3, Some(value_u16(v1)), Some(value_u16(v2)));
        }
        if op == 154 {
            lemma_fill_slot_twice(c@.widget_action_cursor, 5, 4, Some(value_u16(v1)), Some(value_u16(v2)));
        }
    }
    assert(d.dummy == e.dummy);
    assert(d.randomize_ground_pos == e.randomize_ground_pos);
    assert(d.combine_info == e.combine_info);
    assert(d.combine_template == e.combine_template);
    assert(d.combine_num_required == e.combine_num_required);
    assert(d.combine_shard_name == e.combine_shard_name);
    assert(d.never_stackable == e.never_stackable);
    assert(d.unknown_167 == e.unknown_167);
    assert(d.unknown_168 == e.unknown_168);
    assert(d.params == e.params);
}

/// Entries of two different opcodes give the same definition in either order.
pub proof fn lemma_entries_commute(c: ItemConfig, op1: u8, v1: ValueView, op2: u8, v2: ValueView)
    requires
        op1 != op2,
    ensures
        apply_entry(apply_entry(c@, op1, v1), op2, v2) == apply_entry(apply_entry(c@, op2, v2), op1, v1),
{
    let d = apply_entry(apply_entry(c@, op1, v1), op2, v2);
    let e = apply_entry(apply_entry(c@, op2, v2), op1, v1);
    assert(d.base_model == e.base_model);
    assert(d.name == e.name);
    assert(d.buff_effect == e.buff_effect);
    assert(d.rotation == e.rotation);
    assert(d.translation == e.translation);
    assert(d.stackable == e.stackable);
    assert(d.value == e.value);
    assert(d.equipslot_id == e.equipslot_id);
    assert(d.equip_id == e.equip_id);
    assert(d.unknown_15 == e.unknown_15);
    assert(d.is_members == e.is_members);
    assert(d.multi_stack_size == e.multi_stack_size);
    assert(d.male_models == e.male_models) by {
        lemma_slots_len(c.male_models);
        if op1 == 23 && op2 == 24 {
            lemma_fill_slots_commute(c@.male_models, 3, 0, Some(value_model(v1)), 1, Some(value_model(v2)));
        }
        if op1 == 23 && op2 == 78 {
            lemma_fill_slots_commute(c@.male_models, 3, 0, Some(value_model(v1)), 2, Some(value_model(v2)));
        }
        if op1 == 24 && op2 == 23 {
            lemma_fill_slots_commute(c@.male_models, 3, 1, Some(value_model(v1)), 0, Some(value_model(v2)));
        }
        if op1 == 24 && op2 == 78 {
            lemma_fill_slots_commute(c@.male_models, 3, 1, Some(value_model(v1)), 2, Some(value_model(v2)));
        }
        if op1 == 78 && op2 == 23 {
            lemma_fill_slots_commute(c@.male_models, 3, 2, Some(value_model(v1)), 0, Some(value_model(v2)));
        }
        if op1 == 78 && op2 == 24 {
            lemma_fill_slots_commute(c@.male_models, 3, 2, Some(value_model(v1)), 1, Some(value_model(v2)));
        }
    }
    assert(d.female_models == e.female_models) by {
        lemma_slots_len(c.female_models);
        if op1 == 25 && op2 == 26 {
            lemma_fill_slots_commute(c@.female_models, 3, 0, Some(value_model(v1)), 1, Some(value_model(v2)));
        }
        if op1 == 25 && op2 == 79 {
            lemma_fill_slots_commute(c@.female_models, 3, 0, Some(value_model(v1)), 2, Some(value_model(v2)));
        }
        if op1 == 26 && op2 == 25 {
            lemma_fill_slots_commute(c@.female_models, 3, 1, Some(value_model(v1)), 0, Some(value_model(v2)));
        }
        if op1 == 26 && op2 == 79 {
            lemma_fill_slots_commute(c@.female_models, 3, 1, Some(value_model(v1)), 2, Some(value_model(v2)));
        }
        if op1 == 79 && op2 == 25 {
            lemma_fill_slots_commute(c@.female_models, 3, 2, Some(value_model(v1)), 0, Some(value_model(v2)));
        }
        if op1 == 79 && op2 == 26 {
            lemma_fill_slots_commute(c@.female_models, 3, 2, Some(value_model(v1)), 1, Some(value_model(v2)));
        }
    }
    assert(d.unknown_27 == e.unknown_27);
    assert(d.ground_actions == e.ground_actions) by {
        lemma_text_slots_len(c.ground_actions);
        if op1 == 30 && op2 == 31 {
            lemma_fill_slots_commute(c@.ground_actions, 5, 0, Some(value_text(v1)), 1, Some(value_text(v2)));
        }
        if op1 == 30 && op2 == 32 {
            lemma_fill_slots_commute(c@.ground_actions, 5, 0, Some(value_text(v1)), 2, Some(value_text(v2)));
        }
        if op1 == 30 && op2 == 33 {
            lemma_fill_slots_commute(c@.ground_actions, 5, 0, Some(value_text(v1)), 3, Some(value_text(v2)));
        }
        if op1 == 30 && op2 == 34 {
            lemma_fill_slots_commute(c@.ground_actions, 5, 0, Some(value_text(v1)), 4, Some(value_text(v2)));
        }
        if op1 == 31 && op2 == 30 {
            lemma_fill_slots_commute(c@.ground_actions, 5, 1, Some(value_text(v1)), 0, Some(value_text(v2)));
        }
        if op1 == 31 && op2 == 32 {
            lemma_fill_slots_commute(c@.ground_actions, 5, 1, Some(value_text(v1)), 2, Some(value_text(v2)));
        }
        if op1 == 31 && op2 == 33 {
            lemma_fill_slots_commute(c@.ground_actions, 5, 1, Some(value_text(v1)), 3, Some(value_text(v2)));
        }
        if op1 == 31 && op2 == 34 {
            lemma_fill_slots_commute(c@.ground_actions, 5, 1, Some(value_text(v1)), 4, Some(value_text(v2)));
        }
        if op1 == 32 && op2 == 30 {
            lemma_fill_slots_commute(c@.ground_actions, 5, 2, Some(value_text(v1)), 0, Some(value_text(v2)));
        }
        if op1 == 32 && op2 == 31 {
            lemma_fill_slots_commute(c@.ground_actions, 5, 2, Some(value_text(v1)), 1, Some(value_text(v2)));
        }
        if op1 == 32 && op2 == 33 {
            lemma_fill_slots_commute(c@.ground_actions, 5, 2, Some(value_text(v1)), 3, Some(value_text(v2)));
        }
        if op1 == 32 && op2 == 34 {
            lemma_fill_slots_commute(c@.ground_actions, 5, 2, Some(value_text(v1)), 4, Some(value_text(v2)));
        }
        if op1 == 33 && op2 == 30 {
            lemma_fill_slots_commute(c@.ground_actions, 5, 3, Some(value_text(v1)), 0, Some(value_text(v2)));
        }
        if op1 == 33 && op2 == 31 {
            lemma_fill_slots_commute(c@.ground_actions, 5, 3, Some(value_text(v1)), 1, Some(value_text(v2)));
        }
        if op1 == 33 && op2 == 32 {
            lemma_fill_slots_commute(c@.ground_actions, 5, 3, Some(value_text(v1)), 2, Some(value_text(v2)));
        }
        if op1 == 33 && op2 == 34 {
            lemma_fill_slots_commute(c@.ground_actions, 5, 3, Some(value_text(v1)), 4, Some(value_text(v2)));
        }
        if op1 == 34 && op2 == 30 {
            lemma_fill_slots_commute(c@.ground_actions, 5, 4, Some(value_text(v1)), 0, Some(value_text(v2)));
        }
        if op1 == 34 && op2 == 31 {
            lemma_fill_slots_commute(c@.ground_actions, 5, 4, Some(value_text(v1)), 1, Some(value_text(v2)));
        }
        if op1 == 34 && op2 == 32 {
            lemma_fill_slots_commute(c@.ground_actions, 5, 4, Some(value_text(v1)), 2, Some(value_text(v2)));
        }
        if op1 == 34 && op2 == 33 {
            lemma_fill_slots_commute(c@.ground_actions, 5, 4, Some(value_text(v1)), 3, Some(value_text(v2)));
        }
    }
    assert(d.widget_actions == e.widget_actions) by {
        lemma_text_slots_len(c.widget_actions);
        if op1 == 35 && op2 == 36 {
            lemma_fill_slots_commute(c@.widget_actions, 5, 0, Some(value_text(v1)), 1, Some(value_text(v2)));
        }
        if op1 == 35 && op2 == 37 {
            lemma_fill_slots_commute(c@.widget_actions, 5, 0, Some(value_text(v1)), 2, Some(value_text(v2)));
        }
        if op1 == 35 && op2 == 38 {
            lemma_fill_slots_commute(c@.widget_actions, 5, 0, Some(value_text(v1)), 3, Some(value_text(v2)));
        }
        if op1 == 35 && op2 == 39 {
            lemma_fill_slots_commute(c@.widget_actions, 5, 0, Some(value_text(v1)), 4, Some(value_text(v2)));
        }
        if op1 == 36 && op2 == 35 {
            lemma_fill_slots_commute(c@.widget_actions, 5, 1, Some(value_text(v1)), 0, Some(value_text(v2)));
        }
        if op1 == 36 && op2 == 37 {
            lemma_fill_slots_commute(c@.widget_actions, 5, 1, Some(value_text(v1)), 2, Some(value_text(v2)));
        }
        if op1 == 36 && op2 == 38 {
            lemma_fill_slots_commute(c@.widget_actions, 5, 1, Some(value_text(v1)), 3, Some(value_text(v2)));
        }
        if op1 == 36 && op2 == 39 {
            lemma_fill_slots_commute(c@.widget_actions, 5, 1, Some(value_text(v1)), 4, Some(value_text(v2)));
        }
        if op1 == 37 && op2 == 35 {
            lemma_fill_slots_commute(c@.widget_actions, 5, 2, Some(value_text(v1)), 0, Some(value_text(v2)));
        }
        if op1 == 37 && op2 == 36 {
            lemma_fill_slots_commute(c@.widget_actions, 5, 2, Some(value_text(v1)), 1, Some(value_text(v2)));
        }
        if op1 == 37 && op2 == 38 {
            lemma_fill_slots_commute(c@.widget_actions, 5, 2, Some(value_text(v1)), 3, Some(value_text(v2)));
        }
        if op1 == 37 && op2 == 39 {
            lemma_fill_slots_commute(c@.widget_actions, 5, 2, Some(value_text(v1)), 4, Some(value_text(v2)));
        }
        if op1 == 38 && op2 == 35 {
            lemma_fill_slots_commute(c@.widget_actions, 5, 3, Some(value_text(v1)), 0, Some(value_text(v2)));
        }
        if op1 == 38 && op2 == 36 {
            lemma_fill_slots_commute(c@.widget_actions, 5, 3, Some(value_text(v1)), 1, Some(value_text(v2)));
        }
        if op1 == 38 && op2 == 37 {
            lemma_fill_slots_commute(c@.widget_actions, 5, 3, Some(value_text(v1)), 2, Some(value_text(v2)));
        }
        if op1 == 38 && op2 == 39 {
            lemma_fill_slots_commute(c@.widget_actions, 5, 3, Some(value_text(v1)), 4, Some(value_text(v2)));
        }
        if op1 == 39 && op2 == 35 {
            lemma_fill_slots_commute(c@.widget_actions, 5, 4, Some(value_text(v1)), 0, Some(value_text(v2)));
        }
        if op1 == 39 && op2 == 36 {
            lemma_fill_slots_commute(c@.widget_actions, 5, 4, Some(value_text(v1)), 1, Some(value_text(v2)));
        }
        if op1 == 39 && op2 == 37 {
            lemma_fill_slots_commute(c@.widget_actions, 5, 4, Some(value_text(v1)), 2, Some(value_text(v2)));
        }
        if op1 == 39 && op2 == 38 {
            lemma_fill_slots_commute(c@.widget_actions, 5, 4, Some(value_text(v1)), 3, Some(value_text(v2)));
        }
    }
    assert(d.colour_replacements == e.colour_replacements);
    assert(d.textures == e.textures);
    assert(d.recolour_palette == e.recolour_palette);
    assert(d.name_color == e.name_color);
    assert(d.recolour_indices == e.recolour_indices);
    assert(d.retexture_indices == e.retexture_indices);
    assert(d.is_tradeable == e.is_tradeable);
    assert(d.ge_buy_limit == e.ge_buy_limit);
    assert(d.male_head_models == e.male_head_models) by {
        lemma_slots_len(c.male_head_models);
        if op1 == 90 && op2 == 92 {
            lemma_fill_slots_commute(c@.male_head_models, 2, 0, Some(value_model(v1)), 1, Some(value_model(v2)));
        }
        if op1 == 92 && op2 == 90 {
            lemma_fill_slots_commute(c@.male_head_models, 2, 1, Some(value_model(v1)), 0, Some(value_model(v2)));
        }
    }
    assert(d.female_head_models == e.female_head_models) by {
        lemma_slots_len(c.female_head_models);
        if op1 == 91 && op2 == 93 {
            lemma_fill_slots_commute(c@.female_head_models, 2, 0, Some(value_model(v1)), 1, Some(value_model(v2)));
        }
        if op1 == 93 && op2 == 91 {
            lemma_fill_slots_commute(c@.female_head_models, 2, 1, Some(value_model(v1)), 0, Some(value_model(v2)));
        }
    }
    assert(d.category == e.category);
    assert(d.model_yaw == e.model_yaw);
    assert(d.dummy_item == e.dummy_item);
    assert(d.note_data == e.note_data);
    assert(d.note_template == e.note_template);
    assert(d.stack_info == e.stack_info) by {
        lemma_slots_len(c.stack_info);
        if op1 == 100 && op2 == 101 {
            lemma_fill_slots_commute(c@.stack_info, 10, 0, Some(value_pair(v1)), 1, Some(value_pair(v2)));
        }
        if op1 == 100 && op2 == 102 {
            lemma_fill_slots_commute(c@.stack_info, 10, 0, Some(value_pair(v1)), 2, Some(value_pair(v2)));
        }
        if op1 == 100 && op2 == 103 {
            lemma_fill_slots_commute(c@.stack_info, 10, 0, Some(value_pair(v1)), 3, Some(value_pair(v2)));
        }
        if op1 == 100 && op2 == 104 {
            lemma_fill_slots_commute(c@.stack_info, 10, 0, Some(value_pair(v1)), 4, Some(value_pair(v2)));
        }
        if op1 == 100 && op2 == 105 {
            lemma_fill_slots_commute(c@.stack_info, 10, 0, Some(value_pair(v1)), 5, Some(value_pair(v2)));
        }
        if op1 == 100 && op2 == 106 {
            lemma_fill_slots_commute(c@.stack_info, 10, 0, Some(value_pair(v1)), 6, Some(value_pair(v2)));
        }
        if op1 == 100 && op2 == 107 {
            lemma_fill_slots_commute(c@.stack_info, 10, 0, Some(value_pair(v1)), 7, Some(value_pair(v2)));
        }
        if op1 == 100 && op2 == 108 {
            lemma_fill_slots_commute(c@.stack_info, 10, 0, Some(value_pair(v1)), 8, Some(value_pair(v2)));
        }
        if op1 == 100 && op2 == 109 {
            lemma_fill_slots_commute(c@.stack_info, 10, 0, Some(value_pair(v1)), 9, Some(value_pair(v2)));
        }
        if op1 == 101 && op2 == 100 {
            lemma_fill_slots_commute(c@.stack_info, 10, 1, Some(value_pair(v1)), 0, Some(value_pair(v2)));
        }
        if op1 == 101 && op2 == 102 {
            lemma_fill_slots_commute(c@.stack_info, 10, 1, Some(value_pair(v1)), 2, Some(value_pair(v2)));
        }
        if op1 == 101 && op2 == 103 {
            lemma_fill_slots_commute(c@.stack_info, 10, 1, Some(value_pair(v1)), 3, Some(value_pair(v2)));
        }
        if op1 == 101 && op2 == 104 {
            lemma_fill_slots_commute(c@.stack_info, 10, 1, Some(value_pair(v1)), 4, Some(value_pair(v2)));
        }
        if op1 == 101 && op2 == 105 {
            lemma_fill_slots_commute(c@.stack_info, 10, 1, Some(value_pair(v1)), 5, Some(value_pair(v2)));
        }
        if op1 == 101 && op2 == 106 {
            lemma_fill_slots_commute(c@.stack_info, 10, 1, Some(value_pair(v1)), 6, Some(value_pair(v2)));
        }
        if op1 == 101 && op2 == 107 {
            lemma_fill_slots_commute(c@.stack_info, 10, 1, Some(value_pair(v1)), 7, Some(value_pair(v2)));
        }
        if op1 == 101 && op2 == 108 {
            lemma_fill_slots_commute(c@.stack_info, 10, 1, Some(value_pair(v1)), 8, Some(value_pair(v2)));
        }
        if op1 == 101 && op2 == 109 {
            lemma_fill_slots_commute(c@.stack_info, 10, 1, Some(value_pair(v1)), 9, Some(value_pair(v2)));
        }
        if op1 == 102 && op2 == 100 {
            lemma_fill_slots_commute(c@.stack_info, 10, 2, Some(value_pair(v1)), 0, Some(value_pair(v2)));
        }
        if op1 == 102 && op2 == 101 {
            lemma_fill_slots_commute(c@.stack_info, 10, 2, Some(value_pair(v1)), 1, Some(value_pair(v2)));
        }
        if op1 == 102 && op2 == 103 {
            lemma_fill_slots_commute(c@.stack_info, 10, 2, Some(value_pair(v1)), 3, Some(value_pair(v2)));
        }
        if op1 == 102 && op2 == 104 {
            lemma_fill_slots_commute(c@.stack_info, 10, 2, Some(value_pair(v1)), 4, Some(value_pair(v2)));
        }
        if op1 == 102 && op2 == 105 {
            lemma_fill_slots_commute(c@.stack_info, 10, 2, Some(value_pair(v1)), 5, Some(value_pair(v2)));
        }
        if op1 == 102 && op2 == 106 {
            lemma_fill_slots_commute(c@.stack_info, 10, 2, Some(value_pair(v1)), 6, Some(value_pair(v2)));
        }
        if op1 == 102 && op2 == 107 {
            lemma_fill_slots_commute(c@.stack_info, 10, 2, Some(value_pair(v1)), 7, Some(value_pair(v2)));
        }
        if op1 == 102 && op2 == 108 {
            lemma_fill_slots_commute(c@.stack_info, 10, 2, Some(value_pair(v1)), 8, Some(value_pair(v2)));
        }
        if op1 == 102 && op2 == 109 {
            lemma_fill_slots_commute(c@.stack_info, 10, 2, Some(value_pair(v1)), 9, Some(value_pair(v2)));
        }
        if op1 == 103 && op2 == 100 {
            lemma_fill_slots_commute(c@.stack_info, 10, 3, Some(value_pair(v1)), 0, Some(value_pair(v2)));
        }
        if op1 == 103 && op2 == 101 {
            lemma_fill_slots_commute(c@.stack_info, 10, 3, Some(value_pair(v1)), 1, Some(value_pair(v2)));
        }
        if op1 == 103 && op2 == 102 {
            lemma_fill_slots_commute(c@.stack_info, 10, 3, Some(value_pair(v1)), 2, Some(value_pair(v2)));
        }
        if op1 == 103 && op2 == 104 {
            lemma_fill_slots_commute(c@.stack_info, 10, 3, Some(value_pair(v1)), 4, Some(value_pair(v2)));
        }
        if op1 == 103 && op2 == 105 {
            lemma_fill_slots_commute(c@.stack_info, 10, 3, Some(value_pair(v1)), 5, Some(value_pair(v2)));
        }
        if op1 == 103 && op2 == 106 {
            lemma_fill_slots_commute(c@.stack_info, 10, 3, Some(value_pair(v1)), 6, Some(value_pair(v2)));
        }
        if op1 == 103 && op2 == 107 {
            lemma_fill_slots_commute(c@.stack_info, 10, 3, Some(value_pair(v1)), 7, Some(value_pair(v2)));
        }
        if op1 == 103 && op2 == 108 {
            lemma_fill_slots_commute(c@.stack_info, 10, 3, Some(value_pair(v1)), 8, Some(value_pair(v2)));
        }
        if op1 == 103 && op2 == 109 {
            lemma_fill_slots_commute(c@.stack_info, 10, 3, Some(value_pair(v1)), 9, Some(value_pair(v2)));
        }
        if op1 == 104 && op2 == 100 {
            lemma_fill_slots_commute(c@.stack_info, 10, 4, Some(value_pair(v1)), 0, Some(value_pair(v2)));
        }
        if op1 == 104 && op2 == 101 {
            lemma_fill_slots_commute(c@.stack_info, 10, 4, Some(value_pair(v1)), 1, Some(value_pair(v2)));
        }
        if op1 == 104 && op2 == 102 {
            lemma_fill_slots_commute(c@.stack_info, 10, 4, Some(value_pair(v1)), 2, Some(value_pair(v2)));
        }
        if op1 == 104 && op2 == 103 {
            lemma_fill_slots_commute(c@.stack_info, 10, 4, Some(value_pair(v1)), 3, Some(value_pair(v2)));
        }
        if op1 == 104 && op2 == 105 {
            lemma_fill_slots_commute(c@.stack_info, 10, 4, Some(value_pair(v1)), 5, Some(value_pair(v2)));
        }
        if op1 == 104 && op2 == 106 {
            lemma_fill_slots_commute(c@.stack_info, 10, 4, Some(value_pair(v1)), 6, Some(value_pair(v2)));
        }
        if op1 == 104 && op2 == 107 {
            lemma_fill_slots_commute(c@.stack_info, 10, 4, Some(value_pair(v1)), 7, Some(value_pair(v2)));
        }
        if op1 == 104 && op2 == 108 {
            lemma_fill_slots_commute(c@.stack_info, 10, 4, Some(value_pair(v1)), 8, Some(value_pair(v2)));
        }
        if op1 == 104 && op2 == 109 {
            lemma_fill_slots_commute(c@.stack_info, 10, 4, Some(value_pair(v1)), 9, Some(value_pair(v2)));
        }
        if op1 == 105 && op2 == 100 {
            lemma_fill_slots_commute(c@.stack_info, 10, 5, Some(value_pair(v1)), 0, Some(value_pair(v2)));
        }
        if op1 == 105 && op2 == 101 {
            lemma_fill_slots_commute(c@.stack_info, 10, 5, Some(value_pair(v1)), 1, Some(value_pair(v2)));
        }
        if op1 == 105 && op2 == 102 {
            lemma_fill_slots_commute(c@.stack_info, 10, 5, Some(value_pair(v1)), 2, Some(value_pair(v2)));
        }
        if op1 == 105 && op2 == 103 {
            lemma_fill_slots_commute(c@.stack_info, 10, 5, Some(value_pair(v1)), 3, Some(value_pair(v2)));
        }
        if op1 == 105 && op2 == 104 {
            lemma_fill_slots_commute(c@.stack_info, 10, 5, Some(value_pair(v1)), 4, Some(value_pair(v2)));
        }
        if op1 == 105 && op2 == 106 {
            lemma_fill_slots_commute(c@.stack_info, 10, 5, Some(value_pair(v1)), 6, Some(value_pair(v2)));
        }
        if op1 == 105 && op2 == 107 {
            lemma_fill_slots_commute(c@.stack_info, 10, 5, Some(value_pair(v1)), 7, Some(value_pair(v2)));
        }
        if op1 == 105 && op2 == 108 {
            lemma_fill_slots_commute(c@.stack_info, 10, 5, Some(value_pair(v1)), 8, Some(value_pair(v2)));
        }
        if op1 == 105 && op2 == 109 {
            lemma_fill_slots_commute(c@.stack_info, 10, 5, Some(value_pair(v1)), 9, Some(value_pair(v2)));
        }
        if op1 == 106 && op2 == 100 {
            lemma_fill_slots_commute(c@.stack_info, 10, 6, Some(value_pair(v1)), 0, Some(value_pair(v2)));
        }
        if op1 == 106 && op2 == 101 {
            lemma_fill_slots_commute(c@.stack_info, 10, 6, Some(value_pair(v1)), 1, Some(value_pair(v2)));
        }
        if op1 == 106 && op2 == 102 {
            lemma_fill_slots_commute(c@.stack_info, 10, 6, Some(value_pair(v1)), 2, Some(value_pair(v2)));
        }
        if op1 == 106 && op2 == 103 {
            lemma_fill_slots_commute(c@.stack_info, 10, 6, Some(value_pair(v1)), 3, Some(value_pair(v2)));
        }
        if op1 == 106 && op2 == 104 {
            lemma_fill_slots_commute(c@.stack_info, 10, 6, Some(value_pair(v1)), 4, Some(value_pair(v2)));
        }
        if op1 == 106 && op2 == 105 {
            lemma_fill_slots_commute(c@.stack_info, 10, 6, Some(value_pair(v1)), 5, Some(value_pair(v2)));
        }
        if op1 == 106 && op2 == 107 {
            lemma_fill_slots_commute(c@.stack_info, 10, 6, Some(value_pair(v1)), 7, Some(value_pair(v2)));
        }
        if op1 == 106 && op2 == 108 {
            lemma_fill_slots_commute(c@.stack_info, 10, 6, Some(value_pair(v1)), 8, Some(value_pair(v2)));
        }
        if op1 == 106 && op2 == 109 {
            lemma_fill_slots_commute(c@.stack_info, 10, 6, Some(value_pair(v1)), 9, Some(value_pair(v2)));
        }
        if op1 == 107 && op2 == 100 {
            lemma_fill_slots_commute(c@.stack_info, 10, 7, Some(value_pair(v1)), 0, Some(value_pair(v2)));
        }
        if op1 == 107 && op2 == 101 {
            lemma_fill_slots_commute(c@.stack_info, 10, 7, Some(value_pair(v1)), 1, Some(value_pair(v2)));
        }
        if op1 == 107 && op2 == 102 {
            lemma_fill_slots_commute(c@.stack_info, 10, 7, Some(value_pair(v1)), 2, Some(value_pair(v2)));
        }
        if op1 == 107 && op2 == 103 {
            lemma_fill_slots_commute(c@.stack_info, 10, 7, Some(value_pair(v1)), 3, Some(value_pair(v2)));
        }
        if op1 == 107 && op2 == 104 {
            lemma_fill_slots_commute(c@.stack_info, 10, 7, Some(value_pair(v1)), 4, Some(value_pair(v2)));
        }
        if op1 == 107 && op2 == 105 {
            lemma_fill_slots_commute(c@.stack_info, 10, 7, Some(value_pair(v1)), 5, Some(value_pair(v2)));
        }
        if op1 == 107 && op2 == 106 {
            lemma_fill_slots_commute(c@.stack_info, 10, 7, Some(value_pair(v1)), 6, Some(value_pair(v2)));
        }
        if op1 == 107 && op2 == 108 {
            lemma_fill_slots_commute(c@.stack_info, 10, 7, Some(value_pair(v1)), 8, Some(value_pair(v2)));
        }
        if op1 == 107 && op2 == 109 {
            lemma_fill_slots_commute(c@.stack_info, 10, 7, Some(value_pair(v1)), 9, Some(value_pair(v2)));
        }
        if op1 == 108 && op2 == 100 {
            lemma_fill_slots_commute(c@.stack_info, 10, 8, Some(value_pair(v1)), 0, Some(value_pair(v2)));
        }
        if op1 == 108 && op2 == 101 {
            lemma_fill_slots_commute(c@.stack_info, 10, 8, Some(value_pair(v1)), 1, Some(value_pair(v2)));
        }
        if op1 == 108 && op2 == 102 {
            lemma_fill_slots_commute(c@.stack_info, 10, 8, Some(value_pair(v1)), 2, Some(value_pair(v2)));
        }
        if op1 == 108 && op2 == 103 {
            lemma_fill_slots_commute(c@.stack_info, 10, 8, Some(value_pair(v1)), 3, Some(value_pair(v2)));
        }
        if op1 == 108 && op2 == 104 {
            lemma_fill_slots_commute(c@.stack_info, 10, 8, Some(value_pair(v1)), 4, Some(value_pair(v2)));
        }
        if op1 == 108 && op2 == 105 {
            lemma_fill_slots_commute(c@.stack_info, 10, 8, Some(value_pair(v1)), 5, Some(value_pair(v2)));
        }
        if op1 == 108 && op2 == 106 {
            lemma_fill_slots_commute(c@.stack_info, 10, 8, Some(value_pair(v1)), 6, Some(value_pair(v2)));
        }
        if op1 == 108 && op2 == 107 {
            lemma_fill_slots_commute(c@.stack_info, 10, 8, Some(value_pair(v1)), 7, Some(value_pair(v2)));
        }
        if op1 == 108 && op2 == 109 {
            lemma_fill_slots_commute(c@.stack_info, 10, 8, Some(value_pair(v1)), 9, Some(value_pair(v2)));
        }
        if op1 == 109 && op2 == 100 {
            lemma_fill_slots_commute(c@.stack_info, 10, 9, Some(value_pair(v1)), 0, Some(value_pair(v2)));
        }
        if op1 == 109 && op2 == 101 {
            lemma_fill_slots_commute(c@.stack_info, 10, 9, Some(value_pair(v1)), 1, Some(value_pair(v2)));
        }
        if op1 == 109 && op2 == 102 {
            lemma_fill_slots_commute(c@.stack_info, 10, 9, Some(value_pair(v1)), 2, Some(value_pair(v2)));
        }
        if op1 == 109 && op2 == 103 {
            lemma_fill_slots_commute(c@.stack_info, 10, 9, Some(value_pair(v1)), 3, Some(value_pair(v2)));
        }
        if op1 == 109 && op2 == 104 {
            lemma_fill_slots_commute(c@.stack_info, 10, 9, Some(value_pair(v1)), 4, Some(value_pair(v2)));
        }
        if op1 == 109 && op2 == 105 {
            lemma_fill_slots_commute(c@.stack_info, 10, 9, Some(value_pair(v1)), 5, Some(value_pair(v2)));
        }
        if op1 == 109 && op2 == 106 {
            lemma_fill_slots_commute(c@.stack_info, 10, 9, Some(value_pair(v1)), 6, Some(value_pair(v2)));
        }
        if op1 == 109 && op2 == 107 {
            lemma_fill_slots_commute(c@.stack_info, 10, 9, Some(value_pair(v1)), 7, Some(value_pair(v2)));
        }
        if op1 == 109 && op2 == 108 {
            lemma_fill_slots_commute(c@.stack_info, 10, 9, Some(value_pair(v1)), 8, Some(value_pair(v2)));
        }
    }
    assert(d.scale == e.scale) by {
        lemma_slots_len(c.scale);
        if op1 == 110 && op2 == 111 {
            lemma_fill_slots_commute(c@.scale, 3, 0, Some(value_u16(v1)), 1, Some(value_u16(v2)));
        }
        if op1 == 110 && op2 == 112 {
            lemma_fill_slots_commute(c@.scale, 3, 0, Some(value_u16(v1)), 2, Some(value_u16(v2)));
        }
        if op1 == 111 && op2 == 110 {
            lemma_fill_slots_commute(c@.scale, 3, 1, Some(value_u16(v1)), 0, Some(value_u16(v2)));
        }
        if op1 == 111 && op2 == 112 {
            lemma_fill_slots_commute(c@.scale, 3, 1, Some(value_u16(v1)), 2, Some(value_u16(v2)));
        }
        if op1 == 112 && op2 == 110 {
            lemma_fill_slots_commute(c@.scale, 3, 2, Some(value_u16(v1)), 0, Some(value_u16(v2)));
        }
        if op1 == 112 && op2 == 111 {
            lemma_fill_slots_commute(c@.scale, 3, 2, Some(value_u16(v1)), 1, Some(value_u16(v2)));
        }
    }
    assert(d.contrast == e.contrast);
    assert(d.team == e.team);
    assert(d.ambiance == e.ambiance);
    assert(d.loan_id == e.loan_id);
    assert(d.loan_template == e.loan_template);
    assert(d.male_translate == e.male_translate);
    assert(d.female_translate == e.female_translate);
    assert(d.quests == e.quests);
    assert(d.pick_size_shift == e.pick_size_shift);
    assert(d.unknown_bind_link == e.unknown_bind_link);
    assert(d.bind_template == e.bind_template);
    assert(d.ground_action_cursor == e.ground_action_cursor) by {
        lemma_slots_len(c.ground_action_cursor);
        if op1 == 142 && op2 == 143 {
            lemma_fill_slots_commute(c@.ground_action_cursor, 5, 0, Some(value_u16(v1)), 1, Some(value_u16(v2)));
        }
        if op1 == 142 && op2 == 144 {
            lemma_fill_slots_commute(c@.ground_action_cursor, 5, 0, Some(value_u16(v1)), 2, Some(value_u16(v2)));
        }
        if op1 == 142 && op2 == 145 {
            lemma_fill_slots_commute(c@.ground_action_cursor, 5, 0, Some(value_u16(v1)), 3, Some(value_u16(v2)));
        }
        if op1 == 142 && op2 == 146 {
            lemma_fill_slots_commute(c@.ground_action_cursor, 5, 0, Some(value_u16(v1)), 4, Some(value_u16(v2)));
        }
        if op1 == 143 && op2 == 142 {
            lemma_fill_slots_commute(c@.ground_action_cursor, 5, 1, Some(value_u16(v1)), 0, Some(value_u16(v2)));
        }
        if op1 == 143 && op2 == 144 {
            lemma_fill_slots_commute(c@.ground_action_cursor, 5, 1, Some(value_u16(v1)), 2, Some(value_u16(v2)));
        }
        if op1 == 143 && op2 == 145 {
            lemma_fill_slots_commute(c@.ground_action_cursor, 5, 1, Some(value_u16(v1)), 3, Some(value_u16(v2)));
        }
        if op1 == 143 && op2 == 146 {
            lemma_fill_slots_commute(c@.ground_action_cursor, 5, 1, Some(value_u16(v1)), 4, Some(value_u16(v2)));
        }
        if op1 == 144 && op2 == 142 {
            lemma_fill_slots_commute(c@.ground_action_cursor, 5, 2, Some(value_u16(v1)), 0, Some(value_u16(v2)));
        }
        if op1 == 144 && op2 == 143 {
            lemma_fill_slots_commute(c@.ground_action_cursor, 5, 2, Some(value_u16(v1)), 1, Some(value_u16(v2)));
        }
        if op1 == 144 && op2 == 145 {
            lemma_fill_slots_commute(c@.ground_action_cursor, 5, 2, Some(value_u16(v1)), 3, Some(value_u16(v2)));
        }
        if op1 == 144 && op2 == 146 {
            lemma_fill_slots_commute(c@.ground_action_cursor, 5, 2, Some(value_u16(v1)), 4, Some(value_u16(v2)));
        }
        if op1 == 145 && op2 == 142 {
            lemma_fill_slots_commute(c@.ground_action_cursor, 5, 3, Some(value_u16(v1)), 0, Some(value_u16(v2)));
        }
        if op1 == 145 && op2 == 143 {
            lemma_fill_slots_commute(c@.ground_action_cursor, 5, 3, Some(value_u16(v1)), 1, Some(value_u16(v2)));
        }
        if op1 == 145 && op2 == 144 {
            lemma_fill_slots_commute(c@.ground_action_cursor, 5, 3, Some(value_u16(v1)), 2, Some(value_u16(v2)));
        }
        if op1 == 145 && op2 == 146 {
            lemma_fill_slots_commute(c@.ground_action_cursor, 5, 3, Some(value_u16(v1)), 4, Some(value_u16(v2)));
        }
        if op1 == 146 && op2 == 142 {
            lemma_fill_slots_commute(c@.ground_action_cursor, 5, 4, Some(value_u16(v1)), 0, Some(value_u16(v2)));
        }
        if op1 == 146 && op2 == 143 {
            lemma_fill_slots_commute(c@.ground_action_cursor, 5, 4, Some(value_u16(v1)), 1, Some(value_u16(v2)));
        }
        if op1 == 146 && op2 == 144 {
            lemma_fill_slots_commute(c@.ground_action_cursor, 5, 4, Some(value_u16(v1)), 2, Some(value_u16(v2)));
        }
        if op1 == 146 && op2 == 145 {
            lemma_fill_slots_commute(c@.ground_action_cursor, 5, 4, Some(value_u16(v1)), 3, Some(value_u16(v2)));
        }
    }
    assert(d.widget_action_cursor == e.widget_action_cursor) by {
        lemma_slots_len(c.widget_action_cursor);
        if op1 == 150 && op2 == 151 {
            lemma_fill_slots_commute(c@.widget_action_cursor, 5, 0, Some(value_u16(v1)), 1, Some(value_u16(v2)));
        }
        if op1 == 150 && op2 == 152 {
            lemma_fill_slots_commute(c@.widget_action_cursor, 5, 0, Some(value_u16(v1)), 2, Some(value_u16(v2)));
        }
        if op1 == 150 && op2 == 153 {
            lemma_fill_slots_commute(c@.widget_action_cursor, 5, 0, Some(value_u16(v1)), 3, Some(value_u16(v2)));
        }
        if op1 == 150 && op2 == 154 {
            lemma_fill_slots_commute(c@.widget_action_cursor, 5, 0, Some(value_u16(v1)), 4, Some(value_u16(v2)));
        }
        if op1 == 151 && op2 == 150 {
            lemma_fill_slots_commute(c@.widget_action_cursor, 5, 1, Some(value_u16(v1)), 0, Some(value_u16(v2)));
        }
        if op1 == 151 && op2 == 152 {
            lemma_fill_slots_commute(c@.widget_action_cursor, 5, 1, Some(value_u16(v1)), 2, Some(value_u16(v2)));
        }
        if op1 == 151 && op2 == 153 {
            lemma_fill_slots_commute(c@.widget_action_cursor, 5, 1, Some(value_u16(v1)), 3, Some(value_u16(v2)));
        }
        if op1 == 151 && op2 == 154 {
            lemma_fill_slots_commute(c@.widget_action_cursor, 5, 1, Some(value_u16(v1)), 4, Some(value_u16(v2)));
        }
        if op1 == 152 && op2 == 150 {
            lemma_fill_slots_commute(c@.widget_action_cursor, 5, 2, Some(value_u16(v1)), 0, Some(value_u16(v2)));
        }
        if op1 == 152 && op2 == 151 {
            lemma_fill_slots_commute(c@.widget_action_cursor, 5, 2, Some(value_u16(v1)), 1, Some(value_u16(v2)));
        }
        if op1 == 152 && op2 == 153 {
            lemma_fill_slots_commute(c@.widget_action_cursor, 5, 2, Some(value_u16(v1)), 3, Some(value_u16(v2)));
        }
        if op1 == 152 && op2 == 154 {
            lemma_fill_slots_commute(c@.widget_action_cursor, 5, 2, Some(value_u16(v1)), 4, Some(value_u16(v2)));
        }
        if op1 == 153 && op2 == 150 {
            lemma_fill_slots_commute(c@.widget_action_cursor, 5, 3, Some(value_u16(v1)), 0, Some(value_u16(v2)));
        }
        if op1 == 153 && op2 == 151 {
            lemma_fill_slots_commute(c@.widget_action_cursor, 5, 3, Some(value_u16(v1)), 1, Some(value_u16(v2)));
        }
        if op1 == 153 && op2 == 152 {
            lemma_fill_slots_commute(c@.widget_action_cursor, 5, 3, Some(value_u16(v1)), 2, Some(value_u16(v2)));
        }
        if op1 == 153 && op2 == 154 {
            lemma_fill_slots_commute(c@.widget_action_cursor, 5, 3, Some(value_u16(v1)), 4, Some(value_u16(v2)));
        }
        if op1 == 154 && op2 == 150 {
            lemma_fill_slots_commute(c@.widget_action_cursor, 5, 4, Some(value_u16(v1)), 0, Some(value_u16(v2)));
        }
        if op1 == 154 && op2 == 151 {
            lemma_fill_slots_commute(c@.widget_action_cursor, 5, 4, Some(value_u16(v1)), 1, Some(value_u16(v2)));
        }
        if op1 == 154 && op2 == 152 {
            lemma_fill_slots_commute(c@.widget_action_cursor, 5, 4, Some(value_u16(v1)), 2, Some(value_u16(v2)));
        }
        if op1 == 154 && op2 == 153 {
            lemma_fill_slots_commute(c@.widget_action_cursor, 5, 4, Some(value_u16(v1)), 3, Some(value_u16(v2)));
        }
    }
    assert(d.dummy == e.dummy);
    assert(d.randomize_ground_pos == e.randomize_ground_pos);
    assert(d.combine_info == e.combine_info);
    assert(d.combine_template == e.combine_template);
    assert(d.combine_num_required == e.combine_num_required);
    assert(d.combine_shard_name == e.combine_shard_name);
    assert(d.never_stackable == e.never_stackable);
    assert(d.unknown_167 == e.unknown_167);
    assert(d.unknown_168 == e.unknown_168);
    assert(d.params == e.params);
}

/// A byte: the first byte, taking one byte; nothing where there is none.
pub proof fn lemma_read_u8_bytes(s: Seq<u8>)
    ensures
        s.len() >= 1 ==> spec_read_u8(s) == Some((s[0], 1nat)),
        s.len() < 1 ==> spec_read_u8(s) is None,
{
}

/// A signed byte: the first byte less 256 where its high bit is set.
pub proof fn lemma_read_i8_bytes(s: Seq<u8>)
    ensures
        s.len() >= 1 ==> spec_read_i8(s) == Some(((if s[0] >= 128 { s[0] - 256 } else { s[0] as int }) as i8, 1nat)),
        s.len() < 1 ==> spec_read_i8(s) is None,
{
}

/// A 16-bit integer: the first byte times 256 plus the second, taking two bytes.
pub proof fn lemma_read_u16_bytes(s: Seq<u8>)
    ensures
        s.len() >= 2 ==> spec_read_u16(s) == Some(((s[0] * 256 + s[1]) as u16, 2nat)),
        s.len() < 2 ==> spec_read_u16(s) is None,
{
}

/// A 24-bit integer: the first three bytes, most significant first.
pub proof fn lemma_read_u24_bytes(s: Seq<u8>)
    ensures
        s.len() >= 3 ==> spec_read_u24(s) == Some((((s[0] * 256 + s[1]) * 256 + s[2]) as u32, 3nat)),
        s.len() < 3 ==> spec_read_u24(s) is None,
{
}

/// A signed 32-bit integer: the first four bytes, most significant first,
/// less 2^32 where the high bit is set.
pub proof fn lemma_read_i32_bytes(s: Seq<u8>)
    ensures
        s.len() >= 4 ==> spec_read_i32(s) == Some((
            (if s[0] >= 128 { ((s[0] * 256 + s[1]) * 256 + s[2]) * 256 + s[3] - 0x1_0000_0000 } else { ((s[0] * 256 + s[1]) * 256 + s[2]) * 256 + s[3] }) as i32,
            4nat,
        )),
        s.len() < 4 ==> spec_read_i32(s) is None,
{
}

/// A smart integer whose first byte has the high bit set takes four bytes:
/// their value with that one bit cleared.
pub proof fn lemma_smart32_long(s: Seq<u8>)
    requires
        s.len() >= 4,
        s[0] >= 0x80,
    ensures
        spec_read_smart32(s) == Some((Some(((((s[0] - 0x80) * 256 + s[1]) * 256 + s[2]) * 256 + s[3]) as u32), 4nat)),
{
}

/// A smart integer whose first byte has the high bit clear takes two bytes:
/// their value, except 32767, which stands for none.
pub proof fn lemma_smart32_short(s: Seq<u8>)
    requires
        s.len() >= 2,
        s[0] < 0x80,
    ensures
        s[0] * 256 + s[1] != 32767 ==> spec_read_smart32(s) == Some((Some((s[0] * 256 + s[1]) as u32), 2nat)),
        s[0] * 256 + s[1] == 32767 ==> spec_read_smart32(s) == Some((None::<u32>, 2nat)),
{
}

/// A smart integer cut short reads as nothing.
pub proof fn lemma_smart32_truncated(s: Seq<u8>)
    requires
        s.len() < 2 || (s[0] >= 0x80 && s.len() < 4),
    ensures
        spec_read_smart32(s) is None,
{
}

/// A list of pairs: a count byte, then that many pairs of big-endian 16-bit
/// integers, four bytes each, in order.
pub proof fn lemma_u16_pairs_bytes(s: Seq<u8>)
    ensures
        s.len() >= 1 && s.len() >= 1 + 4 * s[0] ==> {
            &&& spec_read_u16_pairs(s) matches Some((p, n))
            &&& n == 1 + 4 * s[0]
            &&& p.len() == s[0]
            &&& forall|i: int| 0 <= i < s[0] ==> #[trigger] p[i] == (
                (s[1 + 4 * i] * 256 + s[2 + 4 * i]) as u16,
                (s[3 + 4 * i] * 256 + s[4 + 4 * i]) as u16,
            )
        },
        s.len() < 1 || s.len() < 1 + 4 * s[0] ==> spec_read_u16_pairs(s) is None,
{
}

/// A list of 16-bit integers: a count byte, then that many big-endian 16-bit
/// integers, in order.
pub proof fn lemma_u16_list_bytes(s: Seq<u8>)
    ensures
        s.len() >= 1 && s.len() >= 1 + 2 * s[0] ==> {
            &&& spec_read_u16_list(s) matches Some((q, n))
            &&& n == 1 + 2 * s[0]
            &&& q.len() == s[0]
            &&& forall|i: int| 0 <= i < s[0] ==> #[trigger] q[i] == (s[1 + 2 * i] * 256 + s[2 + 2 * i]) as u16
        },
        s.len() < 1 || s.len() < 1 + 2 * s[0] ==> spec_read_u16_list(s) is None,
{
}

/// A list of signed bytes: a count byte, then that many bytes, each less 256
/// where its high bit is set.
pub proof fn lemma_i8_list_bytes(s: Seq<u8>)
    ensures
        s.len() >= 1 && s.len() >= 1 + s[0] ==> {
            &&& spec_read_i8_list(s) matches Some((q, n))
            &&& n == 1 + s[0]
            &&& q.len() == s[0]
            &&& forall|i: int| 0 <= i < s[0] ==> #[trigger] q[i] == (if s[1 + i] >= 128 { s[1 + i] - 256 } else { s[1 + i] as int }) as i8
        },
        s.len() < 1 || s.len() < 1 + s[0] ==> spec_read_i8_list(s) is None,
{
}

/// A map built from pairs holds exactly the keys of the pairs.
pub proof fn lemma_pairs_to_map_keys<K, V>(pairs: Seq<(K, V)>, k: K)
    ensures
        pairs_to_map(pairs).contains_key(k) <==> exists|j: int| 0 <= j < pairs.len() && #[trigger] pairs[j].0 == k,
    decreases pairs.len(),
{
    if pairs.len() > 0 {
        lemma_pairs_to_map_keys(pairs.drop_last(), k);
        if pairs_to_map(pairs.drop_last()).contains_key(k) {
            let j = choose|j: int| 0 <= j < pairs.drop_last().len() && #[trigger] pairs.drop_last()[j].0 == k;
            assert(pairs[j].0 == k);
        }
        if exists|j: int| 0 <= j < pairs.len() && #[trigger] pairs[j].0 == k {
            let j = choose|j: int| 0 <= j < pairs.len() && #[trigger] pairs[j].0 == k;
            if j < pairs.len() - 1 {
                assert(pairs.drop_last()[j].0 == k);
            }
        }
    }
}

/// In a map built from pairs, a key holds the value of its last pair.
pub proof fn lemma_pairs_to_map_last<K, V>(pairs: Seq<(K, V)>, i: int)
    requires
        0 <= i < pairs.len(),
        forall|j: int| i < j < pairs.len() ==> #[trigger] pairs[j].0 != pairs[i].0,
    ensures
        pairs_to_map(pairs).contains_key(pairs[i].0),
        pairs_to_map(pairs)[pairs[i].0] == pairs[i].1,
    decreases pairs.len(),
{
    if i < pairs.len() - 1 {
        assert forall|j: int| i < j < pairs.drop_last().len() implies #[trigger] pairs.drop_last()[j].0 != pairs.drop_last()[i].0 by {
            assert(pairs[j].0 != pairs[i].0);
        }
        lemma_pairs_to_map_last(pairs.drop_last(), i);
        assert(pairs.last().0 != pairs[i].0);
    }
}

/// An integer entry of a parameter table: a type byte other than 1, a
/// big-endian 24-bit key and a big-endian signed 32-bit value, eight bytes.
pub proof fn lemma_param_integer_bytes(s: Seq<u8>)
    requires
        s.len() >= 8,
        s[0] != 1,
    ensures
        spec_read_param(s) == Some((
            (
                ((s[1] * 256 + s[2]) * 256 + s[3]) as u32,
                ParamView::Integer((if s[4] >= 128 { ((s[4] * 256 + s[5]) * 256 + s[6]) * 256 + s[7] - 0x1_0000_0000 } else { ((s[4] * 256 + s[5]) * 256 + s[6]) * 256 + s[7] }) as i32),
            ),
            8nat,
        )),
{
}

/// A string entry of a parameter table: the type byte 1, a big-endian 24-bit
/// key, then a zero-terminated string.
pub proof fn lemma_param_string_bytes(k0: u8, k1: u8, k2: u8, t: Seq<u8>, rest: Seq<u8>)
    requires
        forall|j: int| 0 <= j < t.len() ==> t[j] != 0,
    ensures
        spec_read_param(seq![1u8, k0, k1, k2] + t + seq![0u8] + rest) == Some((
            (((k0 * 256 + k1) * 256 + k2) as u32, ParamView::String(Seq::new(t.len(), |j: int| cp1252_char(t[j])))),
            (4 + t.len() + 1) as nat,
        )),
{
    let s = seq![1u8, k0, k1, k2] + t + seq![0u8] + rest;
    assert(s.skip(4) =~= t + seq![0u8] + rest);
    crate::entry_laws::lemma_read_text(t, rest);
}

/// The id of file `f` of archive `a`, for a file number below 256: the
/// archive number (its low 24 bits) times 256, plus the file number.
pub proof fn lemma_config_id_value(a: u32, f: u32)
    requires
        f < 256,
    ensures
        config_id(a, f) == (a % 0x100_0000) * 256 + f,
{
    assert(f < 256 ==> (a << 8u32 | f) == (a % 0x100_0000) * 256 + f) by (bit_vector);
}

} // verus!
