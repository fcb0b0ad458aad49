//! Item definitions: the structure, its view, and the decoder of the entry
//! stream that describes one item.

use std::collections::BTreeMap;
use vstd::prelude::*;
use vstd::pervasive::unreached;

use crate::buffer::{
    result_view, spec_read_i32, spec_read_i8, spec_read_smart32, spec_read_string,
    spec_read_u16, spec_read_u24, spec_read_u8, terminated_at, Buffer, DecodeError,
};
use crate::item_config_fields::{
    spec_read_i8_list, spec_read_textures, spec_read_u16_list, spec_read_u16_pairs,
    ColourReplacements, Quests, RecolourPalette, Rotation, Textures, Translation,
};
use crate::paramtable::{spec_read_param_table, ParamTable, ParamView};

verus! {

broadcast use vstd::array::group_array_axioms;

/// The properties of an item, as its definition in the cache gives them.
#[derive(Clone, Debug)]
pub struct ItemConfig {
    /// Its id.
    pub id: u32,
    pub base_model: Option<u32>,
    pub name: Option<String>,
    pub buff_effect: Option<String>,
    pub rotation: Option<Rotation>,
    pub translation: Option<Translation>,
    pub stackable: Option<bool>,
    pub value: Option<i32>,
    pub equipslot_id: Option<u8>,
    pub equip_id: Option<u8>,
    pub unknown_15: Option<bool>,
    pub is_members: Option<bool>,
    pub multi_stack_size: Option<u16>,
    pub male_models: Option<[Option<u32>; 3]>,
    pub female_models: Option<[Option<u32>; 3]>,
    pub unknown_27: Option<u8>,
    pub ground_actions: Option<[Option<String>; 5]>,
    pub widget_actions: Option<[Option<String>; 5]>,
    pub colour_replacements: Option<ColourReplacements>,
    pub textures: Option<Textures>,
    pub recolour_palette: Option<RecolourPalette>,
    pub name_color: Option<i32>,
    pub recolour_indices: Option<u16>,
    pub retexture_indices: Option<u16>,
    pub is_tradeable: Option<bool>,
    pub ge_buy_limit: Option<i32>,
    pub male_head_models: Option<[Option<u32>; 2]>,
    pub female_head_models: Option<[Option<u32>; 2]>,
    pub category: Option<u16>,
    pub model_yaw: Option<u16>,
    pub dummy_item: Option<u8>,
    pub note_data: Option<u16>,
    pub note_template: Option<u16>,
    pub stack_info: Option<[Option<(u16, u16)>; 10]>,
    pub scale: Option<[Option<u16>; 3]>,
    pub contrast: Option<i8>,
    pub team: Option<u8>,
    pub ambiance: Option<i8>,
    pub loan_id: Option<u16>,
    pub loan_template: Option<u16>,
    pub male_translate: Option<u32>,
    pub female_translate: Option<u32>,
    pub quests: Option<Quests>,
    pub pick_size_shift: Option<u8>,
    pub unknown_bind_link: Option<u16>,
    pub bind_template: Option<u16>,
    pub ground_action_cursor: Option<[Option<u16>; 5]>,
    pub widget_action_cursor: Option<[Option<u16>; 5]>,
    pub dummy: Option<bool>,
    pub randomize_ground_pos: Option<bool>,
    pub combine_info: Option<u16>,
    pub combine_template: Option<u16>,
    pub combine_num_required: Option<u16>,
    pub combine_shard_name: Option<String>,
    pub never_stackable: Option<bool>,
    pub unknown_167: Option<bool>,
    pub unknown_168: Option<bool>,
    pub params: Option<ParamTable>,
}

/// An item definition, with strings as their characters, arrays and lists
/// as sequences and tables as maps.
pub struct ItemConfigView {
    pub id: u32,
    pub base_model: Option<u32>,
    pub name: Option<Seq<char>>,
    pub buff_effect: Option<Seq<char>>,
    pub rotation: Option<Rotation>,
    pub translation: Option<Translation>,
    pub stackable: Option<bool>,
    pub value: Option<i32>,
    pub equipslot_id: Option<u8>,
    pub equip_id: Option<u8>,
    pub unknown_15: Option<bool>,
    pub is_members: Option<bool>,
    pub multi_stack_size: Option<u16>,
    pub male_models: Option<Seq<Option<u32>>>,
    pub female_models: Option<Seq<Option<u32>>>,
    pub unknown_27: Option<u8>,
    pub ground_actions: Option<Seq<Option<Seq<char>>>>,
    pub widget_actions: Option<Seq<Option<Seq<char>>>>,
    pub colour_replacements: Option<Seq<(u16, u16)>>,
    pub textures: Option<Map<u16, u16>>,
    pub recolour_palette: Option<Seq<i8>>,
    pub name_color: Option<i32>,
    pub recolour_indices: Option<u16>,
    pub retexture_indices: Option<u16>,
    pub is_tradeable: Option<bool>,
    pub ge_buy_limit: Option<i32>,
    pub male_head_models: Option<Seq<Option<u32>>>,
    pub female_head_models: Option<Seq<Option<u32>>>,
    pub category: Option<u16>,
    pub model_yaw: Option<u16>,
    pub dummy_item: Option<u8>,
    pub note_data: Option<u16>,
    pub note_template: Option<u16>,
    pub stack_info: Option<Seq<Option<(u16, u16)>>>,
    pub scale: Option<Seq<Option<u16>>>,
    pub contrast: Option<i8>,
    pub team: Option<u8>,
    pub ambiance: Option<i8>,
    pub loan_id: Option<u16>,
    pub loan_template: Option<u16>,
    pub male_translate: Option<u32>,
    pub female_translate: Option<u32>,
    pub quests: Option<Seq<u16>>,
    pub pick_size_shift: Option<u8>,
    pub unknown_bind_link: Option<u16>,
    pub bind_template: Option<u16>,
    pub ground_action_cursor: Option<Seq<Option<u16>>>,
    pub widget_action_cursor: Option<Seq<Option<u16>>>,
    pub dummy: Option<bool>,
    pub randomize_ground_pos: Option<bool>,
    pub combine_info: Option<u16>,
    pub combine_template: Option<u16>,
    pub combine_num_required: Option<u16>,
    pub combine_shard_name: Option<Seq<char>>,
    pub never_stackable: Option<bool>,
    pub unknown_167: Option<bool>,
    pub unknown_168: Option<bool>,
    pub params: Option<Map<u32, ParamView>>,
}

impl ItemConfigView {
    /// The definition of item `id` before any entry is applied: every field absent.
    pub open spec fn empty(id: u32) -> ItemConfigView {
        ItemConfigView {
            id,
            base_model: None,
            name: None,
            buff_effect: None,
            rotation: None,
            translation: None,
            stackable: None,
            value: None,
            equipslot_id: None,
            equip_id: None,
            unknown_15: None,
            is_members: None,
            multi_stack_size: None,
            male_models: None,
            female_models: None,
            unknown_27: None,
            ground_actions: None,
            widget_actions: None,
            colour_replacements: None,
            textures: None,
            recolour_palette: None,
            name_color: None,
            recolour_indices: None,
            retexture_indices: None,
            is_tradeable: None,
            ge_buy_limit: None,
            male_head_models: None,
            female_head_models: None,
            category: None,
            model_yaw: None,
            dummy_item: None,
            note_data: None,
            note_template: None,
            stack_info: None,
            scale: None,
            contrast: None,
            team: None,
            ambiance: None,
            loan_id: None,
            loan_template: None,
            male_translate: None,
            female_translate: None,
            quests: None,
            pick_size_shift: None,
            unknown_bind_link: None,
            bind_template: None,
            ground_action_cursor: None,
            widget_action_cursor: None,
            dummy: None,
            randomize_ground_pos: None,
            combine_info: None,
            combine_template: None,
            combine_num_required: None,
            combine_shard_name: None,
            never_stackable: None,
            unknown_167: None,
            unknown_168: None,
            params: None,
        }
    }
}

impl View for ItemConfig {
    type V = ItemConfigView;

    open spec fn view(&self) -> ItemConfigView {
        ItemConfigView {
            id: self.id,
            base_model: self.base_model,
            name: opt_view(self.name),
            buff_effect: opt_view(self.buff_effect),
            rotation: self.rotation,
            translation: self.translation,
            stackable: self.stackable,
            value: self.value,
            equipslot_id: self.equipslot_id,
            equip_id: self.equip_id,
            unknown_15: self.unknown_15,
            is_members: self.is_members,
            multi_stack_size: self.multi_stack_size,
            male_models: opt_view(self.male_models),
            female_models: opt_view(self.female_models),
            unknown_27: self.unknown_27,
            ground_actions: text_slots_view(self.ground_actions),
            widget_actions: text_slots_view(self.widget_actions),
            colour_replacements: opt_view(self.colour_replacements),
            textures: opt_view(self.textures),
            recolour_palette: opt_view(self.recolour_palette),
            name_color: self.name_color,
            recolour_indices: self.recolour_indices,
            retexture_indices: self.retexture_indices,
            is_tradeable: self.is_tradeable,
            ge_buy_limit: self.ge_buy_limit,
            male_head_models: opt_view(self.male_head_models),
            female_head_models: opt_view(self.female_head_models),
            category: self.category,
            model_yaw: self.model_yaw,
            dummy_item: self.dummy_item,
            note_data: self.note_data,
            note_template: self.note_template,
            stack_info: opt_view(self.stack_info),
            scale: opt_view(self.scale),
            contrast: self.contrast,
            team: self.team,
            ambiance: self.ambiance,
            loan_id: self.loan_id,
            loan_template: self.loan_template,
            male_translate: self.male_translate,
            female_translate: self.female_translate,
            quests: opt_view(self.quests),
            pick_size_shift: self.pick_size_shift,
            unknown_bind_link: self.unknown_bind_link,
            bind_template: self.bind_template,
            ground_action_cursor: opt_view(self.ground_action_cursor),
            widget_action_cursor: opt_view(self.widget_action_cursor),
            dummy: self.dummy,
            randomize_ground_pos: self.randomize_ground_pos,
            combine_info: self.combine_info,
            combine_template: self.combine_template,
            combine_num_required: self.combine_num_required,
            combine_shard_name: opt_view(self.combine_shard_name),
            never_stackable: self.never_stackable,
            unknown_167: self.unknown_167,
            unknown_168: self.unknown_168,
            params: opt_view(self.params),
        }
    }
}

impl Default for ItemConfig {
    /// The definition of item 0 with every field absent.
    fn default() -> (r: ItemConfig)
        ensures
            r@ == ItemConfigView::empty(0),
    {
        ItemConfig {
            id: 0,
            base_model: None,
            name: None,
            buff_effect: None,
            rotation: None,
            translation: None,
            stackable: None,
            value: None,
            equipslot_id: None,
            equip_id: None,
            unknown_15: None,
            is_members: None,
            multi_stack_size: None,
            male_models: None,
            female_models: None,
            unknown_27: None,
            ground_actions: None,
            widget_actions: None,
            colour_replacements: None,
            textures: None,
            recolour_palette: None,
            name_color: None,
            recolour_indices: None,
            retexture_indices: None,
            is_tradeable: None,
            ge_buy_limit: None,
            male_head_models: None,
            female_head_models: None,
            category: None,
            model_yaw: None,
            dummy_item: None,
            note_data: None,
            note_template: None,
            stack_info: None,
            scale: None,
            contrast: None,
            team: None,
            ambiance: None,
            loan_id: None,
            loan_template: None,
            male_translate: None,
            female_translate: None,
            quests: None,
            pick_size_shift: None,
            unknown_bind_link: None,
            bind_template: None,
            ground_action_cursor: None,
            widget_action_cursor: None,
            dummy: None,
            randomize_ground_pos: None,
            combine_info: None,
            combine_template: None,
            combine_num_required: None,
            combine_shard_name: None,
            never_stackable: None,
            unknown_167: None,
            unknown_168: None,
            params: None,
        }
    }
}

/// The view of an optional value that has a view.
pub open spec fn opt_view<T: View>(o: Option<T>) -> Option<T::V> {
    match o {
        Some(x) => Some(x@),
        None => None,
    }
}

/// The view of an optional array of optional strings.
pub open spec fn text_slots_view<const N: usize>(o: Option<[Option<String>; N]>) -> Option<
    Seq<Option<Seq<char>>>,
> {
    match o {
        Some(a) => Some(a@.map_values(|x: Option<String>| opt_view(x))),
        None => None,
    }
}

/// The rotation that an entry updates: the one there is, or none at all.
pub open spec fn rotation_or_zero(o: Option<Rotation>) -> Rotation {
    match o {
        Some(r) => r,
        None => Rotation::zero(),
    }
}

/// The translation that an entry updates: the one there is, or none at all.
pub open spec fn translation_or_zero(o: Option<Translation>) -> Translation {
    match o {
        Some(t) => t,
        None => Translation::zero(),
    }
}

/// The slots of an array field after slot `i` is set to `x`; where the field
/// is absent, it is first made an array of `len` empty slots.
pub open spec fn fill_slot<T>(slots: Option<Seq<Option<T>>>, len: nat, i: int, x: Option<T>) -> Option<
    Seq<Option<T>>,
> {
    Some(
        match slots {
            Some(a) => a,
            None => Seq::new(len, |j: int| None),
        }.update(i, x),
    )
}

/// The array field `slots` after slot `i` is set to `x`, as `fill_slot` says.
fn set_slot<T: Copy, const N: usize>(slots: Option<[Option<T>; N]>, i: usize, x: T) -> (r: Option<
    [Option<T>; N],
>)
    requires
        i < N,
    ensures
        opt_view(r) == fill_slot(opt_view(slots), N as nat, i as int, Some(x)),
{
    let mut a = match slots {
        Some(a) => a,
        None => {
            let e: [Option<T>; N] = [None; N];
            assert(e@ =~= Seq::new(N as nat, |j: int| None::<T>));
            e
        },
    };
    let ghost base = a@;
    a[i] = Some(x);
    assert(a@ =~= base.update(i as int, Some(x)));
    Some(a)
}

/// The array field of strings `slots` after slot `i` is set to `x`, as
/// `fill_slot` says.
fn set_text_slot(slots: Option<[Option<String>; 5]>, i: usize, x: String) -> (r: Option<
    [Option<String>; 5],
>)
    requires
        i < 5,
    ensures
        text_slots_view(r) == fill_slot(text_slots_view(slots), 5, i as int, Some(x@)),
{
    let mut a = match slots {
        Some(a) => a,
        None => {
            let e: [Option<String>; 5] = [None, None, None, None, None];
            assert(e@.map_values(|y: Option<String>| opt_view(y)) =~= Seq::new(5, |j: int| None::<Seq<char>>));
            e
        },
    };
    let ghost base = a@;
    a[i] = Some(x);
    assert(a@ =~= base.update(i as int, Some(x)));
    assert(a@.map_values(|y: Option<String>| opt_view(y)) =~= base.map_values(|y: Option<String>| opt_view(y)).update(i as int, Some(x@)));
    Some(a)
}

/// The kinds of value that an opcode can introduce.
#[derive(Clone, Copy, Debug, PartialEq, Eq, Structural)]
pub enum Kind {
    /// No value: the opcode alone sets a flag.
    Flag,
    /// An unsigned byte.
    UByte,
    /// A signed byte.
    Byte,
    /// A big-endian unsigned 16-bit integer.
    UShort,
    /// The index mask of a recolouring or retexturing.
    MaskedIndex,
    /// Two big-endian unsigned 16-bit integers.
    ShortPair,
    /// A big-endian unsigned 24-bit integer.
    Medium,
    /// A big-endian signed 32-bit integer.
    Int,
    /// A smart integer that must not be the "no model" sentinel.
    Model,
    /// A zero-terminated string.
    Text,
    /// A list of colour replacements.
    Colours,
    /// A list of texture replacements.
    Textures,
    /// A recolouring palette.
    Palette,
    /// A list of quests.
    Quests,
    /// A table of parameters.
    Params,
}

/// The value of one entry.
#[derive(Debug, Clone)]
pub enum Value {
    Flag,
    UByte(u8),
    Byte(i8),
    UShort(u16),
    ShortPair(u16, u16),
    Medium(u32),
    Int(i32),
    Model(u32),
    Text(String),
    Colours(ColourReplacements),
    Textures(Textures),
    Palette(RecolourPalette),
    Quests(Quests),
    Params(ParamTable),
}

/// The value of one entry, with strings, lists and tables as their views.
pub enum ValueView {
    Flag,
    UByte(u8),
    Byte(i8),
    UShort(u16),
    ShortPair(u16, u16),
    Medium(u32),
    Int(i32),
    Model(u32),
    Text(Seq<char>),
    Colours(Seq<(u16, u16)>),
    Textures(Map<u16, u16>),
    Palette(Seq<i8>),
    Quests(Seq<u16>),
    Params(Map<u32, ParamView>),
}

impl View for Value {
    type V = ValueView;

    open spec fn view(&self) -> ValueView {
        match self {
            Value::Flag => ValueView::Flag,
            Value::UByte(x) => ValueView::UByte(*x),
            Value::Byte(x) => ValueView::Byte(*x),
            Value::UShort(x) => ValueView::UShort(*x),
            Value::ShortPair(a, b) => ValueView::ShortPair(*a, *b),
            Value::Medium(x) => ValueView::Medium(*x),
            Value::Int(x) => ValueView::Int(*x),
            Value::Model(x) => ValueView::Model(*x),
            Value::Text(s) => ValueView::Text(s@),
            Value::Colours(c) => ValueView::Colours(c@),
            Value::Textures(t) => ValueView::Textures(t@),
            Value::Palette(p) => ValueView::Palette(p@),
            Value::Quests(q) => ValueView::Quests(q@),
            Value::Params(p) => ValueView::Params(p@),
        }
    }
}

/// `v` is a value of kind `k`.
pub open spec fn value_fits(k: Kind, v: ValueView) -> bool {
    match k {
        Kind::Flag => v is Flag,
        Kind::UByte => v is UByte,
        Kind::Byte => v is Byte,
        Kind::UShort => v is UShort,
        Kind::MaskedIndex => v is UShort,
        Kind::ShortPair => v is ShortPair,
        Kind::Medium => v is Medium,
        Kind::Int => v is Int,
        Kind::Model => v is Model,
        Kind::Text => v is Text,
        Kind::Colours => v is Colours,
        Kind::Textures => v is Textures,
        Kind::Palette => v is Palette,
        Kind::Quests => v is Quests,
        Kind::Params => v is Params,
    }
}

pub open spec fn value_u8(v: ValueView) -> u8 {
    match v {
        ValueView::UByte(x) => x,
        _ => 0,
    }
}

pub open spec fn value_i8(v: ValueView) -> i8 {
    match v {
        ValueView::Byte(x) => x,
        _ => 0,
    }
}

pub open spec fn value_u16(v: ValueView) -> u16 {
    match v {
        ValueView::UShort(x) => x,
        _ => 0,
    }
}

pub open spec fn value_pair(v: ValueView) -> (u16, u16) {
    match v {
        ValueView::ShortPair(a, b) => (a, b),
        _ => (0, 0),
    }
}

pub open spec fn value_medium(v: ValueView) -> u32 {
    match v {
        ValueView::Medium(x) => x,
        _ => 0,
    }
}

pub open spec fn value_i32(v: ValueView) -> i32 {
    match v {
        ValueView::Int(x) => x,
        _ => 0,
    }
}

pub open spec fn value_model(v: ValueView) -> u32 {
    match v {
        ValueView::Model(x) => x,
        _ => 0,
    }
}

pub open spec fn value_text(v: ValueView) -> Seq<char> {
    match v {
        ValueView::Text(x) => x,
        _ => Seq::empty(),
    }
}

pub open spec fn value_colours(v: ValueView) -> Seq<(u16, u16)> {
    match v {
        ValueView::Colours(x) => x,
        _ => Seq::empty(),
    }
}

pub open spec fn value_textures(v: ValueView) -> Map<u16, u16> {
    match v {
        ValueView::Textures(x) => x,
        _ => Map::empty(),
    }
}

pub open spec fn value_palette(v: ValueView) -> Seq<i8> {
    match v {
        ValueView::Palette(x) => x,
        _ => Seq::empty(),
    }
}

pub open spec fn value_quests(v: ValueView) -> Seq<u16> {
    match v {
        ValueView::Quests(x) => x,
        _ => Seq::empty(),
    }
}

pub open spec fn value_params(v: ValueView) -> Map<u32, ParamView> {
    match v {
        ValueView::Params(x) => x,
        _ => Map::empty(),
    }
}

fn into_u8(v: Value) -> (r: u8)
    requires
        v@ is UByte,
    ensures
        r == value_u8(v@),
{
    match v {
        Value::UByte(x) => x,
        _ => unreached(),
    }
}

fn into_i8(v: Value) -> (r: i8)
    requires
        v@ is Byte,
    ensures
        r == value_i8(v@),
{
    match v {
        Value::Byte(x) => x,
        _ => unreached(),
    }
}

fn into_u16(v: Value) -> (r: u16)
    requires
        v@ is UShort,
    ensures
        r == value_u16(v@),
{
    match v {
        Value::UShort(x) => x,
        _ => unreached(),
    }
}

fn into_pair(v: Value) -> (r: (u16, u16))
    requires
        v@ is ShortPair,
    ensures
        r == value_pair(v@),
{
    match v {
        Value::ShortPair(a, b) => (a, b),
        _ => unreached(),
    }
}

fn into_medium(v: Value) -> (r: u32)
    requires
        v@ is Medium,
    ensures
        r == value_medium(v@),
{
    match v {
        Value::Medium(x) => x,
        _ => unreached(),
    }
}

fn into_i32(v: Value) -> (r: i32)
    requires
        v@ is Int,
    ensures
        r == value_i32(v@),
{
    match v {
        Value::Int(x) => x,
        _ => unreached(),
    }
}

fn into_model(v: Value) -> (r: u32)
    requires
        v@ is Model,
    ensures
        r == value_model(v@),
{
    match v {
        Value::Model(x) => x,
        _ => unreached(),
    }
}

fn into_text(v: Value) -> (r: String)
    requires
        v@ is Text,
    ensures
        r@ == value_text(v@),
{
    match v {
        Value::Text(x) => x,
        _ => unreached(),
    }
}

fn into_colours(v: Value) -> (r: ColourReplacements)
    requires
        v@ is Colours,
    ensures
        r@ == value_colours(v@),
{
    match v {
        Value::Colours(x) => x,
        _ => unreached(),
    }
}

fn into_textures(v: Value) -> (r: Textures)
    requires
        v@ is Textures,
    ensures
        r@ == value_textures(v@),
{
    match v {
        Value::Textures(x) => x,
        _ => unreached(),
    }
}

fn into_palette(v: Value) -> (r: RecolourPalette)
    requires
        v@ is Palette,
    ensures
        r@ == value_palette(v@),
{
    match v {
        Value::Palette(x) => x,
        _ => unreached(),
    }
}

fn into_quests(v: Value) -> (r: Quests)
    requires
        v@ is Quests,
    ensures
        r@ == value_quests(v@),
{
    match v {
        Value::Quests(x) => x,
        _ => unreached(),
    }
}

fn into_params(v: Value) -> (r: ParamTable)
    requires
        v@ is Params,
    ensures
        r@ == value_params(v@),
{
    match v {
        Value::Params(x) => x,
        _ => unreached(),
    }
}

/// What a read that expected `expected` did, as `read_outcome` says, where
/// the expectation carries the error to report.
pub open spec fn decode_outcome<T>(
    before: Seq<u8>,
    after: Seq<u8>,
    expected: Result<(T, nat), DecodeError>,
    got: Result<T, DecodeError>,
) -> bool {
    match expected {
        Ok((v, n)) => got == Ok::<T, DecodeError>(v) && after == before.skip(n as int),
        Err(e) => got == Err::<T, DecodeError>(e),
    }
}

/// A value that the bytes hold, or the error where they end too early.
pub open spec fn or_end<T>(r: Option<(T, nat)>) -> Result<(T, nat), DecodeError> {
    match r {
        Some(x) => Ok(x),
        None => Err(DecodeError::UnexpectedEnd),
    }
}

/// The value of kind `k` at the start of `s`, and the number of bytes it takes.
pub open spec fn spec_read_value(k: Kind, s: Seq<u8>) -> Result<(ValueView, nat), DecodeError> {
    match k {
        Kind::Flag => Ok((ValueView::Flag, 0)),
        Kind::UByte => match spec_read_u8(s) {
            Some((x, n)) => Ok((ValueView::UByte(x), n)),
            None => Err(DecodeError::UnexpectedEnd),
        },
        Kind::Byte => match spec_read_i8(s) {
            Some((x, n)) => Ok((ValueView::Byte(x), n)),
            None => Err(DecodeError::UnexpectedEnd),
        },
        Kind::UShort | Kind::MaskedIndex => match spec_read_u16(s) {
            Some((x, n)) => Ok((ValueView::UShort(x), n)),
            None => Err(DecodeError::UnexpectedEnd),
        },
        Kind::ShortPair => match spec_read_u16(s) {
            Some((a, n)) => match spec_read_u16(s.skip(n as int)) {
                Some((b, m)) => Ok((ValueView::ShortPair(a, b), n + m)),
                None => Err(DecodeError::UnexpectedEnd),
            },
            None => Err(DecodeError::UnexpectedEnd),
        },
        Kind::Medium => match spec_read_u24(s) {
            Some((x, n)) => Ok((ValueView::Medium(x), n)),
            None => Err(DecodeError::UnexpectedEnd),
        },
        Kind::Int => match spec_read_i32(s) {
            Some((x, n)) => Ok((ValueView::Int(x), n)),
            None => Err(DecodeError::UnexpectedEnd),
        },
        Kind::Model => match spec_read_smart32(s) {
            Some((Some(x), n)) => Ok((ValueView::Model(x), n)),
            Some((None, _)) => Err(DecodeError::MissingModel),
            None => Err(DecodeError::UnexpectedEnd),
        },
        Kind::Text => match spec_read_string(s) {
            Some((x, n)) => Ok((ValueView::Text(x), n)),
            None => Err(DecodeError::UnexpectedEnd),
        },
        Kind::Colours => match spec_read_u16_pairs(s) {
            Some((x, n)) => Ok((ValueView::Colours(x), n)),
            None => Err(DecodeError::UnexpectedEnd),
        },
        Kind::Textures => match spec_read_textures(s) {
            Some((x, n)) => Ok((ValueView::Textures(x), n)),
            None => Err(DecodeError::UnexpectedEnd),
        },
        Kind::Palette => match spec_read_i8_list(s) {
            Some((x, n)) => Ok((ValueView::Palette(x), n)),
            None => Err(DecodeError::UnexpectedEnd),
        },
        Kind::Quests => match spec_read_u16_list(s) {
            Some((x, n)) => Ok((ValueView::Quests(x), n)),
            None => Err(DecodeError::UnexpectedEnd),
        },
        Kind::Params => match spec_read_param_table(s) {
            Some((x, n)) => Ok((ValueView::Params(x), n)),
            None => Err(DecodeError::UnexpectedEnd),
        },
    }
}

/// The value of an entry of opcode `op` whose value starts at `s`, and the
/// number of bytes it takes.
pub open spec fn spec_read_entry(op: u8, s: Seq<u8>) -> Result<(ValueView, nat), DecodeError> {
    match opcode_kind(op) {
        Some(k) => spec_read_value(k, s),
        None => Err(DecodeError::UnknownOpcode(op)),
    }
}

/// A value that is read fits its kind and takes no more bytes than there are.
pub proof fn lemma_read_value_fits(k: Kind, s: Seq<u8>)
    ensures
        spec_read_value(k, s) matches Ok((v, n)) ==> value_fits(k, v) && n <= s.len(),
{
    if k is Text {
        if let Some((_, n)) = spec_read_string(s) {
            let m = choose|m: int| terminated_at(s, m);
            assert(n == m + 1);
        }
    } else if k is Params {
        if s.len() >= 1 {
            crate::paramtable::lemma_param_table_len(s);
        }
    }
}

/// The definition that the entries of `s` give when applied to `c`: the
/// entries up to the opcode 0 that ends the stream, which must be its last byte.
pub open spec fn decode_from(c: ItemConfigView, s: Seq<u8>) -> Result<ItemConfigView, DecodeError>
    decreases s.len(),
{
    if s.len() == 0 {
        Err(DecodeError::UnexpectedEnd)
    } else if s[0] == 0 {
        if s.len() == 1 {
            Ok(c)
        } else {
            Err(DecodeError::TrailingBytes)
        }
    } else {
        match spec_read_entry(s[0], s.skip(1)) {
            Ok((v, n)) => {
                proof {
                    lemma_read_value_fits(opcode_kind(s[0]).unwrap(), s.skip(1));
                }
                decode_from(apply_entry(c, s[0], v), s.skip(1 + n as int))
            },
            Err(e) => Err(e),
        }
    }
}

/// The definition of item `id` that the bytes `s` give.
pub open spec fn spec_decode(id: u32, s: Seq<u8>) -> Result<ItemConfigView, DecodeError> {
    decode_from(ItemConfigView::empty(id), s)
}

/// Reads a value of kind `k`.
fn read_value(buffer: &mut Buffer, k: Kind) -> (r: Result<Value, DecodeError>)
    ensures
        decode_outcome(old(buffer)@, final(buffer)@, spec_read_value(k, old(buffer)@), result_view(r)),
{
    let ghost s = buffer@;
    match k {
        Kind::Flag => {
            assert(s.skip(0) =~= s);
            Ok(Value::Flag)
        },
        Kind::UByte => Ok(Value::UByte(buffer.read_unsigned_byte()?)),
        Kind::Byte => Ok(Value::Byte(buffer.read_byte()?)),
        Kind::UShort => Ok(Value::UShort(buffer.read_unsigned_short()?)),
        Kind::MaskedIndex => Ok(Value::UShort(buffer.read_masked_index()?)),
        Kind::ShortPair => {
            let a = buffer.read_unsigned_short()?;
            let b = buffer.read_unsigned_short()?;
            assert(buffer@ =~= s.skip(4));
            Ok(Value::ShortPair(a, b))
        },
        Kind::Medium => Ok(Value::Medium(buffer.read_3_unsigned_bytes()?)),
        Kind::Int => Ok(Value::Int(buffer.read_int()?)),
        Kind::Model => match buffer.read_smart32()? {
            Some(m) => Ok(Value::Model(m)),
            None => Err(DecodeError::MissingModel),
        },
        Kind::Text => Ok(Value::Text(buffer.read_string()?)),
        Kind::Colours => Ok(Value::Colours(ColourReplacements::try_deserialize(buffer)?)),
        Kind::Textures => Ok(Value::Textures(Textures::try_deserialize(buffer)?)),
        Kind::Palette => Ok(Value::Palette(RecolourPalette::try_deserialize(buffer)?)),
        Kind::Quests => Ok(Value::Quests(Quests::try_deserialize(buffer)?)),
        Kind::Params => Ok(Value::Params(ParamTable::try_deserialize(buffer)?)),
    }
}

/// The definition that applying one entry, of opcode `op` and value `v`, to `c`
/// gives. Each field is written out on its own: it changes only for the
/// opcodes that set it.
pub open spec fn apply_entry(c: ItemConfigView, op: u8, v: ValueView) -> ItemConfigView {
    ItemConfigView {
        id: c.id,
        base_model: match op {
            1 => Some(value_model(v)),
            _ => c.base_model,
        },
        name: match op {
            2 => Some(value_text(v)),
            _ => c.name,
        },
        buff_effect: match op {
            3 => Some(value_text(v)),
            _ => c.buff_effect,
        },
        rotation: match op {
            4 => Some(Rotation { yaw: value_u16(v), ..rotation_or_zero(c.rotation) }),
            5 => Some(Rotation { pitch: value_u16(v), ..rotation_or_zero(c.rotation) }),
            6 => Some(Rotation { roll: value_u16(v), ..rotation_or_zero(c.rotation) }),
            _ => c.rotation,
        },
        translation: match op {
            7 => Some(Translation { x: value_u16(v), ..translation_or_zero(c.translation) }),
            8 => Some(Translation { y: value_u16(v), ..translation_or_zero(c.translation) }),
            _ => c.translation,
        },
        stackable: match op {
            11 => Some(true),
            _ => c.stackable,
        },
        value: match op {
            12 => Some(value_i32(v)),
            _ => c.value,
        },
        equipslot_id: match op {
            13 => Some(value_u8(v)),
            _ => c.equipslot_id,
        },
        equip_id: match op {
            14 => Some(value_u8(v)),
            _ => c.equip_id,
        },
        unknown_15: match op {
            15 => Some(true),
            _ => c.unknown_15,
        },
        is_members: match op {
            16 => Some(true),
            _ => c.is_members,
        },
        multi_stack_size: c.multi_stack_size,
        male_models: match op {
            23 => fill_slot(c.male_models, 3, 0, Some(value_model(v))),
            24 => fill_slot(c.male_models, 3, 1, Some(value_model(v))),
            78 => fill_slot(c.male_models, 3, 2, Some(value_model(v))),
            _ => c.male_models,
        },
        female_models: match op {
            25 => fill_slot(c.female_models, 3, 0, Some(value_model(v))),
            26 => fill_slot(c.female_models, 3, 1, Some(value_model(v))),
            79 => fill_slot(c.female_models, 3, 2, Some(value_model(v))),
            _ => c.female_models,
        },
        unknown_27: match op {
            27 => Some(value_u8(v)),
            _ => c.unknown_27,
        },
        ground_actions: match op {
            30 => fill_slot(c.ground_actions, 5, 0, Some(value_text(v))),
            31 => fill_slot(c.ground_actions, 5, 1, Some(value_text(v))),
            32 => fill_slot(c.ground_actions, 5, 2, Some(value_text(v))),
            33 => fill_slot(c.ground_actions, 5, 3, Some(value_text(v))),
            34 => fill_slot(c.ground_actions, 5, 4, Some(value_text(v))),
            _ => c.ground_actions,
        },
        widget_actions: match op {
            35 => fill_slot(c.widget_actions, 5, 0, Some(value_text(v))),
            36 => fill_slot(c.widget_actions, 5, 1, Some(value_text(v))),
            37 => fill_slot(c.widget_actions, 5, 2, Some(value_text(v))),
            38 => fill_slot(c.widget_actions, 5, 3, Some(value_text(v))),
            39 => fill_slot(c.widget_actions, 5, 4, Some(value_text(v))),
            _ => c.widget_actions,
        },
        colour_replacements: match op {
            40 => Some(value_colours(v)),
            _ => c.colour_replacements,
        },
        textures: match op {
            41 => Some(value_textures(v)),
            _ => c.textures,
        },
        recolour_palette: match op {
            42 => Some(value_palette(v)),
            _ => c.recolour_palette,
        },
        name_color: c.name_color,
        recolour_indices: match op {
            44 => Some(value_u16(v)),
            _ => c.recolour_indices,
        },
        retexture_indices: match op {
            45 => Some(value_u16(v)),
            _ => c.retexture_indices,
        },
        is_tradeable: match op {
            65 => Some(true),
            _ => c.is_tradeable,
        },
        ge_buy_limit: match op {
            69 => Some(value_i32(v)),
            _ => c.ge_buy_limit,
        },
        male_head_models: match op {
            90 => fill_slot(c.male_head_models, 2, 0, Some(value_model(v))),
            92 => fill_slot(c.male_head_models, 2, 1, Some(value_model(v))),
            _ => c.male_head_models,
        },
        female_head_models: match op {
            91 => fill_slot(c.female_head_models, 2, 0, Some(value_model(v))),
            93 => fill_slot(c.female_head_models, 2, 1, Some(value_model(v))),
            _ => c.female_head_models,
        },
        category: match op {
            94 => Some(value_u16(v)),
            _ => c.category,
        },
        model_yaw: match op {
            95 => Some(value_u16(v)),
            _ => c.model_yaw,
        },
        dummy_item: match op {
            96 => Some(value_u8(v)),
            _ => c.dummy_item,
        },
        note_data: match op {
            97 => Some(value_u16(v)),
            _ => c.note_data,
        },
        note_template: match op {
            98 => Some(value_u16(v)),
            _ => c.note_template,
        },
        stack_info: match op {
            100 => fill_slot(c.stack_info, 10, 0, Some(value_pair(v))),
            101 => fill_slot(c.stack_info, 10, 1, Some(value_pair(v))),
            102 => fill_slot(c.stack_info, 10, 2, Some(value_pair(v))),
            103 => fill_slot(c.stack_info, 10, 3, Some(value_pair(v))),
            104 => fill_slot(c.stack_info, 10, 4, Some(value_pair(v))),
            105 => fill_slot(c.stack_info, 10, 5, Some(value_pair(v))),
            106 => fill_slot(c.stack_info, 10, 6, Some(value_pair(v))),
            107 => fill_slot(c.stack_info, 10, 7, Some(value_pair(v))),
            108 => fill_slot(c.stack_info, 10, 8, Some(value_pair(v))),
            109 => fill_slot(c.stack_info, 10, 9, Some(value_pair(v))),
            _ => c.stack_info,
        },
        scale: match op {
            110 => fill_slot(c.scale, 3, 0, Some(value_u16(v))),
            111 => fill_slot(c.scale, 3, 1, Some(value_u16(v))),
            112 => fill_slot(c.scale, 3, 2, Some(value_u16(v))),
            _ => c.scale,
        },
        contrast: match op {
            114 => Some(value_i8(v)),
            _ => c.contrast,
        },
        team: match op {
            115 => Some(value_u8(v)),
            _ => c.team,
        },
        ambiance: match op {
            113 => Some(value_i8(v)),
            _ => c.ambiance,
        },
        loan_id: match op {
            121 => Some(value_u16(v)),
            _ => c.loan_id,
        },
        loan_template: match op {
            122 => Some(value_u16(v)),
            _ => c.loan_template,
        },
        male_translate: match op {
            125 => Some(value_medium(v)),
            _ => c.male_translate,
        },
        female_translate: match op {
            126 => Some(value_medium(v)),
            _ => c.female_translate,
        },
        quests: match op {
            132 => Some(value_quests(v)),
            _ => c.quests,
        },
        pick_size_shift: match op {
            134 => Some(value_u8(v)),
            _ => c.pick_size_shift,
        },
        unknown_bind_link: match op {
            139 => Some(value_u16(v)),
            _ => c.unknown_bind_link,
        },
        bind_template: match op {
            140 => Some(value_u16(v)),
            _ => c.bind_template,
        },
        ground_action_cursor: match op {
            142 => fill_slot(c.ground_action_cursor, 5, 0, Some(value_u16(v))),
            143 => fill_slot(c.ground_action_cursor, 5, 1, Some(value_u16(v))),
            144 => fill_slot(c.ground_action_cursor, 5, 2, Some(value_u16(v))),
            145 => fill_slot(c.ground_action_cursor, 5, 3, Some(value_u16(v))),
            146 => fill_slot(c.ground_action_cursor, 5, 4, Some(value_u16(v))),
            _ => c.ground_action_cursor,
        },
        widget_action_cursor: match op {
            150 => fill_slot(c.widget_action_cursor, 5, 0, Some(value_u16(v))),
            151 => fill_slot(c.widget_action_cursor, 5, 1, Some(value_u16(v))),
            152 => fill_slot(c.widget_action_cursor, 5, 2, Some(value_u16(v))),
            153 => fill_slot(c.widget_action_cursor, 5, 3, Some(value_u16(v))),
            154 => fill_slot(c.widget_action_cursor, 5, 4, Some(value_u16(v))),
            _ => c.widget_action_cursor,
        },
        dummy: c.dummy,
        randomize_ground_pos: match op {
            157 => Some(true),
            _ => c.randomize_ground_pos,
        },
        combine_info: match op {
            161 => Some(value_u16(v)),
            _ => c.combine_info,
        },
        combine_template: match op {
            162 => Some(value_u16(v)),
            _ => c.combine_template,
        },
        combine_num_required: match op {
            163 => Some(value_u16(v)),
            _ => c.combine_num_required,
        },
        combine_shard_name: match op {
            164 => Some(value_text(v)),
            _ => c.combine_shard_name,
        },
        never_stackable: match op {
            165 => Some(true),
            _ => c.never_stackable,
        },
        unknown_167: match op {
            167 => Some(true),
            _ => c.unknown_167,
        },
        unknown_168: match op {
            168 => Some(true),
            _ => c.unknown_168,
        },
        params: match op {
            249 => Some(value_params(v)),
            _ => c.params,
        },
    }
}

/// The kind of value that follows opcode `op`, or `None` where the format
/// does not define the opcode.
pub open spec fn opcode_kind(op: u8) -> Option<Kind> {
    match op {
        1 => Some(Kind::Model),
        2 => Some(Kind::Text),
        3 => Some(Kind::Text),
        4 => Some(Kind::UShort),
        5 => Some(Kind::UShort),
        6 => Some(Kind::UShort),
        7 => Some(Kind::UShort),
        8 => Some(Kind::UShort),
        11 => Some(Kind::Flag),
        12 => Some(Kind::Int),
        13 => Some(Kind::UByte),
        14 => Some(Kind::UByte),
        15 => Some(Kind::Flag),
        16 => Some(Kind::Flag),
        23 => Some(Kind::Model),
        24 => Some(Kind::Model),
        25 => Some(Kind::Model),
        26 => Some(Kind::Model),
        27 => Some(Kind::UByte),
        30 => Some(Kind::Text),
        31 => Some(Kind::Text),
        32 => Some(Kind::Text),
        33 => Some(Kind::Text),
        34 => Some(Kind::Text),
        35 => Some(Kind::Text),
        36 => Some(Kind::Text),
        37 => Some(Kind::Text),
        38 => Some(Kind::Text),
        39 => Some(Kind::Text),
        40 => Some(Kind::Colours),
        41 => Some(Kind::Textures),
        42 => Some(Kind::Palette),
        44 => Some(Kind::MaskedIndex),
        45 => Some(Kind::MaskedIndex),
        65 => Some(Kind::Flag),
        69 => Some(Kind::Int),
        78 => Some(Kind::Model),
        79 => Some(Kind::Model),
        90 => Some(Kind::Model),
        91 => Some(Kind::Model),
        92 => Some(Kind::Model),
        93 => Some(Kind::Model),
        94 => Some(Kind::UShort),
        95 => Some(Kind::UShort),
        96 => Some(Kind::UByte),
        97 => Some(Kind::UShort),
        98 => Some(Kind::UShort),
        100 => Some(Kind::ShortPair),
        101 => Some(Kind::ShortPair),
        102 => Some(Kind::ShortPair),
        103 => Some(Kind::ShortPair),
        104 => Some(Kind::ShortPair),
        105 => Some(Kind::ShortPair),
        106 => Some(Kind::ShortPair),
        107 => Some(Kind::ShortPair),
        108 => Some(Kind::ShortPair),
        109 => Some(Kind::ShortPair),
        110 => Some(Kind::UShort),
        111 => Some(Kind::UShort),
        112 => Some(Kind::UShort),
        113 => Some(Kind::Byte),
        114 => Some(Kind::Byte),
        115 => Some(Kind::UByte),
        121 => Some(Kind::UShort),
        122 => Some(Kind::UShort),
        125 => Some(Kind::Medium),
        126 => Some(Kind::Medium),
        132 => Some(Kind::Quests),
        134 => Some(Kind::UByte),
        139 => Some(Kind::UShort),
        140 => Some(Kind::UShort),
        142 => Some(Kind::UShort),
        143 => Some(Kind::UShort),
        144 => Some(Kind::UShort),
        145 => Some(Kind::UShort),
        146 => Some(Kind::UShort),
        150 => Some(Kind::UShort),
        151 => Some(Kind::UShort),
        152 => Some(Kind::UShort),
        153 => Some(Kind::UShort),
        154 => Some(Kind::UShort),
        157 => Some(Kind::Flag),
        161 => Some(Kind::UShort),
        162 => Some(Kind::UShort),
        163 => Some(Kind::UShort),
        164 => Some(Kind::Text),
        165 => Some(Kind::Flag),
        167 => Some(Kind::Flag),
        168 => Some(Kind::Flag),
        249 => Some(Kind::Params),
        _ => None,
    }
}

/// The kind of value that follows opcode `op`, or `None` where the format
/// does not define the opcode.
pub fn kind_of(op: u8) -> (k: Option<Kind>)
    ensures
        k == opcode_kind(op),
{
    match op {
        1 => Some(Kind::Model),
        2 => Some(Kind::Text),
        3 => Some(Kind::Text),
        4 => Some(Kind::UShort),
        5 => Some(Kind::UShort),
        6 => Some(Kind::UShort),
        7 => Some(Kind::UShort),
        8 => Some(Kind::UShort),
        11 => Some(Kind::Flag),
        12 => Some(Kind::Int),
        13 => Some(Kind::UByte),
        14 => Some(Kind::UByte),
        15 => Some(Kind::Flag),
        16 => Some(Kind::Flag),
        23 => Some(Kind::Model),
        24 => Some(Kind::Model),
        25 => Some(Kind::Model),
        26 => Some(Kind::Model),
        27 => Some(Kind::UByte),
        30 => Some(Kind::Text),
        31 => Some(Kind::Text),
        32 => Some(Kind::Text),
        33 => Some(Kind::Text),
        34 => Some(Kind::Text),
        35 => Some(Kind::Text),
        36 => Some(Kind::Text),
        37 => Some(Kind::Text),
        38 => Some(Kind::Text),
        39 => Some(Kind::Text),
        40 => Some(Kind::Colours),
        41 => Some(Kind::Textures),
        42 => Some(Kind::Palette),
        44 => Some(Kind::MaskedIndex),
        45 => Some(Kind::MaskedIndex),
        65 => Some(Kind::Flag),
        69 => Some(Kind::Int),
        78 => Some(Kind::Model),
        79 => Some(Kind::Model),
        90 => Some(Kind::Model),
        91 => Some(Kind::Model),
        92 => Some(Kind::Model),
        93 => Some(Kind::Model),
        94 => Some(Kind::UShort),
        95 => Some(Kind::UShort),
        96 => Some(Kind::UByte),
        97 => Some(Kind::UShort),
        98 => Some(Kind::UShort),
        100 => Some(Kind::ShortPair),
        101 => Some(Kind::ShortPair),
        102 => Some(Kind::ShortPair),
        103 => Some(Kind::ShortPair),
        104 => Some(Kind::ShortPair),
        105 => Some(Kind::ShortPair),
        106 => Some(Kind::ShortPair),
        107 => Some(Kind::ShortPair),
        108 => Some(Kind::ShortPair),
        109 => Some(Kind::ShortPair),
        110 => Some(Kind::UShort),
        111 => Some(Kind::UShort),
        112 => Some(Kind::UShort),
        113 => Some(Kind::Byte),
        114 => Some(Kind::Byte),
        115 => Some(Kind::UByte),
        121 => Some(Kind::UShort),
        122 => Some(Kind::UShort),
        125 => Some(Kind::Medium),
        126 => Some(Kind::Medium),
        132 => Some(Kind::Quests),
        134 => Some(Kind::UByte),
        139 => Some(Kind::UShort),
        140 => Some(Kind::UShort),
        142 => Some(Kind::UShort),
        143 => Some(Kind::UShort),
        144 => Some(Kind::UShort),
        145 => Some(Kind::UShort),
        146 => Some(Kind::UShort),
        150 => Some(Kind::UShort),
        151 => Some(Kind::UShort),
        152 => Some(Kind::UShort),
        153 => Some(Kind::UShort),
        154 => Some(Kind::UShort),
        157 => Some(Kind::Flag),
        161 => Some(Kind::UShort),
        162 => Some(Kind::UShort),
        163 => Some(Kind::UShort),
        164 => Some(Kind::Text),
        165 => Some(Kind::Flag),
        167 => Some(Kind::Flag),
        168 => Some(Kind::Flag),
        249 => Some(Kind::Params),
        _ => None,
    }
}

impl ItemConfig {
    /// Applies one entry, of opcode `op` and value `v`, as `apply_entry` says.
    fn apply(&mut self, op: u8, v: Value)
        requires
            opcode_kind(op) matches Some(k) && value_fits(k, v@),
        ensures
            final(self)@ == apply_entry(old(self)@, op, v@),
    {
        match op {
            1 => {
                self.base_model = Some(into_model(v));
            },
            2 => {
                self.name = Some(into_text(v));
            },
            3 => {
                self.buff_effect = Some(into_text(v));
            },
            4 => {
                let mut r = self.rotation.unwrap_or(Rotation { yaw: 0, pitch: 0, roll: 0 }); r.yaw = into_u16(v); self.rotation = Some(r);
            },
            5 => {
                let mut r = self.rotation.unwrap_or(Rotation { yaw: 0, pitch: 0, roll: 0 }); r.pitch = into_u16(v); self.rotation = Some(r);
            },
            6 => {
                let mut r = self.rotation.unwrap_or(Rotation { yaw: 0, pitch: 0, roll: 0 }); r.roll = into_u16(v); self.rotation = Some(r);
            },
            7 => {
                let mut t = self.translation.unwrap_or(Translation { x: 0, y: 0 }); t.x = into_u16(v); self.translation = Some(t);
            },
            8 => {
                let mut t = self.translation.unwrap_or(Translation { x: 0, y: 0 }); t.y = into_u16(v); self.translation = Some(t);
            },
            11 => {
                self.stackable = Some(true);
            },
            12 => {
                self.value = Some(into_i32(v));
            },
            13 => {
                self.equipslot_id = Some(into_u8(v));
            },
            14 => {
                self.equip_id = Some(into_u8(v));
            },
            15 => {
                self.unknown_15 = Some(true);
            },
            16 => {
                self.is_members = Some(true);
            },
            23 => {
                self.male_models = set_slot(self.male_models, 0, into_model(v));
            },
            24 => {
                self.male_models = set_slot(self.male_models, 1, into_model(v));
            },
            25 => {
                self.female_models = set_slot(self.female_models, 0, into_model(v));
            },
            26 => {
                self.female_models = set_slot(self.female_models, 1, into_model(v));
            },
            27 => {
                self.unknown_27 = Some(into_u8(v));
            },
            30 => {
                self.ground_actions = set_text_slot(self.ground_actions.take(), 0, into_text(v));
            },
            31 => {
                self.ground_actions = set_text_slot(self.ground_actions.take(), 1, into_text(v));
            },
            32 => {
                self.ground_actions = set_text_slot(self.ground_actions.take(), 2, into_text(v));
            },
            33 => {
                self.ground_actions = set_text_slot(self.ground_actions.take(), 3, into_text(v));
            },
            34 => {
                self.ground_actions = set_text_slot(self.ground_actions.take(), 4, into_text(v));
            },
            35 => {
                self.widget_actions = set_text_slot(self.widget_actions.take(), 0, into_text(v));
            },
            36 => {
                self.widget_actions = set_text_slot(self.widget_actions.take(), 1, into_text(v));
            },
            37 => {
                self.widget_actions = set_text_slot(self.widget_actions.take(), 2, into_text(v));
            },
            38 => {
                self.widget_actions = set_text_slot(self.widget_actions.take(), 3, into_text(v));
            },
            39 => {
                self.widget_actions = set_text_slot(self.widget_actions.take(), 4, into_text(v));
            },
            40 => {
                self.colour_replacements = Some(into_colours(v));
            },
            41 => {
                self.textures = Some(into_textures(v));
            },
            42 => {
                self.recolour_palette = Some(into_palette(v));
            },
            44 => {
                self.recolour_indices = Some(into_u16(v));
            },
            45 => {
                self.retexture_indices = Some(into_u16(v));
            },
            65 => {
                self.is_tradeable = Some(true);
            },
            69 => {
                self.ge_buy_limit = Some(into_i32(v));
            },
            78 => {
                self.male_models = set_slot(self.male_models, 2, into_model(v));
            },
            79 => {
                self.female_models = set_slot(self.female_models, 2, into_model(v));
            },
            90 => {
                self.male_head_models = set_slot(self.male_head_models, 0, into_model(v));
            },
            91 => {
                self.female_head_models = set_slot(self.female_head_models, 0, into_model(v));
            },
            92 => {
                self.male_head_models = set_slot(self.male_head_models, 1, into_model(v));
            },
            93 => {
                self.female_head_models = set_slot(self.female_head_models, 1, into_model(v));
            },
            94 => {
                self.category = Some(into_u16(v));
            },
            95 => {
                self.model_yaw = Some(into_u16(v));
            },
            96 => {
                self.dummy_item = Some(into_u8(v));
            },
            97 => {
                self.note_data = Some(into_u16(v));
            },
            98 => {
                self.note_template = Some(into_u16(v));
            },
            100 => {
                self.stack_info = set_slot(self.stack_info, 0, into_pair(v));
            },
            101 => {
                self.stack_info = set_slot(self.stack_info, 1, into_pair(v));
            },
            102 => {
                self.stack_info = set_slot(self.stack_info, 2, into_pair(v));
            },
            103 => {
                self.stack_info = set_slot(self.stack_info, 3, into_pair(v));
            },
            104 => {
                self.stack_info = set_slot(self.stack_info, 4, into_pair(v));
            },
            105 => {
                self.stack_info = set_slot(self.stack_info, 5, into_pair(v));
            },
            106 => {
                self.stack_info = set_slot(self.stack_info, 6, into_pair(v));
            },
            107 => {
                self.stack_info = set_slot(self.stack_info, 7, into_pair(v));
            },
            108 => {
                self.stack_info = set_slot(self.stack_info, 8, into_pair(v));
            },
            109 => {
                self.stack_info = set_slot(self.stack_info, 9, into_pair(v));
            },
            110 => {
                self.scale = set_slot(self.scale, 0, into_u16(v));
            },
            111 => {
                self.scale = set_slot(self.scale, 1, into_u16(v));
            },
            112 => {
                self.scale = set_slot(self.scale, 2, into_u16(v));
            },
            113 => {
                self.ambiance = Some(into_i8(v));
            },
            114 => {
                self.contrast = Some(into_i8(v));
            },
            115 => {
                self.team = Some(into_u8(v));
            },
            121 => {
                self.loan_id = Some(into_u16(v));
            },
            122 => {
                self.loan_template = Some(into_u16(v));
            },
            125 => {
                self.male_translate = Some(into_medium(v));
            },
            126 => {
                self.female_translate = Some(into_medium(v));
            },
            132 => {
                self.quests = Some(into_quests(v));
            },
            134 => {
                self.pick_size_shift = Some(into_u8(v));
            },
            139 => {
                self.unknown_bind_link = Some(into_u16(v));
            },
            140 => {
                self.bind_template = Some(into_u16(v));
            },
            142 => {
                self.ground_action_cursor = set_slot(self.ground_action_cursor, 0, into_u16(v));
            },
            143 => {
                self.ground_action_cursor = set_slot(self.ground_action_cursor, 1, into_u16(v));
            },
            144 => {
                self.ground_action_cursor = set_slot(self.ground_action_cursor, 2, into_u16(v));
            },
            145 => {
                self.ground_action_cursor = set_slot(self.ground_action_cursor, 3, into_u16(v));
            },
            146 => {
                self.ground_action_cursor = set_slot(self.ground_action_cursor, 4, into_u16(v));
            },
            150 => {
                self.widget_action_cursor = set_slot(self.widget_action_cursor, 0, into_u16(v));
            },
            151 => {
                self.widget_action_cursor = set_slot(self.widget_action_cursor, 1, into_u16(v));
            },
            152 => {
                self.widget_action_cursor = set_slot(self.widget_action_cursor, 2, into_u16(v));
            },
            153 => {
                self.widget_action_cursor = set_slot(self.widget_action_cursor, 3, into_u16(v));
            },
            154 => {
                self.widget_action_cursor = set_slot(self.widget_action_cursor, 4, into_u16(v));
            },
            157 => {
                self.randomize_ground_pos = Some(true);
            },
            161 => {
                self.combine_info = Some(into_u16(v));
            },
            162 => {
                self.combine_template = Some(into_u16(v));
            },
            163 => {
                self.combine_num_required = Some(into_u16(v));
            },
            164 => {
                self.combine_shard_name = Some(into_text(v));
            },
            165 => {
                self.never_stackable = Some(true);
            },
            167 => {
                self.unknown_167 = Some(true);
            },
            168 => {
                self.unknown_168 = Some(true);
            },
            249 => {
                self.params = Some(into_params(v));
            },
            _ => {},
        }
    }
}

impl ItemConfig {
    /// Decodes the definition of item `id` from `file`, or says why the
    /// bytes are not one.
    pub fn try_deserialize(id: u32, file: Vec<u8>) -> (r: Result<Self, DecodeError>)
        ensures
            result_view(r) == spec_decode(id, file@),
    {
        let ghost s = file@;
        let mut buffer = Buffer::new(file);
        let mut item = Self::default();
        item.id = id;
        assert(item@ == ItemConfigView::empty(id));
        loop
            invariant
                s == file@,
                spec_decode(id, s) == decode_from(item@, buffer@),
            decreases buffer@.len(),
        {
            let ghost before = buffer@;
            let opcode = buffer.read_unsigned_byte()?;
            if opcode == 0 {
                if buffer.remaining() == 0 {
                    return Ok(item);
                } else {
                    return Err(DecodeError::TrailingBytes);
                }
            }
            let kind = match kind_of(opcode) {
                Some(k) => k,
                None => return Err(DecodeError::UnknownOpcode(opcode)),
            };
            let ghost rest = buffer@;
            let value = read_value(&mut buffer, kind)?;
            proof {
                lemma_read_value_fits(kind, rest);
                let n = spec_read_value(kind, rest).unwrap().1;
                assert(buffer@ =~= before.skip(1 + n as int));
            }
            item.apply(opcode, value);
        }
    }

    /// Decodes the definition of item `id` from `file`.
    pub fn deserialize(id: u32, file: Vec<u8>) -> (r: Self)
        requires
            spec_decode(id, file@) is Ok,
        ensures
            spec_decode(id, file@) == Ok::<ItemConfigView, DecodeError>(r@),
    {
        match Self::try_deserialize(id, file) {
            Ok(r) => r,
            Err(_) => unreached(),
        }
    }
}

/// The id of the definition stored as file `file_id` of archive `archive_id`.
pub open spec fn config_id(archive_id: u32, file_id: u32) -> u32 {
    archive_id << 8u32 | file_id
}

/// The id of the definition stored as file `file_id` of archive `archive_id`.
pub fn compute_config_id(archive_id: u32, file_id: u32) -> (id: u32)
    ensures
        id == config_id(archive_id, file_id),
{
    archive_id << 8u32 | file_id
}

/// The files of `archives` in order, each with the id of its definition.
pub open spec fn archive_files(archives: Seq<(u32, Seq<(u32, Seq<u8>)>)>) -> Seq<(u32, Seq<u8>)>
    decreases archives.len(),
{
    if archives.len() == 0 {
        Seq::empty()
    } else {
        let (archive_id, files) = archives.last();
        archive_files(archives.drop_last()) + files.map_values(
            |f: (u32, Seq<u8>)| (config_id(archive_id, f.0), f.1),
        )
    }
}

/// The definitions of `files` by id, decoded in order, where a later file
/// of an id replaces an earlier one; or the id of the first file that does
/// not decode, with the reason.
pub open spec fn spec_dump(files: Seq<(u32, Seq<u8>)>) -> Result<
    Map<u32, ItemConfigView>,
    (u32, DecodeError),
>
    decreases files.len(),
{
    if files.len() == 0 {
        Ok(Map::empty())
    } else {
        match spec_dump(files.drop_last()) {
            Ok(m) => match spec_decode(files.last().0, files.last().1) {
                Ok(c) => Ok(m.insert(files.last().0, c)),
                Err(e) => Err((files.last().0, e)),
            },
            Err(e) => Err(e),
        }
    }
}

/// The files of two runs of archives are those of the first, then those of
/// the second.
proof fn lemma_archive_files_append(x: Seq<(u32, Seq<(u32, Seq<u8>)>)>, y: Seq<(u32, Seq<(u32, Seq<u8>)>)>)
    ensures
        archive_files(x + y) == archive_files(x) + archive_files(y),
    decreases y.len(),
{
    if y.len() == 0 {
        assert(x + y =~= x);
        assert(archive_files(x) + archive_files(y) =~= archive_files(x));
    } else {
        lemma_archive_files_append(x, y.drop_last());
        assert((x + y).drop_last() =~= x + y.drop_last());
        assert((x + y).last() == y.last());
        let m = y.last().1.map_values(|f: (u32, Seq<u8>)| (config_id(y.last().0, f.0), f.1));
        assert(archive_files(x) + archive_files(y.drop_last()) + m =~= archive_files(x) + (
        archive_files(y.drop_last()) + m));
    }
}

/// The files of `archives` are those before archive `done`, then the first
/// `fdone + 1` files of that archive, then the rest.
proof fn lemma_archive_files_split(archives: Seq<(u32, Seq<(u32, Seq<u8>)>)>, done: int, fdone: int) -> (tail: Seq<(u32, Seq<u8>)>)
    requires
        0 <= done < archives.len(),
        0 <= fdone < archives[done].1.len(),
    ensures
        archive_files(archives) == archive_files(archives.take(done)) + archives[done].1.take(fdone + 1).map_values(
            |f: (u32, Seq<u8>)| (config_id(archives[done].0, f.0), f.1),
        ) + tail,
{
    let (archive_id, files) = archives[done];
    let mapf = |f: (u32, Seq<u8>)| (config_id(archive_id, f.0), f.1);
    let tail = files.skip(fdone + 1).map_values(mapf) + archive_files(archives.skip(done + 1));
    assert(files.map_values(mapf) =~= files.take(fdone + 1).map_values(mapf) + files.skip(fdone + 1).map_values(mapf));
    assert(archives =~= archives.take(done + 1) + archives.skip(done + 1));
    lemma_archive_files_append(archives.take(done + 1), archives.skip(done + 1));
    assert(archives.take(done + 1).drop_last() =~= archives.take(done));
    assert(archive_files(archives.take(done + 1)) == archive_files(archives.take(done)) + files.map_values(mapf));
    assert(archive_files(archives) =~= archive_files(archives.take(done)) + files.take(fdone + 1).map_values(mapf) + tail);
    tail
}

/// Once a file does not decode, no file after it changes the outcome.
proof fn lemma_dump_err_prefix(a: Seq<(u32, Seq<u8>)>, b: Seq<(u32, Seq<u8>)>)
    requires
        spec_dump(a) is Err,
    ensures
        spec_dump(a + b) == spec_dump(a),
    decreases b.len(),
{
    if b.len() == 0 {
        assert(a + b =~= a);
    } else {
        lemma_dump_err_prefix(a, b.drop_last());
        assert((a + b).drop_last() =~= a + b.drop_last());
    }
}

/// The view of a map of definitions.
pub open spec fn configs_view(m: BTreeMap<u32, ItemConfig>) -> Map<u32, ItemConfigView> {
    m@.map_values(|c: ItemConfig| c@)
}

impl ItemConfig {
    /// Decodes every file of `archives` (pairs of an archive id and its files,
    /// each a file id and its bytes) into a map by id, as `spec_dump` says.
    pub fn dump_all(archives: Vec<(u32, Vec<(u32, Vec<u8>)>)>) -> (r: Result<
        BTreeMap<u32, ItemConfig>,
        (u32, DecodeError),
    >)
        ensures
            match (r, spec_dump(archive_files(archives.deep_view()))) {
                (Ok(m), Ok(sm)) => configs_view(m) == sm,
                (Err(e), Err(se)) => e == se,
                _ => false,
            },
    {
        let ghost all = archives.deep_view();
        let mut pending = archives;
        let mut configs: BTreeMap<u32, ItemConfig> = BTreeMap::new();
        let ghost mut done: int = 0;
        assert(archive_files(all.take(0)) =~= Seq::<(u32, Seq<u8>)>::empty());
        assert(configs_view(configs) =~= Map::empty());
        while pending.len() > 0
            invariant
                0 <= done <= all.len(),
                all == archives.deep_view(),
                pending.deep_view() == all.skip(done as int),
                spec_dump(archive_files(all.take(done as int))) == Ok::<
                    Map<u32, ItemConfigView>,
                    (u32, DecodeError),
                >(configs_view(configs)),
            decreases pending.len(),
        {
            let ghost before = pending.deep_view();
            let (archive_id, files) = pending.remove(0);
            proof {
                assert(pending.deep_view() =~= before.drop_first());
                assert(before[0] == all[done]);
                assert(all[done] == (archive_id, files.deep_view()));
            }
            let mut files = files;
            let ghost all_files = files.deep_view();
            let ghost prefix = archive_files(all.take(done as int));
            let ghost mut fdone: int = 0;
            assert(all_files.take(0).map_values(
                |f: (u32, Seq<u8>)| (config_id(archive_id, f.0), f.1),
            ) =~= Seq::<(u32, Seq<u8>)>::empty());
            assert(prefix + Seq::<(u32, Seq<u8>)>::empty() =~= prefix);
            while files.len() > 0
                invariant
                    0 <= fdone <= all_files.len(),
                    0 <= done < all.len(),
                    all == archives.deep_view(),
                    all[done] == (archive_id, all_files),
                    prefix == archive_files(all.take(done)),
                    files.deep_view() == all_files.skip(fdone as int),
                    spec_dump(
                        prefix + all_files.take(fdone as int).map_values(
                            |f: (u32, Seq<u8>)| (config_id(archive_id, f.0), f.1),
                        ),
                    ) == Ok::<Map<u32, ItemConfigView>, (u32, DecodeError)>(configs_view(configs)),
                decreases files.len(),
            {
                let ghost fbefore = files.deep_view();
                let ghost old_configs = configs_view(configs);
                let (file_id, bytes) = files.remove(0);
                proof {
                    assert(files.deep_view() =~= fbefore.drop_first());
                    assert(fbefore[0] == all_files[fdone]);
                    assert(bytes.deep_view() =~= bytes@);
                    assert(all_files[fdone] == (file_id, bytes@));
                }
                let id = compute_config_id(archive_id, file_id);
                let ghost seen = prefix + all_files.take(fdone as int).map_values(
                    |f: (u32, Seq<u8>)| (config_id(archive_id, f.0), f.1),
                );
                let ghost next = prefix + all_files.take(fdone + 1).map_values(
                    |f: (u32, Seq<u8>)| (config_id(archive_id, f.0), f.1),
                );
                proof {
                    assert(next.drop_last() =~= seen);
                    assert(next.last() == (id, bytes@));
                }
                match ItemConfig::try_deserialize(id, bytes) {
                    Ok(c) => {
                        configs.insert(id, c);
                        proof {
                            assert(configs_view(configs) =~= old_configs.insert(id, c@));
                            fdone = fdone + 1;
                        }
                    },
                    Err(e) => {
                        proof {
                            let tail = lemma_archive_files_split(all, done, fdone);
                            assert(spec_dump(next) == Err::<Map<u32, ItemConfigView>, (u32, DecodeError)>((id, e)));
                            lemma_dump_err_prefix(next, tail);
                            assert(spec_dump(archive_files(all)) == Err::<Map<u32, ItemConfigView>, (u32, DecodeError)>((id, e)));
                        }
                        return Err((id, e));
                    },
                }
            }
            proof {
                assert(all_files.take(fdone as int) =~= all_files);
                assert(all.take(done + 1).drop_last() =~= all.take(done as int));
                assert(all.take(done + 1).last() == (archive_id, all_files));
                done = done + 1;
            }
        }
        proof {
            assert(all.take(done as int) =~= all);
        }
        Ok(configs)
    }
}

} // verus!
