//! The structures that stand in fields of an item definition, and their
//! decoders.

use std::collections::BTreeMap;
use vstd::prelude::*;
use vstd::pervasive::unreached;

use crate::buffer::{
    i8_of, read_outcome, result_view, u16_at, Buffer, DecodeError,
};

verus! {

broadcast use vstd::laws_cmp::group_laws_cmp;

/// The map that inserting `pairs` in order into an empty map gives: where a
/// key occurs more than once, the last of its pairs wins.
pub open spec fn pairs_to_map<K, V>(pairs: Seq<(K, V)>) -> Map<K, V>
    decreases pairs.len(),
{
    if pairs.len() == 0 {
        Map::empty()
    } else {
        pairs_to_map(pairs.drop_last()).insert(pairs.last().0, pairs.last().1)
    }
}

/// `count` pairs of big-endian 16-bit integers stored one after the other from `s[start]`.
pub open spec fn u16_pairs(s: Seq<u8>, start: int, count: nat) -> Seq<(u16, u16)> {
    Seq::new(count, |i: int| (u16_at(s, start + 4 * i), u16_at(s, start + 4 * i + 2)))
}

/// A count byte followed by that many pairs of big-endian 16-bit integers.
pub open spec fn spec_read_u16_pairs(s: Seq<u8>) -> Option<(Seq<(u16, u16)>, nat)> {
    if s.len() >= 1 && s.len() >= 1 + 4 * s[0] {
        Some((u16_pairs(s, 1, s[0] as nat), (1 + 4 * s[0]) as nat))
    } else {
        None
    }
}

/// A count byte followed by that many big-endian 16-bit integers.
pub open spec fn spec_read_u16_list(s: Seq<u8>) -> Option<(Seq<u16>, nat)> {
    if s.len() >= 1 && s.len() >= 1 + 2 * s[0] {
        Some((Seq::new(s[0] as nat, |i: int| u16_at(s, 1 + 2 * i)), (1 + 2 * s[0]) as nat))
    } else {
        None
    }
}

/// A count byte followed by that many signed bytes.
pub open spec fn spec_read_i8_list(s: Seq<u8>) -> Option<(Seq<i8>, nat)> {
    if s.len() >= 1 && s.len() >= 1 + s[0] {
        Some((Seq::new(s[0] as nat, |i: int| i8_of(s[1 + i])), (1 + s[0]) as nat))
    } else {
        None
    }
}

/// The textures of an item: the pairs of a count-prefixed list, as a map.
pub open spec fn spec_read_textures(s: Seq<u8>) -> Option<(Map<u16, u16>, nat)> {
    match spec_read_u16_pairs(s) {
        Some((pairs, n)) => Some((pairs_to_map(pairs), n)),
        None => None,
    }
}

/// Two big-endian 16-bit integers.
pub open spec fn spec_read_stack_info(s: Seq<u8>) -> Option<((u16, u16), nat)> {
    if s.len() >= 4 {
        Some(((u16_at(s, 0), u16_at(s, 2)), 4))
    } else {
        None
    }
}

/// The rotation of an item's model.
#[derive(PartialEq, Eq, Structural, Debug, Clone, Copy)]
pub struct Rotation {
    pub yaw: u16,
    pub pitch: u16,
    pub roll: u16,
}

impl Rotation {
    /// No rotation.
    pub open spec fn zero() -> Rotation {
        Rotation { yaw: 0, pitch: 0, roll: 0 }
    }
}

impl Default for Rotation {
    fn default() -> (r: Rotation)
        ensures
            r == Rotation::zero(),
    {
        Rotation { yaw: 0, pitch: 0, roll: 0 }
    }
}

/// The translation of an item's model.
#[derive(PartialEq, Eq, Structural, Debug, Clone, Copy)]
pub struct Translation {
    pub x: u16,
    pub y: u16,
}

impl Translation {
    /// No translation.
    pub open spec fn zero() -> Translation {
        Translation { x: 0, y: 0 }
    }
}

impl Default for Translation {
    fn default() -> (r: Translation)
        ensures
            r == Translation::zero(),
    {
        Translation { x: 0, y: 0 }
    }
}

/// Pairs of colours: each one of the model is replaced by its partner.
#[derive(Debug, Clone)]
pub struct ColourReplacements {
    pub colours: Vec<(u16, u16)>,
}

impl View for ColourReplacements {
    type V = Seq<(u16, u16)>;

    open spec fn view(&self) -> Seq<(u16, u16)> {
        self.colours@
    }
}

/// Reads a count byte and that many pairs of big-endian 16-bit integers.
fn read_u16_pairs(buffer: &mut Buffer) -> (r: Result<Vec<(u16, u16)>, DecodeError>)
    ensures
        read_outcome(old(buffer)@, final(buffer)@, spec_read_u16_pairs(old(buffer)@), result_view(r)),
{
    let ghost s = buffer@;
    let count = buffer.read_unsigned_byte()?;
    let mut pairs: Vec<(u16, u16)> = Vec::new();
    let mut i: u8 = 0;
    while i < count
        invariant
            s == old(buffer)@,
            s.len() >= 1,
            count == s[0],
            i <= count,
            1 + 4 * i <= s.len(),
            buffer@ == s.skip(1 + 4 * i),
            pairs@ == u16_pairs(s, 1, i as nat),
        decreases count - i,
    {
        let a = buffer.read_unsigned_short()?;
        let b = buffer.read_unsigned_short()?;
        pairs.push((a, b));
        i = i + 1;
        assert(buffer@ =~= s.skip(1 + 4 * i));
        assert(pairs@ =~= u16_pairs(s, 1, i as nat));
    }
    Ok(pairs)
}

impl ColourReplacements {
    /// Reads a count byte and that many pairs of colours, or says why the
    /// bytes do not hold them.
    pub fn try_deserialize(buffer: &mut Buffer) -> (r: Result<Self, DecodeError>)
        ensures
            read_outcome(old(buffer)@, final(buffer)@, spec_read_u16_pairs(old(buffer)@), result_view(r)),
    {
        let colours = read_u16_pairs(buffer)?;
        Ok(Self { colours })
    }

    /// Reads a count byte and that many pairs of colours.
    pub fn deserialize(buffer: &mut Buffer) -> (r: Self)
        requires
            spec_read_u16_pairs(old(buffer)@) is Some,
        ensures
            read_outcome(old(buffer)@, final(buffer)@, spec_read_u16_pairs(old(buffer)@), Ok(r@)),
    {
        match Self::try_deserialize(buffer) {
            Ok(r) => r,
            Err(_) => unreached(),
        }
    }
}

/// Pairs of textures: each one of the model is replaced by its partner.
#[derive(Debug, Clone)]
pub struct Textures {
    pub textures: BTreeMap<u16, u16>,
}

impl View for Textures {
    type V = Map<u16, u16>;

    open spec fn view(&self) -> Map<u16, u16> {
        self.textures@
    }
}

impl Textures {
    /// Reads a count byte and that many pairs of textures into a map, or says
    /// why the bytes do not hold them.
    pub fn try_deserialize(buffer: &mut Buffer) -> (r: Result<Textures, DecodeError>)
        ensures
            read_outcome(old(buffer)@, final(buffer)@, spec_read_textures(old(buffer)@), result_view(r)),
    {
        let pairs = read_u16_pairs(buffer)?;
        let mut textures: BTreeMap<u16, u16> = BTreeMap::new();
        let mut i: usize = 0;
        while i < pairs.len()
            invariant
                i <= pairs.len(),
                textures@ == pairs_to_map(pairs@.take(i as int)),
            decreases pairs.len() - i,
        {
            let (k, v) = pairs[i];
            textures.insert(k, v);
            assert(pairs@.take(i + 1).drop_last() =~= pairs@.take(i as int));
            i = i + 1;
        }
        assert(pairs@.take(i as int) =~= pairs@);
        Ok(Textures { textures })
    }

    /// Reads a count byte and that many pairs of textures into a map.
    pub fn deserialize(buffer: &mut Buffer) -> (r: Textures)
        requires
            spec_read_textures(old(buffer)@) is Some,
        ensures
            read_outcome(old(buffer)@, final(buffer)@, spec_read_textures(old(buffer)@), Ok(r@)),
    {
        match Self::try_deserialize(buffer) {
            Ok(r) => r,
            Err(_) => unreached(),
        }
    }
}

/// The quests that an item is tied to.
#[derive(Debug, Clone)]
pub struct Quests {
    pub quests: Vec<u16>,
}

impl View for Quests {
    type V = Seq<u16>;

    open spec fn view(&self) -> Seq<u16> {
        self.quests@
    }
}

impl Quests {
    /// Reads a count byte and that many quest ids, or says why the bytes do
    /// not hold them.
    pub fn try_deserialize(buffer: &mut Buffer) -> (r: Result<Self, DecodeError>)
        ensures
            read_outcome(old(buffer)@, final(buffer)@, spec_read_u16_list(old(buffer)@), result_view(r)),
    {
        let ghost s = buffer@;
        let count = buffer.read_unsigned_byte()?;
        let mut quests: Vec<u16> = Vec::new();
        let mut i: u8 = 0;
        while i < count
            invariant
                s == old(buffer)@,
                s.len() >= 1,
                count == s[0],
                i <= count,
                1 + 2 * i <= s.len(),
                buffer@ == s.skip(1 + 2 * i),
                quests@ == Seq::new(i as nat, |j: int| u16_at(s, 1 + 2 * j)),
            decreases count - i,
        {
            let q = buffer.read_unsigned_short()?;
            quests.push(q);
            i = i + 1;
            assert(buffer@ =~= s.skip(1 + 2 * i));
            assert(quests@ =~= Seq::new(i as nat, |j: int| u16_at(s, 1 + 2 * j)));
        }
        Ok(Self { quests })
    }

    /// Reads a count byte and that many quest ids.
    pub fn deserialize(buffer: &mut Buffer) -> (r: Self)
        requires
            spec_read_u16_list(old(buffer)@) is Some,
        ensures
            read_outcome(old(buffer)@, final(buffer)@, spec_read_u16_list(old(buffer)@), Ok(r@)),
    {
        match Self::try_deserialize(buffer) {
            Ok(r) => r,
            Err(_) => unreached(),
        }
    }
}

/// Two numbers of a stack of an item, of unknown meaning.
#[derive(Debug, Clone, Copy)]
pub struct StackInfo {
    unknown_1: u16,
    unknown_2: u16,
}

impl View for StackInfo {
    type V = (u16, u16);

    closed spec fn view(&self) -> (u16, u16) {
        (self.unknown_1, self.unknown_2)
    }
}

impl StackInfo {
    /// The first number.
    pub fn unknown_1(&self) -> (r: u16)
        ensures
            r == self@.0,
    {
        self.unknown_1
    }

    /// The second number.
    pub fn unknown_2(&self) -> (r: u16)
        ensures
            r == self@.1,
    {
        self.unknown_2
    }

    /// Reads two big-endian 16-bit integers, or says why the bytes do not
    /// hold them.
    pub fn try_deserialize(buffer: &mut Buffer) -> (r: Result<Self, DecodeError>)
        ensures
            read_outcome(old(buffer)@, final(buffer)@, spec_read_stack_info(old(buffer)@), result_view(r)),
    {
        let ghost s = buffer@;
        let unknown_1 = buffer.read_unsigned_short()?;
        let unknown_2 = buffer.read_unsigned_short()?;
        assert(buffer@ =~= s.skip(4));
        Ok(Self { unknown_1, unknown_2 })
    }

    /// Reads two big-endian 16-bit integers.
    pub fn deserialize(buffer: &mut Buffer) -> (r: Self)
        requires
            spec_read_stack_info(old(buffer)@) is Some,
        ensures
            read_outcome(old(buffer)@, final(buffer)@, spec_read_stack_info(old(buffer)@), Ok(r@)),
    {
        match Self::try_deserialize(buffer) {
            Ok(r) => r,
            Err(_) => unreached(),
        }
    }
}

/// A palette of signed recolouring values.
#[derive(Debug, Clone)]
pub struct RecolourPalette {
    pub palette: Vec<i8>,
}

impl View for RecolourPalette {
    type V = Seq<i8>;

    open spec fn view(&self) -> Seq<i8> {
        self.palette@
    }
}

impl RecolourPalette {
    /// Reads a count byte and that many signed bytes, or says why the bytes
    /// do not hold them.
    pub fn try_deserialize(buffer: &mut Buffer) -> (r: Result<Self, DecodeError>)
        ensures
            read_outcome(old(buffer)@, final(buffer)@, spec_read_i8_list(old(buffer)@), result_view(r)),
    {
        let ghost s = buffer@;
        let count = buffer.read_unsigned_byte()?;
        let mut palette: Vec<i8> = Vec::new();
        let mut i: u8 = 0;
        while i < count
            invariant
                s == old(buffer)@,
                s.len() >= 1,
                count == s[0],
                i <= count,
                1 + i <= s.len(),
                buffer@ == s.skip(1 + i),
                palette@ == Seq::new(i as nat, |j: int| i8_of(s[1 + j])),
            decreases count - i,
        {
            let b = buffer.read_byte()?;
            palette.push(b);
            i = i + 1;
            assert(buffer@ =~= s.skip(1 + i));
            assert(palette@ =~= Seq::new(i as nat, |j: int| i8_of(s[1 + j])));
        }
        Ok(Self { palette })
    }

    /// Reads a count byte and that many signed bytes.
    pub fn deserialize(buffer: &mut Buffer) -> (r: Self)
        requires
            spec_read_i8_list(old(buffer)@) is Some,
        ensures
            read_outcome(old(buffer)@, final(buffer)@, spec_read_i8_list(old(buffer)@), Ok(r@)),
    {
        match Self::try_deserialize(buffer) {
            Ok(r) => r,
            Err(_) => unreached(),
        }
    }
}

} // verus!
