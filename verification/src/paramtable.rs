//! Tables of parameters: keys of 24 bits, each with an integer or a string.

use std::collections::BTreeMap;
use vstd::prelude::*;
use vstd::pervasive::unreached;

use crate::buffer::{
    i32_at, read_outcome, result_view, spec_read_string, u24_at, Buffer, DecodeError,
};
use crate::item_config_fields::pairs_to_map;

verus! {

broadcast use vstd::laws_cmp::group_laws_cmp;

/// The value of a parameter.
#[derive(Debug, Clone)]
pub enum Param {
    Integer(i32),
    String(String),
}

/// The value of a parameter, with a string as its characters.
pub enum ParamView {
    Integer(i32),
    String(Seq<char>),
}

impl View for Param {
    type V = ParamView;

    open spec fn view(&self) -> ParamView {
        match self {
            Param::Integer(i) => ParamView::Integer(*i),
            Param::String(s) => ParamView::String(s@),
        }
    }
}

/// One entry of a table: a type byte (1 for a string, anything else for an
/// integer), a big-endian 24-bit key, then the value: a zero-terminated
/// string or a big-endian signed 32-bit integer.
pub open spec fn spec_read_param(s: Seq<u8>) -> Option<((u32, ParamView), nat)> {
    if s.len() < 4 {
        None
    } else if s[0] == 1 {
        match spec_read_string(s.skip(4)) {
            Some((t, n)) => Some(((u24_at(s, 1), ParamView::String(t)), 4 + n)),
            None => None,
        }
    } else if s.len() >= 8 {
        Some(((u24_at(s, 1), ParamView::Integer(i32_at(s, 4))), 8))
    } else {
        None
    }
}

/// `count` entries stored one after the other from the start of `s`, and the
/// number of bytes they take.
pub open spec fn spec_read_params(s: Seq<u8>, count: nat) -> Option<(Seq<(u32, ParamView)>, nat)>
    decreases count,
{
    if count == 0 {
        Some((Seq::empty(), 0))
    } else {
        match spec_read_params(s, (count - 1) as nat) {
            Some((entries, n)) => match spec_read_param(s.skip(n as int)) {
                Some((e, k)) => Some((entries.push(e), n + k)),
                None => None,
            },
            None => None,
        }
    }
}

/// A count byte followed by that many entries; where a key occurs more than
/// once, its last entry wins.
pub open spec fn spec_read_param_table(s: Seq<u8>) -> Option<(Map<u32, ParamView>, nat)> {
    if s.len() < 1 {
        None
    } else {
        match spec_read_params(s.skip(1), s[0] as nat) {
            Some((entries, n)) => Some((pairs_to_map(entries), 1 + n)),
            None => None,
        }
    }
}

/// Once some first entries cannot be read, no more entries can.
proof fn lemma_params_none_grows(s: Seq<u8>, i: nat, j: nat)
    requires
        i <= j,
        spec_read_params(s, i) is None,
    ensures
        spec_read_params(s, j) is None,
    decreases j,
{
    if j > i {
        lemma_params_none_grows(s, i, (j - 1) as nat);
    }
}

/// What entries read from a table take: never more than the bytes there are.
proof fn lemma_params_len(s: Seq<u8>, count: nat)
    ensures
        spec_read_params(s, count) matches Some((_, n)) ==> n <= s.len(),
    decreases count,
{
    if count > 0 {
        lemma_params_len(s, (count - 1) as nat);
    }
}

/// What a table takes: never more than the bytes there are.
pub proof fn lemma_param_table_len(s: Seq<u8>)
    requires
        s.len() >= 1,
    ensures
        spec_read_param_table(s) matches Some((_, n)) ==> n <= s.len(),
{
    lemma_params_len(s.skip(1), s[0] as nat);
}

/// Reads one entry of a table.
fn read_param(buffer: &mut Buffer) -> (r: Result<(u32, Param), DecodeError>)
    ensures
        read_outcome(
            old(buffer)@,
            final(buffer)@,
            spec_read_param(old(buffer)@),
            match r {
                Ok((k, p)) => Ok((k, p@)),
                Err(e) => Err(e),
            },
        ),
{
    let ghost s = buffer@;
    let is_string = buffer.read_unsigned_byte()? == 1;
    let key = buffer.read_3_unsigned_bytes()?;
    assert(buffer@ =~= s.skip(4));
    if is_string {
        let t = buffer.read_string()?;
        assert(buffer@ =~= s.skip(4 + spec_read_string(s.skip(4)).unwrap().1 as int));
        Ok((key, Param::String(t)))
    } else {
        let v = buffer.read_int()?;
        assert(buffer@ =~= s.skip(8));
        Ok((key, Param::Integer(v)))
    }
}

/// A table of parameters.
#[derive(Debug, Clone)]
pub struct ParamTable {
    pub params: BTreeMap<u32, Param>,
}

impl View for ParamTable {
    type V = Map<u32, ParamView>;

    open spec fn view(&self) -> Map<u32, ParamView> {
        self.params@.map_values(|p: Param| p@)
    }
}

impl ParamTable {
    /// Reads a count byte and that many entries, or says why the bytes do
    /// not hold them.
    pub fn try_deserialize(buffer: &mut Buffer) -> (r: Result<Self, DecodeError>)
        ensures
            read_outcome(old(buffer)@, final(buffer)@, spec_read_param_table(old(buffer)@), result_view(r)),
    {
        let ghost s = buffer@;
        let count = buffer.read_unsigned_byte()?;
        let ghost t = s.skip(1);
        let mut params: BTreeMap<u32, Param> = BTreeMap::new();
        let ghost mut entries: Seq<(u32, ParamView)> = Seq::empty();
        let ghost mut used: nat = 0;
        let mut i: u8 = 0;
        assert(buffer@ =~= t.skip(0));
        while i < count
            invariant
                s == old(buffer)@,
                s.len() >= 1,
                count == s[0],
                t == s.skip(1),
                i <= count,
                spec_read_params(t, i as nat) == Some((entries, used)),
                used <= t.len(),
                buffer@ == t.skip(used as int),
                params@.map_values(|p: Param| p@) == pairs_to_map(entries),
            decreases count - i,
        {
            let ghost before = buffer@;
            let r = read_param(buffer);
            match r {
                Ok((k, p)) => {
                    let ghost e = (k, p@);
                    let ghost n = spec_read_param(before).unwrap().1;
                    let ghost old_params = params@;
                    params.insert(k, p);
                    proof {
                        assert(buffer@ =~= t.skip((used + n) as int));
                        let old_entries = entries;
                        entries = entries.push(e);
                        used = used + n;
                        lemma_params_len(t, (i + 1) as nat);
                        assert(entries.drop_last() =~= old_entries);
                        assert(params@ == old_params.insert(k, p));
                        assert(params@.map_values(|p: Param| p@) =~= old_params.map_values(
                            |p: Param| p@,
                        ).insert(k, p@));
                    }
                    i = i + 1;
                },
                Err(e) => {
                    proof {
                        lemma_params_none_grows(t, (i + 1) as nat, count as nat);
                    }
                    return Err(e);
                },
            }
        }
        proof {
            assert(buffer@ =~= s.skip(1 + used as int));
        }
        Ok(ParamTable { params })
    }

    /// Reads a count byte and that many entries.
    pub fn deserialize(buffer: &mut Buffer) -> (r: Self)
        requires
            spec_read_param_table(old(buffer)@) is Some,
        ensures
            read_outcome(old(buffer)@, final(buffer)@, spec_read_param_table(old(buffer)@), Ok(r@)),
    {
        match Self::try_deserialize(buffer) {
            Ok(r) => r,
            Err(_) => unreached(),
        }
    }
}

} // verus!
