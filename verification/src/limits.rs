use vstd::prelude::*;

use crate::models::{
    limit_level_code_of, limit_level_of_code, limit_period_code_of, limit_period_of_code,
    LimitLevel, LimitPeriod,
};

verus! {

/// An amount of money as it travels on the wire: a currency code and a
/// decimal written as little-endian signed digits with an exponent.
pub struct Money {
    pub currency_code: String,
    pub digits: Vec<u8>,
    pub exponent: i64,
}

/// A spending-limit table: one amount per period and level pair.
pub struct Limits {
    pub entries: Vec<((LimitPeriod, LimitLevel), Money)>,
}

/// How a period and level pair is packed into one wire key: the period
/// ordinal sits in the third byte and the level ordinal in the fourth,
/// the low two bytes staying zero.
pub open spec fn limit_key_of(period: LimitPeriod, level: LimitLevel) -> u32 {
    (limit_period_code_of(period) * 0x10000 + limit_level_code_of(level) * 0x1000000) as u32
}

/// The period and level pair a wire key unpacks to, if its two high
/// bytes hold known ordinals; the low two bytes are ignored.
pub open spec fn limit_key_unpacked(key: u32) -> Option<(LimitPeriod, LimitLevel)> {
    let pc = (key / 0x10000) % 0x100;
    let lc = key / 0x1000000;
    if limit_period_of_code(pc as u8) is Some && limit_level_of_code(lc as u8) is Some {
        Some(
            (
                limit_period_of_code(pc as u8)->0,
                limit_level_of_code(lc as u8)->0,
            ),
        )
    } else {
        None
    }
}

/// Packing a pair and unpacking the key gives the pair back.
pub proof fn lemma_limit_key_round_trip(period: LimitPeriod, level: LimitLevel)
    ensures
        limit_key_unpacked(limit_key_of(period, level)) == Some((period, level)),
{
}

/// Packs a period and level pair into its wire key.
pub fn pack_limit_key(period: LimitPeriod, level: LimitLevel) -> (key: u32)
    ensures
        key == limit_key_of(period, level),
{
    let pc: u32 = period.code() as u32;
    let lc: u32 = level.code() as u32;
    pc * 0x10000 + lc * 0x1000000
}

/// Unpacks a wire key into its period and level pair, refusing keys
/// whose high bytes hold no known ordinals.
pub fn unpack_limit_key(key: u32) -> (r: Option<(LimitPeriod, LimitLevel)>)
    ensures
        r == limit_key_unpacked(key),
{
    let pc: u8 = ((key / 0x10000) % 0x100) as u8;
    let lc: u8 = (key / 0x1000000) as u8;
    let period = LimitPeriod::from_code(pc);
    let level = LimitLevel::from_code(lc);
    match (period, level) {
        (Some(p), Some(l)) => Some((p, l)),
        _ => None,
    }
}

impl Limits {
    /// Well-formedness: one amount per period and level pair, as a
    /// table keyed by the pair holds.
    pub open spec fn wf(self) -> bool {
        forall|i: int, j: int|
            0 <= i < j < self.entries@.len() ==> self.entries@[i].0 != self.entries@[j].0
    }

    /// Reads a wire limit table: every key is unpacked into its period
    /// and level pair, amounts carried over unchanged. Asks that every
    /// key be well-formed and that no two keys name one pair, as the
    /// stored tables are keyed.
    pub fn from_wire(wire: Vec<(u32, Money)>) -> (r: Limits)
        requires
            forall|i: int| 0 <= i < wire@.len() ==> limit_key_unpacked(#[trigger] wire@[i].0) is Some,
            forall|i: int, j: int|
                0 <= i < j < wire@.len() ==> limit_key_unpacked(#[trigger] wire@[i].0)
                    != limit_key_unpacked(#[trigger] wire@[j].0),
        ensures
            r.wf(),
            r.entries@.len() == wire@.len(),
            forall|i: int|
                0 <= i < wire@.len() ==> Some(#[trigger] r.entries@[i].0) == limit_key_unpacked(
                    wire@[i].0,
                ) && r.entries@[i].1 == wire@[i].1,
    {
        let ghost orig = wire@;
        let mut wire = wire;
        let mut entries: Vec<((LimitPeriod, LimitLevel), Money)> = Vec::new();
        let mut i: usize = 0;
        let orig_len: usize = wire.len();
        while wire.len() > 0
            invariant
                orig_len == orig.len(),
                i + wire@.len() == orig.len(),
                wire@ == orig.skip(i as int),
                entries@.len() == i,
                forall|j: int| 0 <= j < orig.len() ==> limit_key_unpacked(#[trigger] orig[j].0) is Some,
                forall|j: int|
                    0 <= j < i ==> Some(#[trigger] entries@[j].0) == limit_key_unpacked(orig[j].0)
                        && entries@[j].1 == orig[j].1,
            decreases wire@.len(),
        {
            let (key, amount) = wire.remove(0);
            proof {
                assert(orig.skip(i as int)[0] == orig[i as int]);
                assert(wire@ =~= orig.skip(i as int + 1));
            }
            match unpack_limit_key(key) {
                Some(pair) => {
                    entries.push((pair, amount));
                },
                None => {
                    proof {
                        assert(limit_key_unpacked(orig[i as int].0) is Some);
                        assert(false);
                    }
                },
            }
            i += 1;
        }
        proof {
            assert(orig.skip(orig.len() as int) =~= Seq::<(u32, Money)>::empty());
            assert forall|x: int, y: int|
                0 <= x < y < entries@.len() implies entries@[x].0 != entries@[y].0 by {
                assert(Some(entries@[x].0) == limit_key_unpacked(orig[x].0));
                assert(Some(entries@[y].0) == limit_key_unpacked(orig[y].0));
            }
        }
        Limits { entries }
    }

    /// Writes the limit table out for the wire: every period and level
    /// pair is packed into its key, amounts carried over unchanged. A
    /// well-formed table packs to pairwise distinct keys.
    pub fn into_wire(self) -> (r: Vec<(u32, Money)>)
        ensures
            r@.len() == self.entries@.len(),
            forall|i: int|
                0 <= i < self.entries@.len() ==> (#[trigger] r@[i]).0 == limit_key_of(
                    self.entries@[i].0.0,
                    self.entries@[i].0.1,
                ) && r@[i].1 == self.entries@[i].1,
            self.wf() ==> forall|i: int, j: int|
                0 <= i < j < r@.len() ==> (#[trigger] r@[i]).0 != (#[trigger] r@[j]).0,
    {
        let ghost orig = self.entries@;
        let mut entries = self.entries;
        let mut wire: Vec<(u32, Money)> = Vec::new();
        let mut i: usize = 0;
        let orig_len: usize = entries.len();
        while entries.len() > 0
            invariant
                orig_len == orig.len(),
                i + entries@.len() == orig.len(),
                entries@ == orig.skip(i as int),
                wire@.len() == i,
                forall|j: int|
                    0 <= j < i ==> (#[trigger] wire@[j]).0 == limit_key_of(
                        orig[j].0.0,
                        orig[j].0.1,
                    ) && wire@[j].1 == orig[j].1,
            decreases entries@.len(),
        {
            let (pair, amount) = entries.remove(0);
            proof {
                assert(orig.skip(i as int)[0] == orig[i as int]);
                assert(entries@ =~= orig.skip(i as int + 1));
            }
            let key = pack_limit_key(pair.0, pair.1);
            wire.push((key, amount));
            i += 1;
        }
        proof {
            let ghost distinct_pairs = forall|x: int, y: int|
                0 <= x < y < orig.len() ==> orig[x].0 != orig[y].0;
            if distinct_pairs {
                assert forall|x: int, y: int|
                    0 <= x < y < wire@.len() implies wire@[x].0 != wire@[y].0 by {
                    lemma_limit_key_round_trip(orig[x].0.0, orig[x].0.1);
                    lemma_limit_key_round_trip(orig[y].0.0, orig[y].0.1);
                }
            }
        }
        wire
    }
}

} // verus!
