//! Base statistics as the bulk source gives them, and how a correction
//! changes them.

use crate::champion::champstats::{lemma_resolved_is_exact, ChampStats};
use crate::champion::specialcases::{AdjustmentView, Bonus, ChampAdjustment, Stats};
use vstd::prelude::*;

verus! {

/// The base statistics of one champion as the bulk source gives them, in
/// thousandths.
#[derive(Debug, Clone, Copy, PartialEq, Eq, Structural)]
pub struct RawChampStats {
    pub hp: i32,
    pub hpperlevel: i32,
    pub mp: i32,
    pub mpperlevel: i32,
    pub movespeed: i32,
    pub armor: i32,
    pub armorperlevel: i32,
    pub spellblock: i32,
    pub spellblockperlevel: i32,
    pub attackrange: i32,
    pub hpregen: i32,
    pub hpregenperlevel: i32,
    pub mpregen: i32,
    pub mpregenperlevel: i32,
    pub crit: i32,
    pub critperlevel: i32,
    pub attackdamage: i32,
    pub attackdamageperlevel: i32,
    pub attackspeedperlevel: i32,
    pub attackspeed: i32,
}

/// The amount of a bonus to move speed.
pub open spec fn movespeed_bonus(bonus: Bonus) -> int {
    match bonus {
        Bonus::movespeed(x) => x as int,
    }
}

/// The sum of the bonuses to move speed in a list.
pub open spec fn movespeed_bonus_total(list: Seq<Bonus>) -> int
    decreases list.len(),
{
    if list.len() == 0 {
        0
    } else {
        movespeed_bonus_total(list.drop_last()) + movespeed_bonus(list.last())
    }
}

/// The sum of the bonuses of two lists joined is the sum of their sums.
pub proof fn lemma_bonus_total_of_concat(front: Seq<Bonus>, back: Seq<Bonus>)
    ensures
        movespeed_bonus_total(front + back) == movespeed_bonus_total(front)
            + movespeed_bonus_total(back),
    decreases back.len(),
{
    if back.len() == 0 {
        assert(front + back =~= front);
    } else {
        assert((front + back).drop_last() =~= front + back.drop_last());
        lemma_bonus_total_of_concat(front, back.drop_last());
    }
}

/// A sum of `n` 32-bit amounts lies within `n` times the 32-bit bounds.
pub proof fn lemma_bonus_total_bounds(list: Seq<Bonus>)
    ensures
        -0x8000_0000 * list.len() <= movespeed_bonus_total(list) <= 0x7fff_ffff * list.len(),
    decreases list.len(),
{
    if list.len() > 0 {
        lemma_bonus_total_bounds(list.drop_last());
    }
}

/// The nearest 32-bit value to `x`.
pub open spec fn clamp_to_i32(x: int) -> i32 {
    if x < i32::MIN {
        i32::MIN
    } else if x > i32::MAX {
        i32::MAX
    } else {
        x as i32
    }
}

/// The statistics with one of them replaced.
pub open spec fn with_stat(stats: ChampStats, stat: Stats) -> ChampStats {
    match stat {
        Stats::movespeedperlevel(x) => ChampStats { movespeedperlevel: x, ..stats },
        Stats::attackrangeperlevel(x) => ChampStats { attackrangeperlevel: x, ..stats },
        Stats::attackspeedratio(x) => ChampStats { attackspeedratio: x, ..stats },
        Stats::attackspeedbonusat1(x) => ChampStats { attackspeedbonusat1: x, ..stats },
    }
}

/// The statistics after each override of a list has replaced its statistic,
/// in order: where two name the same statistic, the later one stays.
pub open spec fn with_stats(stats: ChampStats, list: Seq<Stats>) -> ChampStats
    decreases list.len(),
{
    if list.len() == 0 {
        stats
    } else {
        with_stat(with_stats(stats, list.drop_last()), list.last())
    }
}

/// The statistics with the sum of a list's bonuses added. A sum that leaves
/// the 32-bit range stops at its bound.
pub open spec fn with_bonuses(stats: ChampStats, list: Seq<Bonus>) -> ChampStats {
    ChampStats {
        movespeed: clamp_to_i32(stats.movespeed + movespeed_bonus_total(list)),
        ..stats
    }
}

/// The statistics that a correction makes of the raw ones: the defaults, then
/// its bonuses added, then its overrides in place.
pub open spec fn adjusted(raw: RawChampStats, adjustment: AdjustmentView) -> ChampStats {
    let boosted = match adjustment.bonus {
        Some(list) => with_bonuses(raw.defaulted(), list),
        None => raw.defaulted(),
    };
    match adjustment.stats {
        Some(list) => with_stats(boosted, list),
        None => boosted,
    }
}

impl RawChampStats {
    /// The statistics of a champion without a correction: what the source does
    /// not give is zero, and the attack speed ratio is the base attack speed.
    pub open spec fn defaulted(self) -> ChampStats {
        ChampStats {
            hp: self.hp,
            hpperlevel: self.hpperlevel,
            mp: self.mp,
            mpperlevel: self.mpperlevel,
            movespeed: self.movespeed,
            movespeedperlevel: 0,
            armor: self.armor,
            armorperlevel: self.armorperlevel,
            spellblock: self.spellblock,
            spellblockperlevel: self.spellblockperlevel,
            attackrange: self.attackrange,
            attackrangeperlevel: 0,
            hpregen: self.hpregen,
            hpregenperlevel: self.hpregenperlevel,
            mpregen: self.mpregen,
            mpregenperlevel: self.mpregenperlevel,
            crit: self.crit,
            critperlevel: self.critperlevel,
            attackdamage: self.attackdamage,
            attackdamageperlevel: self.attackdamageperlevel,
            attackspeedperlevel: self.attackspeedperlevel,
            attackspeed: self.attackspeed,
            attackspeedratio: self.attackspeed,
            attackspeedbonusat1: 0,
        }
    }

    /// Applies a correction: every bonus is added to its statistic, every
    /// override replaces its statistic.
    pub fn adjust(self, adjustments: &ChampAdjustment) -> (stats: ChampStats)
        ensures
            stats == adjusted(self, adjustments@),
    {
        let mut stats: ChampStats = ChampStats::from(self);

        match &adjustments.bonus {
            Some(list) => {
                let mut total: i128 = 0;
                let mut i: usize = 0;
                while i < list.len()
                    invariant
                        i <= list.len(),
                        total == movespeed_bonus_total(list@.take(i as int)),
                    decreases list.len() - i,
                {
                    proof {
                        assert(list@.take(i + 1).drop_last() =~= list@.take(i as int));
                        lemma_bonus_total_bounds(list@.take(i as int));
                    }
                    match list[i] {
                        Bonus::movespeed(x) => { total = total + x as i128; },
                    }
                    i += 1;
                }
                proof {
                    assert(list@.take(i as int) =~= list@);
                    lemma_bonus_total_bounds(list@);
                }
                let sum: i128 = stats.movespeed as i128 + total;
                stats.movespeed = if sum < i32::MIN as i128 {
                    i32::MIN
                } else if sum > i32::MAX as i128 {
                    i32::MAX
                } else {
                    sum as i32
                };
            },
            None => {},
        }

        match &adjustments.stats {
            Some(list) => {
                let ghost boosted = stats;
                let mut i: usize = 0;
                while i < list.len()
                    invariant
                        i <= list.len(),
                        stats == with_stats(boosted, list@.take(i as int)),
                    decreases list.len() - i,
                {
                    proof {
                        assert(list@.take(i + 1).drop_last() =~= list@.take(i as int));
                    }
                    match list[i] {
                        Stats::movespeedperlevel(x) => { stats.movespeedperlevel = x; },
                        Stats::attackrangeperlevel(x) => { stats.attackrangeperlevel = x; },
                        Stats::attackspeedratio(x) => { stats.attackspeedratio = x; },
                        Stats::attackspeedbonusat1(x) => { stats.attackspeedbonusat1 = x; },
                    }
                    i += 1;
                }
                proof {
                    assert(list@.take(i as int) =~= list@);
                }
            },
            None => {},
        }

        stats
    }
}

impl From<RawChampStats> for ChampStats {
    /// The statistics of a champion without a correction.
    fn from(raw: RawChampStats) -> (stats: ChampStats)
        ensures
            stats == raw.defaulted(),
    {
        ChampStats {
            hp: raw.hp,
            hpperlevel: raw.hpperlevel,
            mp: raw.mp,
            mpperlevel: raw.mpperlevel,
            movespeed: raw.movespeed,
            movespeedperlevel: 0,
            armor: raw.armor,
            armorperlevel: raw.armorperlevel,
            spellblock: raw.spellblock,
            spellblockperlevel: raw.spellblockperlevel,
            attackrange: raw.attackrange,
            attackrangeperlevel: 0,
            hpregen: raw.hpregen,
            hpregenperlevel: raw.hpregenperlevel,
            mpregen: raw.mpregen,
            mpregenperlevel: raw.mpregenperlevel,
            crit: raw.crit,
            critperlevel: raw.critperlevel,
            attackdamage: raw.attackdamage,
            attackdamageperlevel: raw.attackdamageperlevel,
            attackspeedperlevel: raw.attackspeedperlevel,
            attackspeed: raw.attackspeed,
            attackspeedratio: raw.attackspeed,
            attackspeedbonusat1: 0,
        }
    }
}

impl vstd::std_specs::convert::FromSpecImpl<RawChampStats> for ChampStats {
    open spec fn obeys_from_spec() -> bool {
        true
    }

    open spec fn from_spec(raw: RawChampStats) -> ChampStats {
        raw.defaulted()
    }
}

/// Overrides change nothing but the four statistics that they name.
pub proof fn lemma_with_stats_keeps_the_rest(stats: ChampStats, list: Seq<Stats>)
    ensures
        with_stats(stats, list) == (ChampStats {
            movespeedperlevel: with_stats(stats, list).movespeedperlevel,
            attackrangeperlevel: with_stats(stats, list).attackrangeperlevel,
            attackspeedratio: with_stats(stats, list).attackspeedratio,
            attackspeedbonusat1: with_stats(stats, list).attackspeedbonusat1,
            ..stats
        }),
    decreases list.len(),
{
    if list.len() > 0 {
        lemma_with_stats_keeps_the_rest(stats, list.drop_last());
    }
}

/// A correction changes nothing but move speed and the four statistics that
/// overrides name: every other statistic is the one that the source gave.
pub proof fn lemma_adjusted_keeps_the_rest(raw: RawChampStats, adjustment: AdjustmentView)
    ensures
        adjusted(raw, adjustment) == (ChampStats {
            movespeed: adjusted(raw, adjustment).movespeed,
            movespeedperlevel: adjusted(raw, adjustment).movespeedperlevel,
            attackrangeperlevel: adjusted(raw, adjustment).attackrangeperlevel,
            attackspeedratio: adjusted(raw, adjustment).attackspeedratio,
            attackspeedbonusat1: adjusted(raw, adjustment).attackspeedbonusat1,
            ..raw.defaulted()
        }),
{
    let boosted = match adjustment.bonus {
        Some(list) => with_bonuses(raw.defaulted(), list),
        None => raw.defaulted(),
    };
    match adjustment.stats {
        Some(list) => {
            lemma_with_stats_keeps_the_rest(boosted, list);
        },
        None => {},
    }
}

/// A correction that holds bonuses and no override adds the sum of its
/// bonuses to the move speed, and the champion then has that move speed at
/// every level. This holds where the sum stays within 32 bits.
pub proof fn lemma_bonus_is_added_at_every_level(
    raw: RawChampStats,
    adjustment: AdjustmentView,
    level: u32,
)
    requires
        adjustment.bonus is Some,
        adjustment.stats is None,
        i32::MIN <= raw.movespeed + movespeed_bonus_total(adjustment.bonus->Some_0) <= i32::MAX,
        level >= 1,
    ensures
        adjusted(raw, adjustment).movespeed == raw.movespeed + movespeed_bonus_total(
            adjustment.bonus->Some_0,
        ),
        adjusted(raw, adjustment).resolved(level).movespeed == raw.movespeed
            + movespeed_bonus_total(adjustment.bonus->Some_0),
{
    lemma_resolved_is_exact(adjusted(raw, adjustment), level);
}

/// The sum of a list's bonuses does not depend on their order: two lists
/// joined either way round give the same sum.
pub proof fn lemma_bonus_total_ignores_order(front: Seq<Bonus>, back: Seq<Bonus>)
    ensures
        movespeed_bonus_total(front + back) == movespeed_bonus_total(back + front),
{
    lemma_bonus_total_of_concat(front, back);
    lemma_bonus_total_of_concat(back, front);
}

/// A correction that holds one bonus to move speed and no override gives the
/// base move speed plus that bonus at every level, where the sum stays
/// within 32 bits.
pub proof fn lemma_single_bonus_is_added_at_every_level(
    raw: RawChampStats,
    adjustment: AdjustmentView,
    amount: i32,
    level: u32,
)
    requires
        adjustment.bonus == Some(seq![Bonus::movespeed(amount)]),
        adjustment.stats is None,
        i32::MIN <= raw.movespeed + amount <= i32::MAX,
        level >= 1,
    ensures
        adjusted(raw, adjustment).resolved(level).movespeed == raw.movespeed + amount,
{
    let list = seq![Bonus::movespeed(amount)];
    assert(list.drop_last() =~= Seq::<Bonus>::empty());
    assert(movespeed_bonus_total(list.drop_last()) == 0);
    assert(list.last() == Bonus::movespeed(amount));
    lemma_bonus_is_added_at_every_level(raw, adjustment, level);
}

/// An override replaces its statistic outright: after a list of overrides
/// that ends with one for the attack speed ratio, the ratio is the value of
/// that override, whatever it was before.
pub proof fn lemma_override_replaces_ratio(stats: ChampStats, list: Seq<Stats>, ratio: i32)
    requires
        list.len() > 0,
        list.last() == Stats::attackspeedratio(ratio),
    ensures
        with_stats(stats, list).attackspeedratio == ratio,
{
}

/// A correction whose only override is one for the attack speed ratio gives
/// that ratio, whatever the base attack speed is.
pub proof fn lemma_adjusted_ratio_is_the_override(
    raw: RawChampStats,
    adjustment: AdjustmentView,
    ratio: i32,
)
    requires
        adjustment.stats == Some(seq![Stats::attackspeedratio(ratio)]),
    ensures
        adjusted(raw, adjustment).attackspeedratio == ratio,
{
    let list = seq![Stats::attackspeedratio(ratio)];
    assert(list.last() == Stats::attackspeedratio(ratio));
}

} // verus!
