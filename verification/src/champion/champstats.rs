//! Per-level statistics computed from a champion's base statistics.
//!
//! Base statistics are `i32` values in thousandths. A statistic at a level is
//! an `i64` in thousandths: with a 32-bit level the linear formula cannot leave
//! that range. Attack speed and effective health are products of two such
//! values and are given exactly, as `i128` values in hundred-millionths.

use vstd::prelude::*;

verus! {

/// One hundred percent, in thousandths of a percent.
pub const FULL_PERCENT: i32 = 100_000;

/// Why a level query was refused.
#[derive(Debug, Clone, Copy, PartialEq, Eq, Structural)]
pub enum ChampStatError {
    /// Level 0 was asked for; levels start at 1.
    ZeroError,
    /// The first level of a range is not below its end.
    LevelRangeError,
}

/// Effective health against physical and against magical damage, in
/// hundred-millionths.
#[derive(Debug, Clone, Copy, PartialEq, Eq, Structural)]
pub struct EffectiveHealth {
    pub physical: i128,
    pub magical: i128,
}

/// A champion's base statistics, in thousandths. Each `..perlevel` field is
/// the growth of its companion per level above the first;
/// `attackspeedperlevel` is a percentage.
#[derive(Debug, Clone, Copy, PartialEq, Eq, Structural)]
pub struct ChampStats {
    pub hp: i32,
    pub hpperlevel: i32,
    pub mp: i32,
    pub mpperlevel: i32,
    pub movespeed: i32,
    pub movespeedperlevel: i32,
    pub armor: i32,
    pub armorperlevel: i32,
    pub spellblock: i32,
    pub spellblockperlevel: i32,
    pub attackrange: i32,
    pub attackrangeperlevel: i32,
    pub hpregen: i32,
    pub hpregenperlevel: i32,
    pub mpregen: i32,
    pub mpregenperlevel: i32,
    pub crit: i32,
    pub critperlevel: i32,
    pub attackdamage: i32,
    pub attackdamageperlevel: i32,
    pub attackspeedperlevel: i32,
    pub attackspeed: i32,
    pub attackspeedratio: i32,
    pub attackspeedbonusat1: i32,
}

/// A champion's statistics at one level. All fields are in thousandths but
/// `attackspeed`, which is in hundred-millionths.
#[derive(Debug, Clone, Copy, PartialEq, Eq, Structural)]
pub struct LevelStats {
    pub hp: i64,
    pub mp: i64,
    pub movespeed: i64,
    pub armor: i64,
    pub spellblock: i64,
    pub attackrange: i64,
    pub hpregen: i64,
    pub mpregen: i64,
    pub crit: i64,
    pub attackdamage: i64,
    pub attackspeed: i128,
}

/// A statistic that grows by `per_level` with each level above the first.
pub open spec fn linear_growth(base: int, per_level: int, level: int) -> int {
    base + per_level * (level - 1)
}

/// A statistic that grows by `percent_per_level` percent of its base with each
/// level above the first: `base * (1 + percent_per_level * (level - 1) / 100)`,
/// with base and percentage in thousandths and the result in
/// hundred-millionths.
pub open spec fn percent_growth(base: int, percent_per_level: int, level: int) -> int {
    base * (FULL_PERCENT + percent_per_level * (level - 1))
}

/// Health scaled by a resistance: `hp * (1 + 0.01 * resistance)`, with both in
/// thousandths and the result in hundred-millionths.
pub open spec fn scaled_health(hp: int, resistance: int) -> int {
    hp * (FULL_PERCENT + resistance)
}

/// The growth of a 32-bit value over a 32-bit number of levels stays within
/// 64 bits.
pub proof fn lemma_growth_fits(per_level: i32, level: u32)
    requires
        level >= 1,
    ensures
        -0x8000_0000 * 0xffff_ffff <= per_level * (level - 1) <= 0x7fff_ffff * 0xffff_ffff,
{
    let steps: int = level - 1;
    assert(-0x8000_0000 * 0xffff_ffff <= per_level * steps <= 0x7fff_ffff * 0xffff_ffff)
        by (nonlinear_arith)
        requires
            -0x8000_0000 <= per_level <= 0x7fff_ffff,
            0 <= steps <= 0xffff_ffff,
    ;
}

/// Linear growth of 32-bit values over a 32-bit number of levels stays within
/// 64 bits, and so does the growth alone.
pub proof fn lemma_linear_growth_fits(base: i32, per_level: i32, level: u32)
    requires
        level >= 1,
    ensures
        i64::MIN <= per_level * (level - 1) <= i64::MAX,
        i64::MIN <= linear_growth(base as int, per_level as int, level as int) <= i64::MAX,
{
    lemma_growth_fits(per_level, level);
}

/// Percentage growth of 32-bit values over a 32-bit number of levels stays
/// within 128 bits, and the growth of the percentage alone within 64 bits.
pub proof fn lemma_percent_growth_fits(base: i32, percent_per_level: i32, level: u32)
    requires
        level >= 1,
    ensures
        i64::MIN <= percent_per_level * (level - 1) <= i64::MAX,
        i128::MIN <= percent_growth(base as int, percent_per_level as int, level as int)
            <= i128::MAX,
{
    lemma_growth_fits(percent_per_level, level);
    let factor: int = FULL_PERCENT + percent_per_level * (level - 1);
    assert(-0x8000_0000 * 0x8000_0000_0000_0000 <= base * factor <= 0x8000_0000
        * 0x8000_0000_0000_0000) by (nonlinear_arith)
        requires
            -0x8000_0000 <= base <= 0x7fff_ffff,
            -0x8000_0000_0000_0000 <= factor <= 0x8000_0000_0000_0000,
    ;
}

/// Health scaled by a resistance, both 64-bit, stays within 128 bits.
pub proof fn lemma_scaled_health_fits(hp: i64, resistance: i64)
    ensures
        i128::MIN <= scaled_health(hp as int, resistance as int) <= i128::MAX,
{
    let factor: int = FULL_PERCENT + resistance;
    assert(-0x8000_0000_0000_0000 * 0x8000_0000_0002_0000 <= hp * factor <= 0x8000_0000_0000_0000
        * 0x8000_0000_0002_0000) by (nonlinear_arith)
        requires
            -0x8000_0000_0000_0000 <= hp <= 0x7fff_ffff_ffff_ffff,
            -0x8000_0000_0000_0000 <= factor <= 0x8000_0000_0002_0000,
    ;
}

/// `base + per_level * (level - 1)`.
fn grow(base: i32, per_level: i32, level: u32) -> (r: i64)
    requires
        level >= 1,
    ensures
        r == linear_growth(base as int, per_level as int, level as int),
{
    proof {
        lemma_linear_growth_fits(base, per_level, level);
    }
    base as i64 + per_level as i64 * ((level - 1) as i64)
}

/// `base * (FULL_PERCENT + percent_per_level * (level - 1))`.
fn grow_by_percent(base: i32, percent_per_level: i32, level: u32) -> (r: i128)
    requires
        level >= 1,
    ensures
        r == percent_growth(base as int, percent_per_level as int, level as int),
{
    proof {
        lemma_percent_growth_fits(base, percent_per_level, level);
    }
    let factor: i128 = FULL_PERCENT as i128 + percent_per_level as i128 * ((level - 1) as i128);
    base as i128 * factor
}

impl LevelStats {
    /// Whether these are the statistics that `stats` gives at `level`: every
    /// statistic is its base plus its growth for each level above the first,
    /// and attack speed grows by a percentage of its base.
    pub open spec fn is_level_of(self, stats: ChampStats, level: u32) -> bool {
        &&& self.hp == linear_growth(stats.hp as int, stats.hpperlevel as int, level as int)
        &&& self.mp == linear_growth(stats.mp as int, stats.mpperlevel as int, level as int)
        &&& self.movespeed == linear_growth(
            stats.movespeed as int,
            stats.movespeedperlevel as int,
            level as int,
        )
        &&& self.armor == linear_growth(
            stats.armor as int,
            stats.armorperlevel as int,
            level as int,
        )
        &&& self.spellblock == linear_growth(
            stats.spellblock as int,
            stats.spellblockperlevel as int,
            level as int,
        )
        &&& self.attackrange == linear_growth(
            stats.attackrange as int,
            stats.attackrangeperlevel as int,
            level as int,
        )
        &&& self.hpregen == linear_growth(
            stats.hpregen as int,
            stats.hpregenperlevel as int,
            level as int,
        )
        &&& self.mpregen == linear_growth(
            stats.mpregen as int,
            stats.mpregenperlevel as int,
            level as int,
        )
        &&& self.crit == linear_growth(stats.crit as int, stats.critperlevel as int, level as int)
        &&& self.attackdamage == linear_growth(
            stats.attackdamage as int,
            stats.attackdamageperlevel as int,
            level as int,
        )
        &&& self.attackspeed == percent_growth(
            stats.attackspeed as int,
            stats.attackspeedperlevel as int,
            level as int,
        )
    }

    /// The effective health that these statistics give.
    pub open spec fn effective_health(self) -> EffectiveHealth {
        EffectiveHealth {
            physical: scaled_health(self.hp as int, self.armor as int) as i128,
            magical: scaled_health(self.hp as int, self.spellblock as int) as i128,
        }
    }

    /// Effective health: health scaled by armor against physical damage and by
    /// magic resistance against magical damage. A negative resistance lowers
    /// it below the health itself.
    pub fn get_effective_health(&self) -> (r: EffectiveHealth)
        ensures
            r == self.effective_health(),
            r.physical == self.hp * (FULL_PERCENT + self.armor),
            r.magical == self.hp * (FULL_PERCENT + self.spellblock),
    {
        proof {
            lemma_scaled_health_fits(self.hp, self.armor);
            lemma_scaled_health_fits(self.hp, self.spellblock);
        }
        EffectiveHealth {
            physical: self.hp as i128 * (FULL_PERCENT as i128 + self.armor as i128),
            magical: self.hp as i128 * (FULL_PERCENT as i128 + self.spellblock as i128),
        }
    }
}

impl ChampStats {
    /// The statistics at `level`, for a level of at least 1.
    pub open spec fn resolved(self, level: u32) -> LevelStats {
        LevelStats {
            hp: linear_growth(self.hp as int, self.hpperlevel as int, level as int) as i64,
            mp: linear_growth(self.mp as int, self.mpperlevel as int, level as int) as i64,
            movespeed: linear_growth(
                self.movespeed as int,
                self.movespeedperlevel as int,
                level as int,
            ) as i64,
            armor: linear_growth(self.armor as int, self.armorperlevel as int, level as int) as i64,
            spellblock: linear_growth(
                self.spellblock as int,
                self.spellblockperlevel as int,
                level as int,
            ) as i64,
            attackrange: linear_growth(
                self.attackrange as int,
                self.attackrangeperlevel as int,
                level as int,
            ) as i64,
            hpregen: linear_growth(
                self.hpregen as int,
                self.hpregenperlevel as int,
                level as int,
            ) as i64,
            mpregen: linear_growth(
                self.mpregen as int,
                self.mpregenperlevel as int,
                level as int,
            ) as i64,
            crit: linear_growth(self.crit as int, self.critperlevel as int, level as int) as i64,
            attackdamage: linear_growth(
                self.attackdamage as int,
                self.attackdamageperlevel as int,
                level as int,
            ) as i64,
            attackspeed: percent_growth(
                self.attackspeed as int,
                self.attackspeedperlevel as int,
                level as int,
            ) as i128,
        }
    }

    /// The statistics at each level from `start` up to, not including, `stop`.
    pub open spec fn resolved_range(self, start: u32, stop: u32) -> Seq<LevelStats> {
        Seq::new((stop - start) as nat, |i: int| self.resolved((start + i) as u32))
    }

    /// The statistics at `level`. Level 0 is refused, whatever the statistics.
    pub fn get_stats_level(&self, level: u32) -> (r: Result<LevelStats, ChampStatError>)
        ensures
            level == 0 ==> r == Err::<LevelStats, ChampStatError>(ChampStatError::ZeroError),
            level != 0 ==> r == Ok::<LevelStats, ChampStatError>(self.resolved(level)),
            level != 0 ==> self.resolved(level).is_level_of(*self, level),
    {
        if level == 0 {
            return Err(ChampStatError::ZeroError);
        }
        Ok(
            LevelStats {
                hp: grow(self.hp, self.hpperlevel, level),
                mp: grow(self.mp, self.mpperlevel, level),
                movespeed: grow(self.movespeed, self.movespeedperlevel, level),
                armor: grow(self.armor, self.armorperlevel, level),
                spellblock: grow(self.spellblock, self.spellblockperlevel, level),
                attackrange: grow(self.attackrange, self.attackrangeperlevel, level),
                hpregen: grow(self.hpregen, self.hpregenperlevel, level),
                mpregen: grow(self.mpregen, self.mpregenperlevel, level),
                crit: grow(self.crit, self.critperlevel, level),
                attackdamage: grow(self.attackdamage, self.attackdamageperlevel, level),
                attackspeed: grow_by_percent(self.attackspeed, self.attackspeedperlevel, level),
            },
        )
    }

    /// The statistics at each level from `start` up to, not including, `stop`,
    /// in ascending order of level. A `start` of 0 is refused first; then a
    /// `start` that is not below `stop`.
    pub fn get_stats_range(&self, start: u32, stop: u32) -> (r: Result<
        Vec<LevelStats>,
        ChampStatError,
    >)
        ensures
            start == 0 ==> r == Err::<Vec<LevelStats>, ChampStatError>(ChampStatError::ZeroError),
            start != 0 && start >= stop ==> r == Err::<Vec<LevelStats>, ChampStatError>(
                ChampStatError::LevelRangeError,
            ),
            0 < start < stop ==> r is Ok && r->Ok_0@ == self.resolved_range(start, stop),
    {
        if start == 0 {
            return Err(ChampStatError::ZeroError);
        }
        if start >= stop {
            return Err(ChampStatError::LevelRangeError);
        }
        let mut levels: Vec<LevelStats> = Vec::new();
        let mut level: u32 = start;
        while level < stop
            invariant
                0 < start <= level <= stop,
                levels@.len() == level - start,
                forall|i: int|
                    0 <= i < levels@.len() ==> levels@[i] == self.resolved((start + i) as u32),
            decreases stop - level,
        {
            match self.get_stats_level(level) {
                Ok(stats) => levels.push(stats),
                Err(_) => {},
            }
            level += 1;
        }
        assert(levels@ =~= self.resolved_range(start, stop));
        Ok(levels)
    }
}

/// The statistics at a level are exact: each is its base plus its growth times
/// the number of levels above the first, and attack speed is its base times
/// one plus its percentage growth over those levels.
pub proof fn lemma_resolved_is_exact(stats: ChampStats, level: u32)
    requires
        level >= 1,
    ensures
        stats.resolved(level).is_level_of(stats, level),
        stats.resolved(level).hp == stats.hp + stats.hpperlevel * (level - 1),
        stats.resolved(level).attackspeed == stats.attackspeed * (FULL_PERCENT
            + stats.attackspeedperlevel * (level - 1)),
{
    lemma_linear_growth_fits(stats.hp, stats.hpperlevel, level);
    lemma_linear_growth_fits(stats.mp, stats.mpperlevel, level);
    lemma_linear_growth_fits(stats.movespeed, stats.movespeedperlevel, level);
    lemma_linear_growth_fits(stats.armor, stats.armorperlevel, level);
    lemma_linear_growth_fits(stats.spellblock, stats.spellblockperlevel, level);
    lemma_linear_growth_fits(stats.attackrange, stats.attackrangeperlevel, level);
    lemma_linear_growth_fits(stats.hpregen, stats.hpregenperlevel, level);
    lemma_linear_growth_fits(stats.mpregen, stats.mpregenperlevel, level);
    lemma_linear_growth_fits(stats.crit, stats.critperlevel, level);
    lemma_linear_growth_fits(stats.attackdamage, stats.attackdamageperlevel, level);
    lemma_percent_growth_fits(stats.attackspeed, stats.attackspeedperlevel, level);
}

/// A range of levels holds one entry for each level from `start` up to, not
/// including, `stop`, in ascending order, each the statistics at its level.
pub proof fn lemma_resolved_range(stats: ChampStats, start: u32, stop: u32)
    requires
        0 < start < stop,
    ensures
        stats.resolved_range(start, stop).len() == stop - start,
        forall|i: int|
            0 <= i < stop - start ==> #[trigger] stats.resolved_range(start, stop)[i]
                == stats.resolved((start + i) as u32) && stats.resolved_range(
                start,
                stop,
            )[i].is_level_of(stats, (start + i) as u32),
{
    assert forall|i: int| 0 <= i < stop - start implies #[trigger] stats.resolved_range(
        start,
        stop,
    )[i] == stats.resolved((start + i) as u32) && stats.resolved_range(start, stop)[i].is_level_of(
        stats,
        (start + i) as u32,
    ) by {
        lemma_resolved_is_exact(stats, (start + i) as u32);
    }
}

/// A statistic without growth is the same at every level.
pub proof fn lemma_no_growth_is_constant(stats: ChampStats, level: u32)
    requires
        level >= 1,
    ensures
        stats.movespeedperlevel == 0 ==> stats.resolved(level).movespeed == stats.movespeed,
        stats.attackrangeperlevel == 0 ==> stats.resolved(level).attackrange == stats.attackrange,
{
    lemma_resolved_is_exact(stats, level);
}

} // verus!
