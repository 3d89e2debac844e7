//! A champion record as the directory holds it.

use crate::champion::champstats::{ChampStatError, ChampStats, EffectiveHealth, LevelStats};
use vstd::prelude::*;

verus! {

/// Four descriptive ratings of a champion.
#[derive(Debug, Clone, Copy, PartialEq, Eq, Structural)]
pub struct ChampInfo {
    pub attack: i8,
    pub defense: i8,
    pub magic: i8,
    pub difficulty: i8,
}

/// A champion: its description and its base statistics after corrections.
#[derive(Debug, Clone, PartialEq, Eq)]
pub struct Champion {
    pub id: String,
    pub key: i16,
    pub name: String,
    pub title: String,
    pub blurb: String,
    pub info: ChampInfo,
    pub tags: Vec<String>,
    pub partype: String,
    pub stats: ChampStats,
}

/// A champion as plain values.
pub struct ChampionView {
    pub id: Seq<char>,
    pub key: i16,
    pub name: Seq<char>,
    pub title: Seq<char>,
    pub blurb: Seq<char>,
    pub info: ChampInfo,
    pub tags: Seq<Seq<char>>,
    pub partype: Seq<char>,
    pub stats: ChampStats,
}

impl View for Champion {
    type V = ChampionView;

    open spec fn view(&self) -> ChampionView {
        ChampionView {
            id: self.id@,
            key: self.key,
            name: self.name@,
            title: self.title@,
            blurb: self.blurb@,
            info: self.info,
            tags: Seq::new(self.tags@.len(), |i: int| self.tags@[i]@),
            partype: self.partype@,
            stats: self.stats,
        }
    }
}

/// The effective health at each level from `start` up to, not including,
/// `stop`.
pub open spec fn effective_health_range(stats: ChampStats, start: u32, stop: u32) -> Seq<
    EffectiveHealth,
> {
    Seq::new((stop - start) as nat, |i: int| stats.resolved((start + i) as u32).effective_health())
}

impl Champion {
    /// The champion's statistics at `level`. Level 0 is refused.
    pub fn get_stats_level(&self, level: u32) -> (r: Result<LevelStats, ChampStatError>)
        ensures
            level == 0 ==> r == Err::<LevelStats, ChampStatError>(ChampStatError::ZeroError),
            level != 0 ==> r == Ok::<LevelStats, ChampStatError>(self.stats.resolved(level)),
    {
        self.stats.get_stats_level(level)
    }

    /// The champion's effective health at `level`. Level 0 is refused.
    pub fn get_effective_hp_at_level(&self, level: u32) -> (r: Result<
        EffectiveHealth,
        ChampStatError,
    >)
        ensures
            level == 0 ==> r == Err::<EffectiveHealth, ChampStatError>(ChampStatError::ZeroError),
            level != 0 ==> r == Ok::<EffectiveHealth, ChampStatError>(
                self.stats.resolved(level).effective_health(),
            ),
    {
        match self.get_stats_level(level) {
            Ok(stats) => Ok(stats.get_effective_health()),
            Err(e) => Err(e),
        }
    }

    /// The champion's effective health at each level from `min_level` up to,
    /// not including, `max_level`, in ascending order of level. A `min_level`
    /// of 0 is refused first; then one that is not below `max_level`.
    pub fn get_effective_hp_range(&self, min_level: u32, max_level: u32) -> (r: Result<
        Vec<EffectiveHealth>,
        ChampStatError,
    >)
        ensures
            min_level == 0 ==> r == Err::<Vec<EffectiveHealth>, ChampStatError>(
                ChampStatError::ZeroError,
            ),
            min_level != 0 && min_level >= max_level ==> r == Err::<
                Vec<EffectiveHealth>,
                ChampStatError,
            >(ChampStatError::LevelRangeError),
            0 < min_level < max_level ==> r is Ok && r->Ok_0@ == effective_health_range(
                self.stats,
                min_level,
                max_level,
            ),
    {
        match self.stats.get_stats_range(min_level, max_level) {
            Ok(levels) => {
                let mut health: Vec<EffectiveHealth> = Vec::new();
                let mut i: usize = 0;
                while i < levels.len()
                    invariant
                        i <= levels.len(),
                        health@.len() == i,
                        forall|j: int|
                            0 <= j < i ==> (#[trigger] health@[j]) == levels@[j].effective_health(),
                    decreases levels.len() - i,
                {
                    health.push(levels[i].get_effective_health());
                    i += 1;
                }
                assert(health@ =~= effective_health_range(self.stats, min_level, max_level));
                Ok(health)
            },
            Err(e) => Err(e),
        }
    }
}

} // verus!
