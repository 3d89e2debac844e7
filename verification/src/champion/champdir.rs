//! The directory of champions and its construction from a bulk source and a
//! set of corrections.

use crate::champion::champion::{ChampInfo, Champion, ChampionView};
use crate::champion::champstats::ChampStats;
use crate::champion::diagnostic::{ParseDiagnostic, RecordPart};
use crate::champion::key::{key_value, parse_key};
pub use crate::champion::rawstats::RawChampStats;
use crate::champion::rawstats::adjusted;
use crate::champion::specialcases::{
    special_cases_of, special_cases_well_formed, ChampAdjustment, SpecialCaseError, SpecialCases,
    SpecialCasesView,
};
use crate::json::{text_views, JsonMember, JsonValue};
use crate::lookup::{all_distinct, first_index, has_key, lemma_first_index, lemma_first_index_found};
use vstd::prelude::*;

verus! {

/// A champion as the bulk source gives it, before corrections.
#[derive(Debug, Clone, PartialEq, Eq)]
pub struct RawChampion {
    pub id: String,
    pub key: String,
    pub name: String,
    pub title: String,
    pub blurb: String,
    pub info: ChampInfo,
    pub tags: Vec<String>,
    pub partype: String,
    pub stats: RawChampStats,
}

/// A raw champion as plain values.
pub struct RawChampionView {
    pub id: Seq<char>,
    pub key: Seq<char>,
    pub name: Seq<char>,
    pub title: Seq<char>,
    pub blurb: Seq<char>,
    pub info: ChampInfo,
    pub tags: Seq<Seq<char>>,
    pub partype: Seq<char>,
    pub stats: RawChampStats,
}

impl View for RawChampion {
    type V = RawChampionView;

    open spec fn view(&self) -> RawChampionView {
        RawChampionView {
            id: self.id@,
            key: self.key@,
            name: self.name@,
            title: self.title@,
            blurb: self.blurb@,
            info: self.info,
            tags: text_views(self.tags@),
            partype: self.partype@,
            stats: self.stats,
        }
    }
}

/// Why a directory could not be built.
#[derive(Debug, Clone, PartialEq, Eq)]
pub enum ChampCreationError {
    /// A source could not be read.
    FileError,
    /// A document does not have the expected form.
    ParseError(Option<ParseDiagnostic>),
    /// The corrections do not fit the champions; the text says which check
    /// failed.
    SpecialDataError(String),
}

/// The rating that a number stands for: a whole number that fits in 8 bits.
pub open spec fn rating_of(n: i32) -> Option<i8> {
    if -128_000 <= n <= 127_000 && n % 1000 == 0 {
        Some((n / 1000) as i8)
    } else {
        None
    }
}

/// The rating that the member named `key` holds.
pub open spec fn rating_field(json: JsonValue, key: Seq<char>) -> Option<i8> {
    match json.number_field(key) {
        Some(n) => rating_of(n),
        None => None,
    }
}

/// The ratings that an `info` object holds, where it holds all four.
pub open spec fn info_of(json: JsonValue) -> Option<ChampInfo> {
    if rating_field(json, "attack"@) is Some && rating_field(json, "defense"@) is Some
        && rating_field(json, "magic"@) is Some && rating_field(json, "difficulty"@) is Some {
        Some(
            ChampInfo {
                attack: rating_field(json, "attack"@)->Some_0,
                defense: rating_field(json, "defense"@)->Some_0,
                magic: rating_field(json, "magic"@)->Some_0,
                difficulty: rating_field(json, "difficulty"@)->Some_0,
            },
        )
    } else {
        None
    }
}

/// The statistics that a `stats` object holds, where it holds every one of
/// them as a number.
pub open spec fn raw_stats_of(json: JsonValue) -> Option<RawChampStats> {
    if json.number_field("hp"@) is Some && json.number_field("hpperlevel"@) is Some
        && json.number_field("mp"@) is Some && json.number_field("mpperlevel"@) is Some
        && json.number_field("movespeed"@) is Some && json.number_field("armor"@) is Some
        && json.number_field("armorperlevel"@) is Some && json.number_field("spellblock"@) is Some
        && json.number_field("spellblockperlevel"@) is Some && json.number_field("attackrange"@)
        is Some && json.number_field("hpregen"@) is Some && json.number_field("hpregenperlevel"@)
        is Some && json.number_field("mpregen"@) is Some && json.number_field("mpregenperlevel"@)
        is Some && json.number_field("crit"@) is Some && json.number_field("critperlevel"@)
        is Some && json.number_field("attackdamage"@) is Some && json.number_field(
        "attackdamageperlevel"@,
    ) is Some && json.number_field("attackspeedperlevel"@) is Some && json.number_field(
        "attackspeed"@,
    ) is Some {
        Some(
            RawChampStats {
                hp: json.number_field("hp"@)->Some_0,
                hpperlevel: json.number_field("hpperlevel"@)->Some_0,
                mp: json.number_field("mp"@)->Some_0,
                mpperlevel: json.number_field("mpperlevel"@)->Some_0,
                movespeed: json.number_field("movespeed"@)->Some_0,
                armor: json.number_field("armor"@)->Some_0,
                armorperlevel: json.number_field("armorperlevel"@)->Some_0,
                spellblock: json.number_field("spellblock"@)->Some_0,
                spellblockperlevel: json.number_field("spellblockperlevel"@)->Some_0,
                attackrange: json.number_field("attackrange"@)->Some_0,
                hpregen: json.number_field("hpregen"@)->Some_0,
                hpregenperlevel: json.number_field("hpregenperlevel"@)->Some_0,
                mpregen: json.number_field("mpregen"@)->Some_0,
                mpregenperlevel: json.number_field("mpregenperlevel"@)->Some_0,
                crit: json.number_field("crit"@)->Some_0,
                critperlevel: json.number_field("critperlevel"@)->Some_0,
                attackdamage: json.number_field("attackdamage"@)->Some_0,
                attackdamageperlevel: json.number_field("attackdamageperlevel"@)->Some_0,
                attackspeedperlevel: json.number_field("attackspeedperlevel"@)->Some_0,
                attackspeed: json.number_field("attackspeed"@)->Some_0,
            },
        )
    } else {
        None
    }
}

/// The first part of a record that is missing or has the wrong form, taking
/// the parts in the order `id`, `key`, `name`, `title`, `blurb`, `info`,
/// `tags`, `partype`, `stats`; nothing where the record is sound.
pub open spec fn record_fault(json: JsonValue) -> Option<RecordPart> {
    if !(json is Object) {
        Some(RecordPart::Whole)
    } else if json.text_field("id"@) is None {
        Some(RecordPart::Id)
    } else if json.text_field("key"@) is None || key_value(json.text_field("key"@)->Some_0)
        is None {
        Some(RecordPart::Key)
    } else if json.text_field("name"@) is None {
        Some(RecordPart::Name)
    } else if json.text_field("title"@) is None {
        Some(RecordPart::Title)
    } else if json.text_field("blurb"@) is None {
        Some(RecordPart::Blurb)
    } else if json.field("info"@) is None || info_of(json.field("info"@)->Some_0) is None {
        Some(RecordPart::Info)
    } else if json.field("tags"@) is None || json.field("tags"@)->Some_0.text_list() is None {
        Some(RecordPart::Tags)
    } else if json.text_field("partype"@) is None {
        Some(RecordPart::Partype)
    } else if json.field("stats"@) is None || raw_stats_of(json.field("stats"@)->Some_0)
        is None {
        Some(RecordPart::Stats)
    } else {
        None
    }
}

/// The raw champion that a sound record holds.
pub open spec fn record_of(json: JsonValue) -> RawChampionView {
    RawChampionView {
        id: json.text_field("id"@)->Some_0,
        key: json.text_field("key"@)->Some_0,
        name: json.text_field("name"@)->Some_0,
        title: json.text_field("title"@)->Some_0,
        blurb: json.text_field("blurb"@)->Some_0,
        info: info_of(json.field("info"@)->Some_0)->Some_0,
        tags: json.field("tags"@)->Some_0.text_list()->Some_0,
        partype: json.text_field("partype"@)->Some_0,
        stats: raw_stats_of(json.field("stats"@)->Some_0)->Some_0,
    }
}

/// The error that reports a fault in a part of a record.
pub open spec fn record_error(part: RecordPart) -> ChampCreationError {
    ChampCreationError::ParseError(Some(ParseDiagnostic::Record(part)))
}

/// The rating that a number stands for.
pub fn parse_rating(n: i32) -> (r: Option<i8>)
    ensures
        r == rating_of(n),
{
    if n < -128_000 || n > 127_000 {
        return None;
    }
    let shifted: u32 = (n + 128_000) as u32;
    if shifted % 1000 != 0 {
        return None;
    }
    let rating: i32 = (shifted / 1000) as i32 - 128;
    Some(rating as i8)
}

/// The rating that the member named `key` holds.
fn get_rating(json: &JsonValue, key: &str) -> (r: Option<i8>)
    ensures
        r == rating_field(*json, key@),
{
    match json.get_number(key) {
        Some(n) => parse_rating(n),
        None => None,
    }
}

/// Reads the four ratings of an `info` object.
pub fn parse_info(json: &JsonValue) -> (r: Option<ChampInfo>)
    ensures
        r == info_of(*json),
{
    let attack: i8 = match get_rating(json, "attack") {
        Some(x) => x,
        None => { return None; },
    };
    let defense: i8 = match get_rating(json, "defense") {
        Some(x) => x,
        None => { return None; },
    };
    let magic: i8 = match get_rating(json, "magic") {
        Some(x) => x,
        None => { return None; },
    };
    let difficulty: i8 = match get_rating(json, "difficulty") {
        Some(x) => x,
        None => { return None; },
    };
    Some(ChampInfo { attack, defense, magic, difficulty })
}

/// Reads the statistics of a `stats` object.
pub fn parse_raw_stats(json: &JsonValue) -> (r: Option<RawChampStats>)
    ensures
        r == raw_stats_of(*json),
{
    let hp: i32 = match json.get_number("hp") {
        Some(x) => x,
        None => { return None; },
    };
    let hpperlevel: i32 = match json.get_number("hpperlevel") {
        Some(x) => x,
        None => { return None; },
    };
    let mp: i32 = match json.get_number("mp") {
        Some(x) => x,
        None => { return None; },
    };
    let mpperlevel: i32 = match json.get_number("mpperlevel") {
        Some(x) => x,
        None => { return None; },
    };
    let movespeed: i32 = match json.get_number("movespeed") {
        Some(x) => x,
        None => { return None; },
    };
    let armor: i32 = match json.get_number("armor") {
        Some(x) => x,
        None => { return None; },
    };
    let armorperlevel: i32 = match json.get_number("armorperlevel") {
        Some(x) => x,
        None => { return None; },
    };
    let spellblock: i32 = match json.get_number("spellblock") {
        Some(x) => x,
        None => { return None; },
    };
    let spellblockperlevel: i32 = match json.get_number("spellblockperlevel") {
        Some(x) => x,
        None => { return None; },
    };
    let attackrange: i32 = match json.get_number("attackrange") {
        Some(x) => x,
        None => { return None; },
    };
    let hpregen: i32 = match json.get_number("hpregen") {
        Some(x) => x,
        None => { return None; },
    };
    let hpregenperlevel: i32 = match json.get_number("hpregenperlevel") {
        Some(x) => x,
        None => { return None; },
    };
    let mpregen: i32 = match json.get_number("mpregen") {
        Some(x) => x,
        None => { return None; },
    };
    let mpregenperlevel: i32 = match json.get_number("mpregenperlevel") {
        Some(x) => x,
        None => { return None; },
    };
    let crit: i32 = match json.get_number("crit") {
        Some(x) => x,
        None => { return None; },
    };
    let critperlevel: i32 = match json.get_number("critperlevel") {
        Some(x) => x,
        None => { return None; },
    };
    let attackdamage: i32 = match json.get_number("attackdamage") {
        Some(x) => x,
        None => { return None; },
    };
    let attackdamageperlevel: i32 = match json.get_number("attackdamageperlevel") {
        Some(x) => x,
        None => { return None; },
    };
    let attackspeedperlevel: i32 = match json.get_number("attackspeedperlevel") {
        Some(x) => x,
        None => { return None; },
    };
    let attackspeed: i32 = match json.get_number("attackspeed") {
        Some(x) => x,
        None => { return None; },
    };
    Some(
        RawChampStats {
            hp,
            hpperlevel,
            mp,
            mpperlevel,
            movespeed,
            armor,
            armorperlevel,
            spellblock,
            spellblockperlevel,
            attackrange,
            hpregen,
            hpregenperlevel,
            mpregen,
            mpregenperlevel,
            crit,
            critperlevel,
            attackdamage,
            attackdamageperlevel,
            attackspeedperlevel,
            attackspeed,
        },
    )
}

/// The error that reports a fault in a part of a record.
fn fault_in(part: RecordPart) -> (e: ChampCreationError)
    ensures
        e == record_error(part),
{
    ChampCreationError::ParseError(Some(ParseDiagnostic::Record(part)))
}

/// The error that reports corrections which do not fit the champions.
fn verification_failed() -> (e: ChampCreationError)
    ensures
        is_verification_error(e),
{
    ChampCreationError::SpecialDataError("Error in verification".to_owned())
}

/// The first fault among the records of a list, taking the records in
/// order; nothing where every record is sound.
pub open spec fn first_fault(members: Seq<JsonMember>) -> Option<RecordPart>
    decreases members.len(),
{
    if members.len() == 0 {
        None
    } else {
        match record_fault(members[0].value) {
            Some(part) => Some(part),
            None => first_fault(members.skip(1)),
        }
    }
}

/// The raw champions that a list of sound records holds, in order.
pub open spec fn records_of(members: Seq<JsonMember>) -> Seq<RawChampionView> {
    Seq::new(members.len(), |i: int| record_of(members[i].value))
}

/// The ids of a list of raw champions, in order.
pub open spec fn raw_ids(champions: Seq<RawChampionView>) -> Seq<Seq<char>> {
    Seq::new(champions.len(), |i: int| champions[i].id)
}

/// A list of raw champions as plain values.
pub open spec fn raw_views(champions: Seq<RawChampion>) -> Seq<RawChampionView> {
    Seq::new(champions.len(), |i: int| champions[i]@)
}

/// A list of champions as plain values.
pub open spec fn champion_views(champions: Seq<Champion>) -> Seq<ChampionView> {
    Seq::new(champions.len(), |i: int| champions[i]@)
}

/// Whether the key of every raw champion of a list writes a number.
pub open spec fn all_keys_numeric(champions: Seq<RawChampionView>) -> bool {
    forall|i: int| 0 <= i < champions.len() ==> key_value((#[trigger] champions[i]).key) is Some
}

/// Whether the corrections fit the champions: every id that is listed as a
/// special case has a correction and belongs to one of the champions.
pub open spec fn corrections_consistent(
    ids: Seq<Seq<char>>,
    corrections: SpecialCasesView,
) -> bool {
    forall|i: int|
        0 <= i < corrections.special_case_champs.len() ==> has_key(
            corrections.ids,
            #[trigger] corrections.special_case_champs[i],
        ) && has_key(ids, corrections.special_case_champs[i])
}

/// The champion that a raw champion becomes: its statistics are corrected
/// where the corrections list its id, and take their defaults where not.
pub open spec fn merged(raw: RawChampionView, corrections: SpecialCasesView) -> ChampionView {
    ChampionView {
        id: raw.id,
        key: key_value(raw.key)->Some_0,
        name: raw.name,
        title: raw.title,
        blurb: raw.blurb,
        info: raw.info,
        tags: raw.tags,
        partype: raw.partype,
        stats: match corrections.adjustment_for(raw.id) {
            Some(adjustment) => adjusted(raw.stats, adjustment),
            None => raw.stats.defaulted(),
        },
    }
}

/// The champions that a list of raw champions becomes, in order.
pub open spec fn merged_all(
    champions: Seq<RawChampionView>,
    corrections: SpecialCasesView,
) -> Seq<ChampionView> {
    Seq::new(champions.len(), |i: int| merged(champions[i], corrections))
}

/// How the construction of a directory ends.
pub enum Construction {
    /// With these champions.
    Built(Seq<ChampionView>),
    /// With a parse error that carries this detail.
    Malformed(Option<ParseDiagnostic>),
    /// With the error that the corrections do not fit the champions.
    Inconsistent,
}

/// How the construction of a directory from a bulk source and a set of
/// corrections ends. The corrections are read first; then the `data` member of
/// the bulk source, which must be an object of sound records; then the
/// corrections are held against the champions; last, the ids of the champions
/// must all differ.
pub open spec fn construction_of(
    champ_json: JsonValue,
    special_case_json: JsonValue,
) -> Construction {
    if !special_cases_well_formed(special_case_json) {
        Construction::Malformed(None)
    } else {
        match champ_json.field("data"@) {
            Some(JsonValue::Object(members)) => match first_fault(members@) {
                Some(part) => Construction::Malformed(Some(ParseDiagnostic::Record(part))),
                None => {
                    let raw = records_of(members@);
                    let corrections = special_cases_of(special_case_json);
                    if !corrections_consistent(raw_ids(raw), corrections) {
                        Construction::Inconsistent
                    } else if !all_distinct(raw_ids(raw)) {
                        Construction::Malformed(None)
                    } else {
                        Construction::Built(merged_all(raw, corrections))
                    }
                },
            },
            _ => Construction::Malformed(None),
        }
    }
}

/// The error that reports corrections which do not fit the champions.
pub open spec fn is_verification_error(e: ChampCreationError) -> bool {
    e is SpecialDataError && e->SpecialDataError_0@ == "Error in verification"@
}

impl RawChampion {
    /// Whether the key writes a number.
    pub open spec fn has_numeric_key(self) -> bool {
        key_value(self.key@) is Some
    }

    /// The champion with its statistics corrected.
    pub fn adjust(self, adjustments: &ChampAdjustment) -> (champion: Champion)
        requires
            self.has_numeric_key(),
        ensures
            champion@ == (ChampionView {
                id: self.id@,
                key: key_value(self.key@)->Some_0,
                name: self.name@,
                title: self.title@,
                blurb: self.blurb@,
                info: self.info,
                tags: text_views(self.tags@),
                partype: self.partype@,
                stats: adjusted(self.stats, adjustments@),
            }),
    {
        let key: i16 = parse_key(self.key.as_str()).unwrap();
        let champion = Champion {
            id: self.id,
            key,
            name: self.name,
            title: self.title,
            blurb: self.blurb,
            info: self.info,
            tags: self.tags,
            partype: self.partype,
            stats: self.stats.adjust(adjustments),
        };
        assert(champion@.tags =~= text_views(self.tags@));
        champion
    }

    /// The champion with the default statistics.
    pub fn into(self) -> (champion: Champion)
        requires
            self.has_numeric_key(),
        ensures
            champion@ == (ChampionView {
                id: self.id@,
                key: key_value(self.key@)->Some_0,
                name: self.name@,
                title: self.title@,
                blurb: self.blurb@,
                info: self.info,
                tags: text_views(self.tags@),
                partype: self.partype@,
                stats: self.stats.defaulted(),
            }),
    {
        let key: i16 = parse_key(self.key.as_str()).unwrap();
        let champion = Champion {
            id: self.id,
            key,
            name: self.name,
            title: self.title,
            blurb: self.blurb,
            info: self.info,
            tags: self.tags,
            partype: self.partype,
            stats: ChampStats::from(self.stats),
        };
        assert(champion@.tags =~= text_views(self.tags@));
        champion
    }
}

/// A directory of champions, in the order of the bulk source.
#[derive(Debug, Clone, PartialEq, Eq)]
pub struct ChampDir {
    pub champions: Vec<Champion>,
}

impl View for ChampDir {
    type V = Seq<ChampionView>;

    open spec fn view(&self) -> Seq<ChampionView> {
        champion_views(self.champions@)
    }
}

/// The ids of a list of champions, in order.
pub open spec fn champion_ids(champions: Seq<ChampionView>) -> Seq<Seq<char>> {
    Seq::new(champions.len(), |i: int| champions[i].id)
}

/// The names of a list of champions, in order.
pub open spec fn champion_names(champions: Seq<ChampionView>) -> Seq<Seq<char>> {
    Seq::new(champions.len(), |i: int| champions[i].name)
}

impl ChampDir {
    /// Whether the ids of the champions all differ, as they do in a directory
    /// that was built from a bulk source.
    pub open spec fn wf(self) -> bool {
        all_distinct(champion_ids(self@))
    }

    /// Builds a directory from a bulk source and a set of corrections. Nothing
    /// is built unless everything is sound: the result is an error wherever
    /// `construction_of` names one.
    pub fn new_from_value(champ_json: JsonValue, special_case_json: JsonValue) -> (r: Result<
        Self,
        ChampCreationError,
    >)
        ensures
            match construction_of(champ_json, special_case_json) {
                Construction::Built(champions) => r is Ok && r->Ok_0@ == champions
                    && r->Ok_0.wf(),
                Construction::Malformed(detail) => r is Err && r->Err_0
                    == ChampCreationError::ParseError(detail),
                Construction::Inconsistent => r is Err && is_verification_error(r->Err_0),
            },
    {
        let corrections = match SpecialCases::new_from_value(special_case_json) {
            Ok(corrections) => corrections,
            Err(SpecialCaseError::FileError) => { return Err(ChampCreationError::FileError); },
            Err(SpecialCaseError::ParseError(detail)) => {
                return Err(ChampCreationError::ParseError(detail));
            },
        };
        match champ_json.get("data") {
            Some(JsonValue::Object(members)) => {
                let raw_champs = ChampDir::parse_champs(members)?;
                if !ChampDir::verify(&raw_champs, &corrections) {
                    return Err(verification_failed());
                }
                if !ChampDir::ids_differ(&raw_champs) {
                    return Err(ChampCreationError::ParseError(None));
                }
                let champions = ChampDir::correct_all(raw_champs, &corrections);
                let dir = ChampDir { champions };
                proof {
                    let raw = records_of(members@);
                    assert(champion_ids(dir@) =~= raw_ids(raw));
                }
                Ok(dir)
            },
            _ => Err(ChampCreationError::ParseError(None)),
        }
    }

    /// The first champion with this numeric key.
    pub fn get_by_key(&self, key: i16) -> (r: Option<&Champion>)
        ensures
            match r {
                Some(champion) => exists|i: int|
                    0 <= i < self.champions@.len() && *champion == self.champions@[i]
                        && champion.key == key && forall|j: int|
                        0 <= j < i ==> self.champions@[j].key != key,
                None => forall|i: int|
                    0 <= i < self.champions@.len() ==> self.champions@[i].key != key,
            },
    {
        let mut i: usize = 0;
        while i < self.champions.len()
            invariant
                i <= self.champions.len(),
                forall|j: int| 0 <= j < i ==> self.champions@[j].key != key,
            decreases self.champions.len() - i,
        {
            if self.champions[i].key == key {
                return Some(&self.champions[i]);
            }
            i += 1;
        }
        None
    }

    /// The first champion with exactly this name.
    pub fn get_by_name(&self, name: &str) -> (r: Option<&Champion>)
        ensures
            match r {
                Some(champion) => first_index(champion_names(self@), name@) is Some
                    && *champion == self.champions@[first_index(
                    champion_names(self@),
                    name@,
                )->Some_0] && champion.name@ == name@,
                None => !has_key(champion_names(self@), name@),
            },
    {
        let wanted = name.to_owned();
        let mut i: usize = 0;
        while i < self.champions.len()
            invariant
                i <= self.champions.len(),
                wanted@ == name@,
                forall|j: int| 0 <= j < i ==> champion_names(self@)[j] != name@,
            decreases self.champions.len() - i,
        {
            if self.champions[i].name == wanted {
                proof {
                    assert(champion_names(self@)[i as int] == name@);
                    lemma_first_index_found(champion_names(self@), name@, i as int);
                }
                return Some(&self.champions[i]);
            }
            i += 1;
        }
        proof {
            lemma_first_index(champion_names(self@), name@);
        }
        None
    }

    /// Reads every record of the bulk source, in order. The first record with
    /// a fault ends the reading.
    pub fn parse_champs(champs: &Vec<JsonMember>) -> (r: Result<
        Vec<RawChampion>,
        ChampCreationError,
    >)
        ensures
            match first_fault(champs@) {
                Some(part) => r is Err && r->Err_0 == record_error(part),
                None => r is Ok && raw_views(r->Ok_0@) == records_of(champs@) && all_keys_numeric(
                    raw_views(r->Ok_0@),
                ),
            },
    {
        let mut champ_vec: Vec<RawChampion> = Vec::new();
        let mut i: usize = 0;
        assert(champs@.skip(0) =~= champs@);
        while i < champs.len()
            invariant
                i <= champs.len(),
                champ_vec@.len() == i,
                first_fault(champs@) == first_fault(champs@.skip(i as int)),
                forall|j: int|
                    0 <= j < i ==> (#[trigger] champ_vec@[j])@ == record_of(champs@[j].value)
                        && key_value(champ_vec@[j]@.key) is Some,
            decreases champs.len() - i,
        {
            proof {
                assert(champs@.skip(i as int).skip(1) =~= champs@.skip(i + 1));
                assert(champs@.skip(i as int)[0] == champs@[i as int]);
            }
            match ChampDir::parse_champ(&champs[i].value) {
                Ok(champion) => champ_vec.push(champion),
                Err(e) => { return Err(e); },
            }
            i += 1;
        }
        proof {
            assert(champs@.skip(i as int).len() == 0);
            assert(raw_views(champ_vec@) =~= records_of(champs@));
        }
        Ok(champ_vec)
    }

    /// Reads one record of the bulk source. It fails with the first part of
    /// the record that is missing or has the wrong form.
    pub fn parse_champ(champ: &JsonValue) -> (r: Result<RawChampion, ChampCreationError>)
        ensures
            match record_fault(*champ) {
                Some(part) => r is Err && r->Err_0 == record_error(part),
                None => r is Ok && r->Ok_0@ == record_of(*champ) && r->Ok_0.has_numeric_key(),
            },
    {
        match champ {
            JsonValue::Object(_) => {},
            _ => { return Err(fault_in(RecordPart::Whole)); },
        }
        let id: String = match champ.get_text("id") {
            Some(text) => text.clone(),
            None => { return Err(fault_in(RecordPart::Id)); },
        };
        let key: String = match champ.get_text("key") {
            Some(text) => text.clone(),
            None => { return Err(fault_in(RecordPart::Key)); },
        };
        if parse_key(key.as_str()).is_none() {
            return Err(fault_in(RecordPart::Key));
        }
        let name: String = match champ.get_text("name") {
            Some(text) => text.clone(),
            None => { return Err(fault_in(RecordPart::Name)); },
        };
        let title: String = match champ.get_text("title") {
            Some(text) => text.clone(),
            None => { return Err(fault_in(RecordPart::Title)); },
        };
        let blurb: String = match champ.get_text("blurb") {
            Some(text) => text.clone(),
            None => { return Err(fault_in(RecordPart::Blurb)); },
        };
        let info: ChampInfo = match champ.get("info") {
            Some(json) => match parse_info(json) {
                Some(info) => info,
                None => { return Err(fault_in(RecordPart::Info)); },
            },
            None => { return Err(fault_in(RecordPart::Info)); },
        };
        let tags: Vec<String> = match champ.get("tags") {
            Some(json) => match json.as_text_list() {
                Some(tags) => tags,
                None => { return Err(fault_in(RecordPart::Tags)); },
            },
            None => { return Err(fault_in(RecordPart::Tags)); },
        };
        let partype: String = match champ.get_text("partype") {
            Some(text) => text.clone(),
            None => { return Err(fault_in(RecordPart::Partype)); },
        };
        let stats: RawChampStats = match champ.get("stats") {
            Some(json) => match parse_raw_stats(json) {
                Some(stats) => stats,
                None => { return Err(fault_in(RecordPart::Stats)); },
            },
            None => { return Err(fault_in(RecordPart::Stats)); },
        };
        Ok(RawChampion { id, key, name, title, blurb, info, tags, partype, stats })
    }

    /// Whether the ids of the champions all differ.
    pub fn ids_differ(raw_champs: &Vec<RawChampion>) -> (r: bool)
        ensures
            r == all_distinct(raw_ids(raw_views(raw_champs@))),
    {
        let ghost ids = raw_ids(raw_views(raw_champs@));
        let mut i: usize = 0;
        while i < raw_champs.len()
            invariant
                i <= raw_champs.len(),
                ids == raw_ids(raw_views(raw_champs@)),
                forall|a: int, b: int| 0 <= a < b < i ==> ids[a] != ids[b],
            decreases raw_champs.len() - i,
        {
            let mut k: usize = 0;
            while k < i
                invariant
                    k <= i < raw_champs.len(),
                    ids == raw_ids(raw_views(raw_champs@)),
                    forall|a: int| 0 <= a < k ==> ids[a] != ids[i as int],
                decreases i - k,
            {
                if raw_champs[k].id == raw_champs[i].id {
                    assert(ids[k as int] == ids[i as int]);
                    return false;
                }
                k += 1;
            }
            i += 1;
        }
        true
    }

    /// Holds the corrections against the champions, then applies them. Where
    /// they do not fit, nothing is merged.
    pub fn process_and_correct(
        raw_champs: Vec<RawChampion>,
        corrections: SpecialCases,
    ) -> (r: Result<Vec<Champion>, ChampCreationError>)
        requires
            all_keys_numeric(raw_views(raw_champs@)),
        ensures
            corrections_consistent(raw_ids(raw_views(raw_champs@)), corrections@) ==> r is Ok
                && champion_views(r->Ok_0@) == merged_all(raw_views(raw_champs@), corrections@),
            !corrections_consistent(raw_ids(raw_views(raw_champs@)), corrections@) ==> r is Err
                && is_verification_error(r->Err_0),
    {
        if !ChampDir::verify(&raw_champs, &corrections) {
            return Err(verification_failed());
        }
        Ok(ChampDir::correct_all(raw_champs, &corrections))
    }

    /// Applies the corrections: each champion whose id they list gets its
    /// correction, every other champion the default statistics.
    pub fn correct_all(raw_champs: Vec<RawChampion>, corrections: &SpecialCases) -> (r: Vec<
        Champion,
    >)
        requires
            all_keys_numeric(raw_views(raw_champs@)),
        ensures
            champion_views(r@) == merged_all(raw_views(raw_champs@), corrections@),
    {
        let ghost raw = raw_views(raw_champs@);
        let mut merged_champs: Vec<Champion> = Vec::new();
        for champ in it: raw_champs
            invariant
                raw == raw_views(raw_champs@),
                all_keys_numeric(raw),
                merged_champs@.len() == it.index(),
                forall|j: int|
                    0 <= j < it.index() ==> (#[trigger] merged_champs@[j])@ == merged(
                        raw[j],
                        corrections@,
                    ),
        {
            assert(champ == raw_champs@[it.index() as int]);
            assert(raw[it.index() as int] == champ@);
            match corrections.get_adjustment(champ.id.as_str()) {
                Some(adjustment) => merged_champs.push(champ.adjust(adjustment)),
                None => merged_champs.push(champ.into()),
            }
        }
        assert(champion_views(merged_champs@) =~= merged_all(raw, corrections@));
        merged_champs
    }

    /// Whether the corrections fit the champions: every id that is listed as a
    /// special case has a correction and belongs to one of the champions.
    pub fn verify(raw_champs: &Vec<RawChampion>, corrections: &SpecialCases) -> (r: bool)
        ensures
            r == corrections_consistent(raw_ids(raw_views(raw_champs@)), corrections@),
    {
        let ghost ids = raw_ids(raw_views(raw_champs@));
        let mut i: usize = 0;
        while i < corrections.special_case_champs.len()
            invariant
                i <= corrections.special_case_champs.len(),
                ids == raw_ids(raw_views(raw_champs@)),
                forall|j: int|
                    0 <= j < i ==> has_key(
                        corrections@.ids,
                        #[trigger] corrections@.special_case_champs[j],
                    ) && has_key(ids, corrections@.special_case_champs[j]),
            decreases corrections.special_case_champs.len() - i,
        {
            let champ: &String = &corrections.special_case_champs[i];
            assert(champ@ == corrections@.special_case_champs[i as int]);
            let listed: bool = corrections.get_adjustment(champ.as_str()).is_some();
            proof {
                lemma_first_index(corrections@.ids, champ@);
            }
            if !listed || !ChampDir::has_id(raw_champs, champ) {
                return false;
            }
            i += 1;
        }
        true
    }

    /// Whether one of the champions has this id.
    pub fn has_id(raw_champs: &Vec<RawChampion>, id: &String) -> (r: bool)
        ensures
            r == has_key(raw_ids(raw_views(raw_champs@)), id@),
    {
        let ghost ids = raw_ids(raw_views(raw_champs@));
        let mut i: usize = 0;
        while i < raw_champs.len()
            invariant
                i <= raw_champs.len(),
                ids == raw_ids(raw_views(raw_champs@)),
                forall|j: int| 0 <= j < i ==> ids[j] != id@,
            decreases raw_champs.len() - i,
        {
            if raw_champs[i].id == *id {
                assert(ids[i as int] == id@);
                return true;
            }
            i += 1;
        }
        false
    }
}

/// Whether a bulk source can be read: its `data` member is an object of sound
/// records.
pub open spec fn bulk_source_sound(champ_json: JsonValue) -> bool {
    match champ_json.field("data"@) {
        Some(JsonValue::Object(members)) => first_fault(members@) is None,
        _ => false,
    }
}

/// The ids of the champions of a sound bulk source, in order.
pub open spec fn bulk_source_ids(champ_json: JsonValue) -> Seq<Seq<char>> {
    raw_ids(records_of(champ_json.field("data"@)->Some_0->Object_0@))
}

/// Where the corrections list an id as a special case and hold no correction
/// for it, no directory is built; where the bulk source is sound, the
/// construction ends with the error that the corrections do not fit, whether
/// or not the ids of the source all differ.
pub proof fn lemma_special_case_without_correction(
    champ_json: JsonValue,
    special_case_json: JsonValue,
    id: Seq<char>,
)
    requires
        special_cases_well_formed(special_case_json),
        special_cases_of(special_case_json).special_case_champs.contains(id),
        !has_key(special_cases_of(special_case_json).ids, id),
    ensures
        !(construction_of(champ_json, special_case_json) is Built),
        bulk_source_sound(champ_json) ==> construction_of(champ_json, special_case_json)
            is Inconsistent,
{
    let corrections = special_cases_of(special_case_json);
    let i = choose|i: int|
        0 <= i < corrections.special_case_champs.len() && corrections.special_case_champs[i] == id;
    assert(!has_key(corrections.ids, corrections.special_case_champs[i]));
}

/// Where the corrections list an id as a special case and no champion of the
/// bulk source has that id, no directory is built; where the bulk source is
/// sound, the construction ends with the error that the corrections do not
/// fit, whether or not the ids of the source all differ.
pub proof fn lemma_special_case_without_champion(
    champ_json: JsonValue,
    special_case_json: JsonValue,
    id: Seq<char>,
)
    requires
        special_cases_well_formed(special_case_json),
        special_cases_of(special_case_json).special_case_champs.contains(id),
        bulk_source_sound(champ_json) ==> !has_key(bulk_source_ids(champ_json), id),
    ensures
        !(construction_of(champ_json, special_case_json) is Built),
        bulk_source_sound(champ_json) ==> construction_of(champ_json, special_case_json)
            is Inconsistent,
{
    let corrections = special_cases_of(special_case_json);
    let i = choose|i: int|
        0 <= i < corrections.special_case_champs.len() && corrections.special_case_champs[i] == id;
    if bulk_source_sound(champ_json) {
        assert(!has_key(bulk_source_ids(champ_json), corrections.special_case_champs[i]));
    }
}

/// Where the corrections fit a sound bulk source in which two champions share
/// an id, the construction ends with a parse error without detail.
pub proof fn lemma_shared_id_is_refused(champ_json: JsonValue, special_case_json: JsonValue)
    requires
        special_cases_well_formed(special_case_json),
        bulk_source_sound(champ_json),
        corrections_consistent(bulk_source_ids(champ_json), special_cases_of(special_case_json)),
        !all_distinct(bulk_source_ids(champ_json)),
    ensures
        construction_of(champ_json, special_case_json) == Construction::Malformed(None),
{
}

/// A directory that is built holds one champion for each record of the bulk
/// source, in the order of the records and under the ids of the records, and
/// the ids all differ.
pub proof fn lemma_built_directory(champ_json: JsonValue, special_case_json: JsonValue)
    requires
        construction_of(champ_json, special_case_json) is Built,
    ensures
        bulk_source_sound(champ_json),
        special_cases_well_formed(special_case_json),
        champion_ids(construction_of(champ_json, special_case_json)->Built_0) == bulk_source_ids(
            champ_json,
        ),
        all_distinct(bulk_source_ids(champ_json)),
        corrections_consistent(bulk_source_ids(champ_json), special_cases_of(special_case_json)),
{
    assert(champion_ids(construction_of(champ_json, special_case_json)->Built_0)
        =~= bulk_source_ids(champ_json));
}

} // verus!
