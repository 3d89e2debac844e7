//! Hand-authored corrections: which champions need one, and what it changes.
//!
//! A correction holds bonuses, which are added to a base statistic, and stat
//! overrides, which replace one. Members that the loader does not know are
//! passed over; a known member that is no number is an error.

use crate::champion::diagnostic::ParseDiagnostic;
use crate::json::{member_keys, JsonMember, JsonValue};
use crate::lookup::{
    all_distinct, first_index, lemma_first_index, lemma_first_index_absent,
    lemma_first_index_found,
};
use vstd::prelude::*;

verus! {

/// An amount added to a base statistic, in thousandths.
#[allow(non_camel_case_types)]
#[derive(Debug, Clone, Copy, PartialEq, Eq, Structural)]
pub enum Bonus {
    movespeed(i32),
}

/// A value that replaces a base statistic, in thousandths.
#[allow(non_camel_case_types)]
#[derive(Debug, Clone, Copy, PartialEq, Eq, Structural)]
pub enum Stats {
    movespeedperlevel(i32),
    attackrangeperlevel(i32),
    attackspeedratio(i32),
    attackspeedbonusat1(i32),
}

/// The correction of one champion. A list that would be empty is absent.
#[derive(Debug, Clone, PartialEq, Eq)]
pub struct ChampAdjustment {
    pub bonus: Option<Vec<Bonus>>,
    pub stats: Option<Vec<Stats>>,
}

/// A correction as plain values.
pub struct AdjustmentView {
    pub bonus: Option<Seq<Bonus>>,
    pub stats: Option<Seq<Stats>>,
}

impl View for ChampAdjustment {
    type V = AdjustmentView;

    open spec fn view(&self) -> AdjustmentView {
        AdjustmentView {
            bonus: match self.bonus {
                Some(list) => Some(list@),
                None => None,
            },
            stats: match self.stats {
                Some(list) => Some(list@),
                None => None,
            },
        }
    }
}

/// One entry of the table of corrections: a champion's id and its correction.
#[derive(Debug, Clone, PartialEq, Eq)]
pub struct AdjustmentEntry {
    pub id: String,
    pub adjustment: ChampAdjustment,
}

/// The corrections: the ids of the champions that are expected to need one,
/// and the table of corrections by id. A table is well formed where it names
/// no id twice; where it does name one twice, the first entry counts.
#[derive(Debug, Clone, PartialEq, Eq)]
pub struct SpecialCases {
    pub special_case_champs: Vec<String>,
    pub adjustments: Vec<AdjustmentEntry>,
}

/// The corrections as plain values.
pub struct SpecialCasesView {
    pub special_case_champs: Seq<Seq<char>>,
    pub ids: Seq<Seq<char>>,
    pub adjustments: Seq<AdjustmentView>,
}

impl SpecialCasesView {
    /// The correction listed for `id`, if there is one.
    pub open spec fn adjustment_for(self, id: Seq<char>) -> Option<AdjustmentView> {
        match first_index(self.ids, id) {
            Some(i) => Some(self.adjustments[i]),
            None => None,
        }
    }
}

impl View for SpecialCases {
    type V = SpecialCasesView;

    open spec fn view(&self) -> SpecialCasesView {
        SpecialCasesView {
            special_case_champs: Seq::new(
                self.special_case_champs@.len(),
                |i: int| self.special_case_champs@[i]@,
            ),
            ids: Seq::new(self.adjustments@.len(), |i: int| self.adjustments@[i].id@),
            adjustments: Seq::new(
                self.adjustments@.len(),
                |i: int| self.adjustments@[i].adjustment@,
            ),
        }
    }
}

/// Why the corrections could not be loaded.
#[derive(Debug, Clone, Copy, PartialEq, Eq, Structural)]
pub enum SpecialCaseError {
    /// The source could not be read.
    FileError,
    /// The document does not have the expected form.
    ParseError(Option<ParseDiagnostic>),
}

/// The bonus that a member of a `bonus` object stands for, if it is a known
/// one with a number as its value.
pub open spec fn bonus_of(member: JsonMember) -> Option<Bonus> {
    if member.key@ == "movespeed"@ {
        match member.value {
            JsonValue::Number(x) => Some(Bonus::movespeed(x)),
            _ => None,
        }
    } else {
        None
    }
}

/// Whether a member of a `bonus` object is a known one whose value is no
/// number.
pub open spec fn bonus_malformed(member: JsonMember) -> bool {
    member.key@ == "movespeed"@ && !(member.value is Number)
}

/// The bonuses that the members of a `bonus` object stand for, in order.
pub open spec fn bonuses_of(members: Seq<JsonMember>) -> Seq<Bonus>
    decreases members.len(),
{
    if members.len() == 0 {
        Seq::empty()
    } else {
        let front = bonuses_of(members.drop_last());
        match bonus_of(members.last()) {
            Some(bonus) => front.push(bonus),
            None => front,
        }
    }
}

/// Whether every known member of a `bonus` object is a number.
pub open spec fn bonuses_well_formed(members: Seq<JsonMember>) -> bool {
    forall|i: int| 0 <= i < members.len() ==> !bonus_malformed(#[trigger] members[i])
}

/// The override that a member of a `stats` object stands for, if it is a known
/// one with a number as its value.
pub open spec fn stat_of(member: JsonMember) -> Option<Stats> {
    match member.value {
        JsonValue::Number(x) => if member.key@ == "movespeedperlevel"@ {
            Some(Stats::movespeedperlevel(x))
        } else if member.key@ == "attackrangeperlevel"@ {
            Some(Stats::attackrangeperlevel(x))
        } else if member.key@ == "attackspeedratio"@ {
            Some(Stats::attackspeedratio(x))
        } else if member.key@ == "attackspeedbonusat1"@ {
            Some(Stats::attackspeedbonusat1(x))
        } else {
            None
        },
        _ => None,
    }
}

/// Whether `key` names a known member of a `stats` object.
pub open spec fn is_stat_key(key: Seq<char>) -> bool {
    key == "movespeedperlevel"@ || key == "attackrangeperlevel"@ || key == "attackspeedratio"@
        || key == "attackspeedbonusat1"@
}

/// Whether a member of a `stats` object is a known one whose value is no
/// number.
pub open spec fn stat_malformed(member: JsonMember) -> bool {
    is_stat_key(member.key@) && !(member.value is Number)
}

/// The overrides that the members of a `stats` object stand for, in order.
pub open spec fn stats_of(members: Seq<JsonMember>) -> Seq<Stats>
    decreases members.len(),
{
    if members.len() == 0 {
        Seq::empty()
    } else {
        let front = stats_of(members.drop_last());
        match stat_of(members.last()) {
            Some(stat) => front.push(stat),
            None => front,
        }
    }
}

/// Whether every known member of a `stats` object is a number.
pub open spec fn stats_well_formed(members: Seq<JsonMember>) -> bool {
    forall|i: int| 0 <= i < members.len() ==> !stat_malformed(#[trigger] members[i])
}

/// A list, or nothing where the list is empty.
pub open spec fn unless_empty<T>(list: Seq<T>) -> Option<Seq<T>> {
    if list.len() > 0 {
        Some(list)
    } else {
        None
    }
}

/// Whether the `bonus` and `stats` members of a correction, where it has
/// them, are objects whose known members are numbers.
pub open spec fn adjustment_well_formed(json: JsonValue) -> bool {
    &&& match json.field("stats"@) {
        None => true,
        Some(JsonValue::Object(members)) => stats_well_formed(members@),
        Some(_) => false,
    }
    &&& match json.field("bonus"@) {
        None => true,
        Some(JsonValue::Object(members)) => bonuses_well_formed(members@),
        Some(_) => false,
    }
}

/// The correction that a well-formed JSON value stands for.
pub open spec fn adjustment_of(json: JsonValue) -> AdjustmentView {
    AdjustmentView {
        bonus: match json.field("bonus"@) {
            Some(JsonValue::Object(members)) => unless_empty(bonuses_of(members@)),
            _ => None,
        },
        stats: match json.field("stats"@) {
            Some(JsonValue::Object(members)) => unless_empty(stats_of(members@)),
            _ => None,
        },
    }
}

/// Whether every member of the table of corrections is well formed.
pub open spec fn all_adjustments_well_formed(members: Seq<JsonMember>) -> bool {
    forall|i: int| 0 <= i < members.len() ==> adjustment_well_formed((#[trigger] members[i]).value)
}

/// Whether a document has the form of a set of corrections: an object whose
/// `special_case_champs` is an array of strings and whose `special_cases` is an
/// object of well-formed corrections.
pub open spec fn special_cases_well_formed(json: JsonValue) -> bool {
    &&& match json.field("special_case_champs"@) {
        Some(list) => list.text_list() is Some,
        None => false,
    }
    &&& match json.field("special_cases"@) {
        Some(JsonValue::Object(members)) => all_adjustments_well_formed(members@),
        _ => false,
    }
}

/// The set of corrections that a well-formed document stands for.
pub open spec fn special_cases_of(json: JsonValue) -> SpecialCasesView {
    let members = json.field("special_cases"@)->Some_0->Object_0@;
    SpecialCasesView {
        special_case_champs: json.field("special_case_champs"@)->Some_0.text_list()->Some_0,
        ids: member_keys(members),
        adjustments: Seq::new(members.len(), |i: int| adjustment_of(members[i].value)),
    }
}

impl SpecialCases {
    /// Whether the table names no id twice, so that it is a map from ids to
    /// corrections.
    pub open spec fn wf(self) -> bool {
        all_distinct(self@.ids)
    }

    /// Reads a set of corrections from a JSON document. It fails, with a parse
    /// error without detail, exactly where the document does not have the form
    /// of one. The table is well formed where the members of `special_cases`
    /// all differ in name.
    #[verifier::loop_isolation(false)]
    pub fn new_from_value(json: JsonValue) -> (r: Result<Self, SpecialCaseError>)
        ensures
            special_cases_well_formed(json) ==> r is Ok && r->Ok_0@ == special_cases_of(json),
            special_cases_well_formed(json) && all_distinct(
                member_keys(json.field("special_cases"@)->Some_0->Object_0@),
            ) ==> r->Ok_0.wf(),
            !special_cases_well_formed(json) ==> r == Err::<Self, SpecialCaseError>(
                SpecialCaseError::ParseError(None),
            ),
    {
        let champs: &JsonValue = match json.get("special_case_champs") {
            Some(list) => list,
            None => { return Err(SpecialCaseError::ParseError(None)); },
        };
        let cases: &Vec<JsonMember> = match json.get("special_cases") {
            Some(JsonValue::Object(members)) => members,
            _ => { return Err(SpecialCaseError::ParseError(None)); },
        };

        let champ_list: Vec<String> = match champs.as_text_list() {
            Some(texts) => texts,
            None => { return Err(SpecialCaseError::ParseError(None)); },
        };

        let mut champ_map: Vec<AdjustmentEntry> = Vec::new();
        let mut k: usize = 0;
        while k < cases.len()
            invariant
                k <= cases.len(),
                champ_map@.len() == k,
                forall|j: int| 0 <= j < k ==> adjustment_well_formed((#[trigger] cases@[j]).value),
                forall|j: int|
                    0 <= j < k ==> (#[trigger] champ_map@[j]).id@ == cases@[j].key@
                        && champ_map@[j].adjustment@ == adjustment_of(cases@[j].value),
            decreases cases.len() - k,
        {
            match SpecialCases::parse_adjustment_val(&cases[k].value) {
                Ok(adjustment) => {
                    champ_map.push(AdjustmentEntry { id: cases[k].key.clone(), adjustment });
                },
                Err(_) => {
                    assert(!all_adjustments_well_formed(cases@));
                    return Err(SpecialCaseError::ParseError(None));
                },
            }
            k += 1;
        }

        let loaded = SpecialCases { special_case_champs: champ_list, adjustments: champ_map };
        proof {
            let want = special_cases_of(json);
            assert(loaded@.special_case_champs =~= want.special_case_champs);
            assert(loaded@.ids =~= want.ids);
            assert(loaded@.adjustments =~= want.adjustments);
        }
        Ok(loaded)
    }

    /// Reads one correction. Its `stats` and `bonus` members, where it has
    /// them, must be objects.
    pub fn parse_adjustment_val(json: &JsonValue) -> (r: Result<ChampAdjustment, SpecialCaseError>)
        ensures
            adjustment_well_formed(*json) ==> r is Ok && r->Ok_0@ == adjustment_of(*json),
            !adjustment_well_formed(*json) ==> r == Err::<ChampAdjustment, SpecialCaseError>(
                SpecialCaseError::ParseError(None),
            ),
    {
        let mut stats: Option<Vec<Stats>> = None;
        let mut bonus: Option<Vec<Bonus>> = None;

        match json.get("stats") {
            Some(JsonValue::Object(members)) => {
                match SpecialCases::parse_stats(members) {
                    Ok(list) => { stats = list; },
                    Err(e) => { return Err(e); },
                }
            },
            Some(_) => { return Err(SpecialCaseError::ParseError(None)); },
            None => {},
        }
        match json.get("bonus") {
            Some(JsonValue::Object(members)) => {
                match SpecialCases::parse_bonus(members) {
                    Ok(list) => { bonus = list; },
                    Err(e) => { return Err(e); },
                }
            },
            Some(_) => { return Err(SpecialCaseError::ParseError(None)); },
            None => {},
        }
        Ok(ChampAdjustment { bonus, stats })
    }

    /// Reads the members of a `bonus` object.
    pub fn parse_bonus(json: &Vec<JsonMember>) -> (r: Result<Option<Vec<Bonus>>, SpecialCaseError>)
        ensures
            bonuses_well_formed(json@) ==> r is Ok && (match r->Ok_0 {
                Some(list) => Some(list@),
                None => None,
            }) == unless_empty(bonuses_of(json@)),
            !bonuses_well_formed(json@) ==> r == Err::<Option<Vec<Bonus>>, SpecialCaseError>(
                SpecialCaseError::ParseError(None),
            ),
    {
        let movespeed = "movespeed".to_owned();
        let mut vec: Vec<Bonus> = Vec::new();
        let mut i: usize = 0;
        while i < json.len()
            invariant
                i <= json.len(),
                movespeed@ == "movespeed"@,
                forall|j: int| 0 <= j < i ==> !bonus_malformed(#[trigger] json@[j]),
                vec@ == bonuses_of(json@.take(i as int)),
            decreases json.len() - i,
        {
            proof {
                assert(json@.take(i + 1).drop_last() =~= json@.take(i as int));
            }
            if json[i].key == movespeed {
                match &json[i].value {
                    JsonValue::Number(x) => vec.push(Bonus::movespeed(*x)),
                    _ => {
                        assert(bonus_malformed(json@[i as int]));
                        return Err(SpecialCaseError::ParseError(None));
                    },
                }
            }
            i += 1;
        }
        proof {
            assert(json@.take(i as int) =~= json@);
        }
        if vec.len() > 0 {
            Ok(Some(vec))
        } else {
            Ok(None)
        }
    }

    /// Reads the members of a `stats` object.
    pub fn parse_stats(json: &Vec<JsonMember>) -> (r: Result<Option<Vec<Stats>>, SpecialCaseError>)
        ensures
            stats_well_formed(json@) ==> r is Ok && (match r->Ok_0 {
                Some(list) => Some(list@),
                None => None,
            }) == unless_empty(stats_of(json@)),
            !stats_well_formed(json@) ==> r == Err::<Option<Vec<Stats>>, SpecialCaseError>(
                SpecialCaseError::ParseError(None),
            ),
    {
        let movespeedperlevel = "movespeedperlevel".to_owned();
        let attackrangeperlevel = "attackrangeperlevel".to_owned();
        let attackspeedratio = "attackspeedratio".to_owned();
        let attackspeedbonusat1 = "attackspeedbonusat1".to_owned();
        let mut vec: Vec<Stats> = Vec::new();
        let mut i: usize = 0;
        while i < json.len()
            invariant
                i <= json.len(),
                movespeedperlevel@ == "movespeedperlevel"@,
                attackrangeperlevel@ == "attackrangeperlevel"@,
                attackspeedratio@ == "attackspeedratio"@,
                attackspeedbonusat1@ == "attackspeedbonusat1"@,
                forall|j: int| 0 <= j < i ==> !stat_malformed(#[trigger] json@[j]),
                vec@ == stats_of(json@.take(i as int)),
            decreases json.len() - i,
        {
            proof {
                assert(json@.take(i + 1).drop_last() =~= json@.take(i as int));
            }
            let known: bool = json[i].key == movespeedperlevel || json[i].key
                == attackrangeperlevel || json[i].key == attackspeedratio || json[i].key
                == attackspeedbonusat1;
            if known {
                match &json[i].value {
                    JsonValue::Number(x) => {
                        if json[i].key == movespeedperlevel {
                            vec.push(Stats::movespeedperlevel(*x));
                        } else if json[i].key == attackrangeperlevel {
                            vec.push(Stats::attackrangeperlevel(*x));
                        } else if json[i].key == attackspeedratio {
                            vec.push(Stats::attackspeedratio(*x));
                        } else {
                            vec.push(Stats::attackspeedbonusat1(*x));
                        }
                    },
                    _ => {
                        assert(stat_malformed(json@[i as int]));
                        return Err(SpecialCaseError::ParseError(None));
                    },
                }
            }
            i += 1;
        }
        proof {
            assert(json@.take(i as int) =~= json@);
        }
        if vec.len() > 0 {
            Ok(Some(vec))
        } else {
            Ok(None)
        }
    }

    /// The correction listed for `id`: that of the first entry with this id.
    pub fn get_adjustment(&self, id: &str) -> (r: Option<&ChampAdjustment>)
        ensures
            match r {
                Some(adjustment) => self@.adjustment_for(id@) == Some(adjustment@),
                None => self@.adjustment_for(id@) is None,
            },
    {
        let wanted = id.to_owned();
        let mut i: usize = 0;
        while i < self.adjustments.len()
            invariant
                i <= self.adjustments.len(),
                wanted@ == id@,
                forall|j: int| 0 <= j < i ==> self@.ids[j] != id@,
            decreases self.adjustments.len() - i,
        {
            if self.adjustments[i].id == wanted {
                proof {
                    lemma_first_index_found(self@.ids, id@, i as int);
                }
                return Some(&self.adjustments[i].adjustment);
            }
            i += 1;
        }
        proof {
            lemma_first_index_absent(self@.ids, id@);
        }
        None
    }
}

/// In a table that names no id twice, the correction listed for an id is the
/// one of the only entry with that id.
pub proof fn lemma_well_formed_table_is_a_map(cases: SpecialCases, i: int)
    requires
        cases.wf(),
        0 <= i < cases@.ids.len(),
    ensures
        cases@.adjustment_for(cases@.ids[i]) == Some(cases@.adjustments[i]),
        forall|j: int| 0 <= j < cases@.ids.len() && j != i ==> cases@.ids[j] != cases@.ids[i],
{
    lemma_first_index(cases@.ids, cases@.ids[i]);
}

} // verus!
