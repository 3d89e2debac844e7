use champdir::champion::champdir::{ChampCreationError, ChampDir, RawChampion};
use champdir::champion::champion::ChampInfo;
use champdir::champion::champstats::ChampStats;
use champdir::champion::diagnostic::{ParseDiagnostic, RecordPart};
use champdir::champion::key::parse_key;
use champdir::champion::rawstats::RawChampStats;
use champdir::champion::specialcases::{AdjustmentEntry, Bonus, ChampAdjustment, SpecialCases, Stats};
use champdir::champion::{ResourceType, Roles};
use champdir::json::{find_member, JsonMember, JsonValue};

fn obj(members: Vec<(&str, JsonValue)>) -> JsonValue {
    JsonValue::Object(
        members
            .into_iter()
            .map(|(key, value)| JsonMember { key: key.to_string(), value })
            .collect(),
    )
}

fn text(s: &str) -> JsonValue {
    JsonValue::Text(s.to_string())
}

fn texts(list: &[&str]) -> JsonValue {
    JsonValue::Array(list.iter().map(|s| text(s)).collect())
}

const STAT_NAMES: [&str; 20] = [
    "hp",
    "hpperlevel",
    "mp",
    "mpperlevel",
    "movespeed",
    "armor",
    "armorperlevel",
    "spellblock",
    "spellblockperlevel",
    "attackrange",
    "hpregen",
    "hpregenperlevel",
    "mpregen",
    "mpregenperlevel",
    "crit",
    "critperlevel",
    "attackdamage",
    "attackdamageperlevel",
    "attackspeedperlevel",
    "attackspeed",
];

const STAT_VALUES: [i32; 20] = [
    660_000, 109_000, 340_600, 65_000, 335_000, 33_000, 5_200, 32_000, 2_050, 175_000, 9_000, 900,
    8_000, 600, 0, 0, 69_000, 3_500, 2_000, 625,
];

fn stats_object_without(skip: &str) -> JsonValue {
    let mut members = Vec::new();
    for (name, value) in STAT_NAMES.iter().zip(STAT_VALUES.iter()) {
        if *name != skip {
            members.push((*name, JsonValue::Number(*value)));
        }
    }
    obj(members)
}

fn info_object() -> JsonValue {
    obj(vec![
        ("attack", JsonValue::Number(5_000)),
        ("defense", JsonValue::Number(9_000)),
        ("magic", JsonValue::Number(3_000)),
        ("difficulty", JsonValue::Number(5_000)),
    ])
}

fn record_members(id: &str, key: &str, name: &str, movespeed: i32) -> Vec<(&'static str, JsonValue)> {
    let mut stats = Vec::new();
    for (stat, value) in STAT_NAMES.iter().zip(STAT_VALUES.iter()) {
        let value = if *stat == "movespeed" { movespeed } else { *value };
        stats.push((*stat, JsonValue::Number(value)));
    }
    vec![
        ("id", text(id)),
        ("key", text(key)),
        ("name", text(name)),
        ("title", text("The Fire below the Mountain")),
        ("blurb", text("A demigod of forging and craftsmanship.")),
        ("info", info_object()),
        ("tags", texts(&["Tank"])),
        ("partype", text("Mana")),
        ("stats", obj(stats)),
    ]
}

fn record(id: &str, key: &str, name: &str, movespeed: i32) -> JsonValue {
    obj(record_members(id, key, name, movespeed))
}

fn record_with(part: &'static str, value: JsonValue) -> JsonValue {
    let mut members = record_members("Ornn", "516", "Ornn", 335_000);
    for member in members.iter_mut() {
        if member.0 == part {
            member.1 = value;
            return obj(members);
        }
    }
    unreachable!()
}

fn record_without(part: &str) -> JsonValue {
    let members = record_members("Ornn", "516", "Ornn", 335_000);
    obj(members.into_iter().filter(|member| member.0 != part).collect())
}

fn bulk(records: Vec<(&str, JsonValue)>) -> JsonValue {
    obj(vec![("type", text("champion")), ("data", obj(records))])
}

fn no_corrections() -> JsonValue {
    obj(vec![("special_case_champs", texts(&[])), ("special_cases", obj(vec![]))])
}

fn corrections(listed: &[&str], table: Vec<(&str, JsonValue)>) -> JsonValue {
    obj(vec![("special_case_champs", texts(listed)), ("special_cases", obj(table))])
}

fn movespeed_bonus(amount: i32) -> JsonValue {
    obj(vec![("bonus", obj(vec![("movespeed", JsonValue::Number(amount))]))])
}

fn movespeed_bonus_out_of_range() -> JsonValue {
    obj(vec![("bonus", obj(vec![("movespeed", JsonValue::NumberOutOfRange)]))])
}

fn three_champions() -> JsonValue {
    bulk(vec![
        ("Ahri", record("Ahri", "103", "Ahri", 330_000)),
        ("Cassiopeia", record("Cassiopeia", "69", "Cassiopeia", 328_000)),
        ("Ornn", record("Ornn", "516", "Ornn", 335_000)),
    ])
}

fn verification_error() -> ChampCreationError {
    ChampCreationError::SpecialDataError("Error in verification".to_string())
}

fn record_error(part: RecordPart) -> ChampCreationError {
    ChampCreationError::ParseError(Some(ParseDiagnostic::Record(part)))
}

#[test]
fn it_works() {
    let champ_dir = ChampDir::new_from_value(three_champions(), no_corrections());
    assert!(champ_dir.is_ok())
}

#[test]
fn get_key_ok() {
    let champ_dir = ChampDir::new_from_value(three_champions(), no_corrections()).unwrap();
    let champ = champ_dir.get_by_key(516);
    assert!(champ.is_some());
    assert_eq!(champ.unwrap().name, "Ornn");
    assert!(champ_dir.get_by_key(2556).is_none());
}

#[test]
fn get_name_ok() {
    let champ_dir = ChampDir::new_from_value(three_champions(), no_corrections()).unwrap();
    let champ = champ_dir.get_by_name("Ornn");
    assert!(champ.is_some());
    assert_eq!(champ.unwrap().name, "Ornn".to_string());
    assert!(champ_dir.get_by_name("Crystal Maiden").is_none());
}

#[test]
fn one_champion_without_corrections() {
    let source = bulk(vec![("Ornn", record("Ornn", "516", "Ornn", 335_000))]);
    let dir = ChampDir::new_from_value(source, no_corrections()).unwrap();
    assert_eq!(dir.champions.len(), 1);
    let ornn = dir.get_by_key(516).unwrap();
    assert_eq!(ornn.id, "Ornn");
    assert_eq!(ornn.key, 516);
    assert_eq!(ornn.name, "Ornn");
    assert_eq!(ornn.title, "The Fire below the Mountain");
    assert_eq!(ornn.blurb, "A demigod of forging and craftsmanship.");
    assert_eq!(ornn.info, ChampInfo { attack: 5, defense: 9, magic: 3, difficulty: 5 });
    assert_eq!(ornn.tags, vec!["Tank".to_string()]);
    assert_eq!(ornn.partype, "Mana");
    assert_eq!(ornn.stats.hp, 660_000);
    assert_eq!(ornn.stats.attackspeedratio, 625);
    assert_eq!(ornn.stats.movespeedperlevel, 0);
    assert!(dir.get_by_key(999).is_none());
    assert_eq!(dir.get_by_name("Ornn"), Some(ornn));
    assert!(dir.get_by_name("Nobody").is_none());
}

#[test]
fn champions_keep_the_order_of_the_source() {
    let dir = ChampDir::new_from_value(three_champions(), no_corrections()).unwrap();
    let ids: Vec<&str> = dir.champions.iter().map(|c| c.id.as_str()).collect();
    assert_eq!(ids, vec!["Ahri", "Cassiopeia", "Ornn"]);
    let keys: Vec<i16> = dir.champions.iter().map(|c| c.key).collect();
    assert_eq!(keys, vec![103, 69, 516]);
}

#[test]
fn an_empty_source_gives_an_empty_directory() {
    let dir = ChampDir::new_from_value(bulk(vec![]), no_corrections()).unwrap();
    assert!(dir.champions.is_empty());
    assert!(dir.get_by_key(0).is_none());
    assert!(dir.get_by_name("").is_none());
}

#[test]
fn name_lookup_is_exact() {
    let dir = ChampDir::new_from_value(three_champions(), no_corrections()).unwrap();
    assert!(dir.get_by_name("ornn").is_none());
    assert!(dir.get_by_name("Ornn ").is_none());
    assert!(dir.get_by_name("Orn").is_none());
    assert_eq!(dir.get_by_name("Ahri").unwrap().key, 103);
}

#[test]
fn lookup_finds_the_first_of_several() {
    let source = bulk(vec![
        ("a", record("First", "7", "Twin", 300_000)),
        ("b", record("Second", "7", "Twin", 310_000)),
    ]);
    let dir = ChampDir::new_from_value(source, no_corrections()).unwrap();
    assert_eq!(dir.get_by_key(7).unwrap().id, "First");
    assert_eq!(dir.get_by_name("Twin").unwrap().id, "First");
}

#[test]
fn a_correction_is_merged_into_its_champion_only() {
    let table = vec![("Cassiopeia", movespeed_bonus(4_000))];
    let dir =
        ChampDir::new_from_value(three_champions(), corrections(&["Cassiopeia"], table)).unwrap();
    let cassiopeia = dir.get_by_name("Cassiopeia").unwrap();
    assert_eq!(cassiopeia.stats.movespeed, 332_000);
    for level in 1u32..=18 {
        assert_eq!(cassiopeia.get_stats_level(level).unwrap().movespeed, 332_000);
    }
    assert_eq!(dir.get_by_name("Ahri").unwrap().stats.movespeed, 330_000);
    assert_eq!(dir.get_by_name("Ornn").unwrap().stats.movespeed, 335_000);
}

#[test]
fn a_bonus_of_four_on_a_base_of_330() {
    let source = bulk(vec![("Ahri", record("Ahri", "103", "Ahri", 330_000))]);
    let table = vec![("Ahri", movespeed_bonus(4_000))];
    let dir = ChampDir::new_from_value(source, corrections(&["Ahri"], table)).unwrap();
    let ahri = dir.get_by_key(103).unwrap();
    for level in 1u32..=18 {
        assert_eq!(ahri.get_stats_level(level).unwrap().movespeed, 334_000);
    }
}

#[test]
fn a_ratio_override_replaces_the_ratio() {
    let table = vec![(
        "Ornn",
        obj(vec![("stats", obj(vec![("attackspeedratio", JsonValue::Number(400))]))]),
    )];
    let dir = ChampDir::new_from_value(three_champions(), corrections(&["Ornn"], table)).unwrap();
    let ornn = dir.get_by_key(516).unwrap();
    assert_eq!(ornn.stats.attackspeedratio, 400);
    assert_eq!(ornn.stats.attackspeed, 625);
    assert_eq!(dir.get_by_key(103).unwrap().stats.attackspeedratio, 625);
}

#[test]
fn a_correction_applies_without_being_listed() {
    let table = vec![("Ahri", movespeed_bonus(1_000))];
    let dir = ChampDir::new_from_value(three_champions(), corrections(&[], table)).unwrap();
    assert_eq!(dir.get_by_key(103).unwrap().stats.movespeed, 331_000);
}

#[test]
fn a_correction_for_an_unknown_champion_is_no_error_unless_listed() {
    let table = vec![("Nobody", movespeed_bonus(1_000))];
    let dir = ChampDir::new_from_value(three_champions(), corrections(&[], table));
    assert_eq!(dir.unwrap().champions.len(), 3);
}

#[test]
fn a_special_case_without_a_correction_fails() {
    let result = ChampDir::new_from_value(three_champions(), corrections(&["Ahri"], vec![]));
    assert_eq!(result, Err(verification_error()));
}

#[test]
fn a_special_case_without_a_champion_fails() {
    let table = vec![("Nobody", movespeed_bonus(1_000))];
    let result = ChampDir::new_from_value(three_champions(), corrections(&["Nobody"], table));
    assert_eq!(result, Err(verification_error()));
}

#[test]
fn one_bad_special_case_among_good_ones_fails() {
    let table = vec![("Ahri", movespeed_bonus(1_000)), ("Ornn", movespeed_bonus(2_000))];
    let result =
        ChampDir::new_from_value(three_champions(), corrections(&["Ahri", "Ornn", "Jhin"], table));
    assert_eq!(result, Err(verification_error()));
}

#[test]
fn malformed_corrections_fail_before_the_source_is_read() {
    let result = ChampDir::new_from_value(JsonValue::Null, JsonValue::Null);
    assert_eq!(result, Err(ChampCreationError::ParseError(None)));
    let source = bulk(vec![("Ornn", record_without("stats"))]);
    let result = ChampDir::new_from_value(source, obj(vec![]));
    assert_eq!(result, Err(ChampCreationError::ParseError(None)));
}

#[test]
fn the_source_needs_a_data_object() {
    let without = obj(vec![("type", text("champion"))]);
    assert_eq!(
        ChampDir::new_from_value(without, no_corrections()),
        Err(ChampCreationError::ParseError(None))
    );
    let wrong_kind = obj(vec![("data", JsonValue::Array(vec![]))]);
    assert_eq!(
        ChampDir::new_from_value(wrong_kind, no_corrections()),
        Err(ChampCreationError::ParseError(None))
    );
    assert_eq!(
        ChampDir::new_from_value(JsonValue::Array(vec![]), no_corrections()),
        Err(ChampCreationError::ParseError(None))
    );
}

#[test]
fn a_faulty_record_fails_the_whole_source() {
    let source = bulk(vec![
        ("Ahri", record("Ahri", "103", "Ahri", 330_000)),
        ("Ornn", record_without("partype")),
        ("Jhin", record_without("id")),
    ]);
    assert_eq!(
        ChampDir::new_from_value(source, no_corrections()),
        Err(record_error(RecordPart::Partype))
    );
}

#[test]
fn a_parse_error_comes_before_a_verification_error() {
    let source = bulk(vec![("Ornn", record_without("name"))]);
    let result = ChampDir::new_from_value(source, corrections(&["Nobody"], vec![]));
    assert_eq!(result, Err(record_error(RecordPart::Name)));
}

#[test]
fn champions_with_one_id_are_refused() {
    let source = bulk(vec![
        ("a", record("Ornn", "516", "Ornn", 335_000)),
        ("b", record("Ahri", "103", "Ahri", 330_000)),
        ("c", record("Ornn", "517", "Ornn the Second", 335_000)),
    ]);
    assert_eq!(
        ChampDir::new_from_value(source, no_corrections()),
        Err(ChampCreationError::ParseError(None))
    );
}

#[test]
fn a_shared_id_does_not_hide_a_special_case_without_a_correction() {
    let source = bulk(vec![
        ("a", record("Ornn", "516", "Ornn", 335_000)),
        ("b", record("Ornn", "517", "Ornn the Second", 335_000)),
    ]);
    let result = ChampDir::new_from_value(source, corrections(&["Ornn"], vec![]));
    assert_eq!(result, Err(verification_error()));
}

#[test]
fn a_shared_id_does_not_hide_a_special_case_without_a_champion() {
    let source = bulk(vec![
        ("a", record("Ornn", "516", "Ornn", 335_000)),
        ("b", record("Ornn", "517", "Ornn the Second", 335_000)),
    ]);
    let table = vec![("Jhin", movespeed_bonus(1_000))];
    let result = ChampDir::new_from_value(source, corrections(&["Jhin"], table));
    assert_eq!(result, Err(verification_error()));
}

#[test]
fn a_shared_id_is_refused_where_the_corrections_fit() {
    let source = bulk(vec![
        ("a", record("Ornn", "516", "Ornn", 335_000)),
        ("b", record("Ornn", "517", "Ornn the Second", 335_000)),
    ]);
    let table = vec![("Ornn", movespeed_bonus(1_000))];
    let result = ChampDir::new_from_value(source, corrections(&["Ornn"], table));
    assert_eq!(result, Err(ChampCreationError::ParseError(None)));
}

#[test]
fn a_faulty_record_comes_before_a_shared_id() {
    let source = bulk(vec![
        ("a", record("Ornn", "516", "Ornn", 335_000)),
        ("b", record("Ornn", "517", "Ornn the Second", 335_000)),
        ("c", record_without("tags")),
    ]);
    let result = ChampDir::new_from_value(source, corrections(&["Jhin"], vec![]));
    assert_eq!(result, Err(record_error(RecordPart::Tags)));
}

#[test]
fn a_number_out_of_range_matters_only_where_it_is_read() {
    let mut members = record_members("Ornn", "516", "Ornn", 335_000);
    members.push(("timestamp", JsonValue::NumberOutOfRange));
    members.push(("image", obj(vec![("x", JsonValue::NumberOutOfRange)])));
    let source = obj(vec![
        ("version", JsonValue::NumberOutOfRange),
        ("data", obj(vec![("Ornn", obj(members))])),
    ]);
    let table = vec![(
        "Ornn",
        obj(vec![
            ("bonus", obj(vec![("armor", JsonValue::NumberOutOfRange)])),
            ("stats", obj(vec![("hp", JsonValue::NumberOutOfRange)])),
            ("patch", JsonValue::NumberOutOfRange),
        ]),
    )];
    let dir = ChampDir::new_from_value(source, corrections(&["Ornn"], table)).unwrap();
    assert_eq!(dir.get_by_key(516).unwrap().stats.movespeed, 335_000);
}

#[test]
fn a_number_out_of_range_is_no_number_where_one_is_needed() {
    let mut stats = Vec::new();
    for (name, value) in STAT_NAMES.iter().zip(STAT_VALUES.iter()) {
        let value =
            if *name == "hp" { JsonValue::NumberOutOfRange } else { JsonValue::Number(*value) };
        stats.push((*name, value));
    }
    assert_eq!(
        ChampDir::parse_champ(&record_with("stats", obj(stats))),
        Err(record_error(RecordPart::Stats))
    );
    let info = obj(vec![
        ("attack", JsonValue::NumberOutOfRange),
        ("defense", JsonValue::Number(1_000)),
        ("magic", JsonValue::Number(1_000)),
        ("difficulty", JsonValue::Number(1_000)),
    ]);
    assert_eq!(
        ChampDir::parse_champ(&record_with("info", info)),
        Err(record_error(RecordPart::Info))
    );
    assert_eq!(
        ChampDir::parse_champ(&record_with("key", JsonValue::NumberOutOfRange)),
        Err(record_error(RecordPart::Key))
    );
    let table = vec![("Ornn", movespeed_bonus_out_of_range())];
    assert_eq!(
        ChampDir::new_from_value(three_champions(), corrections(&[], table)),
        Err(ChampCreationError::ParseError(None))
    );
    assert_eq!(obj(vec![("a", JsonValue::NumberOutOfRange)]).get_number("a"), None);
}

#[test]
fn correcting_without_holding_the_corrections_against_the_champions() {
    let merged = ChampDir::correct_all(raw_champions(), &special_cases(&["Jhin"], &["Ahri"]));
    assert_eq!(merged.len(), 2);
    assert_eq!(merged[0].id, "Ahri");
    assert_eq!(merged[0].stats.movespeed, 334_000);
    assert_eq!(merged[0].stats.attackrangeperlevel, 10_000);
    assert_eq!(merged[1].id, "Ornn");
    assert_eq!(merged[1].stats.movespeed, 335_000);
    assert!(ChampDir::correct_all(Vec::new(), &special_cases(&[], &[])).is_empty());
}

#[test]
fn a_record_must_be_an_object() {
    for value in [JsonValue::Null, text("Ornn"), JsonValue::Array(vec![]), JsonValue::Number(1)] {
        assert_eq!(ChampDir::parse_champ(&value), Err(record_error(RecordPart::Whole)));
    }
}

#[test]
fn a_sound_record_is_read() {
    let raw = ChampDir::parse_champ(&record("Ornn", "516", "Ornn", 335_000)).unwrap();
    assert_eq!(
        raw,
        RawChampion {
            id: "Ornn".to_string(),
            key: "516".to_string(),
            name: "Ornn".to_string(),
            title: "The Fire below the Mountain".to_string(),
            blurb: "A demigod of forging and craftsmanship.".to_string(),
            info: ChampInfo { attack: 5, defense: 9, magic: 3, difficulty: 5 },
            tags: vec!["Tank".to_string()],
            partype: "Mana".to_string(),
            stats: RawChampStats {
                hp: 660_000,
                hpperlevel: 109_000,
                mp: 340_600,
                mpperlevel: 65_000,
                movespeed: 335_000,
                armor: 33_000,
                armorperlevel: 5_200,
                spellblock: 32_000,
                spellblockperlevel: 2_050,
                attackrange: 175_000,
                hpregen: 9_000,
                hpregenperlevel: 900,
                mpregen: 8_000,
                mpregenperlevel: 600,
                crit: 0,
                critperlevel: 0,
                attackdamage: 69_000,
                attackdamageperlevel: 3_500,
                attackspeedperlevel: 2_000,
                attackspeed: 625,
            },
        }
    );
}

#[test]
fn each_missing_part_is_named() {
    let parts = [
        ("id", RecordPart::Id),
        ("key", RecordPart::Key),
        ("name", RecordPart::Name),
        ("title", RecordPart::Title),
        ("blurb", RecordPart::Blurb),
        ("info", RecordPart::Info),
        ("tags", RecordPart::Tags),
        ("partype", RecordPart::Partype),
        ("stats", RecordPart::Stats),
    ];
    for (name, part) in parts {
        assert_eq!(ChampDir::parse_champ(&record_without(name)), Err(record_error(part)));
    }
}

#[test]
fn each_part_of_the_wrong_kind_is_named() {
    let parts = [
        ("id", RecordPart::Id),
        ("key", RecordPart::Key),
        ("name", RecordPart::Name),
        ("title", RecordPart::Title),
        ("blurb", RecordPart::Blurb),
        ("info", RecordPart::Info),
        ("tags", RecordPart::Tags),
        ("partype", RecordPart::Partype),
        ("stats", RecordPart::Stats),
    ];
    for (name, part) in parts {
        let result = ChampDir::parse_champ(&record_with(name, JsonValue::Bool(true)));
        assert_eq!(result, Err(record_error(part)));
    }
}

#[test]
fn the_first_faulty_part_is_reported() {
    let members: Vec<(&str, JsonValue)> = record_members("Ornn", "516", "Ornn", 335_000)
        .into_iter()
        .filter(|member| member.0 != "title" && member.0 != "stats" && member.0 != "key")
        .collect();
    assert_eq!(ChampDir::parse_champ(&obj(members)), Err(record_error(RecordPart::Key)));
}

#[test]
fn a_key_that_is_no_number_is_a_parse_error() {
    for key in ["", "five", "51x", "5 16", "516.0", "-", "+", "40000", "-40000"] {
        let result = ChampDir::parse_champ(&record_with("key", text(key)));
        assert_eq!(result, Err(record_error(RecordPart::Key)));
    }
    let number = ChampDir::parse_champ(&record_with("key", JsonValue::Number(516_000)));
    assert_eq!(number, Err(record_error(RecordPart::Key)));
}

#[test]
fn keys_are_read_as_decimal_numbers() {
    assert_eq!(parse_key("516"), Some(516));
    assert_eq!(parse_key("0"), Some(0));
    assert_eq!(parse_key("-1"), Some(-1));
    assert_eq!(parse_key("+7"), Some(7));
    assert_eq!(parse_key("-0"), Some(0));
    assert_eq!(parse_key("000516"), Some(516));
    assert_eq!(parse_key("00000000000000000000000000000042"), Some(42));
    assert_eq!(parse_key("32767"), Some(i16::MAX));
    assert_eq!(parse_key("-32768"), Some(i16::MIN));
    assert_eq!(parse_key("32768"), None);
    assert_eq!(parse_key("-32769"), None);
    assert_eq!(parse_key("99999999999999999999"), None);
    assert_eq!(parse_key(""), None);
    assert_eq!(parse_key("-"), None);
    assert_eq!(parse_key("+"), None);
    assert_eq!(parse_key("+-1"), None);
    assert_eq!(parse_key("1-"), None);
    assert_eq!(parse_key(" 1"), None);
    assert_eq!(parse_key("1 "), None);
    assert_eq!(parse_key("12a"), None);
    assert_eq!(parse_key("٣"), None);
}

#[test]
fn keys_are_read_as_the_standard_library_reads_them() {
    for text in ["516", "-32768", "32768", "+12", "", "-", "0x10", "1_000", "007", "٣", "1e3"] {
        assert_eq!(parse_key(text), text.parse::<i16>().ok());
    }
}

#[test]
fn ratings_are_whole_numbers_that_fit() {
    let with_info = |attack: i32| {
        record_with(
            "info",
            obj(vec![
                ("attack", JsonValue::Number(attack)),
                ("defense", JsonValue::Number(-128_000)),
                ("magic", JsonValue::Number(127_000)),
                ("difficulty", JsonValue::Number(0)),
            ]),
        )
    };
    let raw = ChampDir::parse_champ(&with_info(-3_000)).unwrap();
    assert_eq!(raw.info, ChampInfo { attack: -3, defense: -128, magic: 127, difficulty: 0 });
    for attack in [3_500, 1, -1, 128_000, -129_000, i32::MAX, i32::MIN] {
        assert_eq!(ChampDir::parse_champ(&with_info(attack)), Err(record_error(RecordPart::Info)));
    }
}

#[test]
fn every_rating_is_needed() {
    for missing in ["attack", "defense", "magic", "difficulty"] {
        let mut members = Vec::new();
        for name in ["attack", "defense", "magic", "difficulty"] {
            if name != missing {
                members.push((name, JsonValue::Number(1_000)));
            }
        }
        let result = ChampDir::parse_champ(&record_with("info", obj(members)));
        assert_eq!(result, Err(record_error(RecordPart::Info)));
    }
}

#[test]
fn every_stat_is_needed() {
    for missing in STAT_NAMES {
        let result = ChampDir::parse_champ(&record_with("stats", stats_object_without(missing)));
        assert_eq!(result, Err(record_error(RecordPart::Stats)));
    }
    assert!(ChampDir::parse_champ(&record_with("stats", stats_object_without(""))).is_ok());
}

#[test]
fn a_stat_must_be_a_number() {
    let mut members = Vec::new();
    for (name, value) in STAT_NAMES.iter().zip(STAT_VALUES.iter()) {
        let value = if *name == "armor" { text("33") } else { JsonValue::Number(*value) };
        members.push((*name, value));
    }
    let result = ChampDir::parse_champ(&record_with("stats", obj(members)));
    assert_eq!(result, Err(record_error(RecordPart::Stats)));
}

#[test]
fn tags_must_all_be_strings() {
    let mixed = JsonValue::Array(vec![text("Tank"), JsonValue::Null]);
    assert_eq!(
        ChampDir::parse_champ(&record_with("tags", mixed)),
        Err(record_error(RecordPart::Tags))
    );
    let none = ChampDir::parse_champ(&record_with("tags", texts(&[]))).unwrap();
    assert!(none.tags.is_empty());
    let two = ChampDir::parse_champ(&record_with("tags", texts(&["Mage", "Support"]))).unwrap();
    assert_eq!(two.tags, vec!["Mage".to_string(), "Support".to_string()]);
}

#[test]
fn members_that_a_record_does_not_know_are_passed_over() {
    let mut members = record_members("Ornn", "516", "Ornn", 335_000);
    members.push(("version", text("14.1.1")));
    members.insert(0, ("image", obj(vec![("full", text("Ornn.png"))])));
    assert!(ChampDir::parse_champ(&obj(members)).is_ok());
}

#[test]
fn the_first_member_of_a_name_counts() {
    let members = vec![
        JsonMember { key: "a".to_string(), value: JsonValue::Number(1) },
        JsonMember { key: "b".to_string(), value: JsonValue::Number(2) },
        JsonMember { key: "a".to_string(), value: JsonValue::Number(3) },
    ];
    assert!(matches!(find_member(&members, "a"), Some(JsonValue::Number(1))));
    assert!(matches!(find_member(&members, "b"), Some(JsonValue::Number(2))));
    assert!(find_member(&members, "c").is_none());
    let object = JsonValue::Object(members);
    assert!(matches!(object.get("a"), Some(JsonValue::Number(1))));
    assert_eq!(object.get_number("a"), Some(1));
    assert_eq!(object.get_number("c"), None);
    assert!(object.get_text("a").is_none());
    assert!(JsonValue::Null.get("a").is_none());
    assert!(text("a").get("a").is_none());
}

#[test]
fn all_records_are_read_in_order() {
    let members = vec![
        JsonMember { key: "x".to_string(), value: record("Ahri", "103", "Ahri", 330_000) },
        JsonMember { key: "y".to_string(), value: record("Ornn", "516", "Ornn", 335_000) },
    ];
    let raw = ChampDir::parse_champs(&members).unwrap();
    assert_eq!(raw.len(), 2);
    assert_eq!(raw[0].id, "Ahri");
    assert_eq!(raw[1].id, "Ornn");
    assert_eq!(ChampDir::parse_champs(&Vec::new()), Ok(Vec::new()));
}

#[test]
fn the_first_faulty_record_is_reported() {
    let members = vec![
        JsonMember { key: "x".to_string(), value: record("Ahri", "103", "Ahri", 330_000) },
        JsonMember { key: "y".to_string(), value: record_without("blurb") },
        JsonMember { key: "z".to_string(), value: JsonValue::Null },
    ];
    assert_eq!(ChampDir::parse_champs(&members), Err(record_error(RecordPart::Blurb)));
}

fn raw_champions() -> Vec<RawChampion> {
    vec![
        ChampDir::parse_champ(&record("Ahri", "103", "Ahri", 330_000)).unwrap(),
        ChampDir::parse_champ(&record("Ornn", "516", "Ornn", 335_000)).unwrap(),
    ]
}

fn special_cases(listed: &[&str], table: &[&str]) -> SpecialCases {
    SpecialCases {
        special_case_champs: listed.iter().map(|id| id.to_string()).collect(),
        adjustments: table
            .iter()
            .map(|id| AdjustmentEntry {
                id: id.to_string(),
                adjustment: ChampAdjustment {
                    bonus: Some(vec![Bonus::movespeed(4_000)]),
                    stats: Some(vec![Stats::attackrangeperlevel(10_000)]),
                },
            })
            .collect(),
    }
}

#[test]
fn corrections_are_held_against_the_champions() {
    let raw = raw_champions();
    assert!(ChampDir::verify(&raw, &special_cases(&[], &[])));
    assert!(ChampDir::verify(&raw, &special_cases(&["Ahri"], &["Ahri"])));
    assert!(ChampDir::verify(&raw, &special_cases(&["Ornn", "Ahri"], &["Ahri", "Ornn", "Jhin"])));
    assert!(!ChampDir::verify(&raw, &special_cases(&["Ahri"], &[])));
    assert!(!ChampDir::verify(&raw, &special_cases(&["Ahri"], &["Ornn"])));
    assert!(!ChampDir::verify(&raw, &special_cases(&["Jhin"], &["Jhin"])));
    assert!(!ChampDir::verify(&raw, &special_cases(&["Ahri", "Jhin"], &["Ahri", "Jhin"])));
    assert!(!ChampDir::verify(&Vec::new(), &special_cases(&["Ahri"], &["Ahri"])));
}

#[test]
fn ids_are_found_and_told_apart() {
    let raw = raw_champions();
    assert!(ChampDir::has_id(&raw, &"Ornn".to_string()));
    assert!(!ChampDir::has_id(&raw, &"ornn".to_string()));
    assert!(ChampDir::ids_differ(&raw));
    assert!(ChampDir::ids_differ(&Vec::new()));
    let mut twice = raw_champions();
    twice.push(ChampDir::parse_champ(&record("Ahri", "1", "Other", 1)).unwrap());
    assert!(!ChampDir::ids_differ(&twice));
}

#[test]
fn merging_corrects_the_listed_champions() {
    let merged =
        ChampDir::process_and_correct(raw_champions(), special_cases(&["Ornn"], &["Ornn"])).unwrap();
    assert_eq!(merged.len(), 2);
    assert_eq!(merged[0].id, "Ahri");
    assert_eq!(merged[0].stats.movespeed, 330_000);
    assert_eq!(merged[0].stats.attackrangeperlevel, 0);
    assert_eq!(merged[1].id, "Ornn");
    assert_eq!(merged[1].key, 516);
    assert_eq!(merged[1].stats.movespeed, 339_000);
    assert_eq!(merged[1].stats.attackrangeperlevel, 10_000);
}

#[test]
fn merging_fails_as_a_whole() {
    let result = ChampDir::process_and_correct(raw_champions(), special_cases(&["Jhin"], &["Jhin"]));
    assert_eq!(result, Err(verification_error()));
    let result = ChampDir::process_and_correct(raw_champions(), special_cases(&["Ahri"], &[]));
    assert_eq!(result, Err(verification_error()));
}

#[test]
fn a_raw_champion_becomes_a_champion() {
    let raw = ChampDir::parse_champ(&record("Ornn", "516", "Ornn", 335_000)).unwrap();
    let stats = raw.stats;
    let plain = raw.clone().into();
    assert_eq!(plain.key, 516);
    assert_eq!(plain.id, "Ornn");
    assert_eq!(plain.stats, ChampStats::from(stats));
    let adjustment = ChampAdjustment { bonus: Some(vec![Bonus::movespeed(-5_000)]), stats: None };
    let adjusted = raw.adjust(&adjustment);
    assert_eq!(adjusted.key, 516);
    assert_eq!(adjusted.tags, vec!["Tank".to_string()]);
    assert_eq!(adjusted.stats, ChampStats { movespeed: 330_000, ..ChampStats::from(stats) });
}

#[test]
fn resource_types_by_number() {
    let expected = [
        ResourceType::Mana,
        ResourceType::Energy,
        ResourceType::NoResource,
        ResourceType::Shield,
        ResourceType::BattleFury,
        ResourceType::DragonFury,
        ResourceType::PrimalFury,
        ResourceType::Heat,
        ResourceType::Rage,
        ResourceType::Ferocity,
        ResourceType::Bloodwell,
        ResourceType::Wind,
        ResourceType::Other,
        ResourceType::Moonlight,
        ResourceType::Ammo,
    ];
    for (number, kind) in expected.iter().enumerate() {
        assert_eq!(ResourceType::from(number as i32), *kind);
    }
    assert_eq!(ResourceType::from(15), ResourceType::NoResource);
    assert_eq!(ResourceType::from(-1), ResourceType::NoResource);
    assert_eq!(ResourceType::from(i32::MAX), ResourceType::NoResource);
}

#[test]
fn roles_by_name() {
    assert_eq!(Roles::from("tank".to_string()), Roles::Tank);
    assert_eq!(Roles::from("assassin".to_string()), Roles::Assassin);
    assert_eq!(Roles::from("marksman".to_string()), Roles::Marksman);
    assert_eq!(Roles::from("mage".to_string()), Roles::Mage);
    assert_eq!(Roles::from("support".to_string()), Roles::Support);
    assert_eq!(Roles::from("fighter".to_string()), Roles::Fighter);
    assert_eq!(Roles::from("Tank".to_string()), Roles::Other("Tank".to_string()));
    assert_eq!(Roles::from(String::new()), Roles::Other(String::new()));
    assert_eq!(Roles::from("jungler".to_string()), Roles::Other("jungler".to_string()));
}
