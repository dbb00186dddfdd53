//! Scenario tests for the two filter engines and the schema allowlist,
//! covering the tolerated legacy field shapes, the tri-state boolean rules,
//! and the casting-time categories.

use dnd_filters::filter_spells::{casting_time_category, filter_spells};
use dnd_filters::filters::{filter_monsters, generate_filters};
use dnd_filters::json::{Json, JsonNum};
use dnd_filters::queries::{MonsterQuery, SpellQuery};

fn s(x: &str) -> Json {
    Json::Str(x.to_string())
}

fn num(v: i64) -> Json {
    Json::Num(JsonNum {
        text: v.to_string(),
        as_int: Some(v),
        as_uint: if v >= 0 { Some(v as u64) } else { None },
    })
}

fn obj(fields: Vec<(&str, Json)>) -> Json {
    Json::Obj(fields.into_iter().map(|(k, v)| (k.to_string(), v)).collect())
}

fn arr(elems: Vec<Json>) -> Json {
    Json::Arr(elems)
}

fn str_arr(elems: Vec<&str>) -> Json {
    Json::Arr(elems.into_iter().map(s).collect())
}

fn aberration_plain() -> Json {
    obj(vec![("name", s("Aboleth")), ("type", s("Aberration"))])
}

fn aberration_nested() -> Json {
    obj(vec![
        ("name", s("Chuul")),
        ("type", obj(vec![("type", s("Aberration"))])),
    ])
}

fn monster_query() -> MonsterQuery {
    MonsterQuery::empty()
}

fn spell_query() -> SpellQuery {
    SpellQuery::empty()
}

// --- the engine as a whole -------------------------------------------------

#[test]
fn empty_monster_query_keeps_record() {
    let out = filter_monsters(arr(vec![aberration_plain()]), &monster_query());
    assert_eq!(out, vec![aberration_plain()]);
}

#[test]
fn empty_spell_query_keeps_record() {
    let spell = obj(vec![("name", s("Fireball")), ("level", num(3))]);
    let out = filter_spells(arr(vec![spell]), &spell_query());
    assert_eq!(out, vec![obj(vec![("name", s("Fireball")), ("level", num(3))])]);
}

#[test]
fn filtering_twice_equals_filtering_once() {
    let records = vec![
        obj(vec![("name", s("A")), ("type", s("Aberration"))]),
        obj(vec![("name", s("B")), ("type", s("Beast"))]),
        obj(vec![("name", s("C")), ("type", s("Aberration"))]),
    ];
    let expected = || {
        vec![
            obj(vec![("name", s("A")), ("type", s("Aberration"))]),
            obj(vec![("name", s("C")), ("type", s("Aberration"))]),
        ]
    };
    let mut q = monster_query();
    q.type_ = Some("Aberration".to_string());
    let once = filter_monsters(arr(records), &q);
    assert_eq!(once, expected());
    let twice = filter_monsters(Json::Arr(once), &q);
    assert_eq!(twice, expected());
}

#[test]
fn output_keeps_input_order() {
    let a = obj(vec![("name", s("A")), ("type", s("Beast"))]);
    let b = obj(vec![("name", s("B")), ("type", s("Dragon"))]);
    let c = obj(vec![("name", s("C")), ("type", s("Beast"))]);
    let mut q = monster_query();
    q.type_ = Some("Dragon".to_string());
    let out = filter_monsters(Json::Arr(vec![a, b, c]), &q);
    assert_eq!(out, vec![obj(vec![("name", s("B")), ("type", s("Dragon"))])]);

    let a = obj(vec![("name", s("A")), ("type", s("Beast"))]);
    let b = obj(vec![("name", s("B")), ("type", s("Dragon"))]);
    let c = obj(vec![("name", s("C")), ("type", s("Beast"))]);
    let mut q = monster_query();
    q.type_ = Some("Beast".to_string());
    let out = filter_monsters(Json::Arr(vec![a, b, c]), &q);
    assert_eq!(
        out,
        vec![
            obj(vec![("name", s("A")), ("type", s("Beast"))]),
            obj(vec![("name", s("C")), ("type", s("Beast"))]),
        ]
    );
}

#[test]
fn non_array_data_yields_nothing() {
    let mut q = monster_query();
    q.type_ = Some("Beast".to_string());
    assert_eq!(filter_monsters(s("oops"), &q), vec![]);
    assert_eq!(filter_spells(obj(vec![]), &spell_query()), vec![]);
}

// --- monster fields --------------------------------------------------------

#[test]
fn type_filter_accepts_both_shapes() {
    let mut q = monster_query();
    q.type_ = Some("Aberration".to_string());
    let out = filter_monsters(arr(vec![aberration_plain(), aberration_nested()]), &q);
    assert_eq!(out, vec![aberration_plain(), aberration_nested()]);

    let mut q = monster_query();
    q.type_ = Some("Beast".to_string());
    let out = filter_monsters(arr(vec![aberration_plain(), aberration_nested()]), &q);
    assert_eq!(out, vec![]);
}

#[test]
fn cr_filter_accepts_number_and_string() {
    let by_number = obj(vec![("name", s("Ogre")), ("cr", num(2))]);
    let by_string = obj(vec![("name", s("Imp")), ("cr", s("1/2"))]);
    let mut q = monster_query();
    q.cr = Some("2".to_string());
    let out = filter_monsters(arr(vec![by_number, by_string]), &q);
    assert_eq!(out, vec![obj(vec![("name", s("Ogre")), ("cr", num(2))])]);

    let by_string = obj(vec![("name", s("Imp")), ("cr", s("1/2"))]);
    let mut q = monster_query();
    q.cr = Some("1/2".to_string());
    let out = filter_monsters(arr(vec![by_string]), &q);
    assert_eq!(out.len(), 1);
}

#[test]
fn size_filter_maps_names_to_codes() {
    let medium = obj(vec![("name", s("Orc")), ("size", str_arr(vec!["M"]))]);
    let mut q = monster_query();
    q.size = Some("Medium".to_string());
    assert_eq!(filter_monsters(arr(vec![medium]), &q).len(), 1);

    let medium = obj(vec![("name", s("Orc")), ("size", str_arr(vec!["M"]))]);
    let mut q = monster_query();
    q.size = Some("Large".to_string());
    assert_eq!(filter_monsters(arr(vec![medium]), &q), vec![]);
}

#[test]
fn unknown_size_name_matches_nothing() {
    let medium = obj(vec![("name", s("Orc")), ("size", str_arr(vec!["M"]))]);
    let sizeless = obj(vec![("name", s("Ooze"))]);
    let mut q = monster_query();
    q.size = Some("Unknown".to_string());
    assert_eq!(filter_monsters(arr(vec![medium, sizeless]), &q), vec![]);
}

#[test]
fn alignment_filter_requires_every_letter() {
    let paladin_pet = obj(vec![("name", s("Lion")), ("alignment", str_arr(vec!["L", "G"]))]);
    let mut q = monster_query();
    q.alignment = Some("Lawful Good".to_string());
    assert_eq!(filter_monsters(arr(vec![paladin_pet]), &q).len(), 1);

    let paladin_pet = obj(vec![("name", s("Lion")), ("alignment", str_arr(vec!["L", "G"]))]);
    let mut q = monster_query();
    q.alignment = Some("Lawful Neutral".to_string());
    assert_eq!(filter_monsters(arr(vec![paladin_pet]), &q), vec![]);
}

#[test]
fn ac_filter_accepts_number_and_entry_list() {
    let bare = obj(vec![("name", s("Golem")), ("ac", num(17))]);
    let listed = obj(vec![
        ("name", s("Knight")),
        ("ac", arr(vec![obj(vec![("ac", num(18)), ("from", str_arr(vec!["plate"]))])])),
    ]);
    let mut q = monster_query();
    q.ac = Some("17".to_string());
    let out = filter_monsters(arr(vec![bare, listed]), &q);
    assert_eq!(out, vec![obj(vec![("name", s("Golem")), ("ac", num(17))])]);

    let listed = obj(vec![
        ("name", s("Knight")),
        ("ac", arr(vec![obj(vec![("ac", num(18)), ("from", str_arr(vec!["plate"]))])])),
    ]);
    let mut q = monster_query();
    q.ac = Some("18".to_string());
    assert_eq!(filter_monsters(arr(vec![listed]), &q).len(), 1);
}

#[test]
fn hp_filter_accepts_number_and_average_object() {
    let bare = obj(vec![("name", s("Rat")), ("hp", num(1))]);
    let averaged = obj(vec![
        ("name", s("Bear")),
        ("hp", obj(vec![("average", num(34)), ("formula", s("4d10 + 12"))])),
    ]);
    let mut q = monster_query();
    q.hp = Some("34".to_string());
    let out = filter_monsters(arr(vec![bare, averaged]), &q);
    assert_eq!(out.len(), 1);
}

#[test]
fn speed_filter_reads_the_queried_mode() {
    let walker = obj(vec![
        ("name", s("Wolf")),
        ("speed", obj(vec![("walk", num(40))])),
    ]);
    let flyer = obj(vec![
        ("name", s("Hawk")),
        ("speed", obj(vec![("walk", num(10)), ("fly", num(60))])),
    ]);
    let mut q = monster_query();
    q.speed = Some("40".to_string());
    let out = filter_monsters(arr(vec![walker, flyer]), &q);
    assert_eq!(out.len(), 1);

    let flyer = obj(vec![
        ("name", s("Hawk")),
        ("speed", obj(vec![("walk", num(10)), ("fly", num(60))])),
    ]);
    let mut q = monster_query();
    q.speed = Some("60".to_string());
    q.speed_type = Some("fly".to_string());
    assert_eq!(filter_monsters(arr(vec![flyer]), &q).len(), 1);
}

#[test]
fn environment_filter_is_case_insensitive_substring() {
    let deep = obj(vec![
        ("name", s("Drow")),
        ("environment", str_arr(vec!["Underdark"])),
    ]);
    let coastal = obj(vec![("name", s("Harpy")), ("environment", s("Coast"))]);
    let homeless = obj(vec![("name", s("Ghost"))]);
    let mut q = monster_query();
    q.environment = Some("UNDER".to_string());
    let out = filter_monsters(arr(vec![deep, coastal, homeless]), &q);
    assert_eq!(
        out,
        vec![
            obj(vec![("name", s("Drow")), ("environment", str_arr(vec!["Underdark"]))]),
            obj(vec![("name", s("Ghost"))]),
        ]
    );
}

// --- spell fields ----------------------------------------------------------

#[test]
fn level_filter_is_exact() {
    let cantrip = obj(vec![("name", s("Light")), ("level", num(0))]);
    let third = obj(vec![("name", s("Fireball")), ("level", num(3))]);
    let mut q = spell_query();
    q.level = Some(3);
    let out = filter_spells(arr(vec![cantrip, third]), &q);
    assert_eq!(out, vec![obj(vec![("name", s("Fireball")), ("level", num(3))])]);
}

#[test]
fn ritual_filter_is_tri_state() {
    let ritual = obj(vec![
        ("name", s("Detect Magic")),
        ("meta", obj(vec![("ritual", Json::Bool(true))])),
    ]);
    let plain = obj(vec![("name", s("Magic Missile"))]);

    let mut q = spell_query();
    q.ritual = Some(true);
    let out = filter_spells(arr(vec![ritual, plain]), &q);
    assert_eq!(out.len(), 1);

    let ritual = obj(vec![
        ("name", s("Detect Magic")),
        ("meta", obj(vec![("ritual", Json::Bool(true))])),
    ]);
    let plain = obj(vec![("name", s("Magic Missile"))]);
    let mut q = spell_query();
    q.ritual = Some(false);
    let out = filter_spells(arr(vec![ritual, plain]), &q);
    assert_eq!(out, vec![obj(vec![("name", s("Magic Missile"))])]);
}

#[test]
fn school_filter_is_case_insensitive() {
    let spell = obj(vec![("name", s("Shield")), ("school", s("Abjuration"))]);
    let mut q = spell_query();
    q.school = Some("ABJURATION".to_string());
    assert_eq!(filter_spells(arr(vec![spell]), &q).len(), 1);

    let spell = obj(vec![("name", s("Shield")), ("school", s("Abjuration"))]);
    let mut q = spell_query();
    q.school = Some("Evocation".to_string());
    assert_eq!(filter_spells(arr(vec![spell]), &q), vec![]);
}

#[test]
fn casting_time_categories_are_exact() {
    assert_eq!(casting_time_category(1, "action"), "action");
    assert_eq!(casting_time_category(1, "bonus"), "bonus action");
    assert_eq!(casting_time_category(1, "reaction"), "reaction");
    assert_eq!(casting_time_category(1, "minute"), "1 minute");
    assert_eq!(casting_time_category(10, "minute"), "10 minute");
    assert_eq!(casting_time_category(1, "hour"), "1 hour");
    assert_eq!(casting_time_category(2, "hour"), "more than one hour");
    assert_eq!(casting_time_category(5, "minute"), "other");
    assert_eq!(casting_time_category(0, "hour"), "other");
}

#[test]
fn casting_time_filter_uses_categories() {
    let quick = obj(vec![
        ("name", s("Healing Word")),
        ("time", arr(vec![obj(vec![("number", num(1)), ("unit", s("bonus"))])])),
    ]);
    let slow = obj(vec![
        ("name", s("Hallow")),
        ("time", arr(vec![obj(vec![("number", num(24)), ("unit", s("hour"))])])),
    ]);
    let mut q = spell_query();
    q.casting_time = Some("bonus action".to_string());
    let out = filter_spells(arr(vec![quick, slow]), &q);
    assert_eq!(out.len(), 1);

    let slow = obj(vec![
        ("name", s("Hallow")),
        ("time", arr(vec![obj(vec![("number", num(24)), ("unit", s("hour"))])])),
    ]);
    let mut q = spell_query();
    q.casting_time = Some("more than one hour".to_string());
    assert_eq!(filter_spells(arr(vec![slow]), &q).len(), 1);
}

#[test]
fn range_filter_is_case_insensitive() {
    let touch = obj(vec![
        ("name", s("Cure Wounds")),
        ("range", obj(vec![("type", s("Touch"))])),
    ]);
    let mut q = spell_query();
    q.range = Some("touch".to_string());
    assert_eq!(filter_spells(arr(vec![touch]), &q).len(), 1);

    let touch = obj(vec![
        ("name", s("Cure Wounds")),
        ("range", obj(vec![("type", s("Touch"))])),
    ]);
    let mut q = spell_query();
    q.range = Some("point".to_string());
    assert_eq!(filter_spells(arr(vec![touch]), &q), vec![]);
}

#[test]
fn component_m_object_counts_as_present() {
    let detailed = obj(vec![
        ("name", s("Revivify")),
        ("components", obj(vec![("m", obj(vec![("text", s("a sprig of holly"))]))])),
    ]);
    let flagged_off = obj(vec![
        ("name", s("Shield")),
        ("components", obj(vec![("m", Json::Bool(false))])),
    ]);
    let mut q = spell_query();
    q.component_m = Some(true);
    let out = filter_spells(arr(vec![detailed, flagged_off]), &q);
    assert_eq!(out.len(), 1);

    let flagged_off = obj(vec![
        ("name", s("Shield")),
        ("components", obj(vec![("m", Json::Bool(false))])),
    ]);
    let mut q = spell_query();
    q.component_m = Some(false);
    assert_eq!(filter_spells(arr(vec![flagged_off]), &q).len(), 1);
}

#[test]
fn component_v_and_s_are_tri_state() {
    let verbal = obj(vec![
        ("name", s("Vicious Mockery")),
        ("components", obj(vec![("v", Json::Bool(true))])),
    ]);
    let silent = obj(vec![("name", s("Mage Hand Trick"))]);
    let mut q = spell_query();
    q.component_v = Some(true);
    assert_eq!(filter_spells(arr(vec![verbal, silent]), &q).len(), 1);

    let verbal = obj(vec![
        ("name", s("Vicious Mockery")),
        ("components", obj(vec![("v", Json::Bool(true))])),
    ]);
    let mut q = spell_query();
    q.component_v = Some(false);
    assert_eq!(filter_spells(arr(vec![verbal]), &q), vec![]);

    let somatic = obj(vec![
        ("name", s("Shield")),
        ("components", obj(vec![("s", Json::Bool(true))])),
    ]);
    let mut q = spell_query();
    q.component_s = Some(true);
    assert_eq!(filter_spells(arr(vec![somatic]), &q).len(), 1);
}

#[test]
fn duration_filter_matches_entry_types() {
    let timed = obj(vec![
        ("name", s("Bless")),
        ("duration", arr(vec![obj(vec![("type", s("timed"))])])),
    ]);
    let instant = obj(vec![
        ("name", s("Fireball")),
        ("duration", arr(vec![obj(vec![("type", s("instant"))])])),
    ]);
    let mut q = spell_query();
    q.duration = Some("timed".to_string());
    let out = filter_spells(arr(vec![timed, instant]), &q);
    assert_eq!(out.len(), 1);
}

#[test]
fn concentration_filter_reads_duration_entries() {
    let focused = obj(vec![
        ("name", s("Haste")),
        (
            "duration",
            arr(vec![obj(vec![("type", s("timed")), ("concentration", Json::Bool(true))])]),
        ),
    ]);
    let mut q = spell_query();
    q.concentration = Some(true);
    assert_eq!(filter_spells(arr(vec![focused]), &q).len(), 1);

    let focused = obj(vec![
        ("name", s("Haste")),
        (
            "duration",
            arr(vec![obj(vec![("type", s("timed")), ("concentration", Json::Bool(true))])]),
        ),
    ]);
    let mut q = spell_query();
    q.concentration = Some(false);
    assert_eq!(filter_spells(arr(vec![focused]), &q), vec![]);
}

// --- the schema allowlist --------------------------------------------------

#[test]
fn allowlist_collects_scalar_properties() {
    let schema = obj(vec![(
        "properties",
        obj(vec![
            ("name", obj(vec![("type", s("string"))])),
            ("cr", obj(vec![("type", s("number"))])),
            ("legendary", obj(vec![("type", s("boolean"))])),
            ("size", obj(vec![("type", s("array"))])),
            ("speed", obj(vec![("type", s("object"))])),
        ]),
    )]);
    let mut names = generate_filters(&schema);
    names.sort();
    assert_eq!(names, vec!["cr", "legendary", "name"]);
}

#[test]
fn allowlist_descends_into_items() {
    let schema = obj(vec![
        ("type", s("array")),
        (
            "items",
            obj(vec![(
                "properties",
                obj(vec![("school", obj(vec![("type", s("string"))]))]),
            )]),
        ),
    ]);
    assert_eq!(generate_filters(&schema), vec!["school"]);
}

#[test]
fn allowlist_of_schema_without_properties_is_empty() {
    assert_eq!(generate_filters(&s("not a schema")), Vec::<String>::new());
    assert_eq!(generate_filters(&obj(vec![])), Vec::<String>::new());
}
