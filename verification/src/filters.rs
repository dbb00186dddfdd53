//! The monster filter engine and the schema allowlist.
//!
//! Each query field has a spec predicate that states, over the record model,
//! exactly when a record satisfies that constraint, tolerating the legacy
//! field shapes. A record matches when every present constraint is satisfied;
//! missing or oddly shaped record data is non-exclusionary except where a
//! rule says otherwise. The executable engine is proved to return precisely
//! the matching subsequence.

use vstd::prelude::*;
use crate::json::Json;
use crate::queries::MonsterQuery;
use crate::seq_facts::{
    is_subsequence_of,
    lemma_filter_all_true,
    lemma_filter_idempotent,
    lemma_filter_push,
    lemma_filter_subsequence,
};
use crate::text::{contains_seq, lower_of, lowercase, str_contains, str_eq};

verus! {

// ---------------------------------------------------------------------------
// Fixed vocabularies
// ---------------------------------------------------------------------------
/// The one-letter size code a query size name stands for, or nothing for an
/// unrecognized name.
pub open spec fn spec_size_code(name: Seq<char>) -> Option<Seq<char>> {
    if name == "Tiny"@ {
        Some("T"@)
    } else if name == "Small"@ {
        Some("S"@)
    } else if name == "Medium"@ {
        Some("M"@)
    } else if name == "Large"@ {
        Some("L"@)
    } else if name == "Huge"@ {
        Some("H"@)
    } else if name == "Gargantuan"@ {
        Some("G"@)
    } else {
        None
    }
}

/// The size code for a query size name.
pub fn size_code(name: &str) -> (r: Option<&'static str>)
    ensures
        match r {
            Some(c) => spec_size_code(name@) == Some(c@),
            None => spec_size_code(name@) is None,
        },
{
    if str_eq(name, "Tiny") {
        Some("T")
    } else if str_eq(name, "Small") {
        Some("S")
    } else if str_eq(name, "Medium") {
        Some("M")
    } else if str_eq(name, "Large") {
        Some("L")
    } else if str_eq(name, "Huge") {
        Some("H")
    } else if str_eq(name, "Gargantuan") {
        Some("G")
    } else {
        None
    }
}

/// The letter tokens an alignment name requires a record to carry; an
/// unrecognized name requires none.
pub open spec fn spec_alignment_codes(name: Seq<char>) -> Seq<Seq<char>> {
    if name == "Chaotic Good"@ {
        seq!["C"@, "G"@]
    } else if name == "Chaotic Neutral"@ {
        seq!["C"@, "N"@]
    } else if name == "Chaotic Evil"@ {
        seq!["C"@, "E"@]
    } else if name == "Neutral Good"@ {
        seq!["N"@, "G"@]
    } else if name == "Neutral"@ {
        seq!["N"@]
    } else if name == "Neutral Evil"@ {
        seq!["N"@, "E"@]
    } else if name == "Lawful Good"@ {
        seq!["L"@, "G"@]
    } else if name == "Lawful Neutral"@ {
        seq!["L"@, "N"@]
    } else if name == "Lawful Evil"@ {
        seq!["L"@, "E"@]
    } else {
        Seq::empty()
    }
}

/// The letter tokens for an alignment name.
pub fn alignment_codes(name: &str) -> (r: Vec<&'static str>)
    ensures
        r@.len() == spec_alignment_codes(name@).len(),
        forall|i: int|
            0 <= i < r@.len() ==> (#[trigger] r@[i])@ == spec_alignment_codes(name@)[i],
{
    let codes: Vec<&'static str> = if str_eq(name, "Chaotic Good") {
        vec!["C", "G"]
    } else if str_eq(name, "Chaotic Neutral") {
        vec!["C", "N"]
    } else if str_eq(name, "Chaotic Evil") {
        vec!["C", "E"]
    } else if str_eq(name, "Neutral Good") {
        vec!["N", "G"]
    } else if str_eq(name, "Neutral") {
        vec!["N"]
    } else if str_eq(name, "Neutral Evil") {
        vec!["N", "E"]
    } else if str_eq(name, "Lawful Good") {
        vec!["L", "G"]
    } else if str_eq(name, "Lawful Neutral") {
        vec!["L", "N"]
    } else if str_eq(name, "Lawful Evil") {
        vec!["L", "E"]
    } else {
        vec![]
    };
    codes
}

// ---------------------------------------------------------------------------
// Per-field matching rules
// ---------------------------------------------------------------------------
/// The creature type constraint: the record's "type" field, which is a bare
/// string or an object with a "type" string member, must equal the filter
/// exactly; a record without the field passes.
pub open spec fn type_matches(m: Json, f: Seq<char>) -> bool {
    match m.spec_get("type"@) {
        None => true,
        Some(v) => match v {
            Json::Str(s) => s@ == f,
            Json::Obj(_) => match v.spec_get("type"@) {
                Some(Json::Str(s)) => s@ == f,
                _ => ""@ == f,
            },
            _ => ""@ == f,
        },
    }
}

/// The challenge-rating constraint: the record's "cr", a string or the
/// decimal rendering of a number, must equal the filter exactly.
pub open spec fn cr_matches(m: Json, f: Seq<char>) -> bool {
    match m.spec_get("cr"@) {
        None => true,
        Some(v) => match v {
            Json::Str(s) => s@ == f,
            Json::Num(n) => n.text@ == f,
            _ => ""@ == f,
        },
    }
}

/// The first element of a size array, read as a string.
pub open spec fn first_size_token(elems: Seq<Json>) -> Seq<char> {
    if elems.len() > 0 {
        match elems[0] {
            Json::Str(s) => s@,
            _ => ""@,
        }
    } else {
        ""@
    }
}

/// The size constraint: the query name maps to a one-letter code, and the
/// first entry of the record's "size" array must carry that code. An
/// unrecognized query name matches no record at all.
pub open spec fn size_matches(m: Json, f: Seq<char>) -> bool {
    match spec_size_code(f) {
        None => false,
        Some(code) => match m.spec_get("size"@) {
            Some(Json::Arr(elems)) => first_size_token(elems@) == code,
            _ => true,
        },
    }
}

/// Whether some element of `elems` is the string `c`.
pub open spec fn has_str_elem(elems: Seq<Json>, c: Seq<char>) -> bool {
    exists|i: int|
        0 <= i < elems.len() && match #[trigger] elems[i] {
            Json::Str(s) => s@ == c,
            _ => false,
        }
}

/// The alignment constraint: every letter the query name requires must occur
/// among the string entries of the record's "alignment" array.
pub open spec fn alignment_matches(m: Json, f: Seq<char>) -> bool {
    match m.spec_get("alignment"@) {
        Some(Json::Arr(elems)) => forall|k: int|
            0 <= k < spec_alignment_codes(f).len() ==> has_str_elem(
                elems@,
                #[trigger] spec_alignment_codes(f)[k],
            ),
        _ => true,
    }
}

/// The decimal rendering of a number that has an integer value, else empty.
pub open spec fn int_text(v: Json) -> Seq<char> {
    match v {
        Json::Num(n) => if n.as_int is Some {
            n.text@
        } else {
            ""@
        },
        _ => ""@,
    }
}

/// The canonical armor-class value: a bare number's rendering, or the "ac"
/// integer of the first entry of an array of objects.
pub open spec fn ac_value(v: Json) -> Seq<char> {
    match v {
        Json::Num(n) => n.text@,
        Json::Arr(elems) => if elems.len() > 0 {
            match elems[0].spec_get("ac"@) {
                Some(w) => int_text(w),
                None => ""@,
            }
        } else {
            ""@
        },
        _ => ""@,
    }
}

/// The armor-class constraint: the canonical value must equal the filter.
pub open spec fn ac_matches(m: Json, f: Seq<char>) -> bool {
    match m.spec_get("ac"@) {
        None => true,
        Some(v) => ac_value(v) == f,
    }
}

/// The canonical hit-point value: a bare number's rendering, or the
/// "average" integer of an object.
pub open spec fn hp_value(v: Json) -> Seq<char> {
    match v {
        Json::Num(n) => n.text@,
        Json::Obj(_) => match v.spec_get("average"@) {
            Some(w) => int_text(w),
            None => ""@,
        },
        _ => ""@,
    }
}

/// The hit-point constraint: the canonical value must equal the filter.
pub open spec fn hp_matches(m: Json, f: Seq<char>) -> bool {
    match m.spec_get("hp"@) {
        None => true,
        Some(v) => hp_value(v) == f,
    }
}

/// The speed constraint: the record's "speed" is an object keyed by movement
/// mode, read at the queried mode, or a plain string taken whole; the value
/// must equal the filter exactly.
pub open spec fn speed_matches(m: Json, f: Seq<char>, mode: Seq<char>) -> bool {
    match m.spec_get("speed"@) {
        None => true,
        Some(v) => match v {
            Json::Obj(_) => (match v.spec_get(mode) {
                Some(w) => int_text(w),
                None => ""@,
            }) == f,
            Json::Str(s) => s@ == f,
            _ => ""@ == f,
        },
    }
}

/// Whether one environment entry names a habitat containing the filter text,
/// compared case-insensitively.
pub open spec fn env_elem_matches(e: Json, f: Seq<char>) -> bool {
    match e {
        Json::Str(s) => contains_seq(lower_of(s@), lower_of(f)),
        _ => false,
    }
}

/// The environment constraint: some habitat named by the record contains the
/// filter text, case-insensitively. A record with no "environment" field at
/// all passes, by design: creatures without a listed habitat stay visible.
pub open spec fn environment_matches(m: Json, f: Seq<char>) -> bool {
    match m.spec_get("environment"@) {
        None => true,
        Some(v) => match v {
            Json::Arr(elems) => exists|i: int|
                0 <= i < elems@.len() && env_elem_matches(#[trigger] elems@[i], f),
            Json::Str(s) => contains_seq(lower_of(s@), lower_of(f)),
            _ => false,
        },
    }
}

/// The movement mode a query reads speed at: the explicit one, else "walk".
pub open spec fn spec_speed_mode(q: MonsterQuery) -> Seq<char> {
    match q.speed_type {
        Some(t) => t@,
        None => "walk"@,
    }
}

/// A record matches a query when every present constraint is satisfied.
pub open spec fn monster_matches(m: Json, q: MonsterQuery) -> bool {
    &&& match q.type_ {
        Some(f) => type_matches(m, f@),
        None => true,
    }
    &&& match q.cr {
        Some(f) => cr_matches(m, f@),
        None => true,
    }
    &&& match q.size {
        Some(f) => size_matches(m, f@),
        None => true,
    }
    &&& match q.alignment {
        Some(f) => alignment_matches(m, f@),
        None => true,
    }
    &&& match q.ac {
        Some(f) => ac_matches(m, f@),
        None => true,
    }
    &&& match q.hp {
        Some(f) => hp_matches(m, f@),
        None => true,
    }
    &&& match q.speed {
        Some(f) => speed_matches(m, f@, spec_speed_mode(q)),
        None => true,
    }
    &&& match q.environment {
        Some(f) => environment_matches(m, f@),
        None => true,
    }
}

// ---------------------------------------------------------------------------
// Executable checks
// ---------------------------------------------------------------------------
/// Decides the creature type constraint.
fn check_type(m: &Json, f: &str) -> (r: bool)
    ensures
        r == type_matches(*m, f@),
{
    match m.get("type") {
        None => true,
        Some(v) => match v {
            Json::Str(s) => str_eq(s.as_str(), f),
            Json::Obj(_) => match v.get("type") {
                Some(Json::Str(s)) => str_eq(s.as_str(), f),
                _ => str_eq("", f),
            },
            _ => str_eq("", f),
        },
    }
}

/// Decides the challenge-rating constraint.
fn check_cr(m: &Json, f: &str) -> (r: bool)
    ensures
        r == cr_matches(*m, f@),
{
    match m.get("cr") {
        None => true,
        Some(v) => match v {
            Json::Str(s) => str_eq(s.as_str(), f),
            Json::Num(n) => str_eq(n.text.as_str(), f),
            _ => str_eq("", f),
        },
    }
}

/// Decides the size constraint.
fn check_size(m: &Json, f: &str) -> (r: bool)
    ensures
        r == size_matches(*m, f@),
{
    match size_code(f) {
        None => false,
        Some(code) => match m.get("size") {
            Some(Json::Arr(elems)) => {
                let first: &str = if elems.len() > 0 {
                    match &elems[0] {
                        Json::Str(s) => s.as_str(),
                        _ => "",
                    }
                } else {
                    ""
                };
                str_eq(first, code)
            },
            _ => true,
        },
    }
}

/// Decides the alignment constraint.
#[verifier::loop_isolation(false)]
fn check_alignment(m: &Json, f: &str) -> (r: bool)
    ensures
        r == alignment_matches(*m, f@),
{
    let req = alignment_codes(f);
    match m.get("alignment") {
        Some(Json::Arr(elems)) => {
            let mut k: usize = 0;
            while k < req.len()
                invariant
                    forall|kk: int|
                        0 <= kk < k ==> has_str_elem(
                            elems@,
                            #[trigger] spec_alignment_codes(f@)[kk],
                        ),
                decreases req.len() - k,
            {
                let code = req[k];
                let mut found = false;
                let mut i: usize = 0;
                while i < elems.len()
                    invariant
                        i <= elems.len(),
                        found == exists|ii: int|
                            0 <= ii < i && match #[trigger] elems@[ii] {
                                Json::Str(s) => s@ == code@,
                                _ => false,
                            },
                    decreases elems.len() - i,
                {
                    if !found {
                        match &elems[i] {
                            Json::Str(s) => {
                                if str_eq(s.as_str(), code) {
                                    found = true;
                                }
                            },
                            _ => {},
                        }
                    }
                    i += 1;
                }
                if !found {
                    proof {
                        assert(!has_str_elem(elems@, spec_alignment_codes(f@)[k as int]));
                    }
                    return false;
                }
                proof {
                    assert(has_str_elem(elems@, spec_alignment_codes(f@)[k as int]));
                }
                k += 1;
            }
            true
        },
        _ => true,
    }
}

/// The rendering of an integer-valued number, else the empty string.
fn int_text_of<'a>(v: &'a Json) -> (r: &'a str)
    ensures
        r@ == int_text(*v),
{
    match v {
        Json::Num(n) => match n.as_int {
            Some(_) => n.text.as_str(),
            None => "",
        },
        _ => "",
    }
}

/// Decides the armor-class constraint.
fn check_ac(m: &Json, f: &str) -> (r: bool)
    ensures
        r == ac_matches(*m, f@),
{
    match m.get("ac") {
        None => true,
        Some(v) => match v {
            Json::Num(n) => str_eq(n.text.as_str(), f),
            Json::Arr(elems) => {
                let value: &str = if elems.len() > 0 {
                    match elems[0].get("ac") {
                        Some(w) => int_text_of(w),
                        None => "",
                    }
                } else {
                    ""
                };
                str_eq(value, f)
            },
            _ => str_eq("", f),
        },
    }
}

/// Decides the hit-point constraint.
fn check_hp(m: &Json, f: &str) -> (r: bool)
    ensures
        r == hp_matches(*m, f@),
{
    match m.get("hp") {
        None => true,
        Some(v) => match v {
            Json::Num(n) => str_eq(n.text.as_str(), f),
            Json::Obj(_) => {
                let value: &str = match v.get("average") {
                    Some(w) => int_text_of(w),
                    None => "",
                };
                str_eq(value, f)
            },
            _ => str_eq("", f),
        },
    }
}

/// Decides the speed constraint at the given movement mode.
fn check_speed(m: &Json, f: &str, mode: &str) -> (r: bool)
    ensures
        r == speed_matches(*m, f@, mode@),
{
    match m.get("speed") {
        None => true,
        Some(v) => match v {
            Json::Obj(_) => {
                let value: &str = match v.get(mode) {
                    Some(w) => int_text_of(w),
                    None => "",
                };
                str_eq(value, f)
            },
            Json::Str(s) => str_eq(s.as_str(), f),
            _ => str_eq("", f),
        },
    }
}

/// Decides the environment constraint.
#[verifier::loop_isolation(false)]
fn check_environment(m: &Json, f: &str) -> (r: bool)
    ensures
        r == environment_matches(*m, f@),
{
    let needle = lowercase(f);
    match m.get("environment") {
        None => true,
        Some(v) => match v {
            Json::Arr(elems) => {
                let mut i: usize = 0;
                while i < elems.len()
                    invariant
                        i <= elems.len(),
                        forall|ii: int| 0 <= ii < i ==> !env_elem_matches(#[trigger] elems@[ii], f@),
                    decreases elems.len() - i,
                {
                    match &elems[i] {
                        Json::Str(s) => {
                            let habitat = lowercase(s.as_str());
                            if str_contains(habitat.as_str(), needle.as_str()) {
                                return true;
                            }
                        },
                        _ => {},
                    }
                    i += 1;
                }
                false
            },
            Json::Str(s) => {
                let habitat = lowercase(s.as_str());
                str_contains(habitat.as_str(), needle.as_str())
            },
            _ => false,
        },
    }
}

/// Decides whether one record satisfies every present constraint of a query.
pub fn matches_monster(m: &Json, query: &MonsterQuery) -> (r: bool)
    ensures
        r == monster_matches(*m, *query),
{
    let mut match_found = true;
    match &query.type_ {
        Some(f) => {
            if !check_type(m, f.as_str()) {
                match_found = false;
            }
        },
        None => {},
    }
    match &query.cr {
        Some(f) => {
            if !check_cr(m, f.as_str()) {
                match_found = false;
            }
        },
        None => {},
    }
    match &query.size {
        Some(f) => {
            if !check_size(m, f.as_str()) {
                match_found = false;
            }
        },
        None => {},
    }
    match &query.alignment {
        Some(f) => {
            if !check_alignment(m, f.as_str()) {
                match_found = false;
            }
        },
        None => {},
    }
    match &query.ac {
        Some(f) => {
            if !check_ac(m, f.as_str()) {
                match_found = false;
            }
        },
        None => {},
    }
    match &query.hp {
        Some(f) => {
            if !check_hp(m, f.as_str()) {
                match_found = false;
            }
        },
        None => {},
    }
    match &query.speed {
        Some(f) => {
            let mode: &str = match &query.speed_type {
                Some(t) => t.as_str(),
                None => "walk",
            };
            if !check_speed(m, f.as_str(), mode) {
                match_found = false;
            }
        },
        None => {},
    }
    match &query.environment {
        Some(f) => {
            if !check_environment(m, f.as_str()) {
                match_found = false;
            }
        },
        None => {},
    }
    match_found
}

// ---------------------------------------------------------------------------
// The engine
// ---------------------------------------------------------------------------
/// The matching rule of a query, as a predicate on records.
pub open spec fn monster_pred(q: MonsterQuery) -> spec_fn(Json) -> bool {
    |m: Json| monster_matches(m, q)
}

/// The matching subsequence of a record sequence.
pub open spec fn spec_filter_monster_seq(s: Seq<Json>, q: MonsterQuery) -> Seq<Json> {
    s.filter(monster_pred(q))
}

/// What the engine returns: the matching subsequence of an array of records,
/// and nothing for data of any other shape.
pub open spec fn spec_filter_monsters(data: Json, q: MonsterQuery) -> Seq<Json> {
    match data {
        Json::Arr(records) => spec_filter_monster_seq(records@, q),
        _ => Seq::empty(),
    }
}

/// Filters monster records: returns the records that satisfy every present
/// constraint of the query, in their original order. Data that is not an
/// array yields no records.
#[verifier::loop_isolation(false)]
pub fn filter_monsters(data: Json, query: &MonsterQuery) -> (res: Vec<Json>)
    ensures
        res@ == spec_filter_monsters(data, *query),
{
    match data {
        Json::Arr(records) => {
            let mut rest = records;
            let mut out: Vec<Json> = Vec::new();
            let ghost all = rest@;
            let ghost mut seen: Seq<Json> = Seq::empty();
            proof {
                assert(seen + rest@ =~= all);
                reveal(Seq::filter);
                assert(seen.filter(monster_pred(*query)) =~= Seq::<Json>::empty());
            }
            while rest.len() > 0
                invariant
                    all == seen + rest@,
                    out@ == seen.filter(monster_pred(*query)),
                decreases rest@.len(),
            {
                let x = rest.remove(0);
                let keep = matches_monster(&x, query);
                proof {
                    lemma_filter_push(seen, monster_pred(*query), x);
                    assert(seen.push(x) + rest@ =~= all);
                    seen = seen.push(x);
                }
                if keep {
                    out.push(x);
                }
            }
            proof {
                assert(seen =~= all);
            }
            out
        },
        _ => Vec::new(),
    }
}

// ---------------------------------------------------------------------------
// The schema allowlist
// ---------------------------------------------------------------------------
/// Whether a schema property declares one of the scalar types that the
/// generic key=value matching mode can filter on.
pub open spec fn scalar_type_prop(v: Json) -> bool {
    match v.spec_get("type"@) {
        Some(Json::Str(t)) => t@ == "string"@ || t@ == "number"@ || t@ == "boolean"@,
        _ => false,
    }
}

/// The property map of a schema document: its "properties" object, or, for
/// an array-typed schema, the "properties" object one level down under
/// "items".
pub open spec fn schema_properties(schema: Json) -> Option<Seq<(String, Json)>> {
    match schema.spec_get("properties"@) {
        Some(Json::Obj(fields)) => Some(fields@),
        _ => match schema.spec_get("items"@) {
            Some(item) => match item.spec_get("properties"@) {
                Some(Json::Obj(fields)) => Some(fields@),
                _ => None,
            },
            _ => None,
        },
    }
}

/// Whether the first `n` properties of `fields` include one named `k` with
/// a scalar type.
pub open spec fn prefix_allows(fields: Seq<(String, Json)>, n: int, k: Seq<char>) -> bool {
    exists|i: int|
        0 <= i < n && (#[trigger] fields[i]).0@ == k && scalar_type_prop(fields[i].1)
}

/// Whether a schema document allows filtering on the field named `k`.
pub open spec fn allowed_field(schema: Json, k: Seq<char>) -> bool {
    match schema_properties(schema) {
        Some(fields) => prefix_allows(fields, fields.len() as int, k),
        None => false,
    }
}

/// Whether some entry of `v` reads `s`.
fn contains_str(v: &Vec<String>, s: &str) -> (r: bool)
    ensures
        r == exists|i: int| 0 <= i < v@.len() && (#[trigger] v@[i])@ == s@,
{
    let mut i: usize = 0;
    while i < v.len()
        invariant
            i <= v@.len(),
            forall|j: int| 0 <= j < i ==> (#[trigger] v@[j])@ != s@,
        decreases v@.len() - i,
    {
        if str_eq(v[i].as_str(), s) {
            return true;
        }
        i += 1;
    }
    false
}

/// Collects the filterable field names of a schema document: the names of
/// its properties whose declared type is string, number or boolean, each
/// name once. Feeds the legacy generic key=value matching mode.
#[verifier::loop_isolation(false)]
pub fn generate_filters(schema: &Json) -> (res: Vec<String>)
    ensures
        forall|j: int| 0 <= j < res@.len() ==> allowed_field(*schema, (#[trigger] res@[j])@),
        forall|t: Seq<char>|
            #[trigger] allowed_field(*schema, t) ==> exists|j: int|
                0 <= j < res@.len() && (#[trigger] res@[j])@ == t,
        forall|i: int, j: int| 0 <= i < j < res@.len() ==> res@[i]@ != res@[j]@,
{
    let mut out: Vec<String> = Vec::new();
    let props: Option<&Json> = match schema.get("properties") {
        Some(p@Json::Obj(_)) => Some(p),
        _ => match schema.get("items") {
            Some(item) => match item.get("properties") {
                Some(p@Json::Obj(_)) => Some(p),
                _ => None,
            },
            _ => None,
        },
    };
    match props {
        Some(Json::Obj(fields)) => {
            let mut i: usize = 0;
            while i < fields.len()
                invariant
                    i <= fields@.len(),
                    schema_properties(*schema) == Some(fields@),
                    forall|j: int|
                        0 <= j < out@.len() ==> prefix_allows(
                            fields@,
                            i as int,
                            (#[trigger] out@[j])@,
                        ),
                    forall|t: Seq<char>|
                        #[trigger] prefix_allows(fields@, i as int, t) ==> exists|j: int|
                            0 <= j < out@.len() && (#[trigger] out@[j])@ == t,
                    forall|a: int, b: int| 0 <= a < b < out@.len() ==> out@[a]@ != out@[b]@,
                decreases fields@.len() - i,
            {
                let pair = &fields[i];
                let scalar = match pair.1.get("type") {
                    Some(Json::Str(t)) => str_eq(t.as_str(), "string") || str_eq(
                        t.as_str(),
                        "number",
                    ) || str_eq(t.as_str(), "boolean"),
                    _ => false,
                };
                let ghost old_out = out@;
                if scalar && !contains_str(&out, pair.0.as_str()) {
                    out.push(pair.0.clone());
                }
                proof {
                    assert(scalar == scalar_type_prop(fields@[i as int].1));
                    assert forall|j: int| 0 <= j < out@.len() implies prefix_allows(
                        fields@,
                        i + 1,
                        (#[trigger] out@[j])@,
                    ) by {
                        if j < old_out.len() {
                            assert(prefix_allows(fields@, i as int, old_out[j]@));
                            let w = choose|w: int|
                                0 <= w < i && (#[trigger] fields@[w]).0@ == old_out[j]@
                                    && scalar_type_prop(fields@[w].1);
                            assert(0 <= w < i + 1);
                        } else {
                            assert(out@[j]@ == fields@[i as int].0@);
                        }
                    }
                    assert forall|t: Seq<char>| #[trigger]
                        prefix_allows(fields@, i + 1, t) implies exists|j: int|
                        0 <= j < out@.len() && (#[trigger] out@[j])@ == t by {
                        let w = choose|w: int|
                            0 <= w < i + 1 && (#[trigger] fields@[w]).0@ == t
                                && scalar_type_prop(fields@[w].1);
                        if w < i {
                            assert(prefix_allows(fields@, i as int, t));
                            let j = choose|j: int|
                                0 <= j < old_out.len() && (#[trigger] old_out[j])@ == t;
                            assert(out@[j]@ == t);
                        } else {
                            if scalar && old_out =~= out@ {
                                let j = choose|j: int|
                                    0 <= j < old_out.len() && (#[trigger] old_out[j])@ == t;
                                assert(out@[j]@ == t);
                            } else {
                                assert(out@[out@.len() - 1]@ == t);
                            }
                        }
                    }
                }
                i += 1;
            }
            out
        },
        _ => {
            proof {
                assert(schema_properties(*schema) is None);
            }
            out
        },
    }
}

// ---------------------------------------------------------------------------
// Laws of the engine
// ---------------------------------------------------------------------------
/// An empty query matches every record.
pub proof fn lemma_empty_monster_query_matches(m: Json, q: MonsterQuery)
    requires
        q.is_empty(),
    ensures
        monster_matches(m, q),
{
}

/// Filtering with an empty query keeps every record: the result is the
/// input, unchanged and in order.
pub proof fn lemma_filter_monsters_empty_query(s: Seq<Json>, q: MonsterQuery)
    requires
        q.is_empty(),
    ensures
        spec_filter_monster_seq(s, q) == s,
{
    lemma_filter_all_true(s, monster_pred(q));
}

/// Filtering is idempotent: filtering an already filtered sequence with the
/// same query changes nothing.
pub proof fn lemma_filter_monsters_idempotent(s: Seq<Json>, q: MonsterQuery)
    ensures
        spec_filter_monster_seq(spec_filter_monster_seq(s, q), q) == spec_filter_monster_seq(s, q),
{
    lemma_filter_idempotent(s, monster_pred(q));
}

/// The engine preserves order: its output is a subsequence of the input.
pub proof fn lemma_filter_monsters_subsequence(s: Seq<Json>, q: MonsterQuery)
    ensures
        is_subsequence_of(spec_filter_monster_seq(s, q), s),
{
    lemma_filter_subsequence(s, monster_pred(q));
}

} // verus!
