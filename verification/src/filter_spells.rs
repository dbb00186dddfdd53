//! The spell filter engine.
//!
//! Spell constraints follow the same shape as monster constraints, with two
//! differences stated by the rules themselves: casting times are classified
//! into a closed set of categories before comparison, and the boolean fields
//! (ritual, components, concentration) are tri-state — a `false` filter is
//! exclusionary too, and a record that lacks the flag counts as `false`.

use vstd::prelude::*;
use crate::json::Json;
use crate::queries::SpellQuery;
use crate::seq_facts::{
    is_subsequence_of,
    lemma_filter_all_true,
    lemma_filter_idempotent,
    lemma_filter_push,
    lemma_filter_subsequence,
};
use crate::text::{lower_of, lowercase, str_eq};

verus! {

// ---------------------------------------------------------------------------
// Casting-time categories
// ---------------------------------------------------------------------------
/// The closed classification of a casting time: a (count, unit) pair maps to
/// one of eight categories, and every unmatched combination is "other".
pub open spec fn time_category(number: u64, unit: Seq<char>) -> Seq<char> {
    if number == 1 && unit == "action"@ {
        "action"@
    } else if number == 1 && unit == "bonus"@ {
        "bonus action"@
    } else if number == 1 && unit == "reaction"@ {
        "reaction"@
    } else if number == 1 && unit == "minute"@ {
        "1 minute"@
    } else if number == 10 && unit == "minute"@ {
        "10 minute"@
    } else if number == 1 && unit == "hour"@ {
        "1 hour"@
    } else if number > 1 && unit == "hour"@ {
        "more than one hour"@
    } else {
        "other"@
    }
}

/// Classifies a casting time into its category name.
pub fn casting_time_category(number: u64, unit: &str) -> (r: &'static str)
    ensures
        r@ == time_category(number, unit@),
{
    if number == 1 && str_eq(unit, "action") {
        "action"
    } else if number == 1 && str_eq(unit, "bonus") {
        "bonus action"
    } else if number == 1 && str_eq(unit, "reaction") {
        "reaction"
    } else if number == 1 && str_eq(unit, "minute") {
        "1 minute"
    } else if number == 10 && str_eq(unit, "minute") {
        "10 minute"
    } else if number == 1 && str_eq(unit, "hour") {
        "1 hour"
    } else if number > 1 && str_eq(unit, "hour") {
        "more than one hour"
    } else {
        "other"
    }
}

// ---------------------------------------------------------------------------
// Per-field matching rules
// ---------------------------------------------------------------------------
/// The count a time entry carries, zero when absent or not a number.
pub open spec fn entry_number(e: Json) -> u64 {
    match e.spec_get("number"@) {
        Some(Json::Num(n)) => match n.as_uint {
            Some(u) => u,
            None => 0,
        },
        _ => 0,
    }
}

/// The unit a time entry carries, empty when absent or not a string.
pub open spec fn entry_unit(e: Json) -> Seq<char> {
    match e.spec_get("unit"@) {
        Some(Json::Str(s)) => s@,
        _ => ""@,
    }
}

/// Whether one time entry classifies into the queried category.
pub open spec fn time_entry_matches(e: Json, f: Seq<char>) -> bool {
    time_category(entry_number(e), entry_unit(e)) == f
}

/// The casting-time constraint: some entry of the record's "time" array
/// classifies into the queried category; a record without a time array
/// passes.
pub open spec fn casting_time_matches(m: Json, f: Seq<char>) -> bool {
    match m.spec_get("time"@) {
        Some(Json::Arr(elems)) => exists|i: int|
            0 <= i < elems@.len() && time_entry_matches(#[trigger] elems@[i], f),
        _ => true,
    }
}

/// The level constraint: a numeric record level must equal the queried
/// level exactly; a record without a numeric level passes.
pub open spec fn level_matches(m: Json, lvl: u8) -> bool {
    match m.spec_get("level"@) {
        Some(Json::Num(n)) => match n.as_uint {
            Some(u) => u == lvl as u64,
            None => true,
        },
        _ => true,
    }
}

/// Whether a spell is flagged as a ritual: the boolean at `meta.ritual`,
/// `false` when the flag or the whole "meta" object is absent.
pub open spec fn spell_is_ritual(m: Json) -> bool {
    match m.spec_get("meta"@) {
        Some(meta) => match meta.spec_get("ritual"@) {
            Some(Json::Bool(b)) => b,
            _ => false,
        },
        None => false,
    }
}

/// The school constraint: case-insensitive equality with the record's
/// "school" string; a record without one passes.
pub open spec fn school_matches(m: Json, f: Seq<char>) -> bool {
    match m.spec_get("school"@) {
        Some(Json::Str(s)) => lower_of(s@) == lower_of(f),
        _ => true,
    }
}

/// The range constraint: case-insensitive equality with the record's
/// `range.type` string; a record without one passes.
pub open spec fn range_matches(m: Json, f: Seq<char>) -> bool {
    match m.spec_get("range"@) {
        Some(r) => match r.spec_get("type"@) {
            Some(Json::Str(s)) => lower_of(s@) == lower_of(f),
            _ => true,
        },
        None => true,
    }
}

/// The boolean at `components.<key>`, `false` when absent or not a boolean.
pub open spec fn component_flag(m: Json, key: Seq<char>) -> bool {
    match m.spec_get("components"@) {
        Some(c) => match c.spec_get(key) {
            Some(Json::Bool(b)) => b,
            _ => false,
        },
        None => false,
    }
}

/// The material component flag: a boolean is taken as is, and an object —
/// material detail recorded in place of a bare flag — counts as `true`.
pub open spec fn component_m_flag(m: Json) -> bool {
    match m.spec_get("components"@) {
        Some(c) => match c.spec_get("m"@) {
            Some(Json::Bool(b)) => b,
            Some(Json::Obj(_)) => true,
            _ => false,
        },
        None => false,
    }
}

/// The type name a duration entry carries, empty when absent.
pub open spec fn duration_type(d: Json) -> Seq<char> {
    match d.spec_get("type"@) {
        Some(Json::Str(s)) => s@,
        _ => ""@,
    }
}

/// The duration constraint: some entry of the record's "duration" array has
/// the queried type; a record without a duration array passes.
pub open spec fn duration_matches(m: Json, f: Seq<char>) -> bool {
    match m.spec_get("duration"@) {
        Some(Json::Arr(elems)) => exists|i: int|
            0 <= i < elems@.len() && duration_type(#[trigger] elems@[i]) == f,
        _ => true,
    }
}

/// Whether one duration entry is flagged for concentration.
pub open spec fn entry_concentration(d: Json) -> bool {
    match d.spec_get("concentration"@) {
        Some(Json::Bool(b)) => b,
        _ => false,
    }
}

/// Whether a spell requires concentration: some duration entry carries the
/// flag; a record without a duration array does not.
pub open spec fn spell_is_concentration(m: Json) -> bool {
    match m.spec_get("duration"@) {
        Some(Json::Arr(elems)) => exists|i: int|
            0 <= i < elems@.len() && entry_concentration(#[trigger] elems@[i]),
        _ => false,
    }
}

/// A spell matches a query when every present constraint is satisfied. The
/// boolean constraints are tri-state: both `true` and `false` filters are
/// exclusionary, with absent record flags counting as `false`.
pub open spec fn spell_matches(m: Json, q: SpellQuery) -> bool {
    &&& match q.level {
        Some(lvl) => level_matches(m, lvl),
        None => true,
    }
    &&& match q.ritual {
        Some(f) => spell_is_ritual(m) == f,
        None => true,
    }
    &&& match q.school {
        Some(f) => school_matches(m, f@),
        None => true,
    }
    &&& match q.casting_time {
        Some(f) => casting_time_matches(m, f@),
        None => true,
    }
    &&& match q.range {
        Some(f) => range_matches(m, f@),
        None => true,
    }
    &&& match q.component_v {
        Some(f) => component_flag(m, "v"@) == f,
        None => true,
    }
    &&& match q.component_s {
        Some(f) => component_flag(m, "s"@) == f,
        None => true,
    }
    &&& match q.component_m {
        Some(f) => component_m_flag(m) == f,
        None => true,
    }
    &&& match q.duration {
        Some(f) => duration_matches(m, f@),
        None => true,
    }
    &&& match q.concentration {
        Some(f) => spell_is_concentration(m) == f,
        None => true,
    }
}

// ---------------------------------------------------------------------------
// Executable checks
// ---------------------------------------------------------------------------
/// Decides the level constraint.
fn check_level(m: &Json, lvl: u8) -> (r: bool)
    ensures
        r == level_matches(*m, lvl),
{
    match m.get("level") {
        Some(Json::Num(n)) => match n.as_uint {
            Some(u) => u == lvl as u64,
            None => true,
        },
        _ => true,
    }
}

/// Reads the `meta.ritual` flag.
fn ritual_flag(m: &Json) -> (r: bool)
    ensures
        r == spell_is_ritual(*m),
{
    match m.get("meta") {
        Some(meta) => match meta.get("ritual") {
            Some(Json::Bool(b)) => *b,
            _ => false,
        },
        None => false,
    }
}

/// Decides the school constraint.
fn check_school(m: &Json, f: &str) -> (r: bool)
    ensures
        r == school_matches(*m, f@),
{
    match m.get("school") {
        Some(Json::Str(s)) => {
            let a = lowercase(s.as_str());
            let b = lowercase(f);
            str_eq(a.as_str(), b.as_str())
        },
        _ => true,
    }
}

/// Decides the casting-time constraint.
#[verifier::loop_isolation(false)]
fn check_casting_time(m: &Json, f: &str) -> (r: bool)
    ensures
        r == casting_time_matches(*m, f@),
{
    match m.get("time") {
        Some(Json::Arr(elems)) => {
            let mut i: usize = 0;
            while i < elems.len()
                invariant
                    i <= elems.len(),
                    forall|ii: int| 0 <= ii < i ==> !time_entry_matches(#[trigger] elems@[ii], f@),
                decreases elems.len() - i,
            {
                let e = &elems[i];
                let number: u64 = match e.get("number") {
                    Some(Json::Num(n)) => match n.as_uint {
                        Some(u) => u,
                        None => 0,
                    },
                    _ => 0,
                };
                let unit: &str = match e.get("unit") {
                    Some(Json::Str(s)) => s.as_str(),
                    _ => "",
                };
                let category = casting_time_category(number, unit);
                if str_eq(category, f) {
                    return true;
                }
                i += 1;
            }
            false
        },
        _ => true,
    }
}

/// Decides the range constraint.
fn check_range(m: &Json, f: &str) -> (r: bool)
    ensures
        r == range_matches(*m, f@),
{
    match m.get("range") {
        Some(range) => match range.get("type") {
            Some(Json::Str(s)) => {
                let a = lowercase(s.as_str());
                let b = lowercase(f);
                str_eq(a.as_str(), b.as_str())
            },
            _ => true,
        },
        None => true,
    }
}

/// Reads the boolean at `components.<key>`.
fn read_component_flag(m: &Json, key: &str) -> (r: bool)
    ensures
        r == component_flag(*m, key@),
{
    match m.get("components") {
        Some(c) => match c.get(key) {
            Some(Json::Bool(b)) => *b,
            _ => false,
        },
        None => false,
    }
}

/// Reads the material component flag, where recorded detail counts as set.
fn read_component_m_flag(m: &Json) -> (r: bool)
    ensures
        r == component_m_flag(*m),
{
    match m.get("components") {
        Some(c) => match c.get("m") {
            Some(Json::Bool(b)) => *b,
            Some(Json::Obj(_)) => true,
            _ => false,
        },
        None => false,
    }
}

/// Decides the duration constraint.
#[verifier::loop_isolation(false)]
fn check_duration(m: &Json, f: &str) -> (r: bool)
    ensures
        r == duration_matches(*m, f@),
{
    match m.get("duration") {
        Some(Json::Arr(elems)) => {
            let mut i: usize = 0;
            while i < elems.len()
                invariant
                    i <= elems.len(),
                    forall|ii: int| 0 <= ii < i ==> duration_type(#[trigger] elems@[ii]) != f@,
                decreases elems.len() - i,
            {
                let d = &elems[i];
                let kind: &str = match d.get("type") {
                    Some(Json::Str(s)) => s.as_str(),
                    _ => "",
                };
                if str_eq(kind, f) {
                    return true;
                }
                i += 1;
            }
            false
        },
        _ => true,
    }
}

/// Reads whether any duration entry is flagged for concentration.
#[verifier::loop_isolation(false)]
fn concentration_flag(m: &Json) -> (r: bool)
    ensures
        r == spell_is_concentration(*m),
{
    match m.get("duration") {
        Some(Json::Arr(elems)) => {
            let mut i: usize = 0;
            while i < elems.len()
                invariant
                    i <= elems.len(),
                    forall|ii: int| 0 <= ii < i ==> !entry_concentration(#[trigger] elems@[ii]),
                decreases elems.len() - i,
            {
                let d = &elems[i];
                match d.get("concentration") {
                    Some(Json::Bool(b)) => {
                        if *b {
                            return true;
                        }
                    },
                    _ => {},
                }
                i += 1;
            }
            false
        },
        _ => false,
    }
}

/// Decides whether one spell satisfies every present constraint of a query.
pub fn matches_spell(m: &Json, query: &SpellQuery) -> (r: bool)
    ensures
        r == spell_matches(*m, *query),
{
    let mut match_found = true;
    match query.level {
        Some(lvl) => {
            if !check_level(m, lvl) {
                match_found = false;
            }
        },
        None => {},
    }
    match query.ritual {
        Some(f) => {
            let is_ritual = ritual_flag(m);
            if f && !is_ritual {
                match_found = false;
            }
            if !f && is_ritual {
                match_found = false;
            }
        },
        None => {},
    }
    match &query.school {
        Some(f) => {
            if !check_school(m, f.as_str()) {
                match_found = false;
            }
        },
        None => {},
    }
    match &query.casting_time {
        Some(f) => {
            if !check_casting_time(m, f.as_str()) {
                match_found = false;
            }
        },
        None => {},
    }
    match &query.range {
        Some(f) => {
            if !check_range(m, f.as_str()) {
                match_found = false;
            }
        },
        None => {},
    }
    match query.component_v {
        Some(f) => {
            if read_component_flag(m, "v") != f {
                match_found = false;
            }
        },
        None => {},
    }
    match query.component_s {
        Some(f) => {
            if read_component_flag(m, "s") != f {
                match_found = false;
            }
        },
        None => {},
    }
    match query.component_m {
        Some(f) => {
            if read_component_m_flag(m) != f {
                match_found = false;
            }
        },
        None => {},
    }
    match &query.duration {
        Some(f) => {
            if !check_duration(m, f.as_str()) {
                match_found = false;
            }
        },
        None => {},
    }
    match query.concentration {
        Some(f) => {
            if concentration_flag(m) != f {
                match_found = false;
            }
        },
        None => {},
    }
    match_found
}

// ---------------------------------------------------------------------------
// The engine
// ---------------------------------------------------------------------------
/// The matching rule of a query, as a predicate on records.
pub open spec fn spell_pred(q: SpellQuery) -> spec_fn(Json) -> bool {
    |m: Json| spell_matches(m, q)
}

/// The matching subsequence of a record sequence.
pub open spec fn spec_filter_spell_seq(s: Seq<Json>, q: SpellQuery) -> Seq<Json> {
    s.filter(spell_pred(q))
}

/// What the engine returns: the matching subsequence of an array of records,
/// and nothing for data of any other shape.
pub open spec fn spec_filter_spells(data: Json, q: SpellQuery) -> Seq<Json> {
    match data {
        Json::Arr(records) => spec_filter_spell_seq(records@, q),
        _ => Seq::empty(),
    }
}

/// Filters spell records: returns the records that satisfy every present
/// constraint of the query, in their original order. Data that is not an
/// array yields no records.
#[verifier::loop_isolation(false)]
pub fn filter_spells(data: Json, query: &SpellQuery) -> (res: Vec<Json>)
    ensures
        res@ == spec_filter_spells(data, *query),
{
    match data {
        Json::Arr(records) => {
            let mut rest = records;
            let mut out: Vec<Json> = Vec::new();
            let ghost all = rest@;
            let ghost mut seen: Seq<Json> = Seq::empty();
            proof {
                assert(seen + rest@ =~= all);
                reveal(Seq::filter);
                assert(seen.filter(spell_pred(*query)) =~= Seq::<Json>::empty());
            }
            while rest.len() > 0
                invariant
                    all == seen + rest@,
                    out@ == seen.filter(spell_pred(*query)),
                decreases rest@.len(),
            {
                let x = rest.remove(0);
                let keep = matches_spell(&x, query);
                proof {
                    lemma_filter_push(seen, spell_pred(*query), x);
                    assert(seen.push(x) + rest@ =~= all);
                    seen = seen.push(x);
                }
                if keep {
                    out.push(x);
                }
            }
            proof {
                assert(seen =~= all);
            }
            out
        },
        _ => Vec::new(),
    }
}

// ---------------------------------------------------------------------------
// Laws of the engine
// ---------------------------------------------------------------------------
/// An empty query matches every spell.
pub proof fn lemma_empty_spell_query_matches(m: Json, q: SpellQuery)
    requires
        q.is_empty(),
    ensures
        spell_matches(m, q),
{
}

/// Filtering with an empty query keeps every record: the result is the
/// input, unchanged and in order.
pub proof fn lemma_filter_spells_empty_query(s: Seq<Json>, q: SpellQuery)
    requires
        q.is_empty(),
    ensures
        spec_filter_spell_seq(s, q) == s,
{
    lemma_filter_all_true(s, spell_pred(q));
}

/// Filtering is idempotent: filtering an already filtered sequence with the
/// same query changes nothing.
pub proof fn lemma_filter_spells_idempotent(s: Seq<Json>, q: SpellQuery)
    ensures
        spec_filter_spell_seq(spec_filter_spell_seq(s, q), q) == spec_filter_spell_seq(s, q),
{
    lemma_filter_idempotent(s, spell_pred(q));
}

/// The engine preserves order: its output is a subsequence of the input.
pub proof fn lemma_filter_spells_subsequence(s: Seq<Json>, q: SpellQuery)
    ensures
        is_subsequence_of(spec_filter_spell_seq(s, q), s),
{
    lemma_filter_subsequence(s, spell_pred(q));
}

} // verus!
