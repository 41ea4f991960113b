//! Encoding of the data model as JSON documents and the decoding back,
//! with per-field defaults for values missing from older files.
use vstd::prelude::*;

use crate::json::{
    ser_json, sp_json, elems_wf, members_wf, json_view, json_views, pair_views, Json, JsonVal,
    Number, lemma_pair_views_len, lemma_pair_views_index, lemma_pair_views_push,
    lemma_json_round_trip,
};
use crate::model::{
    opt_str_view, AppConfig, AppConfigV, AutoAdvanceConfig, BuildOrder, BuildOrderBranch,
    BuildOrderBranchV, BuildOrderStep, BuildOrderStepV, BuildOrderV, HotkeyConfig, HotkeyConfigV,
    MatchupAlertsConfig, ReminderConfig, ReminderItemConfig, Resources, SacredSitesConfig,
    TelemetryConfig, TimerDriftConfig, UpgradeBadgeConfig, UpgradeBadgeConfigV,
    UpgradeBadgesConfig, UpgradeBadgesConfigV, VoiceConfig, WindowPosition, WindowSize,
};

verus! {

broadcast use lemma_pair_views_len, lemma_pair_views_index;
// ---------------------------------------------------------------------------
// Field lookup in an object
// ---------------------------------------------------------------------------
/// The value under `key`, taking the first occurrence.
pub open spec fn jv_get(ps: Seq<(Seq<char>, JsonVal)>, key: Seq<char>) -> Option<JsonVal>
    decreases ps.len(),
{
    if ps.len() == 0 {
        None
    } else if ps[0].0 == key {
        Some(ps[0].1)
    } else {
        jv_get(ps.drop_first(), key)
    }
}

/// Whether the characters of `a` and `b` are the same.
pub(crate) fn str_eq(a: &str, b: &str) -> (r: bool)
    ensures
        r == (a@ == b@),
{
    let n = a.unicode_len();
    if n != b.unicode_len() {
        assert(a@.len() != b@.len());
        return false;
    }
    let mut i: usize = 0;
    while i < n
        invariant
            n == a@.len(),
            b@.len() == n,
            i <= n,
            forall|k: int| 0 <= k < i ==> a@[k] == b@[k],
        decreases n - i,
    {
        if a.get_char(i) != b.get_char(i) {
            return false;
        }
        i += 1;
    }
    proof {
        assert(a@ =~= b@);
    }
    true
}

fn obj_get<'a>(pairs: &'a Vec<(String, Json)>, key: &str) -> (r: Option<&'a Json>)
    ensures
        match r {
            Some(v) => jv_get(pair_views(pairs@), key@) == Some(json_view(*v)),
            None => jv_get(pair_views(pairs@), key@) is None,
        },
{
    let ghost all = pair_views(pairs@);
    proof {
        assert(all.skip(0) =~= all);
    }
    let mut i: usize = 0;
    while i < pairs.len()
        invariant
            i <= pairs@.len(),
            all == pair_views(pairs@),
            all.len() == pairs@.len(),
            jv_get(all, key@) == jv_get(all.skip(i as int), key@),
        decreases pairs@.len() - i,
    {
        proof {
            assert(all.skip(i as int)[0] == all[i as int]);
            assert(all[i as int] == (pairs@[i as int].0@, json_view(pairs@[i as int].1)));
            assert(all.skip(i as int).drop_first() =~= all.skip(i + 1 as int));
        }
        if str_eq(pairs[i].0.as_str(), key) {
            return Some(&pairs[i].1);
        }
        i += 1;
    }
    proof {
        assert(all.skip(pairs@.len() as int).len() == 0);
    }
    None
}

// ---------------------------------------------------------------------------
// Encoding
// ---------------------------------------------------------------------------
pub open spec fn enc_opt_str(o: Option<Seq<char>>) -> JsonVal {
    match o {
        Some(s) => JsonVal::Str(s),
        None => JsonVal::Null,
    }
}

pub open spec fn enc_u32(v: u32) -> JsonVal {
    JsonVal::Num(Number { mantissa: v as i64, scale: 0 })
}

pub open spec fn enc_opt_i32(o: Option<i32>) -> JsonVal {
    match o {
        Some(v) => JsonVal::Num(Number { mantissa: v as i64, scale: 0 }),
        None => JsonVal::Null,
    }
}

pub open spec fn enc_resources(r: Resources) -> JsonVal {
    JsonVal::Obj(
        seq![
            ("food"@, enc_opt_i32(r.food)),
            ("wood"@, enc_opt_i32(r.wood)),
            ("gold"@, enc_opt_i32(r.gold)),
            ("stone"@, enc_opt_i32(r.stone)),
        ],
    )
}

pub open spec fn enc_step(s: BuildOrderStepV) -> JsonVal {
    JsonVal::Obj(
        seq![
            ("id"@, JsonVal::Str(s.id)),
            ("description"@, JsonVal::Str(s.description)),
            ("timing"@, enc_opt_str(s.timing)),
            (
                "resources"@,
                match s.resources {
                    Some(r) => enc_resources(r),
                    None => JsonVal::Null,
                },
            ),
        ],
    )
}

pub open spec fn enc_steps(ss: Seq<BuildOrderStepV>) -> Seq<JsonVal> {
    ss.map_values(|s: BuildOrderStepV| enc_step(s))
}

pub open spec fn enc_branch(b: BuildOrderBranchV) -> JsonVal {
    JsonVal::Obj(
        seq![
            ("id"@, JsonVal::Str(b.id)),
            ("name"@, JsonVal::Str(b.name)),
            ("trigger"@, enc_opt_str(b.trigger)),
            ("startStepIndex"@, enc_u32(b.start_step_index)),
            ("steps"@, JsonVal::Arr(enc_steps(b.steps))),
        ],
    )
}

pub open spec fn enc_branches(bs: Seq<BuildOrderBranchV>) -> Seq<JsonVal> {
    bs.map_values(|b: BuildOrderBranchV| enc_branch(b))
}

pub open spec fn enc_order(o: BuildOrderV) -> JsonVal {
    JsonVal::Obj(
        seq![
            ("id"@, JsonVal::Str(o.id)),
            ("name"@, JsonVal::Str(o.name)),
            ("civilization"@, JsonVal::Str(o.civilization)),
            ("description"@, JsonVal::Str(o.description)),
            ("difficulty"@, JsonVal::Str(o.difficulty)),
            ("steps"@, JsonVal::Arr(enc_steps(o.steps))),
            ("enabled"@, JsonVal::Bool(o.enabled)),
            ("pinned"@, JsonVal::Bool(o.pinned)),
            ("favorite"@, JsonVal::Bool(o.favorite)),
            (
                "branches"@,
                match o.branches {
                    Some(bs) => JsonVal::Arr(enc_branches(bs)),
                    None => JsonVal::Null,
                },
            ),
        ],
    )
}

// ---------------------------------------------------------------------------
// Decoding
// ---------------------------------------------------------------------------
pub open spec fn num_as_u32s(n: Number) -> Option<u32> {
    if n.scale == 0 && 0 <= n.mantissa <= u32::MAX {
        Some(n.mantissa as u32)
    } else {
        None
    }
}

pub open spec fn num_as_i32s(n: Number) -> Option<i32> {
    if n.scale == 0 && i32::MIN <= n.mantissa <= i32::MAX {
        Some(n.mantissa as i32)
    } else {
        None
    }
}

/// A required string field.
pub open spec fn dec_str_field(ps: Seq<(Seq<char>, JsonVal)>, key: Seq<char>) -> Option<Seq<char>> {
    match jv_get(ps, key) {
        Some(JsonVal::Str(s)) => Some(s),
        _ => None,
    }
}

/// An optional string field: missing or null reads as absent.
pub open spec fn dec_opt_str_field(ps: Seq<(Seq<char>, JsonVal)>, key: Seq<char>) -> Option<
    Option<Seq<char>>,
> {
    match jv_get(ps, key) {
        None => Some(None),
        Some(JsonVal::Null) => Some(None),
        Some(JsonVal::Str(s)) => Some(Some(s)),
        Some(_) => None,
    }
}

/// A required boolean field.
pub open spec fn dec_bool_field(ps: Seq<(Seq<char>, JsonVal)>, key: Seq<char>) -> Option<bool> {
    match jv_get(ps, key) {
        Some(JsonVal::Bool(b)) => Some(b),
        _ => None,
    }
}

/// A boolean field that reads as `false` when missing.
pub open spec fn dec_bool_default(ps: Seq<(Seq<char>, JsonVal)>, key: Seq<char>) -> Option<bool> {
    match jv_get(ps, key) {
        None => Some(false),
        Some(JsonVal::Bool(b)) => Some(b),
        Some(_) => None,
    }
}

/// A required unsigned integer field.
pub open spec fn dec_u32_field(ps: Seq<(Seq<char>, JsonVal)>, key: Seq<char>) -> Option<u32> {
    match jv_get(ps, key) {
        Some(JsonVal::Num(n)) => num_as_u32s(n),
        _ => None,
    }
}

/// An optional signed integer field: missing or null reads as absent.
pub open spec fn dec_opt_i32_field(ps: Seq<(Seq<char>, JsonVal)>, key: Seq<char>) -> Option<
    Option<i32>,
> {
    match jv_get(ps, key) {
        None => Some(None),
        Some(JsonVal::Null) => Some(None),
        Some(JsonVal::Num(n)) => match num_as_i32s(n) {
            Some(v) => Some(Some(v)),
            None => None,
        },
        Some(_) => None,
    }
}

pub open spec fn dec_resources(j: JsonVal) -> Option<Resources> {
    match j {
        JsonVal::Obj(ps) => match (dec_opt_i32_field(ps, "food"@)) {
            None => None,
            Some(food) => match (dec_opt_i32_field(ps, "wood"@)) {
                None => None,
                Some(wood) => match (dec_opt_i32_field(ps, "gold"@)) {
                    None => None,
                    Some(gold) => match (dec_opt_i32_field(ps, "stone"@)) {
                        None => None,
                        Some(stone) => Some(Resources { food, wood, gold, stone }),
                    },
                },
            },
        },
        _ => None,
    }
}

pub open spec fn dec_step(j: JsonVal) -> Option<BuildOrderStepV> {
    match j {
        JsonVal::Obj(ps) => match (dec_str_field(ps, "id"@)) {
            None => None,
            Some(id) => match (dec_str_field(ps, "description"@)) {
                None => None,
                Some(description) => match (dec_opt_str_field(ps, "timing"@)) {
                    None => None,
                    Some(timing) => match (jv_get(ps, "resources"@)) {
                        None => Some(BuildOrderStepV { id, description, timing, resources: None }),
                        Some(JsonVal::Null) => Some(
                            BuildOrderStepV { id, description, timing, resources: None },
                        ),
                        Some(rj) => match (dec_resources(rj)) {
                            None => None,
                            Some(r) => Some(
                                BuildOrderStepV { id, description, timing, resources: Some(r) },
                            ),
                        },
                    },
                },
            },
        },
        _ => None,
    }
}

pub open spec fn dec_steps(es: Seq<JsonVal>) -> Option<Seq<BuildOrderStepV>>
    decreases es.len(),
{
    if es.len() == 0 {
        Some(Seq::empty())
    } else {
        match dec_step(es[0]) {
            None => None,
            Some(s) => match dec_steps(es.drop_first()) {
                None => None,
                Some(t) => Some(seq![s] + t),
            },
        }
    }
}

pub open spec fn dec_branch(j: JsonVal) -> Option<BuildOrderBranchV> {
    match j {
        JsonVal::Obj(ps) => match (dec_str_field(ps, "id"@)) {
            None => None,
            Some(id) => match (dec_str_field(ps, "name"@)) {
                None => None,
                Some(name) => match (dec_opt_str_field(ps, "trigger"@)) {
                    None => None,
                    Some(trigger) => {
                        let ssi = match jv_get(ps, "startStepIndex"@) {
                            None => Some(0u32),
                            Some(JsonVal::Num(n)) => num_as_u32s(n),
                            Some(_) => None,
                        };
                        match ssi {
                            None => None,
                            Some(start_step_index) => match (jv_get(ps, "steps"@)) {
                                Some(JsonVal::Arr(es)) => match (dec_steps(es)) {
                                    None => None,
                                    Some(steps) => Some(
                                        BuildOrderBranchV {
                                            id,
                                            name,
                                            trigger,
                                            start_step_index,
                                            steps,
                                        },
                                    ),
                                },
                                _ => None,
                            },
                        }
                    },
                },
            },
        },
        _ => None,
    }
}

pub open spec fn dec_branches(es: Seq<JsonVal>) -> Option<Seq<BuildOrderBranchV>>
    decreases es.len(),
{
    if es.len() == 0 {
        Some(Seq::empty())
    } else {
        match dec_branch(es[0]) {
            None => None,
            Some(b) => match dec_branches(es.drop_first()) {
                None => None,
                Some(t) => Some(seq![b] + t),
            },
        }
    }
}

pub open spec fn dec_order(j: JsonVal) -> Option<BuildOrderV> {
    match j {
        JsonVal::Obj(ps) => match (dec_str_field(ps, "id"@)) {
            None => None,
            Some(id) => match (dec_str_field(ps, "name"@)) {
                None => None,
                Some(name) => match (dec_str_field(ps, "civilization"@)) {
                    None => None,
                    Some(civilization) => match (dec_str_field(ps, "description"@)) {
                        None => None,
                        Some(description) => match (dec_str_field(ps, "difficulty"@)) {
                            None => None,
                            Some(difficulty) => match (jv_get(ps, "steps"@)) {
                                Some(JsonVal::Arr(es)) => match (dec_steps(es)) {
                                    None => None,
                                    Some(steps) => match (dec_bool_field(ps, "enabled"@)) {
                                        None => None,
                                        Some(enabled) => match (dec_bool_default(ps, "pinned"@)) {
                                            None => None,
                                            Some(pinned) => match (dec_bool_default(
                                                ps,
                                                "favorite"@,
                                            )) {
                                                None => None,
                                                Some(favorite) => {
                                                    let brs = match jv_get(ps, "branches"@) {
                                                        None => Some(
                                                            None::<Seq<BuildOrderBranchV>>,
                                                        ),
                                                        Some(JsonVal::Null) => Some(None),
                                                        Some(JsonVal::Arr(bes)) => match dec_branches(
                                                            bes,
                                                        ) {
                                                            None => None,
                                                            Some(bs) => Some(Some(bs)),
                                                        },
                                                        Some(_) => None,
                                                    };
                                                    match brs {
                                                        None => None,
                                                        Some(branches) => Some(
                                                            BuildOrderV {
                                                                id,
                                                                name,
                                                                civilization,
                                                                description,
                                                                difficulty,
                                                                steps,
                                                                enabled,
                                                                pinned,
                                                                favorite,
                                                                branches,
                                                            },
                                                        ),
                                                    }
                                                },
                                            },
                                        },
                                    },
                                },
                                _ => None,
                            },
                        },
                    },
                },
            },
        },
        _ => None,
    }
}

// ---------------------------------------------------------------------------
// Data round trip
// ---------------------------------------------------------------------------
proof fn lemma_rt_resources(r: Resources)
    ensures
        dec_resources(enc_resources(r)) == Some(r),
{
    reveal_strlit("food");
    reveal_strlit("wood");
    reveal_strlit("gold");
    reveal_strlit("stone");
    let ps = seq![
        ("food"@, enc_opt_i32(r.food)),
        ("wood"@, enc_opt_i32(r.wood)),
        ("gold"@, enc_opt_i32(r.gold)),
        ("stone"@, enc_opt_i32(r.stone)),
    ];
    assert("food"@[0] == 'f');
    assert("wood"@[0] == 'w');
    assert("gold"@[0] == 'g');
    assert("food"@ != "wood"@);
    assert("food"@ != "gold"@);
    assert("food"@ != "stone"@);
    assert("wood"@ != "gold"@);
    assert("wood"@ != "stone"@);
    assert("gold"@ != "stone"@);
    assert(jv_get(ps, "food"@) == Some(enc_opt_i32(r.food))) by {
        reveal_with_fuel(jv_get, 6);
    }
    assert(jv_get(ps, "wood"@) == Some(enc_opt_i32(r.wood))) by {
        reveal_with_fuel(jv_get, 6);
    }
    assert(jv_get(ps, "gold"@) == Some(enc_opt_i32(r.gold))) by {
        reveal_with_fuel(jv_get, 6);
    }
    assert(jv_get(ps, "stone"@) == Some(enc_opt_i32(r.stone))) by {
        reveal_with_fuel(jv_get, 6);
    }
    assert(dec_opt_i32_field(ps, "food"@) == Some(r.food));
    assert(dec_opt_i32_field(ps, "wood"@) == Some(r.wood));
    assert(dec_opt_i32_field(ps, "gold"@) == Some(r.gold));
    assert(dec_opt_i32_field(ps, "stone"@) == Some(r.stone));
}

proof fn lemma_enc_resources_wf(r: Resources)
    ensures
        enc_resources(r).wf(),
{
    let ps = seq![
        ("food"@, enc_opt_i32(r.food)),
        ("wood"@, enc_opt_i32(r.wood)),
        ("gold"@, enc_opt_i32(r.gold)),
        ("stone"@, enc_opt_i32(r.stone)),
    ];
    assert(members_wf(ps)) by {
        reveal_with_fuel(members_wf, 6);
        assert(ps.drop_first().drop_first().drop_first().drop_first().len() == 0);
    }
}

proof fn lemma_rt_step(s: BuildOrderStepV)
    ensures
        dec_step(enc_step(s)) == Some(s),
{
    reveal_strlit("id");
    reveal_strlit("description");
    reveal_strlit("timing");
    reveal_strlit("resources");
    assert("id"@.len() == 2);
    assert("description"@.len() == 11);
    assert("timing"@.len() == 6);
    assert("resources"@.len() == 9);
    let ps = seq![
        ("id"@, JsonVal::Str(s.id)),
        ("description"@, JsonVal::Str(s.description)),
        ("timing"@, enc_opt_str(s.timing)),
        (
            "resources"@,
            match s.resources {
                Some(r) => enc_resources(r),
                None => JsonVal::Null,
            },
        ),
    ];
    assert(jv_get(ps, "id"@) == Some(JsonVal::Str(s.id))) by {
        reveal_with_fuel(jv_get, 6);
    }
    assert(jv_get(ps, "description"@) == Some(JsonVal::Str(s.description))) by {
        reveal_with_fuel(jv_get, 6);
    }
    assert(jv_get(ps, "timing"@) == Some(enc_opt_str(s.timing))) by {
        reveal_with_fuel(jv_get, 6);
    }
    assert(jv_get(ps, "resources"@) == Some(
        match s.resources {
            Some(r) => enc_resources(r),
            None => JsonVal::Null,
        },
    )) by {
        reveal_with_fuel(jv_get, 6);
    }
    match s.resources {
        Some(r) => {
            lemma_rt_resources(r);
        },
        None => {},
    }
}

proof fn lemma_rt_steps(ss: Seq<BuildOrderStepV>)
    ensures
        dec_steps(enc_steps(ss)) == Some(ss),
    decreases ss.len(),
{
    if ss.len() == 0 {
        assert(enc_steps(ss) =~= Seq::<JsonVal>::empty());
        assert(Seq::<BuildOrderStepV>::empty() =~= ss);
    } else {
        lemma_rt_step(ss[0]);
        assert(enc_steps(ss)[0] == enc_step(ss[0]));
        assert(enc_steps(ss).drop_first() =~= enc_steps(ss.drop_first()));
        lemma_rt_steps(ss.drop_first());
        assert(seq![ss[0]] + ss.drop_first() =~= ss);
    }
}

proof fn lemma_rt_branch(b: BuildOrderBranchV)
    ensures
        dec_branch(enc_branch(b)) == Some(b),
{
    reveal_strlit("id");
    reveal_strlit("name");
    reveal_strlit("trigger");
    reveal_strlit("startStepIndex");
    reveal_strlit("steps");
    assert("id"@.len() == 2);
    assert("name"@.len() == 4);
    assert("trigger"@.len() == 7);
    assert("startStepIndex"@.len() == 14);
    assert("steps"@.len() == 5);
    let ps = seq![
        ("id"@, JsonVal::Str(b.id)),
        ("name"@, JsonVal::Str(b.name)),
        ("trigger"@, enc_opt_str(b.trigger)),
        ("startStepIndex"@, enc_u32(b.start_step_index)),
        ("steps"@, JsonVal::Arr(enc_steps(b.steps))),
    ];
    assert(jv_get(ps, "id"@) == Some(JsonVal::Str(b.id))) by {
        reveal_with_fuel(jv_get, 7);
    }
    assert(jv_get(ps, "name"@) == Some(JsonVal::Str(b.name))) by {
        reveal_with_fuel(jv_get, 7);
    }
    assert(jv_get(ps, "trigger"@) == Some(enc_opt_str(b.trigger))) by {
        reveal_with_fuel(jv_get, 7);
    }
    assert(jv_get(ps, "startStepIndex"@) == Some(enc_u32(b.start_step_index))) by {
        reveal_with_fuel(jv_get, 7);
    }
    assert(jv_get(ps, "steps"@) == Some(JsonVal::Arr(enc_steps(b.steps)))) by {
        reveal_with_fuel(jv_get, 7);
    }
    lemma_rt_steps(b.steps);
}

proof fn lemma_rt_branches(bs: Seq<BuildOrderBranchV>)
    ensures
        dec_branches(enc_branches(bs)) == Some(bs),
    decreases bs.len(),
{
    if bs.len() == 0 {
        assert(enc_branches(bs) =~= Seq::<JsonVal>::empty());
        assert(Seq::<BuildOrderBranchV>::empty() =~= bs);
    } else {
        lemma_rt_branch(bs[0]);
        assert(enc_branches(bs)[0] == enc_branch(bs[0]));
        assert(enc_branches(bs).drop_first() =~= enc_branches(bs.drop_first()));
        lemma_rt_branches(bs.drop_first());
        assert(seq![bs[0]] + bs.drop_first() =~= bs);
    }
}

#[verifier::rlimit(100)]
proof fn lemma_rt_order(o: BuildOrderV)
    ensures
        dec_order(enc_order(o)) == Some(o),
{
    reveal_strlit("id");
    reveal_strlit("name");
    reveal_strlit("civilization");
    reveal_strlit("description");
    reveal_strlit("difficulty");
    reveal_strlit("steps");
    reveal_strlit("enabled");
    reveal_strlit("pinned");
    reveal_strlit("favorite");
    reveal_strlit("branches");
    assert("id"@.len() == 2);
    assert("name"@.len() == 4);
    assert("civilization"@.len() == 12);
    assert("description"@.len() == 11);
    assert("difficulty"@.len() == 10);
    assert("steps"@.len() == 5);
    assert("enabled"@.len() == 7);
    assert("pinned"@.len() == 6);
    assert("favorite"@.len() == 8);
    assert("branches"@.len() == 8);
    assert("favorite"@[0] == 'f');
    assert("branches"@[0] == 'b');
    let ps = seq![
        ("id"@, JsonVal::Str(o.id)),
        ("name"@, JsonVal::Str(o.name)),
        ("civilization"@, JsonVal::Str(o.civilization)),
        ("description"@, JsonVal::Str(o.description)),
        ("difficulty"@, JsonVal::Str(o.difficulty)),
        ("steps"@, JsonVal::Arr(enc_steps(o.steps))),
        ("enabled"@, JsonVal::Bool(o.enabled)),
        ("pinned"@, JsonVal::Bool(o.pinned)),
        ("favorite"@, JsonVal::Bool(o.favorite)),
        (
            "branches"@,
            match o.branches {
                Some(bs) => JsonVal::Arr(enc_branches(bs)),
                None => JsonVal::Null,
            },
        ),
    ];
    assert(jv_get(ps, "id"@) == Some(JsonVal::Str(o.id))) by {
        reveal_with_fuel(jv_get, 12);
    }
    assert(jv_get(ps, "name"@) == Some(JsonVal::Str(o.name))) by {
        reveal_with_fuel(jv_get, 12);
    }
    assert(jv_get(ps, "civilization"@) == Some(JsonVal::Str(o.civilization))) by {
        reveal_with_fuel(jv_get, 12);
    }
    assert(jv_get(ps, "description"@) == Some(JsonVal::Str(o.description))) by {
        reveal_with_fuel(jv_get, 12);
    }
    assert(jv_get(ps, "difficulty"@) == Some(JsonVal::Str(o.difficulty))) by {
        reveal_with_fuel(jv_get, 12);
    }
    assert(jv_get(ps, "steps"@) == Some(JsonVal::Arr(enc_steps(o.steps)))) by {
        reveal_with_fuel(jv_get, 12);
    }
    assert(jv_get(ps, "enabled"@) == Some(JsonVal::Bool(o.enabled))) by {
        reveal_with_fuel(jv_get, 12);
    }
    assert(jv_get(ps, "pinned"@) == Some(JsonVal::Bool(o.pinned))) by {
        reveal_with_fuel(jv_get, 12);
    }
    assert(jv_get(ps, "favorite"@) == Some(JsonVal::Bool(o.favorite))) by {
        reveal_with_fuel(jv_get, 12);
    }
    assert(jv_get(ps, "branches"@) == Some(
        match o.branches {
            Some(bs) => JsonVal::Arr(enc_branches(bs)),
            None => JsonVal::Null,
        },
    )) by {
        reveal_with_fuel(jv_get, 12);
    }
    lemma_rt_steps(o.steps);
    match o.branches {
        Some(bs) => {
            lemma_rt_branches(bs);
        },
        None => {},
    }
}

proof fn lemma_enc_step_wf(s: BuildOrderStepV)
    ensures
        enc_step(s).wf(),
{
    match s.resources {
        Some(r) => {
            lemma_enc_resources_wf(r);
        },
        None => {},
    }
    let ps = seq![
        ("id"@, JsonVal::Str(s.id)),
        ("description"@, JsonVal::Str(s.description)),
        ("timing"@, enc_opt_str(s.timing)),
        (
            "resources"@,
            match s.resources {
                Some(r) => enc_resources(r),
                None => JsonVal::Null,
            },
        ),
    ];
    assert(members_wf(ps)) by {
        reveal_with_fuel(members_wf, 6);
        assert(ps.drop_first().drop_first().drop_first().drop_first().len() == 0);
    }
}

proof fn lemma_enc_steps_wf(ss: Seq<BuildOrderStepV>)
    ensures
        elems_wf(enc_steps(ss)),
    decreases ss.len(),
{
    if ss.len() == 0 {
        assert(enc_steps(ss).len() == 0);
    } else {
        lemma_enc_step_wf(ss[0]);
        assert(enc_steps(ss)[0] == enc_step(ss[0]));
        assert(enc_steps(ss).drop_first() =~= enc_steps(ss.drop_first()));
        lemma_enc_steps_wf(ss.drop_first());
    }
}

proof fn lemma_enc_branch_wf(b: BuildOrderBranchV)
    ensures
        enc_branch(b).wf(),
{
    lemma_enc_steps_wf(b.steps);
    let ps = seq![
        ("id"@, JsonVal::Str(b.id)),
        ("name"@, JsonVal::Str(b.name)),
        ("trigger"@, enc_opt_str(b.trigger)),
        ("startStepIndex"@, enc_u32(b.start_step_index)),
        ("steps"@, JsonVal::Arr(enc_steps(b.steps))),
    ];
    assert(members_wf(ps)) by {
        reveal_with_fuel(members_wf, 7);
        assert(ps.drop_first().drop_first().drop_first().drop_first().drop_first().len() == 0);
    }
}

proof fn lemma_enc_branches_wf(bs: Seq<BuildOrderBranchV>)
    ensures
        elems_wf(enc_branches(bs)),
    decreases bs.len(),
{
    if bs.len() == 0 {
        assert(enc_branches(bs).len() == 0);
    } else {
        lemma_enc_branch_wf(bs[0]);
        assert(enc_branches(bs)[0] == enc_branch(bs[0]));
        assert(enc_branches(bs).drop_first() =~= enc_branches(bs.drop_first()));
        lemma_enc_branches_wf(bs.drop_first());
    }
}

pub proof fn lemma_enc_order_wf(o: BuildOrderV)
    ensures
        enc_order(o).wf(),
{
    lemma_enc_steps_wf(o.steps);
    match o.branches {
        Some(bs) => {
            lemma_enc_branches_wf(bs);
        },
        None => {},
    }
    let ps = seq![
        ("id"@, JsonVal::Str(o.id)),
        ("name"@, JsonVal::Str(o.name)),
        ("civilization"@, JsonVal::Str(o.civilization)),
        ("description"@, JsonVal::Str(o.description)),
        ("difficulty"@, JsonVal::Str(o.difficulty)),
        ("steps"@, JsonVal::Arr(enc_steps(o.steps))),
        ("enabled"@, JsonVal::Bool(o.enabled)),
        ("pinned"@, JsonVal::Bool(o.pinned)),
        ("favorite"@, JsonVal::Bool(o.favorite)),
        (
            "branches"@,
            match o.branches {
                Some(bs) => JsonVal::Arr(enc_branches(bs)),
                None => JsonVal::Null,
            },
        ),
    ];
    assert(members_wf(ps)) by {
        reveal_with_fuel(members_wf, 12);
        assert(ps.drop_first().drop_first().drop_first().drop_first().drop_first().drop_first().drop_first().drop_first().drop_first().drop_first().len()
            == 0);
    }
}

// ---------------------------------------------------------------------------
// Executable encoding
// ---------------------------------------------------------------------------
fn push_field(fields: &mut Vec<(String, Json)>, key: &str, val: Json)
    ensures
        pair_views(final(fields)@) == pair_views(old(fields)@).push((key@, json_view(val))),
{
    let ghost vv = val;
    let k = key.to_owned();
    fields.push((k, val));
    proof {
        lemma_pair_views_push(old(fields)@, k, vv);
    }
}

fn encode_opt_i32(v: &Option<i32>) -> (j: Json)
    ensures
        j@ == enc_opt_i32(*v),
{
    match v {
        Some(x) => Json::Num(Number::from_i32(*x)),
        None => Json::Null,
    }
}

fn encode_opt_str(v: &Option<String>) -> (j: Json)
    ensures
        j@ == enc_opt_str(opt_str_view(*v)),
{
    match v {
        Some(s) => Json::Str(s.clone()),
        None => Json::Null,
    }
}

fn encode_resources(r: &Resources) -> (j: Json)
    ensures
        j@ == enc_resources(*r),
{
    let mut fields: Vec<(String, Json)> = Vec::new();
    proof {
        assert(pair_views(fields@) =~= Seq::<(Seq<char>, JsonVal)>::empty());
    }
    push_field(&mut fields, "food", encode_opt_i32(&r.food));
    push_field(&mut fields, "wood", encode_opt_i32(&r.wood));
    push_field(&mut fields, "gold", encode_opt_i32(&r.gold));
    push_field(&mut fields, "stone", encode_opt_i32(&r.stone));
    proof {
        assert(pair_views(fields@) =~= seq![
            ("food"@, enc_opt_i32(r.food)),
            ("wood"@, enc_opt_i32(r.wood)),
            ("gold"@, enc_opt_i32(r.gold)),
            ("stone"@, enc_opt_i32(r.stone)),
        ]);
        assert(JsonVal::Obj(pair_views(fields@)) =~~= enc_resources(*r));
    }
    Json::Obj(fields)
}

fn encode_step(s: &BuildOrderStep) -> (j: Json)
    ensures
        j@ == enc_step(s@),
{
    let mut fields: Vec<(String, Json)> = Vec::new();
    proof {
        assert(pair_views(fields@) =~= Seq::<(Seq<char>, JsonVal)>::empty());
    }
    push_field(&mut fields, "id", Json::Str(s.id.clone()));
    push_field(&mut fields, "description", Json::Str(s.description.clone()));
    push_field(&mut fields, "timing", encode_opt_str(&s.timing));
    let rj = match &s.resources {
        Some(r) => encode_resources(r),
        None => Json::Null,
    };
    push_field(&mut fields, "resources", rj);
    proof {
        assert(pair_views(fields@) =~= seq![
            ("id"@, JsonVal::Str(s.id@)),
            ("description"@, JsonVal::Str(s.description@)),
            ("timing"@, enc_opt_str(opt_str_view(s.timing))),
            (
                "resources"@,
                match s@.resources {
                    Some(r) => enc_resources(r),
                    None => JsonVal::Null,
                },
            ),
        ]);
        assert(enc_step(s@) is Obj);
        assert(pair_views(fields@) =~~= enc_step(s@)->Obj_0);
        assert(JsonVal::Obj(pair_views(fields@)) == enc_step(s@));
    }
    Json::Obj(fields)
}

fn encode_steps(ss: &Vec<BuildOrderStep>) -> (r: Vec<Json>)
    ensures
        json_views(r@) == enc_steps(ss@.map_values(|s: BuildOrderStep| s@)),
{
    broadcast use crate::json::lemma_json_views_len, crate::json::lemma_json_views_index;

    let ghost target = enc_steps(ss@.map_values(|s: BuildOrderStep| s@));
    let mut items: Vec<Json> = Vec::new();
    proof {
        assert(json_views(items@) =~= Seq::<JsonVal>::empty());
        assert(json_views(items@) =~= target.take(0));
    }
    let mut i: usize = 0;
    while i < ss.len()
        invariant
            i <= ss@.len(),
            target == enc_steps(ss@.map_values(|s: BuildOrderStep| s@)),
            target.len() == ss@.len(),
            json_views(items@) == target.take(i as int),
        decreases ss@.len() - i,
    {
        let ej = encode_step(&ss[i]);
        proof {
            crate::json::lemma_json_views_push(items@, ej);
            assert(target[i as int] == enc_step(ss@[i as int]@));
            assert(target.take(i as int).push(target[i as int]) =~= target.take(i + 1 as int));
        }
        items.push(ej);
        i += 1;
    }
    proof {
        assert(target.take(ss@.len() as int) =~= target);
    }
    items
}

fn encode_branch(b: &BuildOrderBranch) -> (j: Json)
    ensures
        j@ == enc_branch(b@),
{
    let mut fields: Vec<(String, Json)> = Vec::new();
    proof {
        assert(pair_views(fields@) =~= Seq::<(Seq<char>, JsonVal)>::empty());
    }
    push_field(&mut fields, "id", Json::Str(b.id.clone()));
    push_field(&mut fields, "name", Json::Str(b.name.clone()));
    push_field(&mut fields, "trigger", encode_opt_str(&b.trigger));
    push_field(&mut fields, "startStepIndex", Json::Num(Number::from_u32(b.start_step_index)));
    push_field(&mut fields, "steps", Json::Arr(encode_steps(&b.steps)));
    proof {
        assert(pair_views(fields@) =~= seq![
            ("id"@, JsonVal::Str(b.id@)),
            ("name"@, JsonVal::Str(b.name@)),
            ("trigger"@, enc_opt_str(opt_str_view(b.trigger))),
            ("startStepIndex"@, enc_u32(b.start_step_index)),
            ("steps"@, JsonVal::Arr(enc_steps(b@.steps))),
        ]);
        assert(JsonVal::Obj(pair_views(fields@)) =~~= enc_branch(b@));
    }
    Json::Obj(fields)
}

fn encode_branches(bs: &Vec<BuildOrderBranch>) -> (r: Vec<Json>)
    ensures
        json_views(r@) == enc_branches(bs@.map_values(|b: BuildOrderBranch| b@)),
{
    broadcast use crate::json::lemma_json_views_len, crate::json::lemma_json_views_index;

    let ghost target = enc_branches(bs@.map_values(|b: BuildOrderBranch| b@));
    let mut items: Vec<Json> = Vec::new();
    proof {
        assert(json_views(items@) =~= Seq::<JsonVal>::empty());
        assert(json_views(items@) =~= target.take(0));
    }
    let mut i: usize = 0;
    while i < bs.len()
        invariant
            i <= bs@.len(),
            target == enc_branches(bs@.map_values(|b: BuildOrderBranch| b@)),
            target.len() == bs@.len(),
            json_views(items@) == target.take(i as int),
        decreases bs@.len() - i,
    {
        let ej = encode_branch(&bs[i]);
        proof {
            crate::json::lemma_json_views_push(items@, ej);
            assert(target[i as int] == enc_branch(bs@[i as int]@));
            assert(target.take(i as int).push(target[i as int]) =~= target.take(i + 1 as int));
        }
        items.push(ej);
        i += 1;
    }
    proof {
        assert(target.take(bs@.len() as int) =~= target);
    }
    items
}

fn encode_order(o: &BuildOrder) -> (j: Json)
    ensures
        j@ == enc_order(o@),
{
    let mut fields: Vec<(String, Json)> = Vec::new();
    proof {
        assert(pair_views(fields@) =~= Seq::<(Seq<char>, JsonVal)>::empty());
    }
    push_field(&mut fields, "id", Json::Str(o.id.clone()));
    push_field(&mut fields, "name", Json::Str(o.name.clone()));
    push_field(&mut fields, "civilization", Json::Str(o.civilization.clone()));
    push_field(&mut fields, "description", Json::Str(o.description.clone()));
    push_field(&mut fields, "difficulty", Json::Str(o.difficulty.clone()));
    push_field(&mut fields, "steps", Json::Arr(encode_steps(&o.steps)));
    push_field(&mut fields, "enabled", Json::Bool(o.enabled));
    push_field(&mut fields, "pinned", Json::Bool(o.pinned));
    push_field(&mut fields, "favorite", Json::Bool(o.favorite));
    let bj = match &o.branches {
        Some(bs) => Json::Arr(encode_branches(bs)),
        None => Json::Null,
    };
    push_field(&mut fields, "branches", bj);
    proof {
        assert(pair_views(fields@) =~= seq![
            ("id"@, JsonVal::Str(o.id@)),
            ("name"@, JsonVal::Str(o.name@)),
            ("civilization"@, JsonVal::Str(o.civilization@)),
            ("description"@, JsonVal::Str(o.description@)),
            ("difficulty"@, JsonVal::Str(o.difficulty@)),
            ("steps"@, JsonVal::Arr(enc_steps(o@.steps))),
            ("enabled"@, JsonVal::Bool(o.enabled)),
            ("pinned"@, JsonVal::Bool(o.pinned)),
            ("favorite"@, JsonVal::Bool(o.favorite)),
            (
                "branches"@,
                match o@.branches {
                    Some(bs) => JsonVal::Arr(enc_branches(bs)),
                    None => JsonVal::Null,
                },
            ),
        ]);
        assert(enc_order(o@) is Obj);
        assert(pair_views(fields@) =~~= enc_order(o@)->Obj_0);
        assert(JsonVal::Obj(pair_views(fields@)) == enc_order(o@));
    }
    Json::Obj(fields)
}

// ---------------------------------------------------------------------------
// Executable decoding
// ---------------------------------------------------------------------------
fn get_str(pairs: &Vec<(String, Json)>, key: &str) -> (r: Option<String>)
    ensures
        match r {
            Some(s) => dec_str_field(pair_views(pairs@), key@) == Some(s@),
            None => dec_str_field(pair_views(pairs@), key@) is None,
        },
{
    match obj_get(pairs, key) {
        Some(Json::Str(s)) => Some(s.clone()),
        _ => None,
    }
}

fn get_opt_str(pairs: &Vec<(String, Json)>, key: &str) -> (r: Option<Option<String>>)
    ensures
        match r {
            Some(os) => dec_opt_str_field(pair_views(pairs@), key@) == Some(opt_str_view(os)),
            None => dec_opt_str_field(pair_views(pairs@), key@) is None,
        },
{
    match obj_get(pairs, key) {
        None => Some(None),
        Some(Json::Null) => Some(None),
        Some(Json::Str(s)) => Some(Some(s.clone())),
        Some(_) => None,
    }
}

fn get_bool(pairs: &Vec<(String, Json)>, key: &str) -> (r: Option<bool>)
    ensures
        r == dec_bool_field(pair_views(pairs@), key@),
{
    match obj_get(pairs, key) {
        Some(Json::Bool(b)) => Some(*b),
        _ => None,
    }
}

fn get_bool_default(pairs: &Vec<(String, Json)>, key: &str) -> (r: Option<bool>)
    ensures
        r == dec_bool_default(pair_views(pairs@), key@),
{
    match obj_get(pairs, key) {
        None => Some(false),
        Some(Json::Bool(b)) => Some(*b),
        Some(_) => None,
    }
}

fn get_u32(pairs: &Vec<(String, Json)>, key: &str) -> (r: Option<u32>)
    ensures
        r == dec_u32_field(pair_views(pairs@), key@),
{
    match obj_get(pairs, key) {
        Some(Json::Num(n)) => n.as_u32(),
        _ => None,
    }
}

fn get_opt_i32(pairs: &Vec<(String, Json)>, key: &str) -> (r: Option<Option<i32>>)
    ensures
        r == dec_opt_i32_field(pair_views(pairs@), key@),
{
    match obj_get(pairs, key) {
        None => Some(None),
        Some(Json::Null) => Some(None),
        Some(Json::Num(n)) => match n.as_i32() {
            Some(v) => Some(Some(v)),
            None => None,
        },
        Some(_) => None,
    }
}

fn decode_resources(j: &Json) -> (r: Option<Resources>)
    ensures
        r == dec_resources(j@),
{
    let pairs = match j {
        Json::Obj(p) => p,
        _ => {
            return None;
        },
    };
    let food = match get_opt_i32(pairs, "food") {
        Some(v) => v,
        None => {
            return None;
        },
    };
    let wood = match get_opt_i32(pairs, "wood") {
        Some(v) => v,
        None => {
            return None;
        },
    };
    let gold = match get_opt_i32(pairs, "gold") {
        Some(v) => v,
        None => {
            return None;
        },
    };
    let stone = match get_opt_i32(pairs, "stone") {
        Some(v) => v,
        None => {
            return None;
        },
    };
    Some(Resources { food, wood, gold, stone })
}

fn decode_step(j: &Json) -> (r: Option<BuildOrderStep>)
    ensures
        match r {
            Some(s) => dec_step(j@) == Some(s@),
            None => dec_step(j@) is None,
        },
{
    let pairs = match j {
        Json::Obj(p) => p,
        _ => {
            return None;
        },
    };
    let id = match get_str(pairs, "id") {
        Some(s) => s,
        None => {
            return None;
        },
    };
    let description = match get_str(pairs, "description") {
        Some(s) => s,
        None => {
            return None;
        },
    };
    let timing = match get_opt_str(pairs, "timing") {
        Some(t) => t,
        None => {
            return None;
        },
    };
    let resources = match obj_get(pairs, "resources") {
        None => None,
        Some(Json::Null) => None,
        Some(rj) => match decode_resources(rj) {
            Some(r) => Some(r),
            None => {
                return None;
            },
        },
    };
    Some(BuildOrderStep { id, description, timing, resources })
}

fn decode_steps(es: &Vec<Json>) -> (r: Option<Vec<BuildOrderStep>>)
    ensures
        match r {
            Some(ss) => dec_steps(json_views(es@)) == Some(
                ss@.map_values(|s: BuildOrderStep| s@),
            ),
            None => dec_steps(json_views(es@)) is None,
        },
{
    broadcast use crate::json::lemma_json_views_len, crate::json::lemma_json_views_index;

    let ghost all = json_views(es@);
    let mut out: Vec<BuildOrderStep> = Vec::new();
    proof {
        assert(all.skip(0) =~= all);
        assert(out@.map_values(|s: BuildOrderStep| s@) =~= Seq::<BuildOrderStepV>::empty());
    }
    let mut i: usize = 0;
    while i < es.len()
        invariant
            i <= es@.len(),
            all == json_views(es@),
            all.len() == es@.len(),
            match dec_steps(all.skip(i as int)) {
                Some(t) => dec_steps(all) == Some(out@.map_values(|s: BuildOrderStep| s@) + t),
                None => dec_steps(all) is None,
            },
        decreases es@.len() - i,
    {
        proof {
            crate::json::lemma_json_views_len(es@);
            crate::json::lemma_json_views_index(es@, i as int);
            assert(all.skip(i as int)[0] == all[i as int]);
            assert(all[i as int] == json_view(es@[i as int]));
            assert(all.skip(i as int).drop_first() =~= all.skip(i + 1 as int));
        }
        match decode_step(&es[i]) {
            None => {
                return None;
            },
            Some(s) => {
                proof {
                    let pre = out@.map_values(|x: BuildOrderStep| x@);
                    match dec_steps(all.skip(i + 1 as int)) {
                        Some(t) => {
                            assert(out@.push(s).map_values(|x: BuildOrderStep| x@) =~= pre.push(
                                s@,
                            ));
                            assert(pre.push(s@) + t =~= pre + (seq![s@] + t));
                        },
                        None => {},
                    }
                }
                out.push(s);
                i += 1;
            },
        }
    }
    proof {
        assert(all.skip(es@.len() as int).len() == 0);
        assert(out@.map_values(|s: BuildOrderStep| s@) + Seq::<BuildOrderStepV>::empty() =~= out@
            .map_values(|s: BuildOrderStep| s@));
    }
    Some(out)
}

fn decode_branch(j: &Json) -> (r: Option<BuildOrderBranch>)
    ensures
        match r {
            Some(b) => dec_branch(j@) == Some(b@),
            None => dec_branch(j@) is None,
        },
{
    let pairs = match j {
        Json::Obj(p) => p,
        _ => {
            return None;
        },
    };
    let id = match get_str(pairs, "id") {
        Some(s) => s,
        None => {
            return None;
        },
    };
    let name = match get_str(pairs, "name") {
        Some(s) => s,
        None => {
            return None;
        },
    };
    let trigger = match get_opt_str(pairs, "trigger") {
        Some(t) => t,
        None => {
            return None;
        },
    };
    let start_step_index = match obj_get(pairs, "startStepIndex") {
        None => 0u32,
        Some(Json::Num(n)) => match n.as_u32() {
            Some(v) => v,
            None => {
                return None;
            },
        },
        Some(_) => {
            return None;
        },
    };
    let steps = match obj_get(pairs, "steps") {
        Some(Json::Arr(es)) => match decode_steps(es) {
            Some(ss) => ss,
            None => {
                return None;
            },
        },
        _ => {
            return None;
        },
    };
    Some(BuildOrderBranch { id, name, trigger, start_step_index, steps })
}

fn decode_branches(es: &Vec<Json>) -> (r: Option<Vec<BuildOrderBranch>>)
    ensures
        match r {
            Some(bs) => dec_branches(json_views(es@)) == Some(
                bs@.map_values(|b: BuildOrderBranch| b@),
            ),
            None => dec_branches(json_views(es@)) is None,
        },
{
    broadcast use crate::json::lemma_json_views_len, crate::json::lemma_json_views_index;

    let ghost all = json_views(es@);
    let mut out: Vec<BuildOrderBranch> = Vec::new();
    proof {
        assert(all.skip(0) =~= all);
        assert(out@.map_values(|b: BuildOrderBranch| b@) =~= Seq::<BuildOrderBranchV>::empty());
    }
    let mut i: usize = 0;
    while i < es.len()
        invariant
            i <= es@.len(),
            all == json_views(es@),
            all.len() == es@.len(),
            match dec_branches(all.skip(i as int)) {
                Some(t) => dec_branches(all) == Some(
                    out@.map_values(|b: BuildOrderBranch| b@) + t,
                ),
                None => dec_branches(all) is None,
            },
        decreases es@.len() - i,
    {
        proof {
            crate::json::lemma_json_views_len(es@);
            crate::json::lemma_json_views_index(es@, i as int);
            assert(all.skip(i as int)[0] == all[i as int]);
            assert(all[i as int] == json_view(es@[i as int]));
            assert(all.skip(i as int).drop_first() =~= all.skip(i + 1 as int));
        }
        match decode_branch(&es[i]) {
            None => {
                return None;
            },
            Some(b) => {
                proof {
                    let pre = out@.map_values(|x: BuildOrderBranch| x@);
                    match dec_branches(all.skip(i + 1 as int)) {
                        Some(t) => {
                            assert(out@.push(b).map_values(|x: BuildOrderBranch| x@) =~= pre.push(
                                b@,
                            ));
                            assert(pre.push(b@) + t =~= pre + (seq![b@] + t));
                        },
                        None => {},
                    }
                }
                out.push(b);
                i += 1;
            },
        }
    }
    proof {
        assert(all.skip(es@.len() as int).len() == 0);
        assert(out@.map_values(|b: BuildOrderBranch| b@) + Seq::<BuildOrderBranchV>::empty() =~= out@
            .map_values(|b: BuildOrderBranch| b@));
    }
    Some(out)
}

fn decode_order(j: &Json) -> (r: Option<BuildOrder>)
    ensures
        match r {
            Some(o) => dec_order(j@) == Some(o@),
            None => dec_order(j@) is None,
        },
{
    let pairs = match j {
        Json::Obj(p) => p,
        _ => {
            return None;
        },
    };
    let id = match get_str(pairs, "id") {
        Some(s) => s,
        None => {
            return None;
        },
    };
    let name = match get_str(pairs, "name") {
        Some(s) => s,
        None => {
            return None;
        },
    };
    let civilization = match get_str(pairs, "civilization") {
        Some(s) => s,
        None => {
            return None;
        },
    };
    let description = match get_str(pairs, "description") {
        Some(s) => s,
        None => {
            return None;
        },
    };
    let difficulty = match get_str(pairs, "difficulty") {
        Some(s) => s,
        None => {
            return None;
        },
    };
    let steps = match obj_get(pairs, "steps") {
        Some(Json::Arr(es)) => match decode_steps(es) {
            Some(ss) => ss,
            None => {
                return None;
            },
        },
        _ => {
            return None;
        },
    };
    let enabled = match get_bool(pairs, "enabled") {
        Some(b) => b,
        None => {
            return None;
        },
    };
    let pinned = match get_bool_default(pairs, "pinned") {
        Some(b) => b,
        None => {
            return None;
        },
    };
    let favorite = match get_bool_default(pairs, "favorite") {
        Some(b) => b,
        None => {
            return None;
        },
    };
    let branches = match obj_get(pairs, "branches") {
        None => None,
        Some(Json::Null) => None,
        Some(Json::Arr(bes)) => match decode_branches(bes) {
            Some(bs) => Some(bs),
            None => {
                return None;
            },
        },
        Some(_) => {
            return None;
        },
    };
    Some(
        BuildOrder {
            id,
            name,
            civilization,
            description,
            difficulty,
            steps,
            enabled,
            pinned,
            favorite,
            branches,
        },
    )
}

// ---------------------------------------------------------------------------
// Public build-order persistence format
// ---------------------------------------------------------------------------
/// The serialized form of a build order.
pub open spec fn spec_ser_build_order(o: BuildOrderV) -> Seq<char> {
    ser_json(enc_order(o))
}

/// What parsing a build-order text yields.
pub open spec fn spec_parse_build_order(s: Seq<char>) -> Option<BuildOrderV> {
    match sp_json(s) {
        None => None,
        Some(j) => dec_order(j),
    }
}

/// Serializes a build order as a JSON text.
pub fn serialize_build_order(o: &BuildOrder) -> (r: String)
    ensures
        r@ == spec_ser_build_order(o@),
{
    proof {
        lemma_enc_order_wf(o@);
    }
    let j = encode_order(o);
    crate::json::to_text(&j)
}

/// Parses a build-order JSON text.
pub fn parse_build_order(s: &str) -> (r: Option<BuildOrder>)
    ensures
        match r {
            Some(o) => spec_parse_build_order(s@) == Some(o@),
            None => spec_parse_build_order(s@) is None,
        },
{
    match crate::json::from_text(s) {
        None => None,
        Some(j) => decode_order(&j),
    }
}

/// Round trip: parsing the serialization of any build order yields the
/// build order back, field for field.
pub proof fn lemma_build_order_round_trip(o: BuildOrderV)
    ensures
        spec_parse_build_order(spec_ser_build_order(o)) == Some(o),
{
    lemma_enc_order_wf(o);
    lemma_json_round_trip(enc_order(o));
    lemma_rt_order(o);
}

// ---------------------------------------------------------------------------
// Configuration encoding
// ---------------------------------------------------------------------------
pub open spec fn enc_window_position(w: WindowPosition) -> JsonVal {
    JsonVal::Obj(
        seq![
            ("x"@, JsonVal::Num(Number { mantissa: w.x as i64, scale: 0 })),
            ("y"@, JsonVal::Num(Number { mantissa: w.y as i64, scale: 0 })),
        ],
    )
}

pub open spec fn enc_window_size(w: WindowSize) -> JsonVal {
    JsonVal::Obj(seq![("width"@, enc_u32(w.width)), ("height"@, enc_u32(w.height))])
}

pub open spec fn enc_auto_advance(a: AutoAdvanceConfig) -> JsonVal {
    JsonVal::Obj(
        seq![
            ("enabled"@, JsonVal::Bool(a.enabled)),
            ("delay_seconds"@, enc_u32(a.delay_seconds)),
        ],
    )
}

pub open spec fn enc_voice(v: VoiceConfig) -> JsonVal {
    JsonVal::Obj(
        seq![
            ("enabled"@, JsonVal::Bool(v.enabled)),
            ("rate"@, JsonVal::Num(v.rate)),
            ("speakSteps"@, JsonVal::Bool(v.speak_steps)),
            ("speakReminders"@, JsonVal::Bool(v.speak_reminders)),
            ("speakDelta"@, JsonVal::Bool(v.speak_delta)),
        ],
    )
}

pub open spec fn enc_reminder_item(r: ReminderItemConfig) -> JsonVal {
    JsonVal::Obj(
        seq![
            ("enabled"@, JsonVal::Bool(r.enabled)),
            ("intervalSeconds"@, enc_u32(r.interval_seconds)),
        ],
    )
}

pub open spec fn enc_sacred_sites(s: SacredSitesConfig) -> JsonVal {
    JsonVal::Obj(seq![("enabled"@, JsonVal::Bool(s.enabled))])
}

pub open spec fn enc_matchup_alerts(m: MatchupAlertsConfig) -> JsonVal {
    JsonVal::Obj(seq![("enabled"@, JsonVal::Bool(m.enabled))])
}

pub open spec fn enc_reminders(r: ReminderConfig) -> JsonVal {
    JsonVal::Obj(
        seq![
            ("enabled"@, JsonVal::Bool(r.enabled)),
            ("villagerQueue"@, enc_reminder_item(r.villager_queue)),
            ("scout"@, enc_reminder_item(r.scout)),
            ("houses"@, enc_reminder_item(r.houses)),
            ("military"@, enc_reminder_item(r.military)),
            ("mapControl"@, enc_reminder_item(r.map_control)),
            ("macroCheck"@, enc_reminder_item(r.macro_check)),
            ("sacredSites"@, enc_sacred_sites(r.sacred_sites)),
            ("matchupAlerts"@, enc_matchup_alerts(r.matchup_alerts)),
        ],
    )
}

pub open spec fn enc_badge(b: UpgradeBadgeConfigV) -> JsonVal {
    JsonVal::Obj(
        seq![
            ("id"@, JsonVal::Str(b.id)),
            ("name"@, JsonVal::Str(b.name)),
            ("shortName"@, JsonVal::Str(b.short_name)),
            ("triggerSeconds"@, enc_u32(b.trigger_seconds)),
            ("enabled"@, JsonVal::Bool(b.enabled)),
        ],
    )
}

pub open spec fn enc_badges_list(bs: Seq<UpgradeBadgeConfigV>) -> Seq<JsonVal> {
    bs.map_values(|b: UpgradeBadgeConfigV| enc_badge(b))
}

pub open spec fn enc_badges(b: UpgradeBadgesConfigV) -> JsonVal {
    JsonVal::Obj(
        seq![
            ("enabled"@, JsonVal::Bool(b.enabled)),
            ("badges"@, JsonVal::Arr(enc_badges_list(b.badges))),
        ],
    )
}

pub open spec fn enc_timer_drift(t: TimerDriftConfig) -> JsonVal {
    JsonVal::Obj(seq![("enabled"@, JsonVal::Bool(t.enabled))])
}

pub open spec fn enc_telemetry(t: TelemetryConfig) -> JsonVal {
    JsonVal::Obj(
        seq![
            ("enabled"@, JsonVal::Bool(t.enabled)),
            ("captureHotkeys"@, JsonVal::Bool(t.capture_hotkeys)),
            ("captureActions"@, JsonVal::Bool(t.capture_actions)),
            ("maxEvents"@, enc_u32(t.max_events)),
        ],
    )
}

pub open spec fn enc_hotkeys(h: HotkeyConfigV) -> JsonVal {
    JsonVal::Obj(
        seq![
            ("toggle_overlay"@, JsonVal::Str(h.toggle_overlay)),
            ("previous_step"@, JsonVal::Str(h.previous_step)),
            ("next_step"@, JsonVal::Str(h.next_step)),
            ("cycle_build_order"@, JsonVal::Str(h.cycle_build_order)),
            ("toggle_click_through"@, JsonVal::Str(h.toggle_click_through)),
            ("toggle_compact"@, JsonVal::Str(h.toggle_compact)),
            ("reset_build_order"@, JsonVal::Str(h.reset_build_order)),
            ("toggle_pause"@, JsonVal::Str(h.toggle_pause)),
            ("activate_branch_main"@, JsonVal::Str(h.activate_branch_main)),
            ("activate_branch_1"@, JsonVal::Str(h.activate_branch_1)),
            ("activate_branch_2"@, JsonVal::Str(h.activate_branch_2)),
            ("activate_branch_3"@, JsonVal::Str(h.activate_branch_3)),
            ("activate_branch_4"@, JsonVal::Str(h.activate_branch_4)),
            ("toggle_counters"@, JsonVal::Str(h.toggle_counters)),
        ],
    )
}

pub open spec fn enc_opt<A>(o: Option<A>, f: spec_fn(A) -> JsonVal) -> JsonVal {
    match o {
        Some(v) => f(v),
        None => JsonVal::Null,
    }
}

pub open spec fn enc_app_config(c: AppConfigV) -> JsonVal {
    JsonVal::Obj(
        seq![
            ("overlay_opacity"@, JsonVal::Num(c.overlay_opacity)),
            ("ui_scale"@, JsonVal::Num(c.ui_scale)),
            ("font_size"@, JsonVal::Str(c.font_size)),
            ("theme"@, JsonVal::Str(c.theme)),
            ("overlay_preset"@, JsonVal::Str(c.overlay_preset)),
            ("hotkeys"@, enc_hotkeys(c.hotkeys)),
            (
                "window_position"@,
                enc_opt(c.window_position, |w: WindowPosition| enc_window_position(w)),
            ),
            ("window_size"@, enc_opt(c.window_size, |w: WindowSize| enc_window_size(w))),
            ("click_through"@, JsonVal::Bool(c.click_through)),
            ("compact_mode"@, JsonVal::Bool(c.compact_mode)),
            ("coach_only_mode"@, JsonVal::Bool(c.coach_only_mode)),
            ("auto_advance"@, enc_auto_advance(c.auto_advance)),
            ("filter_civilization"@, enc_opt_str(c.filter_civilization)),
            ("filter_difficulty"@, enc_opt_str(c.filter_difficulty)),
            ("overlay_position"@, JsonVal::Str(c.overlay_position)),
            ("floating_style"@, JsonVal::Bool(c.floating_style)),
            ("voice"@, enc_opt(c.voice, |v: VoiceConfig| enc_voice(v))),
            ("reminders"@, enc_opt(c.reminders, |r: ReminderConfig| enc_reminders(r))),
            (
                "upgradeBadges"@,
                enc_opt(c.upgrade_badges, |b: UpgradeBadgesConfigV| enc_badges(b)),
            ),
            ("timerDrift"@, enc_opt(c.timer_drift, |t: TimerDriftConfig| enc_timer_drift(t))),
            ("telemetry"@, enc_opt(c.telemetry, |t: TelemetryConfig| enc_telemetry(t))),
        ],
    )
}

// ---------------------------------------------------------------------------
// Configuration decoding
// ---------------------------------------------------------------------------
/// A required decimal field.
pub open spec fn dec_num_field(ps: Seq<(Seq<char>, JsonVal)>, key: Seq<char>) -> Option<Number> {
    match jv_get(ps, key) {
        Some(JsonVal::Num(n)) => Some(n),
        _ => None,
    }
}

/// A decimal field with a default for older files.
pub open spec fn dec_num_default(ps: Seq<(Seq<char>, JsonVal)>, key: Seq<char>, d: Number) -> Option<
    Number,
> {
    match jv_get(ps, key) {
        None => Some(d),
        Some(JsonVal::Num(n)) => Some(n),
        Some(_) => None,
    }
}

/// A string field with a default for older files.
pub open spec fn dec_str_default(ps: Seq<(Seq<char>, JsonVal)>, key: Seq<char>, d: Seq<char>) -> Option<
    Seq<char>,
> {
    match jv_get(ps, key) {
        None => Some(d),
        Some(JsonVal::Str(s)) => Some(s),
        Some(_) => None,
    }
}

pub open spec fn dec_window_position(j: JsonVal) -> Option<WindowPosition> {
    match j {
        JsonVal::Obj(ps) => match jv_get(ps, "x"@) {
            Some(JsonVal::Num(nx)) => match num_as_i32s(nx) {
                None => None,
                Some(x) => match jv_get(ps, "y"@) {
                    Some(JsonVal::Num(ny)) => match num_as_i32s(ny) {
                        None => None,
                        Some(y) => Some(WindowPosition { x, y }),
                    },
                    _ => None,
                },
            },
            _ => None,
        },
        _ => None,
    }
}

pub open spec fn dec_window_size(j: JsonVal) -> Option<WindowSize> {
    match j {
        JsonVal::Obj(ps) => match dec_u32_field(ps, "width"@) {
            None => None,
            Some(width) => match dec_u32_field(ps, "height"@) {
                None => None,
                Some(height) => Some(WindowSize { width, height }),
            },
        },
        _ => None,
    }
}

pub open spec fn dec_auto_advance(j: JsonVal) -> Option<AutoAdvanceConfig> {
    match j {
        JsonVal::Obj(ps) => match dec_bool_field(ps, "enabled"@) {
            None => None,
            Some(enabled) => match dec_u32_field(ps, "delay_seconds"@) {
                None => None,
                Some(delay_seconds) => Some(AutoAdvanceConfig { enabled, delay_seconds }),
            },
        },
        _ => None,
    }
}

pub open spec fn dec_voice(j: JsonVal) -> Option<VoiceConfig> {
    match j {
        JsonVal::Obj(ps) => match dec_bool_field(ps, "enabled"@) {
            None => None,
            Some(enabled) => match dec_num_field(ps, "rate"@) {
                None => None,
                Some(rate) => match dec_bool_field(ps, "speakSteps"@) {
                    None => None,
                    Some(speak_steps) => match dec_bool_field(ps, "speakReminders"@) {
                        None => None,
                        Some(speak_reminders) => match dec_bool_field(ps, "speakDelta"@) {
                            None => None,
                            Some(speak_delta) => Some(
                                VoiceConfig {
                                    enabled,
                                    rate,
                                    speak_steps,
                                    speak_reminders,
                                    speak_delta,
                                },
                            ),
                        },
                    },
                },
            },
        },
        _ => None,
    }
}

pub open spec fn dec_reminder_item(j: JsonVal) -> Option<ReminderItemConfig> {
    match j {
        JsonVal::Obj(ps) => match dec_bool_field(ps, "enabled"@) {
            None => None,
            Some(enabled) => match dec_u32_field(ps, "intervalSeconds"@) {
                None => None,
                Some(interval_seconds) => Some(ReminderItemConfig { enabled, interval_seconds }),
            },
        },
        _ => None,
    }
}

pub open spec fn dec_sacred_sites(j: JsonVal) -> Option<SacredSitesConfig> {
    match j {
        JsonVal::Obj(ps) => match dec_bool_field(ps, "enabled"@) {
            None => None,
            Some(enabled) => Some(SacredSitesConfig { enabled }),
        },
        _ => None,
    }
}

pub open spec fn dec_matchup_alerts(j: JsonVal) -> Option<MatchupAlertsConfig> {
    match j {
        JsonVal::Obj(ps) => match dec_bool_field(ps, "enabled"@) {
            None => None,
            Some(enabled) => Some(MatchupAlertsConfig { enabled }),
        },
        _ => None,
    }
}

/// A required reminder-item sub-object.
pub open spec fn dec_item_field(ps: Seq<(Seq<char>, JsonVal)>, key: Seq<char>) -> Option<
    ReminderItemConfig,
> {
    match jv_get(ps, key) {
        Some(j) => dec_reminder_item(j),
        None => None,
    }
}

pub open spec fn dec_reminders(j: JsonVal) -> Option<ReminderConfig> {
    match j {
        JsonVal::Obj(ps) => match dec_bool_field(ps, "enabled"@) {
            None => None,
            Some(enabled) => match dec_item_field(ps, "villagerQueue"@) {
                None => None,
                Some(villager_queue) => match dec_item_field(ps, "scout"@) {
                    None => None,
                    Some(scout) => match dec_item_field(ps, "houses"@) {
                        None => None,
                        Some(houses) => match dec_item_field(ps, "military"@) {
                            None => None,
                            Some(military) => match dec_item_field(ps, "mapControl"@) {
                                None => None,
                                Some(map_control) => {
                                    let mc = match jv_get(ps, "macroCheck"@) {
                                        None => Some(
                                            ReminderItemConfig {
                                                enabled: false,
                                                interval_seconds: 20,
                                            },
                                        ),
                                        Some(mj) => dec_reminder_item(mj),
                                    };
                                    match mc {
                                        None => None,
                                        Some(macro_check) => {
                                            let ss = match jv_get(ps, "sacredSites"@) {
                                                None => Some(SacredSitesConfig { enabled: true }),
                                                Some(sj) => dec_sacred_sites(sj),
                                            };
                                            match ss {
                                                None => None,
                                                Some(sacred_sites) => {
                                                    let ma = match jv_get(ps, "matchupAlerts"@) {
                                                        None => Some(
                                                            MatchupAlertsConfig { enabled: true },
                                                        ),
                                                        Some(aj) => dec_matchup_alerts(aj),
                                                    };
                                                    match ma {
                                                        None => None,
                                                        Some(matchup_alerts) => Some(
                                                            ReminderConfig {
                                                                enabled,
                                                                villager_queue,
                                                                scout,
                                                                houses,
                                                                military,
                                                                map_control,
                                                                macro_check,
                                                                sacred_sites,
                                                                matchup_alerts,
                                                            },
                                                        ),
                                                    }
                                                },
                                            }
                                        },
                                    }
                                },
                            },
                        },
                    },
                },
            },
        },
        _ => None,
    }
}

pub open spec fn dec_badge(j: JsonVal) -> Option<UpgradeBadgeConfigV> {
    match j {
        JsonVal::Obj(ps) => match dec_str_field(ps, "id"@) {
            None => None,
            Some(id) => match dec_str_field(ps, "name"@) {
                None => None,
                Some(name) => match dec_str_field(ps, "shortName"@) {
                    None => None,
                    Some(short_name) => match dec_u32_field(ps, "triggerSeconds"@) {
                        None => None,
                        Some(trigger_seconds) => match dec_bool_field(ps, "enabled"@) {
                            None => None,
                            Some(enabled) => Some(
                                UpgradeBadgeConfigV {
                                    id,
                                    name,
                                    short_name,
                                    trigger_seconds,
                                    enabled,
                                },
                            ),
                        },
                    },
                },
            },
        },
        _ => None,
    }
}

pub open spec fn dec_badges_list(es: Seq<JsonVal>) -> Option<Seq<UpgradeBadgeConfigV>>
    decreases es.len(),
{
    if es.len() == 0 {
        Some(Seq::empty())
    } else {
        match dec_badge(es[0]) {
            None => None,
            Some(b) => match dec_badges_list(es.drop_first()) {
                None => None,
                Some(t) => Some(seq![b] + t),
            },
        }
    }
}

pub open spec fn dec_badges(j: JsonVal) -> Option<UpgradeBadgesConfigV> {
    match j {
        JsonVal::Obj(ps) => match dec_bool_field(ps, "enabled"@) {
            None => None,
            Some(enabled) => match jv_get(ps, "badges"@) {
                Some(JsonVal::Arr(es)) => match dec_badges_list(es) {
                    None => None,
                    Some(badges) => Some(UpgradeBadgesConfigV { enabled, badges }),
                },
                _ => None,
            },
        },
        _ => None,
    }
}

pub open spec fn dec_timer_drift(j: JsonVal) -> Option<TimerDriftConfig> {
    match j {
        JsonVal::Obj(ps) => match dec_bool_field(ps, "enabled"@) {
            None => None,
            Some(enabled) => Some(TimerDriftConfig { enabled }),
        },
        _ => None,
    }
}

pub open spec fn dec_telemetry(j: JsonVal) -> Option<TelemetryConfig> {
    match j {
        JsonVal::Obj(ps) => match dec_bool_field(ps, "enabled"@) {
            None => None,
            Some(enabled) => match dec_bool_field(ps, "captureHotkeys"@) {
                None => None,
                Some(capture_hotkeys) => match dec_bool_field(ps, "captureActions"@) {
                    None => None,
                    Some(capture_actions) => match dec_u32_field(ps, "maxEvents"@) {
                        None => None,
                        Some(max_events) => Some(
                            TelemetryConfig {
                                enabled,
                                capture_hotkeys,
                                capture_actions,
                                max_events,
                            },
                        ),
                    },
                },
            },
        },
        _ => None,
    }
}

pub open spec fn dec_hotkeys(j: JsonVal) -> Option<HotkeyConfigV> {
    match j {
        JsonVal::Obj(ps) => match dec_str_field(ps, "toggle_overlay"@) {
            None => None,
            Some(toggle_overlay) => match dec_str_field(ps, "previous_step"@) {
                None => None,
                Some(previous_step) => match dec_str_field(ps, "next_step"@) {
                    None => None,
                    Some(next_step) => match dec_str_field(ps, "cycle_build_order"@) {
                        None => None,
                        Some(cycle_build_order) => match dec_str_field(
                            ps,
                            "toggle_click_through"@,
                        ) {
                            None => None,
                            Some(toggle_click_through) => match dec_str_field(
                                ps,
                                "toggle_compact"@,
                            ) {
                                None => None,
                                Some(toggle_compact) => match dec_str_field(
                                    ps,
                                    "reset_build_order"@,
                                ) {
                                    None => None,
                                    Some(reset_build_order) => match dec_str_default(
                                        ps,
                                        "toggle_pause"@,
                                        "F8"@,
                                    ) {
                                        None => None,
                                        Some(toggle_pause) => match dec_str_default(
                                            ps,
                                            "activate_branch_main"@,
                                            "Alt+0"@,
                                        ) {
                                            None => None,
                                            Some(activate_branch_main) => match dec_str_default(
                                                ps,
                                                "activate_branch_1"@,
                                                "Alt+1"@,
                                            ) {
                                                None => None,
                                                Some(activate_branch_1) => match dec_str_default(
                                                    ps,
                                                    "activate_branch_2"@,
                                                    "Alt+2"@,
                                                ) {
                                                    None => None,
                                                    Some(activate_branch_2) => match dec_str_default(
                                                        ps,
                                                        "activate_branch_3"@,
                                                        "Alt+3"@,
                                                    ) {
                                                        None => None,
                                                        Some(activate_branch_3) => match dec_str_default(
                                                            ps,
                                                            "activate_branch_4"@,
                                                            "Alt+4"@,
                                                        ) {
                                                            None => None,
                                                            Some(activate_branch_4) => match dec_str_default(
                                                                ps,
                                                                "toggle_counters"@,
                                                                "TAB"@,
                                                            ) {
                                                                None => None,
                                                                Some(toggle_counters) => Some(
                                                                    HotkeyConfigV {
                                                                        toggle_overlay,
                                                                        previous_step,
                                                                        next_step,
                                                                        cycle_build_order,
                                                                        toggle_click_through,
                                                                        toggle_compact,
                                                                        reset_build_order,
                                                                        toggle_pause,
                                                                        activate_branch_main,
                                                                        activate_branch_1,
                                                                        activate_branch_2,
                                                                        activate_branch_3,
                                                                        activate_branch_4,
                                                                        toggle_counters,
                                                                    },
                                                                ),
                                                            },
                                                        },
                                                    },
                                                },
                                            },
                                        },
                                    },
                                },
                            },
                        },
                    },
                },
            },
        },
        _ => None,
    }
}

/// An optional sub-object: missing or null reads as absent.
pub open spec fn dec_opt_sub<A>(
    ps: Seq<(Seq<char>, JsonVal)>,
    key: Seq<char>,
    f: spec_fn(JsonVal) -> Option<A>,
) -> Option<Option<A>> {
    match jv_get(ps, key) {
        None => Some(None),
        Some(JsonVal::Null) => Some(None),
        Some(j) => match f(j) {
            None => None,
            Some(v) => Some(Some(v)),
        },
    }
}

pub open spec fn dec_app_config(j: JsonVal) -> Option<AppConfigV> {
    match j {
        JsonVal::Obj(ps) => match dec_num_field(ps, "overlay_opacity"@) {
            None => None,
            Some(overlay_opacity) => match dec_num_default(
                ps,
                "ui_scale"@,
                Number { mantissa: 10, scale: 1 },
            ) {
                None => None,
                Some(ui_scale) => match dec_str_field(ps, "font_size"@) {
                    None => None,
                    Some(font_size) => match dec_str_field(ps, "theme"@) {
                        None => None,
                        Some(theme) => match dec_str_default(
                            ps,
                            "overlay_preset"@,
                            "info_dense"@,
                        ) {
                            None => None,
                            Some(overlay_preset) => match jv_get(ps, "hotkeys"@) {
                                None => None,
                                Some(hj) => match dec_hotkeys(hj) {
                                    None => None,
                                    Some(hotkeys) => match dec_opt_sub(
                                        ps,
                                        "window_position"@,
                                        |x: JsonVal| dec_window_position(x),
                                    ) {
                                        None => None,
                                        Some(window_position) => match dec_opt_sub(
                                            ps,
                                            "window_size"@,
                                            |x: JsonVal| dec_window_size(x),
                                        ) {
                                            None => None,
                                            Some(window_size) => match dec_bool_field(
                                                ps,
                                                "click_through"@,
                                            ) {
                                                None => None,
                                                Some(click_through) => match dec_bool_field(
                                                    ps,
                                                    "compact_mode"@,
                                                ) {
                                                    None => None,
                                                    Some(compact_mode) => match dec_bool_default(
                                                        ps,
                                                        "coach_only_mode"@,
                                                    ) {
                                                        None => None,
                                                        Some(coach_only_mode) => match jv_get(
                                                            ps,
                                                            "auto_advance"@,
                                                        ) {
                                                            None => None,
                                                            Some(aj) => match dec_auto_advance(
                                                                aj,
                                                            ) {
                                                                None => None,
                                                                Some(auto_advance) => match dec_opt_str_field(
                                                                    ps,
                                                                    "filter_civilization"@,
                                                                ) {
                                                                    None => None,
                                                                    Some(filter_civilization) => match dec_opt_str_field(
                                                                        ps,
                                                                        "filter_difficulty"@,
                                                                    ) {
                                                                        None => None,
                                                                        Some(filter_difficulty) => match dec_str_default(
                                                                            ps,
                                                                            "overlay_position"@,
                                                                            ""@,
                                                                        ) {
                                                                            None => None,
                                                                            Some(
                                                                                overlay_position,
                                                                            ) => match dec_bool_default(
                                                                                ps,
                                                                                "floating_style"@,
                                                                            ) {
                                                                                None => None,
                                                                                Some(
                                                                                    floating_style,
                                                                                ) => match dec_opt_sub(
                                                                                    ps,
                                                                                    "voice"@,
                                                                                    |x: JsonVal|
                                                                                        dec_voice(
                                                                                            x,
                                                                                        ),
                                                                                ) {
                                                                                    None => None,
                                                                                    Some(voice) => match dec_opt_sub(
                                                                                        ps,
                                                                                        "reminders"@,
                                                                                        |
                                                                                            x:
                                                                                                JsonVal,
                                                                                        |
                                                                                            dec_reminders(
                                                                                                x,
                                                                                            ),
                                                                                    ) {
                                                                                        None
                                                                                            => None,
                                                                                        Some(
                                                                                            reminders,
                                                                                        ) => match dec_opt_sub(
                                                                                            ps,
                                                                                            "upgradeBadges"@,
                                                                                            |
                                                                                                x:
                                                                                                    JsonVal,
                                                                                            |
                                                                                                dec_badges(
                                                                                                    x,
                                                                                                ),
                                                                                        ) {
                                                                                            None
                                                                                                => None,
                                                                                            Some(
                                                                                                upgrade_badges,
                                                                                            ) => match dec_opt_sub(
                                                                                                ps,
                                                                                                "timerDrift"@,
                                                                                                |
                                                                                                    x:
                                                                                                        JsonVal,
                                                                                                |
                                                                                                    dec_timer_drift(
                                                                                                        x,
                                                                                                    ),
                                                                                            ) {
                                                                                                None
                                                                                                    => None,
                                                                                                Some(
                                                                                                    timer_drift,
                                                                                                ) => match dec_opt_sub(
                                                                                                    ps,
                                                                                                    "telemetry"@,
                                                                                                    |
                                                                                                        x:
                                                                                                            JsonVal,
                                                                                                    |
                                                                                                        dec_telemetry(
                                                                                                            x,
                                                                                                        ),
                                                                                                ) {
                                                                                                    None
                                                                                                        => None,
                                                                                                    Some(
                                                                                                        telemetry,
                                                                                                    ) => Some(
                                                                                                        AppConfigV {
                                                                                                            overlay_opacity,
                                                                                                            ui_scale,
                                                                                                            font_size,
                                                                                                            theme,
                                                                                                            overlay_preset,
                                                                                                            hotkeys,
                                                                                                            window_position,
                                                                                                            window_size,
                                                                                                            click_through,
                                                                                                            compact_mode,
                                                                                                            coach_only_mode,
                                                                                                            auto_advance,
                                                                                                            filter_civilization,
                                                                                                            filter_difficulty,
                                                                                                            overlay_position,
                                                                                                            floating_style,
                                                                                                            voice,
                                                                                                            reminders,
                                                                                                            upgrade_badges,
                                                                                                            timer_drift,
                                                                                                            telemetry,
                                                                                                        },
                                                                                                    ),
                                                                                                },
                                                                                            },
                                                                                        },
                                                                                    },
                                                                                },
                                                                            },
                                                                        },
                                                                    },
                                                                },
                                                            },
                                                        },
                                                    },
                                                },
                                            },
                                        },
                                    },
                                },
                            },
                        },
                    },
                },
            },
        },
        _ => None,
    }
}

// ---------------------------------------------------------------------------
// Configuration encoding and decoding (executable)
// ---------------------------------------------------------------------------
fn encode_window_position(w: &WindowPosition) -> (j: Json)
    ensures
        j@ == enc_window_position(*w),
{
    let mut fields: Vec<(String, Json)> = Vec::new();
    proof {
        assert(pair_views(fields@) =~= Seq::<(Seq<char>, JsonVal)>::empty());
    }
    push_field(&mut fields, "x", Json::Num(Number::from_i32(w.x)));
    push_field(&mut fields, "y", Json::Num(Number::from_i32(w.y)));
    proof {
        assert(enc_window_position(*w) is Obj);
        assert(pair_views(fields@) =~~= enc_window_position(*w)->Obj_0);
        assert(JsonVal::Obj(pair_views(fields@)) == enc_window_position(*w));
    }
    Json::Obj(fields)
}

fn encode_window_size(w: &WindowSize) -> (j: Json)
    ensures
        j@ == enc_window_size(*w),
{
    let mut fields: Vec<(String, Json)> = Vec::new();
    proof {
        assert(pair_views(fields@) =~= Seq::<(Seq<char>, JsonVal)>::empty());
    }
    push_field(&mut fields, "width", Json::Num(Number::from_u32(w.width)));
    push_field(&mut fields, "height", Json::Num(Number::from_u32(w.height)));
    proof {
        assert(enc_window_size(*w) is Obj);
        assert(pair_views(fields@) =~~= enc_window_size(*w)->Obj_0);
        assert(JsonVal::Obj(pair_views(fields@)) == enc_window_size(*w));
    }
    Json::Obj(fields)
}

fn encode_auto_advance(a: &AutoAdvanceConfig) -> (j: Json)
    ensures
        j@ == enc_auto_advance(*a),
{
    let mut fields: Vec<(String, Json)> = Vec::new();
    proof {
        assert(pair_views(fields@) =~= Seq::<(Seq<char>, JsonVal)>::empty());
    }
    push_field(&mut fields, "enabled", Json::Bool(a.enabled));
    push_field(&mut fields, "delay_seconds", Json::Num(Number::from_u32(a.delay_seconds)));
    proof {
        assert(enc_auto_advance(*a) is Obj);
        assert(pair_views(fields@) =~~= enc_auto_advance(*a)->Obj_0);
        assert(JsonVal::Obj(pair_views(fields@)) == enc_auto_advance(*a));
    }
    Json::Obj(fields)
}

fn encode_voice(v: &VoiceConfig) -> (j: Json)
    ensures
        j@ == enc_voice(*v),
{
    let mut fields: Vec<(String, Json)> = Vec::new();
    proof {
        assert(pair_views(fields@) =~= Seq::<(Seq<char>, JsonVal)>::empty());
    }
    push_field(&mut fields, "enabled", Json::Bool(v.enabled));
    push_field(&mut fields, "rate", Json::Num(v.rate));
    push_field(&mut fields, "speakSteps", Json::Bool(v.speak_steps));
    push_field(&mut fields, "speakReminders", Json::Bool(v.speak_reminders));
    push_field(&mut fields, "speakDelta", Json::Bool(v.speak_delta));
    proof {
        assert(enc_voice(*v) is Obj);
        assert(pair_views(fields@) =~~= enc_voice(*v)->Obj_0);
        assert(JsonVal::Obj(pair_views(fields@)) == enc_voice(*v));
    }
    Json::Obj(fields)
}

fn encode_reminder_item(r: &ReminderItemConfig) -> (j: Json)
    ensures
        j@ == enc_reminder_item(*r),
{
    let mut fields: Vec<(String, Json)> = Vec::new();
    proof {
        assert(pair_views(fields@) =~= Seq::<(Seq<char>, JsonVal)>::empty());
    }
    push_field(&mut fields, "enabled", Json::Bool(r.enabled));
    push_field(&mut fields, "intervalSeconds", Json::Num(Number::from_u32(r.interval_seconds)));
    proof {
        assert(enc_reminder_item(*r) is Obj);
        assert(pair_views(fields@) =~~= enc_reminder_item(*r)->Obj_0);
        assert(JsonVal::Obj(pair_views(fields@)) == enc_reminder_item(*r));
    }
    Json::Obj(fields)
}

fn encode_sacred_sites(s: &SacredSitesConfig) -> (j: Json)
    ensures
        j@ == enc_sacred_sites(*s),
{
    let mut fields: Vec<(String, Json)> = Vec::new();
    proof {
        assert(pair_views(fields@) =~= Seq::<(Seq<char>, JsonVal)>::empty());
    }
    push_field(&mut fields, "enabled", Json::Bool(s.enabled));
    proof {
        assert(enc_sacred_sites(*s) is Obj);
        assert(pair_views(fields@) =~~= enc_sacred_sites(*s)->Obj_0);
        assert(JsonVal::Obj(pair_views(fields@)) == enc_sacred_sites(*s));
    }
    Json::Obj(fields)
}

fn encode_matchup_alerts(m: &MatchupAlertsConfig) -> (j: Json)
    ensures
        j@ == enc_matchup_alerts(*m),
{
    let mut fields: Vec<(String, Json)> = Vec::new();
    proof {
        assert(pair_views(fields@) =~= Seq::<(Seq<char>, JsonVal)>::empty());
    }
    push_field(&mut fields, "enabled", Json::Bool(m.enabled));
    proof {
        assert(enc_matchup_alerts(*m) is Obj);
        assert(pair_views(fields@) =~~= enc_matchup_alerts(*m)->Obj_0);
        assert(JsonVal::Obj(pair_views(fields@)) == enc_matchup_alerts(*m));
    }
    Json::Obj(fields)
}

fn encode_reminders(r: &ReminderConfig) -> (j: Json)
    ensures
        j@ == enc_reminders(*r),
{
    let mut fields: Vec<(String, Json)> = Vec::new();
    proof {
        assert(pair_views(fields@) =~= Seq::<(Seq<char>, JsonVal)>::empty());
    }
    push_field(&mut fields, "enabled", Json::Bool(r.enabled));
    push_field(&mut fields, "villagerQueue", encode_reminder_item(&r.villager_queue));
    push_field(&mut fields, "scout", encode_reminder_item(&r.scout));
    push_field(&mut fields, "houses", encode_reminder_item(&r.houses));
    push_field(&mut fields, "military", encode_reminder_item(&r.military));
    push_field(&mut fields, "mapControl", encode_reminder_item(&r.map_control));
    push_field(&mut fields, "macroCheck", encode_reminder_item(&r.macro_check));
    push_field(&mut fields, "sacredSites", encode_sacred_sites(&r.sacred_sites));
    push_field(&mut fields, "matchupAlerts", encode_matchup_alerts(&r.matchup_alerts));
    proof {
        assert(enc_reminders(*r) is Obj);
        assert(pair_views(fields@) =~~= enc_reminders(*r)->Obj_0);
        assert(JsonVal::Obj(pair_views(fields@)) == enc_reminders(*r));
    }
    Json::Obj(fields)
}

fn encode_badge(b: &UpgradeBadgeConfig) -> (j: Json)
    ensures
        j@ == enc_badge(b@),
{
    let mut fields: Vec<(String, Json)> = Vec::new();
    proof {
        assert(pair_views(fields@) =~= Seq::<(Seq<char>, JsonVal)>::empty());
    }
    push_field(&mut fields, "id", Json::Str(b.id.clone()));
    push_field(&mut fields, "name", Json::Str(b.name.clone()));
    push_field(&mut fields, "shortName", Json::Str(b.short_name.clone()));
    push_field(&mut fields, "triggerSeconds", Json::Num(Number::from_u32(b.trigger_seconds)));
    push_field(&mut fields, "enabled", Json::Bool(b.enabled));
    proof {
        assert(enc_badge(b@) is Obj);
        assert(pair_views(fields@) =~~= enc_badge(b@)->Obj_0);
        assert(JsonVal::Obj(pair_views(fields@)) == enc_badge(b@));
    }
    Json::Obj(fields)
}

fn encode_badges(b: &UpgradeBadgesConfig) -> (j: Json)
    ensures
        j@ == enc_badges(b@),
{
    broadcast use crate::json::lemma_json_views_len, crate::json::lemma_json_views_index;

    let ghost target = enc_badges_list(b.badges@.map_values(|x: UpgradeBadgeConfig| x@));
    let mut items: Vec<Json> = Vec::new();
    proof {
        assert(json_views(items@) =~= Seq::<JsonVal>::empty());
        assert(json_views(items@) =~= target.take(0));
    }
    let mut i: usize = 0;
    while i < b.badges.len()
        invariant
            i <= b.badges@.len(),
            target == enc_badges_list(b.badges@.map_values(|x: UpgradeBadgeConfig| x@)),
            target.len() == b.badges@.len(),
            json_views(items@) == target.take(i as int),
        decreases b.badges@.len() - i,
    {
        let ej = encode_badge(&b.badges[i]);
        proof {
            crate::json::lemma_json_views_push(items@, ej);
            assert(target[i as int] == enc_badge(b.badges@[i as int]@));
            assert(target.take(i as int).push(target[i as int]) =~= target.take(i + 1 as int));
        }
        items.push(ej);
        i += 1;
    }
    proof {
        assert(target.take(b.badges@.len() as int) =~= target);
    }
    let mut fields: Vec<(String, Json)> = Vec::new();
    proof {
        assert(pair_views(fields@) =~= Seq::<(Seq<char>, JsonVal)>::empty());
    }
    push_field(&mut fields, "enabled", Json::Bool(b.enabled));
    push_field(&mut fields, "badges", Json::Arr(items));
    proof {
        assert(enc_badges(b@) is Obj);
        assert(pair_views(fields@) =~~= enc_badges(b@)->Obj_0);
        assert(JsonVal::Obj(pair_views(fields@)) == enc_badges(b@));
    }
    Json::Obj(fields)
}

fn encode_timer_drift(t: &TimerDriftConfig) -> (j: Json)
    ensures
        j@ == enc_timer_drift(*t),
{
    let mut fields: Vec<(String, Json)> = Vec::new();
    proof {
        assert(pair_views(fields@) =~= Seq::<(Seq<char>, JsonVal)>::empty());
    }
    push_field(&mut fields, "enabled", Json::Bool(t.enabled));
    proof {
        assert(enc_timer_drift(*t) is Obj);
        assert(pair_views(fields@) =~~= enc_timer_drift(*t)->Obj_0);
        assert(JsonVal::Obj(pair_views(fields@)) == enc_timer_drift(*t));
    }
    Json::Obj(fields)
}

fn encode_telemetry(t: &TelemetryConfig) -> (j: Json)
    ensures
        j@ == enc_telemetry(*t),
{
    let mut fields: Vec<(String, Json)> = Vec::new();
    proof {
        assert(pair_views(fields@) =~= Seq::<(Seq<char>, JsonVal)>::empty());
    }
    push_field(&mut fields, "enabled", Json::Bool(t.enabled));
    push_field(&mut fields, "captureHotkeys", Json::Bool(t.capture_hotkeys));
    push_field(&mut fields, "captureActions", Json::Bool(t.capture_actions));
    push_field(&mut fields, "maxEvents", Json::Num(Number::from_u32(t.max_events)));
    proof {
        assert(enc_telemetry(*t) is Obj);
        assert(pair_views(fields@) =~~= enc_telemetry(*t)->Obj_0);
        assert(JsonVal::Obj(pair_views(fields@)) == enc_telemetry(*t));
    }
    Json::Obj(fields)
}

fn encode_hotkeys(h: &HotkeyConfig) -> (j: Json)
    ensures
        j@ == enc_hotkeys(h@),
{
    let mut fields: Vec<(String, Json)> = Vec::new();
    proof {
        assert(pair_views(fields@) =~= Seq::<(Seq<char>, JsonVal)>::empty());
    }
    push_field(&mut fields, "toggle_overlay", Json::Str(h.toggle_overlay.clone()));
    push_field(&mut fields, "previous_step", Json::Str(h.previous_step.clone()));
    push_field(&mut fields, "next_step", Json::Str(h.next_step.clone()));
    push_field(&mut fields, "cycle_build_order", Json::Str(h.cycle_build_order.clone()));
    push_field(&mut fields, "toggle_click_through", Json::Str(h.toggle_click_through.clone()));
    push_field(&mut fields, "toggle_compact", Json::Str(h.toggle_compact.clone()));
    push_field(&mut fields, "reset_build_order", Json::Str(h.reset_build_order.clone()));
    push_field(&mut fields, "toggle_pause", Json::Str(h.toggle_pause.clone()));
    push_field(&mut fields, "activate_branch_main", Json::Str(h.activate_branch_main.clone()));
    push_field(&mut fields, "activate_branch_1", Json::Str(h.activate_branch_1.clone()));
    push_field(&mut fields, "activate_branch_2", Json::Str(h.activate_branch_2.clone()));
    push_field(&mut fields, "activate_branch_3", Json::Str(h.activate_branch_3.clone()));
    push_field(&mut fields, "activate_branch_4", Json::Str(h.activate_branch_4.clone()));
    push_field(&mut fields, "toggle_counters", Json::Str(h.toggle_counters.clone()));
    proof {
        assert(enc_hotkeys(h@) is Obj);
        assert(pair_views(fields@) =~~= enc_hotkeys(h@)->Obj_0);
        assert(JsonVal::Obj(pair_views(fields@)) == enc_hotkeys(h@));
    }
    Json::Obj(fields)
}

#[verifier::rlimit(100)]
fn encode_app_config(c: &AppConfig) -> (j: Json)
    ensures
        j@ == enc_app_config(c@),
{
    let wp = match &c.window_position {
        Some(w) => encode_window_position(w),
        None => Json::Null,
    };
    let ws = match &c.window_size {
        Some(w) => encode_window_size(w),
        None => Json::Null,
    };
    let vj = match &c.voice {
        Some(v) => encode_voice(v),
        None => Json::Null,
    };
    let rj = match &c.reminders {
        Some(r) => encode_reminders(r),
        None => Json::Null,
    };
    let bj = match &c.upgrade_badges {
        Some(b) => encode_badges(b),
        None => Json::Null,
    };
    let tj = match &c.timer_drift {
        Some(t) => encode_timer_drift(t),
        None => Json::Null,
    };
    let mj = match &c.telemetry {
        Some(t) => encode_telemetry(t),
        None => Json::Null,
    };
    let fields: Vec<(String, Json)> = vec![
        ("overlay_opacity".to_owned(), Json::Num(c.overlay_opacity)),
        ("ui_scale".to_owned(), Json::Num(c.ui_scale)),
        ("font_size".to_owned(), Json::Str(c.font_size.clone())),
        ("theme".to_owned(), Json::Str(c.theme.clone())),
        ("overlay_preset".to_owned(), Json::Str(c.overlay_preset.clone())),
        ("hotkeys".to_owned(), encode_hotkeys(&c.hotkeys)),
        ("window_position".to_owned(), wp),
        ("window_size".to_owned(), ws),
        ("click_through".to_owned(), Json::Bool(c.click_through)),
        ("compact_mode".to_owned(), Json::Bool(c.compact_mode)),
        ("coach_only_mode".to_owned(), Json::Bool(c.coach_only_mode)),
        ("auto_advance".to_owned(), encode_auto_advance(&c.auto_advance)),
        ("filter_civilization".to_owned(), encode_opt_str(&c.filter_civilization)),
        ("filter_difficulty".to_owned(), encode_opt_str(&c.filter_difficulty)),
        ("overlay_position".to_owned(), Json::Str(c.overlay_position.clone())),
        ("floating_style".to_owned(), Json::Bool(c.floating_style)),
        ("voice".to_owned(), vj),
        ("reminders".to_owned(), rj),
        ("upgradeBadges".to_owned(), bj),
        ("timerDrift".to_owned(), tj),
        ("telemetry".to_owned(), mj),
    ];
    proof {
        let target = enc_app_config(c@)->Obj_0;
        assert(enc_app_config(c@) is Obj);
        assert(fields@.len() == 21);
        assert(pair_views(fields@).len() == 21);
        assert(pair_views(fields@)[0] == target[0]);
        assert(pair_views(fields@)[1] == target[1]);
        assert(pair_views(fields@)[2] == target[2]);
        assert(pair_views(fields@)[3] == target[3]);
        assert(pair_views(fields@)[4] == target[4]);
        assert(pair_views(fields@)[5] == target[5]);
        assert(pair_views(fields@)[6] == target[6]);
        assert(pair_views(fields@)[7] == target[7]);
        assert(pair_views(fields@)[8] == target[8]);
        assert(pair_views(fields@)[9] == target[9]);
        assert(pair_views(fields@)[10] == target[10]);
        assert(pair_views(fields@)[11] == target[11]);
        assert(pair_views(fields@)[12] == target[12]);
        assert(pair_views(fields@)[13] == target[13]);
        assert(pair_views(fields@)[14] == target[14]);
        assert(pair_views(fields@)[15] == target[15]);
        assert(pair_views(fields@)[16] == target[16]);
        assert(pair_views(fields@)[17] == target[17]);
        assert(pair_views(fields@)[18] == target[18]);
        assert(pair_views(fields@)[19] == target[19]);
        assert(pair_views(fields@)[20] == target[20]);
        assert(pair_views(fields@) =~= target);
        assert(JsonVal::Obj(pair_views(fields@)) == enc_app_config(c@));
    }
    Json::Obj(fields)
}

fn get_num(pairs: &Vec<(String, Json)>, key: &str) -> (r: Option<Number>)
    ensures
        r == dec_num_field(pair_views(pairs@), key@),
{
    match obj_get(pairs, key) {
        Some(Json::Num(n)) => Some(*n),
        _ => None,
    }
}

fn get_num_default(pairs: &Vec<(String, Json)>, key: &str, d: Number) -> (r: Option<Number>)
    ensures
        r == dec_num_default(pair_views(pairs@), key@, d),
{
    match obj_get(pairs, key) {
        None => Some(d),
        Some(Json::Num(n)) => Some(*n),
        Some(_) => None,
    }
}

fn get_str_default(pairs: &Vec<(String, Json)>, key: &str, d: &str) -> (r: Option<String>)
    ensures
        match r {
            Some(s) => dec_str_default(pair_views(pairs@), key@, d@) == Some(s@),
            None => dec_str_default(pair_views(pairs@), key@, d@) is None,
        },
{
    match obj_get(pairs, key) {
        None => Some(d.to_owned()),
        Some(Json::Str(s)) => Some(s.clone()),
        Some(_) => None,
    }
}

fn decode_window_position(j: &Json) -> (r: Option<WindowPosition>)
    ensures
        r == dec_window_position(j@),
{
    let pairs = match j {
        Json::Obj(p) => p,
        _ => {
            return None;
        },
    };
    let x = match obj_get(pairs, "x") {
        Some(Json::Num(n)) => match n.as_i32() {
            Some(v) => v,
            None => {
                return None;
            },
        },
        _ => {
            return None;
        },
    };
    let y = match obj_get(pairs, "y") {
        Some(Json::Num(n)) => match n.as_i32() {
            Some(v) => v,
            None => {
                return None;
            },
        },
        _ => {
            return None;
        },
    };
    Some(WindowPosition { x, y })
}

fn decode_window_size(j: &Json) -> (r: Option<WindowSize>)
    ensures
        r == dec_window_size(j@),
{
    let pairs = match j {
        Json::Obj(p) => p,
        _ => {
            return None;
        },
    };
    let width = match get_u32(pairs, "width") {
        Some(v) => v,
        None => {
            return None;
        },
    };
    let height = match get_u32(pairs, "height") {
        Some(v) => v,
        None => {
            return None;
        },
    };
    Some(WindowSize { width, height })
}

fn decode_auto_advance(j: &Json) -> (r: Option<AutoAdvanceConfig>)
    ensures
        r == dec_auto_advance(j@),
{
    let pairs = match j {
        Json::Obj(p) => p,
        _ => {
            return None;
        },
    };
    let enabled = match get_bool(pairs, "enabled") {
        Some(v) => v,
        None => {
            return None;
        },
    };
    let delay_seconds = match get_u32(pairs, "delay_seconds") {
        Some(v) => v,
        None => {
            return None;
        },
    };
    Some(AutoAdvanceConfig { enabled, delay_seconds })
}

fn decode_voice(j: &Json) -> (r: Option<VoiceConfig>)
    ensures
        r == dec_voice(j@),
{
    let pairs = match j {
        Json::Obj(p) => p,
        _ => {
            return None;
        },
    };
    let enabled = match get_bool(pairs, "enabled") {
        Some(v) => v,
        None => {
            return None;
        },
    };
    let rate = match get_num(pairs, "rate") {
        Some(v) => v,
        None => {
            return None;
        },
    };
    let speak_steps = match get_bool(pairs, "speakSteps") {
        Some(v) => v,
        None => {
            return None;
        },
    };
    let speak_reminders = match get_bool(pairs, "speakReminders") {
        Some(v) => v,
        None => {
            return None;
        },
    };
    let speak_delta = match get_bool(pairs, "speakDelta") {
        Some(v) => v,
        None => {
            return None;
        },
    };
    Some(VoiceConfig { enabled, rate, speak_steps, speak_reminders, speak_delta })
}

fn decode_reminder_item(j: &Json) -> (r: Option<ReminderItemConfig>)
    ensures
        r == dec_reminder_item(j@),
{
    let pairs = match j {
        Json::Obj(p) => p,
        _ => {
            return None;
        },
    };
    let enabled = match get_bool(pairs, "enabled") {
        Some(v) => v,
        None => {
            return None;
        },
    };
    let interval_seconds = match get_u32(pairs, "intervalSeconds") {
        Some(v) => v,
        None => {
            return None;
        },
    };
    Some(ReminderItemConfig { enabled, interval_seconds })
}

fn decode_sacred_sites(j: &Json) -> (r: Option<SacredSitesConfig>)
    ensures
        r == dec_sacred_sites(j@),
{
    let pairs = match j {
        Json::Obj(p) => p,
        _ => {
            return None;
        },
    };
    match get_bool(pairs, "enabled") {
        Some(enabled) => Some(SacredSitesConfig { enabled }),
        None => None,
    }
}

fn decode_matchup_alerts(j: &Json) -> (r: Option<MatchupAlertsConfig>)
    ensures
        r == dec_matchup_alerts(j@),
{
    let pairs = match j {
        Json::Obj(p) => p,
        _ => {
            return None;
        },
    };
    match get_bool(pairs, "enabled") {
        Some(enabled) => Some(MatchupAlertsConfig { enabled }),
        None => None,
    }
}

fn get_item(pairs: &Vec<(String, Json)>, key: &str) -> (r: Option<ReminderItemConfig>)
    ensures
        r == dec_item_field(pair_views(pairs@), key@),
{
    match obj_get(pairs, key) {
        Some(ij) => decode_reminder_item(ij),
        None => None,
    }
}

fn decode_reminders(j: &Json) -> (r: Option<ReminderConfig>)
    ensures
        r == dec_reminders(j@),
{
    let pairs = match j {
        Json::Obj(p) => p,
        _ => {
            return None;
        },
    };
    let enabled = match get_bool(pairs, "enabled") {
        Some(v) => v,
        None => {
            return None;
        },
    };
    let villager_queue = match get_item(pairs, "villagerQueue") {
        Some(v) => v,
        None => {
            return None;
        },
    };
    let scout = match get_item(pairs, "scout") {
        Some(v) => v,
        None => {
            return None;
        },
    };
    let houses = match get_item(pairs, "houses") {
        Some(v) => v,
        None => {
            return None;
        },
    };
    let military = match get_item(pairs, "military") {
        Some(v) => v,
        None => {
            return None;
        },
    };
    let map_control = match get_item(pairs, "mapControl") {
        Some(v) => v,
        None => {
            return None;
        },
    };
    let macro_check = match obj_get(pairs, "macroCheck") {
        None => ReminderItemConfig { enabled: false, interval_seconds: 20 },
        Some(mj) => match decode_reminder_item(mj) {
            Some(v) => v,
            None => {
                return None;
            },
        },
    };
    let sacred_sites = match obj_get(pairs, "sacredSites") {
        None => SacredSitesConfig { enabled: true },
        Some(sj) => match decode_sacred_sites(sj) {
            Some(v) => v,
            None => {
                return None;
            },
        },
    };
    let matchup_alerts = match obj_get(pairs, "matchupAlerts") {
        None => MatchupAlertsConfig { enabled: true },
        Some(aj) => match decode_matchup_alerts(aj) {
            Some(v) => v,
            None => {
                return None;
            },
        },
    };
    Some(
        ReminderConfig {
            enabled,
            villager_queue,
            scout,
            houses,
            military,
            map_control,
            macro_check,
            sacred_sites,
            matchup_alerts,
        },
    )
}

fn decode_badge(j: &Json) -> (r: Option<UpgradeBadgeConfig>)
    ensures
        match r {
            Some(b) => dec_badge(j@) == Some(b@),
            None => dec_badge(j@) is None,
        },
{
    let pairs = match j {
        Json::Obj(p) => p,
        _ => {
            return None;
        },
    };
    let id = match get_str(pairs, "id") {
        Some(s) => s,
        None => {
            return None;
        },
    };
    let name = match get_str(pairs, "name") {
        Some(s) => s,
        None => {
            return None;
        },
    };
    let short_name = match get_str(pairs, "shortName") {
        Some(s) => s,
        None => {
            return None;
        },
    };
    let trigger_seconds = match get_u32(pairs, "triggerSeconds") {
        Some(v) => v,
        None => {
            return None;
        },
    };
    let enabled = match get_bool(pairs, "enabled") {
        Some(v) => v,
        None => {
            return None;
        },
    };
    Some(UpgradeBadgeConfig { id, name, short_name, trigger_seconds, enabled })
}

fn decode_badges_list(es: &Vec<Json>) -> (r: Option<Vec<UpgradeBadgeConfig>>)
    ensures
        match r {
            Some(bs) => dec_badges_list(json_views(es@)) == Some(
                bs@.map_values(|b: UpgradeBadgeConfig| b@),
            ),
            None => dec_badges_list(json_views(es@)) is None,
        },
{
    broadcast use crate::json::lemma_json_views_len, crate::json::lemma_json_views_index;

    let ghost all = json_views(es@);
    let mut out: Vec<UpgradeBadgeConfig> = Vec::new();
    proof {
        assert(all.skip(0) =~= all);
        assert(out@.map_values(|b: UpgradeBadgeConfig| b@) =~= Seq::<UpgradeBadgeConfigV>::empty());
    }
    let mut i: usize = 0;
    while i < es.len()
        invariant
            i <= es@.len(),
            all == json_views(es@),
            all.len() == es@.len(),
            match dec_badges_list(all.skip(i as int)) {
                Some(t) => dec_badges_list(all) == Some(
                    out@.map_values(|b: UpgradeBadgeConfig| b@) + t,
                ),
                None => dec_badges_list(all) is None,
            },
        decreases es@.len() - i,
    {
        proof {
            crate::json::lemma_json_views_len(es@);
            crate::json::lemma_json_views_index(es@, i as int);
            assert(all.skip(i as int)[0] == all[i as int]);
            assert(all[i as int] == json_view(es@[i as int]));
            assert(all.skip(i as int).drop_first() =~= all.skip(i + 1 as int));
        }
        match decode_badge(&es[i]) {
            None => {
                return None;
            },
            Some(b) => {
                proof {
                    let pre = out@.map_values(|x: UpgradeBadgeConfig| x@);
                    match dec_badges_list(all.skip(i + 1 as int)) {
                        Some(t) => {
                            assert(out@.push(b).map_values(|x: UpgradeBadgeConfig| x@) =~= pre.push(
                                b@,
                            ));
                            assert(pre.push(b@) + t =~= pre + (seq![b@] + t));
                        },
                        None => {},
                    }
                }
                out.push(b);
                i += 1;
            },
        }
    }
    proof {
        assert(all.skip(es@.len() as int).len() == 0);
        assert(out@.map_values(|b: UpgradeBadgeConfig| b@) + Seq::<UpgradeBadgeConfigV>::empty()
            =~= out@.map_values(|b: UpgradeBadgeConfig| b@));
    }
    Some(out)
}

fn decode_badges(j: &Json) -> (r: Option<UpgradeBadgesConfig>)
    ensures
        match r {
            Some(b) => dec_badges(j@) == Some(b@),
            None => dec_badges(j@) is None,
        },
{
    let pairs = match j {
        Json::Obj(p) => p,
        _ => {
            return None;
        },
    };
    let enabled = match get_bool(pairs, "enabled") {
        Some(v) => v,
        None => {
            return None;
        },
    };
    let badges = match obj_get(pairs, "badges") {
        Some(Json::Arr(es)) => match decode_badges_list(es) {
            Some(bs) => bs,
            None => {
                return None;
            },
        },
        _ => {
            return None;
        },
    };
    Some(UpgradeBadgesConfig { enabled, badges })
}

fn decode_timer_drift(j: &Json) -> (r: Option<TimerDriftConfig>)
    ensures
        r == dec_timer_drift(j@),
{
    let pairs = match j {
        Json::Obj(p) => p,
        _ => {
            return None;
        },
    };
    match get_bool(pairs, "enabled") {
        Some(enabled) => Some(TimerDriftConfig { enabled }),
        None => None,
    }
}

fn decode_telemetry(j: &Json) -> (r: Option<TelemetryConfig>)
    ensures
        r == dec_telemetry(j@),
{
    let pairs = match j {
        Json::Obj(p) => p,
        _ => {
            return None;
        },
    };
    let enabled = match get_bool(pairs, "enabled") {
        Some(v) => v,
        None => {
            return None;
        },
    };
    let capture_hotkeys = match get_bool(pairs, "captureHotkeys") {
        Some(v) => v,
        None => {
            return None;
        },
    };
    let capture_actions = match get_bool(pairs, "captureActions") {
        Some(v) => v,
        None => {
            return None;
        },
    };
    let max_events = match get_u32(pairs, "maxEvents") {
        Some(v) => v,
        None => {
            return None;
        },
    };
    Some(TelemetryConfig { enabled, capture_hotkeys, capture_actions, max_events })
}

fn decode_hotkeys(j: &Json) -> (r: Option<HotkeyConfig>)
    ensures
        match r {
            Some(h) => dec_hotkeys(j@) == Some(h@),
            None => dec_hotkeys(j@) is None,
        },
{
    let pairs = match j {
        Json::Obj(p) => p,
        _ => {
            return None;
        },
    };
    let toggle_overlay = match get_str(pairs, "toggle_overlay") {
        Some(s) => s,
        None => {
            return None;
        },
    };
    let previous_step = match get_str(pairs, "previous_step") {
        Some(s) => s,
        None => {
            return None;
        },
    };
    let next_step = match get_str(pairs, "next_step") {
        Some(s) => s,
        None => {
            return None;
        },
    };
    let cycle_build_order = match get_str(pairs, "cycle_build_order") {
        Some(s) => s,
        None => {
            return None;
        },
    };
    let toggle_click_through = match get_str(pairs, "toggle_click_through") {
        Some(s) => s,
        None => {
            return None;
        },
    };
    let toggle_compact = match get_str(pairs, "toggle_compact") {
        Some(s) => s,
        None => {
            return None;
        },
    };
    let reset_build_order = match get_str(pairs, "reset_build_order") {
        Some(s) => s,
        None => {
            return None;
        },
    };
    let toggle_pause = match get_str_default(pairs, "toggle_pause", "F8") {
        Some(s) => s,
        None => {
            return None;
        },
    };
    let activate_branch_main = match get_str_default(pairs, "activate_branch_main", "Alt+0") {
        Some(s) => s,
        None => {
            return None;
        },
    };
    let activate_branch_1 = match get_str_default(pairs, "activate_branch_1", "Alt+1") {
        Some(s) => s,
        None => {
            return None;
        },
    };
    let activate_branch_2 = match get_str_default(pairs, "activate_branch_2", "Alt+2") {
        Some(s) => s,
        None => {
            return None;
        },
    };
    let activate_branch_3 = match get_str_default(pairs, "activate_branch_3", "Alt+3") {
        Some(s) => s,
        None => {
            return None;
        },
    };
    let activate_branch_4 = match get_str_default(pairs, "activate_branch_4", "Alt+4") {
        Some(s) => s,
        None => {
            return None;
        },
    };
    let toggle_counters = match get_str_default(pairs, "toggle_counters", "TAB") {
        Some(s) => s,
        None => {
            return None;
        },
    };
    Some(
        HotkeyConfig {
            toggle_overlay,
            previous_step,
            next_step,
            cycle_build_order,
            toggle_click_through,
            toggle_compact,
            reset_build_order,
            toggle_pause,
            activate_branch_main,
            activate_branch_1,
            activate_branch_2,
            activate_branch_3,
            activate_branch_4,
            toggle_counters,
        },
    )
}

#[verifier::rlimit(100)]
fn decode_app_config(j: &Json) -> (r: Option<AppConfig>)
    ensures
        match r {
            Some(c) => dec_app_config(j@) == Some(c@),
            None => dec_app_config(j@) is None,
        },
{
    let pairs = match j {
        Json::Obj(p) => p,
        _ => {
            return None;
        },
    };
    let overlay_opacity = match get_num(pairs, "overlay_opacity") {
        Some(v) => v,
        None => {
            return None;
        },
    };
    let ui_scale = match get_num_default(pairs, "ui_scale", Number { mantissa: 10, scale: 1 }) {
        Some(v) => v,
        None => {
            return None;
        },
    };
    let font_size = match get_str(pairs, "font_size") {
        Some(s) => s,
        None => {
            return None;
        },
    };
    let theme = match get_str(pairs, "theme") {
        Some(s) => s,
        None => {
            return None;
        },
    };
    let overlay_preset = match get_str_default(pairs, "overlay_preset", "info_dense") {
        Some(s) => s,
        None => {
            return None;
        },
    };
    let hotkeys = match obj_get(pairs, "hotkeys") {
        Some(hj) => match decode_hotkeys(hj) {
            Some(h) => h,
            None => {
                return None;
            },
        },
        None => {
            return None;
        },
    };
    let window_position = match obj_get(pairs, "window_position") {
        None => None,
        Some(Json::Null) => None,
        Some(wj) => match decode_window_position(wj) {
            Some(w) => Some(w),
            None => {
                return None;
            },
        },
    };
    let window_size = match obj_get(pairs, "window_size") {
        None => None,
        Some(Json::Null) => None,
        Some(wj) => match decode_window_size(wj) {
            Some(w) => Some(w),
            None => {
                return None;
            },
        },
    };
    let click_through = match get_bool(pairs, "click_through") {
        Some(v) => v,
        None => {
            return None;
        },
    };
    let compact_mode = match get_bool(pairs, "compact_mode") {
        Some(v) => v,
        None => {
            return None;
        },
    };
    let coach_only_mode = match get_bool_default(pairs, "coach_only_mode") {
        Some(v) => v,
        None => {
            return None;
        },
    };
    let auto_advance = match obj_get(pairs, "auto_advance") {
        Some(aj) => match decode_auto_advance(aj) {
            Some(a) => a,
            None => {
                return None;
            },
        },
        None => {
            return None;
        },
    };
    let filter_civilization = match get_opt_str(pairs, "filter_civilization") {
        Some(v) => v,
        None => {
            return None;
        },
    };
    let filter_difficulty = match get_opt_str(pairs, "filter_difficulty") {
        Some(v) => v,
        None => {
            return None;
        },
    };
    let overlay_position = match get_str_default(pairs, "overlay_position", "") {
        Some(s) => s,
        None => {
            return None;
        },
    };
    let floating_style = match get_bool_default(pairs, "floating_style") {
        Some(v) => v,
        None => {
            return None;
        },
    };
    let voice = match obj_get(pairs, "voice") {
        None => None,
        Some(Json::Null) => None,
        Some(vj) => match decode_voice(vj) {
            Some(v) => Some(v),
            None => {
                return None;
            },
        },
    };
    let reminders = match obj_get(pairs, "reminders") {
        None => None,
        Some(rj) => match rj {
            Json::Null => None,
            _ => match decode_reminders(rj) {
                Some(v) => Some(v),
                None => {
                    return None;
                },
            },
        },
    };
    let upgrade_badges = match obj_get(pairs, "upgradeBadges") {
        None => None,
        Some(bj) => match bj {
            Json::Null => None,
            _ => match decode_badges(bj) {
                Some(v) => Some(v),
                None => {
                    return None;
                },
            },
        },
    };
    let timer_drift = match obj_get(pairs, "timerDrift") {
        None => None,
        Some(tj) => match tj {
            Json::Null => None,
            _ => match decode_timer_drift(tj) {
                Some(v) => Some(v),
                None => {
                    return None;
                },
            },
        },
    };
    let telemetry = match obj_get(pairs, "telemetry") {
        None => None,
        Some(tj) => match tj {
            Json::Null => None,
            _ => match decode_telemetry(tj) {
                Some(v) => Some(v),
                None => {
                    return None;
                },
            },
        },
    };
    Some(
        AppConfig {
            overlay_opacity,
            ui_scale,
            font_size,
            theme,
            overlay_preset,
            hotkeys,
            window_position,
            window_size,
            click_through,
            compact_mode,
            coach_only_mode,
            auto_advance,
            filter_civilization,
            filter_difficulty,
            overlay_position,
            floating_style,
            voice,
            reminders,
            upgrade_badges,
            timer_drift,
            telemetry,
        },
    )
}


// ---------------------------------------------------------------------------
// Configuration: well-formed encodings, public format, defaults law
// ---------------------------------------------------------------------------
proof fn lemma_enc_hotkeys_wf(h: HotkeyConfigV)
    ensures
        enc_hotkeys(h).wf(),
{
    let ps = enc_hotkeys(h)->Obj_0;
    assert(members_wf(ps)) by {
        reveal_with_fuel(members_wf, 16);
        assert(ps.drop_first().drop_first().drop_first().drop_first().drop_first().drop_first().drop_first().drop_first().drop_first().drop_first().drop_first().drop_first().drop_first().drop_first().len()
            == 0);
    }
}

proof fn lemma_enc_voice_wf(v: VoiceConfig)
    requires
        v.rate.wf(),
    ensures
        enc_voice(v).wf(),
{
    let ps = enc_voice(v)->Obj_0;
    assert(members_wf(ps)) by {
        reveal_with_fuel(members_wf, 7);
        assert(ps.drop_first().drop_first().drop_first().drop_first().drop_first().len() == 0);
    }
}

proof fn lemma_enc_reminder_item_wf(r: ReminderItemConfig)
    ensures
        enc_reminder_item(r).wf(),
{
    let ps = enc_reminder_item(r)->Obj_0;
    assert(members_wf(ps)) by {
        reveal_with_fuel(members_wf, 4);
        assert(ps.drop_first().drop_first().len() == 0);
    }
}

proof fn lemma_enc_reminders_wf(r: ReminderConfig)
    ensures
        enc_reminders(r).wf(),
{
    lemma_enc_reminder_item_wf(r.villager_queue);
    lemma_enc_reminder_item_wf(r.scout);
    lemma_enc_reminder_item_wf(r.houses);
    lemma_enc_reminder_item_wf(r.military);
    lemma_enc_reminder_item_wf(r.map_control);
    lemma_enc_reminder_item_wf(r.macro_check);
    let sp = enc_sacred_sites(r.sacred_sites)->Obj_0;
    assert(members_wf(sp)) by {
        reveal_with_fuel(members_wf, 3);
        assert(sp.drop_first().len() == 0);
    }
    let mp = enc_matchup_alerts(r.matchup_alerts)->Obj_0;
    assert(members_wf(mp)) by {
        reveal_with_fuel(members_wf, 3);
        assert(mp.drop_first().len() == 0);
    }
    let ps = enc_reminders(r)->Obj_0;
    assert(members_wf(ps)) by {
        reveal_with_fuel(members_wf, 11);
        assert(ps.drop_first().drop_first().drop_first().drop_first().drop_first().drop_first().drop_first().drop_first().drop_first().len()
            == 0);
    }
}

proof fn lemma_enc_badge_wf(b: UpgradeBadgeConfigV)
    ensures
        enc_badge(b).wf(),
{
    let ps = enc_badge(b)->Obj_0;
    assert(members_wf(ps)) by {
        reveal_with_fuel(members_wf, 7);
        assert(ps.drop_first().drop_first().drop_first().drop_first().drop_first().len() == 0);
    }
}

proof fn lemma_enc_badges_list_wf(bs: Seq<UpgradeBadgeConfigV>)
    ensures
        elems_wf(enc_badges_list(bs)),
    decreases bs.len(),
{
    if bs.len() == 0 {
        assert(enc_badges_list(bs).len() == 0);
    } else {
        lemma_enc_badge_wf(bs[0]);
        assert(enc_badges_list(bs)[0] == enc_badge(bs[0]));
        assert(enc_badges_list(bs).drop_first() =~= enc_badges_list(bs.drop_first()));
        lemma_enc_badges_list_wf(bs.drop_first());
    }
}

proof fn lemma_enc_badges_wf(b: UpgradeBadgesConfigV)
    ensures
        enc_badges(b).wf(),
{
    lemma_enc_badges_list_wf(b.badges);
    let ps = enc_badges(b)->Obj_0;
    assert(members_wf(ps)) by {
        reveal_with_fuel(members_wf, 4);
        assert(ps.drop_first().drop_first().len() == 0);
    }
}

proof fn lemma_enc_telemetry_wf(t: TelemetryConfig)
    ensures
        enc_telemetry(t).wf(),
{
    let ps = enc_telemetry(t)->Obj_0;
    assert(members_wf(ps)) by {
        reveal_with_fuel(members_wf, 6);
        assert(ps.drop_first().drop_first().drop_first().drop_first().len() == 0);
    }
}

proof fn lemma_enc_small_wf(w: WindowPosition, z: WindowSize, a: AutoAdvanceConfig, t: TimerDriftConfig)
    ensures
        enc_window_position(w).wf(),
        enc_window_size(z).wf(),
        enc_auto_advance(a).wf(),
        enc_timer_drift(t).wf(),
{
    let p1 = enc_window_position(w)->Obj_0;
    assert(members_wf(p1)) by {
        reveal_with_fuel(members_wf, 4);
        assert(p1.drop_first().drop_first().len() == 0);
    }
    let p2 = enc_window_size(z)->Obj_0;
    assert(members_wf(p2)) by {
        reveal_with_fuel(members_wf, 4);
        assert(p2.drop_first().drop_first().len() == 0);
    }
    let p3 = enc_auto_advance(a)->Obj_0;
    assert(members_wf(p3)) by {
        reveal_with_fuel(members_wf, 4);
        assert(p3.drop_first().drop_first().len() == 0);
    }
    let p4 = enc_timer_drift(t)->Obj_0;
    assert(members_wf(p4)) by {
        reveal_with_fuel(members_wf, 3);
        assert(p4.drop_first().len() == 0);
    }
}

#[verifier::rlimit(100)]
pub proof fn lemma_enc_app_config_wf(c: AppConfigV)
    requires
        c.wf(),
    ensures
        enc_app_config(c).wf(),
{
    lemma_enc_hotkeys_wf(c.hotkeys);
    match c.window_position {
        Some(w) => {
            lemma_enc_small_wf(
                w,
                WindowSize { width: 0, height: 0 },
                AutoAdvanceConfig { enabled: false, delay_seconds: 0 },
                TimerDriftConfig { enabled: false },
            );
        },
        None => {},
    }
    match c.window_size {
        Some(z) => {
            lemma_enc_small_wf(
                WindowPosition { x: 0, y: 0 },
                z,
                AutoAdvanceConfig { enabled: false, delay_seconds: 0 },
                TimerDriftConfig { enabled: false },
            );
        },
        None => {},
    }
    lemma_enc_small_wf(
        WindowPosition { x: 0, y: 0 },
        WindowSize { width: 0, height: 0 },
        c.auto_advance,
        TimerDriftConfig { enabled: false },
    );
    match c.voice {
        Some(v) => {
            lemma_enc_voice_wf(v);
        },
        None => {},
    }
    match c.reminders {
        Some(r) => {
            lemma_enc_reminders_wf(r);
        },
        None => {},
    }
    match c.upgrade_badges {
        Some(b) => {
            lemma_enc_badges_wf(b);
        },
        None => {},
    }
    match c.timer_drift {
        Some(t) => {
            lemma_enc_small_wf(
                WindowPosition { x: 0, y: 0 },
                WindowSize { width: 0, height: 0 },
                AutoAdvanceConfig { enabled: false, delay_seconds: 0 },
                t,
            );
        },
        None => {},
    }
    match c.telemetry {
        Some(t) => {
            lemma_enc_telemetry_wf(t);
        },
        None => {},
    }
    let ps = enc_app_config(c)->Obj_0;
    assert(members_wf(ps)) by {
        reveal_with_fuel(members_wf, 23);
        assert(ps.drop_first().drop_first().drop_first().drop_first().drop_first().drop_first().drop_first().drop_first().drop_first().drop_first().drop_first().drop_first().drop_first().drop_first().drop_first().drop_first().drop_first().drop_first().drop_first().drop_first().drop_first().len()
            == 0);
    }
}

/// The serialized form of a configuration.
pub open spec fn spec_ser_app_config(c: AppConfigV) -> Seq<char> {
    ser_json(enc_app_config(c))
}

/// What parsing a configuration text yields.
pub open spec fn spec_parse_app_config(s: Seq<char>) -> Option<AppConfigV> {
    match sp_json(s) {
        None => None,
        Some(j) => dec_app_config(j),
    }
}

/// Serializes a configuration as a JSON text.
pub fn serialize_app_config(c: &AppConfig) -> (r: String)
    requires
        c@.wf(),
    ensures
        r@ == spec_ser_app_config(c@),
{
    proof {
        lemma_enc_app_config_wf(c@);
    }
    let j = encode_app_config(c);
    crate::json::to_text(&j)
}

/// Parses a configuration JSON text.
pub fn parse_app_config(s: &str) -> (r: Option<AppConfig>)
    ensures
        match r {
            Some(c) => spec_parse_app_config(s@) == Some(c@),
            None => spec_parse_app_config(s@) is None,
        },
{
    match crate::json::from_text(s) {
        None => None,
        Some(j) => decode_app_config(&j),
    }
}

/// Schema evolution: when a configuration document parses, every optional
/// field that is absent from it reads as its documented default.
#[verifier::rlimit(100)]
pub proof fn lemma_config_missing_fields_default(ps: Seq<(Seq<char>, JsonVal)>, c: AppConfigV)
    requires
        dec_app_config(JsonVal::Obj(ps)) == Some(c),
    ensures
        jv_get(ps, "ui_scale"@) is None ==> c.ui_scale == (Number { mantissa: 10, scale: 1 }),
        jv_get(ps, "overlay_preset"@) is None ==> c.overlay_preset == "info_dense"@,
        jv_get(ps, "coach_only_mode"@) is None ==> !c.coach_only_mode,
        jv_get(ps, "overlay_position"@) is None ==> c.overlay_position == ""@,
        jv_get(ps, "floating_style"@) is None ==> !c.floating_style,
        jv_get(ps, "window_position"@) is None ==> c.window_position is None,
        jv_get(ps, "window_size"@) is None ==> c.window_size is None,
        jv_get(ps, "filter_civilization"@) is None ==> c.filter_civilization is None,
        jv_get(ps, "filter_difficulty"@) is None ==> c.filter_difficulty is None,
        jv_get(ps, "voice"@) is None ==> c.voice is None,
        jv_get(ps, "reminders"@) is None ==> c.reminders is None,
        jv_get(ps, "upgradeBadges"@) is None ==> c.upgrade_badges is None,
        jv_get(ps, "timerDrift"@) is None ==> c.timer_drift is None,
        jv_get(ps, "telemetry"@) is None ==> c.telemetry is None,
{
}

/// Schema evolution for the hotkey table: bindings added after the first
/// release read as their documented defaults when absent.
pub proof fn lemma_hotkeys_missing_fields_default(ps: Seq<(Seq<char>, JsonVal)>, h: HotkeyConfigV)
    requires
        dec_hotkeys(JsonVal::Obj(ps)) == Some(h),
    ensures
        jv_get(ps, "toggle_pause"@) is None ==> h.toggle_pause == "F8"@,
        jv_get(ps, "activate_branch_main"@) is None ==> h.activate_branch_main == "Alt+0"@,
        jv_get(ps, "activate_branch_1"@) is None ==> h.activate_branch_1 == "Alt+1"@,
        jv_get(ps, "activate_branch_2"@) is None ==> h.activate_branch_2 == "Alt+2"@,
        jv_get(ps, "activate_branch_3"@) is None ==> h.activate_branch_3 == "Alt+3"@,
        jv_get(ps, "activate_branch_4"@) is None ==> h.activate_branch_4 == "Alt+4"@,
        jv_get(ps, "toggle_counters"@) is None ==> h.toggle_counters == "TAB"@,
{
}

// ---------------------------------------------------------------------------
// Configuration data round trip
// ---------------------------------------------------------------------------
proof fn lemma_rt_window_position(w: WindowPosition)
    ensures
        dec_window_position(enc_window_position(w)) == Some(w),
{
    reveal_strlit("x");
    reveal_strlit("y");
    assert("x"@.len() == 1);
    assert("y"@.len() == 1);
    assert("x"@[0] == 'x');
    assert("y"@[0] == 'y');
    let ps = enc_window_position(w)->Obj_0;
    assert(enc_window_position(w) is Obj);
    assert(jv_get(ps, "x"@) == Some(JsonVal::Num(Number { mantissa: w.x as i64, scale: 0 }))) by {
        reveal_with_fuel(jv_get, 4);
    }
    assert(jv_get(ps, "y"@) == Some(JsonVal::Num(Number { mantissa: w.y as i64, scale: 0 }))) by {
        reveal_with_fuel(jv_get, 4);
    }
}

proof fn lemma_rt_window_size(w: WindowSize)
    ensures
        dec_window_size(enc_window_size(w)) == Some(w),
{
    reveal_strlit("width");
    reveal_strlit("height");
    assert("width"@.len() == 5);
    assert("height"@.len() == 6);
    let ps = enc_window_size(w)->Obj_0;
    assert(enc_window_size(w) is Obj);
    assert(jv_get(ps, "width"@) == Some(enc_u32(w.width))) by {
        reveal_with_fuel(jv_get, 4);
    }
    assert(jv_get(ps, "height"@) == Some(enc_u32(w.height))) by {
        reveal_with_fuel(jv_get, 4);
    }
}

proof fn lemma_rt_auto_advance(a: AutoAdvanceConfig)
    ensures
        dec_auto_advance(enc_auto_advance(a)) == Some(a),
{
    reveal_strlit("enabled");
    reveal_strlit("delay_seconds");
    assert("enabled"@.len() == 7);
    assert("delay_seconds"@.len() == 13);
    let ps = enc_auto_advance(a)->Obj_0;
    assert(enc_auto_advance(a) is Obj);
    assert(jv_get(ps, "enabled"@) == Some(JsonVal::Bool(a.enabled))) by {
        reveal_with_fuel(jv_get, 4);
    }
    assert(jv_get(ps, "delay_seconds"@) == Some(enc_u32(a.delay_seconds))) by {
        reveal_with_fuel(jv_get, 4);
    }
}

proof fn lemma_rt_voice(v: VoiceConfig)
    ensures
        dec_voice(enc_voice(v)) == Some(v),
{
    reveal_strlit("enabled");
    reveal_strlit("rate");
    reveal_strlit("speakSteps");
    reveal_strlit("speakReminders");
    reveal_strlit("speakDelta");
    assert("enabled"@.len() == 7);
    assert("rate"@.len() == 4);
    assert("speakSteps"@.len() == 10);
    assert("speakReminders"@.len() == 14);
    assert("speakDelta"@.len() == 10);
    assert("speakSteps"@[5] == 'S');
    assert("speakDelta"@[5] == 'D');
    let ps = enc_voice(v)->Obj_0;
    assert(enc_voice(v) is Obj);
    assert(jv_get(ps, "enabled"@) == Some(JsonVal::Bool(v.enabled))) by {
        reveal_with_fuel(jv_get, 7);
    }
    assert(jv_get(ps, "rate"@) == Some(JsonVal::Num(v.rate))) by {
        reveal_with_fuel(jv_get, 7);
    }
    assert(jv_get(ps, "speakSteps"@) == Some(JsonVal::Bool(v.speak_steps))) by {
        reveal_with_fuel(jv_get, 7);
    }
    assert(jv_get(ps, "speakReminders"@) == Some(JsonVal::Bool(v.speak_reminders))) by {
        reveal_with_fuel(jv_get, 7);
    }
    assert(jv_get(ps, "speakDelta"@) == Some(JsonVal::Bool(v.speak_delta))) by {
        reveal_with_fuel(jv_get, 7);
    }
}

proof fn lemma_rt_reminder_item(r: ReminderItemConfig)
    ensures
        dec_reminder_item(enc_reminder_item(r)) == Some(r),
{
    reveal_strlit("enabled");
    reveal_strlit("intervalSeconds");
    assert("enabled"@.len() == 7);
    assert("intervalSeconds"@.len() == 15);
    let ps = enc_reminder_item(r)->Obj_0;
    assert(enc_reminder_item(r) is Obj);
    assert(jv_get(ps, "enabled"@) == Some(JsonVal::Bool(r.enabled))) by {
        reveal_with_fuel(jv_get, 4);
    }
    assert(jv_get(ps, "intervalSeconds"@) == Some(enc_u32(r.interval_seconds))) by {
        reveal_with_fuel(jv_get, 4);
    }
}

proof fn lemma_rt_sacred_sites(s: SacredSitesConfig)
    ensures
        dec_sacred_sites(enc_sacred_sites(s)) == Some(s),
{
    reveal_strlit("enabled");
    assert("enabled"@.len() == 7);
    let ps = enc_sacred_sites(s)->Obj_0;
    assert(enc_sacred_sites(s) is Obj);
    assert(jv_get(ps, "enabled"@) == Some(JsonVal::Bool(s.enabled))) by {
        reveal_with_fuel(jv_get, 3);
    }
}

proof fn lemma_rt_matchup_alerts(m: MatchupAlertsConfig)
    ensures
        dec_matchup_alerts(enc_matchup_alerts(m)) == Some(m),
{
    reveal_strlit("enabled");
    assert("enabled"@.len() == 7);
    let ps = enc_matchup_alerts(m)->Obj_0;
    assert(enc_matchup_alerts(m) is Obj);
    assert(jv_get(ps, "enabled"@) == Some(JsonVal::Bool(m.enabled))) by {
        reveal_with_fuel(jv_get, 3);
    }
}

#[verifier::rlimit(100)]
proof fn lemma_rt_reminders(r: ReminderConfig)
    ensures
        dec_reminders(enc_reminders(r)) == Some(r),
{
    reveal_strlit("enabled");
    reveal_strlit("villagerQueue");
    reveal_strlit("scout");
    reveal_strlit("houses");
    reveal_strlit("military");
    reveal_strlit("mapControl");
    reveal_strlit("macroCheck");
    reveal_strlit("sacredSites");
    reveal_strlit("matchupAlerts");
    assert("enabled"@.len() == 7);
    assert("villagerQueue"@.len() == 13);
    assert("scout"@.len() == 5);
    assert("houses"@.len() == 6);
    assert("military"@.len() == 8);
    assert("mapControl"@.len() == 10);
    assert("macroCheck"@.len() == 10);
    assert("sacredSites"@.len() == 11);
    assert("matchupAlerts"@.len() == 13);
    assert("mapControl"@[2] == 'p');
    assert("macroCheck"@[2] == 'c');
    assert("villagerQueue"@[0] == 'v');
    assert("matchupAlerts"@[0] == 'm');
    let ps = enc_reminders(r)->Obj_0;
    assert(enc_reminders(r) is Obj);
    assert(jv_get(ps, "enabled"@) == Some(JsonVal::Bool(r.enabled))) by {
        reveal_with_fuel(jv_get, 11);
    }
    assert(jv_get(ps, "villagerQueue"@) == Some(enc_reminder_item(r.villager_queue))) by {
        reveal_with_fuel(jv_get, 11);
    }
    assert(jv_get(ps, "scout"@) == Some(enc_reminder_item(r.scout))) by {
        reveal_with_fuel(jv_get, 11);
    }
    assert(jv_get(ps, "houses"@) == Some(enc_reminder_item(r.houses))) by {
        reveal_with_fuel(jv_get, 11);
    }
    assert(jv_get(ps, "military"@) == Some(enc_reminder_item(r.military))) by {
        reveal_with_fuel(jv_get, 11);
    }
    assert(jv_get(ps, "mapControl"@) == Some(enc_reminder_item(r.map_control))) by {
        reveal_with_fuel(jv_get, 11);
    }
    assert(jv_get(ps, "macroCheck"@) == Some(enc_reminder_item(r.macro_check))) by {
        reveal_with_fuel(jv_get, 11);
    }
    assert(jv_get(ps, "sacredSites"@) == Some(enc_sacred_sites(r.sacred_sites))) by {
        reveal_with_fuel(jv_get, 11);
    }
    assert(jv_get(ps, "matchupAlerts"@) == Some(enc_matchup_alerts(r.matchup_alerts))) by {
        reveal_with_fuel(jv_get, 11);
    }
    lemma_rt_reminder_item(r.villager_queue);
    lemma_rt_reminder_item(r.scout);
    lemma_rt_reminder_item(r.houses);
    lemma_rt_reminder_item(r.military);
    lemma_rt_reminder_item(r.map_control);
    lemma_rt_reminder_item(r.macro_check);
    lemma_rt_sacred_sites(r.sacred_sites);
    lemma_rt_matchup_alerts(r.matchup_alerts);
}

proof fn lemma_rt_badge(b: UpgradeBadgeConfigV)
    ensures
        dec_badge(enc_badge(b)) == Some(b),
{
    reveal_strlit("id");
    reveal_strlit("name");
    reveal_strlit("shortName");
    reveal_strlit("triggerSeconds");
    reveal_strlit("enabled");
    assert("id"@.len() == 2);
    assert("name"@.len() == 4);
    assert("shortName"@.len() == 9);
    assert("triggerSeconds"@.len() == 14);
    assert("enabled"@.len() == 7);
    let ps = enc_badge(b)->Obj_0;
    assert(enc_badge(b) is Obj);
    assert(jv_get(ps, "id"@) == Some(JsonVal::Str(b.id))) by {
        reveal_with_fuel(jv_get, 7);
    }
    assert(jv_get(ps, "name"@) == Some(JsonVal::Str(b.name))) by {
        reveal_with_fuel(jv_get, 7);
    }
    assert(jv_get(ps, "shortName"@) == Some(JsonVal::Str(b.short_name))) by {
        reveal_with_fuel(jv_get, 7);
    }
    assert(jv_get(ps, "triggerSeconds"@) == Some(enc_u32(b.trigger_seconds))) by {
        reveal_with_fuel(jv_get, 7);
    }
    assert(jv_get(ps, "enabled"@) == Some(JsonVal::Bool(b.enabled))) by {
        reveal_with_fuel(jv_get, 7);
    }
}

proof fn lemma_rt_badges_list(bs: Seq<UpgradeBadgeConfigV>)
    ensures
        dec_badges_list(enc_badges_list(bs)) == Some(bs),
    decreases bs.len(),
{
    if bs.len() == 0 {
        assert(enc_badges_list(bs) =~= Seq::<JsonVal>::empty());
        assert(Seq::<UpgradeBadgeConfigV>::empty() =~= bs);
    } else {
        lemma_rt_badge(bs[0]);
        assert(enc_badges_list(bs)[0] == enc_badge(bs[0]));
        assert(enc_badges_list(bs).drop_first() =~= enc_badges_list(bs.drop_first()));
        lemma_rt_badges_list(bs.drop_first());
        assert(seq![bs[0]] + bs.drop_first() =~= bs);
    }
}

proof fn lemma_rt_badges(b: UpgradeBadgesConfigV)
    ensures
        dec_badges(enc_badges(b)) == Some(b),
{
    reveal_strlit("enabled");
    reveal_strlit("badges");
    assert("enabled"@.len() == 7);
    assert("badges"@.len() == 6);
    let ps = enc_badges(b)->Obj_0;
    assert(enc_badges(b) is Obj);
    assert(jv_get(ps, "enabled"@) == Some(JsonVal::Bool(b.enabled))) by {
        reveal_with_fuel(jv_get, 4);
    }
    assert(jv_get(ps, "badges"@) == Some(JsonVal::Arr(enc_badges_list(b.badges)))) by {
        reveal_with_fuel(jv_get, 4);
    }
    lemma_rt_badges_list(b.badges);
}

proof fn lemma_rt_timer_drift(t: TimerDriftConfig)
    ensures
        dec_timer_drift(enc_timer_drift(t)) == Some(t),
{
    reveal_strlit("enabled");
    assert("enabled"@.len() == 7);
    let ps = enc_timer_drift(t)->Obj_0;
    assert(enc_timer_drift(t) is Obj);
    assert(jv_get(ps, "enabled"@) == Some(JsonVal::Bool(t.enabled))) by {
        reveal_with_fuel(jv_get, 3);
    }
}

proof fn lemma_rt_telemetry(t: TelemetryConfig)
    ensures
        dec_telemetry(enc_telemetry(t)) == Some(t),
{
    reveal_strlit("enabled");
    reveal_strlit("captureHotkeys");
    reveal_strlit("captureActions");
    reveal_strlit("maxEvents");
    assert("enabled"@.len() == 7);
    assert("captureHotkeys"@.len() == 14);
    assert("captureActions"@.len() == 14);
    assert("maxEvents"@.len() == 9);
    assert("captureHotkeys"@[7] == 'H');
    assert("captureActions"@[7] == 'A');
    let ps = enc_telemetry(t)->Obj_0;
    assert(enc_telemetry(t) is Obj);
    assert(jv_get(ps, "enabled"@) == Some(JsonVal::Bool(t.enabled))) by {
        reveal_with_fuel(jv_get, 6);
    }
    assert(jv_get(ps, "captureHotkeys"@) == Some(JsonVal::Bool(t.capture_hotkeys))) by {
        reveal_with_fuel(jv_get, 6);
    }
    assert(jv_get(ps, "captureActions"@) == Some(JsonVal::Bool(t.capture_actions))) by {
        reveal_with_fuel(jv_get, 6);
    }
    assert(jv_get(ps, "maxEvents"@) == Some(enc_u32(t.max_events))) by {
        reveal_with_fuel(jv_get, 6);
    }
}

#[verifier::rlimit(100)]
proof fn lemma_rt_hotkeys(h: HotkeyConfigV)
    ensures
        dec_hotkeys(enc_hotkeys(h)) == Some(h),
{
    reveal_strlit("toggle_overlay");
    reveal_strlit("previous_step");
    reveal_strlit("next_step");
    reveal_strlit("cycle_build_order");
    reveal_strlit("toggle_click_through");
    reveal_strlit("toggle_compact");
    reveal_strlit("reset_build_order");
    reveal_strlit("toggle_pause");
    reveal_strlit("activate_branch_main");
    reveal_strlit("activate_branch_1");
    reveal_strlit("activate_branch_2");
    reveal_strlit("activate_branch_3");
    reveal_strlit("activate_branch_4");
    reveal_strlit("toggle_counters");
    assert("toggle_overlay"@.len() == 14);
    assert("previous_step"@.len() == 13);
    assert("next_step"@.len() == 9);
    assert("cycle_build_order"@.len() == 17);
    assert("toggle_click_through"@.len() == 20);
    assert("toggle_compact"@.len() == 14);
    assert("reset_build_order"@.len() == 17);
    assert("toggle_pause"@.len() == 12);
    assert("activate_branch_main"@.len() == 20);
    assert("activate_branch_1"@.len() == 17);
    assert("activate_branch_2"@.len() == 17);
    assert("activate_branch_3"@.len() == 17);
    assert("activate_branch_4"@.len() == 17);
    assert("toggle_counters"@.len() == 15);
    assert("toggle_overlay"@[7] == 'o');
    assert("toggle_compact"@[7] == 'c');
    assert("cycle_build_order"@[0] == 'c');
    assert("reset_build_order"@[0] == 'r');
    assert("activate_branch_1"@[0] == 'a');
    assert("activate_branch_1"@[16] == '1');
    assert("activate_branch_2"@[16] == '2');
    assert("activate_branch_3"@[16] == '3');
    assert("activate_branch_4"@[16] == '4');
    assert("toggle_click_through"@[0] == 't');
    assert("activate_branch_main"@[0] == 'a');
    assert("toggle_overlay"@ != "previous_step"@);
    assert("toggle_overlay"@ != "next_step"@);
    assert("toggle_overlay"@ != "cycle_build_order"@);
    assert("toggle_overlay"@ != "toggle_click_through"@);
    assert("toggle_overlay"@ != "toggle_compact"@);
    assert("toggle_overlay"@ != "reset_build_order"@);
    assert("toggle_overlay"@ != "toggle_pause"@);
    assert("toggle_overlay"@ != "activate_branch_main"@);
    assert("toggle_overlay"@ != "activate_branch_1"@);
    assert("toggle_overlay"@ != "activate_branch_2"@);
    assert("toggle_overlay"@ != "activate_branch_3"@);
    assert("toggle_overlay"@ != "activate_branch_4"@);
    assert("toggle_overlay"@ != "toggle_counters"@);
    assert("previous_step"@ != "next_step"@);
    assert("previous_step"@ != "cycle_build_order"@);
    assert("previous_step"@ != "toggle_click_through"@);
    assert("previous_step"@ != "toggle_compact"@);
    assert("previous_step"@ != "reset_build_order"@);
    assert("previous_step"@ != "toggle_pause"@);
    assert("previous_step"@ != "activate_branch_main"@);
    assert("previous_step"@ != "activate_branch_1"@);
    assert("previous_step"@ != "activate_branch_2"@);
    assert("previous_step"@ != "activate_branch_3"@);
    assert("previous_step"@ != "activate_branch_4"@);
    assert("previous_step"@ != "toggle_counters"@);
    assert("next_step"@ != "cycle_build_order"@);
    assert("next_step"@ != "toggle_click_through"@);
    assert("next_step"@ != "toggle_compact"@);
    assert("next_step"@ != "reset_build_order"@);
    assert("next_step"@ != "toggle_pause"@);
    assert("next_step"@ != "activate_branch_main"@);
    assert("next_step"@ != "activate_branch_1"@);
    assert("next_step"@ != "activate_branch_2"@);
    assert("next_step"@ != "activate_branch_3"@);
    assert("next_step"@ != "activate_branch_4"@);
    assert("next_step"@ != "toggle_counters"@);
    assert("cycle_build_order"@ != "toggle_click_through"@);
    assert("cycle_build_order"@ != "toggle_compact"@);
    assert("cycle_build_order"@ != "reset_build_order"@);
    assert("cycle_build_order"@ != "toggle_pause"@);
    assert("cycle_build_order"@ != "activate_branch_main"@);
    assert("cycle_build_order"@ != "activate_branch_1"@);
    assert("cycle_build_order"@ != "activate_branch_2"@);
    assert("cycle_build_order"@ != "activate_branch_3"@);
    assert("cycle_build_order"@ != "activate_branch_4"@);
    assert("cycle_build_order"@ != "toggle_counters"@);
    assert("toggle_click_through"@ != "toggle_compact"@);
    assert("toggle_click_through"@ != "reset_build_order"@);
    assert("toggle_click_through"@ != "toggle_pause"@);
    assert("toggle_click_through"@ != "activate_branch_main"@);
    assert("toggle_click_through"@ != "activate_branch_1"@);
    assert("toggle_click_through"@ != "activate_branch_2"@);
    assert("toggle_click_through"@ != "activate_branch_3"@);
    assert("toggle_click_through"@ != "activate_branch_4"@);
    assert("toggle_click_through"@ != "toggle_counters"@);
    assert("toggle_compact"@ != "reset_build_order"@);
    assert("toggle_compact"@ != "toggle_pause"@);
    assert("toggle_compact"@ != "activate_branch_main"@);
    assert("toggle_compact"@ != "activate_branch_1"@);
    assert("toggle_compact"@ != "activate_branch_2"@);
    assert("toggle_compact"@ != "activate_branch_3"@);
    assert("toggle_compact"@ != "activate_branch_4"@);
    assert("toggle_compact"@ != "toggle_counters"@);
    assert("reset_build_order"@ != "toggle_pause"@);
    assert("reset_build_order"@ != "activate_branch_main"@);
    assert("reset_build_order"@ != "activate_branch_1"@);
    assert("reset_build_order"@ != "activate_branch_2"@);
    assert("reset_build_order"@ != "activate_branch_3"@);
    assert("reset_build_order"@ != "activate_branch_4"@);
    assert("reset_build_order"@ != "toggle_counters"@);
    assert("toggle_pause"@ != "activate_branch_main"@);
    assert("toggle_pause"@ != "activate_branch_1"@);
    assert("toggle_pause"@ != "activate_branch_2"@);
    assert("toggle_pause"@ != "activate_branch_3"@);
    assert("toggle_pause"@ != "activate_branch_4"@);
    assert("toggle_pause"@ != "toggle_counters"@);
    assert("activate_branch_main"@ != "activate_branch_1"@);
    assert("activate_branch_main"@ != "activate_branch_2"@);
    assert("activate_branch_main"@ != "activate_branch_3"@);
    assert("activate_branch_main"@ != "activate_branch_4"@);
    assert("activate_branch_main"@ != "toggle_counters"@);
    assert("activate_branch_1"@ != "activate_branch_2"@);
    assert("activate_branch_1"@ != "activate_branch_3"@);
    assert("activate_branch_1"@ != "activate_branch_4"@);
    assert("activate_branch_1"@ != "toggle_counters"@);
    assert("activate_branch_2"@ != "activate_branch_3"@);
    assert("activate_branch_2"@ != "activate_branch_4"@);
    assert("activate_branch_2"@ != "toggle_counters"@);
    assert("activate_branch_3"@ != "activate_branch_4"@);
    assert("activate_branch_3"@ != "toggle_counters"@);
    assert("activate_branch_4"@ != "toggle_counters"@);
    let ps = enc_hotkeys(h)->Obj_0;
    assert(enc_hotkeys(h) is Obj);
    assert(jv_get(ps, "toggle_overlay"@) == Some(JsonVal::Str(h.toggle_overlay))) by {
        reveal_with_fuel(jv_get, 16);
    }
    assert(jv_get(ps, "previous_step"@) == Some(JsonVal::Str(h.previous_step))) by {
        reveal_with_fuel(jv_get, 16);
    }
    assert(jv_get(ps, "next_step"@) == Some(JsonVal::Str(h.next_step))) by {
        reveal_with_fuel(jv_get, 16);
    }
    assert(jv_get(ps, "cycle_build_order"@) == Some(JsonVal::Str(h.cycle_build_order))) by {
        reveal_with_fuel(jv_get, 16);
    }
    assert(jv_get(ps, "toggle_click_through"@) == Some(JsonVal::Str(h.toggle_click_through))) by {
        reveal_with_fuel(jv_get, 16);
    }
    assert(jv_get(ps, "toggle_compact"@) == Some(JsonVal::Str(h.toggle_compact))) by {
        reveal_with_fuel(jv_get, 16);
    }
    assert(jv_get(ps, "reset_build_order"@) == Some(JsonVal::Str(h.reset_build_order))) by {
        reveal_with_fuel(jv_get, 16);
    }
    assert(jv_get(ps, "toggle_pause"@) == Some(JsonVal::Str(h.toggle_pause))) by {
        reveal_with_fuel(jv_get, 16);
    }
    assert(jv_get(ps, "activate_branch_main"@) == Some(JsonVal::Str(h.activate_branch_main))) by {
        reveal_with_fuel(jv_get, 16);
    }
    assert(jv_get(ps, "activate_branch_1"@) == Some(JsonVal::Str(h.activate_branch_1))) by {
        reveal_with_fuel(jv_get, 16);
    }
    assert(jv_get(ps, "activate_branch_2"@) == Some(JsonVal::Str(h.activate_branch_2))) by {
        reveal_with_fuel(jv_get, 16);
    }
    assert(jv_get(ps, "activate_branch_3"@) == Some(JsonVal::Str(h.activate_branch_3))) by {
        reveal_with_fuel(jv_get, 16);
    }
    assert(jv_get(ps, "activate_branch_4"@) == Some(JsonVal::Str(h.activate_branch_4))) by {
        reveal_with_fuel(jv_get, 16);
    }
    assert(jv_get(ps, "toggle_counters"@) == Some(JsonVal::Str(h.toggle_counters))) by {
        reveal_with_fuel(jv_get, 16);
    }
}

#[verifier::rlimit(100)]
proof fn lemma_rt_app_config(c: AppConfigV)
    ensures
        dec_app_config(enc_app_config(c)) == Some(c),
{
    reveal_strlit("overlay_opacity");
    reveal_strlit("ui_scale");
    reveal_strlit("font_size");
    reveal_strlit("theme");
    reveal_strlit("overlay_preset");
    reveal_strlit("hotkeys");
    reveal_strlit("window_position");
    reveal_strlit("window_size");
    reveal_strlit("click_through");
    reveal_strlit("compact_mode");
    reveal_strlit("coach_only_mode");
    reveal_strlit("auto_advance");
    reveal_strlit("filter_civilization");
    reveal_strlit("filter_difficulty");
    reveal_strlit("overlay_position");
    reveal_strlit("floating_style");
    reveal_strlit("voice");
    reveal_strlit("reminders");
    reveal_strlit("upgradeBadges");
    reveal_strlit("timerDrift");
    reveal_strlit("telemetry");
    assert("overlay_opacity"@.len() == 15);
    assert("ui_scale"@.len() == 8);
    assert("font_size"@.len() == 9);
    assert("theme"@.len() == 5);
    assert("overlay_preset"@.len() == 14);
    assert("hotkeys"@.len() == 7);
    assert("window_position"@.len() == 15);
    assert("window_size"@.len() == 11);
    assert("click_through"@.len() == 13);
    assert("compact_mode"@.len() == 12);
    assert("coach_only_mode"@.len() == 15);
    assert("auto_advance"@.len() == 12);
    assert("filter_civilization"@.len() == 19);
    assert("filter_difficulty"@.len() == 17);
    assert("overlay_position"@.len() == 16);
    assert("floating_style"@.len() == 14);
    assert("voice"@.len() == 5);
    assert("reminders"@.len() == 9);
    assert("upgradeBadges"@.len() == 13);
    assert("timerDrift"@.len() == 10);
    assert("telemetry"@.len() == 9);
    assert("overlay_opacity"@[0] == 'o');
    assert("window_position"@[0] == 'w');
    assert("coach_only_mode"@[0] == 'c');
    assert("compact_mode"@[0] == 'c');
    assert("auto_advance"@[0] == 'a');
    assert("overlay_preset"@[0] == 'o');
    assert("floating_style"@[0] == 'f');
    assert("theme"@[0] == 't');
    assert("voice"@[0] == 'v');
    assert("font_size"@[0] == 'f');
    assert("reminders"@[0] == 'r');
    assert("telemetry"@[0] == 't');
    assert("click_through"@[0] == 'c');
    assert("upgradeBadges"@[0] == 'u');
    assert("overlay_opacity"@ != "ui_scale"@);
    assert("overlay_opacity"@ != "font_size"@);
    assert("overlay_opacity"@ != "theme"@);
    assert("overlay_opacity"@ != "overlay_preset"@);
    assert("overlay_opacity"@ != "hotkeys"@);
    assert("overlay_opacity"@ != "window_position"@);
    assert("overlay_opacity"@ != "window_size"@);
    assert("overlay_opacity"@ != "click_through"@);
    assert("overlay_opacity"@ != "compact_mode"@);
    assert("overlay_opacity"@ != "coach_only_mode"@);
    assert("overlay_opacity"@ != "auto_advance"@);
    assert("overlay_opacity"@ != "filter_civilization"@);
    assert("overlay_opacity"@ != "filter_difficulty"@);
    assert("overlay_opacity"@ != "overlay_position"@);
    assert("overlay_opacity"@ != "floating_style"@);
    assert("overlay_opacity"@ != "voice"@);
    assert("overlay_opacity"@ != "reminders"@);
    assert("overlay_opacity"@ != "upgradeBadges"@);
    assert("overlay_opacity"@ != "timerDrift"@);
    assert("overlay_opacity"@ != "telemetry"@);
    assert("ui_scale"@ != "font_size"@);
    assert("ui_scale"@ != "theme"@);
    assert("ui_scale"@ != "overlay_preset"@);
    assert("ui_scale"@ != "hotkeys"@);
    assert("ui_scale"@ != "window_position"@);
    assert("ui_scale"@ != "window_size"@);
    assert("ui_scale"@ != "click_through"@);
    assert("ui_scale"@ != "compact_mode"@);
    assert("ui_scale"@ != "coach_only_mode"@);
    assert("ui_scale"@ != "auto_advance"@);
    assert("ui_scale"@ != "filter_civilization"@);
    assert("ui_scale"@ != "filter_difficulty"@);
    assert("ui_scale"@ != "overlay_position"@);
    assert("ui_scale"@ != "floating_style"@);
    assert("ui_scale"@ != "voice"@);
    assert("ui_scale"@ != "reminders"@);
    assert("ui_scale"@ != "upgradeBadges"@);
    assert("ui_scale"@ != "timerDrift"@);
    assert("ui_scale"@ != "telemetry"@);
    assert("font_size"@ != "theme"@);
    assert("font_size"@ != "overlay_preset"@);
    assert("font_size"@ != "hotkeys"@);
    assert("font_size"@ != "window_position"@);
    assert("font_size"@ != "window_size"@);
    assert("font_size"@ != "click_through"@);
    assert("font_size"@ != "compact_mode"@);
    assert("font_size"@ != "coach_only_mode"@);
    assert("font_size"@ != "auto_advance"@);
    assert("font_size"@ != "filter_civilization"@);
    assert("font_size"@ != "filter_difficulty"@);
    assert("font_size"@ != "overlay_position"@);
    assert("font_size"@ != "floating_style"@);
    assert("font_size"@ != "voice"@);
    assert("font_size"@ != "reminders"@);
    assert("font_size"@ != "upgradeBadges"@);
    assert("font_size"@ != "timerDrift"@);
    assert("font_size"@ != "telemetry"@);
    assert("theme"@ != "overlay_preset"@);
    assert("theme"@ != "hotkeys"@);
    assert("theme"@ != "window_position"@);
    assert("theme"@ != "window_size"@);
    assert("theme"@ != "click_through"@);
    assert("theme"@ != "compact_mode"@);
    assert("theme"@ != "coach_only_mode"@);
    assert("theme"@ != "auto_advance"@);
    assert("theme"@ != "filter_civilization"@);
    assert("theme"@ != "filter_difficulty"@);
    assert("theme"@ != "overlay_position"@);
    assert("theme"@ != "floating_style"@);
    assert("theme"@ != "voice"@);
    assert("theme"@ != "reminders"@);
    assert("theme"@ != "upgradeBadges"@);
    assert("theme"@ != "timerDrift"@);
    assert("theme"@ != "telemetry"@);
    assert("overlay_preset"@ != "hotkeys"@);
    assert("overlay_preset"@ != "window_position"@);
    assert("overlay_preset"@ != "window_size"@);
    assert("overlay_preset"@ != "click_through"@);
    assert("overlay_preset"@ != "compact_mode"@);
    assert("overlay_preset"@ != "coach_only_mode"@);
    assert("overlay_preset"@ != "auto_advance"@);
    assert("overlay_preset"@ != "filter_civilization"@);
    assert("overlay_preset"@ != "filter_difficulty"@);
    assert("overlay_preset"@ != "overlay_position"@);
    assert("overlay_preset"@ != "floating_style"@);
    assert("overlay_preset"@ != "voice"@);
    assert("overlay_preset"@ != "reminders"@);
    assert("overlay_preset"@ != "upgradeBadges"@);
    assert("overlay_preset"@ != "timerDrift"@);
    assert("overlay_preset"@ != "telemetry"@);
    assert("hotkeys"@ != "window_position"@);
    assert("hotkeys"@ != "window_size"@);
    assert("hotkeys"@ != "click_through"@);
    assert("hotkeys"@ != "compact_mode"@);
    assert("hotkeys"@ != "coach_only_mode"@);
    assert("hotkeys"@ != "auto_advance"@);
    assert("hotkeys"@ != "filter_civilization"@);
    assert("hotkeys"@ != "filter_difficulty"@);
    assert("hotkeys"@ != "overlay_position"@);
    assert("hotkeys"@ != "floating_style"@);
    assert("hotkeys"@ != "voice"@);
    assert("hotkeys"@ != "reminders"@);
    assert("hotkeys"@ != "upgradeBadges"@);
    assert("hotkeys"@ != "timerDrift"@);
    assert("hotkeys"@ != "telemetry"@);
    assert("window_position"@ != "window_size"@);
    assert("window_position"@ != "click_through"@);
    assert("window_position"@ != "compact_mode"@);
    assert("window_position"@ != "coach_only_mode"@);
    assert("window_position"@ != "auto_advance"@);
    assert("window_position"@ != "filter_civilization"@);
    assert("window_position"@ != "filter_difficulty"@);
    assert("window_position"@ != "overlay_position"@);
    assert("window_position"@ != "floating_style"@);
    assert("window_position"@ != "voice"@);
    assert("window_position"@ != "reminders"@);
    assert("window_position"@ != "upgradeBadges"@);
    assert("window_position"@ != "timerDrift"@);
    assert("window_position"@ != "telemetry"@);
    assert("window_size"@ != "click_through"@);
    assert("window_size"@ != "compact_mode"@);
    assert("window_size"@ != "coach_only_mode"@);
    assert("window_size"@ != "auto_advance"@);
    assert("window_size"@ != "filter_civilization"@);
    assert("window_size"@ != "filter_difficulty"@);
    assert("window_size"@ != "overlay_position"@);
    assert("window_size"@ != "floating_style"@);
    assert("window_size"@ != "voice"@);
    assert("window_size"@ != "reminders"@);
    assert("window_size"@ != "upgradeBadges"@);
    assert("window_size"@ != "timerDrift"@);
    assert("window_size"@ != "telemetry"@);
    assert("click_through"@ != "compact_mode"@);
    assert("click_through"@ != "coach_only_mode"@);
    assert("click_through"@ != "auto_advance"@);
    assert("click_through"@ != "filter_civilization"@);
    assert("click_through"@ != "filter_difficulty"@);
    assert("click_through"@ != "overlay_position"@);
    assert("click_through"@ != "floating_style"@);
    assert("click_through"@ != "voice"@);
    assert("click_through"@ != "reminders"@);
    assert("click_through"@ != "upgradeBadges"@);
    assert("click_through"@ != "timerDrift"@);
    assert("click_through"@ != "telemetry"@);
    assert("compact_mode"@ != "coach_only_mode"@);
    assert("compact_mode"@ != "auto_advance"@);
    assert("compact_mode"@ != "filter_civilization"@);
    assert("compact_mode"@ != "filter_difficulty"@);
    assert("compact_mode"@ != "overlay_position"@);
    assert("compact_mode"@ != "floating_style"@);
    assert("compact_mode"@ != "voice"@);
    assert("compact_mode"@ != "reminders"@);
    assert("compact_mode"@ != "upgradeBadges"@);
    assert("compact_mode"@ != "timerDrift"@);
    assert("compact_mode"@ != "telemetry"@);
    assert("coach_only_mode"@ != "auto_advance"@);
    assert("coach_only_mode"@ != "filter_civilization"@);
    assert("coach_only_mode"@ != "filter_difficulty"@);
    assert("coach_only_mode"@ != "overlay_position"@);
    assert("coach_only_mode"@ != "floating_style"@);
    assert("coach_only_mode"@ != "voice"@);
    assert("coach_only_mode"@ != "reminders"@);
    assert("coach_only_mode"@ != "upgradeBadges"@);
    assert("coach_only_mode"@ != "timerDrift"@);
    assert("coach_only_mode"@ != "telemetry"@);
    assert("auto_advance"@ != "filter_civilization"@);
    assert("auto_advance"@ != "filter_difficulty"@);
    assert("auto_advance"@ != "overlay_position"@);
    assert("auto_advance"@ != "floating_style"@);
    assert("auto_advance"@ != "voice"@);
    assert("auto_advance"@ != "reminders"@);
    assert("auto_advance"@ != "upgradeBadges"@);
    assert("auto_advance"@ != "timerDrift"@);
    assert("auto_advance"@ != "telemetry"@);
    assert("filter_civilization"@ != "filter_difficulty"@);
    assert("filter_civilization"@ != "overlay_position"@);
    assert("filter_civilization"@ != "floating_style"@);
    assert("filter_civilization"@ != "voice"@);
    assert("filter_civilization"@ != "reminders"@);
    assert("filter_civilization"@ != "upgradeBadges"@);
    assert("filter_civilization"@ != "timerDrift"@);
    assert("filter_civilization"@ != "telemetry"@);
    assert("filter_difficulty"@ != "overlay_position"@);
    assert("filter_difficulty"@ != "floating_style"@);
    assert("filter_difficulty"@ != "voice"@);
    assert("filter_difficulty"@ != "reminders"@);
    assert("filter_difficulty"@ != "upgradeBadges"@);
    assert("filter_difficulty"@ != "timerDrift"@);
    assert("filter_difficulty"@ != "telemetry"@);
    assert("overlay_position"@ != "floating_style"@);
    assert("overlay_position"@ != "voice"@);
    assert("overlay_position"@ != "reminders"@);
    assert("overlay_position"@ != "upgradeBadges"@);
    assert("overlay_position"@ != "timerDrift"@);
    assert("overlay_position"@ != "telemetry"@);
    assert("floating_style"@ != "voice"@);
    assert("floating_style"@ != "reminders"@);
    assert("floating_style"@ != "upgradeBadges"@);
    assert("floating_style"@ != "timerDrift"@);
    assert("floating_style"@ != "telemetry"@);
    assert("voice"@ != "reminders"@);
    assert("voice"@ != "upgradeBadges"@);
    assert("voice"@ != "timerDrift"@);
    assert("voice"@ != "telemetry"@);
    assert("reminders"@ != "upgradeBadges"@);
    assert("reminders"@ != "timerDrift"@);
    assert("reminders"@ != "telemetry"@);
    assert("upgradeBadges"@ != "timerDrift"@);
    assert("upgradeBadges"@ != "telemetry"@);
    assert("timerDrift"@ != "telemetry"@);
    let ps = enc_app_config(c)->Obj_0;
    assert(enc_app_config(c) is Obj);
    assert(jv_get(ps, "overlay_opacity"@) == Some(JsonVal::Num(c.overlay_opacity))) by {
        reveal_with_fuel(jv_get, 23);
    }
    assert(jv_get(ps, "ui_scale"@) == Some(JsonVal::Num(c.ui_scale))) by {
        reveal_with_fuel(jv_get, 23);
    }
    assert(jv_get(ps, "font_size"@) == Some(JsonVal::Str(c.font_size))) by {
        reveal_with_fuel(jv_get, 23);
    }
    assert(jv_get(ps, "theme"@) == Some(JsonVal::Str(c.theme))) by {
        reveal_with_fuel(jv_get, 23);
    }
    assert(jv_get(ps, "overlay_preset"@) == Some(JsonVal::Str(c.overlay_preset))) by {
        reveal_with_fuel(jv_get, 23);
    }
    assert(jv_get(ps, "hotkeys"@) == Some(enc_hotkeys(c.hotkeys))) by {
        reveal_with_fuel(jv_get, 23);
    }
    assert(jv_get(ps, "window_position"@) == Some(enc_opt(c.window_position, |w: WindowPosition| enc_window_position(w)))) by {
        reveal_with_fuel(jv_get, 23);
    }
    assert(jv_get(ps, "window_size"@) == Some(enc_opt(c.window_size, |w: WindowSize| enc_window_size(w)))) by {
        reveal_with_fuel(jv_get, 23);
    }
    assert(jv_get(ps, "click_through"@) == Some(JsonVal::Bool(c.click_through))) by {
        reveal_with_fuel(jv_get, 23);
    }
    assert(jv_get(ps, "compact_mode"@) == Some(JsonVal::Bool(c.compact_mode))) by {
        reveal_with_fuel(jv_get, 23);
    }
    assert(jv_get(ps, "coach_only_mode"@) == Some(JsonVal::Bool(c.coach_only_mode))) by {
        reveal_with_fuel(jv_get, 23);
    }
    assert(jv_get(ps, "auto_advance"@) == Some(enc_auto_advance(c.auto_advance))) by {
        reveal_with_fuel(jv_get, 23);
    }
    assert(jv_get(ps, "filter_civilization"@) == Some(enc_opt_str(c.filter_civilization))) by {
        reveal_with_fuel(jv_get, 23);
    }
    assert(jv_get(ps, "filter_difficulty"@) == Some(enc_opt_str(c.filter_difficulty))) by {
        reveal_with_fuel(jv_get, 23);
    }
    assert(jv_get(ps, "overlay_position"@) == Some(JsonVal::Str(c.overlay_position))) by {
        reveal_with_fuel(jv_get, 23);
    }
    assert(jv_get(ps, "floating_style"@) == Some(JsonVal::Bool(c.floating_style))) by {
        reveal_with_fuel(jv_get, 23);
    }
    assert(jv_get(ps, "voice"@) == Some(enc_opt(c.voice, |v: VoiceConfig| enc_voice(v)))) by {
        reveal_with_fuel(jv_get, 23);
    }
    assert(jv_get(ps, "reminders"@) == Some(enc_opt(c.reminders, |r: ReminderConfig| enc_reminders(r)))) by {
        reveal_with_fuel(jv_get, 23);
    }
    assert(jv_get(ps, "upgradeBadges"@) == Some(enc_opt(c.upgrade_badges, |b: UpgradeBadgesConfigV| enc_badges(b)))) by {
        reveal_with_fuel(jv_get, 23);
    }
    assert(jv_get(ps, "timerDrift"@) == Some(enc_opt(c.timer_drift, |t: TimerDriftConfig| enc_timer_drift(t)))) by {
        reveal_with_fuel(jv_get, 23);
    }
    assert(jv_get(ps, "telemetry"@) == Some(enc_opt(c.telemetry, |t: TelemetryConfig| enc_telemetry(t)))) by {
        reveal_with_fuel(jv_get, 23);
    }
    lemma_rt_hotkeys(c.hotkeys);
    match c.window_position {
        Some(w) => {
            lemma_rt_window_position(w);
        },
        None => {},
    }
    match c.window_size {
        Some(w) => {
            lemma_rt_window_size(w);
        },
        None => {},
    }
    lemma_rt_auto_advance(c.auto_advance);
    match c.voice {
        Some(v) => {
            lemma_rt_voice(v);
        },
        None => {},
    }
    match c.reminders {
        Some(r) => {
            lemma_rt_reminders(r);
        },
        None => {},
    }
    match c.upgrade_badges {
        Some(b) => {
            lemma_rt_badges(b);
        },
        None => {},
    }
    match c.timer_drift {
        Some(t) => {
            lemma_rt_timer_drift(t);
        },
        None => {},
    }
    match c.telemetry {
        Some(t) => {
            lemma_rt_telemetry(t);
        },
        None => {},
    }
}

/// Round trip: parsing the serialization of any well-formed configuration
/// yields the configuration back, field for field.
pub proof fn lemma_app_config_round_trip(c: AppConfigV)
    requires
        c.wf(),
    ensures
        spec_parse_app_config(spec_ser_app_config(c)) == Some(c),
{
    lemma_enc_app_config_wf(c);
    lemma_json_round_trip(enc_app_config(c));
    lemma_rt_app_config(c);
}

} // verus!
