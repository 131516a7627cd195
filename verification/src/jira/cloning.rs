//! Which fields of an issue a clone copies, and under which names.
use crate::text;
use crate::text::{str_equal, vec_contains_str};
use vstd::prelude::*;
use vstd::string::*;

verus! {

/// How the fields of the original issue map onto the clone.
pub struct JiraFieldMapping {
    /// The fields to copy; when empty, every field of the original except
    /// the excluded ones and the system fields.
    pub copy_fields: Vec<String>,
    /// Fields never copied.
    pub exclude_fields: Vec<String>,
    /// Renamings of fields: (field of the original, field of the clone). The
    /// first renaming of a field applies.
    pub custom_field_mapping: Option<Vec<(String, String)>>,
}

/// The system fields that a clone never takes over on its own.
pub open spec fn system_fields() -> Seq<Seq<char>> {
    seq![
        "assignee"@,
        "reporter"@,
        "created"@,
        "updated"@,
        "status"@,
        "resolution"@,
        "resolutiondate"@,
        "worklog"@,
        "attachment"@,
        "subtasks"@,
        "issuelinks"@,
        "watches"@,
        "votes"@,
    ]
}

/// The fields among `fields` that are neither excluded nor (when `skip_system`)
/// system fields, in order.
pub open spec fn kept_fields(
    fields: Seq<Seq<char>>,
    excluded: Seq<Seq<char>>,
    skip_system: bool,
) -> Seq<Seq<char>>
    decreases fields.len(),
{
    if fields.len() == 0 {
        Seq::empty()
    } else {
        let rest = kept_fields(fields.drop_last(), excluded, skip_system);
        let f = fields.last();
        if excluded.contains(f) || (skip_system && system_fields().contains(f)) {
            rest
        } else {
            rest.push(f)
        }
    }
}

/// The fields a clone considers copying: the requested ones, or when none
/// were requested, those of the original issue; never the excluded ones.
pub open spec fn fields_to_copy(original_fields: Seq<Seq<char>>, m: JiraFieldMapping) -> Seq<Seq<char>> {
    if m.copy_fields@.len() == 0 {
        kept_fields(original_fields, text::views(m.exclude_fields@), true)
    } else {
        kept_fields(text::views(m.copy_fields@), text::views(m.exclude_fields@), false)
    }
}

/// The name a field takes in the clone: its first renaming, or its own name.
pub open spec fn renamed(field: Seq<char>, renamings: Seq<(String, String)>) -> Seq<char>
    decreases renamings.len(),
{
    if renamings.len() == 0 {
        field
    } else if renamings[0].0@ == field {
        renamings[0].1@
    } else {
        renamed(field, renamings.skip(1))
    }
}

/// The clone's name for a field under a mapping.
pub open spec fn target_field(field: Seq<char>, m: JiraFieldMapping) -> Seq<char> {
    match m.custom_field_mapping {
        Some(r) => renamed(field, r@),
        None => field,
    }
}

/// The copies a clone makes, as (field of the original, field of the
/// clone), in order: a field is copied when the original has it and its
/// target is not yet set (by the clone's own data or by an earlier copy).
pub open spec fn copy_plan(
    fields: Seq<Seq<char>>,
    original_fields: Seq<Seq<char>>,
    m: JiraFieldMapping,
    preset: Seq<Seq<char>>,
) -> Seq<(Seq<char>, Seq<char>)>
    decreases fields.len(),
{
    if fields.len() == 0 {
        Seq::empty()
    } else {
        let plan = copy_plan(fields.drop_last(), original_fields, m, preset);
        let f = fields.last();
        let t = target_field(f, m);
        if !original_fields.contains(f) || preset.contains(t) || plan.map_values(
            |p: (Seq<char>, Seq<char>)| p.1,
        ).contains(t) {
            plan
        } else {
            plan.push((f, t))
        }
    }
}

/// The system fields as strings.
fn system_field_names() -> (r: Vec<String>)
    ensures
        text::views(r@) == system_fields(),
{
    let mut v: Vec<String> = Vec::new();
    v.push(String::from_str("assignee"));
    v.push(String::from_str("reporter"));
    v.push(String::from_str("created"));
    v.push(String::from_str("updated"));
    v.push(String::from_str("status"));
    v.push(String::from_str("resolution"));
    v.push(String::from_str("resolutiondate"));
    v.push(String::from_str("worklog"));
    v.push(String::from_str("attachment"));
    v.push(String::from_str("subtasks"));
    v.push(String::from_str("issuelinks"));
    v.push(String::from_str("watches"));
    v.push(String::from_str("votes"));
    assert(text::views(v@) =~= system_fields());
    v
}

/// The fields among `fields` that are kept.
fn keep_fields(fields: &Vec<String>, excluded: &Vec<String>, skip_system: bool) -> (r: Vec<String>)
    ensures
        text::views(r@) == kept_fields(text::views(fields@), text::views(excluded@), skip_system),
{
    let system = system_field_names();
    let mut out: Vec<String> = Vec::new();
    let mut i: usize = 0;
    let ghost all = text::views(fields@);
    while i < fields.len()
        invariant
            all == text::views(fields@),
            text::views(system@) == system_fields(),
            i <= fields@.len(),
            text::views(out@) == kept_fields(all.take(i as int), text::views(excluded@), skip_system),
        decreases fields@.len() - i,
    {
        let f = fields[i].as_str();
        assert(all.take(i + 1).drop_last() =~= all.take(i as int));
        assert(all.take(i + 1).last() == f@);
        if !(vec_contains_str(excluded, f) || (skip_system && vec_contains_str(&system, f))) {
            let ghost before = out@;
            out.push(String::from_str(f));
            assert(text::views(out@) =~= text::views(before).push(f@));
        }
        i = i + 1;
    }
    assert(all.take(i as int) =~= all);
    out
}

/// The clone's name for a field.
fn target_name(field: &str, m: &JiraFieldMapping) -> (r: String)
    ensures
        r@ == target_field(field@, *m),
{
    match &m.custom_field_mapping {
        None => String::from_str(field),
        Some(renamings) => {
            let mut i: usize = 0;
            assert(renamings@.skip(0) =~= renamings@);
            while i < renamings.len()
                invariant
                    i <= renamings@.len(),
                    target_field(field@, *m) == renamed(field@, renamings@),
                    renamed(field@, renamings@) == renamed(field@, renamings@.skip(i as int)),
                decreases renamings@.len() - i,
            {
                assert(renamings@.skip(i as int).skip(1) =~= renamings@.skip(i + 1));
                assert(renamings@.skip(i as int)[0] == renamings@[i as int]);
                if str_equal(renamings[i].0.as_str(), field) {
                    return String::from_str(renamings[i].1.as_str());
                }
                i = i + 1;
            }
            assert(renamings@.skip(i as int).len() == 0);
            String::from_str(field)
        },
    }
}

/// Plans the copies of a clone. `original_fields` are the fields of the
/// original issue, in the order they are visited; `preset` are the fields
/// the clone's own data already sets.
pub fn plan_field_copies(original_fields: &Vec<String>, mapping: &JiraFieldMapping, preset: &Vec<String>) -> (r: Vec<
    (String, String),
>)
    ensures
        r@.map_values(|p: (String, String)| (p.0@, p.1@)) == copy_plan(
            fields_to_copy(text::views(original_fields@), *mapping),
            text::views(original_fields@),
            *mapping,
            text::views(preset@),
        ),
{
    let candidates = if mapping.copy_fields.len() == 0 {
        keep_fields(original_fields, &mapping.exclude_fields, true)
    } else {
        keep_fields(&mapping.copy_fields, &mapping.exclude_fields, false)
    };
    let ghost fields = text::views(candidates@);
    let ghost present = text::views(original_fields@);
    let ghost pre = text::views(preset@);
    let mut plan: Vec<(String, String)> = Vec::new();
    let mut targets: Vec<String> = Vec::new();
    let mut i: usize = 0;
    while i < candidates.len()
        invariant
            fields == text::views(candidates@),
            present == text::views(original_fields@),
            pre == text::views(preset@),
            i <= candidates@.len(),
            plan@.map_values(|p: (String, String)| (p.0@, p.1@)) == copy_plan(fields.take(i as int), present, *mapping, pre),
            text::views(targets@) == copy_plan(fields.take(i as int), present, *mapping, pre).map_values(
                |p: (Seq<char>, Seq<char>)| p.1,
            ),
        decreases candidates@.len() - i,
    {
        let f = candidates[i].as_str();
        assert(fields.take(i + 1).drop_last() =~= fields.take(i as int));
        assert(fields.take(i + 1).last() == f@);
        if vec_contains_str(original_fields, f) {
            let t = target_name(f, mapping);
            if !vec_contains_str(preset, t.as_str()) && !vec_contains_str(&targets, t.as_str()) {
                let ghost before_plan = plan@;
                let ghost before_targets = targets@;
                plan.push((String::from_str(f), String::from_str(t.as_str())));
                targets.push(t);
                assert(plan@.map_values(|p: (String, String)| (p.0@, p.1@)) =~= before_plan.map_values(
                    |p: (String, String)| (p.0@, p.1@),
                ).push((f@, target_field(f@, *mapping))));
                assert(text::views(targets@) =~= text::views(before_targets).push(target_field(f@, *mapping)));
                assert(copy_plan(fields.take(i as int), present, *mapping, pre).push((f@, target_field(f@, *mapping))).map_values(
                    |p: (Seq<char>, Seq<char>)| p.1,
                ) =~= copy_plan(fields.take(i as int), present, *mapping, pre).map_values(
                    |p: (Seq<char>, Seq<char>)| p.1,
                ).push(target_field(f@, *mapping)));
            }
        }
        i = i + 1;
    }
    assert(fields.take(i as int) =~= fields);
    plan
}

/// What a clone copies is safe to copy: every copied field is a field of the
/// original issue, no copy overwrites a field the clone's own data sets, and
/// no two copies write the same field of the clone.
pub proof fn law_clone_copies_are_fresh(
    fields: Seq<Seq<char>>,
    original_fields: Seq<Seq<char>>,
    m: JiraFieldMapping,
    preset: Seq<Seq<char>>,
)
    ensures
        forall|i: int|
            0 <= i < copy_plan(fields, original_fields, m, preset).len() ==> {
                let p = #[trigger] copy_plan(fields, original_fields, m, preset)[i];
                &&& original_fields.contains(p.0)
                &&& !preset.contains(p.1)
                &&& p.1 == target_field(p.0, m)
            },
        forall|i: int, j: int|
            0 <= i < j < copy_plan(fields, original_fields, m, preset).len() ==> #[trigger] copy_plan(
                fields,
                original_fields,
                m,
                preset,
            )[i].1 != #[trigger] copy_plan(fields, original_fields, m, preset)[j].1,
    decreases fields.len(),
{
    if fields.len() > 0 {
        law_clone_copies_are_fresh(fields.drop_last(), original_fields, m, preset);
        let plan = copy_plan(fields.drop_last(), original_fields, m, preset);
        let f = fields.last();
        let t = target_field(f, m);
        let targets = plan.map_values(|p: (Seq<char>, Seq<char>)| p.1);
        if !(!original_fields.contains(f) || preset.contains(t) || targets.contains(t)) {
            let full = plan.push((f, t));
            assert(copy_plan(fields, original_fields, m, preset) == full);
            assert forall|i: int, j: int| 0 <= i < j < full.len() implies full[i].1 != full[j].1 by {
                if j == full.len() - 1 {
                    assert(targets[i] == plan[i].1);
                    if full[i].1 == full[j].1 {
                        assert(targets.contains(t));
                    }
                }
            }
        }
    }
}

proof fn lemma_kept_fields_members(fields: Seq<Seq<char>>, excluded: Seq<Seq<char>>, skip_system: bool)
    ensures
        forall|i: int|
            0 <= i < kept_fields(fields, excluded, skip_system).len() ==> {
                let f = #[trigger] kept_fields(fields, excluded, skip_system)[i];
                &&& fields.contains(f)
                &&& !excluded.contains(f)
                &&& skip_system ==> !system_fields().contains(f)
            },
    decreases fields.len(),
{
    if fields.len() > 0 {
        lemma_kept_fields_members(fields.drop_last(), excluded, skip_system);
        let rest = kept_fields(fields.drop_last(), excluded, skip_system);
        let kept = kept_fields(fields, excluded, skip_system);
        assert forall|i: int| 0 <= i < kept.len() implies fields.contains(#[trigger] kept[i]) && !excluded.contains(
            kept[i],
        ) && (skip_system ==> !system_fields().contains(kept[i])) by {
            if i < rest.len() {
                assert(kept[i] == rest[i]);
                let j = choose|j: int| 0 <= j < fields.drop_last().len() && fields.drop_last()[j] == rest[i];
                assert(fields[j] == rest[i]);
            } else {
                assert(kept[i] == fields.last());
                assert(fields[fields.len() - 1] == kept[i]);
            }
        }
    }
}

proof fn lemma_copy_plan_sources(
    fields: Seq<Seq<char>>,
    original_fields: Seq<Seq<char>>,
    m: JiraFieldMapping,
    preset: Seq<Seq<char>>,
)
    ensures
        forall|i: int|
            0 <= i < copy_plan(fields, original_fields, m, preset).len() ==> fields.contains(
                (#[trigger] copy_plan(fields, original_fields, m, preset)[i]).0,
            ),
    decreases fields.len(),
{
    if fields.len() > 0 {
        lemma_copy_plan_sources(fields.drop_last(), original_fields, m, preset);
        let plan = copy_plan(fields.drop_last(), original_fields, m, preset);
        let full = copy_plan(fields, original_fields, m, preset);
        assert forall|i: int| 0 <= i < full.len() implies fields.contains((#[trigger] full[i]).0) by {
            if i < plan.len() {
                assert(full[i] == plan[i]);
                let j = choose|j: int| 0 <= j < fields.drop_last().len() && fields.drop_last()[j] == plan[i].0;
                assert(fields[j] == plan[i].0);
            } else {
                assert(full[i].0 == fields.last());
                assert(fields[fields.len() - 1] == full[i].0);
            }
        }
    }
}

/// A clone never copies an excluded field, whether or not the fields to
/// copy are listed; without a list it never copies a system field either.
/// (The copies of `plan_field_copies` are this plan.)
pub proof fn law_excluded_fields_are_never_copied(
    original_fields: Seq<Seq<char>>,
    m: JiraFieldMapping,
    preset: Seq<Seq<char>>,
)
    ensures
        forall|i: int|
            0 <= i < copy_plan(fields_to_copy(original_fields, m), original_fields, m, preset).len() ==> {
                let p = #[trigger] copy_plan(fields_to_copy(original_fields, m), original_fields, m, preset)[i];
                &&& !text::views(m.exclude_fields@).contains(p.0)
                &&& m.copy_fields@.len() == 0 ==> !system_fields().contains(p.0)
                &&& m.copy_fields@.len() > 0 ==> text::views(m.copy_fields@).contains(p.0)
            },
{
    let fields = fields_to_copy(original_fields, m);
    let plan = copy_plan(fields, original_fields, m, preset);
    lemma_copy_plan_sources(fields, original_fields, m, preset);
    if m.copy_fields@.len() == 0 {
        lemma_kept_fields_members(original_fields, text::views(m.exclude_fields@), true);
    } else {
        lemma_kept_fields_members(text::views(m.copy_fields@), text::views(m.exclude_fields@), false);
    }
    assert forall|i: int| 0 <= i < plan.len() implies {
        let p = #[trigger] plan[i];
        &&& !text::views(m.exclude_fields@).contains(p.0)
        &&& m.copy_fields@.len() == 0 ==> !system_fields().contains(p.0)
        &&& m.copy_fields@.len() > 0 ==> text::views(m.copy_fields@).contains(p.0)
    } by {
        let j = choose|j: int| 0 <= j < fields.len() && fields[j] == plan[i].0;
        assert(fields[j] == plan[i].0);
    }
}

proof fn lemma_kept_fields_complete(fields: Seq<Seq<char>>, excluded: Seq<Seq<char>>, skip_system: bool, f: Seq<char>)
    requires
        fields.contains(f),
        !excluded.contains(f),
        skip_system ==> !system_fields().contains(f),
    ensures
        kept_fields(fields, excluded, skip_system).contains(f),
    decreases fields.len(),
{
    let kept = kept_fields(fields, excluded, skip_system);
    let rest = kept_fields(fields.drop_last(), excluded, skip_system);
    if fields.last() == f {
        assert(kept == rest.push(f));
        assert(kept[kept.len() - 1] == f);
    } else {
        let j = choose|j: int| 0 <= j < fields.len() && fields[j] == f;
        assert(j < fields.len() - 1);
        assert(fields.drop_last()[j] == f);
        lemma_kept_fields_complete(fields.drop_last(), excluded, skip_system, f);
        let k = choose|k: int| 0 <= k < rest.len() && rest[k] == f;
        if kept == rest {
        } else {
            assert(kept == rest.push(fields.last()));
            assert(kept[k] == f);
        }
    }
}

proof fn lemma_copy_plan_complete(
    fields: Seq<Seq<char>>,
    original_fields: Seq<Seq<char>>,
    m: JiraFieldMapping,
    preset: Seq<Seq<char>>,
    f: Seq<char>,
)
    requires
        fields.contains(f),
        original_fields.contains(f),
        !preset.contains(target_field(f, m)),
    ensures
        exists|i: int|
            0 <= i < copy_plan(fields, original_fields, m, preset).len() && (#[trigger] copy_plan(
                fields,
                original_fields,
                m,
                preset,
            )[i]).1 == target_field(f, m),
    decreases fields.len(),
{
    let t = target_field(f, m);
    let plan = copy_plan(fields.drop_last(), original_fields, m, preset);
    let full = copy_plan(fields, original_fields, m, preset);
    let targets = plan.map_values(|p: (Seq<char>, Seq<char>)| p.1);
    if fields.last() == f {
        if targets.contains(t) {
            let k = choose|k: int| 0 <= k < targets.len() && targets[k] == t;
            assert(full == plan);
            assert(full[k].1 == t);
        } else {
            assert(full == plan.push((f, t)));
            assert(full[full.len() - 1].1 == t);
        }
    } else {
        let j = choose|j: int| 0 <= j < fields.len() && fields[j] == f;
        assert(j < fields.len() - 1);
        assert(fields.drop_last()[j] == f);
        lemma_copy_plan_complete(fields.drop_last(), original_fields, m, preset, f);
        let k = choose|k: int| 0 <= k < plan.len() && plan[k].1 == t;
        if full == plan {
            assert(full[k].1 == t);
        } else {
            let lf = fields.last();
            assert(full == plan.push((lf, target_field(lf, m))));
            assert(full[k] == plan[k]);
        }
    }
}

/// A clone copies what it is asked to: every field that may be copied (a
/// listed field, or without a list any field of the original but the system
/// fields), that is not excluded and that the original has, ends up in the
/// clone under its target name, unless the clone's own data sets that name.
pub proof fn law_allowed_fields_are_copied(
    original_fields: Seq<Seq<char>>,
    m: JiraFieldMapping,
    preset: Seq<Seq<char>>,
    f: Seq<char>,
)
    requires
        original_fields.contains(f),
        !text::views(m.exclude_fields@).contains(f),
        m.copy_fields@.len() > 0 ==> text::views(m.copy_fields@).contains(f),
        m.copy_fields@.len() == 0 ==> !system_fields().contains(f),
        !preset.contains(target_field(f, m)),
    ensures
        exists|i: int|
            0 <= i < copy_plan(fields_to_copy(original_fields, m), original_fields, m, preset).len() && (
            #[trigger] copy_plan(fields_to_copy(original_fields, m), original_fields, m, preset)[i]).1
                == target_field(f, m),
{
    if m.copy_fields@.len() == 0 {
        lemma_kept_fields_complete(original_fields, text::views(m.exclude_fields@), true, f);
    } else {
        lemma_kept_fields_complete(text::views(m.copy_fields@), text::views(m.exclude_fields@), false, f);
    }
    lemma_copy_plan_complete(fields_to_copy(original_fields, m), original_fields, m, preset, f);
}

} // verus!
