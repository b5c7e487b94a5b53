//! The compose engine: merges the default values of a template's inputs with
//! the caller's overrides, then has the template body rendered over the
//! merged values.

use crate::errors::{ErrorKind, ServiceError, ServiceErrorView, ServiceResult};
use crate::messages::{
    inputs_view, values_view, InputValue, InputValueView, TemplateInput, TemplateInputView,
};
use crate::service::guard::{engine_takes, is_taken};
use handlebars::{Handlebars, RenderError};
use std::collections::BTreeMap;
use vstd::prelude::*;

verus! {

/// The mapping after every entry of `writes` was written into `base`, first
/// to last: a later entry replaces an earlier one of the same name.
pub open spec fn write_all(
    base: Map<Seq<char>, Seq<char>>,
    writes: Seq<InputValueView>,
) -> Map<Seq<char>, Seq<char>>
    decreases writes.len(),
{
    if writes.len() == 0 {
        base
    } else {
        write_all(base, writes.drop_last()).insert(writes.last().name, writes.last().value)
    }
}

/// A default input read as the write of its default value.
pub open spec fn default_write(input: TemplateInputView) -> InputValueView {
    InputValueView { name: input.name, value: input.default_value }
}

/// The default values read as writes, in their order.
pub open spec fn default_writes(defaults: Seq<TemplateInputView>) -> Seq<InputValueView> {
    defaults.map_values(|d: TemplateInputView| default_write(d))
}

/// The values that a template is rendered over: every default is written
/// first, then every override.
pub open spec fn merged_values(
    defaults: Seq<TemplateInputView>,
    overrides: Seq<InputValueView>,
) -> Map<Seq<char>, Seq<char>> {
    write_all(write_all(Map::empty(), default_writes(defaults)), overrides)
}

/// No two entries have the same name.
pub open spec fn distinct_names(entries: Seq<InputValueView>) -> bool {
    forall|i: int, j: int|
        0 <= i < j < entries.len() ==> (#[trigger] entries[i]).name != (#[trigger] entries[j]).name
}

/// The value of the last entry named `name`, if there is one.
pub open spec fn last_write(writes: Seq<InputValueView>, name: Seq<char>) -> Option<Seq<char>>
    decreases writes.len(),
{
    if writes.len() == 0 {
        None
    } else if writes.last().name == name {
        Some(writes.last().value)
    } else {
        last_write(writes.drop_last(), name)
    }
}

/// Writing a sequence leaves each name with its last write, and every other
/// name as the base had it.
pub proof fn lemma_write_all_lookup(
    base: Map<Seq<char>, Seq<char>>,
    writes: Seq<InputValueView>,
    name: Seq<char>,
)
    ensures
        last_write(writes, name) matches Some(value) ==> write_all(base, writes).contains_key(name)
            && write_all(base, writes)[name] == value,
        last_write(writes, name) is None ==> (write_all(base, writes).contains_key(name)
            <==> base.contains_key(name)),
        last_write(writes, name) is None && base.contains_key(name) ==> write_all(base, writes)[name]
            == base[name],
    decreases writes.len(),
{
    if writes.len() > 0 {
        lemma_write_all_lookup(base, writes.drop_last(), name);
    }
}

/// In a list of distinct names, the last write of a name is the one entry
/// that has it.
proof fn lemma_last_write_distinct(entries: Seq<InputValueView>, i: int)
    requires
        distinct_names(entries),
        0 <= i < entries.len(),
    ensures
        last_write(entries, entries[i].name) == Some(entries[i].value),
    decreases entries.len(),
{
    if i < entries.len() - 1 {
        let front = entries.drop_last();
        assert(entries.last() == entries[entries.len() - 1]);
        assert(entries[i].name != entries[entries.len() - 1].name);
        assert(distinct_names(front)) by {
            assert forall|a: int, b: int| 0 <= a < b < front.len() implies (#[trigger] front[a]).name
                != (#[trigger] front[b]).name by {
                assert(front[a] == entries[a]);
                assert(front[b] == entries[b]);
            }
        }
        assert(front[i] == entries[i]);
        lemma_last_write_distinct(front, i);
    }
}

/// A name whose last write is known occurs in the list.
proof fn lemma_last_write_found(entries: Seq<InputValueView>, name: Seq<char>) -> (i: int)
    requires
        last_write(entries, name) is Some,
    ensures
        0 <= i < entries.len(),
        entries[i].name == name,
        last_write(entries, name) == Some(entries[i].value),
    decreases entries.len(),
{
    if entries.last().name == name {
        entries.len() - 1
    } else {
        let i = lemma_last_write_found(entries.drop_last(), name);
        assert(entries.drop_last()[i] == entries[i]);
        i
    }
}

/// The mapping that a list of entries stands for.
pub open spec fn entries_map(entries: Seq<InputValueView>) -> Map<Seq<char>, Seq<char>> {
    write_all(Map::empty(), entries)
}

/// Writes `value` under `name`: replaces the value of the entry that has the
/// name, or appends a new entry.
fn upsert(entries: &mut Vec<InputValue>, name: String, value: String)
    requires
        distinct_names(values_view(old(entries)@)),
    ensures
        distinct_names(values_view(final(entries)@)),
        entries_map(values_view(final(entries)@)) == entries_map(values_view(old(entries)@)).insert(
            name@,
            value@,
        ),
{
    let ghost before = values_view(entries@);
    let mut at: usize = 0;
    while at < entries.len()
        invariant
            at <= entries.len(),
            values_view(entries@) == before,
            forall|i: int| 0 <= i < at ==> (#[trigger] before[i]).name != name@,
        ensures
            at < entries.len() ==> before[at as int].name == name@,
        decreases entries.len() - at,
    {
        if entries[at].name == name {
            assert(before[at as int] == entries@[at as int]@);
            break ;
        }
        at += 1;
    }
    let ghost written = InputValueView { name: name@, value: value@ };
    if at < entries.len() {
        assert(before[at as int].name == name@);
        entries.set(at, InputValue { name, value });
        let ghost after = values_view(entries@);
        assert(after == before.update(at as int, written));
        assert(distinct_names(after)) by {
            assert forall|i: int, j: int| 0 <= i < j < after.len() implies (#[trigger] after[i]).name
                != (#[trigger] after[j]).name by {
                assert(after[i].name == before[i].name);
                assert(after[j].name == before[j].name);
            }
        }
        assert(entries_map(after) == entries_map(before).insert(name@, value@)) by {
            assert forall|key: Seq<char>|
                entries_map(after).contains_key(key) == #[trigger] entries_map(before).insert(
                    name@,
                    value@,
                ).contains_key(key) && (entries_map(after).contains_key(key) ==> entries_map(
                    after,
                )[key] == entries_map(before).insert(name@, value@)[key]) by {
                lemma_write_all_lookup(Map::empty(), after, key);
                lemma_write_all_lookup(Map::empty(), before, key);
                if key == name@ {
                    lemma_last_write_distinct(after, at as int);
                } else if last_write(before, key) is Some {
                    let i = lemma_last_write_found(before, key);
                    assert(after[i] == before[i]);
                    lemma_last_write_distinct(after, i);
                } else if last_write(after, key) is Some {
                    let i = lemma_last_write_found(after, key);
                    assert(after[i] == before[i]);
                    lemma_last_write_distinct(before, i);
                }
            }
            assert(entries_map(after) =~= entries_map(before).insert(name@, value@));
        }
    } else {
        entries.push(InputValue { name, value });
        let ghost after = values_view(entries@);
        assert(after == before.push(written));
        assert(after.drop_last() == before);
        assert(distinct_names(after)) by {
            assert forall|i: int, j: int| 0 <= i < j < after.len() implies (#[trigger] after[i]).name
                != (#[trigger] after[j]).name by {
                if j < before.len() {
                    assert(after[i] == before[i]);
                    assert(after[j] == before[j]);
                } else {
                    assert(after[i] == before[i]);
                }
            }
        }
    }
}

/// Merges the default values with the overrides: every default is written
/// first, then every override, and a later write of a name replaces an
/// earlier one. The result has one entry for each name.
pub fn merge_inputs(default_inputs: &Vec<TemplateInput>, overrides: &Vec<InputValue>) -> (merged:
    Vec<InputValue>)
    ensures
        distinct_names(values_view(merged@)),
        entries_map(values_view(merged@)) == merged_values(
            inputs_view(default_inputs@),
            values_view(overrides@),
        ),
{
    let ghost defaults = default_writes(inputs_view(default_inputs@));
    let ghost writes = values_view(overrides@);
    let mut merged: Vec<InputValue> = Vec::new();
    let mut at: usize = 0;
    while at < default_inputs.len()
        invariant
            at <= default_inputs.len(),
            defaults == default_writes(inputs_view(default_inputs@)),
            distinct_names(values_view(merged@)),
            entries_map(values_view(merged@)) == write_all(Map::empty(), defaults.take(at as int)),
        decreases default_inputs.len() - at,
    {
        let input = &default_inputs[at];
        proof {
            let next = defaults.take(at + 1);
            assert(next.drop_last() == defaults.take(at as int));
            assert(next.last() == default_write(input@));
        }
        upsert(&mut merged, input.name.clone(), input.default_value.clone());
        at += 1;
    }
    assert(defaults.take(at as int) == defaults);
    let mut at: usize = 0;
    while at < overrides.len()
        invariant
            at <= overrides.len(),
            writes == values_view(overrides@),
            distinct_names(values_view(merged@)),
            entries_map(values_view(merged@)) == write_all(
                write_all(Map::empty(), defaults),
                writes.take(at as int),
            ),
        decreases overrides.len() - at,
    {
        let value = &overrides[at];
        proof {
            let next = writes.take(at + 1);
            assert(next.drop_last() == writes.take(at as int));
            assert(next.last() == value@);
        }
        upsert(&mut merged, value.name.clone(), value.value.clone());
        at += 1;
    }
    assert(writes.take(at as int) == writes);
    merged
}

/// `handlebars::RenderError`, the error of the template engine. Its content
/// is not looked at: any of them is reported as the same failure.
#[verifier::external_type_specification]
#[verifier::external_body]
pub struct ExRenderError(RenderError);

/// Renders `body` over `values` with `Handlebars::render_template`, on a
/// registry as `Handlebars::new` makes it: the built-in helpers, HTML
/// escaping, no strict mode. The registry parses the body and evaluates it on
/// the values, which reach it as a map from name to value.
///
/// Nothing is claimed of the outcome. It is the text or the error of the
/// engine, and which of them comes back does not depend on the arguments
/// alone: the parser gives up where little stack is left, and by a limit
/// that is set for the whole process.
///
/// The engine parses and evaluates by recursion, and on a body that nests
/// or includes partials without end it uses up the stack. Such bodies are
/// kept away from it: only a body that [`engine_takes`] is handed on.
#[verifier::external_body]
fn render_template(body: &str, values: &Vec<InputValue>) -> (outcome: Result<String, RenderError>)
    requires
        engine_takes(body@),
        distinct_names(values_view(values@)),
{
    let data: BTreeMap<&str, &str> = values.iter().map(
        |v| (v.name.as_str(), v.value.as_str()),
    ).collect();
    Handlebars::new().render_template(body, &data)
}

/// The error that a failed rendering is reported as.
pub open spec fn render_failure() -> ServiceErrorView {
    ServiceErrorView { kind: ErrorKind::Internal, message: "Failed to render template"@ }
}

/// Turns what the engine returned into the service's result: the text as it
/// is, any engine error into the one internal error.
pub fn render_outcome(outcome: Result<String, RenderError>) -> (r: ServiceResult<String>)
    ensures
        outcome matches Ok(text) ==> r == Ok::<String, ServiceError>(text),
        outcome is Err ==> (r matches Err(e) && e@ == render_failure()),
{
    match outcome {
        Ok(text) => Ok(text),
        Err(_) => Err(
            ServiceError::InternalServerErrorWithContext("Failed to render template".to_owned()),
        ),
    }
}

/// Renders a template body over the merge of its default inputs and the
/// caller's overrides.
///
/// The engine is given the body and the merged values of [`merge_inputs`],
/// and what it returns is reported as [`render_outcome`] says: its text as
/// it is, any failure as the one internal error. A body that the engine is
/// not given is reported as that error as well.
pub fn compose(template_body: &str, default_inputs: &Vec<TemplateInput>, overrides: &Vec<
    InputValue,
>) -> (r: ServiceResult<String>)
    ensures
        !engine_takes(template_body@) ==> (r matches Err(e) && e@ == render_failure()),
        r matches Err(e) ==> e@ == render_failure(),
{
    if !is_taken(template_body) {
        return Err(
            ServiceError::InternalServerErrorWithContext("Failed to render template".to_owned()),
        );
    }
    let merged = merge_inputs(default_inputs, overrides);
    render_outcome(render_template(template_body, &merged))
}

} // verus!
