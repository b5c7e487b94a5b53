//! What holds of the service and of the compose engine on every input.

use crate::messages::{InputValueView, TemplateInputView};
use crate::repository::database::DatabaseView;
use crate::repository::laws::lemma_get_after_create;
use crate::service::compose::{
    default_writes, last_write, lemma_write_all_lookup, merged_values, write_all,
};
use crate::service::templating::{
    add_template_refusal, name_taken_error, no_inputs_error,
};
use vstd::prelude::*;

verus! {

/// An override wins: a name that is overridden is rendered with the value
/// of its last override, whatever its default.
pub proof fn lemma_override_wins(
    defaults: Seq<TemplateInputView>,
    overrides: Seq<InputValueView>,
    name: Seq<char>,
)
    requires
        last_write(overrides, name) is Some,
    ensures
        merged_values(defaults, overrides).contains_key(name),
        Some(merged_values(defaults, overrides)[name]) == last_write(overrides, name),
{
    lemma_write_all_lookup(write_all(Map::empty(), default_writes(defaults)), overrides, name);
}

/// A default holds where nothing overrides it: such a name is rendered with
/// the value of its last default.
pub proof fn lemma_default_used(
    defaults: Seq<TemplateInputView>,
    overrides: Seq<InputValueView>,
    name: Seq<char>,
)
    requires
        last_write(overrides, name) is None,
        last_write(default_writes(defaults), name) is Some,
    ensures
        merged_values(defaults, overrides).contains_key(name),
        Some(merged_values(defaults, overrides)[name]) == last_write(
            default_writes(defaults),
            name,
        ),
{
    let seeded = write_all(Map::empty(), default_writes(defaults));
    lemma_write_all_lookup(Map::empty(), default_writes(defaults), name);
    lemma_write_all_lookup(seeded, overrides, name);
}

/// A name that is neither a default nor an override has no value.
pub proof fn lemma_unknown_name_unset(
    defaults: Seq<TemplateInputView>,
    overrides: Seq<InputValueView>,
    name: Seq<char>,
)
    requires
        last_write(overrides, name) is None,
        last_write(default_writes(defaults), name) is None,
    ensures
        !merged_values(defaults, overrides).contains_key(name),
{
    let seeded = write_all(Map::empty(), default_writes(defaults));
    lemma_write_all_lookup(Map::empty(), default_writes(defaults), name);
    lemma_write_all_lookup(seeded, overrides, name);
}

/// A template without inputs is refused as a bad request in every state,
/// taken name or not.
pub proof fn lemma_no_inputs_refused(db: DatabaseView, name: Seq<char>)
    ensures
        add_template_refusal(db, name, 0) == Some(no_inputs_error()),
{
}

/// Once a template is created, creating one under the same name is a
/// conflict, whatever else the second request holds.
pub proof fn lemma_second_add_conflicts(
    db: DatabaseView,
    name: Seq<char>,
    description: Seq<char>,
    body: Seq<char>,
    inputs: Seq<TemplateInputView>,
    count: nat,
)
    requires
        db.wf(),
        add_template_refusal(db, name, inputs.len()) is None,
        count > 0,
    ensures
        add_template_refusal(db.with_created(name, description, body, inputs), name, count)
            == Some(name_taken_error()),
{
    lemma_get_after_create(db, name, description, body, inputs);
}

} // verus!
