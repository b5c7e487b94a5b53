//! What holds of the stores whatever they contain: a created template is
//! found again, a removed one is gone together with its inputs, names stay
//! unique, and pages partition the table.

use crate::messages::TemplateInputView;
use crate::repository::database::{
    lemma_filter_all, lemma_filter_inputs, lemma_filter_none, lemma_with_inputs,
    lemma_with_template, lemma_without_template, new_input_rows, not_owned_by, owned_by, page,
    DatabaseView,
};
use vstd::prelude::*;

verus! {

/// Under the constraints at most one row has a given name.
pub proof fn lemma_one_template_per_name(db: DatabaseView, i: int, j: int)
    requires
        db.wf(),
        0 <= i < db.templates.len(),
        0 <= j < db.templates.len(),
        db.templates[i].name == db.templates[j].name,
    ensures
        i == j,
{
    if i < j {
        assert(db.templates[i].name != db.templates[j].name);
    } else if j < i {
        assert(db.templates[j].name != db.templates[i].name);
    }
}

/// The row found under a name is the row at any position that has the name.
pub proof fn lemma_template_at(db: DatabaseView, at: int)
    requires
        db.wf(),
        0 <= at < db.templates.len(),
    ensures
        db.template_named(db.templates[at].name) == Some(db.templates[at]),
        db.position(db.templates[at].name) == at,
{
    let name = db.templates[at].name;
    assert(db.has_name(name));
    lemma_one_template_per_name(db, db.position(name), at);
}

/// No stored input belongs to a template that is not stored.
pub proof fn lemma_no_inputs_without_template(db: DatabaseView, template_id: i64)
    requires
        db.wf(),
        !db.has_id(template_id),
    ensures
        db.inputs_of(template_id) == Seq::<crate::repository::input::InputEntityView>::empty(),
{
    assert forall|i: int| 0 <= i < db.inputs.len() implies !owned_by(template_id)(
        #[trigger] db.inputs[i],
    ) by {
        assert(db.has_id(db.inputs[i].template_id));
    }
    lemma_filter_none(db.inputs, owned_by(template_id));
}

/// Round trip: once a template is created, it is found under its name, with
/// the description and body it was given and exactly the inputs it was
/// given, in their order.
pub proof fn lemma_get_after_create(
    db: DatabaseView,
    name: Seq<char>,
    description: Seq<char>,
    body: Seq<char>,
    inputs: Seq<TemplateInputView>,
)
    requires
        db.wf(),
        db.create_error(name, inputs.len()) is None,
    ensures
        db.with_created(name, description, body, inputs).wf(),
        db.with_created(name, description, body, inputs).get(name) == Some(
            db.created(name, description, body, inputs),
        ),
{
    let id = db.next_template_id;
    let row = db.new_template(name, description, body);
    let fresh = new_input_rows(db.next_input_id, inputs, id);
    let mid = db.with_template(name, description, body);
    let after = db.with_created(name, description, body, inputs);
    lemma_with_template(db, name, description, body);
    assert(mid.templates[db.templates.len() as int].id == id);
    assert(mid.has_id(id));
    lemma_with_inputs(mid, inputs, id);
    assert(after.templates[db.templates.len() as int] == row);
    lemma_template_at(after, db.templates.len() as int);
    assert(!db.has_id(id)) by {
        if db.has_id(id) {
            let k = choose|k: int| 0 <= k < db.templates.len() && (#[trigger] db.templates[k]).id == id;
            assert(db.templates[k].id < db.next_template_id);
        }
    }
    lemma_no_inputs_without_template(db, id);
    assert forall|i: int| 0 <= i < fresh.len() implies owned_by(id)(#[trigger] fresh[i]) by {}
    lemma_filter_all(fresh, owned_by(id));
    Seq::filter_distributes_over_add(db.inputs, fresh, owned_by(id));
    assert(after.inputs_of(id) == fresh);
}

/// Deletion cascades: once a template is removed, nothing is found under
/// its name and no input of it is left.
pub proof fn lemma_get_after_remove(db: DatabaseView, name: Seq<char>)
    requires
        db.wf(),
        db.has_name(name),
    ensures
        db.without_template(name).wf(),
        db.without_template(name).get(name) is None,
        db.without_template(name).inputs_of(db.template_named(name)->0.id) == Seq::<
            crate::repository::input::InputEntityView,
        >::empty(),
        db.without_template(name).inputs_named(name) == Seq::<
            crate::repository::input::InputEntityView,
        >::empty(),
        db.without_template(name).templates.len() == db.templates.len() - 1,
{
    let at = db.position(name);
    let gone = db.templates[at];
    let after = db.without_template(name);
    lemma_without_template(db, name);
    assert(!after.has_name(name)) by {
        if after.has_name(name) {
            let i = after.position(name);
            let k = if i < at {
                i
            } else {
                i + 1
            };
            assert(after.templates[i] == db.templates[k]);
            lemma_one_template_per_name(db, k, at);
        }
    }
    lemma_filter_inputs(db.inputs, not_owned_by(gone.id));
    assert forall|i: int| 0 <= i < after.inputs.len() implies !owned_by(gone.id)(
        #[trigger] after.inputs[i],
    ) by {
        assert(not_owned_by(gone.id)(after.inputs[i]));
    }
    lemma_filter_none(after.inputs, owned_by(gone.id));
}

/// Creating a template and removing it again gives back the rows that were
/// stored before; only the ids that were handed out are spent.
pub proof fn lemma_remove_after_create(
    db: DatabaseView,
    name: Seq<char>,
    description: Seq<char>,
    body: Seq<char>,
    inputs: Seq<TemplateInputView>,
)
    requires
        db.wf(),
        db.create_error(name, inputs.len()) is None,
    ensures
        db.with_created(name, description, body, inputs).without_template(name) == (DatabaseView {
            next_template_id: (db.next_template_id + 1) as i64,
            next_input_id: (db.next_input_id + inputs.len()) as i64,
            ..db
        }),
{
    let id = db.next_template_id;
    let last = db.templates.len() as int;
    let fresh = new_input_rows(db.next_input_id, inputs, id);
    let created = db.with_created(name, description, body, inputs);
    lemma_get_after_create(db, name, description, body, inputs);
    assert(created.templates[last].name == name);
    lemma_template_at(created, last);
    assert(created.templates.remove(last) == db.templates);
    assert forall|i: int| 0 <= i < db.inputs.len() implies not_owned_by(id)(
        #[trigger] db.inputs[i],
    ) by {
        assert(db.has_id(db.inputs[i].template_id));
        let k = choose|k: int|
            0 <= k < db.templates.len() && (#[trigger] db.templates[k]).id
                == db.inputs[i].template_id;
        assert(db.templates[k].id < db.next_template_id);
    }
    lemma_filter_all(db.inputs, not_owned_by(id));
    assert forall|i: int| 0 <= i < fresh.len() implies !not_owned_by(id)(#[trigger] fresh[i]) by {}
    lemma_filter_none(fresh, not_owned_by(id));
    Seq::filter_distributes_over_add(db.inputs, fresh, not_owned_by(id));
    assert(created.inputs.filter(not_owned_by(id)) == db.inputs);
}

/// Removing a template leaves every other template as it was, with its
/// inputs.
pub proof fn lemma_remove_keeps_others(db: DatabaseView, name: Seq<char>, other: Seq<char>)
    requires
        db.wf(),
        other != name,
    ensures
        db.without_template(name).get(other) == db.get(other),
{
    if db.has_name(name) {
        let at = db.position(name);
        let gone = db.templates[at];
        let after = db.without_template(name);
        lemma_without_template(db, name);
        assert forall|i: int| 0 <= i < after.templates.len() implies (#[trigger] after.templates[i])
            == db.templates[if i < at {
            i
        } else {
            i + 1
        }] by {}
        if db.has_name(other) {
            let k = db.position(other);
            let i = if k < at {
                k
            } else {
                k - 1
            };
            assert(after.templates[i] == db.templates[k]);
            lemma_template_at(after, i);
            let row = db.templates[k];
            assert(row.id != gone.id) by {
                if k < at {
                    assert(db.templates[k].id < db.templates[at].id);
                } else {
                    assert(db.templates[at].id < db.templates[k].id);
                }
            }
            lemma_filter_twice(db.inputs, gone.id, row.id);
        } else {
            if after.has_name(other) {
                let i = after.position(other);
                assert(db.templates[if i < at {
                    i
                } else {
                    i + 1
                }].name == other);
            }
        }
    }
}

/// Dropping the inputs of one template does not touch those of another.
pub proof fn lemma_filter_twice(
    rows: Seq<crate::repository::input::InputEntityView>,
    gone: i64,
    kept: i64,
)
    requires
        gone != kept,
    ensures
        rows.filter(not_owned_by(gone)).filter(owned_by(kept)) == rows.filter(owned_by(kept)),
    decreases rows.len(),
{
    reveal(Seq::filter);
    if rows.len() > 0 {
        let front = rows.drop_last();
        let last = rows.last();
        lemma_filter_twice(front, gone, kept);
        if not_owned_by(gone)(last) {
            front.filter(not_owned_by(gone)).lemma_filter_push(last, owned_by(kept));
        }
    }
}

/// Deleting the inputs of a template before the template itself comes to
/// the same as deleting the template.
pub proof fn lemma_remove_inputs_first(db: DatabaseView, name: Seq<char>)
    requires
        db.wf(),
        db.has_name(name),
    ensures
        db.without_inputs(db.template_named(name)->0.id).without_template(name)
            == db.without_template(name),
{
    let gone = db.templates[db.position(name)];
    let first = db.without_inputs(gone.id);
    assert(first.templates == db.templates);
    assert(first.has_name(name));
    lemma_filter_inputs(db.inputs, not_owned_by(gone.id));
    lemma_filter_all(first.inputs, not_owned_by(gone.id));
}

/// A page of templates with their inputs is the page of the rows, each
/// joined with its inputs.
pub proof fn lemma_page_of_entities(db: DatabaseView, offset: i64, limit: i64)
    ensures
        page(db.entities(), offset, limit).len() == page(db.templates, offset, limit).len(),
        forall|i: int|
            0 <= i < page(db.templates, offset, limit).len() ==> #[trigger] page(
                db.entities(),
                offset,
                limit,
            )[i] == db.entity(page(db.templates, offset, limit)[i]),
{
    assert(db.entities().len() == db.templates.len());
}

/// A page holds the rows that are left after the offset, up to the limit.
pub proof fn lemma_page_len<A>(rows: Seq<A>, offset: i64, limit: i64)
    requires
        0 <= offset,
        0 <= limit,
    ensures
        page(rows, offset, limit).len() == if offset >= rows.len() {
            0
        } else if offset + limit > rows.len() {
            rows.len() - offset
        } else {
            limit as int
        },
        forall|i: int|
            0 <= i < page(rows, offset, limit).len() ==> page(rows, offset, limit)[i] == rows[offset
                + i],
{
}

/// Two pages that follow each other make up the one page that spans both.
pub proof fn lemma_pages_join<A>(rows: Seq<A>, offset: i64, first: i64, second: i64)
    requires
        0 <= offset,
        0 <= first,
        0 <= second,
        offset + first <= i64::MAX,
        first + second <= i64::MAX,
    ensures
        page(rows, offset, first) + page(rows, (offset + first) as i64, second) == page(
            rows,
            offset,
            (first + second) as i64,
        ),
{
}

} // verus!
