//! The persisted state: the templates table, the inputs table, and the
//! constraints of the schema.
//!
//! A [`Database`] is only ever changed through the operations below, each of
//! which keeps the constraints: ids are unique within a table and are handed
//! out in ascending order, template names are unique, and every input
//! belongs to a stored template.

use crate::errors::StorageError;
use crate::messages::{inputs_view, TemplateInput, TemplateInputView};
use crate::repository::input::{input_rows_view, InputEntity, InputEntityView};
use crate::repository::template::{
    template_rows_view, TemplateEntity, TemplateEntityView, TemplateInputsView,
};
use vstd::prelude::*;

verus! {

/// The two tables, the next id of each, and the time that new rows are
/// stamped with.
pub struct Database {
    templates: Vec<TemplateEntity>,
    inputs: Vec<InputEntity>,
    next_template_id: i64,
    next_input_id: i64,
    clock: i64,
}

/// Mathematical model of a [`Database`].
#[verifier::ext_equal]
pub struct DatabaseView {
    pub templates: Seq<TemplateEntityView>,
    pub inputs: Seq<InputEntityView>,
    pub next_template_id: i64,
    pub next_input_id: i64,
    pub clock: i64,
}

/// Holds of the inputs that belong to the template with this id.
pub open spec fn owned_by(template_id: i64) -> spec_fn(InputEntityView) -> bool {
    |row: InputEntityView| row.template_id == template_id
}

/// Holds of the inputs that belong to any other template.
pub open spec fn not_owned_by(template_id: i64) -> spec_fn(InputEntityView) -> bool {
    |row: InputEntityView| row.template_id != template_id
}

/// The rows that `inputs` become when they are stored for a template: they
/// get consecutive ids from `first_id` on, in the order given.
pub open spec fn new_input_rows(
    first_id: i64,
    inputs: Seq<TemplateInputView>,
    template_id: i64,
) -> Seq<InputEntityView> {
    Seq::new(
        inputs.len(),
        |i: int|
            InputEntityView {
                id: (first_id + i) as i64,
                name: inputs[i].name,
                default_value: inputs[i].default_value,
                template_id,
            },
    )
}

/// Where a page starts in a table of `len` rows: after `offset` rows, a
/// negative offset counting as zero, and at the end at the latest.
pub open spec fn page_start(len: nat, offset: i64) -> int {
    if offset < 0 {
        0
    } else if offset > len {
        len as int
    } else {
        offset as int
    }
}

/// Where a page ends in a table of `len` rows: `limit` rows after its start,
/// a negative limit counting as zero, and at the end at the latest.
pub open spec fn page_end(len: nat, offset: i64, limit: i64) -> int {
    let start = page_start(len, offset);
    if limit < 0 {
        start
    } else if start + limit > len {
        len as int
    } else {
        start + limit
    }
}

/// The rows of one page: `offset` rows are skipped and at most `limit` rows
/// follow. A negative offset or limit counts as zero, and a page that
/// reaches past the end stops there.
pub open spec fn page<A>(rows: Seq<A>, offset: i64, limit: i64) -> Seq<A> {
    rows.subrange(page_start(rows.len(), offset), page_end(rows.len(), offset, limit))
}

/// The positions at which a page starts and ends in a table of `len` rows.
pub fn page_bounds(len: usize, offset: i64, limit: i64) -> (bounds: (usize, usize))
    ensures
        bounds.0 == page_start(len as nat, offset),
        bounds.1 == page_end(len as nat, offset, limit),
        bounds.0 <= bounds.1 <= len,
{
    let start: usize = if offset < 0 {
        0
    } else if offset as u64 > len as u64 {
        len
    } else {
        offset as usize
    };
    let left: usize = len - start;
    let end: usize = if limit < 0 {
        start
    } else if limit as u64 > left as u64 {
        len
    } else {
        start + limit as usize
    };
    (start, end)
}

impl DatabaseView {
    /// A template with this name is stored.
    pub open spec fn has_name(self, name: Seq<char>) -> bool {
        exists|i: int| 0 <= i < self.templates.len() && (#[trigger] self.templates[i]).name == name
    }

    /// Where the template with this name stands in its table.
    pub open spec fn position(self, name: Seq<char>) -> int {
        choose|i: int| 0 <= i < self.templates.len() && (#[trigger] self.templates[i]).name == name
    }

    /// The row of the template with this name, if one is stored.
    pub open spec fn template_named(self, name: Seq<char>) -> Option<TemplateEntityView> {
        if self.has_name(name) {
            Some(self.templates[self.position(name)])
        } else {
            None
        }
    }

    /// A template with this id is stored.
    pub open spec fn has_id(self, template_id: i64) -> bool {
        exists|i: int|
            0 <= i < self.templates.len() && (#[trigger] self.templates[i]).id == template_id
    }

    /// The inputs that belong to the template with this id, in table order.
    pub open spec fn inputs_of(self, template_id: i64) -> Seq<InputEntityView> {
        self.inputs.filter(owned_by(template_id))
    }

    /// The inputs of the template with this name, in table order; none where
    /// no template has the name.
    pub open spec fn inputs_named(self, name: Seq<char>) -> Seq<InputEntityView> {
        match self.template_named(name) {
            Some(row) => self.inputs_of(row.id),
            None => Seq::empty(),
        }
    }

    /// A template row joined with the inputs that belong to it.
    pub open spec fn entity(self, row: TemplateEntityView) -> TemplateInputsView {
        row.with_inputs(self.inputs_of(row.id))
    }

    /// The template with this name together with its inputs, if one is
    /// stored.
    pub open spec fn get(self, name: Seq<char>) -> Option<TemplateInputsView> {
        match self.template_named(name) {
            Some(row) => Some(self.entity(row)),
            None => None,
        }
    }

    /// Every stored template together with its inputs, in table order.
    pub open spec fn entities(self) -> Seq<TemplateInputsView> {
        self.templates.map_values(|row: TemplateEntityView| self.entity(row))
    }

    /// The constraints of the schema.
    pub open spec fn wf(self) -> bool {
        &&& 1 <= self.next_template_id
        &&& 1 <= self.next_input_id
        &&& forall|i: int|
            0 <= i < self.templates.len() ==> 1 <= (#[trigger] self.templates[i]).id
                < self.next_template_id
        &&& forall|i: int, j: int|
            0 <= i < j < self.templates.len() ==> (#[trigger] self.templates[i]).id < (
            #[trigger] self.templates[j]).id
        &&& forall|i: int, j: int|
            0 <= i < j < self.templates.len() ==> (#[trigger] self.templates[i]).name != (
            #[trigger] self.templates[j]).name
        &&& forall|i: int|
            0 <= i < self.inputs.len() ==> 1 <= (#[trigger] self.inputs[i]).id < self.next_input_id
        &&& forall|i: int, j: int|
            0 <= i < j < self.inputs.len() ==> (#[trigger] self.inputs[i]).id < (
            #[trigger] self.inputs[j]).id
        &&& forall|i: int|
            0 <= i < self.inputs.len() ==> self.has_id((#[trigger] self.inputs[i]).template_id)
    }

    /// Why a template of this name cannot be stored, if it cannot.
    pub open spec fn insert_template_error(self, name: Seq<char>) -> Option<StorageError> {
        if self.has_name(name) {
            Some(StorageError::UniqueViolation)
        } else if self.next_template_id == i64::MAX {
            Some(StorageError::SequenceExhausted)
        } else {
            None
        }
    }

    /// Why `count` inputs cannot be stored for a template, if they cannot.
    pub open spec fn insert_inputs_error(self, count: nat, template_id: i64) -> Option<StorageError> {
        if !self.has_id(template_id) {
            Some(StorageError::ForeignKeyViolation)
        } else if self.next_input_id + count > i64::MAX {
            Some(StorageError::SequenceExhausted)
        } else {
            None
        }
    }

    /// The row that a new template gets.
    pub open spec fn new_template(
        self,
        name: Seq<char>,
        description: Seq<char>,
        body: Seq<char>,
    ) -> TemplateEntityView {
        TemplateEntityView {
            id: self.next_template_id,
            created_at: self.clock,
            updated_at: self.clock,
            name,
            description,
            body,
        }
    }

    /// The state after a new template was stored.
    pub open spec fn with_template(
        self,
        name: Seq<char>,
        description: Seq<char>,
        body: Seq<char>,
    ) -> DatabaseView {
        DatabaseView {
            templates: self.templates.push(self.new_template(name, description, body)),
            next_template_id: (self.next_template_id + 1) as i64,
            ..self
        }
    }

    /// The state after `inputs` were stored for a template.
    pub open spec fn with_inputs(self, inputs: Seq<TemplateInputView>, template_id: i64) -> DatabaseView {
        DatabaseView {
            inputs: self.inputs + new_input_rows(self.next_input_id, inputs, template_id),
            next_input_id: (self.next_input_id + inputs.len()) as i64,
            ..self
        }
    }

    /// The state after the inputs of a template were deleted.
    pub open spec fn without_inputs(self, template_id: i64) -> DatabaseView {
        DatabaseView { inputs: self.inputs.filter(not_owned_by(template_id)), ..self }
    }

    /// The state after the template with this name was deleted, and its
    /// inputs with it.
    pub open spec fn without_template(self, name: Seq<char>) -> DatabaseView {
        match self.template_named(name) {
            Some(row) => DatabaseView {
                templates: self.templates.remove(self.position(name)),
                inputs: self.inputs.filter(not_owned_by(row.id)),
                ..self
            },
            None => self,
        }
    }
}

impl View for Database {
    type V = DatabaseView;

    closed spec fn view(&self) -> DatabaseView {
        DatabaseView {
            templates: template_rows_view(self.templates@),
            inputs: input_rows_view(self.inputs@),
            next_template_id: self.next_template_id,
            next_input_id: self.next_input_id,
            clock: self.clock,
        }
    }
}

/// A filter that every row satisfies keeps the table as it is.
pub proof fn lemma_filter_all<A>(rows: Seq<A>, pred: spec_fn(A) -> bool)
    requires
        forall|i: int| 0 <= i < rows.len() ==> pred(#[trigger] rows[i]),
    ensures
        rows.filter(pred) == rows,
    decreases rows.len(),
{
    reveal(Seq::filter);
    if rows.len() > 0 {
        let front = rows.drop_last();
        assert forall|i: int| 0 <= i < front.len() implies pred(#[trigger] front[i]) by {
            assert(front[i] == rows[i]);
        }
        lemma_filter_all(front, pred);
        assert(pred(rows[rows.len() - 1]));
        assert(front.push(rows.last()) == rows);
    }
}

/// A filter that no row satisfies keeps nothing.
pub proof fn lemma_filter_none<A>(rows: Seq<A>, pred: spec_fn(A) -> bool)
    requires
        forall|i: int| 0 <= i < rows.len() ==> !pred(#[trigger] rows[i]),
    ensures
        rows.filter(pred) == Seq::<A>::empty(),
    decreases rows.len(),
{
    reveal(Seq::filter);
    if rows.len() > 0 {
        let front = rows.drop_last();
        assert forall|i: int| 0 <= i < front.len() implies !pred(#[trigger] front[i]) by {
            assert(front[i] == rows[i]);
        }
        lemma_filter_none(front, pred);
        assert(!pred(rows[rows.len() - 1]));
    }
}

/// The rows that a filter keeps satisfy it and come from the table, and they
/// keep the ascending order of the ids.
pub proof fn lemma_filter_inputs(rows: Seq<InputEntityView>, pred: spec_fn(InputEntityView) -> bool)
    ensures
        forall|j: int|
            0 <= j < rows.filter(pred).len() ==> pred(#[trigger] rows.filter(pred)[j])
                && rows.contains(rows.filter(pred)[j]),
        (forall|i: int, k: int|
            0 <= i < k < rows.len() ==> (#[trigger] rows[i]).id < (#[trigger] rows[k]).id)
            ==> (forall|i: int, k: int|
            0 <= i < k < rows.filter(pred).len() ==> (#[trigger] rows.filter(pred)[i]).id < (
            #[trigger] rows.filter(pred)[k]).id),
    decreases rows.len(),
{
    reveal(Seq::filter);
    if rows.len() > 0 {
        let front = rows.drop_last();
        let kept = front.filter(pred);
        lemma_filter_inputs(front, pred);
        assert forall|j: int| 0 <= j < rows.filter(pred).len() implies pred(
            #[trigger] rows.filter(pred)[j],
        ) && rows.contains(rows.filter(pred)[j]) by {
            if j < kept.len() {
                let at = choose|at: int| 0 <= at < front.len() && front[at] == kept[j];
                assert(rows[at] == kept[j]);
            } else {
                assert(rows[rows.len() - 1] == rows.filter(pred)[j]);
            }
        }
        if forall|i: int, k: int|
            0 <= i < k < rows.len() ==> (#[trigger] rows[i]).id < (#[trigger] rows[k]).id {
            assert forall|i: int, k: int| 0 <= i < k < front.len() implies (#[trigger] front[i]).id
                < (#[trigger] front[k]).id by {
                assert(front[i] == rows[i]);
                assert(front[k] == rows[k]);
            }
            assert forall|i: int, k: int| 0 <= i < k < rows.filter(pred).len() implies (
            #[trigger] rows.filter(pred)[i]).id < (#[trigger] rows.filter(pred)[k]).id by {
                if k >= kept.len() {
                    let at = choose|at: int| 0 <= at < front.len() && front[at] == kept[i];
                    assert(rows[at] == kept[i]);
                    assert(rows[at].id < rows[rows.len() - 1].id);
                }
            }
        }
    }
}

/// Storing a new template keeps the constraints.
pub proof fn lemma_with_template(
    db: DatabaseView,
    name: Seq<char>,
    description: Seq<char>,
    body: Seq<char>,
)
    requires
        db.wf(),
        db.insert_template_error(name) is None,
    ensures
        db.with_template(name, description, body).wf(),
{
    let after = db.with_template(name, description, body);
    assert forall|i: int, j: int| 0 <= i < j < after.templates.len() implies (
    #[trigger] after.templates[i]).name != (#[trigger] after.templates[j]).name by {
        assert(after.templates[i] == db.templates[i]);
        if j < db.templates.len() {
            assert(after.templates[j] == db.templates[j]);
        }
    }
    assert forall|i: int, j: int| 0 <= i < j < after.templates.len() implies (
    #[trigger] after.templates[i]).id < (#[trigger] after.templates[j]).id by {
        assert(after.templates[i] == db.templates[i]);
        if j < db.templates.len() {
            assert(after.templates[j] == db.templates[j]);
        }
    }
    assert forall|i: int| 0 <= i < after.templates.len() implies 1 <= (
    #[trigger] after.templates[i]).id < after.next_template_id by {
        if i < db.templates.len() {
            assert(after.templates[i] == db.templates[i]);
        }
    }
    assert forall|i: int| 0 <= i < after.inputs.len() implies after.has_id(
        (#[trigger] after.inputs[i]).template_id,
    ) by {
        let owner = after.inputs[i].template_id;
        assert(db.has_id(db.inputs[i].template_id));
        let k = choose|k: int| 0 <= k < db.templates.len() && (#[trigger] db.templates[k]).id == owner;
        assert(after.templates[k].id == owner);
    }
}

/// Storing inputs for a stored template keeps the constraints.
pub proof fn lemma_with_inputs(db: DatabaseView, inputs: Seq<TemplateInputView>, template_id: i64)
    requires
        db.wf(),
        db.insert_inputs_error(inputs.len(), template_id) is None,
    ensures
        db.with_inputs(inputs, template_id).wf(),
{
    let after = db.with_inputs(inputs, template_id);
    let fresh = new_input_rows(db.next_input_id, inputs, template_id);
    assert(after.templates == db.templates);
    assert(db.has_id(template_id));
    assert forall|i: int| 0 <= i < after.inputs.len() implies after.has_id(
        (#[trigger] after.inputs[i]).template_id,
    ) && 1 <= after.inputs[i].id < after.next_input_id by {
        if i < db.inputs.len() {
            assert(after.inputs[i] == db.inputs[i]);
            assert(db.has_id(db.inputs[i].template_id));
        } else {
            assert(after.inputs[i] == fresh[i - db.inputs.len()]);
        }
    }
    assert forall|i: int, j: int| 0 <= i < j < after.inputs.len() implies (
    #[trigger] after.inputs[i]).id < (#[trigger] after.inputs[j]).id by {
        if i < db.inputs.len() {
            assert(after.inputs[i] == db.inputs[i]);
        } else {
            assert(after.inputs[i] == fresh[i - db.inputs.len()]);
        }
        if j < db.inputs.len() {
            assert(after.inputs[j] == db.inputs[j]);
        } else {
            assert(after.inputs[j] == fresh[j - db.inputs.len()]);
        }
    }
}

/// Deleting the inputs of a template keeps the constraints.
pub proof fn lemma_without_inputs(db: DatabaseView, template_id: i64)
    requires
        db.wf(),
    ensures
        db.without_inputs(template_id).wf(),
{
    let after = db.without_inputs(template_id);
    lemma_filter_inputs(db.inputs, not_owned_by(template_id));
    assert(after.templates == db.templates);
    assert forall|i: int| 0 <= i < after.inputs.len() implies 1 <= (#[trigger] after.inputs[i]).id
        < after.next_input_id && after.has_id(after.inputs[i].template_id) by {
        let k = choose|k: int| 0 <= k < db.inputs.len() && db.inputs[k] == after.inputs[i];
        assert(db.has_id(db.inputs[k].template_id));
    }
}

/// Deleting a template together with its inputs keeps the constraints.
pub proof fn lemma_without_template(db: DatabaseView, name: Seq<char>)
    requires
        db.wf(),
    ensures
        db.without_template(name).wf(),
{
    if db.has_name(name) {
        let at = db.position(name);
        let gone = db.templates[at];
        let after = db.without_template(name);
        lemma_filter_inputs(db.inputs, not_owned_by(gone.id));
        assert forall|i: int| 0 <= i < after.templates.len() implies (#[trigger] after.templates[i])
            == db.templates[if i < at {
            i
        } else {
            i + 1
        }] by {}
        assert forall|i: int| 0 <= i < after.inputs.len() implies 1 <= (#[trigger] after.inputs[i]).id
            < after.next_input_id && after.has_id(after.inputs[i].template_id) by {
            let owner = after.inputs[i].template_id;
            let k = choose|k: int| 0 <= k < db.inputs.len() && db.inputs[k] == after.inputs[i];
            assert(db.has_id(db.inputs[k].template_id));
            let t = choose|t: int| 0 <= t < db.templates.len() && (#[trigger] db.templates[t]).id == owner;
            assert(owner != gone.id);
            if t < at {
                assert(after.templates[t].id == owner);
            } else {
                assert(after.templates[t - 1].id == owner);
            }
        }
    }
}

/// In a table with ascending ids from 1 on, a row's id is past its position.
proof fn lemma_template_ids_past_position(db: DatabaseView, i: int)
    requires
        db.wf(),
        0 <= i < db.templates.len(),
    ensures
        db.templates[i].id > i,
    decreases i,
{
    if i > 0 {
        lemma_template_ids_past_position(db, i - 1);
    }
}

impl Database {
    /// The constraints of the schema hold.
    pub open spec fn wf(&self) -> bool {
        self@.wf()
    }

    /// The model of an empty database: no rows, ids from 1 on, the clock
    /// at 0.
    pub open spec fn new_view() -> DatabaseView {
        DatabaseView {
            templates: Seq::empty(),
            inputs: Seq::empty(),
            next_template_id: 1,
            next_input_id: 1,
            clock: 0,
        }
    }

    /// An empty database.
    pub fn new() -> (db: Database)
        ensures
            db.wf(),
            db@ == Self::new_view(),
    {
        let db = Database {
            templates: Vec::new(),
            inputs: Vec::new(),
            next_template_id: 1,
            next_input_id: 1,
            clock: 0,
        };
        assert(db@.templates =~= Seq::empty());
        assert(db@.inputs =~= Seq::empty());
        db
    }

    /// An empty database whose tables hand out ids from the given ones on;
    /// `None` where a first id is below 1.
    pub fn with_first_ids(first_template_id: i64, first_input_id: i64) -> (db: Option<Database>)
        ensures
            first_template_id >= 1 && first_input_id >= 1 ==> (db matches Some(fresh) && fresh.wf()
                && fresh@ == (DatabaseView {
                next_template_id: first_template_id,
                next_input_id: first_input_id,
                ..Self::new_view()
            })),
            first_template_id < 1 || first_input_id < 1 ==> db is None,
    {
        if first_template_id < 1 || first_input_id < 1 {
            return None;
        }
        let fresh = Database {
            templates: Vec::new(),
            inputs: Vec::new(),
            next_template_id: first_template_id,
            next_input_id: first_input_id,
            clock: 0,
        };
        assert(fresh@.templates =~= Seq::empty());
        assert(fresh@.inputs =~= Seq::empty());
        Some(fresh)
    }

    /// Sets the time that rows stored from now on are stamped with.
    pub fn set_clock(&mut self, now: i64)
        requires
            old(self).wf(),
        ensures
            final(self).wf(),
            final(self)@ == (DatabaseView { clock: now, ..old(self)@ }),
    {
        self.clock = now;
        assert(self@.templates == old(self)@.templates);
        assert forall|i: int| 0 <= i < self@.inputs.len() implies self@.has_id(
            (#[trigger] self@.inputs[i]).template_id,
        ) by {
            assert(old(self)@.has_id(old(self)@.inputs[i].template_id));
        }
    }

    /// The row of the template with this name, if one is stored.
    pub fn select_template(&self, name: &str) -> (found: Option<TemplateEntity>)
        requires
            self.wf(),
        ensures
            found matches Some(row) ==> self@.template_named(name@) == Some(row@),
            found is None ==> self@.template_named(name@) is None,
    {
        let wanted = name.to_owned();
        let mut at: usize = 0;
        while at < self.templates.len()
            invariant
                at <= self.templates.len(),
                wanted@ == name@,
                self.wf(),
                forall|i: int| 0 <= i < at ==> (#[trigger] self@.templates[i]).name != name@,
            decreases self.templates.len() - at,
        {
            if self.templates[at].name == wanted {
                assert(self@.templates[at as int].name == name@);
                return Some(self.templates[at].clone());
            }
            at += 1;
        }
        None
    }

    /// Whether the inputs table has ids left for `count` more rows.
    pub fn has_input_ids(&self, count: usize) -> (enough: bool)
        requires
            self.wf(),
        ensures
            enough == (self@.next_input_id + count <= i64::MAX),
    {
        let left: i64 = i64::MAX - self.next_input_id;
        count as u64 <= left as u64
    }

    /// The number of stored templates.
    pub fn count_templates(&self) -> (count: i64)
        requires
            self.wf(),
        ensures
            count == self@.templates.len(),
    {
        proof {
            if self.templates.len() > 0 {
                lemma_template_ids_past_position(self@, self.templates.len() - 1);
            }
        }
        self.templates.len() as i64
    }

    /// The inputs that belong to the template with this id, in table order.
    pub fn select_inputs(&self, template_id: i64) -> (rows: Vec<InputEntity>)
        ensures
            input_rows_view(rows@) == self@.inputs_of(template_id),
    {
        let ghost all = self@.inputs;
        let mut rows: Vec<InputEntity> = Vec::new();
        let mut at: usize = 0;
        while at < self.inputs.len()
            invariant
                at <= self.inputs.len(),
                all == self@.inputs,
                input_rows_view(rows@) == all.take(at as int).filter(owned_by(template_id)),
            decreases self.inputs.len() - at,
        {
            let ghost before = input_rows_view(rows@);
            let ghost row = self.inputs@[at as int]@;
            proof {
                assert(all.take(at + 1) == all.take(at as int).push(row));
                all.take(at as int).lemma_filter_push(row, owned_by(template_id));
            }
            if self.inputs[at].template_id == template_id {
                rows.push(self.inputs[at].clone());
                assert(input_rows_view(rows@) == before.push(row));
            }
            at += 1;
        }
        assert(all.take(at as int) == all);
        rows
    }

    /// The rows of one page of the templates table, in table order.
    pub fn select_templates(&self, offset: i64, limit: i64) -> (rows: Vec<TemplateEntity>)
        ensures
            template_rows_view(rows@) == page(self@.templates, offset, limit),
    {
        let (start, end) = page_bounds(self.templates.len(), offset, limit);
        let ghost all = self@.templates;
        let mut rows: Vec<TemplateEntity> = Vec::new();
        let mut at: usize = start;
        while at < end
            invariant
                start <= at <= end <= self.templates.len(),
                all == self@.templates,
                template_rows_view(rows@) == all.subrange(start as int, at as int),
            decreases end - at,
        {
            let ghost before = template_rows_view(rows@);
            rows.push(self.templates[at].clone());
            assert(template_rows_view(rows@) == before.push(all[at as int]));
            at += 1;
        }
        rows
    }

    /// Whether a template with this id is stored.
    fn contains_id(&self, template_id: i64) -> (found: bool)
        ensures
            found == self@.has_id(template_id),
    {
        let mut at: usize = 0;
        while at < self.templates.len()
            invariant
                at <= self.templates.len(),
                forall|i: int| 0 <= i < at ==> (#[trigger] self@.templates[i]).id != template_id,
            decreases self.templates.len() - at,
        {
            if self.templates[at].id == template_id {
                assert(self@.templates[at as int].id == template_id);
                return true;
            }
            at += 1;
        }
        false
    }

    /// Stores a new template. Its id is the next of the table, and it is
    /// stamped with the clock. A name that is taken is refused, and nothing
    /// is stored once the table's ids have run out.
    pub fn insert_template(&mut self, name: &str, description: &str, body: &str) -> (stored: Result<
        TemplateEntity,
        StorageError,
    >)
        requires
            old(self).wf(),
        ensures
            final(self).wf(),
            match old(self)@.insert_template_error(name@) {
                Some(error) => stored == Err::<TemplateEntity, StorageError>(error) && final(self)@
                    == old(self)@,
                None => stored matches Ok(row) && row@ == old(self)@.new_template(
                    name@,
                    description@,
                    body@,
                ) && final(self)@ == old(self)@.with_template(name@, description@, body@),
            },
    {
        if self.select_template(name).is_some() {
            return Err(StorageError::UniqueViolation);
        }
        if self.next_template_id == i64::MAX {
            return Err(StorageError::SequenceExhausted);
        }
        let ghost before = self@;
        let row = TemplateEntity {
            id: self.next_template_id,
            created_at: self.clock,
            updated_at: self.clock,
            name: name.to_owned(),
            description: description.to_owned(),
            body: body.to_owned(),
        };
        self.templates.push(row.clone());
        self.next_template_id = self.next_template_id + 1;
        proof {
            assert(self@.templates == before.templates.push(row@));
            assert(self@ == before.with_template(name@, description@, body@));
            lemma_with_template(before, name@, description@, body@);
        }
        Ok(row)
    }

    /// Stores `inputs` for the template with this id. The rows get the next
    /// ids of the table, in the order given. All are stored or none: a
    /// template that is not stored is refused, and so are more rows than the
    /// table has ids left.
    pub fn insert_inputs(&mut self, inputs: &Vec<TemplateInput>, template_id: i64) -> (stored: Result<
        Vec<InputEntity>,
        StorageError,
    >)
        requires
            old(self).wf(),
        ensures
            final(self).wf(),
            match old(self)@.insert_inputs_error(inputs@.len(), template_id) {
                Some(error) => stored == Err::<Vec<InputEntity>, StorageError>(error)
                    && final(self)@ == old(self)@,
                None => stored matches Ok(rows) && input_rows_view(rows@) == new_input_rows(
                    old(self)@.next_input_id,
                    inputs_view(inputs@),
                    template_id,
                ) && final(self)@ == old(self)@.with_inputs(inputs_view(inputs@), template_id),
            },
    {
        if !self.contains_id(template_id) {
            return Err(StorageError::ForeignKeyViolation);
        }
        let count = inputs.len();
        let left: i64 = i64::MAX - self.next_input_id;
        if count as u64 > left as u64 {
            return Err(StorageError::SequenceExhausted);
        }
        let ghost before = self@;
        let ghost fresh = new_input_rows(before.next_input_id, inputs_view(inputs@), template_id);
        let first: i64 = self.next_input_id;
        let mut rows: Vec<InputEntity> = Vec::new();
        let mut at: usize = 0;
        while at < count
            invariant
                at <= count,
                count == inputs@.len(),
                first == before.next_input_id,
                1 <= first,
                first + count <= i64::MAX,
                fresh == new_input_rows(first, inputs_view(inputs@), template_id),
                self.next_input_id == before.next_input_id,
                self.next_template_id == before.next_template_id,
                self.clock == before.clock,
                template_rows_view(self.templates@) == before.templates,
                input_rows_view(self.inputs@) == before.inputs + fresh.take(at as int),
                input_rows_view(rows@) == fresh.take(at as int),
            decreases count - at,
        {
            let row = InputEntity {
                id: first + at as i64,
                name: inputs[at].name.clone(),
                default_value: inputs[at].default_value.clone(),
                template_id,
            };
            let ghost stored = input_rows_view(self.inputs@);
            let ghost given = input_rows_view(rows@);
            assert(row@ == fresh[at as int]);
            rows.push(row.clone());
            self.inputs.push(row);
            assert(input_rows_view(rows@) == given.push(fresh[at as int]));
            assert(input_rows_view(self.inputs@) == stored.push(fresh[at as int]));
            assert(fresh.take(at + 1) == fresh.take(at as int).push(fresh[at as int]));
            at += 1;
        }
        self.next_input_id = first + count as i64;
        proof {
            assert(fresh.take(at as int) == fresh);
            assert(self@ == before.with_inputs(inputs_view(inputs@), template_id));
            lemma_with_inputs(before, inputs_view(inputs@), template_id);
        }
        Ok(rows)
    }

    /// Drops from the inputs table the rows of the template with this id,
    /// and says how many there were.
    fn purge_inputs(&mut self, template_id: i64) -> (deleted: usize)
        ensures
            deleted == input_rows_view(old(self).inputs@).filter(owned_by(template_id)).len(),
            input_rows_view(final(self).inputs@) == input_rows_view(old(self).inputs@).filter(
                not_owned_by(template_id),
            ),
            final(self).templates == old(self).templates,
            final(self).next_template_id == old(self).next_template_id,
            final(self).next_input_id == old(self).next_input_id,
            final(self).clock == old(self).clock,
    {
        let ghost all = input_rows_view(self.inputs@);
        let mut kept: Vec<InputEntity> = Vec::new();
        let mut deleted: usize = 0;
        let mut at: usize = 0;
        while at < self.inputs.len()
            invariant
                at <= self.inputs.len(),
                all == input_rows_view(self.inputs@),
                deleted <= at,
                deleted == all.take(at as int).filter(owned_by(template_id)).len(),
                input_rows_view(kept@) == all.take(at as int).filter(not_owned_by(template_id)),
            decreases self.inputs.len() - at,
        {
            let ghost before = input_rows_view(kept@);
            let ghost row = self.inputs@[at as int]@;
            proof {
                assert(all.take(at + 1) == all.take(at as int).push(row));
                all.take(at as int).lemma_filter_push(row, owned_by(template_id));
                all.take(at as int).lemma_filter_push(row, not_owned_by(template_id));
            }
            if self.inputs[at].template_id == template_id {
                deleted += 1;
            } else {
                kept.push(self.inputs[at].clone());
                assert(input_rows_view(kept@) == before.push(row));
            }
            at += 1;
        }
        assert(all.take(at as int) == all);
        self.inputs = kept;
        deleted
    }

    /// Deletes the inputs of the template with this id, and says how many
    /// there were.
    pub fn delete_inputs(&mut self, template_id: i64) -> (deleted: usize)
        requires
            old(self).wf(),
        ensures
            final(self).wf(),
            deleted == old(self)@.inputs_of(template_id).len(),
            final(self)@ == old(self)@.without_inputs(template_id),
    {
        let ghost before = self@;
        let deleted = self.purge_inputs(template_id);
        proof {
            assert(self@ == before.without_inputs(template_id));
            lemma_without_inputs(before, template_id);
        }
        deleted
    }

    /// Deletes the template with this name, and its inputs with it. Returns
    /// the deleted row, or `None` where no template has the name.
    pub fn delete_template(&mut self, name: &str) -> (deleted: Option<TemplateEntity>)
        requires
            old(self).wf(),
        ensures
            final(self).wf(),
            final(self)@ == old(self)@.without_template(name@),
            deleted matches Some(row) ==> old(self)@.template_named(name@) == Some(row@),
            deleted is None ==> old(self)@.template_named(name@) is None,
    {
        let ghost before = self@;
        let wanted = name.to_owned();
        let mut at: usize = 0;
        while at < self.templates.len()
            invariant
                at <= self.templates.len(),
                wanted@ == name@,
                self@ == before,
                before.wf(),
                forall|i: int| 0 <= i < at ==> (#[trigger] before.templates[i]).name != name@,
            ensures
                at <= self.templates.len(),
                self@ == before,
                at < self.templates.len() ==> before.templates[at as int].name == name@,
                at == self.templates.len() ==> !before.has_name(name@),
            decreases self.templates.len() - at,
        {
            if self.templates[at].name == wanted {
                break ;
            }
            at += 1;
        }
        if at == self.templates.len() {
            return None;
        }
        assert(before.position(name@) == at);
        let row = self.templates.remove(at);
        let ghost gone = row@;
        assert(gone == before.templates[at as int]);
        self.purge_inputs(row.id);
        proof {
            assert(self@.templates == before.templates.remove(at as int));
            assert(self@ == before.without_template(name@));
            lemma_without_template(before, name@);
        }
        Some(row)
    }
}

} // verus!
