//! The template store: the rows of the templates table, a template together
//! with its inputs, and the operations on them.

use crate::errors::StorageError;
use crate::messages::{
    inputs_view, TemplateInput, TemplateInputView, TemplateResponse, TemplateResponseView,
};
use crate::repository::database::{new_input_rows, page, Database, DatabaseView};
use crate::repository::input::{
    input_rows_view, reported_inputs, InputEntity, InputEntityView, InputRepository,
    InputRepositoryTrait,
};
use crate::repository::laws::{
    lemma_get_after_create, lemma_get_after_remove, lemma_page_of_entities,
    lemma_remove_inputs_first,
};
use vstd::prelude::*;
use vstd::std_specs::convert::FromSpecImpl;

verus! {

/// A row of the templates table.
#[derive(Debug)]
pub struct TemplateEntity {
    pub id: i64,
    pub created_at: i64,
    pub updated_at: i64,
    pub name: String,
    pub description: String,
    pub body: String,
}

/// Mathematical model of a [`TemplateEntity`].
#[verifier::ext_equal]
pub struct TemplateEntityView {
    pub id: i64,
    pub created_at: i64,
    pub updated_at: i64,
    pub name: Seq<char>,
    pub description: Seq<char>,
    pub body: Seq<char>,
}

impl View for TemplateEntity {
    type V = TemplateEntityView;

    open spec fn view(&self) -> TemplateEntityView {
        TemplateEntityView {
            id: self.id,
            created_at: self.created_at,
            updated_at: self.updated_at,
            name: self.name@,
            description: self.description@,
            body: self.body@,
        }
    }
}

impl Clone for TemplateEntity {
    fn clone(&self) -> (copy: Self)
        ensures
            copy == *self,
    {
        TemplateEntity {
            id: self.id,
            created_at: self.created_at,
            updated_at: self.updated_at,
            name: self.name.clone(),
            description: self.description.clone(),
            body: self.body.clone(),
        }
    }
}

/// The models of a sequence of rows, in the same order.
pub open spec fn template_rows_view(rows: Seq<TemplateEntity>) -> Seq<TemplateEntityView> {
    rows.map_values(|r: TemplateEntity| r@)
}

/// A template together with the inputs that it owns.
#[derive(Debug)]
pub struct TemplateInputsEntity {
    pub id: i64,
    pub created_at: i64,
    pub updated_at: i64,
    pub name: String,
    pub description: String,
    pub body: String,
    pub inputs: Vec<InputEntity>,
}

/// Mathematical model of a [`TemplateInputsEntity`].
#[verifier::ext_equal]
pub struct TemplateInputsView {
    pub id: i64,
    pub created_at: i64,
    pub updated_at: i64,
    pub name: Seq<char>,
    pub description: Seq<char>,
    pub body: Seq<char>,
    pub inputs: Seq<InputEntityView>,
}

impl View for TemplateInputsEntity {
    type V = TemplateInputsView;

    open spec fn view(&self) -> TemplateInputsView {
        TemplateInputsView {
            id: self.id,
            created_at: self.created_at,
            updated_at: self.updated_at,
            name: self.name@,
            description: self.description@,
            body: self.body@,
            inputs: input_rows_view(self.inputs@),
        }
    }
}

impl TemplateEntityView {
    /// The row joined with `inputs`.
    pub open spec fn with_inputs(self, inputs: Seq<InputEntityView>) -> TemplateInputsView {
        TemplateInputsView {
            id: self.id,
            created_at: self.created_at,
            updated_at: self.updated_at,
            name: self.name,
            description: self.description,
            body: self.body,
            inputs,
        }
    }
}

impl TemplateInputsView {
    /// The template as the service reports it.
    pub open spec fn response(self) -> TemplateResponseView {
        TemplateResponseView {
            name: self.name,
            description: self.description,
            template_inputs: reported_inputs(self.inputs),
        }
    }
}

/// The models of a sequence of templates with inputs, in the same order.
pub open spec fn entities_view(entities: Seq<TemplateInputsEntity>) -> Seq<TemplateInputsView> {
    entities.map_values(|e: TemplateInputsEntity| e@)
}

/// Reports each row as an input, in the same order.
pub fn into_inputs(rows: &Vec<InputEntity>) -> (inputs: Vec<TemplateInput>)
    ensures
        inputs_view(inputs@) == reported_inputs(input_rows_view(rows@)),
{
    let mut inputs: Vec<TemplateInput> = Vec::new();
    let mut at: usize = 0;
    while at < rows.len()
        invariant
            at <= rows.len(),
            inputs_view(inputs@) == reported_inputs(input_rows_view(rows@)).take(at as int),
        decreases rows.len() - at,
    {
        let row = &rows[at];
        let ghost before = inputs_view(inputs@);
        let ghost all = reported_inputs(input_rows_view(rows@));
        inputs.push(TemplateInput { name: row.name.clone(), default_value: row.default_value.clone() });
        assert(inputs_view(inputs@) == before.push(row@.input()));
        assert(all.take(at + 1) == all.take(at as int).push(all[at as int]));
        at += 1;
    }
    assert(reported_inputs(input_rows_view(rows@)).take(at as int) == reported_inputs(
        input_rows_view(rows@),
    ));
    inputs
}

impl TemplateInputsEntity {
    /// Joins a row of the templates table with the inputs of that template.
    pub fn new(template: TemplateEntity, inputs: Vec<InputEntity>) -> (entity: Self)
        ensures
            entity@ == template@.with_inputs(input_rows_view(inputs@)),
    {
        TemplateInputsEntity {
            id: template.id,
            created_at: template.created_at,
            updated_at: template.updated_at,
            name: template.name,
            description: template.description,
            body: template.body,
            inputs,
        }
    }

    /// The template as the service reports it: name, description and the
    /// inputs with their default values.
    pub fn into_template_response(self) -> (response: TemplateResponse)
        ensures
            response@ == self@.response(),
    {
        TemplateResponse {
            name: self.name,
            description: self.description,
            template_inputs: into_inputs(&self.inputs),
        }
    }

    /// The template as the service reports it, leaving the entity in place.
    pub fn to_template_response(&self) -> (response: TemplateResponse)
        ensures
            response@ == self@.response(),
    {
        TemplateResponse {
            name: self.name.clone(),
            description: self.description.clone(),
            template_inputs: into_inputs(&self.inputs),
        }
    }
}

impl From<TemplateInputsEntity> for TemplateResponse {
    fn from(template_entity: TemplateInputsEntity) -> (response: Self)
        ensures
            response@ == template_entity@.response(),
    {
        template_entity.into_template_response()
    }
}

impl FromSpecImpl<TemplateInputsEntity> for TemplateResponse {
    open spec fn obeys_from_spec() -> bool {
        false
    }

    open spec fn from_spec(template_entity: TemplateInputsEntity) -> Self {
        arbitrary()
    }
}

impl DatabaseView {
    /// Why a template of this name with `count` inputs cannot be created, if
    /// it cannot: the name is taken, or a table has run out of ids.
    pub open spec fn create_error(self, name: Seq<char>, count: nat) -> Option<StorageError> {
        if self.has_name(name) {
            Some(StorageError::UniqueViolation)
        } else if self.next_template_id == i64::MAX || self.next_input_id + count > i64::MAX {
            Some(StorageError::SequenceExhausted)
        } else {
            None
        }
    }

    /// The template that creating it gives, together with its inputs.
    pub open spec fn created(
        self,
        name: Seq<char>,
        description: Seq<char>,
        body: Seq<char>,
        inputs: Seq<TemplateInputView>,
    ) -> TemplateInputsView {
        self.new_template(name, description, body).with_inputs(
            new_input_rows(self.next_input_id, inputs, self.next_template_id),
        )
    }

    /// The state after a template was created together with its inputs.
    pub open spec fn with_created(
        self,
        name: Seq<char>,
        description: Seq<char>,
        body: Seq<char>,
        inputs: Seq<TemplateInputView>,
    ) -> DatabaseView {
        self.with_template(name, description, body).with_inputs(inputs, self.next_template_id)
    }
}

/// The operations of the template store.
pub trait TemplateRepositoryTrait {
    /// One page of the stored templates, each with its inputs, in table
    /// order.
    fn list_templates(&self, pool: &Database, offset: i64, limit: i64) -> (templates: Vec<
        TemplateInputsEntity,
    >)
        requires
            pool.wf(),
        ensures
            entities_view(templates@) == page(pool@.entities(), offset, limit),
    ;

    /// The number of stored templates.
    fn get_templates_count(&self, pool: &Database) -> (count: i64)
        requires
            pool.wf(),
        ensures
            count == pool@.templates.len(),
    ;

    /// The template with exactly this name, together with its inputs;
    /// `None` where no template has the name.
    fn get_template(&self, pool: &Database, name: &str) -> (found: Option<TemplateInputsEntity>)
        requires
            pool.wf(),
        ensures
            found matches Some(entity) ==> pool@.get(name@) == Some(entity@),
            found is None ==> pool@.get(name@) is None,
    ;

    /// Creates a template together with its inputs, and returns it as it is
    /// then found under its name. Both are stored or neither is.
    fn add_template(
        &self,
        pool: &mut Database,
        name: &str,
        description: &str,
        body: &str,
        template_inputs: &Vec<TemplateInput>,
    ) -> (created: Result<TemplateInputsEntity, StorageError>)
        requires
            old(pool).wf(),
        ensures
            final(pool).wf(),
            match old(pool)@.create_error(name@, template_inputs@.len()) {
                Some(error) => created == Err::<TemplateInputsEntity, StorageError>(error)
                    && final(pool)@ == old(pool)@,
                None => created matches Ok(entity) && entity@ == old(pool)@.created(
                    name@,
                    description@,
                    body@,
                    inputs_view(template_inputs@),
                ) && final(pool)@ == old(pool)@.with_created(
                    name@,
                    description@,
                    body@,
                    inputs_view(template_inputs@),
                ) && final(pool)@.get(name@) == Some(entity@),
            },
    ;

    /// Removes the template with this name together with its inputs, and
    /// returns it as it was stored; `None`, and nothing removed, where no
    /// template has the name.
    fn remove_template(&self, pool: &mut Database, name: &str) -> (removed: Option<
        TemplateInputsEntity,
    >)
        requires
            old(pool).wf(),
        ensures
            final(pool).wf(),
            final(pool)@ == old(pool)@.without_template(name@),
            removed matches Some(entity) ==> old(pool)@.get(name@) == Some(entity@),
            removed matches Some(entity) ==> final(pool)@.inputs_of(entity.id).len() == 0,
            removed is None ==> old(pool)@.get(name@) is None,
            final(pool)@.get(name@) is None,
    ;
}

/// The template store over a [`Database`].
#[derive(Clone, Copy, Debug)]
pub struct TemplateRepository {
    inputs_repository: InputRepository,
}

impl TemplateRepository {
    /// A handle on the template store, which stores inputs through
    /// `inputs_repository`.
    pub fn new(inputs_repository: InputRepository) -> Self {
        TemplateRepository { inputs_repository }
    }
}

impl TemplateRepositoryTrait for TemplateRepository {
    fn list_templates(&self, pool: &Database, offset: i64, limit: i64) -> (templates: Vec<
        TemplateInputsEntity,
    >) {
        let rows = pool.select_templates(offset, limit);
        let ghost wanted = page(pool@.entities(), offset, limit);
        proof {
            lemma_page_of_entities(pool@, offset, limit);
            assert(template_rows_view(rows@).len() == rows@.len());
        }
        let mut templates: Vec<TemplateInputsEntity> = Vec::new();
        let mut at: usize = 0;
        while at < rows.len()
            invariant
                at <= rows.len(),
                wanted.len() == rows@.len(),
                wanted == page(pool@.entities(), offset, limit),
                template_rows_view(rows@) == page(pool@.templates, offset, limit),
                entities_view(templates@) == wanted.take(at as int),
            decreases rows.len() - at,
        {
            let ghost before = entities_view(templates@);
            let row = rows[at].clone();
            let inputs = pool.select_inputs(row.id);
            let entity = TemplateInputsEntity::new(row, inputs);
            proof {
                lemma_page_of_entities(pool@, offset, limit);
                assert(template_rows_view(rows@)[at as int] == rows@[at as int]@);
                assert(entity@ == wanted[at as int]);
            }
            templates.push(entity);
            assert(entities_view(templates@) == before.push(wanted[at as int]));
            assert(wanted.take(at + 1) == wanted.take(at as int).push(wanted[at as int]));
            at += 1;
        }
        assert(wanted.take(at as int) == wanted);
        templates
    }

    fn get_templates_count(&self, pool: &Database) -> (count: i64) {
        pool.count_templates()
    }

    fn get_template(&self, pool: &Database, name: &str) -> (found: Option<TemplateInputsEntity>) {
        match pool.select_template(name) {
            Some(template) => {
                let inputs = pool.select_inputs(template.id);
                Some(TemplateInputsEntity::new(template, inputs))
            },
            None => None,
        }
    }

    fn add_template(
        &self,
        pool: &mut Database,
        name: &str,
        description: &str,
        body: &str,
        template_inputs: &Vec<TemplateInput>,
    ) -> (created: Result<TemplateInputsEntity, StorageError>) {
        // Everything that can refuse the second write is checked before the
        // first, so that template and inputs are stored together or not at
        // all.
        if pool.select_template(name).is_some() {
            return Err(StorageError::UniqueViolation);
        }
        if !pool.has_input_ids(template_inputs.len()) {
            return Err(StorageError::SequenceExhausted);
        }
        let ghost before = pool@;
        let template = match pool.insert_template(name, description, body) {
            Ok(template) => template,
            Err(error) => {
                return Err(error);
            },
        };
        assert(pool@.templates[before.templates.len() as int].id == template.id);
        assert(pool@.has_id(template.id));
        let inputs = match self.inputs_repository.add_inputs(pool, template_inputs, template.id) {
            Ok(inputs) => inputs,
            Err(error) => {
                return Err(error);
            },
        };
        proof {
            lemma_get_after_create(before, name@, description@, body@, inputs_view(template_inputs@));
        }
        Ok(TemplateInputsEntity::new(template, inputs))
    }

    fn remove_template(&self, pool: &mut Database, name: &str) -> (removed: Option<
        TemplateInputsEntity,
    >) {
        let ghost before = pool@;
        let template_to_remove = match self.get_template(pool, name) {
            Some(template) => template,
            None => {
                return None;
            },
        };
        self.inputs_repository.remove_inputs(pool, template_to_remove.id);
        pool.delete_template(name);
        proof {
            lemma_remove_inputs_first(before, name@);
            lemma_get_after_remove(before, name@);
        }
        Some(template_to_remove)
    }
}

} // verus!
