//! The input store: the rows of the inputs table and the operations on them.

use crate::errors::StorageError;
use crate::messages::{inputs_view, TemplateInput, TemplateInputView};
use crate::repository::database::{new_input_rows, Database};
use vstd::prelude::*;
use vstd::std_specs::convert::FromSpecImpl;

verus! {

/// A row of the inputs table: a named default value owned by one template.
#[derive(Debug)]
pub struct InputEntity {
    pub id: i64,
    pub name: String,
    pub default_value: String,
    pub template_id: i64,
}

/// Mathematical model of an [`InputEntity`].
#[verifier::ext_equal]
pub struct InputEntityView {
    pub id: i64,
    pub name: Seq<char>,
    pub default_value: Seq<char>,
    pub template_id: i64,
}

impl View for InputEntity {
    type V = InputEntityView;

    open spec fn view(&self) -> InputEntityView {
        InputEntityView {
            id: self.id,
            name: self.name@,
            default_value: self.default_value@,
            template_id: self.template_id,
        }
    }
}

impl PartialEq for InputEntity {
    fn eq(&self, other: &Self) -> (equal: bool) {
        self.id == other.id && self.name == other.name && self.default_value == other.default_value
            && self.template_id == other.template_id
    }
}

impl Eq for InputEntity {

}

impl vstd::std_specs::cmp::PartialEqSpecImpl for InputEntity {
    open spec fn obeys_eq_spec() -> bool {
        true
    }

    open spec fn eq_spec(&self, other: &Self) -> bool {
        self@ == other@
    }
}

impl Clone for InputEntity {
    fn clone(&self) -> (copy: Self)
        ensures
            copy == *self,
    {
        InputEntity {
            id: self.id,
            name: self.name.clone(),
            default_value: self.default_value.clone(),
            template_id: self.template_id,
        }
    }
}

impl InputEntityView {
    /// The input as the service reports it: its name and default value.
    pub open spec fn input(self) -> TemplateInputView {
        TemplateInputView { name: self.name, default_value: self.default_value }
    }
}

/// The models of a sequence of rows, in the same order.
pub open spec fn input_rows_view(rows: Seq<InputEntity>) -> Seq<InputEntityView> {
    rows.map_values(|r: InputEntity| r@)
}

/// The inputs that a sequence of rows is reported as, in the same order.
pub open spec fn reported_inputs(rows: Seq<InputEntityView>) -> Seq<TemplateInputView> {
    rows.map_values(|r: InputEntityView| r.input())
}

impl From<InputEntity> for TemplateInput {
    fn from(input_entity: InputEntity) -> (input: Self) {
        TemplateInput { name: input_entity.name, default_value: input_entity.default_value }
    }
}

impl FromSpecImpl<InputEntity> for TemplateInput {
    open spec fn obeys_from_spec() -> bool {
        true
    }

    open spec fn from_spec(input_entity: InputEntity) -> Self {
        TemplateInput { name: input_entity.name, default_value: input_entity.default_value }
    }
}

/// The operations of the input store.
pub trait InputRepositoryTrait {
    /// All inputs of the template with this name, in table order; none
    /// where no template has the name.
    fn get_template_inputs(&self, pool: &Database, template_name: &str) -> (rows: Vec<InputEntity>)
        requires
            pool.wf(),
        ensures
            input_rows_view(rows@) == pool@.inputs_named(template_name@),
    ;

    /// Stores `inputs` for the template with this id and returns the stored
    /// rows. All are stored or none.
    fn add_inputs(&self, pool: &mut Database, inputs: &Vec<TemplateInput>, template_id: i64) -> (stored:
        Result<Vec<InputEntity>, StorageError>)
        requires
            old(pool).wf(),
        ensures
            final(pool).wf(),
            match old(pool)@.insert_inputs_error(inputs@.len(), template_id) {
                Some(error) => stored == Err::<Vec<InputEntity>, StorageError>(error)
                    && final(pool)@ == old(pool)@,
                None => stored matches Ok(rows) && input_rows_view(rows@) == new_input_rows(
                    old(pool)@.next_input_id,
                    inputs_view(inputs@),
                    template_id,
                ) && final(pool)@ == old(pool)@.with_inputs(inputs_view(inputs@), template_id),
            },
    ;

    /// Deletes every input of the template with this id, and says how many
    /// there were.
    fn remove_inputs(&self, pool: &mut Database, template_id: i64) -> (deleted: usize)
        requires
            old(pool).wf(),
        ensures
            final(pool).wf(),
            deleted == old(pool)@.inputs_of(template_id).len(),
            final(pool)@ == old(pool)@.without_inputs(template_id),
    ;
}

/// The input store over a [`Database`].
#[derive(Clone, Copy, Debug)]
pub struct InputRepository {}

impl InputRepository {
    /// A handle on the input store.
    pub fn new() -> Self {
        InputRepository {  }
    }

    /// All inputs of the template with this id, in table order.
    pub fn list_inputs(&self, pool: &Database, template_id: i64) -> (rows: Vec<InputEntity>)
        ensures
            input_rows_view(rows@) == pool@.inputs_of(template_id),
    {
        pool.select_inputs(template_id)
    }
}

impl InputRepositoryTrait for InputRepository {
    fn get_template_inputs(&self, pool: &Database, template_name: &str) -> (rows: Vec<InputEntity>) {
        match pool.select_template(template_name) {
            Some(template) => pool.select_inputs(template.id),
            None => Vec::new(),
        }
    }

    fn add_inputs(&self, pool: &mut Database, inputs: &Vec<TemplateInput>, template_id: i64) -> (stored:
        Result<Vec<InputEntity>, StorageError>) {
        pool.insert_inputs(inputs, template_id)
    }

    fn remove_inputs(&self, pool: &mut Database, template_id: i64) -> (deleted: usize) {
        pool.delete_inputs(template_id)
    }
}

} // verus!
