//! The templating service: the business rules on top of the stores.
//!
//! A template is created with at least one input and under a name that is
//! not taken; it is removed and composed by its name; listing is by pages.

use crate::errors::{ErrorKind, ServiceError, ServiceErrorView, ServiceResult, StorageError};
use crate::messages::{
    inputs_view, responses_view, InputValue, ListTemplateRequest,
    ListTemplateResponse, TemplateInput, TemplateResponse, TemplateResponseView,
};
use crate::repository::database::{page, Database, DatabaseView};
use crate::repository::input::{InputRepository, InputRepositoryTrait};
use crate::repository::template::{
    entities_view, into_inputs, TemplateInputsEntity, TemplateInputsView, TemplateRepository,
    TemplateRepositoryTrait,
};
use crate::service::compose::{compose, render_failure};
use crate::service::guard::engine_takes;
use vstd::prelude::*;

verus! {

/// A template was to be created without inputs.
pub open spec fn no_inputs_error() -> ServiceErrorView {
    ServiceErrorView {
        kind: ErrorKind::BadRequest,
        message: "Cannot create template with no inputs"@,
    }
}

/// A template was to be created under a name that is taken.
pub open spec fn name_taken_error() -> ServiceErrorView {
    ServiceErrorView { kind: ErrorKind::Conflict, message: "template name is taken"@ }
}

/// A template was to be removed under a name that no template has.
pub open spec fn nothing_to_remove_error() -> ServiceErrorView {
    ServiceErrorView { kind: ErrorKind::Conflict, message: "template name does not exist"@ }
}

/// A template was to be composed under a name that no template has.
pub open spec fn not_found_error() -> ServiceErrorView {
    ServiceErrorView { kind: ErrorKind::NotFound, message: "template name does not exist"@ }
}

/// What the service reports when the storage layer refuses to create a
/// template: a taken name is a conflict, anything else is internal.
pub open spec fn storage_failure_view(error: StorageError) -> ServiceErrorView {
    match error {
        StorageError::UniqueViolation => name_taken_error(),
        StorageError::ForeignKeyViolation => ServiceErrorView {
            kind: ErrorKind::Internal,
            message: "an unexpected error occured while creating the input"@,
        },
        StorageError::SequenceExhausted => ServiceErrorView {
            kind: ErrorKind::Internal,
            message: "an unexpected error occured while creating the template"@,
        },
    }
}

/// What the service reports when the storage layer refuses to create a
/// template.
pub fn storage_failure(error: StorageError) -> (reported: ServiceError)
    ensures
        reported@ == storage_failure_view(error),
{
    match error {
        StorageError::UniqueViolation => ServiceError::ObjectConflict(
            "template name is taken".to_owned(),
        ),
        StorageError::ForeignKeyViolation => ServiceError::InternalServerErrorWithContext(
            "an unexpected error occured while creating the input".to_owned(),
        ),
        StorageError::SequenceExhausted => ServiceError::InternalServerErrorWithContext(
            "an unexpected error occured while creating the template".to_owned(),
        ),
    }
}

/// Why a template may not be created, given whether its name is taken and
/// how many inputs it comes with: no inputs is a bad request, and only then
/// a taken name is a conflict.
pub open spec fn new_template_refusal(taken: bool, count: nat) -> Option<ServiceErrorView> {
    if count == 0 {
        Some(no_inputs_error())
    } else if taken {
        Some(name_taken_error())
    } else {
        None
    }
}

/// Decides whether a template may be created, from what was found under its
/// name and the inputs it comes with.
pub fn check_new_template(existing: &Option<TemplateInputsEntity>, inputs: &Vec<TemplateInput>) -> (checked:
    Result<(), ServiceError>)
    ensures
        match new_template_refusal(existing is Some, inputs@.len()) {
            Some(refusal) => checked matches Err(error) && error@ == refusal,
            None => checked is Ok,
        },
{
    if inputs.is_empty() {
        return Err(ServiceError::BadRequest("Cannot create template with no inputs".to_owned()));
    }
    if existing.is_some() {
        return Err(ServiceError::ObjectConflict("template name is taken".to_owned()));
    }
    Ok(())
}

/// The template that is to be removed, from what was found under its name:
/// nothing found is a conflict.
pub fn existing_for_removal(existing: Option<TemplateInputsEntity>) -> (found: Result<
    TemplateInputsEntity,
    ServiceError,
>)
    ensures
        match existing {
            Some(template) => found == Ok::<TemplateInputsEntity, ServiceError>(template),
            None => found matches Err(error) && error@ == nothing_to_remove_error(),
        },
{
    match existing {
        Some(template) => Ok(template),
        None => Err(ServiceError::ObjectConflict("template name does not exist".to_owned())),
    }
}

/// The template that is to be composed, from what was found under its name:
/// nothing found is not found.
pub fn existing_for_compose(existing: Option<TemplateInputsEntity>) -> (found: Result<
    TemplateInputsEntity,
    ServiceError,
>)
    ensures
        match existing {
            Some(template) => found == Ok::<TemplateInputsEntity, ServiceError>(template),
            None => found matches Err(error) && error@ == not_found_error(),
        },
{
    match existing {
        Some(template) => Ok(template),
        None => Err(ServiceError::NotFound("template name does not exist".to_owned())),
    }
}

/// Why the service does not create a template in this state, if it does
/// not.
pub open spec fn add_template_refusal(db: DatabaseView, name: Seq<char>, count: nat) -> Option<
    ServiceErrorView,
> {
    match new_template_refusal(db.has_name(name), count) {
        Some(refusal) => Some(refusal),
        None => match db.create_error(name, count) {
            Some(error) => Some(storage_failure_view(error)),
            None => None,
        },
    }
}

/// The responses that a sequence of templates is reported as, in the same
/// order.
pub open spec fn reported_templates(entities: Seq<TemplateInputsView>) -> Seq<TemplateResponseView> {
    entities.map_values(|e: TemplateInputsView| e.response())
}

/// The operations that the service offers to the transport.
pub trait TemplatingServiceTrait {
    /// Creates a template with its inputs and reports it. Without inputs
    /// the request is bad; a taken name is a conflict. Where the service
    /// fails, nothing is stored.
    fn add_template(
        &self,
        pool: &mut Database,
        name: String,
        description: String,
        body: String,
        inputs: Vec<TemplateInput>,
    ) -> (added: ServiceResult<TemplateResponse>)
        requires
            old(pool).wf(),
        ensures
            final(pool).wf(),
            match add_template_refusal(old(pool)@, name@, inputs@.len()) {
                Some(refusal) => added matches Err(error) && error@ == refusal && final(pool)@
                    == old(pool)@,
                None => added matches Ok(response) && response@ == old(pool)@.created(
                    name@,
                    description@,
                    body@,
                    inputs_view(inputs@),
                ).response() && final(pool)@ == old(pool)@.with_created(
                    name@,
                    description@,
                    body@,
                    inputs_view(inputs@),
                ) && final(pool)@.get(name@) == Some(
                    old(pool)@.created(name@, description@, body@, inputs_view(inputs@)),
                ),
            },
    ;

    /// Removes the template with this name together with its inputs, and
    /// reports it as it was stored. An unknown name is a conflict.
    fn remove_template(&self, pool: &mut Database, name: String) -> (removed: ServiceResult<
        TemplateResponse,
    >)
        requires
            old(pool).wf(),
        ensures
            final(pool).wf(),
            match old(pool)@.get(name@) {
                Some(entity) => removed matches Ok(response) && response@ == entity.response()
                    && final(pool)@ == old(pool)@.without_template(name@)
                    && final(pool)@.inputs_of(entity.id).len() == 0,
                None => removed matches Err(error) && error@ == nothing_to_remove_error()
                    && final(pool)@ == old(pool)@,
            },
            final(pool)@.get(name@) is None,
    ;

    /// Reports one page of the stored templates and the number of templates
    /// stored in all. A negative offset or limit counts as zero.
    fn list_templates(&self, pool: &Database, request: ListTemplateRequest) -> (listed:
        ServiceResult<ListTemplateResponse>)
        requires
            pool.wf(),
        ensures
            listed matches Ok(response) && responses_view(response.templates@)
                == reported_templates(page(pool@.entities(), request.offset, request.limit))
                && response.count == pool@.templates.len(),
    ;

    /// Renders the template with this name over its default values and the
    /// overrides given. An unknown name is not found, and it alone; a
    /// template that is found is rendered, or the rendering fails with the
    /// one internal error, as it does for every body that is kept away from
    /// the engine.
    fn compose(&self, pool: &Database, name: String, inputs: Vec<InputValue>) -> (text:
        ServiceResult<String>)
        requires
            pool.wf(),
        ensures
            match pool@.get(name@) {
                Some(entity) => (!engine_takes(entity.body) ==> text is Err) && (text matches Err(
                    error,
                ) ==> error@ == render_failure()),
                None => text matches Err(error) && error@ == not_found_error(),
            },
    ;
}

/// The templating service over the two stores.
#[derive(Clone, Copy, Debug)]
pub struct TemplatingService {
    template_repository: TemplateRepository,
    inputs_repository: InputRepository,
}

impl TemplatingService {
    /// A service over the two stores.
    pub fn new(template_repository: TemplateRepository, inputs_repository: InputRepository) -> Self {
        TemplatingService { template_repository, inputs_repository }
    }
}

impl TemplatingServiceTrait for TemplatingService {
    fn add_template(
        &self,
        pool: &mut Database,
        name: String,
        description: String,
        body: String,
        inputs: Vec<TemplateInput>,
    ) -> (added: ServiceResult<TemplateResponse>) {
        let existing_template = self.template_repository.get_template(pool, name.as_str());
        match check_new_template(&existing_template, &inputs) {
            Ok(()) => {},
            Err(error) => {
                return Err(error);
            },
        }
        match self.template_repository.add_template(
            pool,
            name.as_str(),
            description.as_str(),
            body.as_str(),
            &inputs,
        ) {
            Ok(created_template) => Ok(created_template.into_template_response()),
            Err(error) => Err(storage_failure(error)),
        }
    }

    fn remove_template(&self, pool: &mut Database, name: String) -> (removed: ServiceResult<
        TemplateResponse,
    >) {
        let existing_template = self.template_repository.get_template(pool, name.as_str());
        match existing_for_removal(existing_template) {
            Ok(template) => {
                self.template_repository.remove_template(pool, name.as_str());
                Ok(template.into_template_response())
            },
            Err(error) => Err(error),
        }
    }

    fn list_templates(&self, pool: &Database, request: ListTemplateRequest) -> (listed:
        ServiceResult<ListTemplateResponse>) {
        let templates = self.template_repository.list_templates(
            pool,
            request.offset,
            request.limit,
        );
        let count = self.template_repository.get_templates_count(pool);
        let ghost wanted = reported_templates(entities_view(templates@));
        let mut responses: Vec<TemplateResponse> = Vec::new();
        let mut at: usize = 0;
        while at < templates.len()
            invariant
                at <= templates.len(),
                wanted == reported_templates(entities_view(templates@)),
                responses_view(responses@) == wanted.take(at as int),
            decreases templates.len() - at,
        {
            let ghost before = responses_view(responses@);
            let response = templates[at].to_template_response();
            assert(response@ == wanted[at as int]);
            responses.push(response);
            assert(responses_view(responses@) == before.push(wanted[at as int]));
            assert(wanted.take(at + 1) == wanted.take(at as int).push(wanted[at as int]));
            at += 1;
        }
        assert(wanted.take(at as int) == wanted);
        Ok(ListTemplateResponse { templates: responses, count })
    }

    fn compose(&self, pool: &Database, name: String, inputs: Vec<InputValue>) -> (text:
        ServiceResult<String>) {
        let existing_template = self.template_repository.get_template(pool, name.as_str());
        let source = match existing_for_compose(existing_template) {
            Ok(template) => template,
            Err(error) => {
                return Err(error);
            },
        };
        let default_inputs = self.inputs_repository.get_template_inputs(pool, source.name.as_str());
        compose(source.body.as_str(), &into_inputs(&default_inputs), &inputs)
    }
}

} // verus!
