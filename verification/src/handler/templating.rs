//! The request handler: takes a request apart, calls the service, and wraps
//! what comes back.

use crate::errors::ServiceResult;
use crate::messages::{
    inputs_view, responses_view, AddTemplateRequest, ComposeRequest, ComposeResponse,
    ListTemplateRequest, ListTemplateResponse, RemoveTemplateRequest, TemplateResponse,
};
use crate::repository::database::{page, Database};
use crate::service::compose::render_failure;
use crate::service::guard::engine_takes;
use crate::service::templating::{
    add_template_refusal, not_found_error, nothing_to_remove_error, reported_templates,
    TemplatingService, TemplatingServiceTrait,
};
use vstd::prelude::*;

verus! {

/// Serves the four operations of the templating interface.
#[derive(Clone, Copy, Debug)]
pub struct RequestHandler {
    templating_service: TemplatingService,
}

impl RequestHandler {
    /// A handler in front of `templating_service`.
    pub fn new(templating_service: TemplatingService) -> Self {
        RequestHandler { templating_service }
    }

    /// Creates the template that the request describes and reports it.
    pub fn add_template(&self, pool: &mut Database, request: AddTemplateRequest) -> (added:
        ServiceResult<TemplateResponse>)
        requires
            old(pool).wf(),
        ensures
            final(pool).wf(),
            match add_template_refusal(old(pool)@, request.name@, request.template_inputs@.len()) {
                Some(refusal) => added matches Err(error) && error@ == refusal && final(pool)@
                    == old(pool)@,
                None => added matches Ok(response) && response@ == old(pool)@.created(
                    request.name@,
                    request.description@,
                    request.body@,
                    inputs_view(request.template_inputs@),
                ).response() && final(pool)@ == old(pool)@.with_created(
                    request.name@,
                    request.description@,
                    request.body@,
                    inputs_view(request.template_inputs@),
                ) && final(pool)@.get(request.name@) == Some(
                    old(pool)@.created(
                        request.name@,
                        request.description@,
                        request.body@,
                        inputs_view(request.template_inputs@),
                    ),
                ),
            },
    {
        let req = request;
        self.templating_service.add_template(
            pool,
            req.name,
            req.description,
            req.body,
            req.template_inputs,
        )
    }

    /// Removes the template that the request names and reports it as it was
    /// stored.
    pub fn remove_template(&self, pool: &mut Database, request: RemoveTemplateRequest) -> (removed:
        ServiceResult<TemplateResponse>)
        requires
            old(pool).wf(),
        ensures
            final(pool).wf(),
            match old(pool)@.get(request.name@) {
                Some(entity) => removed matches Ok(response) && response@ == entity.response()
                    && final(pool)@ == old(pool)@.without_template(request.name@)
                    && final(pool)@.inputs_of(entity.id).len() == 0,
                None => removed matches Err(error) && error@ == nothing_to_remove_error()
                    && final(pool)@ == old(pool)@,
            },
            final(pool)@.get(request.name@) is None,
    {
        let req = request;
        self.templating_service.remove_template(pool, req.name)
    }

    /// Reports the page of templates that the request asks for, and the
    /// number of templates stored in all.
    pub fn list_templates(&self, pool: &Database, request: ListTemplateRequest) -> (listed:
        ServiceResult<ListTemplateResponse>)
        requires
            pool.wf(),
        ensures
            listed matches Ok(response) && responses_view(response.templates@)
                == reported_templates(page(pool@.entities(), request.offset, request.limit))
                && response.count == pool@.templates.len(),
    {
        self.templating_service.list_templates(pool, request)
    }

    /// Renders the template that the request names over its default values
    /// and the values of the request. An unknown name is not found, and it
    /// alone; the rendering of a template that is found gives its text or
    /// fails with the one internal error.
    pub fn compose(&self, pool: &Database, request: ComposeRequest) -> (response: ServiceResult<
        ComposeResponse,
    >)
        requires
            pool.wf(),
        ensures
            match pool@.get(request.name@) {
                Some(entity) => (!engine_takes(entity.body) ==> response is Err) && (
                response matches Err(error) ==> error@ == render_failure()),
                None => response matches Err(error) && error@ == not_found_error(),
            },
    {
        let req = request;
        match self.templating_service.compose(pool, req.name, req.input_values) {
            Ok(result) => Ok(ComposeResponse { result }),
            Err(error) => Err(error),
        }
    }
}

} // verus!
