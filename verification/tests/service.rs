use templating::errors::{ErrorKind, ServiceError, StorageError};
use templating::messages::{InputValue, ListTemplateRequest, TemplateInput};
use templating::repository::database::Database;
use templating::repository::input::{InputRepository, InputRepositoryTrait};
use templating::repository::template::{TemplateRepository, TemplateRepositoryTrait};
use templating::service::templating::{
    check_new_template, storage_failure, TemplatingService, TemplatingServiceTrait,
};

struct AllTraits {
    pool: Database,
    templating_service: TemplatingService,
    templates_repository: TemplateRepository,
    inputs_repository: InputRepository,
}

fn initialize_service() -> AllTraits {
    let inputs_repository = InputRepository::new();
    let templates_repository = TemplateRepository::new(inputs_repository);
    let templating_service = TemplatingService::new(templates_repository, inputs_repository);
    AllTraits { pool: Database::new(), templating_service, templates_repository, inputs_repository }
}

fn one_input() -> Vec<TemplateInput> {
    vec![TemplateInput { name: "input_name".to_string(), default_value: "default_value".to_string() }]
}

fn everything() -> ListTemplateRequest {
    ListTemplateRequest { offset: 0, limit: i64::MAX }
}

#[test]
fn add_template_test() {
    let mut all_traits = initialize_service();

    let input = TemplateInput {
        name: "input_name".to_string(),
        default_value: "default_value".to_string(),
    };
    let template_name = "template_name";
    let template_description = "template_description";

    all_traits
        .templating_service
        .add_template(
            &mut all_traits.pool,
            template_name.to_string(),
            template_description.to_string(),
            "<p>{input}</p>".to_string(),
            vec![input],
        )
        .unwrap();

    let created_template =
        all_traits.templates_repository.get_template(&all_traits.pool, template_name);

    assert_eq!(created_template.unwrap().description, template_description);
}

#[test]
fn mod_remove_template_test() {
    let mut all_traits = initialize_service();

    let template_name = "template_name";
    let template_description = "template_description";
    let input = one_input();

    all_traits
        .templates_repository
        .add_template(
            &mut all_traits.pool,
            template_name,
            template_description,
            "template body {input_name}",
            &input,
        )
        .unwrap();

    all_traits
        .templating_service
        .remove_template(&mut all_traits.pool, template_name.to_string())
        .unwrap();

    let get_template = all_traits.templates_repository.get_template(&all_traits.pool, template_name);

    assert!(get_template.is_none());
}

#[test]
fn list_templates_test() {
    let mut all_traits = initialize_service();

    let template_name = "template_name";
    let input = one_input();

    all_traits
        .templates_repository
        .add_template(
            &mut all_traits.pool,
            template_name,
            "template_description",
            "template body {input_name}",
            &input,
        )
        .unwrap();

    let templates_list =
        all_traits.templating_service.list_templates(&all_traits.pool, everything()).unwrap().templates;

    assert_eq!(templates_list.len(), 1);
    assert_eq!(templates_list.first().unwrap().name, template_name);
}

#[test]
fn compose_test() {
    let mut all_traits = initialize_service();

    let template_name = "template_name";
    let input_name = "input_name";
    let input = vec![TemplateInput {
        name: input_name.to_string(),
        default_value: "default_value".to_string(),
    }];

    all_traits
        .templates_repository
        .add_template(
            &mut all_traits.pool,
            template_name,
            "template_description",
            "composed text: {{input_name}}",
            &input,
        )
        .unwrap();

    let composed_text = all_traits
        .templating_service
        .compose(&all_traits.pool, template_name.to_string(), vec![])
        .unwrap();

    assert_eq!(&composed_text, "composed text: default_value");

    let input = InputValue { name: input_name.to_string(), value: "value".to_string() };

    let composed_text = all_traits
        .templating_service
        .compose(&all_traits.pool, template_name.to_string(), vec![input])
        .unwrap();

    assert_eq!(&composed_text, "composed text: value");
}

#[test]
fn round_trip_of_a_created_template() {
    let mut all = initialize_service();
    let response = all
        .templating_service
        .add_template(
            &mut all.pool,
            "t".to_string(),
            "d".to_string(),
            "{{x}}".to_string(),
            vec![TemplateInput { name: "x".to_string(), default_value: "dv".to_string() }],
        )
        .unwrap();
    assert_eq!(response.name, "t");
    assert_eq!(response.description, "d");
    assert_eq!(response.template_inputs.len(), 1);
    assert_eq!(response.template_inputs[0].name, "x");
    assert_eq!(response.template_inputs[0].default_value, "dv");

    let found = all.templates_repository.get_template(&all.pool, "t").unwrap();
    assert_eq!(found.description, "d");
    assert_eq!(found.body, "{{x}}");
    assert_eq!(found.inputs.len(), 1);
    assert_eq!(found.inputs[0].name, "x");
    assert_eq!(found.inputs[0].default_value, "dv");
    assert_eq!(found.inputs[0].template_id, found.id);
}

#[test]
fn deletion_cascades() {
    let mut all = initialize_service();
    let created = all
        .templates_repository
        .add_template(&mut all.pool, "t", "d", "{{x}}", &one_input())
        .unwrap();
    let snapshot = all.templating_service.remove_template(&mut all.pool, "t".to_string()).unwrap();
    assert_eq!(snapshot.name, "t");
    assert_eq!(snapshot.description, "d");
    assert_eq!(snapshot.template_inputs.len(), 1);
    assert_eq!(snapshot.template_inputs[0].name, "input_name");
    assert!(all.templates_repository.get_template(&all.pool, "t").is_none());
    assert_eq!(all.inputs_repository.list_inputs(&all.pool, created.id).len(), 0);
    assert_eq!(all.inputs_repository.get_template_inputs(&all.pool, "t").len(), 0);
}

#[test]
fn compose_default_and_override_paths() {
    let mut all = initialize_service();
    all.templating_service
        .add_template(
            &mut all.pool,
            "t".to_string(),
            "d".to_string(),
            "hi {{x}}".to_string(),
            vec![TemplateInput { name: "x".to_string(), default_value: "dv".to_string() }],
        )
        .unwrap();
    let text = all.templating_service.compose(&all.pool, "t".to_string(), vec![]).unwrap();
    assert_eq!(text, "hi dv");
    let text = all
        .templating_service
        .compose(
            &all.pool,
            "t".to_string(),
            vec![InputValue { name: "x".to_string(), value: "ov".to_string() }],
        )
        .unwrap();
    assert_eq!(text, "hi ov");
}

#[test]
fn rejects_creation_without_inputs() {
    let mut all = initialize_service();
    let error = all
        .templating_service
        .add_template(&mut all.pool, "t".to_string(), "d".to_string(), "b".to_string(), vec![])
        .unwrap_err();
    assert!(matches!(error, ServiceError::BadRequest(_)));
    assert_eq!(error.kind(), ErrorKind::BadRequest);
    assert_eq!(error.message(), "Cannot create template with no inputs");
    assert!(all.templates_repository.get_template(&all.pool, "t").is_none());
    assert_eq!(all.templates_repository.get_templates_count(&all.pool), 0);
}

#[test]
fn no_inputs_is_reported_before_a_taken_name() {
    let mut all = initialize_service();
    all.templates_repository.add_template(&mut all.pool, "t", "d", "b", &one_input()).unwrap();
    let error = all
        .templating_service
        .add_template(&mut all.pool, "t".to_string(), "d".to_string(), "b".to_string(), vec![])
        .unwrap_err();
    assert_eq!(error.kind(), ErrorKind::BadRequest);
}

#[test]
fn rejects_a_duplicate_name() {
    let mut all = initialize_service();
    all.templating_service
        .add_template(&mut all.pool, "t".to_string(), "d".to_string(), "b".to_string(), one_input())
        .unwrap();
    let error = all
        .templating_service
        .add_template(&mut all.pool, "t".to_string(), "e".to_string(), "c".to_string(), one_input())
        .unwrap_err();
    assert!(matches!(error, ServiceError::ObjectConflict(_)));
    assert_eq!(error.kind(), ErrorKind::Conflict);
    assert_eq!(error.message(), "template name is taken");

    let listed = all.templating_service.list_templates(&all.pool, everything()).unwrap();
    assert_eq!(listed.count, 1);
    let named: Vec<&str> =
        listed.templates.iter().filter(|t| t.name == "t").map(|t| t.description.as_str()).collect();
    assert_eq!(named, vec!["d"]);
}

#[test]
fn remove_of_an_unknown_name_is_a_conflict() {
    let mut all = initialize_service();
    let error =
        all.templating_service.remove_template(&mut all.pool, "nobody".to_string()).unwrap_err();
    assert!(matches!(error, ServiceError::ObjectConflict(_)));
    assert_eq!(error.message(), "template name does not exist");
}

#[test]
fn compose_of_an_unknown_name_is_not_found() {
    let all = initialize_service();
    let error =
        all.templating_service.compose(&all.pool, "nobody".to_string(), vec![]).unwrap_err();
    assert!(matches!(error, ServiceError::NotFound(_)));
    assert_eq!(error.kind(), ErrorKind::NotFound);
    assert_eq!(error.message(), "template name does not exist");
}

#[test]
fn compose_failure_is_internal() {
    let mut all = initialize_service();
    all.templating_service
        .add_template(
            &mut all.pool,
            "broken".to_string(),
            "d".to_string(),
            "hi {{x".to_string(),
            one_input(),
        )
        .unwrap();
    let error = all.templating_service.compose(&all.pool, "broken".to_string(), vec![]).unwrap_err();
    assert!(matches!(error, ServiceError::InternalServerErrorWithContext(_)));
    assert_eq!(error.message(), "Failed to render template");
}

#[test]
fn pagination_through_the_service() {
    let mut all = initialize_service();
    for name in ["a", "b", "c"] {
        all.templating_service
            .add_template(
                &mut all.pool,
                name.to_string(),
                "d".to_string(),
                "b".to_string(),
                one_input(),
            )
            .unwrap();
    }
    let listed = all
        .templating_service
        .list_templates(&all.pool, ListTemplateRequest { offset: 1, limit: 1 })
        .unwrap();
    assert_eq!(listed.templates.len(), 1);
    assert_eq!(listed.templates[0].name, "b");
    assert_eq!(listed.templates[0].template_inputs.len(), 1);
    assert_eq!(listed.count, 3);

    let listed = all
        .templating_service
        .list_templates(&all.pool, ListTemplateRequest { offset: -1, limit: -1 })
        .unwrap();
    assert_eq!(listed.templates.len(), 0);
    assert_eq!(listed.count, 3);
}

#[test]
fn decisions_on_what_was_found() {
    let mut all = initialize_service();
    let entity =
        all.templates_repository.add_template(&mut all.pool, "t", "d", "b", &one_input()).unwrap();
    assert!(check_new_template(&None, &one_input()).is_ok());
    let error = check_new_template(&None, &vec![]).unwrap_err();
    assert_eq!(error.kind(), ErrorKind::BadRequest);
    let error = check_new_template(&Some(entity), &one_input()).unwrap_err();
    assert_eq!(error.kind(), ErrorKind::Conflict);
}

#[test]
fn storage_failures_as_the_service_reports_them() {
    let e = storage_failure(StorageError::UniqueViolation);
    assert_eq!((e.kind(), e.message().as_str()), (ErrorKind::Conflict, "template name is taken"));
    let e = storage_failure(StorageError::ForeignKeyViolation);
    assert_eq!(
        (e.kind(), e.message().as_str()),
        (ErrorKind::Internal, "an unexpected error occured while creating the input")
    );
    let e = storage_failure(StorageError::SequenceExhausted);
    assert_eq!(
        (e.kind(), e.message().as_str()),
        (ErrorKind::Internal, "an unexpected error occured while creating the template")
    );
}

#[test]
fn exhausted_ids_are_internal_and_store_nothing() {
    let mut all = initialize_service();
    all.pool = Database::with_first_ids(i64::MAX, 1).unwrap();
    let error = all
        .templating_service
        .add_template(&mut all.pool, "t".to_string(), "d".to_string(), "b".to_string(), one_input())
        .unwrap_err();
    assert_eq!(error.kind(), ErrorKind::Internal);
    assert_eq!(error.message(), "an unexpected error occured while creating the template");
    assert_eq!(all.templates_repository.get_templates_count(&all.pool), 0);
}
