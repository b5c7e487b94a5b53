use templating::errors::ErrorKind;
use templating::handler::templating::RequestHandler;
use templating::messages::{
    AddTemplateRequest, ComposeRequest, InputValue, ListTemplateRequest, RemoveTemplateRequest,
    TemplateInput,
};
use templating::repository::database::Database;
use templating::repository::input::InputRepository;
use templating::repository::template::{TemplateRepository, TemplateRepositoryTrait};
use templating::service::templating::TemplatingService;

struct AllTraits {
    pool: Database,
    handler: RequestHandler,
    templates_repository: TemplateRepository,
}

fn initialize_handler() -> AllTraits {
    let inputs_repository = InputRepository::new();
    let templates_repository = TemplateRepository::new(inputs_repository);
    let templating_service = TemplatingService::new(templates_repository, inputs_repository);
    let handler = RequestHandler::new(templating_service);
    AllTraits { pool: Database::new(), templates_repository, handler }
}

fn one_input() -> Vec<TemplateInput> {
    vec![TemplateInput { name: "input_name".to_string(), default_value: "default_value".to_string() }]
}

#[test]
fn mod_add_template_test() {
    let mut all_traits = initialize_handler();

    let input = TemplateInput {
        name: "input_name".to_string(),
        default_value: "default_value".to_string(),
    };
    let template_name = "template_name";
    let template_description = "template_description";

    let request = AddTemplateRequest {
        name: template_name.to_string(),
        description: template_description.to_string(),
        body: "<p>{{input}}</p>".to_string(),
        template_inputs: vec![input],
    };

    all_traits.handler.add_template(&mut all_traits.pool, request).unwrap();

    let created_template =
        all_traits.templates_repository.get_template(&all_traits.pool, template_name);

    assert_eq!(created_template.unwrap().description, template_description);
}

#[test]
fn handler_remove_template_test() {
    let mut all_traits = initialize_handler();

    let template_name = "template_name";
    let template_description = "template_description";
    let input = one_input();

    all_traits
        .templates_repository
        .add_template(
            &mut all_traits.pool,
            template_name,
            template_description,
            "template body {{input_name}}",
            &input,
        )
        .unwrap();

    let request = RemoveTemplateRequest { name: template_name.to_string() };

    all_traits.handler.remove_template(&mut all_traits.pool, request).unwrap();

    let get_template = all_traits.templates_repository.get_template(&all_traits.pool, template_name);

    assert!(get_template.is_none());
}

#[test]
fn mod_list_templates_test() {
    let mut all_traits = initialize_handler();

    let template_name = "template_name";
    let input = one_input();

    all_traits
        .templates_repository
        .add_template(
            &mut all_traits.pool,
            template_name,
            "template_description",
            "template body {input_name}",
            &input,
        )
        .unwrap();

    let request = ListTemplateRequest { offset: 0, limit: i64::MAX };

    let templates_list =
        all_traits.handler.list_templates(&all_traits.pool, request).unwrap().templates;

    assert_eq!(templates_list.len(), 1);
    assert_eq!(templates_list.first().unwrap().name, template_name);
}

#[test]
fn mod_compose_test() {
    let mut all_traits = initialize_handler();

    let template_name = "template_name";
    let input_name = "input_name";
    let input = vec![TemplateInput {
        name: input_name.to_string(),
        default_value: "default_value".to_string(),
    }];

    all_traits
        .templates_repository
        .add_template(
            &mut all_traits.pool,
            template_name,
            "template_description",
            "composed text: {{input_name}}",
            &input,
        )
        .unwrap();

    let request = ComposeRequest { name: template_name.to_string(), input_values: vec![] };

    let composed_text = all_traits.handler.compose(&all_traits.pool, request).unwrap().result;

    assert_eq!(composed_text, "composed text: default_value");

    let input = InputValue { name: input_name.to_string(), value: "value".to_string() };

    let request = ComposeRequest { name: template_name.to_string(), input_values: vec![input] };

    let composed_text = all_traits.handler.compose(&all_traits.pool, request).unwrap().result;

    assert_eq!(composed_text, "composed text: value");
}

#[test]
fn handler_passes_failures_on() {
    let mut all = initialize_handler();
    let error = all
        .handler
        .add_template(
            &mut all.pool,
            AddTemplateRequest {
                name: "t".to_string(),
                description: "d".to_string(),
                body: "b".to_string(),
                template_inputs: vec![],
            },
        )
        .unwrap_err();
    assert_eq!(error.kind(), ErrorKind::BadRequest);
    let error = all
        .handler
        .remove_template(&mut all.pool, RemoveTemplateRequest { name: "t".to_string() })
        .unwrap_err();
    assert_eq!(error.kind(), ErrorKind::Conflict);
    let error = all
        .handler
        .compose(&all.pool, ComposeRequest { name: "t".to_string(), input_values: vec![] })
        .unwrap_err();
    assert_eq!(error.kind(), ErrorKind::NotFound);
}
