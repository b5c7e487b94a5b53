use templating::config::AppConfig;
use templating::errors::{ErrorKind, ServiceError};
use templating::messages::{InputValue, TemplateInput, TemplateResponse};
use templating::repository::database::page_bounds;
use templating::repository::input::InputEntity;
use templating::repository::template::{into_inputs, TemplateEntity, TemplateInputsEntity};
use templating::service::compose::render_outcome;
use templating::service::templating::{existing_for_compose, existing_for_removal};

fn row(id: i64, name: &str, default_value: &str) -> InputEntity {
    InputEntity {
        id,
        name: name.to_string(),
        default_value: default_value.to_string(),
        template_id: 9,
    }
}

fn entity() -> TemplateInputsEntity {
    TemplateInputsEntity::new(
        TemplateEntity {
            id: 9,
            created_at: 5,
            updated_at: 6,
            name: "n".to_string(),
            description: "d".to_string(),
            body: "b".to_string(),
        },
        vec![row(1, "x", "dx"), row(2, "y", "")],
    )
}

fn expected_response() -> Vec<TemplateInput> {
    vec![
        TemplateInput { name: "x".to_string(), default_value: "dx".to_string() },
        TemplateInput { name: "y".to_string(), default_value: String::new() },
    ]
}

#[test]
fn entity_joins_row_and_inputs() {
    let e = entity();
    assert_eq!((e.id, e.created_at, e.updated_at), (9, 5, 6));
    assert_eq!((e.name.as_str(), e.description.as_str(), e.body.as_str()), ("n", "d", "b"));
    assert_eq!(e.inputs, vec![row(1, "x", "dx"), row(2, "y", "")]);
}

#[test]
fn entity_into_response_drops_ids_and_body() {
    let response = entity().into_template_response();
    assert_eq!(response.name, "n");
    assert_eq!(response.description, "d");
    assert_eq!(response.template_inputs, expected_response());

    let kept = entity();
    let response = kept.to_template_response();
    assert_eq!(response.template_inputs, expected_response());
    assert_eq!(kept.inputs.len(), 2);

    let response: TemplateResponse = entity().into();
    assert_eq!(response.name, "n");
    assert_eq!(response.template_inputs, expected_response());
}

#[test]
fn input_row_into_input() {
    let input: TemplateInput = row(3, "x", "dx").into();
    assert_eq!(input, TemplateInput { name: "x".to_string(), default_value: "dx".to_string() });
    assert_eq!(into_inputs(&vec![row(1, "x", "dx"), row(2, "y", "")]), expected_response());
    assert_eq!(into_inputs(&vec![]), vec![]);
}

#[test]
fn equality_goes_by_every_field() {
    assert_eq!(row(1, "x", "dx"), row(1, "x", "dx").clone());
    assert_ne!(row(1, "x", "dx"), row(2, "x", "dx"));
    assert_ne!(row(1, "x", "dx"), row(1, "y", "dx"));
    assert_ne!(row(1, "x", "dx"), row(1, "x", "dy"));
    let mut other = row(1, "x", "dx");
    other.template_id = 10;
    assert_ne!(row(1, "x", "dx"), other);

    let value = InputValue { name: "a".to_string(), value: "b".to_string() };
    assert_eq!(value, value.clone());
    assert_ne!(value, InputValue { name: "a".to_string(), value: "c".to_string() });
    assert_ne!(value, InputValue { name: "c".to_string(), value: "b".to_string() });
}

#[test]
fn page_bounds_clamp() {
    assert_eq!(page_bounds(3, 1, 1), (1, 2));
    assert_eq!(page_bounds(3, 0, 10), (0, 3));
    assert_eq!(page_bounds(3, 3, 1), (3, 3));
    assert_eq!(page_bounds(3, 7, 1), (3, 3));
    assert_eq!(page_bounds(3, -1, 2), (0, 2));
    assert_eq!(page_bounds(3, 2, -2), (2, 2));
    assert_eq!(page_bounds(0, 0, 5), (0, 0));
    assert_eq!(page_bounds(3, i64::MAX, i64::MAX), (3, 3));
    assert_eq!(page_bounds(3, 1, i64::MAX), (1, 3));
    assert_eq!(page_bounds(usize::MAX, 0, 1), (0, 1));
}

#[test]
fn what_was_found_decides() {
    assert_eq!(existing_for_removal(Some(entity())).unwrap().id, 9);
    assert_eq!(existing_for_compose(Some(entity())).unwrap().id, 9);
    let error = existing_for_removal(None).unwrap_err();
    assert_eq!(
        (error.kind(), error.message().as_str()),
        (ErrorKind::Conflict, "template name does not exist")
    );
    let error = existing_for_compose(None).unwrap_err();
    assert_eq!(
        (error.kind(), error.message().as_str()),
        (ErrorKind::NotFound, "template name does not exist")
    );
}

#[test]
fn engine_outcomes_as_results() {
    assert_eq!(render_outcome(Ok("text".to_string())).unwrap(), "text");
    let failed = handlebars::Handlebars::new().render_template("{{", &()).unwrap_err();
    let error = render_outcome(Err(failed)).unwrap_err();
    assert!(matches!(error, ServiceError::InternalServerErrorWithContext(_)));
    assert_eq!(error.message(), "Failed to render template");
}

#[test]
fn config_holds_its_settings() {
    let config = AppConfig {
        database_url: "postgres://localhost/templating".to_string(),
        rust_log: "info".to_string(),
        service_url: "0.0.0.0".to_string(),
        service_port: 50051,
        run_migrations: true,
        seed: false,
    };
    assert_eq!(config.service_port, 50051);
    assert!(config.run_migrations && !config.seed);
}
