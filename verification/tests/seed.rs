use templating::errors::ErrorKind;
use templating::messages::{InputValue, TemplateInput};
use templating::repository::database::Database;
use templating::repository::input::InputRepository;
use templating::repository::template::{TemplateRepository, TemplateRepositoryTrait};
use templating::seed::{SeedService, TEMPLATING_REGISTRATION_NAME, TEMPLATING_VERIFIED_NAME};
use templating::service::templating::{TemplatingService, TemplatingServiceTrait};

fn services() -> (SeedService, TemplatingService, TemplateRepository) {
    let inputs_repository = InputRepository::new();
    let templates_repository = TemplateRepository::new(inputs_repository);
    let templating_service = TemplatingService::new(templates_repository, inputs_repository);
    (SeedService::new(templating_service, templates_repository), templating_service, templates_repository)
}

fn one_input() -> Vec<TemplateInput> {
    vec![TemplateInput { name: "name".to_string(), default_value: String::new() }]
}

#[test]
fn seed_stores_both_templates() {
    let (seed, service, repository) = services();
    let mut pool = Database::new();
    seed.seed(&mut pool).unwrap();
    assert_eq!(repository.get_templates_count(&pool), 2);

    let registration = repository.get_template(&pool, "registration").unwrap();
    assert_eq!(registration.description, "Registration email template");
    let inputs: Vec<(&str, &str)> = registration
        .inputs
        .iter()
        .map(|i| (i.name.as_str(), i.default_value.as_str()))
        .collect();
    assert_eq!(inputs, vec![("name", ""), ("verification_token", "")]);

    let verified = repository.get_template(&pool, "verified").unwrap();
    assert_eq!(verified.description, "Verified registration email template");
    assert_eq!(verified.inputs.len(), 1);
    assert_eq!(verified.inputs[0].name, "name");

    let text = service
        .compose(
            &pool,
            "verified".to_string(),
            vec![InputValue { name: "name".to_string(), value: "Ann".to_string() }],
        )
        .unwrap();
    assert_eq!(
        text,
        "<p>You are now verified to the system as Ann</p></br><p>Enjoy using our application</p>"
    );
    let text = service
        .compose(
            &pool,
            "registration".to_string(),
            vec![
                InputValue { name: "name".to_string(), value: "Ann".to_string() },
                InputValue { name: "verification_token".to_string(), value: "tok".to_string() },
            ],
        )
        .unwrap();
    assert_eq!(
        text,
        "<p>You are now registered to the system, Ann</p></br><p>Please click the link below to complete the registration</p></br><a href='tok'>Verify user</a>"
    );
}

#[test]
fn seed_twice_changes_nothing() {
    let (seed, _, repository) = services();
    let mut pool = Database::new();
    seed.seed(&mut pool).unwrap();
    seed.seed(&mut pool).unwrap();
    assert_eq!(repository.get_templates_count(&pool), 2);
    assert_eq!(repository.get_template(&pool, TEMPLATING_REGISTRATION_NAME).unwrap().id, 1);
    assert_eq!(repository.get_template(&pool, TEMPLATING_VERIFIED_NAME).unwrap().id, 2);
}

#[test]
fn seed_stops_at_a_taken_registration_name() {
    let (seed, _, repository) = services();
    let mut pool = Database::new();
    repository.add_template(&mut pool, "registration", "mine", "b", &one_input()).unwrap();
    let error = seed.seed(&mut pool).unwrap_err();
    assert_eq!(error.kind(), ErrorKind::Conflict);
    assert_eq!(repository.get_templates_count(&pool), 1);
    assert_eq!(repository.get_template(&pool, "registration").unwrap().description, "mine");
    assert!(repository.get_template(&pool, "verified").is_none());
}

#[test]
fn seed_keeps_registration_when_verified_is_taken() {
    let (seed, _, repository) = services();
    let mut pool = Database::new();
    repository.add_template(&mut pool, "verified", "mine", "b", &one_input()).unwrap();
    let error = seed.seed(&mut pool).unwrap_err();
    assert_eq!(error.kind(), ErrorKind::Conflict);
    assert_eq!(repository.get_templates_count(&pool), 2);
    assert_eq!(
        repository.get_template(&pool, "registration").unwrap().description,
        "Registration email template"
    );
    assert_eq!(repository.get_template(&pool, "verified").unwrap().description, "mine");
}
