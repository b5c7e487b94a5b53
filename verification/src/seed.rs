//! Seeding: the two templates that a fresh installation starts with.

use crate::errors::{ServiceError, ServiceResult};
use crate::messages::{
    inputs_view, responses_view, ListTemplateRequest, TemplateInput, TemplateInputView,
    TemplateResponse, TemplateResponseView,
};
use crate::repository::database::{Database, DatabaseView};
use crate::repository::template::{TemplateRepository, TemplateRepositoryTrait};
use crate::service::templating::{
    reported_templates, storage_failure, storage_failure_view, TemplatingService,
    TemplatingServiceTrait,
};
use vstd::prelude::*;

verus! {

pub const TEMPLATING_REGISTRATION_NAME: &'static str = "registration";

pub const TEMPLATING_REGISTRATION_DESCRIPTION: &'static str = "Registration email template";

pub const TEMPLATING_REGISTRATION_BODY: &'static str =
    "<p>You are now registered to the system, {{name}}</p></br><p>Please click the link below to complete the registration</p></br><a href='{{verification_token}}'>Verify user</a>";

pub const INPUT_REGISTRATION_NAME_LABEL: &'static str = "name";

pub const INPUT_REGISTRATION_NAME_DEFAULT_VALUE: &'static str = "";

pub const INPUT_REGISTRATION_VERIFICATION_TOKEN_LABEL: &'static str = "verification_token";

pub const INPUT_REGISTRATION_VERIFICATION_TOKEN_DEFAULT_VALUE: &'static str = "";

pub const TEMPLATING_VERIFIED_NAME: &'static str = "verified";

pub const TEMPLATING_VERIFIED_DESCRIPTION: &'static str = "Verified registration email template";

pub const TEMPLATING_VERIFIED_BODY: &'static str =
    "<p>You are now verified to the system as {{name}}</p></br><p>Enjoy using our application</p>";

pub const INPUT_VERIFIED_NAME_LABEL: &'static str = "name";

pub const INPUT_VERIFIED_USERNAME_DEFAULT_VALUE: &'static str = "";

/// The inputs of the registration template.
pub open spec fn registration_inputs() -> Seq<TemplateInputView> {
    seq![
        TemplateInputView {
            name: INPUT_REGISTRATION_NAME_LABEL@,
            default_value: INPUT_REGISTRATION_NAME_DEFAULT_VALUE@,
        },
        TemplateInputView {
            name: INPUT_REGISTRATION_VERIFICATION_TOKEN_LABEL@,
            default_value: INPUT_REGISTRATION_VERIFICATION_TOKEN_DEFAULT_VALUE@,
        },
    ]
}

/// The inputs of the verified template.
pub open spec fn verified_inputs() -> Seq<TemplateInputView> {
    seq![
        TemplateInputView {
            name: INPUT_VERIFIED_NAME_LABEL@,
            default_value: INPUT_VERIFIED_USERNAME_DEFAULT_VALUE@,
        },
    ]
}

/// Both seed templates are stored.
pub open spec fn seeded(db: DatabaseView) -> bool {
    db.has_name(TEMPLATING_REGISTRATION_NAME@) && db.has_name(TEMPLATING_VERIFIED_NAME@)
}

/// The state after the registration template was created.
pub open spec fn with_registration(db: DatabaseView) -> DatabaseView {
    db.with_created(
        TEMPLATING_REGISTRATION_NAME@,
        TEMPLATING_REGISTRATION_DESCRIPTION@,
        TEMPLATING_REGISTRATION_BODY@,
        registration_inputs(),
    )
}

/// The state after the verified template was created.
pub open spec fn with_verified(db: DatabaseView) -> DatabaseView {
    db.with_created(
        TEMPLATING_VERIFIED_NAME@,
        TEMPLATING_VERIFIED_DESCRIPTION@,
        TEMPLATING_VERIFIED_BODY@,
        verified_inputs(),
    )
}

/// A template of this name is among the listed ones.
pub open spec fn lists(templates: Seq<TemplateResponseView>, name: Seq<char>) -> bool {
    exists|i: int| 0 <= i < templates.len() && (#[trigger] templates[i]).name == name
}

/// Whether both seed templates are among the listed ones.
pub fn already_seeded(existing_templates: &Vec<TemplateResponse>) -> (both: bool)
    ensures
        both == (lists(responses_view(existing_templates@), TEMPLATING_REGISTRATION_NAME@) && lists(
            responses_view(existing_templates@),
            TEMPLATING_VERIFIED_NAME@,
        )),
{
    let ghost listed = responses_view(existing_templates@);
    let templating_registration_name = TEMPLATING_REGISTRATION_NAME.to_owned();
    let templating_verified_name = TEMPLATING_VERIFIED_NAME.to_owned();
    let mut registration = false;
    let mut verified = false;
    let mut at: usize = 0;
    while at < existing_templates.len()
        invariant
            at <= existing_templates.len(),
            templating_registration_name@ == TEMPLATING_REGISTRATION_NAME@,
            templating_verified_name@ == TEMPLATING_VERIFIED_NAME@,
            listed == responses_view(existing_templates@),
            registration <==> lists(listed.take(at as int), TEMPLATING_REGISTRATION_NAME@),
            verified <==> lists(listed.take(at as int), TEMPLATING_VERIFIED_NAME@),
        decreases existing_templates.len() - at,
    {
        let template = &existing_templates[at];
        proof {
            let seen = listed.take(at as int);
            let next = listed.take(at + 1);
            assert(next[at as int] == template@);
            assert forall|i: int| 0 <= i < seen.len() implies seen[i] == next[i] by {}
            if lists(seen, TEMPLATING_REGISTRATION_NAME@) {
                let i = choose|i: int|
                    0 <= i < seen.len() && (#[trigger] seen[i]).name == TEMPLATING_REGISTRATION_NAME@;
                assert(next[i].name == TEMPLATING_REGISTRATION_NAME@);
            }
            if lists(seen, TEMPLATING_VERIFIED_NAME@) {
                let i = choose|i: int|
                    0 <= i < seen.len() && (#[trigger] seen[i]).name == TEMPLATING_VERIFIED_NAME@;
                assert(next[i].name == TEMPLATING_VERIFIED_NAME@);
            }
            if lists(next, TEMPLATING_REGISTRATION_NAME@) && template@.name
                != TEMPLATING_REGISTRATION_NAME@ {
                let i = choose|i: int|
                    0 <= i < next.len() && (#[trigger] next[i]).name == TEMPLATING_REGISTRATION_NAME@;
                assert(seen[i].name == TEMPLATING_REGISTRATION_NAME@);
            }
            if lists(next, TEMPLATING_VERIFIED_NAME@) && template@.name != TEMPLATING_VERIFIED_NAME@ {
                let i = choose|i: int|
                    0 <= i < next.len() && (#[trigger] next[i]).name == TEMPLATING_VERIFIED_NAME@;
                assert(seen[i].name == TEMPLATING_VERIFIED_NAME@);
            }
        }
        if template.name == templating_registration_name {
            registration = true;
        }
        if template.name == templating_verified_name {
            verified = true;
        }
        at += 1;
    }
    assert(listed.take(at as int) == listed);
    registration && verified
}

/// The inputs that the registration template is seeded with.
pub fn registration_seed_inputs() -> (inputs: Vec<TemplateInput>)
    ensures
        inputs@.len() == 2,
        inputs_view(inputs@) == registration_inputs(),
{
    let inputs = vec![
        TemplateInput {
            name: INPUT_REGISTRATION_NAME_LABEL.to_owned(),
            default_value: INPUT_REGISTRATION_NAME_DEFAULT_VALUE.to_owned(),
        },
        TemplateInput {
            name: INPUT_REGISTRATION_VERIFICATION_TOKEN_LABEL.to_owned(),
            default_value: INPUT_REGISTRATION_VERIFICATION_TOKEN_DEFAULT_VALUE.to_owned(),
        },
    ];
    assert(inputs_view(inputs@) == registration_inputs());
    inputs
}

/// The inputs that the verified template is seeded with.
pub fn verified_seed_inputs() -> (inputs: Vec<TemplateInput>)
    ensures
        inputs@.len() == 1,
        inputs_view(inputs@) == verified_inputs(),
{
    let inputs = vec![
        TemplateInput {
            name: INPUT_VERIFIED_NAME_LABEL.to_owned(),
            default_value: INPUT_VERIFIED_USERNAME_DEFAULT_VALUE.to_owned(),
        },
    ];
    assert(inputs_view(inputs@) == verified_inputs());
    inputs
}

/// A listing that names every stored template lists a name exactly when a
/// template has it.
proof fn lemma_lists_stored(db: DatabaseView, listed: Seq<TemplateResponseView>, name: Seq<char>)
    requires
        listed.len() == db.templates.len(),
        forall|i: int| 0 <= i < listed.len() ==> (#[trigger] listed[i]).name == db.templates[i].name,
    ensures
        lists(listed, name) <==> db.has_name(name),
{
    if lists(listed, name) {
        let i = choose|i: int| 0 <= i < listed.len() && (#[trigger] listed[i]).name == name;
        assert(db.templates[i].name == name);
    }
    if db.has_name(name) {
        let i = db.position(name);
        assert(listed[i].name == name);
    }
}

/// Seeds a database through the service and the template store.
#[derive(Clone, Copy, Debug)]
pub struct SeedService {
    templating_service: TemplatingService,
    template_repository: TemplateRepository,
}

impl SeedService {
    /// A seeder that lists through `templating_service` and stores through
    /// `template_repository`.
    pub fn new(templating_service: TemplatingService, template_repository: TemplateRepository) -> Self {
        SeedService { templating_service, template_repository }
    }

    /// Stores the two seed templates unless both are stored already.
    ///
    /// Where both are stored, nothing changes. Otherwise the registration
    /// template is created and then the verified template; the first one
    /// that the store refuses ends the seeding with that failure, and what
    /// was created before it stays.
    pub fn seed(&self, pool: &mut Database) -> (done: ServiceResult<()>)
        requires
            old(pool).wf(),
        ensures
            final(pool).wf(),
            seeded(old(pool)@) ==> done is Ok && final(pool)@ == old(pool)@,
            !seeded(old(pool)@) ==> match old(pool)@.create_error(
                TEMPLATING_REGISTRATION_NAME@,
                2,
            ) {
                Some(error) => done matches Err(reported) && reported@ == storage_failure_view(
                    error,
                ) && final(pool)@ == old(pool)@,
                None => match with_registration(old(pool)@).create_error(
                    TEMPLATING_VERIFIED_NAME@,
                    1,
                ) {
                    Some(error) => done matches Err(reported) && reported@
                        == storage_failure_view(error) && final(pool)@ == with_registration(
                        old(pool)@,
                    ),
                    None => done is Ok && final(pool)@ == with_verified(
                        with_registration(old(pool)@),
                    ),
                },
            },
    {
        let everything = ListTemplateRequest { offset: 0, limit: i64::MAX };
        let existing_templates = match self.templating_service.list_templates(pool, everything) {
            Ok(listed) => listed.templates,
            Err(error) => {
                return Err(error);
            },
        };
        proof {
            let stored = reported_templates(pool@.entities());
            assert(responses_view(existing_templates@) == stored);
            assert(stored.len() == pool@.templates.len());
            assert forall|i: int| 0 <= i < stored.len() implies (#[trigger] stored[i]).name
                == pool@.templates[i].name by {
                assert(stored[i] == pool@.entities()[i].response());
            }
            lemma_lists_stored(pool@, stored, TEMPLATING_REGISTRATION_NAME@);
            lemma_lists_stored(pool@, stored, TEMPLATING_VERIFIED_NAME@);
        }
        if already_seeded(&existing_templates) {
            return Ok(());
        }
        let inputs_registration = registration_seed_inputs();
        match self.template_repository.add_template(
            pool,
            TEMPLATING_REGISTRATION_NAME,
            TEMPLATING_REGISTRATION_DESCRIPTION,
            TEMPLATING_REGISTRATION_BODY,
            &inputs_registration,
        ) {
            Ok(_) => {},
            Err(error) => {
                return Err(storage_failure(error));
            },
        }
        let inputs_verified = verified_seed_inputs();
        match self.template_repository.add_template(
            pool,
            TEMPLATING_VERIFIED_NAME,
            TEMPLATING_VERIFIED_DESCRIPTION,
            TEMPLATING_VERIFIED_BODY,
            &inputs_verified,
        ) {
            Ok(_) => {},
            Err(error) => {
                return Err(storage_failure(error));
            },
        }
        Ok(())
    }
}

} // verus!
