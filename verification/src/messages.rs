//! The values that cross the service boundary: requests, responses and the
//! name/value pairs inside them.

use vstd::prelude::*;

verus! {

/// A named input of a template, with the value used when no override is given.
#[derive(Debug)]
pub struct TemplateInput {
    pub name: String,
    pub default_value: String,
}

/// Mathematical model of a [`TemplateInput`].
#[verifier::ext_equal]
pub struct TemplateInputView {
    pub name: Seq<char>,
    pub default_value: Seq<char>,
}

impl View for TemplateInput {
    type V = TemplateInputView;

    open spec fn view(&self) -> TemplateInputView {
        TemplateInputView { name: self.name@, default_value: self.default_value@ }
    }
}

impl PartialEq for TemplateInput {
    fn eq(&self, other: &Self) -> (equal: bool) {
        self.name == other.name && self.default_value == other.default_value
    }
}

impl Eq for TemplateInput {

}

impl vstd::std_specs::cmp::PartialEqSpecImpl for TemplateInput {
    open spec fn obeys_eq_spec() -> bool {
        true
    }

    open spec fn eq_spec(&self, other: &Self) -> bool {
        self@ == other@
    }
}

impl Clone for TemplateInput {
    fn clone(&self) -> (copy: Self)
        ensures
            copy == *self,
    {
        TemplateInput { name: self.name.clone(), default_value: self.default_value.clone() }
    }
}

/// A value that a caller supplies for a named input when composing.
#[derive(Debug)]
pub struct InputValue {
    pub name: String,
    pub value: String,
}

/// Mathematical model of an [`InputValue`].
#[verifier::ext_equal]
pub struct InputValueView {
    pub name: Seq<char>,
    pub value: Seq<char>,
}

impl View for InputValue {
    type V = InputValueView;

    open spec fn view(&self) -> InputValueView {
        InputValueView { name: self.name@, value: self.value@ }
    }
}

impl PartialEq for InputValue {
    fn eq(&self, other: &Self) -> (equal: bool) {
        self.name == other.name && self.value == other.value
    }
}

impl Eq for InputValue {

}

impl vstd::std_specs::cmp::PartialEqSpecImpl for InputValue {
    open spec fn obeys_eq_spec() -> bool {
        true
    }

    open spec fn eq_spec(&self, other: &Self) -> bool {
        self@ == other@
    }
}

impl Clone for InputValue {
    fn clone(&self) -> (copy: Self)
        ensures
            copy == *self,
    {
        InputValue { name: self.name.clone(), value: self.value.clone() }
    }
}

/// The models of a sequence of inputs, in the same order.
pub open spec fn inputs_view(inputs: Seq<TemplateInput>) -> Seq<TemplateInputView> {
    inputs.map_values(|i: TemplateInput| i@)
}

/// The models of a sequence of override values, in the same order.
pub open spec fn values_view(values: Seq<InputValue>) -> Seq<InputValueView> {
    values.map_values(|v: InputValue| v@)
}

/// A template as the service reports it: without its body and its ids.
#[derive(Debug)]
pub struct TemplateResponse {
    pub name: String,
    pub description: String,
    pub template_inputs: Vec<TemplateInput>,
}

/// Mathematical model of a [`TemplateResponse`].
#[verifier::ext_equal]
pub struct TemplateResponseView {
    pub name: Seq<char>,
    pub description: Seq<char>,
    pub template_inputs: Seq<TemplateInputView>,
}

impl View for TemplateResponse {
    type V = TemplateResponseView;

    open spec fn view(&self) -> TemplateResponseView {
        TemplateResponseView {
            name: self.name@,
            description: self.description@,
            template_inputs: inputs_view(self.template_inputs@),
        }
    }
}

/// The models of a sequence of responses, in the same order.
pub open spec fn responses_view(responses: Seq<TemplateResponse>) -> Seq<TemplateResponseView> {
    responses.map_values(|r: TemplateResponse| r@)
}

/// Asks for a new template with its inputs.
#[derive(Debug)]
pub struct AddTemplateRequest {
    pub name: String,
    pub description: String,
    pub body: String,
    pub template_inputs: Vec<TemplateInput>,
}

/// Asks for the removal of the template with this name.
#[derive(Debug)]
pub struct RemoveTemplateRequest {
    pub name: String,
}

/// Asks for one page of the stored templates.
#[derive(Clone, Copy, Debug)]
pub struct ListTemplateRequest {
    pub offset: i64,
    pub limit: i64,
}

/// One page of templates and the number of templates stored in all.
#[derive(Debug)]
pub struct ListTemplateResponse {
    pub templates: Vec<TemplateResponse>,
    pub count: i64,
}

/// Asks for a template to be rendered with these override values.
#[derive(Debug)]
pub struct ComposeRequest {
    pub name: String,
    pub input_values: Vec<InputValue>,
}

/// The rendered text.
#[derive(Debug)]
pub struct ComposeResponse {
    pub result: String,
}

} // verus!
