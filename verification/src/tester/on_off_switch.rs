//! The test of an on-off switch.

use vstd::prelude::*;

use crate::td::{
    has_operation, has_text, ActionAffordance, DataSchemaSubtype, Form, NameMap, Operation,
    PropertyAffordance, ThingDescription,
};
use crate::tester::request::shown_error;
use crate::tester::{
    IntoFutureError, Method, PropertyAnswer, PropertyCall, PropertyNext, PropertyStage,
    PropertyTest, TestPropertyError, OK,
};
use crate::text::{join, same_text};
use crate::trusted::show_status;

pub mod laws;

verus! {

/// The first property with the given type.
pub open spec fn property_of_type(
    entries: Seq<(crate::td::CowStr, PropertyAffordance)>,
    attype: Seq<char>,
) -> Option<PropertyAffordance>
    decreases entries.len(),
{
    if entries.len() == 0 {
        None
    } else if entries[0].1.human_readable.attype@ == attype {
        Some(entries[0].1)
    } else {
        property_of_type(entries.drop_first(), attype)
    }
}

/// The first action with the given type.
pub open spec fn action_of_type(
    entries: Seq<(crate::td::CowStr, ActionAffordance)>,
    attype: Seq<char>,
) -> Option<ActionAffordance>
    decreases entries.len(),
{
    if entries.len() == 0 {
        None
    } else if entries[0].1.interaction.human_readable.attype@ == attype {
        Some(entries[0].1)
    } else {
        action_of_type(entries.drop_first(), attype)
    }
}

/// A plain HTTP form for the given operations; a form that names no operation is
/// one for all of them.
pub open spec fn serves(form: Form, operations: Seq<Operation>) -> bool {
    &&& form.subprotocol is None
    &&& form.op matches Some(op) ==> forall|i: int|
        0 <= i < operations.len() ==> op.0@.contains(#[trigger] operations[i])
}

/// The first plain HTTP form for the given operations.
pub open spec fn form_for(forms: Seq<Form>, operations: Seq<Operation>) -> Option<Form>
    decreases forms.len(),
{
    if forms.len() == 0 {
        None
    } else if serves(forms[0], operations) {
        Some(forms[0])
    } else {
        form_for(forms.drop_first(), operations)
    }
}

/// Finds the first property with the given type.
pub fn find_property<'a>(properties: &'a NameMap<PropertyAffordance>, attype: &str) -> (r: Option<
    &'a PropertyAffordance,
>)
    ensures
        match r {
            Some(property) => property_of_type(properties.entries@, attype@) == Some(*property),
            None => property_of_type(properties.entries@, attype@) is None,
        },
{
    let mut i: usize = 0;
    assert(properties.entries@.skip(0) =~= properties.entries@);
    while i < properties.entries.len()
        invariant
            i <= properties.entries.len(),
            property_of_type(properties.entries@, attype@) == property_of_type(
                properties.entries@.skip(i as int),
                attype@,
            ),
        decreases properties.entries.len() - i,
    {
        assert(properties.entries@.skip(i as int).drop_first() =~= properties.entries@.skip(i + 1));
        if same_text(properties.entries[i].1.human_readable.attype.as_str(), attype) {
            return Some(&properties.entries[i].1);
        }
        i += 1;
    }
    None
}

/// Finds the first action with the given type.
pub fn find_action<'a>(actions: &'a NameMap<ActionAffordance>, attype: &str) -> (r: Option<
    &'a ActionAffordance,
>)
    ensures
        match r {
            Some(action) => action_of_type(actions.entries@, attype@) == Some(*action),
            None => action_of_type(actions.entries@, attype@) is None,
        },
{
    let mut i: usize = 0;
    assert(actions.entries@.skip(0) =~= actions.entries@);
    while i < actions.entries.len()
        invariant
            i <= actions.entries.len(),
            action_of_type(actions.entries@, attype@) == action_of_type(
                actions.entries@.skip(i as int),
                attype@,
            ),
        decreases actions.entries.len() - i,
    {
        assert(actions.entries@.skip(i as int).drop_first() =~= actions.entries@.skip(i + 1));
        if same_text(actions.entries[i].1.interaction.human_readable.attype.as_str(), attype) {
            return Some(&actions.entries[i].1);
        }
        i += 1;
    }
    None
}

/// Whether a form is a plain HTTP form for the given operations.
fn can_serve(form: &Form, operations: &[Operation]) -> (r: bool)
    ensures
        r == serves(*form, operations@),
{
    if form.subprotocol.is_some() {
        return false;
    }
    match &form.op {
        None => true,
        Some(op) => {
            let mut i: usize = 0;
            while i < operations.len()
                invariant
                    i <= operations.len(),
                    form.op == Some(*op),
                    forall|k: int| 0 <= k < i ==> op.0@.contains(#[trigger] operations@[k]),
                decreases operations.len() - i,
            {
                if !has_operation(op.as_slice(), operations[i]) {
                    assert(!op.0@.contains(operations@[i as int]));
                    return false;
                }
                i += 1;
            }
            true
        },
    }
}

/// Finds the first plain HTTP form for the given operations.
pub fn find_form<'a>(forms: &'a Vec<Form>, operations: &[Operation]) -> (r: Option<&'a Form>)
    ensures
        match r {
            Some(form) => form_for(forms@, operations@) == Some(*form),
            None => form_for(forms@, operations@) is None,
        },
{
    let mut i: usize = 0;
    assert(forms@.skip(0) =~= forms@);
    while i < forms.len()
        invariant
            i <= forms.len(),
            form_for(forms@, operations@) == form_for(forms@.skip(i as int), operations@),
        decreases forms.len() - i,
    {
        assert(forms@.skip(i as int).drop_first() =~= forms@.skip(i + 1));
        if can_serve(&forms[i], operations) {
            return Some(&forms[i]);
        }
        i += 1;
    }
    None
}

/// What the description of an on-off switch lacks.
#[derive(Clone, Copy, Debug, PartialEq, Eq, Structural)]
pub enum SwitchDefect {
    /// The `OnOffSwitch` type.
    Type,
    /// A property of type `OnOffProperty`.
    Property,
    /// A form to read and write the property.
    PropertyForm,
    /// A boolean property.
    Boolean,
    /// A property without a unit.
    NoUnit,
    /// A property that is not read-only.
    Writable,
    /// A property that is not write-only.
    Readable,
    /// A form to invoke the toggle action.
    ToggleForm,
    /// A synchronous toggle action.
    Synchronous,
    /// A toggle action without an input.
    NoInput,
    /// A toggle action without an output.
    NoOutput,
}

impl SwitchDefect {
    /// The text of the defect.
    pub open spec fn described(self) -> Seq<char> {
        match self {
            SwitchDefect::Type => "An on-off switch requires an \"OnOffSwitch\" @type"@,
            SwitchDefect::Property => "Missing OnOffProperty type from on-off-switch thing"@,
            SwitchDefect::PropertyForm =>
                "Missing ReadProperty+WriteProperty form for on-off switch property"@,
            SwitchDefect::Boolean => "On-off switch data schema must be a boolean type"@,
            SwitchDefect::NoUnit => "On-off switch data schema must have a nullable/empty unit"@,
            SwitchDefect::Writable =>
                "On-off switch data schema must have a null, undefined or false \"read_only\" field"@,
            SwitchDefect::Readable =>
                "On-off switch data schema must have a null, undefined or false \"write_only\" field"@,
            SwitchDefect::ToggleForm => "Unable to find invoke action form for Toggle Action"@,
            SwitchDefect::Synchronous => "Expected toggle action synchronous to be true"@,
            SwitchDefect::NoInput => "Expected toggle action input to be null or undefined"@,
            SwitchDefect::NoOutput => "Expected toggle action output to be null or undefined"@,
        }
    }

    /// The text of the defect.
    pub fn text(self) -> (r: &'static str)
        ensures
            r@ == self.described(),
    {
        match self {
            SwitchDefect::Type => "An on-off switch requires an \"OnOffSwitch\" @type",
            SwitchDefect::Property => "Missing OnOffProperty type from on-off-switch thing",
            SwitchDefect::PropertyForm => {
                "Missing ReadProperty+WriteProperty form for on-off switch property"
            },
            SwitchDefect::Boolean => "On-off switch data schema must be a boolean type",
            SwitchDefect::NoUnit => "On-off switch data schema must have a nullable/empty unit",
            SwitchDefect::Writable => {
                "On-off switch data schema must have a null, undefined or false \"read_only\" field"
            },
            SwitchDefect::Readable => {
                "On-off switch data schema must have a null, undefined or false \"write_only\" field"
            },
            SwitchDefect::ToggleForm => "Unable to find invoke action form for Toggle Action",
            SwitchDefect::Synchronous => "Expected toggle action synchronous to be true",
            SwitchDefect::NoInput => "Expected toggle action input to be null or undefined",
            SwitchDefect::NoOutput => "Expected toggle action output to be null or undefined",
        }
    }
}

/// The form to read and write the state of an on-off switch, or the first thing that
/// its description lacks.
pub open spec fn on_off_form(thing: ThingDescription) -> Result<Form, SwitchDefect> {
    if !crate::td::lists(thing.attype.0@, "OnOffSwitch"@) {
        Err(SwitchDefect::Type)
    } else {
        match property_of_type(thing.properties.entries@, "OnOffProperty"@) {
            None => Err(SwitchDefect::Property),
            Some(property) => match form_for(
                property.interaction.forms@,
                seq![Operation::ReadProperty, Operation::WriteProperty],
            ) {
                None => Err(SwitchDefect::PropertyForm),
                Some(form) => if !(property.data_schema.subtype is Boolean) {
                    Err(SwitchDefect::Boolean)
                } else if property.data_schema.unit@.len() > 0 {
                    Err(SwitchDefect::NoUnit)
                } else if property.data_schema.read_only == Some(true) {
                    Err(SwitchDefect::Writable)
                } else if property.data_schema.write_only == Some(true) {
                    Err(SwitchDefect::Readable)
                } else {
                    Ok(form)
                },
            },
        }
    }
}

/// The form to toggle an on-off switch where it has a toggle action, or the first
/// thing that the action lacks.
pub open spec fn toggle_form(thing: ThingDescription) -> Result<Option<Form>, SwitchDefect> {
    match action_of_type(thing.actions.entries@, "ToggleAction"@) {
        None => Ok(None),
        Some(action) => match form_for(
            action.interaction.interaction.forms@,
            seq![Operation::InvokeAction],
        ) {
            None => Err(SwitchDefect::ToggleForm),
            Some(form) => if action.synchronous != Some(true) {
                Err(SwitchDefect::Synchronous)
            } else if action.input is Some {
                Err(SwitchDefect::NoInput)
            } else if action.output is Some {
                Err(SwitchDefect::NoOutput)
            } else {
                Ok(Some(form))
            },
        },
    }
}

/// Finds the form to read and write the state of an on-off switch.
pub fn get_on_off_form(thing: &ThingDescription) -> (r: Result<&Form, SwitchDefect>)
    ensures
        match r {
            Ok(form) => on_off_form(*thing) == Ok::<Form, SwitchDefect>(*form),
            Err(defect) => on_off_form(*thing) == Err::<Form, SwitchDefect>(defect),
        },
{
    if !has_text(&thing.attype.0, "OnOffSwitch") {
        return Err(SwitchDefect::Type);
    }
    let property: &PropertyAffordance = match find_property(&thing.properties, "OnOffProperty") {
        Some(property) => property,
        None => {
            return Err(SwitchDefect::Property);
        },
    };
    let operations: [Operation; 2] = [Operation::ReadProperty, Operation::WriteProperty];
    assert(operations@ =~= seq![Operation::ReadProperty, Operation::WriteProperty]);
    let form: &Form = match find_form(&property.interaction.forms, operations.as_slice()) {
        Some(form) => form,
        None => {
            return Err(SwitchDefect::PropertyForm);
        },
    };
    if !matches!(property.data_schema.subtype, DataSchemaSubtype::Boolean) {
        return Err(SwitchDefect::Boolean);
    }
    if !property.data_schema.unit.as_str().is_empty() {
        return Err(SwitchDefect::NoUnit);
    }
    if !matches!(property.data_schema.read_only, None | Some(false)) {
        return Err(SwitchDefect::Writable);
    }
    if !matches!(property.data_schema.write_only, None | Some(false)) {
        return Err(SwitchDefect::Readable);
    }
    Ok(form)
}

/// Finds the form to toggle an on-off switch.
pub fn get_toggle_form(thing: &ThingDescription) -> (r: Result<Option<&Form>, SwitchDefect>)
    ensures
        match r {
            Ok(Some(form)) => toggle_form(*thing) == Ok::<Option<Form>, SwitchDefect>(Some(*form)),
            Ok(None) => toggle_form(*thing) == Ok::<Option<Form>, SwitchDefect>(None),
            Err(defect) => toggle_form(*thing) == Err::<Option<Form>, SwitchDefect>(defect),
        },
{
    let action: &ActionAffordance = match find_action(&thing.actions, "ToggleAction") {
        Some(action) => action,
        None => {
            return Ok(None);
        },
    };
    let operations: [Operation; 1] = [Operation::InvokeAction];
    assert(operations@ =~= seq![Operation::InvokeAction]);
    let form: &Form = match find_form(
        &action.interaction.interaction.forms,
        operations.as_slice(),
    ) {
        Some(form) => form,
        None => {
            return Err(SwitchDefect::ToggleForm);
        },
    };
    if !(action.synchronous == Some(true)) {
        return Err(SwitchDefect::Synchronous);
    }
    if action.input.is_some() {
        return Err(SwitchDefect::NoInput);
    }
    if action.output.is_some() {
        return Err(SwitchDefect::NoOutput);
    }
    Ok(Some(form))
}

/// Why an on-off switch failed its test.
#[derive(Debug)]
pub enum SwitchError {
    /// An answer has another status than `OK`.
    Status(u16),
    /// A request could not be sent, or its answer not be read.
    Reqwest(reqwest::Error),
    /// A request to toggle failed.
    Toggle(IntoFutureError),
    /// The state could not be set.
    Property(TestPropertyError<'static, bool>),
    /// The description lacks something.
    Defect(SwitchDefect),
    /// The toggle action did not change the state.
    NotToggled,
    /// The toggle action, invoked again, did not restore the state.
    NotRestored,
}

/// A truth value as it is shown.
pub open spec fn shown_truth(value: bool) -> Seq<char> {
    if value {
        "true"@
    } else {
        "false"@
    }
}

/// A truth value as it is shown.
fn show_truth(value: bool) -> (r: &'static str)
    ensures
        r@ == shown_truth(value),
{
    if value {
        "true"
    } else {
        "false"
    }
}

impl SwitchError {
    /// A status in the error is one.
    pub open spec fn wf(self) -> bool {
        match self {
            SwitchError::Status(status) => 100 <= status <= 999,
            SwitchError::Property(error) => error.wf(),
            _ => true,
        }
    }

    /// Whether a status in the error is one.
    pub fn is_wf(&self) -> (r: bool)
        ensures
            r == self.wf(),
    {
        match self {
            SwitchError::Status(status) => 100 <= *status && *status <= 999,
            SwitchError::Property(error) => error.is_wf(),
            _ => true,
        }
    }

    /// The transport error whose text is part of that of this error, if there is one.
    pub open spec fn transport(self) -> Option<reqwest::Error> {
        match self {
            SwitchError::Reqwest(error) => Some(error),
            SwitchError::Toggle(error) => error.transport(),
            SwitchError::Property(error) => error.transport(),
            _ => None,
        }
    }

    /// The transport error whose text is part of that of this error, if there is one.
    pub fn transport_error(&self) -> (r: Option<&reqwest::Error>)
        ensures
            match r {
                Some(error) => self.transport() == Some(*error),
                None => self.transport() is None,
            },
    {
        match self {
            SwitchError::Reqwest(error) => Some(error),
            SwitchError::Toggle(error) => error.transport_error(),
            SwitchError::Property(error) => error.transport_error(),
            _ => None,
        }
    }

    /// The text of the error, given that of a transport error.
    pub open spec fn described(self, reqwest: Seq<char>) -> Seq<char> {
        match self {
            SwitchError::Status(status) => "Expected OK status code, got "@
                + crate::trusted::status_phrase(status),
            SwitchError::Reqwest(_) => reqwest,
            SwitchError::Toggle(error) => error.described(reqwest),
            SwitchError::Property(error) => match error {
                TestPropertyError::IncorrectValue { expected, found } => error.described(
                    shown_truth(*expected),
                    shown_truth(found),
                    reqwest,
                ),
                _ => error.described(Seq::empty(), Seq::empty(), reqwest),
            },
            SwitchError::Defect(defect) => defect.described(),
            SwitchError::NotToggled => "Expected toggle action to switch the on/off status"@,
            SwitchError::NotRestored => "Expected toggle action to restore the on/off status"@,
        }
    }

    /// The text of the error, given that of a transport error.
    pub fn describe(&self, reqwest: &str) -> (r: String)
        requires
            self.wf(),
        ensures
            r@ == self.described(reqwest@),
    {
        match self {
            SwitchError::Status(status) => join(
                "Expected OK status code, got ",
                show_status(*status).as_str(),
            ),
            SwitchError::Reqwest(_) => reqwest.to_owned(),
            SwitchError::Toggle(error) => error.describe(reqwest),
            SwitchError::Property(error) => {
                let (expected, found): (&str, &str) = match error {
                    TestPropertyError::IncorrectValue { expected, found } => {
                        (show_truth(**expected), show_truth(*found))
                    },
                    _ => ("", ""),
                };
                proof {
                    reveal_strlit("");
                    assert(""@ =~= Seq::<char>::empty());
                }
                error.describe(expected, found, reqwest)
            },
            SwitchError::Defect(defect) => defect.text().to_owned(),
            SwitchError::NotToggled => {
                "Expected toggle action to switch the on/off status".to_owned()
            },
            SwitchError::NotRestored => {
                "Expected toggle action to restore the on/off status".to_owned()
            },
        }
    }

    /// The text of the error.
    pub fn text(&self) -> (r: String)
        requires
            self.wf(),
        ensures
            exists|reqwest: Seq<char>|
                crate::tester::request::shows_error(self.transport(), reqwest)
                    && r@ == #[trigger] self.described(reqwest),
    {
        self.describe(shown_error(self.transport_error()).as_str())
    }
}

/// What is tested of an on-off switch.
#[derive(Clone, Copy, Debug)]
pub struct SwitchPlan<'a> {
    /// The form to read and write the state.
    pub on: &'a Form,
    /// The form to toggle the state, or what the toggle action lacks.
    pub toggle: Result<Option<&'a Form>, SwitchDefect>,
}

/// The plan follows the description.
pub open spec fn plan_of<'a>(thing: ThingDescription, plan: SwitchPlan<'a>) -> bool {
    &&& on_off_form(thing) == Ok::<Form, SwitchDefect>(*plan.on)
    &&& match plan.toggle {
        Ok(Some(form)) => toggle_form(thing) == Ok::<Option<Form>, SwitchDefect>(Some(*form)),
        Ok(None) => toggle_form(thing) == Ok::<Option<Form>, SwitchDefect>(None),
        Err(defect) => toggle_form(thing) == Err::<Option<Form>, SwitchDefect>(defect),
    }
}

/// Plans the test of an on-off switch from the answer that holds its description.
pub fn plan_switch<'a>(status: u16, thing: &'a ThingDescription) -> (r: Result<
    SwitchPlan<'a>,
    SwitchError,
>)
    ensures
        match r {
            Ok(plan) => status == OK && plan_of(*thing, plan),
            Err(SwitchError::Status(s)) => s == status && status != OK,
            Err(SwitchError::Defect(defect)) => status == OK && on_off_form(*thing) == Err::<
                Form,
                SwitchDefect,
            >(defect),
            Err(_) => false,
        },
{
    if status != OK {
        return Err(SwitchError::Status(status));
    }
    match get_on_off_form(thing) {
        Ok(on) => Ok(SwitchPlan { on, toggle: get_toggle_form(thing) }),
        Err(defect) => Err(SwitchError::Defect(defect)),
    }
}

/// What the test of an on-off switch sends.
#[derive(Debug)]
pub enum SwitchCall<'a> {
    /// The state is got from the form.
    Read(&'a Form),
    /// The state is written and read back.
    Property(PropertyCall<'a, 'static, bool>),
    /// The form is posted to, without a body. The answer should have none either.
    Toggle(&'a Form),
}

impl<'a> SwitchCall<'a> {
    /// The method of the request, and the form that it goes to.
    pub open spec fn target(self) -> (Method, &'a Form) {
        match self {
            SwitchCall::Read(form) => (Method::Get, form),
            SwitchCall::Property(call) => call.target(),
            SwitchCall::Toggle(form) => (Method::Post, form),
        }
    }

    /// The method of the request, and the form that it goes to.
    pub fn request(&self) -> (r: (Method, &'a Form))
        ensures
            r == self.target(),
    {
        match self {
            SwitchCall::Read(form) => (Method::Get, *form),
            SwitchCall::Property(call) => call.request(),
            SwitchCall::Toggle(form) => (Method::Post, *form),
        }
    }
}

/// What an on-off switch answers.
#[derive(Debug)]
pub enum SwitchAnswer {
    /// The status of the answer to a read, and the state.
    Read(Result<(u16, bool), reqwest::Error>),
    /// The answer of the property.
    Property(PropertyAnswer<bool>),
    /// The status of the answer to the toggle action.
    Toggled(Result<u16, IntoFutureError>),
}

/// How far the test of an on-off switch has come.
#[derive(Clone, Copy, Debug, PartialEq, Eq, Structural)]
pub enum SwitchStage {
    /// The initial state is read.
    ReadingInitial,
    /// The state is set to the other one, then back.
    Setting {
        /// The initial state.
        initial: bool,
        /// Whether it is set back.
        back: bool,
        /// How far that has come.
        stage: PropertyStage,
    },
    /// The state is toggled, then toggled back.
    Toggling {
        /// The initial state.
        initial: bool,
        /// Whether it is toggled back.
        back: bool,
    },
    /// The toggled state is read.
    Checking {
        /// The initial state.
        initial: bool,
        /// Whether it was toggled back.
        back: bool,
    },
}

/// The test of an on-off switch.
#[derive(Clone, Copy, Debug)]
pub struct SwitchTest<'a> {
    /// What is tested.
    pub plan: SwitchPlan<'a>,
    /// How far the test has come.
    pub stage: SwitchStage,
}

/// How the test of an on-off switch goes on after an answer.
#[derive(Debug)]
pub enum SwitchNext<'a> {
    /// It sends its next request.
    Continue(SwitchTest<'a>),
    /// It is over.
    Finish(Result<(), SwitchError>),
}

/// A reference to a truth value.
fn truth(value: bool) -> (r: &'static bool)
    ensures
        *r == value,
{
    if value {
        &true
    } else {
        &false
    }
}

/// The state that is set: the other one first, then the initial one.
pub open spec fn target(initial: bool, back: bool) -> bool {
    if back {
        initial
    } else {
        !initial
    }
}

impl<'a> SwitchTest<'a> {
    /// Only a switch with a toggle action is toggled.
    pub open spec fn wf(self) -> bool {
        self.stage is Toggling || self.stage is Checking ==> (self.plan.toggle matches Ok(Some(
            _,
        )))
    }

    /// The test with its stage replaced.
    pub open spec fn at(self, stage: SwitchStage) -> Self {
        SwitchTest { plan: self.plan, stage }
    }

    /// What is sent at this stage.
    pub open spec fn sends(self) -> SwitchCall<'a> {
        match self.stage {
            SwitchStage::ReadingInitial => SwitchCall::Read(self.plan.on),
            SwitchStage::Setting { initial, back, stage } => SwitchCall::Property(
                PropertyTest {
                    form: self.plan.on,
                    value: &target(initial, back),
                    stage,
                }.sends(),
            ),
            SwitchStage::Toggling { .. } => SwitchCall::Toggle(self.plan.toggle->Ok_0->0),
            SwitchStage::Checking { .. } => SwitchCall::Read(self.plan.on),
        }
    }

    /// The answer is one to what is sent at this stage.
    pub open spec fn answered_by(self, answer: SwitchAnswer) -> bool {
        match (self.stage, answer) {
            (SwitchStage::ReadingInitial, SwitchAnswer::Read(_)) => true,
            (SwitchStage::Setting { stage, .. }, SwitchAnswer::Property(answer)) => match stage {
                PropertyStage::Writing => answer is Put,
                PropertyStage::Reading => answer is Get,
            },
            (SwitchStage::Toggling { .. }, SwitchAnswer::Toggled(_)) => true,
            (SwitchStage::Checking { .. }, SwitchAnswer::Read(_)) => true,
            _ => false,
        }
    }

    /// How the test goes on after an answer.
    pub open spec fn after(self, answer: SwitchAnswer) -> SwitchNext<'a> {
        match (self.stage, answer) {
            (_, SwitchAnswer::Read(Err(error))) => SwitchNext::Finish(
                Err(SwitchError::Reqwest(error)),
            ),
            (_, SwitchAnswer::Toggled(Err(error))) => SwitchNext::Finish(
                Err(SwitchError::Toggle(error)),
            ),
            (SwitchStage::ReadingInitial, SwitchAnswer::Read(Ok((status, on)))) => if status
                != OK {
                SwitchNext::Finish(Err(SwitchError::Status(status)))
            } else {
                SwitchNext::Continue(
                    self.at(
                        SwitchStage::Setting {
                            initial: on,
                            back: false,
                            stage: PropertyStage::Writing,
                        },
                    ),
                )
            },
            (
                SwitchStage::Setting { initial, back, stage },
                SwitchAnswer::Property(answer),
            ) => match (PropertyTest {
                form: self.plan.on,
                value: &target(initial, back),
                stage,
            }).after(answer) {
                PropertyNext::Continue(test) => SwitchNext::Continue(
                    self.at(SwitchStage::Setting { initial, back, stage: test.stage }),
                ),
                PropertyNext::Finish(Err(error)) => SwitchNext::Finish(
                    Err(SwitchError::Property(error)),
                ),
                PropertyNext::Finish(Ok(())) => if !back {
                    SwitchNext::Continue(
                        self.at(
                            SwitchStage::Setting {
                                initial,
                                back: true,
                                stage: PropertyStage::Writing,
                            },
                        ),
                    )
                } else {
                    match self.plan.toggle {
                        Err(defect) => SwitchNext::Finish(Err(SwitchError::Defect(defect))),
                        Ok(None) => SwitchNext::Finish(Ok(())),
                        Ok(Some(_)) => SwitchNext::Continue(
                            self.at(SwitchStage::Toggling { initial, back: false }),
                        ),
                    }
                },
            },
            (SwitchStage::Toggling { initial, back }, SwitchAnswer::Toggled(Ok(status))) =>
                if status != OK {
                SwitchNext::Finish(Err(SwitchError::Status(status)))
            } else {
                SwitchNext::Continue(self.at(SwitchStage::Checking { initial, back }))
            },
            (SwitchStage::Checking { initial, back }, SwitchAnswer::Read(Ok((status, on)))) =>
                if status != OK {
                SwitchNext::Finish(Err(SwitchError::Status(status)))
            } else if !back {
                if on == initial {
                    SwitchNext::Finish(Err(SwitchError::NotToggled))
                } else {
                    SwitchNext::Continue(self.at(SwitchStage::Toggling { initial, back: true }))
                }
            } else if on != initial {
                SwitchNext::Finish(Err(SwitchError::NotRestored))
            } else {
                SwitchNext::Finish(Ok(()))
            },
            _ => arbitrary(),
        }
    }

    /// Starts the test of an on-off switch.
    pub fn start(plan: SwitchPlan<'a>) -> (test: Self)
        ensures
            test == (SwitchTest { plan, stage: SwitchStage::ReadingInitial }),
            test.wf(),
    {
        SwitchTest { plan, stage: SwitchStage::ReadingInitial }
    }

    /// Whether the answer is one to what is sent now.
    pub fn accepts(&self, answer: &SwitchAnswer) -> (r: bool)
        ensures
            r == self.answered_by(*answer),
    {
        match (&self.stage, answer) {
            (SwitchStage::ReadingInitial, SwitchAnswer::Read(_)) => true,
            (SwitchStage::Setting { stage, .. }, SwitchAnswer::Property(answer)) => match stage {
                PropertyStage::Writing => matches!(answer, PropertyAnswer::Put(_)),
                PropertyStage::Reading => matches!(answer, PropertyAnswer::Get(_)),
            },
            (SwitchStage::Toggling { .. }, SwitchAnswer::Toggled(_)) => true,
            (SwitchStage::Checking { .. }, SwitchAnswer::Read(_)) => true,
            _ => false,
        }
    }

    /// What is sent now.
    pub fn call(&self) -> (call: SwitchCall<'a>)
        requires
            self.wf(),
        ensures
            call == self.sends(),
    {
        match self.stage {
            SwitchStage::ReadingInitial => SwitchCall::Read(self.plan.on),
            SwitchStage::Setting { initial, back, stage } => {
                let value: &'static bool = truth(if back {
                    initial
                } else {
                    !initial
                });
                SwitchCall::Property(PropertyTest { form: self.plan.on, value, stage }.call())
            },
            SwitchStage::Toggling { .. } => match self.plan.toggle {
                Ok(Some(form)) => SwitchCall::Toggle(form),
                _ => vstd::pervasive::unreached(),
            },
            SwitchStage::Checking { .. } => SwitchCall::Read(self.plan.on),
        }
    }

    /// Takes an answer.
    pub fn step(self, answer: SwitchAnswer) -> (next: SwitchNext<'a>)
        requires
            self.wf(),
            self.answered_by(answer),
        ensures
            next == self.after(answer),
            next matches SwitchNext::Continue(test) ==> test.wf(),
    {
        let plan: SwitchPlan<'a> = self.plan;
        match (self.stage, answer) {
            (_, SwitchAnswer::Read(Err(error))) => SwitchNext::Finish(
                Err(SwitchError::Reqwest(error)),
            ),
            (_, SwitchAnswer::Toggled(Err(error))) => SwitchNext::Finish(
                Err(SwitchError::Toggle(error)),
            ),
            (SwitchStage::ReadingInitial, SwitchAnswer::Read(Ok((status, on)))) => {
                if status != OK {
                    return SwitchNext::Finish(Err(SwitchError::Status(status)));
                }
                let stage: SwitchStage = SwitchStage::Setting {
                    initial: on,
                    back: false,
                    stage: PropertyStage::Writing,
                };
                SwitchNext::Continue(SwitchTest { plan, stage })
            },
            (SwitchStage::Setting { initial, back, stage }, SwitchAnswer::Property(answer)) => {
                let value: &'static bool = truth(if back {
                    initial
                } else {
                    !initial
                });
                match set(self.plan.on, value, stage, answer) {
                    Ok(Some(stage)) => SwitchNext::Continue(
                        SwitchTest { plan, stage: SwitchStage::Setting { initial, back, stage } },
                    ),
                    Err(error) => SwitchNext::Finish(Err(SwitchError::Property(error))),
                    Ok(None) => {
                        if !back {
                            let stage: SwitchStage = SwitchStage::Setting {
                                initial,
                                back: true,
                                stage: PropertyStage::Writing,
                            };
                            return SwitchNext::Continue(SwitchTest { plan, stage });
                        }
                        match self.plan.toggle {
                            Err(defect) => SwitchNext::Finish(Err(SwitchError::Defect(defect))),
                            Ok(None) => SwitchNext::Finish(Ok(())),
                            Ok(Some(_)) => SwitchNext::Continue(
                                SwitchTest {
                                    plan,
                                    stage: SwitchStage::Toggling { initial, back: false },
                                },
                            ),
                        }
                    },
                }
            },
            (SwitchStage::Toggling { initial, back }, SwitchAnswer::Toggled(Ok(status))) => {
                if status != OK {
                    return SwitchNext::Finish(Err(SwitchError::Status(status)));
                }
                SwitchNext::Continue(
                    SwitchTest { plan, stage: SwitchStage::Checking { initial, back } },
                )
            },
            (SwitchStage::Checking { initial, back }, SwitchAnswer::Read(Ok((status, on)))) => {
                if status != OK {
                    return SwitchNext::Finish(Err(SwitchError::Status(status)));
                }
                if !back {
                    if on == initial {
                        SwitchNext::Finish(Err(SwitchError::NotToggled))
                    } else {
                        SwitchNext::Continue(
                            SwitchTest { plan, stage: SwitchStage::Toggling { initial, back: true } },
                        )
                    }
                } else if on != initial {
                    SwitchNext::Finish(Err(SwitchError::NotRestored))
                } else {
                    SwitchNext::Finish(Ok(()))
                }
            },
            _ => vstd::pervasive::unreached(),
        }
    }
}

/// Takes an answer of the property: the stage that it leads to, nothing once the state
/// is set, or the error.
fn set(
    form: &Form,
    value: &'static bool,
    stage: PropertyStage,
    answer: PropertyAnswer<bool>,
) -> (r: Result<Option<PropertyStage>, TestPropertyError<'static, bool>>)
    requires
        (PropertyTest { form, value, stage }).answered_by(answer),
    ensures
        match (PropertyTest { form, value, stage }).after(answer) {
            PropertyNext::Continue(test) => r == Ok::<
                Option<PropertyStage>,
                TestPropertyError<'static, bool>,
            >(Some(test.stage)),
            PropertyNext::Finish(Ok(())) => r == Ok::<
                Option<PropertyStage>,
                TestPropertyError<'static, bool>,
            >(None),
            PropertyNext::Finish(Err(error)) => r == Err::<
                Option<PropertyStage>,
                TestPropertyError<'static, bool>,
            >(error),
        },
{
    match (PropertyTest { form, value, stage }.step(answer)) {
        PropertyNext::Continue(test) => Ok(Some(test.stage)),
        PropertyNext::Finish(Ok(())) => Ok(None),
        PropertyNext::Finish(Err(error)) => Err(error),
    }
}

/// The outcome of the test over a sequence of answers, if it is over exactly with the
/// last of them.
pub open spec fn outcome(test: SwitchTest, answers: Seq<SwitchAnswer>) -> Option<
    Result<(), SwitchError>,
>
    decreases answers.len(),
{
    if answers.len() == 0 || !test.answered_by(answers[0]) {
        None
    } else {
        match test.after(answers[0]) {
            SwitchNext::Continue(next) => outcome(next, answers.drop_first()),
            SwitchNext::Finish(result) => if answers.len() == 1 {
                Some(result)
            } else {
                None
            },
        }
    }
}

/// What a switch answers that does as it is told, from its initial state on.
pub open spec fn faithful_answers(initial: bool, toggles: bool) -> Seq<SwitchAnswer> {
    let setting = seq![
        SwitchAnswer::Read(Ok((200, initial))),
        SwitchAnswer::Property(PropertyAnswer::Put(Ok(204))),
        SwitchAnswer::Property(PropertyAnswer::Get(Ok((200, !initial)))),
        SwitchAnswer::Property(PropertyAnswer::Put(Ok(204))),
        SwitchAnswer::Property(PropertyAnswer::Get(Ok((200, initial)))),
    ];
    if toggles {
        setting + seq![
            SwitchAnswer::Toggled(Ok(200)),
            SwitchAnswer::Read(Ok((200, !initial))),
            SwitchAnswer::Toggled(Ok(200)),
            SwitchAnswer::Read(Ok((200, initial))),
        ]
    } else {
        setting
    }
}

/// A switch passes its test exactly when it answers as one does that takes every
/// written state, changes it with every toggle and is otherwise left alone.
pub proof fn passes_exactly_when_faithful(plan: SwitchPlan, answers: Seq<SwitchAnswer>)
    requires
        plan.toggle is Ok,
    ensures
        outcome(SwitchTest { plan, stage: SwitchStage::ReadingInitial }, answers) == Some(
            Ok::<(), SwitchError>(()),
        ) <==> exists|initial: bool|
            answers == #[trigger] faithful_answers(initial, plan.toggle->Ok_0 is Some),
{
    reveal_with_fuel(outcome, 11);
    let start = SwitchTest { plan, stage: SwitchStage::ReadingInitial };
    let toggles = plan.toggle->Ok_0 is Some;
    if outcome(start, answers) == Some(Ok::<(), SwitchError>(())) {
        let initial = answers[0]->Read_0->Ok_0.1;
        assert(answers =~= faithful_answers(initial, toggles));
    }
    assert forall|initial: bool| answers == #[trigger] faithful_answers(initial, toggles) implies 
        outcome(start, answers) == Some(Ok::<(), SwitchError>(())) by {}
}

impl SwitchStage {
    /// How many answers came before this stage.
    pub open spec fn place(self) -> int {
        match self {
            SwitchStage::ReadingInitial => 0,
            SwitchStage::Setting { back, stage, .. } => 1 + (if back {
                2int
            } else {
                0
            }) + (if stage is Reading {
                1int
            } else {
                0
            }),
            SwitchStage::Toggling { back, .. } => if back {
                7
            } else {
                5
            },
            SwitchStage::Checking { back, .. } => if back {
                8
            } else {
                6
            },
        }
    }
}

/// Whatever a switch answers, each answer takes the test one place on, and it is over
/// after the ninth at the latest.
pub proof fn every_answer_takes_the_test_on(test: SwitchTest, answer: SwitchAnswer)
    requires
        test.wf(),
        test.answered_by(answer),
    ensures
        test.after(answer) matches SwitchNext::Continue(next) ==> next.stage.place()
            == test.stage.place() + 1 && next.stage.place() < 9,
{
}

/// A switch: a state that can be read, written and toggled.
pub open spec fn faithful_answer(on: bool, call: SwitchCall) -> (bool, SwitchAnswer) {
    match call {
        SwitchCall::Read(_) => (on, SwitchAnswer::Read(Ok((200, on)))),
        SwitchCall::Property(PropertyCall::Put { value, .. }) => (
            *value,
            SwitchAnswer::Property(PropertyAnswer::Put(Ok(204))),
        ),
        SwitchCall::Property(PropertyCall::Get { .. }) => (
            on,
            SwitchAnswer::Property(PropertyAnswer::Get(Ok((200, on)))),
        ),
        SwitchCall::Toggle(_) => (!on, SwitchAnswer::Toggled(Ok(200))),
    }
}

/// The outcome of the test of a faithful switch and the state in which it is left, if
/// the test is over after at most so many answers.
pub open spec fn faithful_run(test: SwitchTest, on: bool, fuel: nat) -> Option<
    (Result<(), SwitchError>, bool),
>
    decreases fuel,
{
    if fuel == 0 {
        None
    } else {
        let (left, answer) = faithful_answer(on, test.sends());
        match test.after(answer) {
            SwitchNext::Continue(next) => faithful_run(next, left, (fuel - 1) as nat),
            SwitchNext::Finish(result) => Some((result, left)),
        }
    }
}

/// A faithful switch passes its test, if its description is in order, and is left in
/// the state in which it was found.
pub proof fn faithful_switch_is_left_as_found(plan: SwitchPlan, on: bool)
    requires
        plan.toggle is Ok,
    ensures
        faithful_run(SwitchTest { plan, stage: SwitchStage::ReadingInitial }, on, 9) == Some(
            (Ok::<(), SwitchError>(()), on),
        ),
{
    reveal_with_fuel(faithful_run, 10);
}

} // verus!
