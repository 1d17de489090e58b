//! What holds of every on-off switch and its test, field by field and answer by answer.

use vstd::prelude::*;

use crate::td::{
    ActionAffordance, CowStr, DataSchemaSubtype, Form, Operation, PropertyAffordance,
    ThingDescription,
};
use crate::tester::on_off_switch::{
    SwitchAnswer, SwitchCall, SwitchDefect, SwitchError, SwitchNext, SwitchPlan, SwitchStage,
    SwitchTest,
};
use crate::tester::{
    IntoFutureError, PropertyAnswer, PropertyCall, PropertyStage, TestPropertyError,
};

verus! {

/// No property is of a type.
pub open spec fn no_property(thing: ThingDescription, attype: Seq<char>) -> bool {
    forall|j: int|
        0 <= j < thing.properties.entries@.len() ==> (
        #[trigger] thing.properties.entries@[j]).1.human_readable.attype@ != attype
}

/// The property at a place is the first one of a type.
pub open spec fn first_property(thing: ThingDescription, attype: Seq<char>, i: int) -> bool {
    &&& 0 <= i < thing.properties.entries@.len()
    &&& thing.properties.entries@[i].1.human_readable.attype@ == attype
    &&& forall|j: int|
        0 <= j < i ==> (#[trigger] thing.properties.entries@[j]).1.human_readable.attype@ != attype
}

/// No action is of a type.
pub open spec fn no_action(thing: ThingDescription, attype: Seq<char>) -> bool {
    forall|j: int|
        0 <= j < thing.actions.entries@.len() ==> (
        #[trigger] thing.actions.entries@[j]).1.interaction.human_readable.attype@ != attype
}

/// The action at a place is the first one of a type.
pub open spec fn first_action(thing: ThingDescription, attype: Seq<char>, i: int) -> bool {
    &&& 0 <= i < thing.actions.entries@.len()
    &&& thing.actions.entries@[i].1.interaction.human_readable.attype@ == attype
    &&& forall|j: int|
        0 <= j < i ==> (
        #[trigger] thing.actions.entries@[j]).1.interaction.human_readable.attype@ != attype
}

/// A plain form that names no operation, or both to read and to write.
pub open spec fn reads_and_writes(form: Form) -> bool {
    &&& form.subprotocol is None
    &&& form.op matches Some(op) ==> op.0@.contains(Operation::ReadProperty) && op.0@.contains(
        Operation::WriteProperty,
    )
}

/// A plain form that names no operation, or to invoke.
pub open spec fn invokes(form: Form) -> bool {
    &&& form.subprotocol is None
    &&& form.op matches Some(op) ==> op.0@.contains(Operation::InvokeAction)
}

/// No form is one of a kind.
pub open spec fn no_form(forms: Seq<Form>, kind: spec_fn(Form) -> bool) -> bool {
    forall|k: int| 0 <= k < forms.len() ==> !kind(#[trigger] forms[k])
}

/// The form at a place is the first one of a kind.
pub open spec fn first_form(forms: Seq<Form>, kind: spec_fn(Form) -> bool, k: int) -> bool {
    &&& 0 <= k < forms.len()
    &&& kind(forms[k])
    &&& forall|j: int| 0 <= j < k ==> !kind(#[trigger] forms[j])
}

/// The form at a place is the first plain one to read and write.
pub open spec fn first_to_read_and_write(forms: Seq<Form>, k: int) -> bool {
    first_form(forms, |form: Form| reads_and_writes(form), k)
}

/// The form at a place is the first plain one to invoke.
pub open spec fn first_to_invoke(forms: Seq<Form>, k: int) -> bool {
    first_form(forms, |form: Form| invokes(form), k)
}

/// The property that is found under a type is the first one of it, and there is none
/// exactly when no property is of it.
pub proof fn properties_are_found_by_type(thing: ThingDescription, attype: Seq<char>)
    ensures
        crate::tester::on_off_switch::property_of_type(thing.properties.entries@, attype) is None
            <==> no_property(thing, attype),
        forall|i: int| #[trigger]
            first_property(thing, attype, i) ==> crate::tester::on_off_switch::property_of_type(
                thing.properties.entries@,
                attype,
            ) == Some(thing.properties.entries@[i].1),
{
    let entries = thing.properties.entries@;
    if no_property(thing, attype) {
        lemma_property_none(entries, attype);
    } else {
        let j = choose|j: int|
            0 <= j < entries.len() && (#[trigger] entries[j]).1.human_readable.attype@ == attype;
        lemma_property_some(entries, attype, j);
    }
    assert forall|i: int| #[trigger] first_property(thing, attype, i) implies 
        crate::tester::on_off_switch::property_of_type(entries, attype) == Some(entries[i].1) by {
        lemma_property_first(entries, attype, i);
    }
}

proof fn lemma_property_none(entries: Seq<(CowStr, PropertyAffordance)>, attype: Seq<char>)
    requires
        forall|j: int|
            0 <= j < entries.len() ==> (#[trigger] entries[j]).1.human_readable.attype@ != attype,
    ensures
        crate::tester::on_off_switch::property_of_type(entries, attype) is None,
    decreases entries.len(),
{
    if entries.len() > 0 {
        assert(entries[0].1.human_readable.attype@ != attype);
        lemma_property_none(entries.drop_first(), attype);
    }
}

proof fn lemma_property_some(
    entries: Seq<(CowStr, PropertyAffordance)>,
    attype: Seq<char>,
    j: int,
)
    requires
        0 <= j < entries.len(),
        entries[j].1.human_readable.attype@ == attype,
    ensures
        crate::tester::on_off_switch::property_of_type(entries, attype) is Some,
    decreases entries.len(),
{
    if j > 0 {
        lemma_property_some(entries.drop_first(), attype, j - 1);
    }
}

proof fn lemma_property_first(
    entries: Seq<(CowStr, PropertyAffordance)>,
    attype: Seq<char>,
    i: int,
)
    requires
        0 <= i < entries.len(),
        entries[i].1.human_readable.attype@ == attype,
        forall|j: int|
            0 <= j < i ==> (#[trigger] entries[j]).1.human_readable.attype@ != attype,
    ensures
        crate::tester::on_off_switch::property_of_type(entries, attype) == Some(entries[i].1),
    decreases entries.len(),
{
    if i > 0 {
        assert(entries[0].1.human_readable.attype@ != attype);
        let rest = entries.drop_first();
        assert forall|j: int| 0 <= j < i - 1 implies (
        #[trigger] rest[j]).1.human_readable.attype@ != attype by {
            assert(rest[j] == entries[j + 1]);
        }
        lemma_property_first(rest, attype, i - 1);
    }
}

/// The action that is found under a type is the first one of it, and there is none
/// exactly when no action is of it.
pub proof fn actions_are_found_by_type(thing: ThingDescription, attype: Seq<char>)
    ensures
        crate::tester::on_off_switch::action_of_type(thing.actions.entries@, attype) is None
            <==> no_action(thing, attype),
        forall|i: int| #[trigger]
            first_action(thing, attype, i) ==> crate::tester::on_off_switch::action_of_type(
                thing.actions.entries@,
                attype,
            ) == Some(thing.actions.entries@[i].1),
{
    let entries = thing.actions.entries@;
    if no_action(thing, attype) {
        lemma_action_none(entries, attype);
    } else {
        let j = choose|j: int|
            0 <= j < entries.len() && (
            #[trigger] entries[j]).1.interaction.human_readable.attype@ == attype;
        lemma_action_some(entries, attype, j);
    }
    assert forall|i: int| #[trigger] first_action(thing, attype, i) implies 
        crate::tester::on_off_switch::action_of_type(entries, attype) == Some(entries[i].1) by {
        lemma_action_first(entries, attype, i);
    }
}

proof fn lemma_action_none(entries: Seq<(CowStr, ActionAffordance)>, attype: Seq<char>)
    requires
        forall|j: int|
            0 <= j < entries.len() ==> (
            #[trigger] entries[j]).1.interaction.human_readable.attype@ != attype,
    ensures
        crate::tester::on_off_switch::action_of_type(entries, attype) is None,
    decreases entries.len(),
{
    if entries.len() > 0 {
        assert(entries[0].1.interaction.human_readable.attype@ != attype);
        lemma_action_none(entries.drop_first(), attype);
    }
}

proof fn lemma_action_some(entries: Seq<(CowStr, ActionAffordance)>, attype: Seq<char>, j: int)
    requires
        0 <= j < entries.len(),
        entries[j].1.interaction.human_readable.attype@ == attype,
    ensures
        crate::tester::on_off_switch::action_of_type(entries, attype) is Some,
    decreases entries.len(),
{
    if j > 0 {
        lemma_action_some(entries.drop_first(), attype, j - 1);
    }
}

proof fn lemma_action_first(entries: Seq<(CowStr, ActionAffordance)>, attype: Seq<char>, i: int)
    requires
        0 <= i < entries.len(),
        entries[i].1.interaction.human_readable.attype@ == attype,
        forall|j: int|
            0 <= j < i ==> (#[trigger] entries[j]).1.interaction.human_readable.attype@ != attype,
    ensures
        crate::tester::on_off_switch::action_of_type(entries, attype) == Some(entries[i].1),
    decreases entries.len(),
{
    if i > 0 {
        assert(entries[0].1.interaction.human_readable.attype@ != attype);
        let rest = entries.drop_first();
        assert forall|j: int| 0 <= j < i - 1 implies (
        #[trigger] rest[j]).1.interaction.human_readable.attype@ != attype by {
            assert(rest[j] == entries[j + 1]);
        }
        lemma_action_first(rest, attype, i - 1);
    }
}

/// The form that is found for some operations is the first plain one that names no
/// operation or all of these, and there is none exactly when no form is such a one.
pub proof fn forms_are_found_by_operation(forms: Seq<Form>, operations: Seq<Operation>)
    ensures
        ({
            let kind = |form: Form|
                form.subprotocol is None && (form.op matches Some(op) ==> forall|i: int|
                    0 <= i < operations.len() ==> op.0@.contains(#[trigger] operations[i]));
            &&& crate::tester::on_off_switch::form_for(forms, operations) is None <==> no_form(
                forms,
                kind,
            )
            &&& forall|k: int| #[trigger]
                first_form(forms, kind, k) ==> crate::tester::on_off_switch::form_for(
                    forms,
                    operations,
                ) == Some(forms[k])
        }),
    decreases forms.len(),
{
    let kind = |form: Form|
        form.subprotocol is None && (form.op matches Some(op) ==> forall|i: int|
            0 <= i < operations.len() ==> op.0@.contains(#[trigger] operations[i]));
    if forms.len() > 0 {
        let rest = forms.drop_first();
        forms_are_found_by_operation(rest, operations);
        assert(no_form(forms, kind) == (!kind(forms[0]) && no_form(rest, kind))) by {
            if no_form(forms, kind) {
                assert(!kind(forms[0]));
                assert forall|k: int| 0 <= k < rest.len() implies !kind(#[trigger] rest[k]) by {
                    assert(rest[k] == forms[k + 1]);
                }
            }
            if !kind(forms[0]) && no_form(rest, kind) {
                assert forall|k: int| 0 <= k < forms.len() implies !kind(#[trigger] forms[k]) by {
                    if k > 0 {
                        assert(forms[k] == rest[k - 1]);
                    }
                }
            }
        }
        assert forall|k: int| #[trigger] first_form(forms, kind, k) implies 
            crate::tester::on_off_switch::form_for(forms, operations) == Some(forms[k]) by {
            if k > 0 {
                assert(!kind(forms[0]));
                assert forall|j: int| 0 <= j < k - 1 implies !kind(#[trigger] rest[j]) by {
                    assert(rest[j] == forms[j + 1]);
                }
                assert(first_form(rest, kind, k - 1));
            }
        }
    }
}

/// The form that is found to read and write is the first one of that kind.
pub proof fn lemma_reading_and_writing(forms: Seq<Form>)
    ensures
        ({
            let operations = seq![Operation::ReadProperty, Operation::WriteProperty];
            let kind = |form: Form| reads_and_writes(form);
            &&& crate::tester::on_off_switch::form_for(forms, operations) is None <==> no_form(
                forms,
                kind,
            )
            &&& forall|k: int| #[trigger]
                first_form(forms, kind, k) ==> crate::tester::on_off_switch::form_for(
                    forms,
                    operations,
                ) == Some(forms[k])
        }),
{
    let operations = seq![Operation::ReadProperty, Operation::WriteProperty];
    let kind = |form: Form| reads_and_writes(form);
    let general = |form: Form|
        form.subprotocol is None && (form.op matches Some(op) ==> forall|i: int|
            0 <= i < operations.len() ==> op.0@.contains(#[trigger] operations[i]));
    forms_are_found_by_operation(forms, operations);
    assert forall|form: Form| #[trigger] kind(form) == general(form) by {
        assert(operations[0] == Operation::ReadProperty);
        assert(operations[1] == Operation::WriteProperty);
    }
    assert forall|k: int| #[trigger] first_form(forms, kind, k) implies first_form(
        forms,
        general,
        k,
    ) by {
        assert(kind(forms[k]) == general(forms[k]));
        assert forall|j: int| 0 <= j < k implies !general(#[trigger] forms[j]) by {
            assert(kind(forms[j]) == general(forms[j]));
        }
    }
    if no_form(forms, kind) {
        assert forall|k: int| 0 <= k < forms.len() implies !general(#[trigger] forms[k]) by {
            assert(kind(forms[k]) == general(forms[k]));
        }
    }
    if no_form(forms, general) {
        assert forall|k: int| 0 <= k < forms.len() implies !kind(#[trigger] forms[k]) by {
            assert(kind(forms[k]) == general(forms[k]));
        }
    }
}

/// The form that is found to invoke is the first one of that kind.
pub proof fn lemma_invoking(forms: Seq<Form>)
    ensures
        ({
            let operations = seq![Operation::InvokeAction];
            let kind = |form: Form| invokes(form);
            &&& crate::tester::on_off_switch::form_for(forms, operations) is None <==> no_form(
                forms,
                kind,
            )
            &&& forall|k: int| #[trigger]
                first_form(forms, kind, k) ==> crate::tester::on_off_switch::form_for(
                    forms,
                    operations,
                ) == Some(forms[k])
        }),
{
    let operations = seq![Operation::InvokeAction];
    let kind = |form: Form| invokes(form);
    let general = |form: Form|
        form.subprotocol is None && (form.op matches Some(op) ==> forall|i: int|
            0 <= i < operations.len() ==> op.0@.contains(#[trigger] operations[i]));
    forms_are_found_by_operation(forms, operations);
    assert forall|form: Form| #[trigger] kind(form) == general(form) by {
        assert(operations[0] == Operation::InvokeAction);
    }
    assert forall|k: int| #[trigger] first_form(forms, kind, k) implies first_form(
        forms,
        general,
        k,
    ) by {
        assert(kind(forms[k]) == general(forms[k]));
        assert forall|j: int| 0 <= j < k implies !general(#[trigger] forms[j]) by {
            assert(kind(forms[j]) == general(forms[j]));
        }
    }
    if no_form(forms, kind) {
        assert forall|k: int| 0 <= k < forms.len() implies !general(#[trigger] forms[k]) by {
            assert(kind(forms[k]) == general(forms[k]));
        }
    }
    if no_form(forms, general) {
        assert forall|k: int| 0 <= k < forms.len() implies !kind(#[trigger] forms[k]) by {
            assert(kind(forms[k]) == general(forms[k]));
        }
    }
}

/// An on-off switch is refused for its type exactly when none of its types is
/// `OnOffSwitch`, and for its property exactly when it has that type and no property
/// is an `OnOffProperty`.
pub proof fn switch_has_its_type_and_property(thing: ThingDescription)
    ensures
        ({
            let refused = crate::tester::on_off_switch::on_off_form(thing);
            let typed = exists|t: int|
                0 <= t < thing.attype.0@.len() && (#[trigger] thing.attype.0@[t])@
                    == "OnOffSwitch"@;
            &&& refused == Err::<Form, SwitchDefect>(SwitchDefect::Type) <==> !typed
            &&& refused == Err::<Form, SwitchDefect>(SwitchDefect::Property) <==> typed
                && no_property(thing, "OnOffProperty"@)
        }),
{
    properties_are_found_by_type(thing, "OnOffProperty"@);
}

/// The state of a switch is read and written at the first plain form of its first
/// `OnOffProperty` that names no operation, or both to read and to write. That is so
/// exactly when the property is a boolean without a unit and neither read-only nor
/// write-only; otherwise the first of these that fails is told.
pub proof fn switch_state_has_the_first_plain_form(thing: ThingDescription, i: int)
    requires
        exists|t: int|
            0 <= t < thing.attype.0@.len() && (#[trigger] thing.attype.0@[t])@ == "OnOffSwitch"@,
        first_property(thing, "OnOffProperty"@, i),
    ensures
        ({
            let found = crate::tester::on_off_switch::on_off_form(thing);
            let property = thing.properties.entries@[i].1;
            let forms = property.interaction.forms@;
            let kind = |form: Form| reads_and_writes(form);
            let boolean = property.data_schema.subtype == DataSchemaSubtype::Boolean;
            let bare = property.data_schema.unit@ == Seq::<char>::empty();
            let writable = property.data_schema.read_only != Some(true);
            let readable = property.data_schema.write_only != Some(true);
            &&& found == Err::<Form, SwitchDefect>(SwitchDefect::PropertyForm) <==> no_form(
                forms,
                kind,
            )
            &&& forall|form: Form| #[trigger]
                is_ok(found, form) ==> exists|k: int| #[trigger]
                    first_form(forms, kind, k) && form == forms[k]
            &&& forall|k: int| #[trigger]
                first_form(forms, kind, k) ==> {
                    &&& found == Ok::<Form, SwitchDefect>(forms[k]) <==> boolean && bare && writable
                        && readable
                    &&& found == Err::<Form, SwitchDefect>(SwitchDefect::Boolean) <==> !boolean
                    &&& found == Err::<Form, SwitchDefect>(SwitchDefect::NoUnit) <==> boolean
                        && !bare
                    &&& found == Err::<Form, SwitchDefect>(SwitchDefect::Writable) <==> boolean
                        && bare && !writable
                    &&& found == Err::<Form, SwitchDefect>(SwitchDefect::Readable) <==> boolean
                        && bare && writable && !readable
                }
        }),
{
    properties_are_found_by_type(thing, "OnOffProperty"@);
    let property = thing.properties.entries@[i].1;
    let forms = property.interaction.forms@;
    let kind = |form: Form| reads_and_writes(form);
    lemma_reading_and_writing(forms);
    lemma_first_form(forms, kind);
    assert(property.data_schema.unit@.len() == 0 ==> property.data_schema.unit@
        =~= Seq::<char>::empty());
}

/// A form was found.
pub open spec fn is_ok<E>(found: Result<Form, E>, form: Form) -> bool {
    found == Ok::<Form, E>(form)
}

/// Where some form is one of a kind, there is a first one.
pub proof fn lemma_first_form(forms: Seq<Form>, kind: spec_fn(Form) -> bool)
    ensures
        !no_form(forms, kind) ==> exists|k: int| #[trigger] first_form(forms, kind, k),
    decreases forms.len(),
{
    if !no_form(forms, kind) {
        let rest = forms.drop_last();
        lemma_first_form(rest, kind);
        if no_form(rest, kind) {
            let last = forms.len() - 1;
            assert forall|j: int| 0 <= j < last implies !kind(#[trigger] forms[j]) by {
                assert(rest[j] == forms[j]);
            }
            assert(first_form(forms, kind, last));
        } else {
            let k = choose|k: int| #[trigger] first_form(rest, kind, k);
            assert forall|j: int| 0 <= j < k implies !kind(#[trigger] forms[j]) by {
                assert(rest[j] == forms[j]);
            }
            assert(first_form(forms, kind, k));
        }
    }
}

/// A switch has no form to toggle it, and is not refused for that, exactly when none
/// of its actions is a `ToggleAction`.
pub proof fn switch_need_not_toggle(thing: ThingDescription)
    ensures
        crate::tester::on_off_switch::toggle_form(thing) == Ok::<Option<Form>, SwitchDefect>(None)
            <==> no_action(thing, "ToggleAction"@),
{
    actions_are_found_by_type(thing, "ToggleAction"@);
}

/// A switch is toggled at the first plain form of its first `ToggleAction` that names
/// no operation, or to invoke; it is refused for its form exactly when there is none.
/// It is toggled there exactly when the action is synchronous and has neither an input
/// nor an output; otherwise the first of these that fails is told.
pub proof fn toggle_has_the_first_plain_form(thing: ThingDescription, i: int)
    requires
        first_action(thing, "ToggleAction"@, i),
    ensures
        ({
            let found = crate::tester::on_off_switch::toggle_form(thing);
            let action = thing.actions.entries@[i].1;
            let forms = action.interaction.interaction.forms@;
            let kind = |form: Form| invokes(form);
            let synchronous = action.synchronous == Some(true);
            &&& found == Err::<Option<Form>, SwitchDefect>(SwitchDefect::ToggleForm) <==> no_form(
                forms,
                kind,
            )
            &&& forall|form: Form| #[trigger]
                is_ok_some(found, form) ==> exists|k: int| #[trigger]
                    first_form(forms, kind, k) && form == forms[k]
            &&& forall|k: int| #[trigger]
                first_form(forms, kind, k) ==> {
                    &&& found == Ok::<Option<Form>, SwitchDefect>(Some(forms[k])) <==> synchronous
                        && action.input is None && action.output is None
                    &&& found == Err::<Option<Form>, SwitchDefect>(SwitchDefect::Synchronous)
                        <==> !synchronous
                    &&& found == Err::<Option<Form>, SwitchDefect>(SwitchDefect::NoInput)
                        <==> synchronous && action.input is Some
                    &&& found == Err::<Option<Form>, SwitchDefect>(SwitchDefect::NoOutput)
                        <==> synchronous && action.input is None && action.output is Some
                }
        }),
{
    actions_are_found_by_type(thing, "ToggleAction"@);
    let forms = thing.actions.entries@[i].1.interaction.interaction.forms@;
    let kind = |form: Form| invokes(form);
    lemma_invoking(forms);
    lemma_first_form(forms, kind);
}

/// A form was found.
pub open spec fn is_ok_some<E>(found: Result<Option<Form>, E>, form: Form) -> bool {
    found == Ok::<Option<Form>, E>(Some(form))
}

/// The state is read and written at one form and toggled at the other. What is written
/// is the other state than the initial one, and the initial one again when the state
/// is set back.
pub proof fn switch_is_asked_at_its_forms(test: SwitchTest)
    requires
        test.wf(),
    ensures
        match test.stage {
            SwitchStage::ReadingInitial => test.sends() == SwitchCall::Read(test.plan.on),
            SwitchStage::Checking { .. } => test.sends() == SwitchCall::Read(test.plan.on),
            SwitchStage::Setting { initial, back, stage: PropertyStage::Writing } => {
                &&& test.sends() matches SwitchCall::Property(PropertyCall::Put { form, value })
                &&& form == test.plan.on
                &&& *value == initial <==> back
            },
            SwitchStage::Setting { stage: PropertyStage::Reading, .. } => {
                &&& test.sends() matches SwitchCall::Property(PropertyCall::Get { form })
                &&& form == test.plan.on
            },
            SwitchStage::Toggling { .. } => {
                &&& test.sends() matches SwitchCall::Toggle(form)
                &&& test.plan.toggle == Ok::<Option<&Form>, SwitchDefect>(Some(form))
            },
        },
        test.sends().target().1 == (if test.stage is Toggling {
            test.plan.toggle->Ok_0->0
        } else {
            test.plan.on
        }),
        test.sends().target().0 is Post <==> test.stage is Toggling,
        test.sends().target().0 is Put <==> (test.stage matches SwitchStage::Setting {
            stage: PropertyStage::Writing,
            ..
        }),
{
}

/// An answer of another status than the one that is due ends the test, and so does a
/// request that failed: the error tells which it was.
pub proof fn switch_failures_are_told(test: SwitchTest, answer: SwitchAnswer)
    requires
        test.wf(),
        test.answered_by(answer),
    ensures
        match answer {
            SwitchAnswer::Read(Err(error)) => test.after(answer) == SwitchNext::Finish(
                Err(SwitchError::Reqwest(error)),
            ),
            SwitchAnswer::Toggled(Err(error)) => test.after(answer) == SwitchNext::Finish(
                Err(SwitchError::Toggle(error)),
            ),
            SwitchAnswer::Read(Ok((status, _))) => (test.after(answer) == SwitchNext::Finish(
                Err(SwitchError::Status(status)),
            )) <==> status != 200,
            SwitchAnswer::Toggled(Ok(status)) => (test.after(answer) == SwitchNext::Finish(
                Err(SwitchError::Status(status)),
            )) <==> status != 200,
            SwitchAnswer::Property(PropertyAnswer::Put(Ok(status))) => (test.after(answer)
                == SwitchNext::Finish(
                Err(SwitchError::Property(TestPropertyError::IncorrectPutStatus(status))),
            )) <==> status != 204,
            SwitchAnswer::Property(PropertyAnswer::Put(Err(IntoFutureError::Reqwest(error)))) =>
                test.after(answer) == SwitchNext::Finish(
                Err(SwitchError::Property(TestPropertyError::Reqwest(error))),
            ),
            SwitchAnswer::Property(PropertyAnswer::Put(Err(IntoFutureError::NotEmpty(body)))) =>
                test.after(answer) == SwitchNext::Finish(
                Err(SwitchError::Property(TestPropertyError::NotEmpty(body))),
            ),
            SwitchAnswer::Property(PropertyAnswer::Get(Err(error))) => test.after(answer)
                == SwitchNext::Finish(Err(SwitchError::Property(TestPropertyError::Reqwest(error)))),
            SwitchAnswer::Property(PropertyAnswer::Get(Ok((status, _)))) => (test.after(answer)
                == SwitchNext::Finish(
                Err(SwitchError::Property(TestPropertyError::IncorrectGetStatus(status))),
            )) <==> status != 200,
        },
{
}

/// A state that is not the one that was written, not toggled or not toggled back ends
/// the test, and nothing else that is read does so in this way.
pub proof fn unfaithful_states_are_told(test: SwitchTest, on: bool)
    requires
        test.wf(),
    ensures
        match test.stage {
            SwitchStage::Setting { initial, back, stage: PropertyStage::Reading } => {
                let next = test.after(SwitchAnswer::Property(PropertyAnswer::Get(Ok((200, on)))));
                (next matches SwitchNext::Finish(
                    Err(SwitchError::Property(TestPropertyError::IncorrectValue { expected, found })),
                ) && found == on && *expected != on) <==> on == (initial != back)
            },
            SwitchStage::Checking { initial, back } => {
                let next = test.after(SwitchAnswer::Read(Ok((200, on))));
                &&& next == SwitchNext::Finish(Err(SwitchError::NotToggled)) <==> !back && on
                    == initial
                &&& next == SwitchNext::Finish(Err(SwitchError::NotRestored)) <==> back && on
                    != initial
            },
            SwitchStage::ReadingInitial => test.after(SwitchAnswer::Read(Ok((200, on))))
                is Continue,
            _ => true,
        },
{
}

/// Once the state is set back, a switch whose toggle action lacks something fails for
/// that, and one without a toggle action has passed.
pub proof fn toggle_defects_are_told_last(test: SwitchTest, initial: bool)
    requires
        test.stage == (SwitchStage::Setting {
            initial,
            back: true,
            stage: PropertyStage::Reading,
        }),
    ensures
        ({
            let next = test.after(SwitchAnswer::Property(PropertyAnswer::Get(Ok((200, initial)))));
            match test.plan.toggle {
                Err(defect) => next == SwitchNext::Finish(Err(SwitchError::Defect(defect))),
                Ok(None) => next == SwitchNext::Finish(Ok(())),
                Ok(Some(_)) => next matches SwitchNext::Continue(toggling) && toggling.stage
                    == (SwitchStage::Toggling { initial, back: false }),
            }
        }),
{
}

/// An answer is one to what is sent exactly when it is of the same kind.
pub proof fn switch_answers_fit_requests(test: SwitchTest, answer: SwitchAnswer)
    ensures
        test.answered_by(answer) <==> match (test.sends(), answer) {
            (SwitchCall::Read(_), SwitchAnswer::Read(_)) => true,
            (
                SwitchCall::Property(PropertyCall::Put { .. }),
                SwitchAnswer::Property(PropertyAnswer::Put(_)),
            ) => true,
            (
                SwitchCall::Property(PropertyCall::Get { .. }),
                SwitchAnswer::Property(PropertyAnswer::Get(_)),
            ) => true,
            (SwitchCall::Toggle(_), SwitchAnswer::Toggled(_)) => true,
            _ => false,
        },
{
}

/// What is planned is what the description offers: the state has the first plain form
/// of the first `OnOffProperty` that serves it, and the toggle, if it is planned, that
/// of the first `ToggleAction`. None is planned only where there is no such action.
pub proof fn switch_plans_follow_the_description(thing: ThingDescription, plan: SwitchPlan)
    requires
        crate::tester::on_off_switch::plan_of(thing, plan),
    ensures
        exists|i: int, k: int| #[trigger]
            first_property(thing, "OnOffProperty"@, i) && #[trigger] first_to_read_and_write(
                thing.properties.entries@[i].1.interaction.forms@,
                k,
            ) && *plan.on == thing.properties.entries@[i].1.interaction.forms@[k],
        plan.toggle matches Ok(Some(toggle)) ==> exists|i: int, k: int| #[trigger]
            first_action(thing, "ToggleAction"@, i) && #[trigger] first_to_invoke(
                thing.actions.entries@[i].1.interaction.interaction.forms@,
                k,
            ) && *toggle == thing.actions.entries@[i].1.interaction.interaction.forms@[k],
        plan.toggle matches Ok(None) <==> no_action(thing, "ToggleAction"@),
        plan.toggle matches Err(defect) ==> crate::tester::on_off_switch::toggle_form(thing) == Err::<
            Option<Form>,
            SwitchDefect,
        >(defect),
{
    switch_has_its_type_and_property(thing);
    lemma_first_property(thing, "OnOffProperty"@);
    let i = choose|i: int| #[trigger] first_property(thing, "OnOffProperty"@, i);
    switch_state_has_the_first_plain_form(thing, i);
    let forms = thing.properties.entries@[i].1.interaction.forms@;
    let kind = |form: Form| reads_and_writes(form);
    assert(is_ok(crate::tester::on_off_switch::on_off_form(thing), *plan.on));
    let k = choose|k: int| #[trigger] first_form(forms, kind, k) && *plan.on == forms[k];
    assert(first_to_read_and_write(forms, k));
    switch_need_not_toggle(thing);
    lemma_first_action(thing, "ToggleAction"@);
    if let Ok(Some(toggle)) = plan.toggle {
        let i = choose|i: int| #[trigger] first_action(thing, "ToggleAction"@, i);
        toggle_has_the_first_plain_form(thing, i);
        let forms = thing.actions.entries@[i].1.interaction.interaction.forms@;
        let kind = |form: Form| invokes(form);
        assert(is_ok_some(crate::tester::on_off_switch::toggle_form(thing), *toggle));
        let k = choose|k: int| #[trigger] first_form(forms, kind, k) && *toggle == forms[k];
        assert(first_to_invoke(forms, k));
    }
}

/// Where some property is of a type, there is a first one.
pub proof fn lemma_first_property(thing: ThingDescription, attype: Seq<char>)
    ensures
        !no_property(thing, attype) ==> exists|i: int| #[trigger] first_property(thing, attype, i),
{
    if !no_property(thing, attype) {
        let entries = thing.properties.entries@;
        let j = choose|j: int|
            0 <= j < entries.len() && (#[trigger] entries[j]).1.human_readable.attype@ == attype;
        lemma_first_property_by(thing, attype, j);
    }
}

proof fn lemma_first_property_by(thing: ThingDescription, attype: Seq<char>, j: int)
    requires
        0 <= j < thing.properties.entries@.len(),
        thing.properties.entries@[j].1.human_readable.attype@ == attype,
    ensures
        exists|i: int| #[trigger] first_property(thing, attype, i),
    decreases j,
{
    if forall|h: int|
        0 <= h < j ==> (#[trigger] thing.properties.entries@[h]).1.human_readable.attype@
            != attype {
        assert(first_property(thing, attype, j));
    } else {
        let h = choose|h: int|
            0 <= h < j && (#[trigger] thing.properties.entries@[h]).1.human_readable.attype@
                == attype;
        lemma_first_property_by(thing, attype, h);
    }
}

/// Where some action is of a type, there is a first one.
pub proof fn lemma_first_action(thing: ThingDescription, attype: Seq<char>)
    ensures
        !no_action(thing, attype) ==> exists|i: int| #[trigger] first_action(thing, attype, i),
{
    if !no_action(thing, attype) {
        let entries = thing.actions.entries@;
        let j = choose|j: int|
            0 <= j < entries.len() && (
            #[trigger] entries[j]).1.interaction.human_readable.attype@ == attype;
        lemma_first_action_by(thing, attype, j);
    }
}

proof fn lemma_first_action_by(thing: ThingDescription, attype: Seq<char>, j: int)
    requires
        0 <= j < thing.actions.entries@.len(),
        thing.actions.entries@[j].1.interaction.human_readable.attype@ == attype,
    ensures
        exists|i: int| #[trigger] first_action(thing, attype, i),
    decreases j,
{
    if forall|h: int|
        0 <= h < j ==> (
        #[trigger] thing.actions.entries@[h]).1.interaction.human_readable.attype@ != attype {
        assert(first_action(thing, attype, j));
    } else {
        let h = choose|h: int|
            0 <= h < j && (
            #[trigger] thing.actions.entries@[h]).1.interaction.human_readable.attype@ == attype;
        lemma_first_action_by(thing, attype, h);
    }
}

/// What an on-off switch lacks is named: what its data schema must be, what its toggle action
/// must be, and what is missing.
pub proof fn switch_defects_are_named()
    ensures
        SwitchDefect::Boolean.described() == "On-off switch data schema must "@
            + "be a boolean type"@,
        SwitchDefect::NoUnit.described() == "On-off switch data schema must "@
            + "have a nullable/empty unit"@,
        SwitchDefect::Writable.described() == "On-off switch data schema must "@
            + "have a null, undefined or false \""@ + "read_only"@ + "\" field"@,
        SwitchDefect::Readable.described() == "On-off switch data schema must "@
            + "have a null, undefined or false \""@ + "write_only"@ + "\" field"@,
        SwitchDefect::Synchronous.described() == "Expected toggle action "@
            + "synchronous to be true"@,
        SwitchDefect::NoInput.described() == "Expected toggle action "@ + "input"@
            + " to be null or undefined"@,
        SwitchDefect::NoOutput.described() == "Expected toggle action "@ + "output"@
            + " to be null or undefined"@,
        SwitchDefect::Type.described() == "An on-off switch requires an \""@ + "OnOffSwitch"@
            + "\" @type"@,
        SwitchDefect::Property.described() == "Missing "@ + "OnOffProperty"@
            + " type from on-off-switch thing"@,
        SwitchDefect::PropertyForm.described() == "Missing "@ + "ReadProperty+WriteProperty"@
            + " form for on-off switch property"@,
        SwitchDefect::ToggleForm.described() == "Unable to find invoke action form for "@
            + "Toggle Action"@,
{
    assert(SwitchDefect::Boolean.described() == "On-off switch data schema must "@
        + "be a boolean type"@) by {
        reveal_strlit("On-off switch data schema must be a boolean type");
        reveal_strlit("On-off switch data schema must ");
        reveal_strlit("be a boolean type");
    }
    assert(SwitchDefect::NoUnit.described() == "On-off switch data schema must "@
        + "have a nullable/empty unit"@) by {
        reveal_strlit("On-off switch data schema must have a nullable/empty unit");
        reveal_strlit("On-off switch data schema must ");
        reveal_strlit("have a nullable/empty unit");
    }
    assert(SwitchDefect::Writable.described() == "On-off switch data schema must "@
        + "have a null, undefined or false \""@ + "read_only"@ + "\" field"@) by {
        reveal_strlit("On-off switch data schema must have a null, undefined or false \"read_only\" field");
        reveal_strlit("On-off switch data schema must ");
        reveal_strlit("have a null, undefined or false \"");
        reveal_strlit("read_only");
        reveal_strlit("\" field");
    }
    assert(SwitchDefect::Readable.described() == "On-off switch data schema must "@
        + "have a null, undefined or false \""@ + "write_only"@ + "\" field"@) by {
        reveal_strlit("On-off switch data schema must have a null, undefined or false \"write_only\" field");
        reveal_strlit("On-off switch data schema must ");
        reveal_strlit("have a null, undefined or false \"");
        reveal_strlit("write_only");
        reveal_strlit("\" field");
    }
    assert(SwitchDefect::Synchronous.described() == "Expected toggle action "@
        + "synchronous to be true"@) by {
        reveal_strlit("Expected toggle action synchronous to be true");
        reveal_strlit("Expected toggle action ");
        reveal_strlit("synchronous to be true");
    }
    assert(SwitchDefect::NoInput.described() == "Expected toggle action "@ + "input"@
        + " to be null or undefined"@) by {
        reveal_strlit("Expected toggle action input to be null or undefined");
        reveal_strlit("Expected toggle action ");
        reveal_strlit("input");
        reveal_strlit(" to be null or undefined");
    }
    assert(SwitchDefect::NoOutput.described() == "Expected toggle action "@ + "output"@
        + " to be null or undefined"@) by {
        reveal_strlit("Expected toggle action output to be null or undefined");
        reveal_strlit("Expected toggle action ");
        reveal_strlit("output");
        reveal_strlit(" to be null or undefined");
    }
    assert(SwitchDefect::Type.described() == "An on-off switch requires an \""@ + "OnOffSwitch"@
        + "\" @type"@) by {
        reveal_strlit("An on-off switch requires an \"OnOffSwitch\" @type");
        reveal_strlit("An on-off switch requires an \"");
        reveal_strlit("OnOffSwitch");
        reveal_strlit("\" @type");
    }
    assert(SwitchDefect::Property.described() == "Missing "@ + "OnOffProperty"@
        + " type from on-off-switch thing"@) by {
        reveal_strlit("Missing OnOffProperty type from on-off-switch thing");
        reveal_strlit("Missing ");
        reveal_strlit("OnOffProperty");
        reveal_strlit(" type from on-off-switch thing");
    }
    assert(SwitchDefect::PropertyForm.described() == "Missing "@ + "ReadProperty+WriteProperty"@
        + " form for on-off switch property"@) by {
        reveal_strlit("Missing ReadProperty+WriteProperty form for on-off switch property");
        reveal_strlit("Missing ");
        reveal_strlit("ReadProperty+WriteProperty");
        reveal_strlit(" form for on-off switch property");
    }
    assert(SwitchDefect::ToggleForm.described() == "Unable to find invoke action form for "@
        + "Toggle Action"@) by {
        reveal_strlit("Unable to find invoke action form for Toggle Action");
        reveal_strlit("Unable to find invoke action form for ");
        reveal_strlit("Toggle Action");
    }
}

/// What an error of a switch holds is shown: the status that came, the states that were
/// written and read, and what is only passed on as it is.
pub proof fn switch_errors_show_what_they_hold(error: SwitchError, reqwest: Seq<char>)
    ensures
        match error {
            SwitchError::Status(status) => error.described(reqwest)
                == "Expected OK status code, got "@ + crate::trusted::status_phrase(status),
            SwitchError::Reqwest(_) => error.described(reqwest) == reqwest,
            SwitchError::Toggle(toggle) => error.described(reqwest) == toggle.described(reqwest),
            SwitchError::Property(TestPropertyError::IncorrectValue { expected, found }) =>
                error.described(reqwest) == "Value not set correctly, got "@ + (if found {
                "true"@
            } else {
                "false"@
            }) + " instead of "@ + (if *expected {
                "true"@
            } else {
                "false"@
            }),
            SwitchError::Property(property) => exists|expected: Seq<char>, found: Seq<char>|
                error.described(reqwest) == #[trigger] property.described(expected, found, reqwest),
            SwitchError::Defect(defect) => error.described(reqwest) == defect.described(),
            _ => true,
        },
{
}

} // verus!
