use wot_test::lamp::description;
use wot_test::td::{
    ActionAffordance, CowStr, DataSchema, DataSchemaSubtype, Form, HumanReadable,
    IntegerDataSchema, InteractionAffordance, NameMap, NumberDataSchema, ObjectDataSchema,
    OneOrMany, Operation, PartialDataSchema, PartialInteractionAffordance, PropertyAffordance,
    ThingDescription,
};
use wot_test::number::Binary64;
use wot_test::tester::light_emitter::{
    get_brightness_form, get_fade_form, plan_light, Brightness, BrightnessKind, LevelFade,
    LightAnswer, LightCall, LightDefect, LightError, LightNext, LightStage, LightTest,
};
use wot_test::tester::on_off_switch::{
    get_on_off_form, get_toggle_form, plan_switch, SwitchAnswer, SwitchCall, SwitchDefect,
    SwitchError, SwitchNext, SwitchStage, SwitchTest,
};
use wot_test::tester::{
    ActionResponse, ActionResponseStatus, IntoFutureError, Method, Problem, PropertyAnswer,
    PropertyCall,
    TestPropertyError,
};

fn transport_error() -> reqwest::Error {
    reqwest::Client::new().get("no url").build().unwrap_err()
}

fn form(href: &'static str) -> Form {
    Form { href: CowStr::from(href), op: None, subprotocol: None }
}

fn human(attype: &'static str) -> HumanReadable {
    HumanReadable { attype: CowStr::from(attype), ..HumanReadable::default() }
}

fn schema(subtype: DataSchemaSubtype, unit: &'static str) -> PartialDataSchema {
    PartialDataSchema {
        subtype,
        unit: CowStr::from(unit),
        read_only: None,
        write_only: None,
        observable: false,
    }
}

fn integers(minimum: Option<i64>, maximum: Option<i64>) -> DataSchemaSubtype {
    DataSchemaSubtype::Integer(IntegerDataSchema { minimum, maximum })
}

fn numbers(minimum: f64, maximum: f64) -> DataSchemaSubtype {
    let binary = |x: f64| Some(Binary64 { bits: x.to_bits() });
    DataSchemaSubtype::Number(NumberDataSchema { minimum: binary(minimum), maximum: binary(maximum) })
}

fn property(attype: &'static str, href: &'static str, data_schema: PartialDataSchema) -> PropertyAffordance {
    PropertyAffordance {
        interaction: PartialInteractionAffordance { forms: vec![form(href)] },
        data_schema,
        human_readable: human(attype),
    }
}

fn action(attype: &'static str, href: &'static str) -> ActionAffordance {
    ActionAffordance {
        interaction: InteractionAffordance {
            interaction: PartialInteractionAffordance { forms: vec![form(href)] },
            human_readable: human(attype),
        },
        input: None,
        output: None,
        synchronous: Some(true),
    }
}

fn data(subtype: DataSchemaSubtype, unit: &'static str) -> DataSchema {
    DataSchema { data_schema: schema(subtype, unit), human_readable: HumanReadable::default() }
}

fn fade_object() -> ObjectDataSchema {
    ObjectDataSchema {
        properties: NameMap {
            entries: vec![
                (CowStr::from("level"), data(integers(Some(0), Some(100)), "percent")),
                (CowStr::from("duration"), data(integers(Some(0), None), "seconds")),
            ],
        },
        required: vec![CowStr::from("duration"), CowStr::from("level")],
    }
}

fn fade_action() -> ActionAffordance {
    ActionAffordance {
        input: Some(data(DataSchemaSubtype::Object(fade_object()), "")),
        ..action("FadeAction", "/fade")
    }
}

fn switch() -> ThingDescription {
    let mut thing = description();
    thing.attype = OneOrMany(vec![CowStr::from("OnOffSwitch")]);
    thing.properties = NameMap {
        entries: vec![(
            CowStr::from("on"),
            property("OnOffProperty", "/on", schema(DataSchemaSubtype::Boolean, "")),
        )],
    };
    thing.actions = NameMap::new();
    thing
}

fn toggle_switch() -> ThingDescription {
    let mut thing = switch();
    thing.actions.insert(CowStr::from("toggle"), action("ToggleAction", "/toggle"));
    thing
}

fn light(subtype: DataSchemaSubtype) -> ThingDescription {
    let mut thing = toggle_switch();
    thing.properties.insert(
        CowStr::from("brightness"),
        property("BrightnessProperty", "/brightness", schema(subtype, "percent")),
    );
    thing.actions.insert(CowStr::from("fade"), fade_action());
    thing
}

#[test]
fn the_form_of_an_on_off_switch_is_found() {
    assert_eq!(get_on_off_form(&switch()).unwrap().href.as_str(), "/on");
    assert!(get_toggle_form(&switch()).unwrap().is_none());
    assert_eq!(get_toggle_form(&toggle_switch()).unwrap().unwrap().href.as_str(), "/toggle");
}

#[test]
fn the_first_plain_form_for_reading_and_writing_is_found() {
    let mut thing = switch();
    let forms = &mut thing.properties.entries[0].1.interaction.forms;
    *forms = vec![
        Form { subprotocol: Some(CowStr::from("sse")), ..form("/observe") },
        Form { op: Some(OneOrMany(vec![Operation::ReadProperty])), ..form("/read") },
        Form {
            op: Some(OneOrMany(vec![Operation::WriteProperty, Operation::ReadProperty])),
            ..form("/both")
        },
        form("/silent"),
    ];
    assert_eq!(get_on_off_form(&thing).unwrap().href.as_str(), "/both");
}

#[test]
fn what_an_on_off_switch_lacks_is_told() {
    let defect = |change: &dyn Fn(&mut ThingDescription)| {
        let mut thing = switch();
        change(&mut thing);
        get_on_off_form(&thing).unwrap_err()
    };
    let of_property = |change: &dyn Fn(&mut PropertyAffordance)| {
        defect(&|thing| change(&mut thing.properties.entries[0].1))
    };
    assert_eq!(defect(&|thing| thing.attype.0.clear()), SwitchDefect::Type);
    assert_eq!(defect(&|thing| thing.properties = NameMap::new()), SwitchDefect::Property);
    assert_eq!(of_property(&|on| on.human_readable.attype = CowStr::default()), SwitchDefect::Property);
    assert_eq!(of_property(&|on| on.interaction.forms.clear()), SwitchDefect::PropertyForm);
    assert_eq!(
        of_property(&|on| on.data_schema.subtype = DataSchemaSubtype::Null),
        SwitchDefect::Boolean
    );
    assert_eq!(of_property(&|on| on.data_schema.unit = CowStr::from("percent")), SwitchDefect::NoUnit);
    assert_eq!(of_property(&|on| on.data_schema.read_only = Some(true)), SwitchDefect::Writable);
    assert_eq!(of_property(&|on| on.data_schema.write_only = Some(true)), SwitchDefect::Readable);
    let mut flags = switch();
    flags.properties.entries[0].1.data_schema.read_only = Some(false);
    flags.properties.entries[0].1.data_schema.write_only = Some(false);
    assert!(get_on_off_form(&flags).is_ok());
}

#[test]
fn what_a_toggle_action_lacks_is_told() {
    let defect = |change: &dyn Fn(&mut ActionAffordance)| {
        let mut thing = toggle_switch();
        change(&mut thing.actions.entries[0].1);
        get_toggle_form(&thing).map(|_| ()).unwrap_err()
    };
    assert_eq!(
        defect(&|toggle| toggle.interaction.interaction.forms.clear()),
        SwitchDefect::ToggleForm
    );
    assert_eq!(defect(&|toggle| toggle.synchronous = None), SwitchDefect::Synchronous);
    assert_eq!(defect(&|toggle| toggle.synchronous = Some(false)), SwitchDefect::Synchronous);
    let some = || Some(data(DataSchemaSubtype::Null, ""));
    assert_eq!(defect(&|toggle| toggle.input = some()), SwitchDefect::NoInput);
    assert_eq!(defect(&|toggle| toggle.output = some()), SwitchDefect::NoOutput);
}

#[test]
fn the_lamp_is_an_on_off_switch_and_a_light_emitter() {
    let lamp = description();
    assert_eq!(get_on_off_form(&lamp).unwrap().href.as_str(), "/properties/on");
    assert!(get_toggle_form(&lamp).unwrap().is_none());
    let (form, integers) = get_brightness_form(&lamp).unwrap().unwrap();
    assert_eq!(form.href.as_str(), "/properties/brightness");
    assert!(integers);
    assert!(get_fade_form(&lamp).unwrap().is_none());
}

#[test]
fn a_switch_is_planned_from_a_good_answer_only() {
    let thing = switch();
    assert!(plan_switch(200, &thing).is_ok());
    assert!(matches!(plan_switch(404, &thing), Err(SwitchError::Status(404))));
    assert!(matches!(plan_light(404, &thing), Err(SwitchError::Status(404))));
    let mut thing = switch();
    thing.attype.0.clear();
    assert!(matches!(plan_switch(200, &thing), Err(SwitchError::Defect(SwitchDefect::Type))));
    assert!(matches!(plan_light(200, &thing), Err(SwitchError::Defect(SwitchDefect::Type))));
}

/// Answers as a switch does that takes what is written and toggles when it is told to.
fn faithful_switch(on: &mut bool, call: SwitchCall) -> SwitchAnswer {
    let (method, target) = call.request();
    let expected = match call {
        SwitchCall::Property(PropertyCall::Put { .. }) => (Method::Put, "/on"),
        SwitchCall::Toggle(_) => (Method::Post, "/toggle"),
        _ => (Method::Get, "/on"),
    };
    assert_eq!((method, target.href.as_str()), expected);
    match call {
        SwitchCall::Read(form) => {
            assert_eq!(form.href.as_str(), "/on");
            SwitchAnswer::Read(Ok((200, *on)))
        }
        SwitchCall::Property(PropertyCall::Put { form, value }) => {
            assert_eq!(form.href.as_str(), "/on");
            *on = *value;
            SwitchAnswer::Property(PropertyAnswer::Put(Ok(204)))
        }
        SwitchCall::Property(PropertyCall::Get { .. }) => {
            SwitchAnswer::Property(PropertyAnswer::Get(Ok((200, *on))))
        }
        SwitchCall::Toggle(form) => {
            assert_eq!(form.href.as_str(), "/toggle");
            *on = !*on;
            SwitchAnswer::Toggled(Ok(200))
        }
    }
}

/// Tests a switch whose answers are changed at one place.
fn test_switch(
    thing: &ThingDescription,
    on: &mut bool,
    change: &dyn Fn(usize, SwitchAnswer) -> SwitchAnswer,
) -> (usize, Result<(), SwitchError>) {
    let mut test = SwitchTest::start(plan_switch(200, thing).unwrap());
    let mut answers = 0;
    loop {
        let answer = change(answers, faithful_switch(on, test.call()));
        answers += 1;
        assert!(test.accepts(&answer));
        match test.step(answer) {
            SwitchNext::Continue(next) => test = next,
            SwitchNext::Finish(result) => return (answers, result),
        }
    }
}

#[test]
fn a_faithful_switch_passes_and_is_left_as_found() {
    for (thing, expected) in [(switch(), 5), (toggle_switch(), 9)] {
        for initial in [false, true] {
            let mut on = initial;
            let (answers, result) = test_switch(&thing, &mut on, &|_, answer| answer);
            assert!(result.is_ok());
            assert_eq!(answers, expected);
            assert_eq!(on, initial);
        }
    }
}

#[test]
fn a_switch_that_answers_otherwise_at_any_place_fails() {
    let thing = toggle_switch();
    for place in 0..9 {
        let wrong_status = |i: usize, answer: SwitchAnswer| match answer {
            _ if i != place => answer,
            SwitchAnswer::Read(Ok((_, on))) => SwitchAnswer::Read(Ok((500, on))),
            SwitchAnswer::Property(PropertyAnswer::Put(_)) => {
                SwitchAnswer::Property(PropertyAnswer::Put(Ok(500)))
            }
            SwitchAnswer::Property(PropertyAnswer::Get(Ok((_, on)))) => {
                SwitchAnswer::Property(PropertyAnswer::Get(Ok((500, on))))
            }
            _ => SwitchAnswer::Toggled(Ok(500)),
        };
        let (answers, result) = test_switch(&thing, &mut true, &wrong_status);
        assert_eq!(answers, place + 1);
        match (place, result) {
            (1 | 3, Err(SwitchError::Property(TestPropertyError::IncorrectPutStatus(500)))) => {}
            (2 | 4, Err(SwitchError::Property(TestPropertyError::IncorrectGetStatus(500)))) => {}
            (0 | 5..=8, Err(SwitchError::Status(500))) => {}
            (place, result) => panic!("{place}: {result:?}"),
        }
    }
}

#[test]
fn a_switch_that_tells_another_state_fails() {
    let thing = toggle_switch();
    let lie = |place: usize| {
        move |i: usize, answer: SwitchAnswer| match answer {
            _ if i != place => answer,
            SwitchAnswer::Read(Ok((status, on))) => SwitchAnswer::Read(Ok((status, !on))),
            SwitchAnswer::Property(PropertyAnswer::Get(Ok((status, on)))) => {
                SwitchAnswer::Property(PropertyAnswer::Get(Ok((status, !on))))
            }
            answer => answer,
        }
    };
    let outcome = |place: usize| test_switch(&thing, &mut false, &lie(place)).1;
    assert!(matches!(
        outcome(2),
        Err(SwitchError::Property(TestPropertyError::IncorrectValue { expected: true, found: false }))
    ));
    assert!(matches!(
        outcome(4),
        Err(SwitchError::Property(TestPropertyError::IncorrectValue { expected: false, found: true }))
    ));
    assert!(matches!(outcome(6), Err(SwitchError::NotToggled)));
    assert!(matches!(outcome(8), Err(SwitchError::NotRestored)));
}

#[test]
fn a_switch_that_cannot_be_reached_fails() {
    let thing = toggle_switch();
    let at = |place: usize, error: &dyn Fn() -> SwitchAnswer| {
        let change = |i: usize, answer: SwitchAnswer| if i == place { error() } else { answer };
        test_switch(&thing, &mut false, &change).1.unwrap_err()
    };
    assert!(matches!(
        at(0, &|| SwitchAnswer::Read(Err(transport_error()))),
        SwitchError::Reqwest(_)
    ));
    assert!(matches!(
        at(5, &|| SwitchAnswer::Toggled(Err(IntoFutureError::NotEmpty("x".to_string())))),
        SwitchError::Toggle(IntoFutureError::NotEmpty(_))
    ));
    assert!(matches!(
        at(6, &|| SwitchAnswer::Read(Err(transport_error()))),
        SwitchError::Reqwest(_)
    ));
}

#[test]
fn a_bad_toggle_action_fails_only_after_the_state_was_set() {
    let mut thing = toggle_switch();
    thing.actions.entries[0].1.synchronous = None;
    let mut on = false;
    let (answers, result) = test_switch(&thing, &mut on, &|_, answer| answer);
    assert_eq!(answers, 5);
    assert!(matches!(result, Err(SwitchError::Defect(SwitchDefect::Synchronous))));
    assert!(!on);
}

#[test]
fn a_switch_accepts_only_answers_to_what_it_sent() {
    let thing = toggle_switch();
    let test = SwitchTest::start(plan_switch(200, &thing).unwrap());
    assert_eq!(test.stage, SwitchStage::ReadingInitial);
    assert!(!test.accepts(&SwitchAnswer::Toggled(Ok(200))));
    assert!(!test.accepts(&SwitchAnswer::Property(PropertyAnswer::Put(Ok(204)))));
    assert!(test.accepts(&SwitchAnswer::Read(Ok((200, true)))));
}

#[test]
fn the_errors_of_a_switch_have_texts() {
    assert_eq!(SwitchError::Status(404).text(), "Expected OK status code, got 404 Not Found");
    assert_eq!(
        SwitchError::Defect(SwitchDefect::Type).text(),
        "An on-off switch requires an \"OnOffSwitch\" @type"
    );
    assert_eq!(
        SwitchError::NotToggled.text(),
        "Expected toggle action to switch the on/off status"
    );
    assert_eq!(
        SwitchError::NotRestored.text(),
        "Expected toggle action to restore the on/off status"
    );
    assert_eq!(
        SwitchError::Property(TestPropertyError::IncorrectValue { expected: &true, found: false })
            .text(),
        "Value not set correctly, got false instead of true"
    );
    assert_eq!(
        SwitchError::Toggle(IntoFutureError::NotEmpty("x".to_string())).text(),
        "Expected empty response, obtained: x"
    );
    assert_eq!(
        SwitchError::Reqwest(transport_error()).text(),
        transport_error().to_string()
    );
    let defects = [
        SwitchDefect::Type,
        SwitchDefect::Property,
        SwitchDefect::PropertyForm,
        SwitchDefect::Boolean,
        SwitchDefect::NoUnit,
        SwitchDefect::Writable,
        SwitchDefect::Readable,
        SwitchDefect::ToggleForm,
        SwitchDefect::Synchronous,
        SwitchDefect::NoInput,
        SwitchDefect::NoOutput,
    ];
    for (i, a) in defects.iter().enumerate() {
        for (j, b) in defects.iter().enumerate() {
            assert_eq!(a.text() == b.text(), i == j);
        }
    }
}

#[test]
fn the_forms_of_a_light_emitter_are_found() {
    let thing = light(integers(Some(0), Some(100)));
    let (form, whole) = get_brightness_form(&thing).unwrap().unwrap();
    assert_eq!(form.href.as_str(), "/brightness");
    assert!(whole);
    assert_eq!(get_fade_form(&thing).unwrap().unwrap().href.as_str(), "/fade");
    let (_, whole) = get_brightness_form(&light(numbers(0.0, 100.0)))
        .unwrap()
        .map(|(form, whole)| (form.href.as_str().to_string(), whole))
        .unwrap();
    assert!(!whole);
    assert!(get_brightness_form(&switch()).unwrap().is_none());
    assert!(get_fade_form(&switch()).unwrap().is_none());
}

#[test]
fn what_a_brightness_gets_wrong_is_told() {
    let defect = |change: &dyn Fn(&mut PropertyAffordance)| {
        let mut thing = light(integers(Some(0), Some(100)));
        change(&mut thing.properties.entries[1].1);
        get_brightness_form(&thing).map(|_| ()).unwrap_err()
    };
    assert_eq!(
        defect(&|brightness| brightness.interaction.forms.clear()),
        LightDefect::BrightnessForm
    );
    for subtype in [
        || DataSchemaSubtype::Boolean,
        || integers(Some(1), Some(100)),
        || integers(Some(0), None),
        || integers(None, Some(100)),
        || numbers(0.0, 99.0),
        || numbers(f64::NAN, 100.0),
        || DataSchemaSubtype::Number(NumberDataSchema::default()),
    ] {
        assert_eq!(
            defect(&|brightness| brightness.data_schema.subtype = subtype()),
            LightDefect::BrightnessSubtype
        );
    }
    assert_eq!(
        defect(&|brightness| brightness.data_schema.unit = CowStr::default()),
        LightDefect::BrightnessUnit
    );
    assert_eq!(
        defect(&|brightness| brightness.data_schema.read_only = Some(true)),
        LightDefect::BrightnessReadOnly
    );
    assert_eq!(
        defect(&|brightness| brightness.data_schema.write_only = Some(true)),
        LightDefect::BrightnessWriteOnly
    );
    assert!(get_brightness_form(&light(numbers(-0.0, 100.0))).is_ok());
}

#[test]
fn what_a_fade_action_gets_wrong_is_told() {
    let defect = |change: &dyn Fn(&mut ActionAffordance)| {
        let mut thing = light(integers(Some(0), Some(100)));
        change(&mut thing.actions.entries[1].1);
        get_fade_form(&thing).map(|_| ()).unwrap_err()
    };
    let of_input = |change: &dyn Fn(&mut ObjectDataSchema)| {
        defect(&|fade| {
            let mut object = fade_object();
            change(&mut object);
            fade.input = Some(data(DataSchemaSubtype::Object(object), ""));
        })
    };
    let of_field = |i: usize, change: &dyn Fn(&mut PartialDataSchema)| {
        of_input(&|object| change(&mut object.properties.entries[i].1.data_schema))
    };
    assert_eq!(
        defect(&|fade| fade.interaction.interaction.forms.clear()),
        LightDefect::FadeForm
    );
    assert_eq!(defect(&|fade| fade.input = None), LightDefect::FadeInput);
    assert_eq!(
        defect(&|fade| fade.output = Some(data(DataSchemaSubtype::Null, ""))),
        LightDefect::FadeOutput
    );
    assert_eq!(
        defect(&|fade| fade.input = Some(data(DataSchemaSubtype::Array, ""))),
        LightDefect::FadeObject
    );
    assert_eq!(
        of_input(&|object| {
            object.properties.entries.remove(0);
        }),
        LightDefect::Level
    );
    assert_eq!(
        of_field(0, &|level| level.subtype = integers(Some(0), None)),
        LightDefect::LevelSubtype
    );
    assert_eq!(of_field(0, &|level| level.unit = CowStr::default()), LightDefect::LevelUnit);
    assert_eq!(of_field(0, &|level| level.read_only = Some(true)), LightDefect::LevelReadOnly);
    assert_eq!(of_field(0, &|level| level.write_only = Some(true)), LightDefect::LevelWriteOnly);
    assert_eq!(
        of_input(&|object| {
            object.properties.entries.pop();
        }),
        LightDefect::Duration
    );
    assert_eq!(
        of_field(1, &|duration| duration.subtype = integers(Some(1), None)),
        LightDefect::DurationSubtype
    );
    assert_eq!(
        of_field(1, &|duration| duration.unit = CowStr::from("percent")),
        LightDefect::DurationUnit
    );
    assert_eq!(
        of_field(1, &|duration| duration.read_only = Some(true)),
        LightDefect::DurationReadOnly
    );
    assert_eq!(
        of_field(1, &|duration| duration.write_only = Some(true)),
        LightDefect::DurationWriteOnly
    );
    assert_eq!(
        of_input(&|object| {
            object.required.pop();
        }),
        LightDefect::LevelRequired
    );
    assert_eq!(
        of_input(&|object| {
            object.required.remove(0);
        }),
        LightDefect::DurationRequired
    );
}

fn float(x: f64) -> Brightness {
    Brightness::Float(Binary64 { bits: x.to_bits() })
}

#[test]
fn a_brightness_is_judged_by_its_value() {
    for n in 0..=u8::MAX {
        assert_eq!(Brightness::Integer(n).is_in_range(), n <= 100);
        assert_eq!(float(f64::from(n)).is_in_range(), n <= 100);
    }
    assert!(float(-0.0).is_in_range());
    assert!(!float(-0.1).is_in_range());
    assert!(!float(100.5).is_in_range());
    assert!(!float(f64::NAN).is_in_range());
    assert!(Brightness::Integer(25).another() == Brightness::Integer(40));
    assert!(Brightness::Integer(50).another() == Brightness::Integer(25));
    assert!(float(25.0).another() == float(40.0));
    assert!(float(25.5).another() == float(25.0));
    assert!(Brightness::Integer(95).has_level(95) && float(95.0).has_level(95));
    assert!(!Brightness::Integer(94).has_level(95) && !float(95.5).has_level(95));
    assert!(Brightness::Integer(95) != float(95.0));
}

#[test]
fn the_tested_brightness_is_a_new_one() {
    for n in 0..=100 {
        for brightness in [Brightness::Integer(n), float(f64::from(n))] {
            assert!(brightness.another() != brightness);
            assert!(brightness.another().is_in_range());
        }
    }
}

fn response(output: Option<LevelFade>) -> ActionResponse<LevelFade> {
    ActionResponse {
        status: ActionResponseStatus::Running,
        output,
        error: None,
        href: None,
        time_requested: None,
        time_ended: None,
    }
}

struct Device {
    on: bool,
    brightness: Brightness,
}

fn faithful_light(device: &mut Device, call: LightCall) -> LightAnswer {
    let target = call.request().map(|(method, form)| (method, form.href.as_str()));
    match call {
        LightCall::Switch(_) => assert!(target.is_some()),
        LightCall::ReadBrightness(..) => assert_eq!(target, Some((Method::Get, "/brightness"))),
        LightCall::WriteBrightness(..) => assert_eq!(target, Some((Method::Put, "/brightness"))),
        LightCall::StartFade(..) => assert_eq!(target, Some((Method::Post, "/fade"))),
        LightCall::Wait(_) => assert_eq!(target, None),
    }
    match call {
        LightCall::Switch(call) => LightAnswer::Switch(faithful_switch(&mut device.on, call)),
        LightCall::ReadBrightness(form, _) => {
            assert_eq!(form.href.as_str(), "/brightness");
            LightAnswer::Brightness(Ok((200, device.brightness)))
        }
        LightCall::WriteBrightness(form, brightness) => {
            assert_eq!(form.href.as_str(), "/brightness");
            device.brightness = brightness;
            LightAnswer::Written(Ok(204))
        }
        LightCall::StartFade(form, fade) => {
            assert_eq!(form.href.as_str(), "/fade");
            assert_eq!(fade.duration, 2);
            device.brightness = match device.brightness {
                Brightness::Integer(_) => Brightness::Integer(fade.level),
                Brightness::Float(_) => float(f64::from(fade.level)),
            };
            LightAnswer::Fade(Ok((201, response(Some(fade)))))
        }
        LightCall::Wait(millis) => {
            assert_eq!(millis, 2100);
            LightAnswer::Waited
        }
    }
}

/// Tests a light emitter whose answers are changed after the switch was tested.
fn test_light(
    thing: &ThingDescription,
    device: &mut Device,
    change: &dyn Fn(usize, LightAnswer) -> LightAnswer,
) -> (usize, Result<(), LightError>) {
    let mut test = LightTest::start(plan_light(200, thing).unwrap());
    let mut answers = 0;
    loop {
        let mut answer = faithful_light(device, test.call());
        if !matches!(test.stage, LightStage::Switching(_)) {
            answer = change(answers, answer);
            answers += 1;
        }
        assert!(test.accepts(&answer));
        match test.step(answer) {
            LightNext::Continue(next) => test = next,
            LightNext::Finish(result) => return (answers, result),
        }
    }
}

#[test]
fn a_faithful_light_emitter_passes_and_is_left_as_found() {
    for n in [0, 15, 25, 40, 50, 95, 100] {
        let mut device = Device { on: n % 2 == 0, brightness: Brightness::Integer(n) };
        let thing = light(integers(Some(0), Some(100)));
        let (answers, result) = test_light(&thing, &mut device, &|_, answer| answer);
        assert!(result.is_ok());
        assert_eq!(answers, 8);
        assert_eq!(device.on, n % 2 == 0);
        assert!(device.brightness == Brightness::Integer(n));

        let mut device = Device { on: true, brightness: float(f64::from(n)) };
        let thing = light(numbers(0.0, 100.0));
        let (_, result) = test_light(&thing, &mut device, &|_, answer| answer);
        assert!(result.is_ok());
        assert!(device.on && device.brightness == float(f64::from(n)));
    }
}

#[test]
fn a_switch_without_brightness_and_fade_is_only_tested_as_a_switch() {
    let mut device = Device { on: true, brightness: Brightness::Integer(0) };
    let (answers, result) = test_light(&toggle_switch(), &mut device, &|_, answer| answer);
    assert_eq!(answers, 0);
    assert!(result.is_ok());
}

#[test]
fn a_fade_without_brightness_is_started_and_waited_for() {
    let mut thing = light(integers(Some(0), Some(100)));
    thing.properties.entries.pop();
    let mut device = Device { on: true, brightness: Brightness::Integer(0) };
    let (answers, result) = test_light(&thing, &mut device, &|_, answer| answer);
    assert_eq!(answers, 2);
    assert!(result.is_ok());
}

#[test]
fn a_bad_description_fails_only_after_the_switch_was_tested() {
    let mut thing = light(DataSchemaSubtype::Boolean);
    thing.actions.entries[1].1.input = None;
    let mut device = Device { on: true, brightness: Brightness::Integer(0) };
    let (answers, result) = test_light(&thing, &mut device, &|_, answer| answer);
    assert_eq!(answers, 0);
    assert!(matches!(result, Err(LightError::Defect(LightDefect::BrightnessSubtype))));
    let mut thing = light(integers(Some(0), Some(100)));
    thing.actions.entries[1].1.input = None;
    let (_, result) = test_light(&thing, &mut device, &|_, answer| answer);
    assert!(matches!(result, Err(LightError::Defect(LightDefect::FadeInput))));
}

#[test]
fn a_light_emitter_that_answers_otherwise_fails() {
    let thing = light(integers(Some(0), Some(100)));
    let at = |place: usize, wrong: &dyn Fn() -> LightAnswer| {
        let mut device = Device { on: true, brightness: Brightness::Integer(50) };
        let change = |i: usize, answer: LightAnswer| if i == place { wrong() } else { answer };
        let (answers, result) = test_light(&thing, &mut device, &change);
        assert_eq!(answers, place + 1);
        result.unwrap_err()
    };
    let brightness = |status, n| LightAnswer::Brightness(Ok((status, Brightness::Integer(n))));
    for place in [0, 2, 6] {
        assert!(matches!(at(place, &|| brightness(404, 50)), LightError::OkStatus(404)));
        assert!(matches!(
            at(place, &|| LightAnswer::Brightness(Err(transport_error()))),
            LightError::Reqwest(_)
        ));
    }
    for place in [1, 3, 7] {
        assert!(matches!(
            at(place, &|| LightAnswer::Written(Ok(200))),
            LightError::NoContentStatus(200)
        ));
        assert!(matches!(
            at(place, &|| LightAnswer::Written(Err(IntoFutureError::NotEmpty(String::new())))),
            LightError::Write(_)
        ));
    }
    assert!(matches!(at(0, &|| brightness(200, 101)), LightError::OutOfRange(Brightness::Integer(101))));
    assert!(matches!(
        at(2, &|| brightness(200, 50)),
        LightError::NotSet { written: Brightness::Integer(25), read: Brightness::Integer(50) }
    ));
    assert!(matches!(
        at(6, &|| brightness(200, 94)),
        LightError::NotFaded { level: 95, read: Brightness::Integer(94) }
    ));
    let asked = LevelFade { duration: 2, level: 95 };
    let fade = |status, response| LightAnswer::Fade(Ok((status, response)));
    assert!(matches!(
        at(4, &|| fade(200, response(Some(asked)))),
        LightError::CreatedStatus(200)
    ));
    assert!(matches!(
        at(4, &|| LightAnswer::Fade(Err(transport_error()))),
        LightError::Reqwest(_)
    ));
    let failed = || ActionResponse {
        error: Some(Problem {
            type_url: None,
            status: None,
            title: None,
            detail: None,
            instance: None,
            additional_fields: NameMap::new(),
        }),
        ..response(Some(asked))
    };
    assert!(matches!(at(4, &|| fade(201, failed())), LightError::FadeFailed));
    let completed = || ActionResponse {
        status: ActionResponseStatus::Completed,
        ..response(Some(asked))
    };
    assert!(matches!(
        at(4, &|| fade(201, completed())),
        LightError::FadeStatus(ActionResponseStatus::Completed)
    ));
    assert!(matches!(
        at(4, &|| fade(201, response(None))),
        LightError::FadeOutput { told: None, .. }
    ));
    let other = LevelFade { duration: 2, level: 94 };
    match at(4, &|| fade(201, response(Some(other)))) {
        LightError::FadeOutput { asked: a, told: Some(t) } => {
            assert_eq!((a, t), (asked, other));
        }
        error => panic!("{error:?}"),
    }
}

#[test]
fn a_pending_fade_is_a_started_one() {
    let thing = light(integers(Some(0), Some(100)));
    let mut device = Device { on: true, brightness: Brightness::Integer(50) };
    let change = |_: usize, answer: LightAnswer| match answer {
        LightAnswer::Fade(Ok((status, response))) => LightAnswer::Fade(Ok((
            status,
            ActionResponse { status: ActionResponseStatus::Pending, ..response },
        ))),
        answer => answer,
    };
    assert!(test_light(&thing, &mut device, &change).1.is_ok());
}

#[test]
fn a_brightness_after_a_fade_may_be_shown_as_an_integer() {
    let thing = light(numbers(0.0, 100.0));
    let mut device = Device { on: true, brightness: float(50.0) };
    let change = |i: usize, answer: LightAnswer| {
        if i == 6 {
            LightAnswer::Brightness(Ok((200, Brightness::Integer(95))))
        } else {
            answer
        }
    };
    assert!(test_light(&thing, &mut device, &change).1.is_ok());
}

#[test]
fn a_brightness_is_read_as_what_it_is_described_as() {
    let whole = light(integers(Some(0), Some(100)));
    let plan = plan_light(200, &whole).unwrap();
    let test = LightTest { plan, stage: LightStage::ReadingBrightness };
    assert!(matches!(test.call(), LightCall::ReadBrightness(_, BrightnessKind::Integer)));
    assert!(!test.accepts(&LightAnswer::Brightness(Ok((200, float(1.0))))));
    let test = LightTest { plan, stage: LightStage::CheckingFade(Brightness::Integer(1)) };
    assert!(matches!(test.call(), LightCall::ReadBrightness(_, BrightnessKind::Either)));
    assert!(test.accepts(&LightAnswer::Brightness(Ok((200, float(1.0))))));
    let any = light(numbers(0.0, 100.0));
    let plan = plan_light(200, &any).unwrap();
    let test = LightTest { plan, stage: LightStage::ReadingBrightness };
    assert!(matches!(test.call(), LightCall::ReadBrightness(_, BrightnessKind::Float)));
}

#[test]
fn the_errors_of_a_light_emitter_have_texts() {
    let text = |error: LightError| error.text("25", "50");
    assert_eq!(text(LightError::OkStatus(404)), "Expected OK status code, got 404 Not Found");
    assert_eq!(
        text(LightError::NoContentStatus(200)),
        "Expected NO_CONTENT status code, got 200 OK"
    );
    assert_eq!(text(LightError::CreatedStatus(200)), "Expected CREATED status code, got 200 OK");
    assert_eq!(text(LightError::Reqwest(transport_error())), transport_error().to_string());
    assert_eq!(
        text(LightError::Write(IntoFutureError::NotEmpty("x".to_string()))),
        "Expected empty response, obtained: x"
    );
    assert_eq!(
        text(LightError::Switch(SwitchError::NotToggled)),
        "Expected toggle action to switch the on/off status"
    );
    assert_eq!(
        text(LightError::OutOfRange(Brightness::Integer(101))),
        "On-off switch is expected to have a brightness level between 0 and 100, found 50"
    );
    assert_eq!(
        text(LightError::NotSet {
            written: Brightness::Integer(25),
            read: Brightness::Integer(50)
        }),
        "On-off switch is expected to have the brightness level just set (25), found 50."
    );
    assert_eq!(
        text(LightError::FadeFailed),
        "Lamp fade action unexpectedly returned an error"
    );
    assert_eq!(
        text(LightError::FadeStatus(ActionResponseStatus::Failed)),
        "Invalid on-off switch fade action response. Expected status \"running\" or \"pending\", received Failed"
    );
    let asked = LevelFade { duration: 2, level: 95 };
    assert_eq!(
        text(LightError::FadeOutput { asked, told: None }),
        "Invalid on-off switch fade action response. Expected output Fade { duration: 2, level: 95 }, got None"
    );
    assert_eq!(
        text(LightError::FadeOutput { asked, told: Some(LevelFade { duration: 0, level: 100 }) }),
        "Invalid on-off switch fade action response. Expected output Fade { duration: 2, level: 95 }, got Some(Fade { duration: 0, level: 100 })"
    );
    assert_eq!(
        text(LightError::NotFaded { level: 95, read: Brightness::Integer(50) }),
        "On-off switch is expected to have the brightness level expected at the end of a fade (95), found 50."
    );
    assert_eq!(
        text(LightError::Defect(LightDefect::FadeInput)),
        "On-off switch fade action must have an input field"
    );
    assert_eq!(
        LightDefect::LevelRequired.text(),
        "On-off switch fade action input data schema must have \"level\" in its \"required\" field"
    );
}

#[test]
fn the_errors_of_switches_and_lights_tell_of_the_transport() {
    let describe = |error: SwitchError| error.describe("<transport>");
    assert_eq!(describe(SwitchError::Reqwest(transport_error())), "<transport>");
    assert_eq!(
        describe(SwitchError::Toggle(IntoFutureError::Reqwest(transport_error()))),
        "Reqwest error: <transport>"
    );
    assert_eq!(
        describe(SwitchError::Property(TestPropertyError::Reqwest(transport_error()))),
        "Reqwest error: <transport>"
    );
    assert_eq!(describe(SwitchError::NotToggled), SwitchError::NotToggled.text());
    assert!(SwitchError::NotToggled.transport_error().is_none());

    let describe = |error: LightError| error.describe("<transport>", "25", "50");
    assert_eq!(describe(LightError::Reqwest(transport_error())), "<transport>");
    assert_eq!(
        describe(LightError::Write(IntoFutureError::Reqwest(transport_error()))),
        "Reqwest error: <transport>"
    );
    assert_eq!(
        describe(LightError::Switch(SwitchError::Reqwest(transport_error()))),
        "<transport>"
    );
    assert_eq!(
        describe(LightError::NotSet {
            written: Brightness::Integer(25),
            read: Brightness::Integer(50)
        }),
        "On-off switch is expected to have the brightness level just set (25), found 50."
    );
    assert_eq!(
        LightError::Write(IntoFutureError::Reqwest(transport_error())).text("", ""),
        format!("Reqwest error: {}", transport_error())
    );
}

#[test]
fn a_status_in_an_error_of_a_switch_or_a_light_is_one() {
    for (status, wf) in [(99, false), (100, true), (999, true), (1000, false)] {
        let put = TestPropertyError::IncorrectPutStatus(status);
        let get = TestPropertyError::IncorrectGetStatus(status);
        assert_eq!(SwitchError::Property(put).is_wf(), wf);
        assert_eq!(SwitchError::Property(get).is_wf(), wf);
        assert_eq!(LightError::Switch(SwitchError::Status(status)).is_wf(), wf);
        assert_eq!(LightError::OkStatus(status).is_wf(), wf);
        assert_eq!(LightError::NoContentStatus(status).is_wf(), wf);
        assert_eq!(LightError::CreatedStatus(status).is_wf(), wf);
    }
    assert!(SwitchError::NotToggled.is_wf());
    assert!(LightError::FadeFailed.is_wf());
}
