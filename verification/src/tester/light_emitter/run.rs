//! The requests to a light emitter and the judgement of its answers.

use vstd::prelude::*;
use vstd::string::*;

use crate::number::Binary64;
use crate::td::{Form, ThingDescription};
use crate::tester::light_emitter::{get_brightness_form, get_fade_form, LightDefect};
use crate::tester::on_off_switch::{
    plan_switch, SwitchAnswer, SwitchCall, SwitchError, SwitchNext, SwitchPlan, SwitchStage,
    SwitchTest,
};
use crate::tester::{
    ActionResponse, ActionResponseStatus, IntoFutureError, Method, CREATED, NO_CONTENT, OK,
};

verus! {

/// How long a fade takes, in seconds.
pub const FADE_SECONDS: u8 = 2;

/// How long the end of a fade is waited for, in milliseconds.
pub const FADE_WAIT_MILLIS: u64 = 2100;

/// A brightness.
#[derive(Clone, Copy, Debug)]
pub enum Brightness {
    /// An integer.
    Integer(u8),
    /// Any number.
    Float(Binary64),
}

impl Brightness {
    /// The same kind of number and the same value.
    pub open spec fn same(self, other: Self) -> bool {
        match (self, other) {
            (Brightness::Integer(a), Brightness::Integer(b)) => a == b,
            (Brightness::Float(a), Brightness::Float(b)) => a.equals(b),
            _ => false,
        }
    }

    /// An integer, as a brightness of the same kind.
    pub open spec fn of_kind(self, n: u8) -> Self {
        match self {
            Brightness::Integer(_) => Brightness::Integer(n),
            Brightness::Float(_) => Brightness::Float(Binary64::of_small(n)),
        }
    }

    /// A number from 0 to 100.
    pub open spec fn in_range(self) -> bool {
        match self {
            Brightness::Integer(n) => n <= 100,
            Brightness::Float(x) => Binary64::of_small(0).at_most(x) && x.at_most(
                Binary64::of_small(100),
            ),
        }
    }

    /// Another brightness than this one: 25 unless it is that.
    pub open spec fn other(self) -> Self {
        if self.same(self.of_kind(25)) {
            self.of_kind(40)
        } else {
            self.of_kind(25)
        }
    }

    /// The brightness is the given integer.
    pub open spec fn is_level(self, level: u8) -> bool {
        self.same(self.of_kind(level))
    }

    fn kin(&self, n: u8) -> (r: Self)
        ensures
            r == self.of_kind(n),
    {
        match self {
            Brightness::Integer(_) => Brightness::Integer(n),
            Brightness::Float(_) => Brightness::Float(Binary64::from(n)),
        }
    }

    /// Whether the brightness is a number from 0 to 100.
    pub fn is_in_range(&self) -> (r: bool)
        ensures
            r == self.in_range(),
    {
        match self {
            Brightness::Integer(n) => *n <= 100,
            Brightness::Float(x) => Binary64::from(0u8).is_at_most(x) && x.is_at_most(
                &Binary64::from(100u8),
            ),
        }
    }

    /// Another brightness than this one.
    pub fn another(&self) -> (r: Self)
        ensures
            r == self.other(),
    {
        if *self == self.kin(25) {
            self.kin(40)
        } else {
            self.kin(25)
        }
    }

    /// Whether the brightness is the given integer.
    pub fn has_level(&self, level: u8) -> (r: bool)
        ensures
            r == self.is_level(level),
    {
        *self == self.kin(level)
    }
}

impl PartialEq for Brightness {
    fn eq(&self, other: &Self) -> (r: bool) {
        match (self, other) {
            (Brightness::Integer(a), Brightness::Integer(b)) => *a == *b,
            (Brightness::Float(a), Brightness::Float(b)) => *a == *b,
            _ => false,
        }
    }
}

impl vstd::std_specs::cmp::PartialEqSpecImpl for Brightness {
    open spec fn obeys_eq_spec() -> bool {
        true
    }

    open spec fn eq_spec(&self, other: &Self) -> bool {
        self.same(*other)
    }
}

/// How a brightness is read.
#[derive(Clone, Copy, Debug, PartialEq, Eq, Structural)]
pub enum BrightnessKind {
    /// As an integer.
    Integer,
    /// As any number.
    Float,
    /// As an integer where it is one that fits, and otherwise as any number.
    Either,
}

/// The input of a fade action.
#[derive(Clone, Copy, Debug, PartialEq, Eq, Structural)]
pub struct LevelFade {
    /// How long it takes, in seconds.
    pub duration: u8,
    /// The brightness at its end.
    pub level: u8,
}

/// The level to fade to: 95 unless that is the initial one.
pub open spec fn fade_level(initial: Option<Brightness>) -> u8 {
    match initial {
        Some(initial) => if initial.is_level(95) {
            15
        } else {
            95
        },
        None => 95,
    }
}

/// The fade that is asked for.
pub open spec fn fade_of(initial: Option<Brightness>) -> LevelFade {
    LevelFade { duration: FADE_SECONDS, level: fade_level(initial) }
}

fn choose_fade(initial: &Option<Brightness>) -> (r: LevelFade)
    ensures
        r == fade_of(*initial),
{
    let level: u8 = match initial {
        Some(initial) => {
            if initial.has_level(95) {
                15
            } else {
                95
            }
        },
        None => 95,
    };
    LevelFade { duration: FADE_SECONDS, level }
}

/// The form of a brightness.
#[derive(Clone, Copy, Debug)]
pub struct BrightnessForm<'a> {
    /// The form to read and write it.
    pub form: &'a Form,
    /// Whether it is an integer.
    pub integers: bool,
}

/// What is tested of a light emitter.
#[derive(Clone, Copy, Debug)]
pub struct LightPlan<'a> {
    /// What is tested of it as an on-off switch.
    pub switch: SwitchPlan<'a>,
    /// The form of the brightness, or what its description gets wrong.
    pub brightness: Result<Option<BrightnessForm<'a>>, LightDefect>,
    /// The form of the fade action, or what its description gets wrong.
    pub fade: Result<Option<&'a Form>, LightDefect>,
}

/// The plan follows the description.
pub open spec fn plan_of<'a>(thing: ThingDescription, plan: LightPlan<'a>) -> bool {
    &&& crate::tester::on_off_switch::plan_of(thing, plan.switch)
    &&& crate::tester::light_emitter::brightness_form(thing) == match plan.brightness {
        Ok(Some(brightness)) => Ok::<Option<(Form, bool)>, LightDefect>(
            Some((*brightness.form, brightness.integers)),
        ),
        Ok(None) => Ok(None),
        Err(defect) => Err(defect),
    }
    &&& crate::tester::light_emitter::fade_form(thing) == match plan.fade {
        Ok(Some(form)) => Ok::<Option<Form>, LightDefect>(Some(*form)),
        Ok(None) => Ok(None),
        Err(defect) => Err(defect),
    }
}

/// Plans the test of a light emitter from the answer that holds its description.
pub fn plan_light<'a>(status: u16, thing: &'a ThingDescription) -> (r: Result<
    LightPlan<'a>,
    SwitchError,
>)
    ensures
        match r {
            Ok(plan) => status == OK && plan_of(*thing, plan),
            Err(SwitchError::Status(s)) => s == status && status != OK,
            Err(SwitchError::Defect(defect)) => status == OK
                && crate::tester::on_off_switch::on_off_form(*thing) == Err::<
                Form,
                crate::tester::on_off_switch::SwitchDefect,
            >(defect),
            Err(_) => false,
        },
{
    let switch: SwitchPlan<'a> = match plan_switch(status, thing) {
        Ok(switch) => switch,
        Err(error) => {
            return Err(error);
        },
    };
    let brightness: Result<Option<BrightnessForm<'a>>, LightDefect> = match get_brightness_form(
        thing,
    ) {
        Ok(Some((form, integers))) => Ok(Some(BrightnessForm { form, integers })),
        Ok(None) => Ok(None),
        Err(defect) => Err(defect),
    };
    Ok(LightPlan { switch, brightness, fade: get_fade_form(thing) })
}

/// Why a light emitter failed its test.
#[derive(Debug)]
pub enum LightError {
    /// It failed as an on-off switch.
    Switch(SwitchError),
    /// Its description gets something wrong.
    Defect(LightDefect),
    /// The answer to a read has another status than `OK`.
    OkStatus(u16),
    /// The answer to a write has another status than `NO_CONTENT`.
    NoContentStatus(u16),
    /// The answer to the fade action has another status than `CREATED`.
    CreatedStatus(u16),
    /// A request could not be sent, or its answer not be read.
    Reqwest(reqwest::Error),
    /// A write failed.
    Write(IntoFutureError),
    /// The brightness is out of range.
    OutOfRange(Brightness),
    /// Another brightness was read than was written.
    NotSet {
        /// The brightness that was written.
        written: Brightness,
        /// The brightness that was read.
        read: Brightness,
    },
    /// The fade action tells an error.
    FadeFailed,
    /// The fade action is neither running nor pending.
    FadeStatus(ActionResponseStatus),
    /// The fade action tells another fade than was asked for.
    FadeOutput {
        /// The fade that was asked for.
        asked: LevelFade,
        /// The fade that it tells.
        told: Option<LevelFade>,
    },
    /// The fade did not end in the brightness that was asked for.
    NotFaded {
        /// The level that was asked for.
        level: u8,
        /// The brightness that was read.
        read: Brightness,
    },
}

/// What the test of a light emitter does next.
#[derive(Debug)]
pub enum LightCall<'a> {
    /// It sends what the test of an on-off switch sends.
    Switch(SwitchCall<'a>),
    /// The brightness is got from the form.
    ReadBrightness(&'a Form, BrightnessKind),
    /// The brightness is put to the form. The answer should have no body.
    WriteBrightness(&'a Form, Brightness),
    /// The fade is posted to the form.
    StartFade(&'a Form, LevelFade),
    /// So many milliseconds are waited.
    Wait(u64),
}

impl<'a> LightCall<'a> {
    /// The method of the request, if it is one, and the form that it goes to.
    pub open spec fn target(self) -> Option<(Method, &'a Form)> {
        match self {
            LightCall::Switch(call) => Some(call.target()),
            LightCall::ReadBrightness(form, _) => Some((Method::Get, form)),
            LightCall::WriteBrightness(form, _) => Some((Method::Put, form)),
            LightCall::StartFade(form, _) => Some((Method::Post, form)),
            LightCall::Wait(_) => None,
        }
    }

    /// The method of the request, if it is one, and the form that it goes to.
    pub fn request(&self) -> (r: Option<(Method, &'a Form)>)
        ensures
            r == self.target(),
    {
        match self {
            LightCall::Switch(call) => Some(call.request()),
            LightCall::ReadBrightness(form, _) => Some((Method::Get, *form)),
            LightCall::WriteBrightness(form, _) => Some((Method::Put, *form)),
            LightCall::StartFade(form, _) => Some((Method::Post, *form)),
            LightCall::Wait(_) => None,
        }
    }
}

/// What happens to the test of a light emitter.
#[derive(Debug)]
pub enum LightAnswer {
    /// The on-off switch answers.
    Switch(SwitchAnswer),
    /// The status of the answer to a read, and the brightness.
    Brightness(Result<(u16, Brightness), reqwest::Error>),
    /// The status of the answer to a write.
    Written(Result<u16, IntoFutureError>),
    /// The status of the answer to the fade action, and what it tells.
    Fade(Result<(u16, ActionResponse<LevelFade>), reqwest::Error>),
    /// The time is over.
    Waited,
}

/// How far the test of a light emitter has come.
#[derive(Clone, Copy, Debug)]
pub enum LightStage {
    /// It is tested as an on-off switch.
    Switching(SwitchStage),
    /// The initial brightness is read.
    ReadingBrightness,
    /// Another brightness than the initial one is written.
    WritingBrightness(Brightness),
    /// The brightness is read back.
    CheckingBrightness(Brightness),
    /// The initial brightness is written.
    RestoringBrightness(Brightness),
    /// A fade is started.
    StartingFade(Option<Brightness>),
    /// The fade goes on.
    Fading(Option<Brightness>),
    /// The brightness at the end of the fade is read.
    CheckingFade(Brightness),
    /// The initial brightness is written.
    RestoringFade(Brightness),
}

/// The test of a light emitter.
#[derive(Clone, Copy, Debug)]
pub struct LightTest<'a> {
    /// What is tested.
    pub plan: LightPlan<'a>,
    /// How far the test has come.
    pub stage: LightStage,
}

/// How the test of a light emitter goes on.
#[derive(Debug)]
pub enum LightNext<'a> {
    /// It does what comes next.
    Continue(LightTest<'a>),
    /// It is over.
    Finish(Result<(), LightError>),
}

/// The answer to a started fade is refused for the first of these reasons.
pub open spec fn fade_refused(
    expected: LevelFade,
    status: u16,
    response: ActionResponse<LevelFade>,
) -> Option<LightError> {
    if status != CREATED {
        Some(LightError::CreatedStatus(status))
    } else if response.error is Some {
        Some(LightError::FadeFailed)
    } else if !(response.status is Running || response.status is Pending) {
        Some(LightError::FadeStatus(response.status))
    } else if response.output != Some(expected) {
        Some(LightError::FadeOutput { asked: expected, told: response.output })
    } else {
        None
    }
}

fn check_started(
    expected: LevelFade,
    status: u16,
    response: ActionResponse<LevelFade>,
) -> (r: Result<(), LightError>)
    ensures
        match r {
            Ok(()) => fade_refused(expected, status, response) is None,
            Err(error) => fade_refused(expected, status, response) == Some(error),
        },
{
    if status != CREATED {
        return Err(LightError::CreatedStatus(status));
    }
    if response.error.is_some() {
        return Err(LightError::FadeFailed);
    }
    if !matches!(response.status, ActionResponseStatus::Running | ActionResponseStatus::Pending) {
        return Err(LightError::FadeStatus(response.status));
    }
    match response.output {
        Some(found) => {
            if found == expected {
                Ok(())
            } else {
                Err(LightError::FadeOutput { asked: expected, told: Some(found) })
            }
        },
        None => Err(LightError::FadeOutput { asked: expected, told: None }),
    }
}

impl<'a> LightTest<'a> {
    /// What is tested is there to be tested.
    pub open spec fn wf(self) -> bool {
        match self.stage {
            LightStage::Switching(stage) => (SwitchTest { plan: self.plan.switch, stage }).wf(),
            LightStage::StartingFade(initial) => {
                &&& self.plan.fade matches Ok(Some(_))
                &&& self.plan.brightness is Ok
                &&& initial is Some == self.plan.brightness->Ok_0 is Some
            },
            LightStage::Fading(initial) => {
                &&& self.plan.fade is Ok
                &&& self.plan.brightness is Ok
                &&& initial is Some == self.plan.brightness->Ok_0 is Some
            },
            _ => self.plan.brightness matches Ok(Some(_)) && self.plan.fade is Ok,
        }
    }

    /// The initial brightness, once it is known.
    pub open spec fn initial(self) -> Option<Brightness> {
        match self.stage {
            LightStage::Switching(_) => None,
            LightStage::ReadingBrightness => None,
            LightStage::WritingBrightness(initial) => Some(initial),
            LightStage::CheckingBrightness(initial) => Some(initial),
            LightStage::RestoringBrightness(initial) => Some(initial),
            LightStage::StartingFade(initial) => initial,
            LightStage::Fading(initial) => initial,
            LightStage::CheckingFade(initial) => Some(initial),
            LightStage::RestoringFade(initial) => Some(initial),
        }
    }

    /// How the brightness is read.
    pub open spec fn kind(self) -> BrightnessKind {
        if self.plan.brightness->Ok_0->0.integers {
            BrightnessKind::Integer
        } else {
            BrightnessKind::Float
        }
    }

    /// What is done at this stage.
    pub open spec fn does(self) -> LightCall<'a> {
        let form = self.plan.brightness->Ok_0->0.form;
        match self.stage {
            LightStage::Switching(stage) => LightCall::Switch(
                (SwitchTest { plan: self.plan.switch, stage }).sends(),
            ),
            LightStage::ReadingBrightness => LightCall::ReadBrightness(form, self.kind()),
            LightStage::WritingBrightness(initial) => LightCall::WriteBrightness(
                form,
                initial.other(),
            ),
            LightStage::CheckingBrightness(_) => LightCall::ReadBrightness(form, self.kind()),
            LightStage::RestoringBrightness(initial) => LightCall::WriteBrightness(form, initial),
            LightStage::StartingFade(initial) => LightCall::StartFade(
                self.plan.fade->Ok_0->0,
                fade_of(initial),
            ),
            LightStage::Fading(_) => LightCall::Wait(FADE_WAIT_MILLIS),
            LightStage::CheckingFade(_) => LightCall::ReadBrightness(form, BrightnessKind::Either),
            LightStage::RestoringFade(initial) => LightCall::WriteBrightness(form, initial),
        }
    }

    /// The answer is one to what is done at this stage.
    pub open spec fn answered_by(self, answer: LightAnswer) -> bool {
        match (self.stage, answer) {
            (LightStage::Switching(stage), LightAnswer::Switch(answer)) => (SwitchTest {
                plan: self.plan.switch,
                stage,
            }).answered_by(answer),
            (LightStage::ReadingBrightness, LightAnswer::Brightness(read)) => read matches Ok((
                _,
                found,
            )) ==> (found is Integer == self.kind() is Integer),
            (LightStage::CheckingBrightness(_), LightAnswer::Brightness(read)) => read matches Ok((
                _,
                found,
            )) ==> (found is Integer == self.kind() is Integer),
            (LightStage::CheckingFade(_), LightAnswer::Brightness(_)) => true,
            (LightStage::WritingBrightness(_), LightAnswer::Written(_)) => true,
            (LightStage::RestoringBrightness(_), LightAnswer::Written(_)) => true,
            (LightStage::RestoringFade(_), LightAnswer::Written(_)) => true,
            (LightStage::StartingFade(_), LightAnswer::Fade(_)) => true,
            (LightStage::Fading(_), LightAnswer::Waited) => true,
            _ => false,
        }
    }

    /// The test at a stage.
    pub open spec fn at(self, stage: LightStage) -> LightNext<'a> {
        LightNext::Continue(LightTest { plan: self.plan, stage })
    }

    /// How the test goes on once the brightness is tested, if there is one.
    pub open spec fn then_fade(self, initial: Option<Brightness>) -> LightNext<'a> {
        match self.plan.fade {
            Ok(Some(_)) => self.at(LightStage::StartingFade(initial)),
            _ => LightNext::Finish(Ok(())),
        }
    }

    /// How the test goes on once the on-off switch has passed.
    pub open spec fn then_brightness(self) -> LightNext<'a> {
        match (self.plan.brightness, self.plan.fade) {
            (Err(defect), _) => LightNext::Finish(Err(LightError::Defect(defect))),
            (_, Err(defect)) => LightNext::Finish(Err(LightError::Defect(defect))),
            (Ok(Some(_)), _) => self.at(LightStage::ReadingBrightness),
            (Ok(None), _) => self.then_fade(None),
        }
    }

    /// How the test goes on after a write, given how it would after a good one.
    pub open spec fn written(
        self,
        result: Result<u16, IntoFutureError>,
        then: LightNext<'a>,
    ) -> LightNext<'a> {
        match result {
            Err(error) => LightNext::Finish(Err(LightError::Write(error))),
            Ok(status) => if status == NO_CONTENT {
                then
            } else {
                LightNext::Finish(Err(LightError::NoContentStatus(status)))
            },
        }
    }

    /// How the test goes on after an answer.
    pub open spec fn after(self, answer: LightAnswer) -> LightNext<'a> {
        match (self.stage, answer) {
            (LightStage::Switching(stage), LightAnswer::Switch(answer)) => match (SwitchTest {
                plan: self.plan.switch,
                stage,
            }).after(answer) {
                SwitchNext::Continue(test) => self.at(LightStage::Switching(test.stage)),
                SwitchNext::Finish(Err(error)) => LightNext::Finish(Err(LightError::Switch(error))),
                SwitchNext::Finish(Ok(())) => self.then_brightness(),
            },
            (_, LightAnswer::Brightness(Err(error))) => LightNext::Finish(
                Err(LightError::Reqwest(error)),
            ),
            (_, LightAnswer::Fade(Err(error))) => LightNext::Finish(
                Err(LightError::Reqwest(error)),
            ),
            (stage, LightAnswer::Brightness(Ok((status, found)))) => if status != OK {
                LightNext::Finish(Err(LightError::OkStatus(status)))
            } else {
                match stage {
                    LightStage::ReadingBrightness => if found.in_range() {
                        self.at(LightStage::WritingBrightness(found))
                    } else {
                        LightNext::Finish(Err(LightError::OutOfRange(found)))
                    },
                    LightStage::CheckingBrightness(initial) => if found.same(initial.other()) {
                        self.at(LightStage::RestoringBrightness(initial))
                    } else {
                        LightNext::Finish(
                            Err(LightError::NotSet { written: initial.other(), read: found }),
                        )
                    },
                    LightStage::CheckingFade(initial) => {
                        let level = fade_level(Some(initial));
                        if found.is_level(level) {
                            self.at(LightStage::RestoringFade(initial))
                        } else {
                            LightNext::Finish(Err(LightError::NotFaded { level, read: found }))
                        }
                    },
                    _ => arbitrary(),
                }
            },
            (LightStage::WritingBrightness(initial), LightAnswer::Written(result)) => self.written(
                result,
                self.at(LightStage::CheckingBrightness(initial)),
            ),
            (LightStage::RestoringBrightness(initial), LightAnswer::Written(result)) =>
                self.written(result, self.then_fade(Some(initial))),
            (LightStage::RestoringFade(_), LightAnswer::Written(result)) => self.written(
                result,
                LightNext::Finish(Ok(())),
            ),
            (LightStage::StartingFade(initial), LightAnswer::Fade(Ok((status, response)))) =>
                match fade_refused(fade_of(initial), status, response) {
                Some(error) => LightNext::Finish(Err(error)),
                None => self.at(LightStage::Fading(initial)),
            },
            (LightStage::Fading(Some(initial)), LightAnswer::Waited) => self.at(
                LightStage::CheckingFade(initial),
            ),
            (LightStage::Fading(None), LightAnswer::Waited) => LightNext::Finish(Ok(())),
            _ => arbitrary(),
        }
    }

    /// Starts the test of a light emitter.
    pub fn start(plan: LightPlan<'a>) -> (test: Self)
        ensures
            test == (LightTest {
                plan,
                stage: LightStage::Switching(SwitchStage::ReadingInitial),
            }),
            test.wf(),
    {
        LightTest { plan, stage: LightStage::Switching(SwitchStage::ReadingInitial) }
    }

    fn brightness_form(&self) -> (r: BrightnessForm<'a>)
        requires
            self.plan.brightness matches Ok(Some(_)),
        ensures
            r == self.plan.brightness->Ok_0->0,
    {
        match self.plan.brightness {
            Ok(Some(brightness)) => brightness,
            _ => vstd::pervasive::unreached(),
        }
    }

    fn reading(&self) -> (r: LightCall<'a>)
        requires
            self.plan.brightness matches Ok(Some(_)),
        ensures
            r == LightCall::ReadBrightness(self.plan.brightness->Ok_0->0.form, self.kind()),
    {
        let brightness: BrightnessForm<'a> = self.brightness_form();
        let kind: BrightnessKind = if brightness.integers {
            BrightnessKind::Integer
        } else {
            BrightnessKind::Float
        };
        LightCall::ReadBrightness(brightness.form, kind)
    }

    fn is_of_kind(&self, read: &Result<(u16, Brightness), reqwest::Error>) -> (r: bool)
        requires
            self.plan.brightness matches Ok(Some(_)),
        ensures
            r == (read matches Ok((_, found)) ==> (found is Integer == self.kind() is Integer)),
    {
        match read {
            Ok((_, Brightness::Integer(_))) => self.brightness_form().integers,
            Ok((_, Brightness::Float(_))) => !self.brightness_form().integers,
            Err(_) => true,
        }
    }

    /// Whether the answer is one to what is done now.
    pub fn accepts(&self, answer: &LightAnswer) -> (r: bool)
        requires
            self.wf(),
        ensures
            r == self.answered_by(*answer),
    {
        match (&self.stage, answer) {
            (LightStage::Switching(stage), LightAnswer::Switch(answer)) => {
                SwitchTest { plan: self.plan.switch, stage: *stage }.accepts(answer)
            },
            (LightStage::ReadingBrightness, LightAnswer::Brightness(read)) => {
                self.is_of_kind(read)
            },
            (LightStage::CheckingBrightness(_), LightAnswer::Brightness(read)) => {
                self.is_of_kind(read)
            },
            (LightStage::CheckingFade(_), LightAnswer::Brightness(_)) => true,
            (LightStage::WritingBrightness(_), LightAnswer::Written(_)) => true,
            (LightStage::RestoringBrightness(_), LightAnswer::Written(_)) => true,
            (LightStage::RestoringFade(_), LightAnswer::Written(_)) => true,
            (LightStage::StartingFade(_), LightAnswer::Fade(_)) => true,
            (LightStage::Fading(_), LightAnswer::Waited) => true,
            _ => false,
        }
    }

    /// What is done now.
    pub fn call(&self) -> (call: LightCall<'a>)
        requires
            self.wf(),
        ensures
            call == self.does(),
    {
        match self.stage {
            LightStage::Switching(stage) => LightCall::Switch(
                SwitchTest { plan: self.plan.switch, stage }.call(),
            ),
            LightStage::ReadingBrightness => self.reading(),
            LightStage::WritingBrightness(initial) => LightCall::WriteBrightness(
                self.brightness_form().form,
                initial.another(),
            ),
            LightStage::CheckingBrightness(_) => self.reading(),
            LightStage::RestoringBrightness(initial) => LightCall::WriteBrightness(
                self.brightness_form().form,
                initial,
            ),
            LightStage::StartingFade(initial) => match self.plan.fade {
                Ok(Some(form)) => LightCall::StartFade(form, choose_fade(&initial)),
                _ => vstd::pervasive::unreached(),
            },
            LightStage::Fading(_) => LightCall::Wait(FADE_WAIT_MILLIS),
            LightStage::CheckingFade(_) => LightCall::ReadBrightness(
                self.brightness_form().form,
                BrightnessKind::Either,
            ),
            LightStage::RestoringFade(initial) => LightCall::WriteBrightness(
                self.brightness_form().form,
                initial,
            ),
        }
    }

    fn go_on(&self, stage: LightStage) -> (next: LightNext<'a>)
        ensures
            next == self.at(stage),
    {
        LightNext::Continue(LightTest { plan: self.plan, stage })
    }

    fn fade_next(&self, initial: Option<Brightness>) -> (next: LightNext<'a>)
        ensures
            next == self.then_fade(initial),
    {
        match self.plan.fade {
            Ok(Some(_)) => self.go_on(LightStage::StartingFade(initial)),
            _ => LightNext::Finish(Ok(())),
        }
    }

    fn brightness_next(&self) -> (next: LightNext<'a>)
        ensures
            next == self.then_brightness(),
    {
        match (self.plan.brightness, self.plan.fade) {
            (Err(defect), _) => LightNext::Finish(Err(LightError::Defect(defect))),
            (_, Err(defect)) => LightNext::Finish(Err(LightError::Defect(defect))),
            (Ok(Some(_)), _) => self.go_on(LightStage::ReadingBrightness),
            (Ok(None), _) => self.fade_next(None),
        }
    }

    fn after_write(
        &self,
        result: Result<u16, IntoFutureError>,
        then: LightNext<'a>,
    ) -> (next: LightNext<'a>)
        ensures
            next == self.written(result, then),
    {
        match result {
            Err(error) => LightNext::Finish(Err(LightError::Write(error))),
            Ok(status) => {
                if status == NO_CONTENT {
                    then
                } else {
                    LightNext::Finish(Err(LightError::NoContentStatus(status)))
                }
            },
        }
    }

    /// Takes an answer.
    pub fn step(self, answer: LightAnswer) -> (next: LightNext<'a>)
        requires
            self.wf(),
            self.answered_by(answer),
        ensures
            next == self.after(answer),
            next matches LightNext::Continue(test) ==> test.wf(),
    {
        match (self.stage, answer) {
            (LightStage::Switching(stage), LightAnswer::Switch(answer)) => {
                let test: SwitchTest<'a> = SwitchTest { plan: self.plan.switch, stage };
                match test.step(answer) {
                    SwitchNext::Continue(test) => self.go_on(LightStage::Switching(test.stage)),
                    SwitchNext::Finish(Err(error)) => LightNext::Finish(
                        Err(LightError::Switch(error)),
                    ),
                    SwitchNext::Finish(Ok(())) => self.brightness_next(),
                }
            },
            (_, LightAnswer::Brightness(Err(error))) => LightNext::Finish(
                Err(LightError::Reqwest(error)),
            ),
            (_, LightAnswer::Fade(Err(error))) => LightNext::Finish(
                Err(LightError::Reqwest(error)),
            ),
            (stage, LightAnswer::Brightness(Ok((status, found)))) => {
                if status != OK {
                    return LightNext::Finish(Err(LightError::OkStatus(status)));
                }
                match stage {
                    LightStage::ReadingBrightness => {
                        if found.is_in_range() {
                            self.go_on(LightStage::WritingBrightness(found))
                        } else {
                            LightNext::Finish(Err(LightError::OutOfRange(found)))
                        }
                    },
                    LightStage::CheckingBrightness(initial) => {
                        let expected: Brightness = initial.another();
                        if found == expected {
                            self.go_on(LightStage::RestoringBrightness(initial))
                        } else {
                            LightNext::Finish(Err(LightError::NotSet { written: expected, read: found }))
                        }
                    },
                    LightStage::CheckingFade(initial) => {
                        let level: u8 = choose_fade(&Some(initial)).level;
                        if found.has_level(level) {
                            self.go_on(LightStage::RestoringFade(initial))
                        } else {
                            LightNext::Finish(Err(LightError::NotFaded { level, read: found }))
                        }
                    },
                    _ => vstd::pervasive::unreached(),
                }
            },
            (LightStage::WritingBrightness(initial), LightAnswer::Written(result)) => {
                self.after_write(result, self.go_on(LightStage::CheckingBrightness(initial)))
            },
            (LightStage::RestoringBrightness(initial), LightAnswer::Written(result)) => {
                self.after_write(result, self.fade_next(Some(initial)))
            },
            (LightStage::RestoringFade(_), LightAnswer::Written(result)) => {
                self.after_write(result, LightNext::Finish(Ok(())))
            },
            (LightStage::StartingFade(initial), LightAnswer::Fade(Ok((status, response)))) => {
                match check_started(choose_fade(&initial), status, response) {
                    Err(error) => LightNext::Finish(Err(error)),
                    Ok(()) => self.go_on(LightStage::Fading(initial)),
                }
            },
            (LightStage::Fading(Some(initial)), LightAnswer::Waited) => {
                self.go_on(LightStage::CheckingFade(initial))
            },
            (LightStage::Fading(None), LightAnswer::Waited) => LightNext::Finish(Ok(())),
            _ => vstd::pervasive::unreached(),
        }
    }
}

} // verus!
