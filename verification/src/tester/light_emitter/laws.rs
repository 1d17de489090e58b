//! What holds of every test of a light emitter.

use vstd::prelude::*;

use crate::number::Binary64;
use crate::td::Form;
use crate::tester::light_emitter::{
    Brightness, BrightnessKind, LevelFade, LightAnswer, LightCall, LightError, LightNext,
    LightPlan, LightStage, LightTest,
};
use crate::tester::on_off_switch::{
    SwitchAnswer, SwitchError, SwitchNext, SwitchStage, SwitchTest,
};
use crate::tester::{
    ActionResponse, ActionResponseStatus, IntoFutureError, Method, PropertyAnswer,
    TestPropertyError,
};

verus! {

impl LightStage {
    /// A number that grows from stage to stage.
    pub open spec fn place(self) -> int {
        match self {
            LightStage::Switching(stage) => stage.place(),
            LightStage::ReadingBrightness => 9,
            LightStage::WritingBrightness(_) => 10,
            LightStage::CheckingBrightness(_) => 11,
            LightStage::RestoringBrightness(_) => 12,
            LightStage::StartingFade(_) => 13,
            LightStage::Fading(_) => 14,
            LightStage::CheckingFade(_) => 15,
            LightStage::RestoringFade(_) => 16,
        }
    }
}

/// Whatever a light emitter answers, each answer takes the test on, and it is over
/// after the seventeenth at the latest.
pub proof fn every_answer_takes_the_test_on(test: LightTest, answer: LightAnswer)
    requires
        test.wf(),
        test.answered_by(answer),
    ensures
        test.after(answer) matches LightNext::Continue(next) ==> test.stage.place()
            < next.stage.place() < 17,
{
    if let (LightStage::Switching(stage), LightAnswer::Switch(answer)) = (test.stage, answer) {
        crate::tester::on_off_switch::every_answer_takes_the_test_on(
            SwitchTest { plan: test.plan.switch, stage },
            answer,
        );
    }
}

/// The initial brightness, once it is known, is never taken for another one.
pub proof fn initial_brightness_is_kept(test: LightTest, answer: LightAnswer)
    requires
        test.wf(),
        test.answered_by(answer),
        test.initial() is Some,
    ensures
        test.after(answer) matches LightNext::Continue(next) ==> next.initial() == test.initial(),
{
}

/// A test that has found the initial brightness can only end well after it has
/// written it.
pub proof fn ends_well_only_after_restoring(test: LightTest, answer: LightAnswer)
    requires
        test.wf(),
        test.answered_by(answer),
        test.initial() is Some,
        test.after(answer) == LightNext::Finish(Ok(())),
    ensures
        test.does() == LightCall::WriteBrightness(
            test.plan.brightness->Ok_0->0.form,
            test.initial()->0,
        ),
        answer == LightAnswer::Written(Ok(204)),
{
}

/// The brightness that is written to test it is one that the light emitter does not
/// have, and the level of a fade is too.
pub proof fn tested_brightness_is_new(initial: Brightness)
    ensures
        !initial.other().same(initial),
        initial.other().in_range(),
        !initial.is_level(crate::tester::light_emitter::run::fade_level(Some(initial))),
{
    crate::number::small_integers_keep_their_order(25, 40);
    crate::number::small_integers_keep_their_order(25, 25);
    crate::number::small_integers_keep_their_order(0, 25);
    crate::number::small_integers_keep_their_order(25, 100);
    crate::number::small_integers_keep_their_order(0, 40);
    crate::number::small_integers_keep_their_order(40, 100);
    crate::number::small_integers_keep_their_order(15, 95);
}

/// What a light emitter answers that does as it is told, and its state afterwards: its
/// switch and its brightness. It answers a fade with the given response, as one that
/// it has carried out by the time its brightness is read, and shows the brightness
/// after the fade as an integer if it likes.
pub open spec fn faithful_answer(
    state: (bool, Brightness),
    call: LightCall,
    response: ActionResponse<LevelFade>,
    whole: bool,
) -> ((bool, Brightness), LightAnswer) {
    let (on, brightness) = state;
    match call {
        LightCall::Switch(call) => {
            let (left, answer) = crate::tester::on_off_switch::faithful_answer(on, call);
            ((left, brightness), LightAnswer::Switch(answer))
        },
        LightCall::ReadBrightness(_, kind) => {
            let shown = match brightness {
                Brightness::Float(x) => if kind is Either && whole && exists|n: u8|
                    x == #[trigger] Binary64::of_small(n) {
                    Brightness::Integer(choose|n: u8| x == #[trigger] Binary64::of_small(n))
                } else {
                    brightness
                },
                Brightness::Integer(_) => brightness,
            };
            (state, LightAnswer::Brightness(Ok((200, shown))))
        },
        LightCall::WriteBrightness(_, value) => ((on, value), LightAnswer::Written(Ok(204))),
        LightCall::StartFade(_, fade) => (
            (on, brightness.of_kind(fade.level)),
            LightAnswer::Fade(
                Ok((201, ActionResponse { output: Some(fade), ..response })),
            ),
        ),
        LightCall::Wait(_) => (state, LightAnswer::Waited),
    }
}

/// The outcome of the test of a faithful light emitter and the state in which it is
/// left, if the test is over after at most so many answers.
pub open spec fn faithful_run(
    test: LightTest,
    state: (bool, Brightness),
    response: ActionResponse<LevelFade>,
    whole: bool,
    fuel: nat,
) -> Option<(Result<(), LightError>, (bool, Brightness))>
    decreases fuel,
{
    if fuel == 0 {
        None
    } else {
        let (left, answer) = faithful_answer(state, test.does(), response, whole);
        match test.after(answer) {
            LightNext::Continue(next) => faithful_run(
                next,
                left,
                response,
                whole,
                (fuel - 1) as nat,
            ),
            LightNext::Finish(result) => Some((result, left)),
        }
    }
}

/// The part of a faithful run from the start of the fade on.
proof fn lemma_fading(
    plan: LightPlan,
    initial: Option<Brightness>,
    state: (bool, Brightness),
    response: ActionResponse<LevelFade>,
    whole: bool,
    fuel: nat,
)
    requires
        plan.brightness is Ok,
        plan.fade matches Ok(Some(_)),
        initial is Some == plan.brightness->Ok_0 is Some,
        initial is Some ==> state.1 == initial->0,
        response.error is None,
        response.status is Running || response.status is Pending,
        fuel >= 4,
    ensures
        faithful_run(
            LightTest { plan, stage: LightStage::StartingFade(initial) },
            state,
            response,
            whole,
            fuel,
        ) matches Some((result, left)) && result == Ok::<(), LightError>(()) && left.0 == state.0
            && (initial is Some ==> left.1 == state.1),
{
    reveal_with_fuel(faithful_run, 5);
    let level = crate::tester::light_emitter::run::fade_level(initial);
    let x = Binary64::of_small(level);
    crate::number::small_integers_keep_their_order(level, level);
    let n = choose|n: u8| x == #[trigger] Binary64::of_small(n);
    crate::number::small_integers_keep_their_order(n, level);
}

/// The part of a faithful run from the test of the brightness on.
proof fn lemma_brightness(
    plan: LightPlan,
    state: (bool, Brightness),
    response: ActionResponse<LevelFade>,
    whole: bool,
    fuel: nat,
)
    requires
        plan.brightness matches Ok(Some(form)) && state.1 is Integer == form.integers,
        plan.fade is Ok,
        state.1.in_range(),
        response.error is None,
        response.status is Running || response.status is Pending,
        fuel >= 8,
    ensures
        faithful_run(
            LightTest { plan, stage: LightStage::ReadingBrightness },
            state,
            response,
            whole,
            fuel,
        ) == Some((Ok::<(), LightError>(()), state)),
{
    reveal_with_fuel(faithful_run, 5);
    crate::number::small_integers_keep_their_order(25, 25);
    crate::number::small_integers_keep_their_order(40, 40);
    if plan.fade->Ok_0 is Some {
        lemma_fading(plan, Some(state.1), state, response, whole, (fuel - 4) as nat);
    }
}

/// The part of a faithful run in which the switch is tested.
proof fn lemma_switching(
    plan: LightPlan,
    state: (bool, Brightness),
    response: ActionResponse<LevelFade>,
    whole: bool,
    fuel: nat,
)
    requires
        plan.switch.toggle is Ok,
        fuel >= 9,
    ensures
        ({
            let start = LightTest {
                plan,
                stage: LightStage::Switching(SwitchStage::ReadingInitial),
            };
            let spare = (if plan.switch.toggle->Ok_0 is Some {
                fuel - 9
            } else {
                fuel - 5
            }) as nat;
            faithful_run(start, state, response, whole, fuel) == match start.then_brightness() {
                LightNext::Continue(next) => faithful_run(next, state, response, whole, spare),
                LightNext::Finish(result) => Some((result, state)),
            }
        }),
{
    reveal_with_fuel(faithful_run, 10);
}

/// A faithful light emitter passes its test, if its description is in order and its
/// brightness in range, and is left in the state in which it was found.
pub proof fn faithful_light_is_left_as_found(
    plan: LightPlan,
    on: bool,
    brightness: Brightness,
    response: ActionResponse<LevelFade>,
    whole: bool,
)
    requires
        plan.switch.toggle is Ok,
        plan.brightness is Ok,
        plan.fade is Ok,
        plan.brightness matches Ok(Some(form)) ==> brightness is Integer == form.integers
            && brightness.in_range(),
        response.error is None,
        response.status is Running || response.status is Pending,
    ensures
        faithful_run(
            LightTest { plan, stage: LightStage::Switching(SwitchStage::ReadingInitial) },
            (on, brightness),
            response,
            whole,
            17,
        ) matches Some((result, (left_on, left_brightness))) && result == Ok::<(), LightError>(())
            && left_on == on && (plan.brightness->Ok_0 is Some ==> left_brightness == brightness),
{
    let state = (on, brightness);
    lemma_switching(plan, state, response, whole, 17);
    let spare: nat = if plan.switch.toggle->Ok_0 is Some {
        8
    } else {
        12
    };
    if plan.brightness->Ok_0 is Some {
        lemma_brightness(plan, state, response, whole, spare);
    } else if plan.fade->Ok_0 is Some {
        lemma_fading(plan, None, state, response, whole, spare);
    }
}

/// The description is in order, as far as what is still to be tested goes.
pub open spec fn in_order(test: LightTest) -> bool {
    test.stage is Switching ==> {
        &&& test.plan.switch.toggle is Ok
        &&& test.plan.brightness is Ok
        &&& test.plan.fade is Ok
    }
}

/// A switch answers what it should answer: a state that is written or toggled is read
/// back.
pub open spec fn switch_as_expected(stage: SwitchStage, answer: SwitchAnswer) -> bool {
    match (stage, answer) {
        (SwitchStage::ReadingInitial, SwitchAnswer::Read(read)) => read matches Ok((status, _))
            && status == 200,
        (SwitchStage::Setting { initial, back, .. }, SwitchAnswer::Property(answer)) =>
            match answer {
            PropertyAnswer::Put(written) => written == Ok::<u16, IntoFutureError>(204),
            PropertyAnswer::Get(read) => read == Ok::<(u16, bool), reqwest::Error>(
                (200, initial == back),
            ),
        },
        (_, SwitchAnswer::Toggled(toggled)) => toggled == Ok::<u16, IntoFutureError>(200),
        (SwitchStage::Checking { initial, back }, SwitchAnswer::Read(read)) => read == Ok::<
            (u16, bool),
            reqwest::Error,
        >((200, initial == back)),
        _ => false,
    }
}

/// A light emitter answers what it should answer: its brightness is in range and, once
/// it is written or faded, read back, and a fade is started as asked.
pub open spec fn as_expected(test: LightTest, answer: LightAnswer) -> bool {
    match (test.stage, answer) {
        (LightStage::Switching(stage), LightAnswer::Switch(answer)) => switch_as_expected(
            stage,
            answer,
        ),
        (LightStage::ReadingBrightness, LightAnswer::Brightness(read)) => read matches Ok((
            status,
            found,
        )) && status == 200 && found.in_range(),
        (LightStage::CheckingBrightness(initial), LightAnswer::Brightness(read)) => read matches
            Ok((status, found)) && status == 200 && found.same(initial.other()),
        (LightStage::CheckingFade(initial), LightAnswer::Brightness(read)) => read matches Ok((
            status,
            found,
        )) && status == 200 && found.is_level(
            crate::tester::light_emitter::run::fade_level(Some(initial)),
        ),
        (LightStage::StartingFade(initial), LightAnswer::Fade(answer)) => answer matches Ok((
            status,
            response,
        )) && status == 201 && response.error is None && (response.status is Running
            || response.status is Pending) && response.output == Some(
            LevelFade {
                duration: 2,
                level: crate::tester::light_emitter::run::fade_level(initial),
            },
        ),
        (_, LightAnswer::Written(written)) => written == Ok::<u16, IntoFutureError>(204),
        (_, LightAnswer::Waited) => true,
        _ => false,
    }
}

/// The test of a light emitter goes on, or ends well, exactly where it answers what it
/// should answer and its description is in order.
pub proof fn fails_exactly_when_something_is_wrong(test: LightTest, answer: LightAnswer)
    requires
        test.wf(),
        test.answered_by(answer),
    ensures
        match test.after(answer) {
            LightNext::Continue(next) => as_expected(test, answer) && next.wf() && in_order(next)
                == in_order(test),
            LightNext::Finish(result) => result is Ok <==> as_expected(test, answer) && in_order(
                test,
            ),
        },
{
}

/// The outcome of the test of a light emitter over a sequence of answers, if it is over
/// exactly with the last of them.
pub open spec fn outcome(test: LightTest, answers: Seq<LightAnswer>) -> Option<
    Result<(), LightError>,
>
    decreases answers.len(),
{
    if answers.len() == 0 || !test.answered_by(answers[0]) {
        None
    } else {
        match test.after(answers[0]) {
            LightNext::Continue(next) => outcome(next, answers.drop_first()),
            LightNext::Finish(result) => if answers.len() == 1 {
                Some(result)
            } else {
                None
            },
        }
    }
}

/// Every answer is what it should be.
pub open spec fn all_as_expected(test: LightTest, answers: Seq<LightAnswer>) -> bool
    decreases answers.len(),
{
    answers.len() > 0 ==> {
        &&& as_expected(test, answers[0])
        &&& test.after(answers[0]) matches LightNext::Continue(next) ==> all_as_expected(
            next,
            answers.drop_first(),
        )
    }
}

/// A test of a light emitter ends well exactly when its description is in order and all
/// that it answers until the test is over is what it should be.
pub proof fn passes_exactly_when_all_is_as_expected(test: LightTest, answers: Seq<LightAnswer>)
    requires
        test.wf(),
        outcome(test, answers) is Some,
    ensures
        (outcome(test, answers)->0) is Ok <==> in_order(test) && all_as_expected(test, answers),
    decreases answers.len(),
{
    let rest = answers.drop_first();
    fails_exactly_when_something_is_wrong(test, answers[0]);
    match test.after(answers[0]) {
        LightNext::Continue(next) => {
            assert(outcome(test, answers) == outcome(next, rest));
            assert(all_as_expected(test, answers) == (as_expected(test, answers[0])
                && all_as_expected(next, rest)));
            passes_exactly_when_all_is_as_expected(next, rest);
        },
        LightNext::Finish(result) => {
            assert(outcome(test, answers) == Some(result));
            assert(all_as_expected(test, answers) == as_expected(test, answers[0]));
        },
    }
}

/// An integer is in range exactly when it is at most 100, and any other number exactly
/// when it is the negative zero or its bits are at most those of 100.
pub proof fn range_is_from_zero_to_hundred(n: u8, x: Binary64)
    ensures
        Brightness::Integer(n).in_range() <==> n <= 100,
        Brightness::Float(x).in_range() <==> x.bits <= 0x4059_0000_0000_0000 || x.bits
            == 0x8000_0000_0000_0000,
{
    crate::number::hundred_and_zero_by_their_bits();
}

/// Two integers are the same brightness exactly when they are equal, two other numbers
/// exactly when both are zeros or their bits are those of one number, and an integer is
/// never the same as another number.
pub proof fn brightness_is_compared_by_kind(m: u8, n: u8, x: Binary64, y: Binary64)
    ensures
        Brightness::Integer(m).same(Brightness::Integer(n)) <==> m == n,
        Brightness::Float(x).same(Brightness::Float(y)) <==> x.equals(y),
        !Brightness::Integer(m).same(Brightness::Float(x)),
        !Brightness::Float(x).same(Brightness::Integer(m)),
{
}

/// An integer has a level exactly when it is that level, and any other number exactly
/// when it is the number of that level or, for level 0, the negative zero.
pub proof fn levels_are_compared_by_value(n: u8, x: Binary64, level: u8)
    ensures
        Brightness::Integer(n).is_level(level) <==> n == level,
        Brightness::Float(x).is_level(level) <==> x.bits == Binary64::of_small(level).bits || level
            == 0 && x.bits == 0x8000_0000_0000_0000,
{
    crate::number::small_integers_keep_their_order(level, level);
    crate::number::small_integers_keep_their_order(0, level);
    crate::number::small_integers_keep_their_value(level);
    crate::number::hundred_and_zero_by_their_bits();
    crate::number::numbers_are_equal_by_their_bits(x, Binary64::of_small(level));
    crate::number::numbers_are_equal_by_their_bits(Binary64::of_small(0), Binary64::of_small(level));
}

/// The brightness that is written to test it is 25, and 40 where it is 25 already.
pub proof fn tested_brightness_is_25_or_40(n: u8, x: Binary64)
    ensures
        Brightness::Integer(n).other() == Brightness::Integer(
            if n == 25 {
                40
            } else {
                25
            },
        ),
        Brightness::Float(x).other() matches Brightness::Float(y) && y.bits == (if x.bits
            == 0x4039_0000_0000_0000 {
            0x4044_0000_0000_0000u64
        } else {
            0x4039_0000_0000_0000
        }),
{
    crate::number::middle_levels_by_their_bits();
    crate::number::numbers_are_equal_by_their_bits(x, Binary64::of_small(25));
}

/// A fade takes two seconds and goes to 95, and to 15 where the brightness is 95 already.
pub proof fn fade_goes_to_95_or_15(n: u8, x: Binary64)
    ensures
        crate::tester::light_emitter::run::fade_of(None) == (LevelFade { duration: 2, level: 95 }),
        crate::tester::light_emitter::run::fade_of(Some(Brightness::Integer(n))) == (LevelFade {
            duration: 2,
            level: if n == 95 {
                15
            } else {
                95
            },
        }),
        crate::tester::light_emitter::run::fade_of(Some(Brightness::Float(x))) == (LevelFade {
            duration: 2,
            level: if x.bits == 0x4057_c000_0000_0000 {
                15
            } else {
                95
            },
        }),
{
    crate::number::middle_levels_by_their_bits();
    crate::number::numbers_are_equal_by_their_bits(x, Binary64::of_small(95));
}

/// The brightness is read and written at its form, a fade is started at its own and
/// waited for a tenth of a second longer than it takes, and the initial brightness is
/// written again after either test.
pub proof fn light_is_asked_at_its_forms(test: LightTest)
    requires
        test.wf(),
    ensures
        match test.stage {
            LightStage::Switching(stage) => test.does() == LightCall::Switch(
                (SwitchTest { plan: test.plan.switch, stage }).sends(),
            ),
            LightStage::ReadingBrightness => {
                &&& test.does() matches LightCall::ReadBrightness(form, kind)
                &&& form == test.plan.brightness->Ok_0->0.form
                &&& kind is Integer <==> test.plan.brightness->Ok_0->0.integers
                &&& kind is Float <==> !test.plan.brightness->Ok_0->0.integers
            },
            LightStage::CheckingBrightness(_) => {
                &&& test.does() matches LightCall::ReadBrightness(form, kind)
                &&& form == test.plan.brightness->Ok_0->0.form
                &&& kind is Integer <==> test.plan.brightness->Ok_0->0.integers
                &&& kind is Float <==> !test.plan.brightness->Ok_0->0.integers
            },
            LightStage::CheckingFade(_) => {
                &&& test.does() matches LightCall::ReadBrightness(form, kind)
                &&& form == test.plan.brightness->Ok_0->0.form
                &&& kind == BrightnessKind::Either
            },
            LightStage::WritingBrightness(initial) => {
                &&& test.does() matches LightCall::WriteBrightness(form, value)
                &&& form == test.plan.brightness->Ok_0->0.form
                &&& value == initial.other()
            },
            LightStage::RestoringBrightness(initial) => {
                &&& test.does() matches LightCall::WriteBrightness(form, value)
                &&& form == test.plan.brightness->Ok_0->0.form
                &&& value == initial
            },
            LightStage::RestoringFade(initial) => {
                &&& test.does() matches LightCall::WriteBrightness(form, value)
                &&& form == test.plan.brightness->Ok_0->0.form
                &&& value == initial
            },
            LightStage::StartingFade(initial) => {
                &&& test.does() matches LightCall::StartFade(form, fade)
                &&& test.plan.fade == Ok::<
                    Option<&Form>,
                    crate::tester::light_emitter::LightDefect,
                >(Some(form))
                &&& fade == (LevelFade {
                    duration: 2,
                    level: crate::tester::light_emitter::run::fade_level(initial),
                })
            },
            LightStage::Fading(_) => test.does() == LightCall::Wait(2100),
        },
        match test.does() {
            LightCall::Switch(call) => test.does().target() == Some(call.target()),
            LightCall::ReadBrightness(form, _) => test.does().target() == Some((Method::Get, form)),
            LightCall::WriteBrightness(form, _) => test.does().target() == Some(
                (Method::Put, form),
            ),
            LightCall::StartFade(form, _) => test.does().target() == Some((Method::Post, form)),
            LightCall::Wait(_) => test.does().target() is None,
        },
{
}

/// An answer is one to what is done exactly when it is of the same kind, and a
/// brightness that is read also when it is the number that was asked for.
pub proof fn light_answers_fit_requests(test: LightTest, answer: LightAnswer)
    requires
        test.wf(),
    ensures
        test.answered_by(answer) <==> match (test.does(), answer) {
            (LightCall::Switch(_), LightAnswer::Switch(answer)) => (SwitchTest {
                plan: test.plan.switch,
                stage: test.stage->Switching_0,
            }).answered_by(answer),
            (LightCall::ReadBrightness(_, kind), LightAnswer::Brightness(read)) => match (
                kind,
                read,
            ) {
                (BrightnessKind::Integer, Ok((_, found))) => found is Integer,
                (BrightnessKind::Float, Ok((_, found))) => found is Float,
                _ => true,
            },
            (LightCall::WriteBrightness(_, _), LightAnswer::Written(_)) => true,
            (LightCall::StartFade(_, _), LightAnswer::Fade(_)) => true,
            (LightCall::Wait(_), LightAnswer::Waited) => true,
            _ => false,
        },
{
}

/// The stages follow each other: the switch, the brightness where there is one, which is
/// read, set and restored, and the fade where there is one, whose end is checked where
/// there is a brightness.
pub proof fn light_is_tested_in_order(test: LightTest, answer: LightAnswer)
    requires
        test.wf(),
        test.answered_by(answer),
        as_expected(test, answer),
        in_order(test),
    ensures
        ({
            let next = test.after(answer);
            let fading = |initial: Option<Brightness>|
                if test.plan.fade->Ok_0 is Some {
                    at_stage(next, test.plan, LightStage::StartingFade(initial))
                } else {
                    next == LightNext::Finish(Ok(()))
                };
            match test.stage {
                LightStage::Switching(stage) => match (SwitchTest {
                    plan: test.plan.switch,
                    stage,
                }).after(answer->Switch_0) {
                    SwitchNext::Continue(switch) => at_stage(
                        next,
                        test.plan,
                        LightStage::Switching(switch.stage),
                    ),
                    SwitchNext::Finish(_) => if test.plan.brightness->Ok_0 is Some {
                        at_stage(next, test.plan, LightStage::ReadingBrightness)
                    } else {
                        fading(None)
                    },
                },
                LightStage::ReadingBrightness => at_stage(
                    next,
                    test.plan,
                    LightStage::WritingBrightness((answer->Brightness_0->Ok_0).1),
                ),
                LightStage::WritingBrightness(initial) => at_stage(
                    next,
                    test.plan,
                    LightStage::CheckingBrightness(initial),
                ),
                LightStage::CheckingBrightness(initial) => at_stage(
                    next,
                    test.plan,
                    LightStage::RestoringBrightness(initial),
                ),
                LightStage::RestoringBrightness(initial) => fading(Some(initial)),
                LightStage::StartingFade(initial) => at_stage(
                    next,
                    test.plan,
                    LightStage::Fading(initial),
                ),
                LightStage::Fading(None) => next == LightNext::Finish(Ok(())),
                LightStage::Fading(Some(initial)) => at_stage(
                    next,
                    test.plan,
                    LightStage::CheckingFade(initial),
                ),
                LightStage::CheckingFade(initial) => at_stage(
                    next,
                    test.plan,
                    LightStage::RestoringFade(initial),
                ),
                LightStage::RestoringFade(_) => next == LightNext::Finish(Ok(())),
            }
        }),
{
}

/// The test goes on at a stage.
pub open spec fn at_stage(next: LightNext, plan: LightPlan, stage: LightStage) -> bool {
    next matches LightNext::Continue(test) && test.plan == plan && test.stage == stage
}

/// The test is over for an error.
pub open spec fn fails(next: LightNext, error: LightError) -> bool {
    next == LightNext::Finish(Err(error))
}

/// An answer of another status than the one that is due ends the test, and so does a
/// request that failed: the error tells which it was.
pub proof fn light_failures_are_told(test: LightTest, answer: LightAnswer)
    requires
        test.wf(),
        test.answered_by(answer),
    ensures
        match answer {
            LightAnswer::Switch(switch) => match (SwitchTest {
                plan: test.plan.switch,
                stage: test.stage->Switching_0,
            }).after(switch) {
                SwitchNext::Finish(Err(error)) => fails(
                    test.after(answer),
                    LightError::Switch(error),
                ),
                SwitchNext::Finish(Ok(_)) => match (test.plan.brightness, test.plan.fade) {
                    (Err(defect), _) => fails(test.after(answer), LightError::Defect(defect)),
                    (Ok(_), Err(defect)) => fails(test.after(answer), LightError::Defect(defect)),
                    (Ok(_), Ok(_)) => !(test.after(answer) matches LightNext::Finish(Err(_))),
                },
                SwitchNext::Continue(_) => test.after(answer) is Continue,
            },
            LightAnswer::Brightness(Err(error)) => fails(
                test.after(answer),
                LightError::Reqwest(error),
            ),
            LightAnswer::Brightness(Ok((status, _))) => fails(
                test.after(answer),
                LightError::OkStatus(status),
            ) <==> status != 200,
            LightAnswer::Written(Err(error)) => fails(test.after(answer), LightError::Write(error)),
            LightAnswer::Written(Ok(status)) => fails(
                test.after(answer),
                LightError::NoContentStatus(status),
            ) <==> status != 204,
            LightAnswer::Fade(Err(error)) => fails(test.after(answer), LightError::Reqwest(error)),
            LightAnswer::Fade(Ok((status, response))) => {
                let due = status == 201;
                let well = due && response.error is None;
                let begun = well && (response.status is Running || response.status is Pending);
                let asked = LevelFade {
                    duration: 2,
                    level: crate::tester::light_emitter::run::fade_level(test.initial()),
                };
                &&& fails(test.after(answer), LightError::CreatedStatus(status)) <==> !due
                &&& fails(test.after(answer), LightError::FadeFailed) <==> due && response.error
                    is Some
                &&& fails(test.after(answer), LightError::FadeStatus(response.status)) <==> well
                    && (response.status == ActionResponseStatus::Completed || response.status
                    == ActionResponseStatus::Failed)
                &&& fails(
                    test.after(answer),
                    LightError::FadeOutput { asked, told: response.output },
                ) <==> begun && response.output != Some(asked)
            },
            LightAnswer::Waited => true,
        },
{
}

/// A brightness that is out of range, not the one that was written or not the one that
/// was faded to ends the test, and nothing else that is read does so in this way.
pub proof fn wrong_brightness_is_told(test: LightTest, found: Brightness)
    requires
        test.wf(),
    ensures
        ({
            let next = test.after(LightAnswer::Brightness(Ok((200, found))));
            match test.stage {
                LightStage::ReadingBrightness => fails(next, LightError::OutOfRange(found))
                    <==> !found.in_range(),
                LightStage::CheckingBrightness(initial) => fails(
                    next,
                    LightError::NotSet { written: initial.other(), read: found },
                ) <==> !found.same(initial.other()),
                LightStage::CheckingFade(initial) => {
                    let level = crate::tester::light_emitter::run::fade_level(Some(initial));
                    fails(next, LightError::NotFaded { level, read: found }) <==> !found.is_level(
                        level,
                    )
                },
                _ => true,
            }
        }),
{
}

/// A transport error that an error holds, itself or in what it holds, is the one that its text
/// is made with; where it holds none, there is none.
pub proof fn held_transport_errors_are_shown(error: LightError, held: reqwest::Error)
    ensures
        error.transport() == Some(held) <==> match error {
            LightError::Reqwest(error) => error == held,
            LightError::Write(IntoFutureError::Reqwest(error)) => error == held,
            LightError::Switch(SwitchError::Reqwest(error)) => error == held,
            LightError::Switch(SwitchError::Toggle(IntoFutureError::Reqwest(error))) => error
                == held,
            LightError::Switch(SwitchError::Property(TestPropertyError::Reqwest(error))) => error
                == held,
            _ => false,
        },
        forall|switch: SwitchError| #[trigger]
            switch.transport() == LightError::Switch(switch).transport(),
{
}

/// An error is well-formed exactly when a status that it holds, itself or in what it holds, is
/// from 100 to 999.
pub proof fn held_statuses_are_in_range(error: LightError)
    ensures
        error.wf() <==> match error {
            LightError::OkStatus(status) => 100 <= status < 1000,
            LightError::NoContentStatus(status) => 100 <= status < 1000,
            LightError::CreatedStatus(status) => 100 <= status < 1000,
            LightError::Switch(SwitchError::Status(status)) => 100 <= status < 1000,
            LightError::Switch(
                SwitchError::Property(TestPropertyError::IncorrectPutStatus(status)),
            ) => 100 <= status < 1000,
            LightError::Switch(
                SwitchError::Property(TestPropertyError::IncorrectGetStatus(status)),
            ) => 100 <= status < 1000,
            _ => true,
        },
        forall|switch: SwitchError| #[trigger] switch.wf() == LightError::Switch(switch).wf(),
{
}

} // verus!
