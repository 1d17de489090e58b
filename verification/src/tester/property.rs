//! The test of a property: a value that is written must be read back.

use vstd::prelude::*;
use vstd::std_specs::cmp::PartialEqSpec;

use crate::td::Form;
use crate::tester::request::shown_error;
use crate::tester::{IntoFutureError, Method, NO_CONTENT, OK};
use crate::text::join;
use crate::trusted::show_status;

verus! {

/// Why a property failed its test.
#[derive(Debug)]
pub enum TestPropertyError<'a, T> {
    /// The answer to the write has another status than `NO_CONTENT`.
    IncorrectPutStatus(u16),
    /// The answer to the read has another status than `OK`.
    IncorrectGetStatus(u16),
    /// Another value was read than was written.
    IncorrectValue {
        /// The value that was written.
        expected: &'a T,
        /// The value that was read.
        found: T,
    },
    /// A request could not be sent, or its answer not be read.
    Reqwest(reqwest::Error),
    /// The answer to the write has a body.
    NotEmpty(String),
}

impl<T> From<reqwest::Error> for TestPropertyError<'_, T> {
    fn from(error: reqwest::Error) -> (r: Self) {
        TestPropertyError::Reqwest(error)
    }
}

impl<T> vstd::std_specs::convert::FromSpecImpl<reqwest::Error> for TestPropertyError<'_, T> {
    open spec fn obeys_from_spec() -> bool {
        true
    }

    open spec fn from_spec(error: reqwest::Error) -> Self {
        TestPropertyError::Reqwest(error)
    }
}

impl<T> From<IntoFutureError> for TestPropertyError<'_, T> {
    fn from(error: IntoFutureError) -> (r: Self) {
        match error {
            IntoFutureError::Reqwest(error) => TestPropertyError::Reqwest(error),
            IntoFutureError::NotEmpty(body) => TestPropertyError::NotEmpty(body),
        }
    }
}

impl<T> vstd::std_specs::convert::FromSpecImpl<IntoFutureError> for TestPropertyError<'_, T> {
    open spec fn obeys_from_spec() -> bool {
        true
    }

    open spec fn from_spec(error: IntoFutureError) -> Self {
        match error {
            IntoFutureError::Reqwest(error) => TestPropertyError::Reqwest(error),
            IntoFutureError::NotEmpty(body) => TestPropertyError::NotEmpty(body),
        }
    }
}

impl<'a, T> TestPropertyError<'a, T> {
    /// A status in the error is one.
    pub open spec fn wf(self) -> bool {
        match self {
            TestPropertyError::IncorrectPutStatus(status) => 100 <= status <= 999,
            TestPropertyError::IncorrectGetStatus(status) => 100 <= status <= 999,
            _ => true,
        }
    }

    /// Whether a status in the error is one.
    pub fn is_wf(&self) -> (r: bool)
        ensures
            r == self.wf(),
    {
        match self {
            TestPropertyError::IncorrectPutStatus(status) => 100 <= *status && *status <= 999,
            TestPropertyError::IncorrectGetStatus(status) => 100 <= *status && *status <= 999,
            _ => true,
        }
    }

    /// The transport error whose text is part of that of this error, if there is one.
    pub open spec fn transport(self) -> Option<reqwest::Error> {
        match self {
            TestPropertyError::Reqwest(error) => Some(error),
            _ => None,
        }
    }

    /// The transport error whose text is part of that of this error, if there is one.
    pub fn transport_error(&self) -> (r: Option<&reqwest::Error>)
        ensures
            match r {
                Some(error) => self.transport() == Some(*error),
                None => self.transport() is None,
            },
    {
        match self {
            TestPropertyError::Reqwest(error) => Some(error),
            _ => None,
        }
    }

    /// The text of the error, given those of the two values and of a transport
    /// error.
    pub open spec fn described(
        self,
        expected: Seq<char>,
        found: Seq<char>,
        reqwest: Seq<char>,
    ) -> Seq<char> {
        match self {
            TestPropertyError::IncorrectPutStatus(status) =>
                "Expected NO_CONTENT status code from PUT request, got "@
                    + crate::trusted::status_phrase(status),
            TestPropertyError::IncorrectGetStatus(status) =>
                "Expected OK status code from GET request, got "@ + crate::trusted::status_phrase(
                status,
            ),
            TestPropertyError::IncorrectValue { .. } => "Value not set correctly, got "@ + found
                + " instead of "@ + expected,
            TestPropertyError::Reqwest(_) => "Reqwest error: "@ + reqwest,
            TestPropertyError::NotEmpty(body) =>
                "Expected empty response from PUT request, obtained: "@ + body@,
        }
    }

    /// The text of the error, given those of the two values and of a transport
    /// error.
    pub fn describe(&self, expected: &str, found: &str, reqwest: &str) -> (r: String)
        requires
            self.wf(),
        ensures
            r@ == self.described(expected@, found@, reqwest@),
    {
        match self {
            TestPropertyError::IncorrectPutStatus(status) => join(
                "Expected NO_CONTENT status code from PUT request, got ",
                show_status(*status).as_str(),
            ),
            TestPropertyError::IncorrectGetStatus(status) => join(
                "Expected OK status code from GET request, got ",
                show_status(*status).as_str(),
            ),
            TestPropertyError::IncorrectValue { .. } => join(
                join(join("Value not set correctly, got ", found).as_str(), " instead of ").as_str(),
                expected,
            ),
            TestPropertyError::Reqwest(_) => join("Reqwest error: ", reqwest),
            TestPropertyError::NotEmpty(body) => join(
                "Expected empty response from PUT request, obtained: ",
                body.as_str(),
            ),
        }
    }

    /// The text of the error, given those of the two values.
    pub fn text(&self, expected: &str, found: &str) -> (r: String)
        requires
            self.wf(),
        ensures
            exists|reqwest: Seq<char>|
                crate::tester::request::shows_error(self.transport(), reqwest)
                    && r@ == #[trigger] self.described(expected@, found@, reqwest),
    {
        self.describe(expected, found, shown_error(self.transport_error()).as_str())
    }
}

/// What a property test sends.
#[derive(Debug)]
pub enum PropertyCall<'f, 'a, T> {
    /// The value is put to the form. The answer should have no body.
    Put {
        /// The form.
        form: &'f Form,
        /// The value.
        value: &'a T,
    },
    /// The value is got from the form.
    Get {
        /// The form.
        form: &'f Form,
    },
}

impl<'f, 'a, T> PropertyCall<'f, 'a, T> {
    /// The method of the request, and the form that it goes to.
    pub open spec fn target(self) -> (Method, &'f Form) {
        match self {
            PropertyCall::Put { form, .. } => (Method::Put, form),
            PropertyCall::Get { form } => (Method::Get, form),
        }
    }

    /// The method of the request, and the form that it goes to.
    pub fn request(&self) -> (r: (Method, &'f Form))
        ensures
            r == self.target(),
    {
        match self {
            PropertyCall::Put { form, .. } => (Method::Put, *form),
            PropertyCall::Get { form } => (Method::Get, *form),
        }
    }
}

/// What a thing answers to a property test.
#[derive(Debug)]
pub enum PropertyAnswer<T> {
    /// The status of the answer to a write.
    Put(Result<u16, IntoFutureError>),
    /// The status of the answer to a read, and the value.
    Get(Result<(u16, T), reqwest::Error>),
}

/// How far a property test has come.
#[derive(Clone, Copy, Debug, PartialEq, Eq, Structural)]
pub enum PropertyStage {
    /// The value is written.
    Writing,
    /// The value is read back.
    Reading,
}

/// The test of a property.
#[derive(Debug)]
pub struct PropertyTest<'f, 'a, T> {
    /// The form of the property.
    pub form: &'f Form,
    /// The value to write.
    pub value: &'a T,
    /// How far the test has come.
    pub stage: PropertyStage,
}

/// How a property test goes on after an answer.
#[derive(Debug)]
pub enum PropertyNext<'f, 'a, T> {
    /// It sends its next request.
    Continue(PropertyTest<'f, 'a, T>),
    /// It is over.
    Finish(Result<(), TestPropertyError<'a, T>>),
}

/// Starts the test of a property: the value is written to the form and must be
/// read back.
pub fn test_property<'f, 'a, T>(form: &'f Form, value: &'a T) -> (test: PropertyTest<'f, 'a, T>)
    ensures
        test == (PropertyTest { form, value, stage: PropertyStage::Writing }),
{
    PropertyTest { form, value, stage: PropertyStage::Writing }
}

impl<'f, 'a, T> PropertyTest<'f, 'a, T> {
    /// What is sent at this stage.
    pub open spec fn sends(self) -> PropertyCall<'f, 'a, T> {
        match self.stage {
            PropertyStage::Writing => PropertyCall::Put { form: self.form, value: self.value },
            PropertyStage::Reading => PropertyCall::Get { form: self.form },
        }
    }

    /// The answer is one to what is sent at this stage.
    pub open spec fn answered_by(self, answer: PropertyAnswer<T>) -> bool {
        match self.stage {
            PropertyStage::Writing => answer is Put,
            PropertyStage::Reading => answer is Get,
        }
    }

    /// Whether the answer is one to what is sent now.
    pub fn accepts(&self, answer: &PropertyAnswer<T>) -> (r: bool)
        ensures
            r == self.answered_by(*answer),
    {
        match self.stage {
            PropertyStage::Writing => matches!(answer, PropertyAnswer::Put(_)),
            PropertyStage::Reading => matches!(answer, PropertyAnswer::Get(_)),
        }
    }

    /// What is sent now.
    pub fn call(&self) -> (call: PropertyCall<'f, 'a, T>)
        ensures
            call == self.sends(),
    {
        match self.stage {
            PropertyStage::Writing => PropertyCall::Put { form: self.form, value: self.value },
            PropertyStage::Reading => PropertyCall::Get { form: self.form },
        }
    }
}

impl<'f, 'a, T: PartialEq> PropertyTest<'f, 'a, T> {
    /// How the test goes on after an answer.
    pub open spec fn after(self, answer: PropertyAnswer<T>) -> PropertyNext<'f, 'a, T> {
        match answer {
            PropertyAnswer::Put(Err(IntoFutureError::Reqwest(error))) => PropertyNext::Finish(
                Err(TestPropertyError::Reqwest(error)),
            ),
            PropertyAnswer::Put(Err(IntoFutureError::NotEmpty(body))) => PropertyNext::Finish(
                Err(TestPropertyError::NotEmpty(body)),
            ),
            PropertyAnswer::Put(Ok(status)) => if status == NO_CONTENT {
                PropertyNext::Continue(
                    PropertyTest {
                        form: self.form,
                        value: self.value,
                        stage: PropertyStage::Reading,
                    },
                )
            } else {
                PropertyNext::Finish(Err(TestPropertyError::IncorrectPutStatus(status)))
            },
            PropertyAnswer::Get(Err(error)) => PropertyNext::Finish(
                Err(TestPropertyError::Reqwest(error)),
            ),
            PropertyAnswer::Get(Ok((status, read))) => if status != OK {
                PropertyNext::Finish(Err(TestPropertyError::IncorrectGetStatus(status)))
            } else if read.eq_spec(self.value) {
                PropertyNext::Finish(Ok(()))
            } else {
                PropertyNext::Finish(
                    Err(TestPropertyError::IncorrectValue { expected: self.value, found: read }),
                )
            },
        }
    }

    /// Takes an answer.
    pub fn step(self, answer: PropertyAnswer<T>) -> (next: PropertyNext<'f, 'a, T>)
        requires
            self.answered_by(answer),
        ensures
            match answer {
                PropertyAnswer::Get(Ok((status, read))) => if status == OK
                    && !T::obeys_eq_spec() {
                    ||| next == PropertyNext::<'f, 'a, T>::Finish(Ok(()))
                    ||| next == PropertyNext::<'f, 'a, T>::Finish(
                        Err(
                            TestPropertyError::IncorrectValue { expected: self.value, found: read },
                        ),
                    )
                } else {
                    next == self.after(answer)
                },
                _ => next == self.after(answer),
            },
    {
        match answer {
            PropertyAnswer::Put(Err(error)) => PropertyNext::Finish(
                Err(TestPropertyError::from(error)),
            ),
            PropertyAnswer::Put(Ok(status)) => {
                if status == NO_CONTENT {
                    PropertyNext::Continue(
                        PropertyTest {
                            form: self.form,
                            value: self.value,
                            stage: PropertyStage::Reading,
                        },
                    )
                } else {
                    PropertyNext::Finish(Err(TestPropertyError::IncorrectPutStatus(status)))
                }
            },
            PropertyAnswer::Get(Err(error)) => PropertyNext::Finish(
                Err(TestPropertyError::from(error)),
            ),
            PropertyAnswer::Get(Ok((status, read))) => {
                if status != OK {
                    PropertyNext::Finish(Err(TestPropertyError::IncorrectGetStatus(status)))
                } else if read == *self.value {
                    PropertyNext::Finish(Ok(()))
                } else {
                    PropertyNext::Finish(
                        Err(
                            TestPropertyError::IncorrectValue { expected: self.value, found: read },
                        ),
                    )
                }
            },
        }
    }
}

/// A property passes its test exactly when the write is answered with `NO_CONTENT`
/// and no body and the read with `OK` and a value equal to the written one.
pub proof fn passes_exactly_when_read_back<'f, 'a, T: PartialEq>(
    form: &'f Form,
    value: &'a T,
    put: Result<u16, IntoFutureError>,
    get: Result<(u16, T), reqwest::Error>,
)
    ensures
        ({
            let start = PropertyTest { form, value, stage: PropertyStage::Writing };
            (start.after(PropertyAnswer::Put(put)) matches PropertyNext::Continue(reading)
                && reading.after(PropertyAnswer::Get(get)) == PropertyNext::<'f, 'a, T>::Finish(Ok(())))
                <==> {
                &&& put == Ok::<u16, IntoFutureError>(204)
                &&& get matches Ok((status, read)) && status == 200 && read.eq_spec(value)
            }
        }),
{
}

/// The value is put to the form of the property, and then got from it.
pub proof fn property_is_asked_at_its_form<'f, 'a, T>(test: PropertyTest<'f, 'a, T>)
    ensures
        test.stage is Writing ==> (test.sends() matches PropertyCall::Put { form, value } && form
            == test.form && value == test.value),
        test.stage is Reading ==> (test.sends() matches PropertyCall::Get { form } && form
            == test.form),
        test.sends().target() == (
            if test.stage is Writing {
                Method::Put
            } else {
                Method::Get
            },
            test.form,
        ),
{
}

/// A write goes on to the read exactly when it is answered with `NO_CONTENT` and no
/// body, and a read ends the test; what else came is told by the error.
pub proof fn property_failures_are_told<'f, 'a, T: PartialEq>(
    test: PropertyTest<'f, 'a, T>,
    answer: PropertyAnswer<T>,
)
    requires
        test.answered_by(answer),
    ensures
        match answer {
            PropertyAnswer::Put(Ok(status)) => {
                &&& (test.after(answer) matches PropertyNext::Continue(next) && next == (
                PropertyTest {
                    form: test.form,
                    value: test.value,
                    stage: PropertyStage::Reading,
                })) <==> status == 204
                &&& test.after(answer) == PropertyNext::<'f, 'a, T>::Finish(
                    Err(TestPropertyError::IncorrectPutStatus(status)),
                ) <==> status != 204
            },
            PropertyAnswer::Put(Err(IntoFutureError::Reqwest(error))) => test.after(answer)
                == PropertyNext::<'f, 'a, T>::Finish(Err(TestPropertyError::Reqwest(error))),
            PropertyAnswer::Put(Err(IntoFutureError::NotEmpty(body))) => test.after(answer)
                == PropertyNext::<'f, 'a, T>::Finish(Err(TestPropertyError::NotEmpty(body))),
            PropertyAnswer::Get(Err(error)) => test.after(answer) == PropertyNext::<
                'f,
                'a,
                T,
            >::Finish(Err(TestPropertyError::Reqwest(error))),
            PropertyAnswer::Get(Ok((status, read))) => {
                &&& test.after(answer) == PropertyNext::<'f, 'a, T>::Finish(
                    Err(TestPropertyError::IncorrectGetStatus(status)),
                ) <==> status != 200
                &&& test.after(answer) == PropertyNext::<'f, 'a, T>::Finish(
                    Err(TestPropertyError::IncorrectValue { expected: test.value, found: read }),
                ) <==> status == 200 && !read.eq_spec(test.value)
            },
        },
{
}

/// An answer is one to what is sent exactly when it is of the same kind.
pub proof fn property_answers_fit_requests<'f, 'a, T>(
    test: PropertyTest<'f, 'a, T>,
    answer: PropertyAnswer<T>,
)
    ensures
        test.answered_by(answer) <==> (test.sends() is Put <==> answer is Put),
{
}

/// A transport error that an error holds is the one that its text is made with, and it is
/// well-formed exactly when a status that it holds is from 100 to 999.
pub proof fn property_errors_hold_what_they_show<'a, T>(
    error: TestPropertyError<'a, T>,
    held: reqwest::Error,
)
    ensures
        error.transport() == Some(held) <==> (error matches TestPropertyError::Reqwest(found)
            && found == held),
        error.wf() <==> match error {
            TestPropertyError::IncorrectPutStatus(status) => 100 <= status < 1000,
            TestPropertyError::IncorrectGetStatus(status) => 100 <= status < 1000,
            _ => true,
        },
{
}

/// What an error holds is shown: the status that came with the one that was due, the value
/// that was read and the one that was written, a transport error and a body.
pub proof fn property_errors_show_what_they_hold<'a, T>(
    error: TestPropertyError<'a, T>,
    expected: Seq<char>,
    found: Seq<char>,
    reqwest: Seq<char>,
)
    ensures
        error.described(expected, found, reqwest) == match error {
            TestPropertyError::IncorrectPutStatus(status) =>
                "Expected NO_CONTENT status code from PUT request, got "@
                + crate::trusted::status_phrase(status),
            TestPropertyError::IncorrectGetStatus(status) =>
                "Expected OK status code from GET request, got "@ + crate::trusted::status_phrase(
                status,
            ),
            TestPropertyError::IncorrectValue { .. } => "Value not set correctly, got "@ + found
                + " instead of "@ + expected,
            TestPropertyError::Reqwest(_) => "Reqwest error: "@ + reqwest,
            TestPropertyError::NotEmpty(body) =>
                "Expected empty response from PUT request, obtained: "@ + body@,
        },
{
}

} // verus!
