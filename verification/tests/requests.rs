use wot_test::td::{CowStr, Form, NameMap};
use wot_test::json::JsonValue;
use wot_test::tester::poller::{CallPoll, Inner, PollerNeed, PollerTurn};
use wot_test::tester::{
    check_no_incoming_messages, description_endpoint, empty_answer, eq_opt_http_api_problem, test_property,
    IncomingMessageError, IntoFutureError, Method, Problem, PropertyAnswer, PropertyCall, PropertyNext,
    PropertyStage, PropertyTest, Race, TestPropertyError,
};

fn transport_error() -> reqwest::Error {
    reqwest::Client::new().get("no url").build().unwrap_err()
}

#[test]
fn a_thing_describes_itself_at_a_known_place() {
    assert_eq!(description_endpoint(), ".well-known/wot");
}

#[test]
fn an_answer_without_a_body_is_its_status() {
    assert_eq!(empty_answer(204, b"").unwrap(), 204);
    assert_eq!(empty_answer(500, b"").unwrap(), 500);
}

#[test]
fn an_answer_with_a_body_is_refused_with_its_text() {
    let text = |body: &[u8]| match empty_answer(204, body) {
        Err(IntoFutureError::NotEmpty(text)) => text,
        _ => panic!(),
    };
    assert_eq!(text(b"{}"), "{}");
    assert_eq!(text("é€".as_bytes()), "é€");
    assert_eq!(text(b"a\xffb"), "a\u{fffd}b");
}

#[test]
fn the_errors_of_empty_answers_have_texts() {
    let error = IntoFutureError::NotEmpty("{}".to_string());
    assert_eq!(error.text(), "Expected empty response, obtained: {}");
    let error = IntoFutureError::from(transport_error());
    assert!(matches!(error, IntoFutureError::Reqwest(_)));
    assert_eq!(error.text(), format!("Reqwest error: {}", transport_error()));
    assert_eq!(error.describe("x"), "Reqwest error: x");
}

#[test]
fn work_is_done_unless_a_message_comes_first() {
    let done: Race<i32, &str> = Race::Done(1);
    assert_eq!(check_no_incoming_messages(done), Ok(1));
    let message: Race<i32, &str> = Race::Received(Some("stop"));
    let error = check_no_incoming_messages(message).unwrap_err();
    assert_eq!(error, IncomingMessageError::UnexpectedMessage("stop"));
    assert_eq!(
        error.describe("\"stop\""),
        "Message from event handler received when nothing was expected: \"stop\""
    );
    let closed: Race<i32, &str> = Race::Received(None);
    let error = check_no_incoming_messages(closed).unwrap_err();
    assert_eq!(error, IncomingMessageError::ChannelClosed);
    assert_eq!(error.describe(""), "Channel from event handler closed unexpectedly");
}

fn form() -> Form {
    Form {
        href: CowStr::from("/properties/on"),
        op: None,
        subprotocol: None,
    }
}

fn reading<'f, 'a>(form: &'f Form, value: &'a i32) -> PropertyTest<'f, 'a, i32> {
    match test_property(form, value).step(PropertyAnswer::Put(Ok(204))) {
        PropertyNext::Continue(test) => test,
        _ => panic!(),
    }
}

#[test]
fn a_property_is_written_and_then_read() {
    let form = form();
    let test = test_property(&form, &7);
    assert_eq!(test.stage, PropertyStage::Writing);
    assert_eq!(test.call().request().0, Method::Put);
    match test.call() {
        PropertyCall::Put { form, value } => {
            assert_eq!(form.href.as_str(), "/properties/on");
            assert_eq!(*value, 7);
        }
        _ => panic!(),
    }
    assert!(test.accepts(&PropertyAnswer::Put(Ok(204))));
    assert!(!test.accepts(&PropertyAnswer::Get(Ok((200, 7)))));
    let test = reading(&form, &7);
    assert_eq!(test.stage, PropertyStage::Reading);
    assert_eq!(test.call().request(), (Method::Get, &form));
    assert!(matches!(test.call(), PropertyCall::Get { form } if form.href.as_str() == "/properties/on"));
    assert!(test.accepts(&PropertyAnswer::Get(Ok((200, 7)))));
    assert!(!test.accepts(&PropertyAnswer::Put(Ok(204))));
}

#[test]
fn a_property_that_is_read_back_passes() {
    let form = form();
    assert!(matches!(
        reading(&form, &7).step(PropertyAnswer::Get(Ok((200, 7)))),
        PropertyNext::Finish(Ok(()))
    ));
}

#[test]
fn a_property_that_answers_otherwise_fails() {
    let form = form();
    let put = |answer| match test_property(&form, &7).step(PropertyAnswer::Put(answer)) {
        PropertyNext::Finish(Err(error)) => error,
        _ => panic!(),
    };
    let get = |answer| match reading(&form, &7).step(PropertyAnswer::Get(answer)) {
        PropertyNext::Finish(Err(error)) => error,
        _ => panic!(),
    };
    assert!(matches!(put(Ok(200)), TestPropertyError::IncorrectPutStatus(200)));
    assert!(matches!(
        put(Err(IntoFutureError::NotEmpty("x".to_string()))),
        TestPropertyError::NotEmpty(text) if text == "x"
    ));
    assert!(matches!(
        put(Err(IntoFutureError::Reqwest(transport_error()))),
        TestPropertyError::Reqwest(_)
    ));
    assert!(matches!(get(Ok((204, 7))), TestPropertyError::IncorrectGetStatus(204)));
    assert!(matches!(
        get(Ok((200, 8))),
        TestPropertyError::IncorrectValue { expected: 7, found: 8 }
    ));
    assert!(matches!(get(Err(transport_error())), TestPropertyError::Reqwest(_)));
}

#[test]
fn the_errors_of_a_property_have_texts() {
    let text = |error: TestPropertyError<'static, bool>| error.text("true", "false");
    assert_eq!(
        text(TestPropertyError::IncorrectPutStatus(404)),
        "Expected NO_CONTENT status code from PUT request, got 404 Not Found"
    );
    assert_eq!(
        text(TestPropertyError::IncorrectGetStatus(299)),
        "Expected OK status code from GET request, got 299 <unknown status code>"
    );
    assert_eq!(
        text(TestPropertyError::IncorrectValue { expected: &true, found: false }),
        "Value not set correctly, got false instead of true"
    );
    assert_eq!(
        text(TestPropertyError::from(transport_error())),
        format!("Reqwest error: {}", transport_error())
    );
    assert_eq!(
        text(TestPropertyError::from(IntoFutureError::NotEmpty("{}".to_string()))),
        "Expected empty response from PUT request, obtained: {}"
    );
    assert!(matches!(
        TestPropertyError::<bool>::from(IntoFutureError::Reqwest(transport_error())),
        TestPropertyError::Reqwest(_)
    ));
}

fn problem() -> Problem {
    let mut additional_fields = NameMap::new();
    additional_fields.insert(CowStr::from("a"), JsonValue::Bool(true));
    additional_fields.insert(CowStr::from("b"), JsonValue::Null);
    Problem {
        type_url: Some("about:blank".to_string()),
        status: Some(500),
        title: Some("Broken".to_string()),
        detail: None,
        instance: None,
        additional_fields,
    }
}

#[test]
fn problems_agree_field_by_field() {
    let same = |a: Option<Problem>, b: Option<Problem>| eq_opt_http_api_problem(&a, &b);
    assert!(same(None, None));
    assert!(!same(Some(problem()), None));
    assert!(!same(None, Some(problem())));
    assert!(same(Some(problem()), Some(problem())));
    let mut reversed = problem();
    reversed.additional_fields.entries.reverse();
    assert!(same(Some(problem()), Some(reversed)));
    let differs = |change: &dyn Fn(&mut Problem)| {
        let mut other = problem();
        change(&mut other);
        let mut again = problem();
        change(&mut again);
        !same(Some(problem()), Some(other)) && !same(Some(again), Some(problem()))
    };
    assert!(differs(&|problem| problem.type_url = None));
    assert!(differs(&|problem| problem.status = Some(501)));
    assert!(differs(&|problem| problem.title = Some("broken".to_string())));
    assert!(differs(&|problem| problem.detail = Some(String::new())));
    assert!(differs(&|problem| problem.instance = Some("/1".to_string())));
    assert!(differs(&|problem| {
        problem.additional_fields.insert(CowStr::from("a"), JsonValue::Bool(false));
    }));
    assert!(differs(&|problem| {
        problem.additional_fields.entries.pop();
    }));
}

#[test]
fn a_poller_calls_its_function_again_and_again() {
    let mut inner: Inner<&str, u8> = Inner::Fun("f");
    assert_eq!(inner.need(), PollerNeed::Tick);
    assert_eq!(inner.take_call(), None);
    assert_eq!(inner.take_fun(), Some("f"));
    assert!(matches!(inner, Inner::Invalid));
    assert_eq!(inner.settle(CallPoll::<i32, &str, u8>::Pending(1)), None);
    assert_eq!(inner.need(), PollerNeed::Call);
    assert_eq!(inner.take_fun(), None);
    assert_eq!(inner.take_call(), Some(1));
    assert_eq!(inner.settle(CallPoll::Ready(5, "f")), Some(5));
    assert_eq!(inner.need(), PollerNeed::Tick);
    assert_eq!(inner.take_fun(), Some("f"));
}

#[test]
fn a_poller_gives_one_item_for_each_call_of_its_function() {
    let mut inner: Inner<&str, u8> = Inner::Fun("f");
    let (mut calls, mut items) = (Vec::new(), Vec::new());
    let polls = [
        (false, None),
        (true, Some(CallPoll::Pending(1))),
        (true, Some(CallPoll::Pending(2))),
        (false, Some(CallPoll::Ready('a', "g"))),
        (false, None),
        (true, Some(CallPoll::Ready('b', "h"))),
        (true, Some(CallPoll::Pending(3))),
    ];
    for (i, (ticked, call)) in polls.into_iter().enumerate() {
        match inner.turn(ticked) {
            PollerTurn::Wait => {
                assert!(call.is_none());
                continue;
            }
            PollerTurn::Start(fun) => calls.push((i, fun)),
            PollerTurn::Resume(pending) => assert_eq!(pending as usize, i - 1),
        }
        assert!(matches!(inner, Inner::Invalid));
        if let Some(item) = inner.settle(call.unwrap()) {
            items.push((i, item));
        }
    }
    assert_eq!(calls, vec![(1, "f"), (5, "g"), (6, "h")]);
    assert_eq!(items, vec![(3, 'a'), (5, 'b')]);
    assert!(matches!(inner, Inner::Future(3)));
}
