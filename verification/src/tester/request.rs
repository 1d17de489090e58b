//! Requests without their transport: where they go, and what an answer without a
//! body may be.

use vstd::prelude::*;
use vstd::string::*;

use crate::text::{decimal_text, join, trim_leading};
use crate::trusted::{lossy_text, transport_text};

verus! {

/// The method of a request.
#[derive(Clone, Copy, Debug, PartialEq, Eq, Structural)]
pub enum Method {
    /// Something is read.
    Get,
    /// Something is written.
    Put,
    /// Something is started.
    Post,
}

/// Where a thing describes itself.
pub fn description_endpoint() -> (r: &'static str)
    ensures
        r@ == ".well-known/wot"@,
{
    ".well-known/wot"
}

/// The authority part of a URL: a host and, where there is one, a port.
pub open spec fn authority(host: Seq<char>, port: Option<u16>) -> Seq<char> {
    match port {
        Some(port) => host + ":"@ + crate::text::decimal(port as nat),
        None => host,
    }
}

/// The URL of an endpoint.
pub open spec fn url(host: Seq<char>, port: Option<u16>, endpoint: Seq<char>) -> Seq<char> {
    "http://"@ + authority(host, port) + "/"@ + crate::text::without_leading(endpoint, '/')
}

/// The URL of an endpoint, which may begin with slashes or not.
pub fn request_url(host: &str, port: Option<u16>, endpoint: &str) -> (r: String)
    ensures
        r@ == url(host@, port, endpoint@),
{
    let mut authority: String = host.to_owned();
    if let Some(port) = port {
        authority.append(":");
        authority.append(decimal_text(port as u64).as_str());
    }
    let mut url: String = join("http://", authority.as_str());
    url.append("/");
    url.append(trim_leading(endpoint, '/'));
    url
}

/// Leading slashes make no difference to where a request goes.
pub proof fn url_ignores_leading_slashes(host: Seq<char>, port: Option<u16>, endpoint: Seq<char>)
    ensures
        url(host, port, "/"@ + endpoint) == url(host, port, endpoint),
{
    reveal_strlit("/");
    let longer = "/"@ + endpoint;
    assert(longer[0] == '/');
    assert(longer.drop_first() =~= endpoint);
}

/// Why a request whose answer should have no body failed.
#[derive(Debug)]
pub enum IntoFutureError {
    /// The request could not be sent, or its answer not be read.
    Reqwest(reqwest::Error),
    /// The answer has a body.
    NotEmpty(String),
}

impl From<reqwest::Error> for IntoFutureError {
    fn from(error: reqwest::Error) -> (r: Self) {
        IntoFutureError::Reqwest(error)
    }
}

impl vstd::std_specs::convert::FromSpecImpl<reqwest::Error> for IntoFutureError {
    open spec fn obeys_from_spec() -> bool {
        true
    }

    open spec fn from_spec(error: reqwest::Error) -> Self {
        IntoFutureError::Reqwest(error)
    }
}

/// A text shows a transport error, and is empty where there is none.
pub open spec fn shows_error(error: Option<reqwest::Error>, shown: Seq<char>) -> bool {
    match error {
        Some(error) => crate::trusted::shows_transport(error, shown),
        None => shown == ""@,
    }
}

/// The text of a transport error, and an empty one where there is none.
pub(crate) fn shown_error(error: Option<&reqwest::Error>) -> (r: String)
    ensures
        match error {
            Some(error) => shows_error(Some(*error), r@),
            None => shows_error(None, r@),
        },
{
    match error {
        Some(error) => transport_text(error),
        None => "".to_owned(),
    }
}

impl IntoFutureError {
    /// The transport error whose text is part of that of this error, if there is one.
    pub open spec fn transport(self) -> Option<reqwest::Error> {
        match self {
            IntoFutureError::Reqwest(error) => Some(error),
            _ => None,
        }
    }

    /// The transport error whose text is part of that of this error, if there is one.
    pub fn transport_error(&self) -> (r: Option<&reqwest::Error>)
        ensures
            match r {
                Some(error) => self.transport() == Some(*error),
                None => self.transport() is None,
            },
    {
        match self {
            IntoFutureError::Reqwest(error) => Some(error),
            _ => None,
        }
    }

    /// The text of the error, given that of a transport error.
    pub open spec fn described(self, reqwest: Seq<char>) -> Seq<char> {
        match self {
            IntoFutureError::Reqwest(_) => "Reqwest error: "@ + reqwest,
            IntoFutureError::NotEmpty(body) => "Expected empty response, obtained: "@ + body@,
        }
    }

    /// The text of the error, given that of a transport error.
    pub fn describe(&self, reqwest: &str) -> (r: String)
        ensures
            r@ == self.described(reqwest@),
    {
        match self {
            IntoFutureError::Reqwest(_) => join("Reqwest error: ", reqwest),
            IntoFutureError::NotEmpty(body) => join(
                "Expected empty response, obtained: ",
                body.as_str(),
            ),
        }
    }

    /// The text of the error.
    pub fn text(&self) -> (r: String)
        ensures
            exists|reqwest: Seq<char>|
                shows_error(self.transport(), reqwest) && r@ == #[trigger] self.described(reqwest),
    {
        self.describe(shown_error(self.transport_error()).as_str())
    }
}

/// An answer that should have no body: its status, or an error with the body that
/// came.
pub fn empty_answer(status: u16, body: &[u8]) -> (r: Result<u16, IntoFutureError>)
    ensures
        body@.len() == 0 ==> r == Ok::<u16, IntoFutureError>(status),
        body@.len() > 0 ==> (r matches Err(IntoFutureError::NotEmpty(text)) && text@
            == crate::trusted::utf8_lossy(body@) && (vstd::utf8::valid_utf8(body@) ==> text@
            == vstd::utf8::decode_utf8(body@))),
{
    if body.len() > 0 {
        Err(IntoFutureError::NotEmpty(lossy_text(body)))
    } else {
        Ok(status)
    }
}

/// The URL of an endpoint that does not begin with a slash is the host, the port where there
/// is one and the endpoint, with the signs between them.
pub proof fn url_is_made_of_its_parts(host: Seq<char>, port: u16, endpoint: Seq<char>)
    requires
        endpoint.len() > 0 ==> endpoint[0] != '/',
    ensures
        url(host, None, endpoint) == seq!['h', 't', 't', 'p', ':', '/', '/'] + host + seq!['/']
            + endpoint,
        url(host, Some(port), endpoint) == seq!['h', 't', 't', 'p', ':', '/', '/'] + host + seq![
            ':',
        ] + crate::text::decimal(port as nat) + seq!['/'] + endpoint,
{
    reveal_strlit("http://");
    reveal_strlit(":");
    reveal_strlit("/");
    assert("http://"@ =~= seq!['h', 't', 't', 'p', ':', '/', '/']);
    assert(":"@ =~= seq![':']);
    assert("/"@ =~= seq!['/']);
    assert(url(host, Some(port), endpoint) =~= seq!['h', 't', 't', 'p', ':', '/', '/'] + host
        + seq![':'] + crate::text::decimal(port as nat) + seq!['/'] + endpoint);
}

/// A transport error that an error holds is the one that its text is made with.
pub proof fn request_errors_hold_what_they_show(error: IntoFutureError, held: reqwest::Error)
    ensures
        error.transport() == Some(held) <==> error == IntoFutureError::Reqwest(held),
        shows_error(None, Seq::empty()),
        forall|shown: Seq<char>|
            shows_error(Some(held), shown) <==> #[trigger] crate::trusted::shows_transport(
                held,
                shown,
            ),
        forall|shown: Seq<char>| #[trigger] shows_error(None, shown) ==> shown.len() == 0,
{
    reveal_strlit("");
    assert(""@ =~= Seq::<char>::empty());
}

} // verus!
