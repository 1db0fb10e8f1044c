//! The client: what it holds, and the request that each operation sends.

use crate::api::{Coords, CoordsView, GeoCoords, Payload};
use crate::endpoint::{join_url, joined_url};
use crate::error::Error;
use crate::json::JsonView;
use vstd::prelude::*;
use vstd::string::StringExecFns;

verus! {

/// A request that is ready to be sent: a GET of `url` with the parameters of
/// `query` appended to it in order.
pub struct Request {
    pub url: String,
    pub query: Vec<(String, String)>,
}

pub struct RequestView {
    pub url: Seq<char>,
    pub query: Seq<(Seq<char>, Seq<char>)>,
}

impl RequestView {
    /// The request with one more parameter at the end.
    pub open spec fn with(self, name: Seq<char>, value: Seq<char>) -> RequestView {
        RequestView { url: self.url, query: self.query.push((name, value)) }
    }
}

impl View for Request {
    type V = RequestView;

    open spec fn view(&self) -> RequestView {
        RequestView {
            url: self.url@,
            query: self.query@.map_values(|pair: (String, String)| (pair.0@, pair.1@)),
        }
    }
}

impl Request {
    /// A request for `url` without parameters.
    pub fn get(url: String) -> (request: Request)
        ensures
            request@ == (RequestView { url: url@, query: Seq::empty() }),
    {
        let request = Request { url, query: Vec::new() };
        proof {
            assert(request@.query =~= Seq::empty());
        }
        request
    }

    /// Adds one parameter behind those that the request has.
    pub fn query(self, name: &str, value: &str) -> (request: Request)
        ensures
            request@ == self@.with(name@, value@),
    {
        let ghost before = self@;
        let mut request = self;
        request.query.push((name.to_owned(), value.to_owned()));
        proof {
            assert(request@.query =~= before.query.push((name@, value@)));
        }
        request
    }
}

/// A client of the service: the key that authenticates it, and the endpoint
/// that its requests go to. Both are set when the client is made.
pub struct Client {
    key: String,
    pub base_url: String,
}

impl Client {
    /// The key that the client was made with.
    pub closed spec fn key(&self) -> Seq<char> {
        self.key@
    }

    /// The endpoint that the client's requests go to: the text of `base_url`.
    pub closed spec fn endpoint(&self) -> Seq<char> {
        self.base_url@
    }

    /// What diagnostics show of the client. The key is no part of it.
    pub open spec fn description(&self) -> Seq<char> {
        "Client { base_url: "@ + self.endpoint() + " }"@
    }

    /// What every request of the client for the resource `path` starts as:
    /// `path` resolved against the endpoint, then the format and the key.
    /// There is none where `path` does not resolve against the endpoint.
    pub open spec fn request(&self, path: Seq<char>) -> Option<RequestView> {
        match joined_url(self.endpoint(), path) {
            Some(url) => Some(
                RequestView { url, query: seq![("format"@, "json"@), ("key"@, self.key())] },
            ),
            None => None,
        }
    }

    /// Whether `made` is the request for `path` with the parameters `extra`
    /// behind the format and the key, or the `Url` error that stands for a
    /// request that cannot be made.
    pub open spec fn makes(
        &self,
        path: Seq<char>,
        extra: Seq<(Seq<char>, Seq<char>)>,
        made: Result<Request, Error>,
    ) -> bool {
        match self.request(path) {
            Some(request) => made is Ok && made->Ok_0@ == (RequestView {
                url: request.url,
                query: request.query + extra,
            }),
            None => made is Err && made->Err_0 is Url,
        }
    }

    /// A client of the public endpoint of the service.
    pub fn new(key: &str) -> (client: Client)
        ensures
            client.key() == key@,
            client.endpoint() == "https://api.what3words.com/v3/"@,
    {
        Client { key: key.to_owned(), base_url: "https://api.what3words.com/v3/".to_owned() }
    }

    /// The client as it may be shown in diagnostics: the endpoint, never the
    /// key.
    pub fn describe(&self) -> (text: String)
        ensures
            text@ == self.description(),
    {
        let mut text = "Client { base_url: ".to_owned();
        text.append(self.base_url.as_str());
        text.append(" }");
        text
    }

    /// Starts the request for the resource `path`.
    fn prepare_request(&self, path: &str) -> (made: Result<Request, Error>)
        ensures
            self.makes(path@, Seq::empty(), made),
    {
        match join_url(self.base_url.as_str(), path) {
            Ok(url) => {
                let request = Request::get(url).query("format", "json").query(
                    "key",
                    self.key.as_str(),
                );
                proof {
                    assert(request@.query =~= seq![("format"@, "json"@), ("key"@, self.key())]
                        + Seq::empty());
                }
                Ok(request)
            },
            Err(error) => Err(Error::Url(error)),
        }
    }

    /// The request that asks for the position of a three-word address. The
    /// words are sent as they are given.
    pub fn convert_to_coordinates(&self, words: &str) -> (made: Result<Request, Error>)
        ensures
            self.makes("convert-to-coordinates"@, seq![("words"@, words@)], made),
    {
        match self.prepare_request("convert-to-coordinates") {
            Ok(request) => {
                let ghost before = request@;
                let request = request.query("words", words);
                proof {
                    assert(request@.query =~= before.query + seq![("words"@, words@)]);
                }
                Ok(request)
            },
            Err(error) => Err(error),
        }
    }

    /// The request that asks for the three-word address of a position. The
    /// position is sent as `lat,lng`.
    pub fn convert_to_3wa(&self, coordinates: &GeoCoords) -> (made: Result<Request, Error>)
        ensures
            self.makes("convert-to-3wa"@, seq![("coordinates"@, coordinates@.text())], made),
    {
        match self.prepare_request("convert-to-3wa") {
            Ok(request) => {
                let ghost before = request@;
                let position = coordinates.to_string();
                let request = request.query("coordinates", position.as_str());
                proof {
                    assert(request@.query =~= before.query + seq![
                        ("coordinates"@, coordinates@.text()),
                    ]);
                }
                Ok(request)
            },
            Err(error) => Err(error),
        }
    }

    /// The request that asks for the languages of the service.
    pub fn available_languages(&self) -> (made: Result<Request, Error>)
        ensures
            self.makes("available-languages"@, Seq::empty(), made),
    {
        self.prepare_request("available-languages")
    }
}

/// A request that cannot be made ends in a `Url` error, and no request exists
/// that could be sent.
pub proof fn unmade_request_is_url_error(
    client: Client,
    path: Seq<char>,
    extra: Seq<(Seq<char>, Seq<char>)>,
    made: Result<Request, Error>,
)
    requires
        joined_url(client.endpoint(), path) is None,
        client.makes(path, extra, made),
    ensures
        made matches Err(error) && error is Url,
{
}

/// The words of an address record go back to the service as they came in the
/// record: reading a record and asking for the position of its words sends
/// the very text that the service wrote.
pub proof fn words_go_back_as_they_came(
    client: Client,
    doc: JsonView,
    record: CoordsView,
    made: Result<Request, Error>,
)
    requires
        Coords::shape(doc) == Some(record),
        client.makes("convert-to-coordinates"@, seq![("words"@, record.words)], made),
        made is Ok,
    ensures
        doc.text_member("words"@) == Some(record.words),
        made->Ok_0@.query.len() == 3,
        made->Ok_0@.query[2] == ("words"@, record.words),
{
}

} // verus!
