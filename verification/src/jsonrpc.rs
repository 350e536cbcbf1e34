//! The JSON-RPC 2.0 envelope: requests, responses and errors, and how each is
//! written as a JSON value and read from one.

use crate::json::find;
use crate::json::i64_of_text;
use crate::json::lemma_i64_text;
use crate::json::lemma_lookup_push;
use crate::json::lemma_object_view;
use crate::json::lookup;
use crate::json::members_view;
use crate::json::text_of_i64;
use crate::json::Json;
use crate::json::JsonView;
use crate::json::Number;
use crate::json::clone_items;
use crate::json::clone_members;
use crate::json::items_view;
use crate::json::lemma_array_view;
use crate::json::json_parse;
use crate::json::json_text;
use crate::json::parse;
use crate::json::render;
use vstd::prelude::*;

verus! {

/// The protocol version.
#[derive(Clone, Copy, Debug, PartialEq, Eq, Structural)]
pub enum JsonRpc {
    V2,
}

/// What a client chose to tell its requests apart.
#[derive(Debug, PartialEq, Eq)]
pub enum Id {
    String(String),
    Number(Number),
    Null,
}

/// The parameters of a call, by position or by name.
#[derive(Debug, PartialEq, Eq)]
pub enum Params {
    Array(Vec<Json>),
    Object(Vec<(String, Json)>),
}

/// A call.
#[derive(Debug, PartialEq, Eq)]
pub struct Request {
    pub jsonrpc: JsonRpc,
    pub method: String,
    pub params: Option<Params>,
    pub id: Id,
}

/// Why a call failed.
#[derive(Debug, PartialEq, Eq)]
pub struct Error {
    pub code: i64,
    pub message: String,
    pub data: Option<Json>,
}

/// The answer to a call: a result or an error, never both.
#[derive(Debug, PartialEq, Eq)]
pub struct Response {
    pub jsonrpc: JsonRpc,
    pub result: Result<Json, Error>,
    pub id: Id,
}

/// The value of an [`Id`].
pub enum IdView {
    String(Seq<char>),
    Number(Seq<char>),
    Null,
}

/// The value of a [`Params`].
pub enum ParamsView {
    Array(Seq<JsonView>),
    Object(Seq<(Seq<char>, JsonView)>),
}

/// The value of a [`Request`].
pub struct RequestView {
    pub method: Seq<char>,
    pub params: Option<ParamsView>,
    pub id: IdView,
}

/// The value of an [`Error`].
pub struct ErrorView {
    pub code: i64,
    pub message: Seq<char>,
    pub data: Option<JsonView>,
}

/// The value of a [`Response`].
pub struct ResponseView {
    pub result: Result<JsonView, ErrorView>,
    pub id: IdView,
}

impl View for Id {
    type V = IdView;

    open spec fn view(&self) -> IdView {
        match self {
            Id::String(s) => IdView::String(s@),
            Id::Number(n) => IdView::Number(n@),
            Id::Null => IdView::Null,
        }
    }
}

impl View for Params {
    type V = ParamsView;

    open spec fn view(&self) -> ParamsView {
        match self {
            Params::Array(items) => ParamsView::Array(items_view(items@)),
            Params::Object(members) => ParamsView::Object(members_view(members@)),
        }
    }
}

/// The value of parameters that may be left out.
pub open spec fn params_view(params: Option<Params>) -> Option<ParamsView> {
    match params {
        Some(p) => Some(p@),
        None => None,
    }
}

/// The value of data that may be left out.
pub open spec fn data_view(data: Option<Json>) -> Option<JsonView> {
    match data {
        Some(d) => Some(d@),
        None => None,
    }
}

impl View for Request {
    type V = RequestView;

    open spec fn view(&self) -> RequestView {
        RequestView { method: self.method@, params: params_view(self.params), id: self.id@ }
    }
}

impl View for Error {
    type V = ErrorView;

    open spec fn view(&self) -> ErrorView {
        ErrorView { code: self.code, message: self.message@, data: data_view(self.data) }
    }
}

/// The value of a result or an error.
pub open spec fn outcome_view(outcome: Result<Json, Error>) -> Result<JsonView, ErrorView> {
    match outcome {
        Ok(value) => Ok(value@),
        Err(error) => Err(error@),
    }
}

impl View for Response {
    type V = ResponseView;

    open spec fn view(&self) -> ResponseView {
        ResponseView { result: outcome_view(self.result), id: self.id@ }
    }
}

/// The code of an error for a body that is not JSON.
pub const PARSE_ERROR: i64 = -32700;

/// The code of an error for JSON that is no request.
pub const INVALID_REQUEST: i64 = -32600;

/// The code of an error for parameters that a method cannot take.
pub const INVALID_PARAMS: i64 = -32602;

/// The code of an error for any other failure.
pub const INTERNAL_ERROR: i64 = -32603;

/// The JSON value of the version.
pub open spec fn version_json() -> JsonView {
    JsonView::String("2.0"@)
}

/// The JSON value of an id.
pub open spec fn id_json(id: IdView) -> JsonView {
    match id {
        IdView::String(s) => JsonView::String(s),
        IdView::Number(n) => JsonView::Number(n),
        IdView::Null => JsonView::Null,
    }
}

/// The id that a JSON value stands for: a string, a number or `null`.
pub open spec fn json_id(json: JsonView) -> Option<IdView> {
    match json {
        JsonView::String(s) => Some(IdView::String(s)),
        JsonView::Number(n) => Some(IdView::Number(n)),
        JsonView::Null => Some(IdView::Null),
        _ => None,
    }
}

/// The JSON value of parameters: an array, an object, or `null` where there
/// are none.
pub open spec fn params_json(params: Option<ParamsView>) -> JsonView {
    match params {
        Some(ParamsView::Array(items)) => JsonView::Array(items),
        Some(ParamsView::Object(members)) => JsonView::Object(members),
        None => JsonView::Null,
    }
}

/// The parameters that a JSON value stands for.
pub open spec fn json_params(json: JsonView) -> Option<Option<ParamsView>> {
    match json {
        JsonView::Array(items) => Some(Some(ParamsView::Array(items))),
        JsonView::Object(members) => Some(Some(ParamsView::Object(members))),
        JsonView::Null => Some(None),
        _ => None,
    }
}

/// The members of the JSON object of an error: `code`, `message`, and `data`
/// where there is any.
pub open spec fn error_members(error: ErrorView) -> Seq<(Seq<char>, JsonView)> {
    let head = seq![
        ("code"@, JsonView::Number(text_of_i64(error.code))),
        ("message"@, JsonView::String(error.message)),
    ];
    match error.data {
        Some(data) => head.push(("data"@, data)),
        None => head,
    }
}

/// The JSON value of an error.
pub open spec fn error_json(error: ErrorView) -> JsonView {
    JsonView::Object(error_members(error))
}

/// The error that a JSON value stands for: an object with a whole `code` of
/// 64 bits and a `message` string; `data` is what stands under that key.
pub open spec fn json_error(json: JsonView) -> Option<ErrorView> {
    match json {
        JsonView::Object(members) => match (lookup(members, "code"@), lookup(members, "message"@)) {
            (Some(JsonView::Number(code)), Some(JsonView::String(message))) => match i64_of_text(
                code,
            ) {
                Some(code) => Some(ErrorView { code, message, data: lookup(members, "data"@) }),
                None => None,
            },
            _ => None,
        },
        _ => None,
    }
}

/// The members of the JSON object of a request.
pub open spec fn request_members(request: RequestView) -> Seq<(Seq<char>, JsonView)> {
    seq![
        ("jsonrpc"@, version_json()),
        ("method"@, JsonView::String(request.method)),
        ("params"@, params_json(request.params)),
        ("id"@, id_json(request.id)),
    ]
}

/// The JSON value of a request.
pub open spec fn request_json(request: RequestView) -> JsonView {
    JsonView::Object(request_members(request))
}

/// The request that a JSON value stands for: an object with the version
/// `2.0`, a `method` string and an `id`; `params` may be left out.
pub open spec fn json_request(json: JsonView) -> Option<RequestView> {
    match json {
        JsonView::Object(members) => {
            let params = match lookup(members, "params"@) {
                Some(p) => json_params(p),
                None => Some(None),
            };
            let id = match lookup(members, "id"@) {
                Some(i) => json_id(i),
                None => None,
            };
            match (lookup(members, "jsonrpc"@), lookup(members, "method"@), params, id) {
                (Some(version), Some(JsonView::String(method)), Some(params), Some(id)) => if version
                    == version_json() {
                    Some(RequestView { method, params, id })
                } else {
                    None
                },
                _ => None,
            }
        },
        _ => None,
    }
}

/// The members of the JSON object of a response: the one of `result` and
/// `error` that it has, never the other.
pub open spec fn response_members(response: ResponseView) -> Seq<(Seq<char>, JsonView)> {
    seq![
        ("jsonrpc"@, version_json()),
        match response.result {
            Ok(value) => ("result"@, value),
            Err(error) => ("error"@, error_json(error)),
        },
        ("id"@, id_json(response.id)),
    ]
}

/// The JSON value of a response.
pub open spec fn response_json(response: ResponseView) -> JsonView {
    JsonView::Object(response_members(response))
}

/// The response that a JSON value stands for: an object with the version
/// `2.0`, an `id`, and exactly one of the keys `result` and `error`.
pub open spec fn json_response(json: JsonView) -> Option<ResponseView> {
    match json {
        JsonView::Object(members) => {
            let outcome: Option<Result<JsonView, ErrorView>> = match (
                lookup(members, "result"@),
                lookup(members, "error"@),
            ) {
                (Some(value), None) => Some(Ok(value)),
                (None, Some(error)) => match json_error(error) {
                    Some(error) => Some(Err(error)),
                    None => None,
                },
                _ => None,
            };
            let id = match lookup(members, "id"@) {
                Some(i) => json_id(i),
                None => None,
            };
            match (lookup(members, "jsonrpc"@), outcome, id) {
                (Some(version), Some(result), Some(id)) => if version == version_json() {
                    Some(ResponseView { result, id })
                } else {
                    None
                },
                _ => None,
            }
        },
        _ => None,
    }
}

/// The keys of the envelope are told apart by their text.
pub proof fn lemma_keys()
    ensures
        "jsonrpc"@ != "method"@,
        "jsonrpc"@ != "params"@,
        "jsonrpc"@ != "id"@,
        "jsonrpc"@ != "result"@,
        "jsonrpc"@ != "error"@,
        "method"@ != "params"@,
        "method"@ != "id"@,
        "params"@ != "id"@,
        "result"@ != "error"@,
        "result"@ != "id"@,
        "error"@ != "id"@,
        "code"@ != "message"@,
        "code"@ != "data"@,
        "message"@ != "data"@,
{
    reveal_strlit("jsonrpc");
    reveal_strlit("method");
    reveal_strlit("params");
    reveal_strlit("id");
    reveal_strlit("result");
    reveal_strlit("error");
    reveal_strlit("code");
    reveal_strlit("message");
    reveal_strlit("data");
    assert("jsonrpc"@.len() == 7);
    assert("method"@.len() == 6 && "method"@[0] == 'm');
    assert("params"@.len() == 6 && "params"@[0] == 'p');
    assert("result"@.len() == 6 && "result"@[0] == 'r');
    assert("error"@.len() == 5);
    assert("id"@.len() == 2);
    assert("code"@.len() == 4 && "code"@[0] == 'c');
    assert("message"@.len() == 7);
    assert("data"@.len() == 4 && "data"@[0] == 'd');
}

/// An id is read back from its JSON value.
pub proof fn id_roundtrip(id: IdView)
    ensures
        json_id(id_json(id)) == Some(id),
{
}

/// Parameters are read back from their JSON value.
pub proof fn params_roundtrip(params: Option<ParamsView>)
    ensures
        json_params(params_json(params)) == Some(params),
{
}

/// An error is read back from its JSON value.
pub proof fn error_roundtrip(error: ErrorView)
    ensures
        json_error(error_json(error)) == Some(error),
{
    lemma_keys();
    lemma_i64_text(error.code);
    let code = ("code"@, JsonView::Number(text_of_i64(error.code)));
    let message = ("message"@, JsonView::String(error.message));
    let none = Seq::<(Seq<char>, JsonView)>::empty();
    let one = none.push(code);
    let two = one.push(message);
    assert(two =~= seq![code, message]);
    assert(lookup(none, "code"@) is None);
    assert(lookup(none, "message"@) is None);
    assert(lookup(none, "data"@) is None);
    lemma_lookup_push(none, code.0, code.1, "code"@);
    lemma_lookup_push(none, code.0, code.1, "message"@);
    lemma_lookup_push(none, code.0, code.1, "data"@);
    lemma_lookup_push(one, message.0, message.1, "code"@);
    lemma_lookup_push(one, message.0, message.1, "message"@);
    lemma_lookup_push(one, message.0, message.1, "data"@);
    match error.data {
        Some(data) => {
            lemma_lookup_push(two, "data"@, data, "code"@);
            lemma_lookup_push(two, "data"@, data, "message"@);
            lemma_lookup_push(two, "data"@, data, "data"@);
        },
        None => {},
    }
}

/// A request is read back from its JSON value.
pub proof fn request_roundtrip(request: RequestView)
    ensures
        json_request(request_json(request)) == Some(request),
{
    lemma_keys();
    let a = ("jsonrpc"@, version_json());
    let b = ("method"@, JsonView::String(request.method));
    let c = ("params"@, params_json(request.params));
    let d = ("id"@, id_json(request.id));
    let none = Seq::<(Seq<char>, JsonView)>::empty();
    let one = none.push(a);
    let two = one.push(b);
    let three = two.push(c);
    let four = three.push(d);
    assert(four =~= request_members(request));
    assert forall|key: Seq<char>| #[trigger] lookup(four, key) == (if key == d.0 {
        Some(d.1)
    } else if key == c.0 {
        Some(c.1)
    } else if key == b.0 {
        Some(b.1)
    } else if key == a.0 {
        Some(a.1)
    } else {
        None
    }) by {
        assert(lookup(none, key) is None);
        lemma_lookup_push(none, a.0, a.1, key);
        lemma_lookup_push(one, b.0, b.1, key);
        lemma_lookup_push(two, c.0, c.1, key);
        lemma_lookup_push(three, d.0, d.1, key);
    }
    params_roundtrip(request.params);
    id_roundtrip(request.id);
}

/// A response is read back from its JSON value: the result or the error
/// that went in comes out, and never both.
pub proof fn response_roundtrip(response: ResponseView)
    ensures
        json_response(response_json(response)) == Some(response),
{
    lemma_keys();
    let a = ("jsonrpc"@, version_json());
    let b = match response.result {
        Ok(value) => ("result"@, value),
        Err(error) => ("error"@, error_json(error)),
    };
    let c = ("id"@, id_json(response.id));
    let none = Seq::<(Seq<char>, JsonView)>::empty();
    let one = none.push(a);
    let two = one.push(b);
    let three = two.push(c);
    assert(three =~= response_members(response));
    assert forall|key: Seq<char>| #[trigger] lookup(three, key) == (if key == c.0 {
        Some(c.1)
    } else if key == b.0 {
        Some(b.1)
    } else if key == a.0 {
        Some(a.1)
    } else {
        None
    }) by {
        assert(lookup(none, key) is None);
        lemma_lookup_push(none, a.0, a.1, key);
        lemma_lookup_push(one, b.0, b.1, key);
        lemma_lookup_push(two, c.0, c.1, key);
    }
    id_roundtrip(response.id);
    match response.result {
        Ok(value) => {
            assert(lookup(three, "result"@) == Some(value));
            assert(lookup(three, "error"@) is None);
        },
        Err(error) => {
            error_roundtrip(error);
            assert(lookup(three, "result"@) is None);
            assert(lookup(three, "error"@) == Some(error_json(error)));
        },
    }
}

/// A member of a JSON object.
pub fn member(key: &str, value: Json) -> (r: (String, Json))
    ensures
        r.0@ == key@,
        r.1@ == value@,
{
    (key.to_owned(), value)
}

impl JsonRpc {
    /// The JSON value of the version.
    pub fn to_json(&self) -> (json: Json)
        ensures
            json@ == version_json(),
    {
        Json::text("2.0")
    }

    /// The version that a JSON value stands for.
    pub fn from_json(json: &Json) -> (r: Option<JsonRpc>)
        ensures
            r is Some <==> json@ == version_json(),
    {
        match json.as_text() {
            Some(text) => {
                if *text == "2.0".to_owned() {
                    Some(JsonRpc::V2)
                } else {
                    None
                }
            },
            None => None,
        }
    }
}

impl Clone for Id {
    fn clone(&self) -> (r: Self)
        ensures
            r@ == self@,
    {
        match self {
            Id::String(s) => Id::String(s.clone()),
            Id::Number(n) => Id::Number(n.clone()),
            Id::Null => Id::Null,
        }
    }
}

impl Id {
    /// The JSON value of the id.
    pub fn to_json(&self) -> (json: Json)
        ensures
            json@ == id_json(self@),
    {
        match self {
            Id::String(s) => Json::String(s.clone()),
            Id::Number(n) => Json::Number(n.clone()),
            Id::Null => Json::Null,
        }
    }

    /// The id that a JSON value stands for.
    pub fn from_json(json: &Json) -> (r: Option<Id>)
        ensures
            match r {
                Some(id) => json_id(json@) == Some(id@),
                None => json_id(json@) is None,
            },
    {
        match json {
            Json::String(s) => Some(Id::String(s.clone())),
            Json::Number(n) => Some(Id::Number(n.clone())),
            Json::Null => Some(Id::Null),
            Json::Bool(_) => None,
            Json::Array(_) => None,
            Json::Object(_) => None,
        }
    }

    /// Whether two ids are the same.
    pub fn same(&self, other: &Id) -> (r: bool)
        ensures
            r == (self@ == other@),
    {
        match (self, other) {
            (Id::String(a), Id::String(b)) => *a == *b,
            (Id::Number(a), Id::Number(b)) => a.0 == b.0,
            (Id::Null, Id::Null) => true,
            _ => false,
        }
    }
}

impl Clone for Params {
    fn clone(&self) -> (r: Self)
        ensures
            r@ == self@,
    {
        match self {
            Params::Array(items) => Params::Array(clone_items(items)),
            Params::Object(members) => Params::Object(clone_members(members)),
        }
    }
}

impl Params {
    /// The JSON value of the parameters.
    pub fn into_json(self) -> (json: Json)
        ensures
            json@ == params_json(Some(self@)),
    {
        match self {
            Params::Array(items) => {
                proof {
                    lemma_array_view(items);
                }
                Json::Array(items)
            },
            Params::Object(members) => {
                proof {
                    lemma_object_view(members);
                }
                Json::Object(members)
            },
        }
    }

    /// The parameters that a JSON value stands for.
    pub fn from_json(json: &Json) -> (r: Option<Option<Params>>)
        ensures
            match r {
                Some(params) => json_params(json@) == Some(params_view(params)),
                None => json_params(json@) is None,
            },
    {
        match json {
            Json::Array(items) => {
                proof {
                    lemma_array_view(*items);
                }
                Some(Some(Params::Array(clone_items(items))))
            },
            Json::Object(members) => {
                proof {
                    lemma_object_view(*members);
                }
                Some(Some(Params::Object(clone_members(members))))
            },
            Json::Null => Some(None),
            Json::Bool(_) => None,
            Json::Number(_) => None,
            Json::String(_) => None,
        }
    }
}

/// The JSON value of parameters that may be left out.
pub fn params_to_json(params: &Option<Params>) -> (json: Json)
    ensures
        json@ == params_json(params_view(*params)),
{
    match params {
        Some(p) => p.clone().into_json(),
        None => Json::Null,
    }
}

/// A copy of parameters that may be left out.
pub fn clone_params(params: &Option<Params>) -> (r: Option<Params>)
    ensures
        params_view(r) == params_view(*params),
{
    match params {
        Some(p) => Some(p.clone()),
        None => None,
    }
}

impl Clone for Error {
    fn clone(&self) -> (r: Self)
        ensures
            r@ == self@,
    {
        let data = match &self.data {
            Some(d) => Some(d.clone()),
            None => None,
        };
        Error { code: self.code, message: self.message.clone(), data }
    }
}

impl Error {
    /// The error for a body that is not JSON.
    pub fn parse_error() -> (e: Self)
        ensures
            e@ == (ErrorView { code: PARSE_ERROR, message: "Parse error"@, data: None }),
    {
        Self { code: PARSE_ERROR, message: "Parse error".to_owned(), data: None }
    }

    /// The error for JSON that is neither a request nor a batch of them.
    pub fn invalid_request() -> (e: Self)
        ensures
            e@ == (ErrorView { code: INVALID_REQUEST, message: "Invalid Request"@, data: None }),
    {
        Self { code: INVALID_REQUEST, message: "Invalid Request".to_owned(), data: None }
    }

    /// The error for parameters that a method cannot take.
    pub fn invalid_params() -> (e: Self)
        ensures
            e@ == (ErrorView { code: INVALID_PARAMS, message: "Invalid params"@, data: None }),
    {
        Self { code: INVALID_PARAMS, message: "Invalid params".to_owned(), data: None }
    }

    /// The error for any other failure.
    pub fn internal_error() -> (e: Self)
        ensures
            e@ == (ErrorView { code: INTERNAL_ERROR, message: "Internal error"@, data: None }),
    {
        Self { code: INTERNAL_ERROR, message: "Internal error".to_owned(), data: None }
    }

    /// The text shown for the error: its message.
    pub fn text(&self) -> (text: String)
        ensures
            text@ == self.message@,
    {
        self.message.clone()
    }

    /// The JSON value of the error.
    pub fn to_json(&self) -> (json: Json)
        ensures
            json@ == error_json(self@),
    {
        let mut members: Vec<(String, Json)> = Vec::new();
        members.push(member("code", Json::Number(Number::from_i64(self.code))));
        members.push(member("message", Json::String(self.message.clone())));
        match &self.data {
            Some(data) => {
                members.push(member("data", data.clone()));
            },
            None => {},
        }
        proof {
            lemma_object_view(members);
            assert(members_view(members@) =~= error_members(self@));
        }
        Json::Object(members)
    }

    /// The error that a JSON value stands for.
    pub fn from_json(json: &Json) -> (r: Option<Error>)
        ensures
            match r {
                Some(error) => json_error(json@) == Some(error@),
                None => json_error(json@) is None,
            },
    {
        let members = match json.as_members() {
            Some(members) => members,
            None => { return None; },
        };
        let code = match find(members, "code") {
            Some(Json::Number(n)) => match n.as_i64() {
                Some(code) => code,
                None => { return None; },
            },
            _ => { return None; },
        };
        let message = match find(members, "message") {
            Some(Json::String(s)) => s.clone(),
            _ => { return None; },
        };
        let data = match find(members, "data") {
            Some(d) => Some(d.clone()),
            None => None,
        };
        Some(Error { code, message, data })
    }
}

impl Clone for Request {
    fn clone(&self) -> (r: Self)
        ensures
            r@ == self@,
    {
        Request {
            jsonrpc: self.jsonrpc,
            method: self.method.clone(),
            params: clone_params(&self.params),
            id: self.id.clone(),
        }
    }
}

impl Request {
    /// The JSON value of the request.
    pub fn to_json(&self) -> (json: Json)
        ensures
            json@ == request_json(self@),
    {
        let mut members: Vec<(String, Json)> = Vec::new();
        members.push(member("jsonrpc", self.jsonrpc.to_json()));
        members.push(member("method", Json::String(self.method.clone())));
        members.push(member("params", params_to_json(&self.params)));
        members.push(member("id", self.id.to_json()));
        proof {
            lemma_object_view(members);
            assert(members_view(members@) =~= request_members(self@));
        }
        Json::Object(members)
    }

    /// The request that a JSON value stands for.
    pub fn from_json(json: &Json) -> (r: Option<Request>)
        ensures
            match r {
                Some(request) => json_request(json@) == Some(request@),
                None => json_request(json@) is None,
            },
    {
        let members = match json.as_members() {
            Some(members) => members,
            None => { return None; },
        };
        let jsonrpc = match find(members, "jsonrpc") {
            Some(version) => match JsonRpc::from_json(version) {
                Some(v) => v,
                None => { return None; },
            },
            None => { return None; },
        };
        let method = match find(members, "method") {
            Some(Json::String(s)) => s.clone(),
            _ => { return None; },
        };
        let params = match find(members, "params") {
            Some(p) => match Params::from_json(p) {
                Some(params) => params,
                None => { return None; },
            },
            None => None,
        };
        let id = match find(members, "id") {
            Some(i) => match Id::from_json(i) {
                Some(id) => id,
                None => { return None; },
            },
            None => { return None; },
        };
        Some(Request { jsonrpc, method, params, id })
    }
}

impl Clone for Response {
    fn clone(&self) -> (r: Self)
        ensures
            r@ == self@,
    {
        let result = match &self.result {
            Ok(value) => Ok(value.clone()),
            Err(error) => Err(error.clone()),
        };
        Response { jsonrpc: self.jsonrpc, result, id: self.id.clone() }
    }
}

impl Response {
    /// The JSON value of the response: `result` or `error`, never both.
    pub fn to_json(&self) -> (json: Json)
        ensures
            json@ == response_json(self@),
    {
        let mut members: Vec<(String, Json)> = Vec::new();
        members.push(member("jsonrpc", self.jsonrpc.to_json()));
        match &self.result {
            Ok(value) => {
                members.push(member("result", value.clone()));
            },
            Err(error) => {
                members.push(member("error", error.to_json()));
            },
        }
        members.push(member("id", self.id.to_json()));
        proof {
            lemma_object_view(members);
            assert(members_view(members@) =~= response_members(self@));
        }
        Json::Object(members)
    }

    /// The response that a JSON value stands for; none where the value has
    /// both of `result` and `error`, or neither.
    pub fn from_json(json: &Json) -> (r: Option<Response>)
        ensures
            match r {
                Some(response) => json_response(json@) == Some(response@),
                None => json_response(json@) is None,
            },
    {
        let members = match json.as_members() {
            Some(members) => members,
            None => { return None; },
        };
        let jsonrpc = match find(members, "jsonrpc") {
            Some(version) => match JsonRpc::from_json(version) {
                Some(v) => v,
                None => { return None; },
            },
            None => { return None; },
        };
        let result = match (find(members, "result"), find(members, "error")) {
            (Some(value), None) => Ok(value.clone()),
            (None, Some(error)) => match Error::from_json(error) {
                Some(error) => Err(error),
                None => { return None; },
            },
            _ => { return None; },
        };
        let id = match find(members, "id") {
            Some(i) => match Id::from_json(i) {
                Some(id) => id,
                None => { return None; },
            },
            None => { return None; },
        };
        Some(Response { jsonrpc, result, id })
    }
}


/// The values of a list of requests.
pub open spec fn requests_view(requests: Seq<Request>) -> Seq<RequestView> {
    Seq::new(requests.len(), |i: int| requests[i]@)
}

/// The values of a list of responses.
pub open spec fn responses_view(responses: Seq<Response>) -> Seq<ResponseView> {
    Seq::new(responses.len(), |i: int| responses[i]@)
}

/// The JSON value of a batch of requests: the array of their values.
pub open spec fn requests_json(requests: Seq<RequestView>) -> JsonView {
    JsonView::Array(Seq::new(requests.len(), |i: int| request_json(requests[i])))
}

/// The JSON value of a batch of responses.
pub open spec fn responses_json(responses: Seq<ResponseView>) -> JsonView {
    JsonView::Array(Seq::new(responses.len(), |i: int| response_json(responses[i])))
}

/// The batch of requests that a JSON value stands for: an array of
/// requests.
pub open spec fn json_requests(json: JsonView) -> Option<Seq<RequestView>> {
    match json {
        JsonView::Array(items) => if forall|i: int|
            0 <= i < items.len() ==> (#[trigger] json_request(items[i])) is Some {
            Some(Seq::new(items.len(), |i: int| json_request(items[i]).unwrap()))
        } else {
            None
        },
        _ => None,
    }
}

/// The batch of responses that a JSON value stands for: an array of
/// responses.
pub open spec fn json_responses(json: JsonView) -> Option<Seq<ResponseView>> {
    match json {
        JsonView::Array(items) => if forall|i: int|
            0 <= i < items.len() ==> (#[trigger] json_response(items[i])) is Some {
            Some(Seq::new(items.len(), |i: int| json_response(items[i]).unwrap()))
        } else {
            None
        },
        _ => None,
    }
}

/// The JSON value of a batch of requests.
pub fn requests_to_json(requests: &Vec<Request>) -> (json: Json)
    ensures
        json@ == requests_json(requests_view(requests@)),
{
    let mut items: Vec<Json> = Vec::new();
    let mut i: usize = 0;
    while i < requests.len()
        invariant
            i <= requests.len(),
            items@.len() == i,
            forall|k: int| 0 <= k < i ==> (#[trigger] items@[k])@ == request_json(requests@[k]@),
        decreases requests.len() - i,
    {
        items.push(requests[i].to_json());
        i += 1;
    }
    proof {
        lemma_array_view(items);
        assert(items_view(items@) =~= requests_json(requests_view(requests@))->Array_0);
    }
    Json::Array(items)
}

/// The JSON value of a batch of responses.
pub fn responses_to_json(responses: &Vec<Response>) -> (json: Json)
    ensures
        json@ == responses_json(responses_view(responses@)),
{
    let mut items: Vec<Json> = Vec::new();
    let mut i: usize = 0;
    while i < responses.len()
        invariant
            i <= responses.len(),
            items@.len() == i,
            forall|k: int| 0 <= k < i ==> (#[trigger] items@[k])@ == response_json(responses@[k]@),
        decreases responses.len() - i,
    {
        items.push(responses[i].to_json());
        i += 1;
    }
    proof {
        lemma_array_view(items);
        assert(items_view(items@) =~= responses_json(responses_view(responses@))->Array_0);
    }
    Json::Array(items)
}

/// Reads a batch of requests.
pub fn requests_from_json(json: &Json) -> (r: Option<Vec<Request>>)
    ensures
        match r {
            Some(requests) => json_requests(json@) == Some(requests_view(requests@)),
            None => json_requests(json@) is None,
        },
{
    let items = match json.as_items() {
        Some(items) => items,
        None => { return None; },
    };
    let ghost views = items_view(items@);
    let mut out: Vec<Request> = Vec::new();
    let mut i: usize = 0;
    while i < items.len()
        invariant
            i <= items.len(),
            views == items_view(items@),
            json@ == JsonView::Array(views),
            out@.len() == i,
            forall|k: int| 0 <= k < i ==> (#[trigger] json_request(views[k])) == Some(out@[k]@),
        decreases items.len() - i,
    {
        match Request::from_json(&items[i]) {
            Some(request) => {
                out.push(request);
            },
            None => {
                assert(json_request(views[i as int]) is None);
                return None;
            },
        }
        i += 1;
    }
    assert(requests_view(out@) =~= Seq::new(views.len(), |i: int| json_request(views[i]).unwrap()));
    Some(out)
}

/// Reads a batch of responses.
pub fn responses_from_json(json: &Json) -> (r: Option<Vec<Response>>)
    ensures
        match r {
            Some(responses) => json_responses(json@) == Some(responses_view(responses@)),
            None => json_responses(json@) is None,
        },
{
    let items = match json.as_items() {
        Some(items) => items,
        None => { return None; },
    };
    let ghost views = items_view(items@);
    let mut out: Vec<Response> = Vec::new();
    let mut i: usize = 0;
    while i < items.len()
        invariant
            i <= items.len(),
            views == items_view(items@),
            json@ == JsonView::Array(views),
            out@.len() == i,
            forall|k: int| 0 <= k < i ==> (#[trigger] json_response(views[k])) == Some(out@[k]@),
        decreases items.len() - i,
    {
        match Response::from_json(&items[i]) {
            Some(response) => {
                out.push(response);
            },
            None => {
                assert(json_response(views[i as int]) is None);
                return None;
            },
        }
        i += 1;
    }
    assert(responses_view(out@) =~= Seq::new(
        views.len(),
        |i: int| json_response(views[i]).unwrap(),
    ));
    Some(out)
}

/// A batch of requests is read back from its JSON value, and so is a batch
/// of responses.
pub proof fn batch_roundtrip(requests: Seq<RequestView>, responses: Seq<ResponseView>)
    ensures
        json_requests(requests_json(requests)) == Some(requests),
        json_responses(responses_json(responses)) == Some(responses),
{
    let a = requests_json(requests)->Array_0;
    assert forall|i: int| 0 <= i < a.len() implies (#[trigger] json_request(a[i])) == Some(
        requests[i],
    ) by {
        request_roundtrip(requests[i]);
    }
    assert(json_requests(requests_json(requests)).unwrap() =~= requests);
    let b = responses_json(responses)->Array_0;
    assert forall|i: int| 0 <= i < b.len() implies (#[trigger] json_response(b[i])) == Some(
        responses[i],
    ) by {
        response_roundtrip(responses[i]);
    }
    assert(json_responses(responses_json(responses)).unwrap() =~= responses);
}

/// The text of a value that may be missing.
pub open spec fn text_view(text: Option<String>) -> Option<Seq<char>> {
    match text {
        Some(t) => Some(t@),
        None => None,
    }
}

/// The value of JSON that may be missing.
pub open spec fn parsed_view(json: Option<Json>) -> Option<JsonView> {
    match json {
        Some(j) => Some(j@),
        None => None,
    }
}

impl Request {
    /// The request of a JSON text; none where the text is not JSON or is no
    /// request.
    pub fn decode(text: &str) -> (r: Option<Request>)
        ensures
            match r {
                Some(request) => json_parse(text@) matches Some(json) && json_request(json)
                    == Some(request@),
                None => json_parse(text@) matches Some(json) ==> json_request(json) is None,
            },
    {
        match parse(text) {
            Some(json) => Request::from_json(&json),
            None => None,
        }
    }

    /// The JSON text of the request; none where a number in it is no JSON
    /// number.
    pub fn encode(&self) -> (text: Option<String>)
        ensures
            text_view(text) == json_text(request_json(self@)),
    {
        render(&self.to_json())
    }
}

impl Response {
    /// The response of a JSON text; none where the text is not JSON or is no
    /// response.
    pub fn decode(text: &str) -> (r: Option<Response>)
        ensures
            match r {
                Some(response) => json_parse(text@) matches Some(json) && json_response(json)
                    == Some(response@),
                None => json_parse(text@) matches Some(json) ==> json_response(json) is None,
            },
    {
        match parse(text) {
            Some(json) => Response::from_json(&json),
            None => None,
        }
    }

    /// The JSON text of the response; none where a number in it is no JSON
    /// number.
    pub fn encode(&self) -> (text: Option<String>)
        ensures
            text_view(text) == json_text(response_json(self@)),
    {
        render(&self.to_json())
    }
}

/// Why the node's answer is none.
#[derive(Clone, Copy, Debug, PartialEq, Eq, Structural)]
pub enum TransportError {
    /// The node could not be reached, or did not answer.
    Network,
    /// The request could not be written.
    Request,
    /// The node answered with a status that is no success.
    Status(u16),
    /// The body of the answer is not what was asked for.
    Body,
    /// The answers of a batch are not those of its requests, one for each
    /// and in their order.
    Mismatch,
}

/// What came back from the node: the HTTP status and the body.
#[derive(Debug)]
pub struct Reply {
    pub status: u16,
    pub body: String,
}

/// Whether a status is one of success.
pub open spec fn is_success(status: u16) -> bool {
    200 <= status < 300
}

/// Whether the responses are those of the requests: one for each, with its
/// id, in the order of the requests.
pub open spec fn answers_to(requests: Seq<RequestView>, responses: Seq<ResponseView>) -> bool {
    &&& requests.len() == responses.len()
    &&& forall|i: int| 0 <= i < requests.len() ==> (#[trigger] responses[i]).id == requests[i].id
}

/// The response in an answer of the node whose body was read as JSON.
pub open spec fn read_response_spec(status: u16, body: Option<JsonView>) -> Result<
    ResponseView,
    TransportError,
> {
    if !is_success(status) {
        Err(TransportError::Status(status))
    } else {
        match body {
            None => Err(TransportError::Body),
            Some(json) => match json_response(json) {
                Some(response) => Ok(response),
                None => Err(TransportError::Body),
            },
        }
    }
}

/// The responses in an answer of the node to a batch whose body was read as
/// JSON.
pub open spec fn read_batch_spec(
    requests: Seq<RequestView>,
    status: u16,
    body: Option<JsonView>,
) -> Result<Seq<ResponseView>, TransportError> {
    if !is_success(status) {
        Err(TransportError::Status(status))
    } else {
        match body {
            None => Err(TransportError::Body),
            Some(json) => match json_responses(json) {
                Some(responses) => if answers_to(requests, responses) {
                    Ok(responses)
                } else {
                    Err(TransportError::Mismatch)
                },
                None => Err(TransportError::Body),
            },
        }
    }
}

/// The scheme of a text read as a URI by `hyper::Uri`, where it is one and
/// has a scheme.
pub uninterp spec fn uri_scheme(text: Seq<char>) -> Option<Seq<char>>;

/// `hyper::Uri::scheme_str` of the text parsed by `hyper::Uri::from_str`.
#[verifier::external_body]
fn scheme(url: &str) -> (r: Option<String>)
    ensures
        text_view(r) == uri_scheme(url@),
{
    Some(url.parse::<hyper::Uri>().ok()?.scheme_str()?.to_owned())
}

/// The URL does not name a node that speaks HTTP.
#[derive(Clone, Copy, Debug, PartialEq, Eq, Structural)]
pub struct InvalidScheme;

/// Whether a scheme is `http` or `https`.
pub open spec fn is_http(scheme: Option<Seq<char>>) -> bool {
    scheme == Some("http"@) || scheme == Some("https"@)
}

/// The client of a node: where it is, what is sent to it, and what is made
/// of its answers.
#[derive(Debug)]
pub struct Client {
    url: String,
}

impl Client {
    /// A client for the node at a URL whose scheme has been read.
    pub fn with_scheme(url: &str, scheme: Option<String>) -> (r: Result<Self, InvalidScheme>)
        ensures
            r is Ok <==> is_http(text_view(scheme)),
            r matches Ok(client) ==> client.url_view() == url@,
    {
        match scheme {
            Some(s) => {
                if s == "http".to_owned() || s == "https".to_owned() {
                    Ok(Self { url: url.to_owned() })
                } else {
                    Err(InvalidScheme)
                }
            },
            None => Err(InvalidScheme),
        }
    }

    /// A client for the node at a URL, which has to be one of `http` or
    /// `https`.
    pub fn new(url: &str) -> (r: Result<Self, InvalidScheme>)
        ensures
            r is Ok <==> is_http(uri_scheme(url@)),
            r matches Ok(client) ==> client.url_view() == url@,
    {
        Self::with_scheme(url, scheme(url))
    }

    /// The URL of the node, as a value.
    pub closed spec fn url_view(&self) -> Seq<char> {
        self.url@
    }

    /// The URL of the node.
    pub fn url(&self) -> (url: &String)
        ensures
            url@ == self.url_view(),
    {
        &self.url
    }

    /// The response in an answer of the node whose body was read as JSON.
    pub fn read_response(status: u16, body: Option<Json>) -> (r: Result<Response, TransportError>)
        ensures
            match r {
                Ok(response) => read_response_spec(status, parsed_view(body)) == Ok::<
                    ResponseView,
                    TransportError,
                >(response@),
                Err(e) => read_response_spec(status, parsed_view(body)) == Err::<
                    ResponseView,
                    TransportError,
                >(e),
            },
    {
        if !(200 <= status && status < 300) {
            return Err(TransportError::Status(status));
        }
        match body {
            None => Err(TransportError::Body),
            Some(json) => match Response::from_json(&json) {
                Some(response) => Ok(response),
                None => Err(TransportError::Body),
            },
        }
    }

    /// Whether the responses are those of the requests: one for each, with
    /// its id, in the order of the requests.
    pub fn check_batch(requests: &Vec<Request>, responses: &Vec<Response>) -> (r: bool)
        ensures
            r == answers_to(requests_view(requests@), responses_view(responses@)),
    {
        if requests.len() != responses.len() {
            return false;
        }
        let mut i: usize = 0;
        while i < requests.len()
            invariant
                i <= requests.len(),
                requests.len() == responses.len(),
                forall|k: int| 0 <= k < i ==> (#[trigger] responses@[k])@.id == requests@[k]@.id,
            decreases requests.len() - i,
        {
            if !requests[i].id.same(&responses[i].id) {
                assert(responses_view(responses@)[i as int].id != requests_view(
                    requests@,
                )[i as int].id);
                return false;
            }
            i += 1;
        }
        assert forall|k: int| 0 <= k < requests@.len() implies (#[trigger] responses_view(
            responses@,
        )[k]).id == requests_view(requests@)[k].id by {
            assert(responses@[k]@.id == requests@[k]@.id);
        }
        true
    }

    /// The responses in an answer of the node to a batch whose body was read
    /// as JSON: they must be those of the requests, one for each and in
    /// their order.
    pub fn read_batch(requests: &Vec<Request>, status: u16, body: Option<Json>) -> (r: Result<
        Vec<Response>,
        TransportError,
    >)
        ensures
            match r {
                Ok(responses) => read_batch_spec(
                    requests_view(requests@),
                    status,
                    parsed_view(body),
                ) == Ok::<Seq<ResponseView>, TransportError>(responses_view(responses@)),
                Err(e) => read_batch_spec(requests_view(requests@), status, parsed_view(body))
                    == Err::<Seq<ResponseView>, TransportError>(e),
            },
    {
        if !(200 <= status && status < 300) {
            return Err(TransportError::Status(status));
        }
        match body {
            None => Err(TransportError::Body),
            Some(json) => match responses_from_json(&json) {
                Some(responses) => {
                    if Self::check_batch(requests, &responses) {
                        Ok(responses)
                    } else {
                        Err(TransportError::Mismatch)
                    }
                },
                None => Err(TransportError::Body),
            },
        }
    }

    /// The response in an answer of the node to one request.
    pub fn execute(&self, reply: &Reply) -> (r: Result<Response, TransportError>)
        ensures
            match r {
                Ok(response) => read_response_spec(reply.status, json_parse(reply.body@)) == Ok::<
                    ResponseView,
                    TransportError,
                >(response@),
                Err(e) => read_response_spec(reply.status, json_parse(reply.body@)) == Err::<
                    ResponseView,
                    TransportError,
                >(e),
            },
    {
        Self::read_response(reply.status, parse(reply.body.as_str()))
    }

    /// The responses in an answer of the node to a batch of requests. To an
    /// empty batch nothing is sent, and the answer is the empty list.
    pub fn execute_many(&self, requests: &Vec<Request>, reply: Option<&Reply>) -> (r: Result<
        Vec<Response>,
        TransportError,
    >)
        ensures
            requests@.len() == 0 ==> (r matches Ok(responses) && responses@.len() == 0),
            requests@.len() > 0 ==> match reply {
                None => r == Err::<Vec<Response>, TransportError>(TransportError::Network),
                Some(reply) => match r {
                    Ok(responses) => read_batch_spec(
                        requests_view(requests@),
                        reply.status,
                        json_parse(reply.body@),
                    ) == Ok::<Seq<ResponseView>, TransportError>(responses_view(responses@)),
                    Err(e) => read_batch_spec(
                        requests_view(requests@),
                        reply.status,
                        json_parse(reply.body@),
                    ) == Err::<Seq<ResponseView>, TransportError>(e),
                },
            },
    {
        if requests.len() == 0 {
            return Ok(Vec::new());
        }
        match reply {
            None => Err(TransportError::Network),
            Some(reply) => Self::read_batch(requests, reply.status, parse(reply.body.as_str())),
        }
    }

    /// The body to send for one request.
    pub fn request_body(&self, request: &Request) -> (r: Result<String, TransportError>)
        ensures
            match r {
                Ok(text) => json_text(request_json(request@)) == Some(text@),
                Err(e) => e == TransportError::Request && json_text(request_json(request@))
                    is None,
            },
    {
        match request.encode() {
            Some(text) => Ok(text),
            None => Err(TransportError::Request),
        }
    }

    /// The body to send for a batch of requests.
    pub fn batch_body(&self, requests: &Vec<Request>) -> (r: Result<String, TransportError>)
        ensures
            match r {
                Ok(text) => json_text(requests_json(requests_view(requests@))) == Some(text@),
                Err(e) => e == TransportError::Request && json_text(
                    requests_json(requests_view(requests@)),
                ) is None,
            },
    {
        match render(&requests_to_json(requests)) {
            Some(text) => Ok(text),
            None => Err(TransportError::Request),
        }
    }
}

} // verus!
