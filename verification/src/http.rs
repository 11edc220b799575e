//! The shape of an HTTP request to an ArcGIS REST endpoint, as plain data,
//! and the handling of the HTTP status of its response.

use vstd::prelude::*;
use crate::error::Error;
use crate::text::dec_digits;

verus! {

/// HTTP method of a request.
#[derive(Debug, Clone, Copy, PartialEq, Eq, Structural)]
pub enum HttpMethod {
    Get,
    Post,
}

/// A file attached to a multipart body.
#[derive(Debug, Clone)]
pub struct FilePart {
    pub field: String,
    pub file_name: String,
    pub mime_type: String,
    pub data: Vec<u8>,
}

/// One part of a multipart body.
#[derive(Debug, Clone)]
pub enum MultipartPart {
    Text(String, String),
    File(FilePart),
}

/// The body of a request.
#[derive(Debug, Clone)]
pub enum RequestBody {
    /// No body.
    Empty,
    /// `application/x-www-form-urlencoded` fields, in order.
    Form(Vec<(String, String)>),
    /// `multipart/form-data` parts, in order.
    Multipart(Vec<MultipartPart>),
    /// An already url-encoded body sent with the form content type.
    Encoded(String),
}

/// A request: method, URL, query parameters in order, and body.
#[derive(Debug, Clone)]
pub struct ApiRequest {
    pub method: HttpMethod,
    pub url: String,
    pub query: Vec<(String, String)>,
    pub body: RequestBody,
}

/// Text parts of a multipart body, with a file part shown by its field name
/// and file name.
pub open spec fn part_view(p: MultipartPart) -> (Seq<char>, Seq<char>) {
    match p {
        MultipartPart::Text(k, v) => (k@, v@),
        MultipartPart::File(f) => (f.field@, f.file_name@),
    }
}

impl ApiRequest {
    /// Query parameters as text pairs.
    pub open spec fn query_view(self) -> Seq<(Seq<char>, Seq<char>)> {
        self.query.deep_view()
    }

    /// Urlencoded form fields, if the body is a form.
    pub open spec fn form_view(self) -> Option<Seq<(Seq<char>, Seq<char>)>> {
        match self.body {
            RequestBody::Form(f) => Some(f.deep_view()),
            _ => None,
        }
    }

    /// Multipart parts, if the body is multipart.
    pub open spec fn multipart_view(self) -> Option<Seq<(Seq<char>, Seq<char>)>> {
        match self.body {
            RequestBody::Multipart(p) => Some(p@.map_values(|x: MultipartPart| part_view(x))),
            _ => None,
        }
    }

    /// A GET request with the given query and no body.
    pub open spec fn is_get(self, url: Seq<char>, query: Seq<(Seq<char>, Seq<char>)>) -> bool {
        &&& self.method == HttpMethod::Get
        &&& self.url@ == url
        &&& self.query_view() == query
        &&& self.body is Empty
    }

    /// A POST request with an urlencoded form and no query.
    pub open spec fn is_form_post(self, url: Seq<char>, form: Seq<(Seq<char>, Seq<char>)>) -> bool {
        &&& self.method == HttpMethod::Post
        &&& self.url@ == url
        &&& self.query_view() == Seq::<(Seq<char>, Seq<char>)>::empty()
        &&& self.form_view() == Some(form)
    }

    /// A POST request with a multipart body and no query.
    pub open spec fn is_multipart_post(
        self,
        url: Seq<char>,
        parts: Seq<(Seq<char>, Seq<char>)>,
    ) -> bool {
        &&& self.method == HttpMethod::Post
        &&& self.url@ == url
        &&& self.query_view() == Seq::<(Seq<char>, Seq<char>)>::empty()
        &&& self.multipart_view() == Some(parts)
    }
}

/// A single text pair.
pub open spec fn pair(k: Seq<char>, v: Seq<char>) -> Seq<(Seq<char>, Seq<char>)> {
    seq![(k, v)]
}

/// A pair when the value is present, nothing otherwise.
pub open spec fn opt_pair(k: Seq<char>, v: Option<Seq<char>>) -> Seq<(Seq<char>, Seq<char>)> {
    match v {
        Some(x) => seq![(k, x)],
        None => Seq::empty(),
    }
}

/// The value that a list of pairs gives to `k`: that of its first pair with
/// key `k`, or `None` when no pair has that key.
pub open spec fn form_value(form: Seq<(Seq<char>, Seq<char>)>, k: Seq<char>) -> Option<Seq<char>>
    decreases form.len(),
{
    if form.len() == 0 {
        None
    } else if form[0].0 == k {
        Some(form[0].1)
    } else {
        form_value(form.drop_first(), k)
    }
}

/// Looking a key up in two lists joined finds it in the first list when it
/// is there, and in the second otherwise.
pub proof fn lemma_form_value_append(
    a: Seq<(Seq<char>, Seq<char>)>,
    b: Seq<(Seq<char>, Seq<char>)>,
    k: Seq<char>,
)
    ensures
        form_value(a + b, k) == (match form_value(a, k) {
            Some(v) => Some(v),
            None => form_value(b, k),
        }),
    decreases a.len(),
{
    if a.len() == 0 {
        assert(a + b =~= b);
    } else {
        assert((a + b)[0] == a[0]);
        assert((a + b).drop_first() =~= a.drop_first() + b);
        lemma_form_value_append(a.drop_first(), b, k);
    }
}

/// A single pair gives its value to its own key and nothing to any other.
pub proof fn lemma_form_value_pair(k: Seq<char>, v: Seq<char>, key: Seq<char>)
    ensures
        form_value(pair(k, v), key) == (if k == key {
            Some(v)
        } else {
            None
        }),
{
    let rest = pair(k, v).drop_first();
    assert(rest =~= Seq::<(Seq<char>, Seq<char>)>::empty());
    assert(form_value(rest, key) is None);
    assert(pair(k, v)[0] == (k, v));
}

/// An optional pair gives its value, when present, to its own key, and
/// nothing to any other key.
pub proof fn lemma_form_value_opt_pair(k: Seq<char>, v: Option<Seq<char>>, key: Seq<char>)
    ensures
        form_value(opt_pair(k, v), key) == (if k == key {
            v
        } else {
            None
        }),
{
    match v {
        Some(x) => lemma_form_value_pair(k, x, key),
        None => {},
    }
}

/// Builds an owned pair of texts.
pub fn kv(k: &str, v: &str) -> (r: (String, String))
    ensures
        r.0@ == k@,
        r.1@ == v@,
{
    (String::from_str(k), String::from_str(v))
}

/// Appends `(key, value)` to a list of pairs.
pub fn push_pair(list: &mut Vec<(String, String)>, k: &str, v: &str)
    ensures
        final(list).deep_view() == old(list).deep_view() + pair(k@, v@),
{
    list.push(kv(k, v));
    proof {
        assert(final(list).deep_view() =~= old(list).deep_view() + pair(k@, v@));
    }
}

/// Appends `(key, value)` to a list of pairs when the value is present.
pub fn push_opt(list: &mut Vec<(String, String)>, k: &str, v: &Option<String>)
    ensures
        final(list).deep_view() == old(list).deep_view() + opt_pair(k@, v.deep_view()),
{
    match v {
        Some(x) => {
            push_pair(list, k, x.as_str());
        },
        None => {
            assert(final(list).deep_view() =~= old(list).deep_view() + opt_pair(k@, v.deep_view()));
        },
    }
}

/// Appends a text part to a multipart body.
pub fn push_part(parts: &mut Vec<MultipartPart>, k: &str, v: &str)
    ensures
        final(parts)@.map_values(|x: MultipartPart| part_view(x)) == old(parts)@.map_values(
            |x: MultipartPart| part_view(x),
        ) + pair(k@, v@),
{
    parts.push(MultipartPart::Text(String::from_str(k), String::from_str(v)));
    proof {
        assert(final(parts)@.map_values(|x: MultipartPart| part_view(x)) =~= old(parts)@.map_values(
            |x: MultipartPart| part_view(x),
        ) + pair(k@, v@));
    }
}

/// Parts of a multipart body as text pairs.
pub open spec fn parts_view(parts: Seq<MultipartPart>) -> Seq<(Seq<char>, Seq<char>)> {
    parts.map_values(|x: MultipartPart| part_view(x))
}

/// A GET request.
pub fn get_request(url: String, query: Vec<(String, String)>) -> (r: ApiRequest)
    ensures
        r.is_get(url@, query.deep_view()),
{
    ApiRequest { method: HttpMethod::Get, url, query, body: RequestBody::Empty }
}

/// A POST request with an urlencoded form.
pub fn form_post(url: String, form: Vec<(String, String)>) -> (r: ApiRequest)
    ensures
        r.is_form_post(url@, form.deep_view()),
{
    let query: Vec<(String, String)> = Vec::new();
    proof {
        assert(query.deep_view() =~= Seq::<(Seq<char>, Seq<char>)>::empty());
    }
    ApiRequest { method: HttpMethod::Post, url, query, body: RequestBody::Form(form) }
}

/// A POST request with a multipart body.
pub fn multipart_post(url: String, parts: Vec<MultipartPart>) -> (r: ApiRequest)
    ensures
        r.is_multipart_post(url@, parts_view(parts@)),
        r.body == RequestBody::Multipart(parts),
{
    let query: Vec<(String, String)> = Vec::new();
    proof {
        assert(query.deep_view() =~= Seq::<(Seq<char>, Seq<char>)>::empty());
    }
    ApiRequest { method: HttpMethod::Post, url, query, body: RequestBody::Multipart(parts) }
}

/// The `(f, json)` parameter that asks for a JSON response.
pub open spec fn f_json() -> Seq<(Seq<char>, Seq<char>)> {
    pair("f"@, "json"@)
}

/// The query `f=json`, followed by the token when there is one.
pub open spec fn json_token_query(token: Option<Seq<char>>) -> Seq<(Seq<char>, Seq<char>)> {
    f_json() + opt_pair("token"@, token)
}

/// Builds the query `f=json` plus an optional token.
pub fn json_query(token: &Option<String>) -> (r: Vec<(String, String)>)
    ensures
        r.deep_view() == json_token_query(token.deep_view()),
{
    let mut q: Vec<(String, String)> = Vec::new();
    proof {
        assert(q.deep_view() =~= Seq::<(Seq<char>, Seq<char>)>::empty());
    }
    push_pair(&mut q, "f", "json");
    push_opt(&mut q, "token", token);
    proof {
        assert(q.deep_view() =~= json_token_query(token.deep_view()));
    }
    q
}

/// A status in `200..300`, which is what `StatusCode::is_success` tests.
pub open spec fn success_status(code: u16) -> bool {
    200 <= code < 300
}

/// Whether an HTTP status code denotes success.
pub fn is_success_status(code: u16) -> (r: bool)
    ensures
        r == success_status(code),
{
    200 <= code && code < 300
}

/// The canonical reason phrase that `http::StatusCode` gives a code, or
/// `<unknown status code>` when it has none.
pub uninterp spec fn status_reason(code: u16) -> Seq<char>;

/// Calls `Display` of `reqwest::StatusCode` for a valid code, which writes
/// the code in decimal, a space, and the reason phrase named by
/// `status_reason`.
#[verifier::external_body]
fn status_line(code: u16) -> (r: String)
    requires
        100 <= code <= 999,
    ensures
        r@ == dec_digits(code as nat) + " "@ + status_reason(code),
{
    match reqwest::StatusCode::from_u16(code) {
        Ok(status) => status.to_string(),
        Err(_) => String::new(),
    }
}

/// Message of an unsuccessful HTTP response: `HTTP <status>: <body>`.
pub open spec fn http_error_message(code: u16, body: Seq<char>) -> Seq<char> {
    "HTTP "@ + dec_digits(code as nat) + " "@ + status_reason(code) + ": "@ + body
}

/// The error for an HTTP response whose status is not a success; its code
/// is the status code.
pub fn http_status_error(code: u16, body: &str) -> (r: Error)
    requires
        100 <= code <= 999,
    ensures
        r.api_parts() == Some((code as i32, http_error_message(code, body@))),
{
    let line = status_line(code);
    let mut message = String::from_str("HTTP ");
    message.append(line.as_str());
    message.append(": ");
    message.append(body);
    proof {
        assert(message@ =~= http_error_message(code, body@));
    }
    Error::Api { code: code as i32, message }
}

/// Checks the status of a response: `Ok` for a success status, otherwise
/// the `HTTP <status>: <body>` error.
pub fn check_status(code: u16, body: &str) -> (r: Result<(), Error>)
    requires
        100 <= code <= 999,
    ensures
        success_status(code) ==> r is Ok,
        !success_status(code) ==> (r matches Err(e) && e.api_parts() == Some(
            (code as i32, http_error_message(code, body@)),
        )),
{
    if is_success_status(code) {
        Ok(())
    } else {
        Err(http_status_error(code, body))
    }
}

/// Each field of `json_token_query` carries the value built from its own input: a
/// required field is always present, an optional one exactly when its
/// input is given.
pub proof fn lemma_json_token_query_fields(token: Option<Seq<char>>)
    ensures
        crate::http::form_value(json_token_query(token), "f"@) == Some("json"@),
        crate::http::form_value(json_token_query(token), "token"@) == token,
{
    reveal_strlit("f");
    reveal_strlit("json");
    reveal_strlit("token");
    assert("f"@.len() != "token"@.len());
    let c0 = pair("f"@, "json"@);
    let c1 = opt_pair("token"@, token);
    let form = json_token_query(token);
    assert(form == c0 + c1);
    assert(crate::http::form_value(form, "f"@) == Some("json"@)) by {
        crate::http::lemma_form_value_pair("f"@, "json"@, "f"@);
        crate::http::lemma_form_value_opt_pair("token"@, token, "f"@);
        crate::http::lemma_form_value_append(c0, c1, "f"@);
    }
    assert(crate::http::form_value(form, "token"@) == token) by {
        crate::http::lemma_form_value_pair("f"@, "json"@, "token"@);
        crate::http::lemma_form_value_opt_pair("token"@, token, "token"@);
        crate::http::lemma_form_value_append(c0, c1, "token"@);
    }
}

} // verus!
