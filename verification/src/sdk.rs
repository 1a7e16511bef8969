//! The API client: it builds the requests for the four operations on a
//! resource and reads the server's answers. The caller supplies the function
//! that carries a request over the network, so nothing here depends on how
//! that is done.

use vstd::prelude::*;
use crate::http::{
    header_value_accepts, is_header_char, is_header_text, session_headers, status_is_success,
    Header, HttpMethod, Request, RequestView, Response, SESSION_HEADER,
};
use crate::json::{compact, json_compact, json_member, member};
use crate::text::joined;

verus! {

/// How the body of a successful read is returned.
#[derive(Clone, Copy, Debug, PartialEq, Eq, Structural)]
pub enum ResponseFormat {
    /// The content of the `data` envelope, as JSON.
    Json,
    /// The body as the server sent it.
    Text,
}

/// Why an operation of the client failed.
#[derive(Clone, Debug, PartialEq, Eq)]
pub enum SdkError {
    /// The session token cannot stand in an HTTP header.
    InvalidToken,
    /// The data given for the operation is not a JSON document.
    InvalidData,
    /// The request could not be carried out; the text says why.
    Transport(String),
    /// The server answered the request of this method with a status outside
    /// 200..=299.
    Failed(HttpMethod),
    /// The body of a successful read is not an object with a `data` member.
    NoEnvelope,
    /// The data read for a sync lacks the configured field.
    NoSyncField,
}

impl SdkError {
    /// The line that reports this error.
    pub open spec fn message_text(self) -> Seq<char> {
        match self {
            SdkError::InvalidToken => "error: invalid session token"@,
            SdkError::InvalidData => "error: invalid JSON data input for operation"@,
            SdkError::Transport(reason) => reason@,
            SdkError::Failed(HttpMethod::Post) => "error: failed to post"@,
            SdkError::Failed(HttpMethod::Get) => "error: failed to get"@,
            SdkError::Failed(HttpMethod::Patch) => "error: failed to put"@,
            SdkError::Failed(HttpMethod::Delete) => "error: failed to delete"@,
            SdkError::NoEnvelope => "error: response holds no data"@,
            SdkError::NoSyncField => "error: response data lacks the sync field"@,
        }
    }

    /// The line that reports this error.
    pub fn message(&self) -> (r: String)
        ensures
            r@ == self.message_text(),
    {
        match self {
            SdkError::InvalidToken => "error: invalid session token".to_owned(),
            SdkError::InvalidData => "error: invalid JSON data input for operation".to_owned(),
            SdkError::Transport(reason) => reason.clone(),
            SdkError::Failed(HttpMethod::Post) => "error: failed to post".to_owned(),
            SdkError::Failed(HttpMethod::Get) => "error: failed to get".to_owned(),
            SdkError::Failed(HttpMethod::Patch) => "error: failed to put".to_owned(),
            SdkError::Failed(HttpMethod::Delete) => "error: failed to delete".to_owned(),
            SdkError::NoEnvelope => "error: response holds no data".to_owned(),
            SdkError::NoSyncField => "error: response data lacks the sync field".to_owned(),
        }
    }
}

/// A client for one Directus API, bound to one session.
pub struct DirectusSdk {
    api_path: String,
    config_sync_field_name: String,
    session_cookie: String,
}

/// The mathematical content of a [`DirectusSdk`].
pub struct DirectusSdkView {
    pub api_path: Seq<char>,
    pub config_sync_field_name: Seq<char>,
    pub session_cookie: Seq<char>,
}

impl View for DirectusSdk {
    type V = DirectusSdkView;

    closed spec fn view(&self) -> DirectusSdkView {
        DirectusSdkView {
            api_path: self.api_path@,
            config_sync_field_name: self.config_sync_field_name@,
            session_cookie: self.session_cookie@,
        }
    }
}

/// The session cookie for a token: the cookie's name, `=`, the token.
pub open spec fn session_cookie_of(token: Seq<char>) -> Seq<char> {
    "directus_session_token="@ + token
}

/// The URL of a resource, or of one item of it: the API path, then the
/// resource and the item's id, each behind a slash.
pub open spec fn path_of(api_path: Seq<char>, resource: Seq<char>, id: Option<Seq<char>>) -> Seq<
    char,
> {
    match id {
        Some(id) => api_path + "/"@ + resource + "/"@ + id,
        None => api_path + "/"@ + resource,
    }
}

/// Whether a request of `method` carries a body.
pub open spec fn carries_body(method: HttpMethod) -> bool {
    method == HttpMethod::Post || method == HttpMethod::Patch
}

/// The request that a client makes of a method, a URL and the document to
/// send, if there is one. Its one header carries the session cookie.
pub open spec fn assembled_of(
    sdk: DirectusSdkView,
    method: HttpMethod,
    url: Seq<char>,
    document: Option<Seq<char>>,
) -> Result<RequestView, SdkError> {
    let headers = session_headers(sdk.session_cookie);
    if !carries_body(method) {
        Ok(RequestView { method, url, headers, body: None })
    } else {
        match document {
            None => Err(SdkError::InvalidData),
            Some(body) => Ok(RequestView { method, url, headers, body: Some(body) }),
        }
    }
}

/// The request that a client makes of a method, a URL and optional data: the
/// document to send is the data in compact form.
pub open spec fn request_of(
    sdk: DirectusSdkView,
    method: HttpMethod,
    url: Seq<char>,
    data: Option<Seq<char>>,
) -> Result<RequestView, SdkError> {
    assembled_of(
        sdk,
        method,
        url,
        match data {
            Some(data) => json_compact(data),
            None => None,
        },
    )
}

/// The answer to a request of `method`, sifted: the response where its
/// status is a success, the failure of the method where it is not, and the
/// transport's reason where no response came.
pub open spec fn accepted_of(method: HttpMethod, reply: Result<Response, String>) -> Result<
    Response,
    SdkError,
> {
    match reply {
        Err(reason) => Err(SdkError::Transport(reason)),
        Ok(response) => if status_is_success(response.status) {
            Ok(response)
        } else {
            Err(SdkError::Failed(method))
        },
    }
}

/// What the answer to a changing request amounts to: `message` where the
/// request was accepted.
pub open spec fn written_of(
    method: HttpMethod,
    message: Seq<char>,
    reply: Result<Response, String>,
) -> Result<Seq<char>, SdkError> {
    match accepted_of(method, reply) {
        Ok(_) => Ok(message),
        Err(e) => Err(e),
    }
}

/// What a read returns of an envelope with the member `data` and, within it,
/// the configured `field`.
pub open spec fn unwrapped_of(
    data: Option<Seq<char>>,
    field: Option<Seq<char>>,
    is_sync: bool,
) -> Result<Seq<char>, SdkError> {
    match data {
        None => Err(SdkError::NoEnvelope),
        Some(data) => if !is_sync {
            Ok(data)
        } else {
            match field {
                None => Err(SdkError::NoSyncField),
                Some(field) => Ok(field),
            }
        },
    }
}

/// What a successful read returns of a body.
pub open spec fn extract_of(
    sync_field: Seq<char>,
    body: Seq<char>,
    format: Option<ResponseFormat>,
    is_sync: bool,
) -> Result<Seq<char>, SdkError> {
    if format == Some(ResponseFormat::Text) {
        Ok(body)
    } else {
        let data = json_member(body, "data"@);
        let field = match data {
            Some(data) => json_member(data, sync_field),
            None => None,
        };
        unwrapped_of(data, field, is_sync)
    }
}

/// What the answer to a GET amounts to.
pub open spec fn fetched_of(
    sync_field: Seq<char>,
    format: Option<ResponseFormat>,
    is_sync: bool,
    reply: Result<Response, String>,
) -> Result<Seq<char>, SdkError> {
    match accepted_of(HttpMethod::Get, reply) {
        Ok(response) => extract_of(sync_field, response.body@, format, is_sync),
        Err(e) => Err(e),
    }
}

/// That `send`, given a request of the content `planned`, may have answered
/// `reply`.
pub open spec fn carried<F: FnOnce(Request) -> Result<Response, String>>(
    send: F,
    planned: RequestView,
    reply: Result<Response, String>,
) -> bool {
    exists|q: Request| q@ == planned && #[trigger] call_ensures(send, (q,), reply)
}

/// That `r` is an outcome of sending, through `send`, the request that `plan`
/// holds, and reading the answer with `outcome`; or the plan's own error,
/// with nothing sent.
pub open spec fn performs<F: FnOnce(Request) -> Result<Response, String>>(
    send: F,
    plan: Result<RequestView, SdkError>,
    outcome: spec_fn(Result<Response, String>) -> Result<Seq<char>, SdkError>,
    r: Result<Seq<char>, SdkError>,
) -> bool {
    match plan {
        Err(e) => r == Err::<Seq<char>, SdkError>(e),
        Ok(planned) => exists|reply: Result<Response, String>| #[trigger]
            carried(send, planned, reply) && r == outcome(reply),
    }
}

/// That `r` is an outcome of creating an item of `resource` from `data`.
pub open spec fn creates<F: FnOnce(Request) -> Result<Response, String>>(
    sdk: DirectusSdkView,
    resource: Seq<char>,
    data: Seq<char>,
    send: F,
    r: Result<Seq<char>, SdkError>,
) -> bool {
    performs(
        send,
        request_of(sdk, HttpMethod::Post, path_of(sdk.api_path, resource, None), Some(data)),
        |reply: Result<Response, String>|
            written_of(HttpMethod::Post, "created successfully"@, reply),
        r,
    )
}

/// That `r` is an outcome of reading `resource`, or its item `id`.
pub open spec fn reads<F: FnOnce(Request) -> Result<Response, String>>(
    sdk: DirectusSdkView,
    resource: Seq<char>,
    id: Option<Seq<char>>,
    format: Option<ResponseFormat>,
    is_sync: bool,
    send: F,
    r: Result<Seq<char>, SdkError>,
) -> bool {
    performs(
        send,
        request_of(sdk, HttpMethod::Get, path_of(sdk.api_path, resource, id), None),
        |reply: Result<Response, String>|
            fetched_of(sdk.config_sync_field_name, format, is_sync, reply),
        r,
    )
}

/// That `r` is an outcome of updating the item `id` of `resource` with `data`.
pub open spec fn updates<F: FnOnce(Request) -> Result<Response, String>>(
    sdk: DirectusSdkView,
    resource: Seq<char>,
    id: Seq<char>,
    data: Seq<char>,
    send: F,
    r: Result<Seq<char>, SdkError>,
) -> bool {
    performs(
        send,
        request_of(
            sdk,
            HttpMethod::Patch,
            path_of(sdk.api_path, resource, Some(id)),
            Some(data),
        ),
        |reply: Result<Response, String>|
            written_of(HttpMethod::Patch, "updated successfully"@, reply),
        r,
    )
}

/// That `r` is an outcome of deleting the item `id` of `resource`.
pub open spec fn deletes<F: FnOnce(Request) -> Result<Response, String>>(
    sdk: DirectusSdkView,
    resource: Seq<char>,
    id: Seq<char>,
    send: F,
    r: Result<Seq<char>, SdkError>,
) -> bool {
    performs(
        send,
        request_of(sdk, HttpMethod::Delete, path_of(sdk.api_path, resource, Some(id)), None),
        |reply: Result<Response, String>|
            written_of(HttpMethod::Delete, "deleted successfully"@, reply),
        r,
    )
}

/// A result of request building, by the content of the request.
pub open spec fn request_view(r: Result<Request, SdkError>) -> Result<RequestView, SdkError> {
    match r {
        Ok(request) => Ok(request@),
        Err(e) => Err(e),
    }
}

/// A result of an operation, by the characters of its text.
pub open spec fn text_view(r: Result<String, SdkError>) -> Result<Seq<char>, SdkError> {
    match r {
        Ok(text) => Ok(text@),
        Err(e) => Err(e),
    }
}

impl DirectusSdk {
    /// The session cookie of every client can stand in an HTTP header.
    #[verifier::type_invariant]
    closed spec fn well_formed(&self) -> bool {
        is_header_text(self.session_cookie@)
    }

    /// A client for the API at `origin` + `base_path`, whose requests carry
    /// `token` as the session cookie. A token that cannot stand in an HTTP
    /// header is refused.
    pub fn from_cookie(
        origin: String,
        base_path: String,
        token: String,
        config_sync_field_name: String,
    ) -> (r: Result<Self, SdkError>)
        ensures
            is_header_text(token@) ==> r is Ok && r->Ok_0@ == (DirectusSdkView {
                api_path: origin@ + base_path@,
                config_sync_field_name: config_sync_field_name@,
                session_cookie: session_cookie_of(token@),
            }),
            !is_header_text(token@) ==> r == Err::<Self, SdkError>(SdkError::InvalidToken),
    {
        let session_cookie = joined("directus_session_token=", token.as_str());
        proof {
            reveal_strlit("directus_session_token=");
            let prefix = "directus_session_token="@;
            assert(is_header_text(prefix));
            if is_header_text(token@) {
                assert forall|i: int| 0 <= i < session_cookie@.len() implies is_header_char(
                    #[trigger] session_cookie@[i],
                ) by {
                    if i >= prefix.len() {
                        assert(session_cookie@[i] == token@[i - prefix.len()]);
                    } else {
                        assert(session_cookie@[i] == prefix[i]);
                    }
                }
            } else {
                let bad = choose|i: int| 0 <= i < token@.len() && !is_header_char(token@[i]);
                assert(session_cookie@[bad + prefix.len()] == token@[bad]);
            }
        }
        if header_value_accepts(session_cookie.as_str()) {
            Ok(
                DirectusSdk {
                    api_path: joined(origin.as_str(), base_path.as_str()),
                    config_sync_field_name,
                    session_cookie,
                },
            )
        } else {
            Err(SdkError::InvalidToken)
        }
    }

    /// The URL of `resource`, or of its item `id`.
    pub fn path(&self, resource: &String, id: Option<&String>) -> (r: String)
        ensures
            r@ == path_of(self@.api_path, resource@, id.deep_view()),
    {
        let mut url = joined(self.api_path.as_str(), "/");
        url.append(resource.as_str());
        match id {
            Some(id) => {
                url.append("/");
                url.append(id.as_str());
            },
            None => {},
        }
        url
    }

    /// The request of `method` for `url`. A POST or a PATCH carries `data`,
    /// which must be a JSON document and is sent in compact form; the other
    /// methods carry no body, whatever `data` is.
    pub fn request(&self, method: HttpMethod, url: String, data: Option<&String>) -> (r: Result<
        Request,
        SdkError,
    >)
        ensures
            request_view(r) == request_of(self@, method, url@, data.deep_view()),
            r matches Ok(request) ==> is_header_text(request@.headers[0].value),
    {
        let document = match method {
            HttpMethod::Post | HttpMethod::Patch => match data {
                Some(data) => compact(data.as_str()),
                None => None,
            },
            HttpMethod::Get | HttpMethod::Delete => None,
        };
        self.assemble(method, url, document)
    }

    /// The request of `method` for `url` with the body `document`: the data
    /// in compact form, or `None` where the data has no such form. A POST or
    /// a PATCH needs the document; the other methods leave it out. The one
    /// header of the request carries the client's session cookie, which is fit
    /// for an HTTP header.
    pub fn assemble(&self, method: HttpMethod, url: String, document: Option<String>) -> (r:
        Result<Request, SdkError>)
        ensures
            request_view(r) == assembled_of(self@, method, url@, document.deep_view()),
            r matches Ok(request) ==> is_header_text(request@.headers[0].value),
    {
        proof {
            use_type_invariant(self);
        }
        let session = Header {
            name: SESSION_HEADER.to_owned(),
            value: self.session_cookie.clone(),
        };
        let mut headers: Vec<Header> = Vec::new();
        headers.push(session);
        assert(headers.deep_view() =~= session_headers(self@.session_cookie));
        match method {
            HttpMethod::Get | HttpMethod::Delete => Ok(
                Request { method, url, headers, body: None },
            ),
            HttpMethod::Post | HttpMethod::Patch => match document {
                None => Err(SdkError::InvalidData),
                Some(body) => Ok(Request { method, url, headers, body: Some(body) }),
            },
        }
    }

    /// Sifts the answer to a request of `method`: the response itself where
    /// its status lies in 200..=299, the failure of the method for any other
    /// status, and the transport's reason where no response came.
    pub fn accepted(method: HttpMethod, reply: Result<Response, String>) -> (r: Result<
        Response,
        SdkError,
    >)
        ensures
            r == accepted_of(method, reply),
    {
        match reply {
            Err(reason) => Err(SdkError::Transport(reason)),
            Ok(response) => {
                if response.is_success() {
                    Ok(response)
                } else {
                    Err(SdkError::Failed(method))
                }
            },
        }
    }

    /// What a successful read returns of the response's body. With the text
    /// format it is the body as it came. Otherwise the body must be a JSON
    /// object with a `data` member, and the result is that member, or for a
    /// sync the configured field of that member, as compact JSON.
    pub fn extract(&self, body: String, format: Option<ResponseFormat>, is_sync: bool) -> (r:
        Result<String, SdkError>)
        ensures
            text_view(r) == extract_of(self@.config_sync_field_name, body@, format, is_sync),
    {
        match format {
            Some(ResponseFormat::Text) => Ok(body),
            None | Some(ResponseFormat::Json) => {
                let data = member(body.as_str(), "data");
                let field = match &data {
                    Some(data) => {
                        if is_sync {
                            member(data.as_str(), self.config_sync_field_name.as_str())
                        } else {
                            None
                        }
                    },
                    None => None,
                };
                DirectusSdk::unwrapped(data, field, is_sync)
            },
        }
    }

    /// What a read returns of an envelope: its `data` member, or for a sync
    /// the configured `field` of that member. An envelope without `data`
    /// fails, and so does a sync whose data lacks the field.
    pub fn unwrapped(data: Option<String>, field: Option<String>, is_sync: bool) -> (r: Result<
        String,
        SdkError,
    >)
        ensures
            text_view(r) == unwrapped_of(data.deep_view(), field.deep_view(), is_sync),
    {
        match data {
            None => Err(SdkError::NoEnvelope),
            Some(data) => {
                if !is_sync {
                    Ok(data)
                } else {
                    match field {
                        None => Err(SdkError::NoSyncField),
                        Some(field) => Ok(field),
                    }
                }
            },
        }
    }

    /// Creates an item of `resource` from the JSON document `data`: a POST to
    /// the resource's URL, carried by `send`. Data that is not JSON is
    /// refused before anything is sent.
    pub fn create<F: FnOnce(Request) -> Result<Response, String>>(
        &self,
        resource: &String,
        data: &String,
        send: F,
    ) -> (r: Result<String, SdkError>)
        requires
            forall|q: Request| call_requires(send, (q,)),
        ensures
            creates(self@, resource@, data@, send, text_view(r)),
    {
        let url = self.path(resource, None);
        match self.request(HttpMethod::Post, url, Some(data)) {
            Err(e) => Err(e),
            Ok(request) => {
                let ghost planned = request@;
                let reply = send(request);
                assert(carried(send, planned, reply));
                written(HttpMethod::Post, "created successfully", reply)
            },
        }
    }

    /// Reads `resource`, or its item `id`: a GET carried by `send`, whose
    /// answer is read as [`DirectusSdk::extract`] says.
    pub fn read<F: FnOnce(Request) -> Result<Response, String>>(
        &self,
        resource: &String,
        id: Option<&String>,
        format: Option<ResponseFormat>,
        is_sync: bool,
        send: F,
    ) -> (r: Result<String, SdkError>)
        requires
            forall|q: Request| call_requires(send, (q,)),
        ensures
            reads(self@, resource@, id.deep_view(), format, is_sync, send, text_view(r)),
    {
        let url = self.path(resource, id);
        match self.request(HttpMethod::Get, url, None) {
            Err(e) => Err(e),
            Ok(request) => {
                let ghost planned = request@;
                let reply = send(request);
                assert(carried(send, planned, reply));
                match DirectusSdk::accepted(HttpMethod::Get, reply) {
                    Err(e) => Err(e),
                    Ok(response) => self.extract(response.body, format, is_sync),
                }
            },
        }
    }

    /// Updates the item `id` of `resource` with the JSON document `data`: a
    /// PATCH to the item's URL, carried by `send`. Data that is not JSON is
    /// refused before anything is sent.
    pub fn update<F: FnOnce(Request) -> Result<Response, String>>(
        &self,
        resource: &String,
        id: &String,
        data: &String,
        send: F,
    ) -> (r: Result<String, SdkError>)
        requires
            forall|q: Request| call_requires(send, (q,)),
        ensures
            updates(self@, resource@, id@, data@, send, text_view(r)),
    {
        let url = self.path(resource, Some(id));
        match self.request(HttpMethod::Patch, url, Some(data)) {
            Err(e) => Err(e),
            Ok(request) => {
                let ghost planned = request@;
                let reply = send(request);
                assert(carried(send, planned, reply));
                written(HttpMethod::Patch, "updated successfully", reply)
            },
        }
    }

    /// Deletes the item `id` of `resource`: a DELETE to the item's URL,
    /// carried by `send`.
    pub fn delete<F: FnOnce(Request) -> Result<Response, String>>(
        &self,
        resource: &String,
        id: &String,
        send: F,
    ) -> (r: Result<String, SdkError>)
        requires
            forall|q: Request| call_requires(send, (q,)),
        ensures
            deletes(self@, resource@, id@, send, text_view(r)),
    {
        let url = self.path(resource, Some(id));
        match self.request(HttpMethod::Delete, url, None) {
            Err(e) => Err(e),
            Ok(request) => {
                let ghost planned = request@;
                let reply = send(request);
                assert(carried(send, planned, reply));
                written(HttpMethod::Delete, "deleted successfully", reply)
            },
        }
    }
}

/// Reads the answer to a request that changes the resource: `message` where
/// the request was accepted.
fn written(method: HttpMethod, message: &str, reply: Result<Response, String>) -> (r: Result<
    String,
    SdkError,
>)
    ensures
        text_view(r) == written_of(method, message@, reply),
{
    match DirectusSdk::accepted(method, reply) {
        Ok(_) => Ok(message.to_owned()),
        Err(e) => Err(e),
    }
}

} // verus!
