//! Where requests go, and what a status code means.
//!
//! A [`Client`] knows the server and, once there is a session, the bearer
//! token. [`ApiError`] maps status codes to the cases that callers tell apart:
//! 401 asks for a new login, 403 is a missing permission, 429 asks for a
//! pause, 5xx may pass; every other code is kept as it is.

use crate::api::url::{
    bare, directory, hierarchical, normal_form, plain, plain_below, plain_char, url_joined, web_directory, Url,
};
use crate::model::{option_view, result_view};
use crate::text::{
    decimal, decimal_text, first_at, first_at_is, first_at_is_first, trim_leading, until,
    without_leading,
};
use vstd::prelude::*;
use vstd::string::*;

verus! {

// ---------------------------------------------------------------------
// The client
// ---------------------------------------------------------------------

/// The two groups of endpoints.
#[derive(Debug, Clone, Copy, PartialEq, Eq, Structural)]
pub enum ApiPrefix {
    Api,
    Identity,
}

impl ApiPrefix {
    /// The path segment of the group.
    pub open spec fn segment(self) -> Seq<char> {
        match self {
            ApiPrefix::Api => "api/"@,
            ApiPrefix::Identity => "identity/"@,
        }
    }
}

/// A server and the bearer token for it, if there is one.
#[derive(Debug)]
pub struct Client {
    server_url: Url,
    token: Option<String>,
}

/// View of a [`Client`].
pub struct ClientModel {
    pub server_url: Seq<char>,
    pub token: Option<Seq<char>>,
}

impl View for Client {
    type V = ClientModel;

    closed spec fn view(&self) -> ClientModel {
        ClientModel { server_url: self.server_url@, token: option_view(self.token) }
    }
}

impl Clone for Client {
    fn clone(&self) -> (r: Self)
        ensures
            r@ == self@,
    {
        Client {
            server_url: self.server_url.clone(),
            token: match &self.token {
                Some(token) => Some(token.clone()),
                None => None,
            },
        }
    }
}

/// The URL of an endpoint: the group's segment below the directory that the
/// server URL names, and the path, without its leading slashes, below that.
///
/// A path of the server URL is kept whole, with or without a slash at its end,
/// so that a server below `/vault` has its endpoints below `/vault/api/`. A
/// query or a fragment of the server URL does not count. A server URL that is
/// not made of segments has no endpoints. A path that kept a leading slash
/// would start over at the root of the host and lose the segment.
pub open spec fn endpoint(server: Seq<char>, path: Seq<char>, prefix: ApiPrefix) -> Result<
    Seq<char>,
    Seq<char>,
> {
    match url_joined(directory(server), prefix.segment()) {
        Ok(base) => url_joined(base, without_leading(path, '/')),
        Err(error) => Err(error),
    }
}

/// The Authorization header for a token.
pub open spec fn bearer(token: Option<Seq<char>>) -> Option<Seq<char>> {
    match token {
        Some(token) => Some("Bearer "@ + token),
        None => None,
    }
}

impl Client {
    /// A client without a token.
    pub fn new(server_url: Url) -> (r: Self)
        ensures
            r@ == (ClientModel { server_url: server_url@, token: None }),
    {
        Client { server_url, token: None }
    }

    /// This client with the given bearer token.
    pub fn with_token(self, token: String) -> (r: Self)
        ensures
            r@ == (ClientModel { server_url: self@.server_url, token: Some(token@) }),
    {
        Client { server_url: self.server_url, token: Some(token) }
    }

    /// The value of the Authorization header; `None` without a token, and the
    /// header is then left out.
    pub fn auth_header(&self) -> (r: Option<String>)
        ensures
            option_view(r) == bearer(self@.token),
    {
        match &self.token {
            Some(token) => Some("Bearer ".to_owned().concat(token.as_str())),
            None => None,
        }
    }

    /// The URL of the endpoint `path` of the group `prefix`. For a web server
    /// and a plain path it is the server's directory, the group's segment and
    /// the path without its leading slashes, one after the other.
    pub fn url(&self, path: &str, prefix: ApiPrefix) -> (r: Result<Url, String>)
        ensures
            result_view(r) == endpoint(self@.server_url, path@, prefix),
            web_directory(directory(self@.server_url)) && plain(path@) ==> (r matches Ok(url)
                && url@ == directory(self@.server_url) + prefix.segment() + without_leading(
                path@,
                '/',
            )),
    {
        proof {
            segments_are_plain();
            without_leading_is_plain(path@);
        }
        let segment = match prefix {
            ApiPrefix::Api => "api/",
            ApiPrefix::Identity => "identity/",
        };
        match self.server_url.join_below(segment) {
            Ok(base) => {
                proof {
                    if web_directory(directory(self@.server_url)) {
                        plain_directory_is_a_directory(
                            directory(self@.server_url),
                            prefix.segment(),
                        );
                    }
                }
                base.join(trim_leading(path, '/'))
            },
            Err(error) => Err(error),
        }
    }
}

// ---------------------------------------------------------------------
// Errors
// ---------------------------------------------------------------------

/// The standard reason phrase of a status code.
pub uninterp spec fn canonical_reason(status: u16) -> Option<Seq<char>>;

/// `reqwest::StatusCode::canonical_reason`, on the code that `from_u16` makes
/// of the number. Trusted: the phrase is named; there is none for a number
/// that is no status code.
#[verifier::external_body]
fn reason_phrase(status: u16) -> (r: Option<String>)
    ensures
        option_view(r) == canonical_reason(status),
{
    let status = reqwest::StatusCode::from_u16(status).ok()?;
    status.canonical_reason().map(str::to_owned)
}

/// The codes that stand for success.
pub open spec fn success(status: u16) -> bool {
    200 <= status < 300
}

/// Whether a status code stands for success.
pub fn is_success(status: u16) -> (r: bool)
    ensures
        r == success(status),
{
    200 <= status && status < 300
}

/// A failed request.
#[derive(Debug, PartialEq, Eq)]
pub enum ApiError {
    Unauthorized { message: String },
    Forbidden { message: String },
    RateLimited { message: String },
    ServerError { message: String },
    Other { status: u16, message: String },
    Network(String),
    UrlParse(String),
}

/// View of an [`ApiError`].
pub enum ApiErrorModel {
    Unauthorized { message: Seq<char> },
    Forbidden { message: Seq<char> },
    RateLimited { message: Seq<char> },
    ServerError { message: Seq<char> },
    Other { status: u16, message: Seq<char> },
    Network(Seq<char>),
    UrlParse(Seq<char>),
}

impl View for ApiError {
    type V = ApiErrorModel;

    open spec fn view(&self) -> ApiErrorModel {
        match self {
            ApiError::Unauthorized { message } => ApiErrorModel::Unauthorized {
                message: message@,
            },
            ApiError::Forbidden { message } => ApiErrorModel::Forbidden { message: message@ },
            ApiError::RateLimited { message } => ApiErrorModel::RateLimited { message: message@ },
            ApiError::ServerError { message } => ApiErrorModel::ServerError { message: message@ },
            ApiError::Other { status, message } => ApiErrorModel::Other {
                status: *status,
                message: message@,
            },
            ApiError::Network(text) => ApiErrorModel::Network(text@),
            ApiError::UrlParse(text) => ApiErrorModel::UrlParse(text@),
        }
    }
}

/// A status code with its reason phrase, as it is shown.
pub open spec fn status_text(status: u16) -> Seq<char> {
    decimal(status as nat) + " "@ + match canonical_reason(status) {
        Some(reason) => reason,
        None => "<unknown status code>"@,
    }
}

impl ApiErrorModel {
    /// The message that goes with the error.
    pub open spec fn message_text(self) -> Seq<char> {
        match self {
            ApiErrorModel::Unauthorized { message } => "unauthorized: "@ + message,
            ApiErrorModel::Forbidden { message } => "forbidden: "@ + message,
            ApiErrorModel::RateLimited { message } => "rate limited: "@ + message,
            ApiErrorModel::ServerError { message } => "server error: "@ + message,
            ApiErrorModel::Other { status, message } => "API error "@ + status_text(status) + ": "@
                + message,
            ApiErrorModel::Network(text) => "network error: "@ + text,
            ApiErrorModel::UrlParse(text) => "URL parse error: "@ + text,
        }
    }
}

/// The error that a status code stands for; `None` for success.
pub open spec fn status_error(status: u16) -> Option<ApiErrorModel> {
    status_error_with(status, canonical_reason(status))
}

/// The error that a status code with this reason phrase stands for; `None`
/// for success.
pub open spec fn status_error_with(status: u16, reason: Option<Seq<char>>) -> Option<
    ApiErrorModel,
> {
    let message = match reason {
        Some(reason) => reason,
        None => "unknown error"@,
    };
    if success(status) {
        None
    } else if status == 401 {
        Some(ApiErrorModel::Unauthorized { message })
    } else if status == 403 {
        Some(ApiErrorModel::Forbidden { message })
    } else if status == 429 {
        Some(ApiErrorModel::RateLimited { message })
    } else if 500 <= status <= 599 {
        Some(ApiErrorModel::ServerError { message })
    } else {
        Some(ApiErrorModel::Other { status, message })
    }
}

impl ApiError {
    pub fn message(&self) -> (r: String)
        ensures
            r@ == self@.message_text(),
    {
        match self {
            ApiError::Unauthorized { message } => {
                "unauthorized: ".to_owned().concat(message.as_str())
            },
            ApiError::Forbidden { message } => "forbidden: ".to_owned().concat(message.as_str()),
            ApiError::RateLimited { message } => {
                "rate limited: ".to_owned().concat(message.as_str())
            },
            ApiError::ServerError { message } => {
                "server error: ".to_owned().concat(message.as_str())
            },
            ApiError::Other { status, message } => {
                let mut text = "API error ".to_owned();
                let mut shown = decimal_text(*status as u64);
                shown.append(" ");
                match reason_phrase(*status) {
                    Some(reason) => shown.append(reason.as_str()),
                    None => shown.append("<unknown status code>"),
                }
                text.append(shown.as_str());
                text.append(": ");
                text.append(message.as_str());
                text
            },
            ApiError::Network(text) => "network error: ".to_owned().concat(text.as_str()),
            ApiError::UrlParse(text) => "URL parse error: ".to_owned().concat(text.as_str()),
        }
    }

    /// The error that a reply with this status code stands for, with the
    /// reason phrase of the code as its message; `None` for success.
    pub fn from_response(status: u16) -> (r: Option<Self>)
        ensures
            option_view(r) == status_error(status),
    {
        Self::from_status(status, reason_phrase(status))
    }

    /// The error that a status code with this reason phrase stands for;
    /// `None` for success.
    pub fn from_status(status: u16, reason: Option<String>) -> (r: Option<Self>)
        ensures
            option_view(r) == status_error_with(status, option_view(reason)),
    {
        if is_success(status) {
            return None;
        }
        let message = match reason {
            Some(reason) => reason,
            None => "unknown error".to_owned(),
        };
        if status == 401 {
            Some(ApiError::Unauthorized { message })
        } else if status == 403 {
            Some(ApiError::Forbidden { message })
        } else if status == 429 {
            Some(ApiError::RateLimited { message })
        } else if 500 <= status && status <= 599 {
            Some(ApiError::ServerError { message })
        } else {
            Some(ApiError::Other { status, message })
        }
    }
}

// ---------------------------------------------------------------------
// Laws
// ---------------------------------------------------------------------

/// The segments are plain directories.
proof fn segments_are_plain()
    ensures
        forall|prefix: ApiPrefix|
            plain_below(#[trigger] prefix.segment()) && prefix.segment().len() > 0
                && prefix.segment().last() == '/',
{
    reveal_strlit("api/");
    reveal_strlit("identity/");
}

/// A plain directory below a web directory is one, where it is in normal form.
proof fn plain_directory_is_a_directory(base: Seq<char>, segment: Seq<char>)
    requires
        web_directory(base),
        plain(segment),
        segment.len() > 0,
        segment.last() == '/',
        normal_form(base + segment),
    ensures
        web_directory(base + segment),
{
    let whole = base + segment;
    if "https://"@.is_prefix_of(base) {
        assert("https://"@ =~= whole.subrange(0, "https://"@.len() as int)) by {
            assert("https://"@ == base.subrange(0, "https://"@.len() as int));
        }
    } else {
        assert("http://"@ =~= whole.subrange(0, "http://"@.len() as int)) by {
            assert("http://"@ == base.subrange(0, "http://"@.len() as int));
        }
    }
    assert forall|c: char| (c == '?' || c == '#') implies !whole.contains(c) by {
        if whole.contains(c) {
            let i = choose|i: int| 0 <= i < whole.len() && whole[i] == c;
            if i < base.len() {
                assert(base[i] == c);
            } else {
                assert(plain_char(segment[i - base.len()]));
            }
        }
    }
}

/// A plain path without its leading slashes can be appended.
proof fn without_leading_is_plain(text: Seq<char>)
    ensures
        plain(text) ==> plain_below(without_leading(text, '/')),
    decreases text.len(),
{
    if text.len() > 0 && text[0] == '/' {
        without_leading_is_plain(text.drop_first());
        if plain(text) {
            assert forall|i: int| 0 <= i < text.drop_first().len() implies plain_char(
                #[trigger] text.drop_first()[i],
            ) by {
                assert(plain_char(text[i + 1]));
            }
        }
    }
}

/// A slash at the end of the server URL makes no difference to an endpoint,
/// where the URL is made of segments.
pub proof fn trailing_slash_does_not_matter(server: Seq<char>, path: Seq<char>, prefix: ApiPrefix)
    requires
        !(server.len() > 0 && server.last() == '/'),
        hierarchical(bare(server)),
    ensures
        endpoint(server, path, prefix) == endpoint(server.push('/'), path, prefix),
{
    until_of_push(server, '/', '#');
    let kept = until(server, '#');
    if kept == server {
        until_of_push(server, '/', '?');
        if bare(server) == server {
            first_at_is_first(server, ':');
            first_at_is(server.push('/'), ':', first_at(server, ':'));
        }
    }
}

/// Adding another character at the end changes what stands before the first
/// `c` only where there is no `c`.
proof fn until_of_push(s: Seq<char>, d: char, c: char)
    requires
        d != c,
    ensures
        until(s, c) != s ==> until(s.push(d), c) == until(s, c),
        until(s, c) == s ==> until(s.push(d), c) == s.push(d),
{
    first_at_is_first(s, c);
    let at = first_at(s, c);
    if at < s.len() {
        first_at_is(s.push(d), c, at);
        assert(s.push(d).take(at as int) =~= s.take(at as int));
    } else {
        assert(s.take(at as int) =~= s);
        first_at_is(s.push(d), c, s.push(d).len());
        assert(s.push(d).take(s.push(d).len() as int) =~= s.push(d));
    }
}

/// A query or a fragment of the server URL makes no difference to an endpoint.
pub proof fn query_does_not_matter(
    server: Seq<char>,
    tail: Seq<char>,
    path: Seq<char>,
    prefix: ApiPrefix,
)
    requires
        !server.contains('?'),
        !server.contains('#'),
        tail.len() > 0,
        tail[0] == '?' || tail[0] == '#',
    ensures
        endpoint(server + tail, path, prefix) == endpoint(server, path, prefix),
{
    let whole = server + tail;
    let before = until(whole, '#');
    first_at_is_first(whole, '#');
    let end = first_at(whole, '#') as int;
    assert(end >= server.len()) by {
        if end < server.len() {
            assert(server[end] == '#');
        }
    }
    assert forall|j: int| 0 <= j < server.len() implies before[j] != '?' by {
        assert(before[j] == server[j]);
    }
    if end > server.len() {
        assert(tail[0] != '#') by {
            assert(whole[server.len() as int] != '#');
        }
        assert(before[server.len() as int] == '?');
    }
    first_at_is(before, '?', server.len());
    assert(until(before, '?') =~= server);
    assert forall|j: int| 0 <= j < server.len() implies server[j] != '#' && server[j] != '?' by {
        assert(server.contains(server[j]));
    }
    first_at_is(server, '#', server.len());
    assert(until(server, '#') =~= server);
    first_at_is(server, '?', server.len());
    assert(until(server, '?') =~= server);
}

/// Leading slashes make no difference to an endpoint.
pub proof fn leading_slashes_do_not_matter(
    server: Seq<char>,
    slashes: nat,
    path: Seq<char>,
    prefix: ApiPrefix,
)
    ensures
        endpoint(server, Seq::new(slashes, |i: int| '/') + path, prefix) == endpoint(
            server,
            path,
            prefix,
        ),
    decreases slashes,
{
    let longer = Seq::new(slashes, |i: int| '/') + path;
    if slashes == 0 {
        assert(longer =~= path);
    } else {
        let shorter = Seq::new((slashes - 1) as nat, |i: int| '/') + path;
        assert(longer.drop_first() =~= shorter);
        leading_slashes_do_not_matter(server, (slashes - 1) as nat, path, prefix);
        leading_slash_is_stripped(longer);
    }
}

proof fn leading_slash_is_stripped(path: Seq<char>)
    requires
        path.len() > 0,
        path[0] == '/',
    ensures
        without_leading(path, '/') == without_leading(path.drop_first(), '/'),
{
}

/// A request has failed exactly when its status code is no success.
pub proof fn failure_is_the_lack_of_success(status: u16)
    ensures
        status_error(status) is None <==> success(status),
{
}

/// The two groups of endpoints stand below `api/` and `identity/`.
pub proof fn groups_have_their_segments()
    ensures
        ApiPrefix::Api.segment() == "api/"@,
        ApiPrefix::Identity.segment() == "identity/"@,
{
}

/// An endpoint is reached in two steps from the directory of the server: the
/// segment of its group, and then its path, whatever slashes stand before that.
pub proof fn endpoints_are_two_steps_below_the_server(
    server: Seq<char>,
    slashes: nat,
    path: Seq<char>,
    prefix: ApiPrefix,
)
    requires
        path.len() > 0 ==> path[0] != '/',
    ensures
        match url_joined(directory(server), prefix.segment()) {
            Ok(base) => endpoint(server, Seq::new(slashes, |i: int| '/') + path, prefix)
                == url_joined(base, path),
            Err(error) => endpoint(server, Seq::new(slashes, |i: int| '/') + path, prefix) == Err::<
                Seq<char>,
                Seq<char>,
            >(error),
        },
{
    leading_slashes_do_not_matter(server, slashes, path, prefix);
    assert(without_leading(path, '/') == path);
}

/// The Authorization header is the token behind `Bearer `, and there is none
/// without a token.
pub proof fn the_header_carries_the_token(token: Seq<char>)
    ensures
        bearer(Some(token)) == Some("Bearer "@ + token),
        bearer(None) is None,
{
}

/// Success is exactly 200 to 299.
pub proof fn success_is_the_two_hundreds(status: u16)
    ensures
        success(status) <==> status / 100 == 2,
        status_error(status) is None <==> status / 100 == 2,
{
}

/// Each failing code has its case: 401, 403, 429 and 500 to 599 have one of
/// their own, every other is kept with its number. The message is the reason
/// phrase of the code, or that the error is unknown.
pub proof fn each_failing_code_has_its_case(status: u16)
    requires
        status / 100 != 2,
    ensures
        ({
            let message = match canonical_reason(status) {
                Some(reason) => reason,
                None => "unknown error"@,
            };
            let error = status_error(status)->Some_0;
            &&& status_error(status) is Some
            &&& status == 401 <==> error == (ApiErrorModel::Unauthorized { message })
            &&& status == 403 <==> error == (ApiErrorModel::Forbidden { message })
            &&& status == 429 <==> error == (ApiErrorModel::RateLimited { message })
            &&& status / 100 == 5 <==> error == (ApiErrorModel::ServerError { message })
            &&& status != 401 && status != 403 && status != 429 && status / 100 != 5 <==> error == (
            ApiErrorModel::Other { status, message })
        }),
{
}

/// The case of a code does not depend on its reason phrase, which is the
/// message and nothing else.
pub proof fn the_reason_is_the_message(status: u16, reason: Seq<char>)
    requires
        status / 100 != 2,
    ensures
        match status_error_with(status, Some(reason)) {
            Some(ApiErrorModel::Unauthorized { message }) => status == 401 && message == reason,
            Some(ApiErrorModel::Forbidden { message }) => status == 403 && message == reason,
            Some(ApiErrorModel::RateLimited { message }) => status == 429 && message == reason,
            Some(ApiErrorModel::ServerError { message }) => status / 100 == 5 && message == reason,
            Some(ApiErrorModel::Other { status: kept, message }) => kept == status && message
                == reason && status != 401 && status != 403 && status != 429 && status / 100 != 5,
            _ => false,
        },
        status_error_with(status, None) == status_error_with(status, Some("unknown error"@)),
{
}

/// What the user reads of a failed request.
pub proof fn api_messages(message: Seq<char>, status: u16)
    ensures
        (ApiErrorModel::Unauthorized { message }).message_text() == "unauthorized: "@ + message,
        (ApiErrorModel::Forbidden { message }).message_text() == "forbidden: "@ + message,
        (ApiErrorModel::RateLimited { message }).message_text() == "rate limited: "@ + message,
        (ApiErrorModel::ServerError { message }).message_text() == "server error: "@ + message,
        ApiErrorModel::Network(message).message_text() == "network error: "@ + message,
        ApiErrorModel::UrlParse(message).message_text() == "URL parse error: "@ + message,
        canonical_reason(status) matches Some(reason) ==> (ApiErrorModel::Other {
            status,
            message,
        }).message_text() == "API error "@ + (decimal(status as nat) + " "@ + reason) + ": "@
            + message,
        canonical_reason(status) is None ==> (ApiErrorModel::Other {
            status,
            message,
        }).message_text() == "API error "@ + (decimal(status as nat) + " "@
            + "<unknown status code>"@) + ": "@ + message,
{
}

} // verus!
