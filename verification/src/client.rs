//! The HTTP core: the fixed header set, the string to sign, the
//! authorization header, and the request as it is handed to the transport.

use vstd::prelude::*;
use vstd::string::StringExecFns;
use vstd::utf8::encode_utf8;
use reqwest::header::HeaderMap;
use crate::conf::opt_text;
use crate::conf::ClientOption;
use crate::conf::ClientOptionView;
use crate::digest::base64_char;
use crate::digest::content_md5;
use crate::digest::content_md5_text;
use crate::digest::sign;
use crate::digest::signature_text;
use crate::error::ClientError;
use crate::header::first_header;
use crate::header::has_header;
use crate::header::lemma_first_header_at;
use crate::header::lemma_first_header_none;
use crate::header::header_map_get;
use crate::header::header_map_insert;
use crate::header::header_map_new;
use crate::header::header_map_pairs;
use crate::header::is_header_value;
use crate::header::is_plain_name;
use crate::header::is_value;
use crate::header::is_visible;
use crate::header::value_text;
use crate::header::HeaderPair;
use crate::text::decimal;
use crate::text::decimal_text;
use crate::util::canonical_headers;
use crate::util::get_canonicalized_mq_headers;
use crate::util::lemma_canonical_headers_determined;
use crate::util::mq_filter;

verus! {

/// The date of the second `unix_seconds` after the start of 1970, UTC, in the
/// form `Mon, 01 Jan 2024 00:00:00 GMT`; `None` where the calendar does not
/// reach that far.
pub uninterp spec fn http_date(unix_seconds: i64) -> Option<Seq<char>>;

/// Whether a text is an absolute URL.
pub uninterp spec fn is_url(text: Seq<char>) -> bool;

/// `url::ParseError`, carried as it comes.
#[verifier::external_type_specification]
#[verifier::external_body]
pub struct ExUrlParseError(url::ParseError);

/// `DateTime::from_timestamp` and `DateTime::format` of chrono, with the
/// pattern `%a, %d %b %Y %H:%M:%S GMT`: the text is a function of the second
/// alone, and is made of visible ASCII.
#[verifier::external_body]
fn format_http_date(unix_seconds: i64) -> (r: Option<String>)
    ensures
        match r {
            Some(date) => http_date(unix_seconds) == Some(date@) && is_visible(date@),
            None => http_date(unix_seconds) is None,
        },
{
    match chrono::DateTime::from_timestamp(unix_seconds, 0) {
        Some(t) => Some(t.format("%a, %d %b %Y %H:%M:%S GMT").to_string()),
        None => None,
    }
}

/// `Url::parse`: whether the text parses is a function of the text alone.
#[verifier::external_body]
fn url_parse(text: &str) -> (r: Result<(), url::ParseError>)
    ensures
        r is Ok == is_url(text@),
{
    match url::Url::parse(text) {
        Ok(_) => Ok(()),
        Err(e) => Err(e),
    }
}

/// An HTTP method. The service is spoken to with the first three.
#[derive(Debug, Clone, Copy, PartialEq, Eq, Structural)]
pub enum Method {
    Get,
    Post,
    Delete,
    Put,
    Head,
    Options,
    Patch,
}

impl Method {
    /// The method's token, in upper case.
    pub open spec fn token(self) -> Seq<char> {
        match self {
            Method::Get => "GET"@,
            Method::Post => "POST"@,
            Method::Delete => "DELETE"@,
            Method::Put => "PUT"@,
            Method::Head => "HEAD"@,
            Method::Options => "OPTIONS"@,
            Method::Patch => "PATCH"@,
        }
    }

    /// Whether the HTTP core dispatches requests of this method.
    pub open spec fn supported(self) -> bool {
        self is Get || self is Post || self is Delete
    }

    /// The method's token, in upper case.
    pub fn as_str(&self) -> (r: &'static str)
        ensures
            r@ == self.token(),
    {
        match self {
            Method::Get => "GET",
            Method::Post => "POST",
            Method::Delete => "DELETE",
            Method::Put => "PUT",
            Method::Head => "HEAD",
            Method::Options => "OPTIONS",
            Method::Patch => "PATCH",
        }
    }

    /// Whether the HTTP core dispatches requests of this method.
    pub fn is_supported(&self) -> (r: bool)
        ensures
            r == self.supported(),
    {
        match self {
            Method::Get => true,
            Method::Post => true,
            Method::Delete => true,
            _ => false,
        }
    }
}

/// The text of the first header of this name, or the empty text.
pub open spec fn header_or_empty(pairs: Seq<HeaderPair>, name: Seq<char>) -> Seq<char> {
    match first_header(pairs, name) {
        Some(text) => text,
        None => Seq::empty(),
    }
}

/// The string that is signed: the method, the values of `Content-MD5`,
/// `Content-Type` and `Date`, each followed by a line feed, then the canonical
/// block of the service's own headers and, with nothing between, the resource.
pub open spec fn string_to_sign_text(
    method: Method,
    pairs: Seq<HeaderPair>,
    resource: Seq<char>,
) -> Seq<char> {
    method.token() + seq!['\n'] + header_or_empty(pairs, "content-md5"@) + seq!['\n']
        + header_or_empty(pairs, "content-type"@) + seq!['\n'] + header_or_empty(pairs, "date"@)
        + seq!['\n'] + canonical_headers(pairs) + resource
}

/// A body that is sent: an empty body counts as none.
pub open spec fn sent_body(body: Option<Seq<char>>) -> Option<Seq<char>> {
    match body {
        Some(b) => if b.len() == 0 {
            None
        } else {
            Some(b)
        },
        None => None,
    }
}

/// The headers that are set before the request is signed, in the order in
/// which they are set. `body` is the body that is sent.
pub open spec fn unsigned_headers(date: Seq<char>, body: Option<Seq<char>>) -> Seq<HeaderPair> {
    let fixed = seq![
        ("date"@, date),
        ("x-mq-version"@, "2015-06-06"@),
        ("content-type"@, "text/xml;charset=utf-8"@),
        ("user-agent"@, "mq-rust-sdk/1.0.4"@),
    ];
    match body {
        Some(b) => fixed.push(("content-length"@, decimal_text(encode_utf8(b).len()))).push(
            ("content-md5"@, content_md5_text(b)),
        ),
        None => fixed,
    }
}

/// The value of the `Authorization` header.
pub open spec fn authorization_text(access_key_id: Seq<char>, signature: Seq<char>) -> Seq<char> {
    "MQ "@ + access_key_id + seq![':'] + signature
}

/// All headers of a signed request, in the order in which they are set.
pub open spec fn signed_headers(
    unsigned: Seq<HeaderPair>,
    access_key_id: Seq<char>,
    signature: Seq<char>,
    security_token: Option<Seq<char>>,
) -> Seq<HeaderPair> {
    let with_auth = unsigned.push(
        ("authorization"@, value_text(authorization_text(access_key_id, signature))),
    );
    match security_token {
        Some(token) => with_auth.push(("security-token"@, value_text(token))),
        None => with_auth,
    }
}

/// Whether a configuration can issue requests: the access key id and secret
/// are not empty, and the id and the security token can stand in a header.
pub open spec fn usable_config(c: ClientOptionView) -> bool {
    &&& c.access_key_id.len() > 0
    &&& c.access_key_secret.len() > 0
    &&& is_header_value(c.access_key_id)
    &&& c.security_token matches Some(token) ==> is_header_value(token)
}

/// A request, signed and ready for the transport.
pub struct SignedRequest {
    pub method: Method,
    pub url: String,
    pub headers: HeaderMap,
    pub body: Option<String>,
}

/// A `SignedRequest` as the contracts see it.
pub struct SignedRequestView {
    pub method: Method,
    pub url: Seq<char>,
    pub headers: Seq<HeaderPair>,
    pub body: Option<Seq<char>>,
}

impl View for SignedRequest {
    type V = SignedRequestView;

    open spec fn view(&self) -> SignedRequestView {
        SignedRequestView {
            method: self.method,
            url: self.url@,
            headers: header_map_pairs(self.headers),
            body: opt_text(self.body),
        }
    }
}

/// What `Client::request` returns for a configuration, a method, a resource,
/// a body and a point in time. The checks come in this order: the
/// configuration, the date, the signature, the method, the URL.
pub open spec fn request_outcome(
    c: ClientOptionView,
    method: Method,
    resource: Seq<char>,
    body: Option<Seq<char>>,
    unix_seconds: i64,
) -> Result<SignedRequestView, ClientError> {
    if !usable_config(c) {
        Err(ClientError::Config)
    } else {
        match http_date(unix_seconds) {
            None => Err(ClientError::Unknown),
            Some(date) => {
                let unsigned = unsigned_headers(date, sent_body(body));
                let to_sign = string_to_sign_text(method, unsigned, resource);
                match signature_text(c.access_key_secret, to_sign) {
                    None => Err(ClientError::Signature),
                    Some(signature) => if !method.supported() {
                        Err(ClientError::UnsupportedMethod)
                    } else if !is_url(c.endpoint + resource) {
                        Err(ClientError::Url)
                    } else {
                        Ok(
                            SignedRequestView {
                                method,
                                url: c.endpoint + resource,
                                headers: signed_headers(
                                    unsigned,
                                    c.access_key_id,
                                    signature,
                                    c.security_token,
                                ),
                                body: sent_body(body),
                            },
                        )
                    },
                }
            },
        }
    }
}

/// The string to sign depends on the headers only through the values of
/// `Content-MD5`, `Content-Type` and `Date` and through the service's own
/// headers, whatever their order: two header sets that agree on these give
/// the same string to sign and, under one secret, the same signature.
pub proof fn lemma_signature_determined(
    method: Method,
    a: Seq<HeaderPair>,
    b: Seq<HeaderPair>,
    resource: Seq<char>,
    secret: Seq<char>,
)
    requires
        first_header(a, "content-md5"@) == first_header(b, "content-md5"@),
        first_header(a, "content-type"@) == first_header(b, "content-type"@),
        first_header(a, "date"@) == first_header(b, "date"@),
        a.filter(mq_filter()).to_multiset() == b.filter(mq_filter()).to_multiset(),
    ensures
        string_to_sign_text(method, a, resource) == string_to_sign_text(method, b, resource),
        signature_text(secret, string_to_sign_text(method, a, resource)) == signature_text(
            secret,
            string_to_sign_text(method, b, resource),
        ),
{
    lemma_canonical_headers_determined(a, b);
}

proof fn lemma_decimal_visible(n: nat)
    ensures
        is_visible(decimal_text(n)),
    decreases n,
{
    if n >= 10 {
        lemma_decimal_visible(n / 10);
    }
}

proof fn lemma_base64_visible(text: Seq<char>)
    requires
        forall|i: int| 0 <= i < text.len() ==> base64_char(#[trigger] text[i]),
    ensures
        is_visible(text),
{
}

proof fn lemma_visible_is_value(text: Seq<char>)
    requires
        is_visible(text),
    ensures
        is_header_value(text),
        value_text(text) == text,
{
}

proof fn lemma_header_names()
    ensures
        is_plain_name("date"@),
        is_plain_name("x-mq-version"@),
        is_plain_name("content-type"@),
        is_plain_name("user-agent"@),
        is_plain_name("content-length"@),
        is_plain_name("content-md5"@),
        is_plain_name("authorization"@),
        is_plain_name("security-token"@),
        "date"@.len() == 4,
        "x-mq-version"@.len() == 12 && "x-mq-version"@[0] == 'x',
        "content-type"@.len() == 12 && "content-type"@[0] == 'c' && "content-type"@[8] == 't',
        "user-agent"@.len() == 10,
        "content-length"@.len() == 14 && "content-length"@[0] == 'c' && "content-length"@[8]
            == 'l',
        "content-md5"@.len() == 11,
        "authorization"@.len() == 13,
        "security-token"@.len() == 14 && "security-token"@[0] == 's',
{
    reveal_strlit("date");
    reveal_strlit("x-mq-version");
    reveal_strlit("content-type");
    reveal_strlit("user-agent");
    reveal_strlit("content-length");
    reveal_strlit("content-md5");
    reveal_strlit("authorization");
    reveal_strlit("security-token");
}

proof fn lemma_fixed_values()
    ensures
        is_visible("2015-06-06"@),
        is_visible("text/xml;charset=utf-8"@),
        is_visible("mq-rust-sdk/1.0.4"@),
        is_visible("MQ "@),
{
    reveal_strlit("2015-06-06");
    reveal_strlit("text/xml;charset=utf-8");
    reveal_strlit("mq-rust-sdk/1.0.4");
    reveal_strlit("MQ ");
}

/// A request carries a `Content-MD5` header exactly where it carries a body,
/// and an empty body is not carried: with a body that is not empty the
/// header holds the base64 of the hexadecimal MD5 digest of that body; with
/// an empty body, or none, there is neither body nor header.
pub proof fn lemma_content_md5_discipline(
    c: ClientOptionView,
    method: Method,
    resource: Seq<char>,
    body: Option<Seq<char>>,
    unix_seconds: i64,
    request: SignedRequestView,
)
    requires
        request_outcome(c, method, resource, body, unix_seconds) == Ok::<
            SignedRequestView,
            ClientError,
        >(request),
    ensures
        match body {
            Some(b) => if b.len() > 0 {
                request.body == Some(b) && first_header(request.headers, "content-md5"@) == Some(
                    content_md5_text(b),
                )
            } else {
                request.body is None && first_header(request.headers, "content-md5"@) is None
            },
            None => request.body is None && first_header(request.headers, "content-md5"@)
                is None,
        },
{
    lemma_header_names();
    let date = http_date(unix_seconds)->0;
    let unsigned = unsigned_headers(date, sent_body(body));
    let to_sign = string_to_sign_text(method, unsigned, resource);
    let signature = signature_text(c.access_key_secret, to_sign)->0;
    let headers = signed_headers(unsigned, c.access_key_id, signature, c.security_token);
    match sent_body(body) {
        Some(b) => {
            lemma_first_header_at(headers, "content-md5"@, 5);
        },
        None => {
            lemma_first_header_none(headers, "content-md5"@);
        },
    }
}

/// The HTTP core of a producer or a consumer: it holds the credentials and
/// turns a method, a resource and a body into a signed request.
#[derive(Debug)]
pub struct Client {
    endpoint: String,
    access_key_id: String,
    access_key_secret: String,
    security_token: Option<String>,
    namespace: Option<String>,
}

impl View for Client {
    type V = ClientOptionView;

    closed spec fn view(&self) -> ClientOptionView {
        ClientOptionView {
            endpoint: self.endpoint@,
            access_key_id: self.access_key_id@,
            access_key_secret: self.access_key_secret@,
            security_token: opt_text(self.security_token),
            namespace: opt_text(self.namespace),
        }
    }
}

impl Client {
    /// A client with the configuration of `option`.
    pub fn new(option: ClientOption) -> (r: Self)
        ensures
            r@ == option@,
    {
        Client {
            endpoint: option.endpoint,
            access_key_id: option.access_key_id,
            access_key_secret: option.access_key_secret,
            security_token: option.security_token,
            namespace: option.namespace,
        }
    }

    /// The security token, where one is set.
    pub fn get_security_token(&self) -> (r: Option<&str>)
        ensures
            match r {
                Some(t) => self@.security_token == Some(t@),
                None => self@.security_token is None,
            },
    {
        match &self.security_token {
            Some(token) => Some(token.as_str()),
            None => None,
        }
    }

    /// The namespace, where one is set.
    pub fn get_namespace(&self) -> (r: Option<&str>)
        ensures
            match r {
                Some(t) => self@.namespace == Some(t@),
                None => self@.namespace is None,
            },
    {
        match &self.namespace {
            Some(namespace) => Some(namespace.as_str()),
            None => None,
        }
    }

    /// The string that is signed for a request with these headers.
    pub fn string_to_sign(method: Method, headers: &HeaderMap, resource: &str) -> (r: String)
        ensures
            r@ == string_to_sign_text(method, header_map_pairs(*headers), resource@),
    {
        proof {
            lemma_header_names();
            reveal_strlit("\n");
        }
        let canonical = get_canonicalized_mq_headers(headers);
        let md5 = header_map_get(headers, "content-md5");
        let content_type = header_map_get(headers, "content-type");
        let date = header_map_get(headers, "date");
        let mut out = String::new();
        out.append(method.as_str());
        out.append("\n");
        match &md5 {
            Some(text) => out.append(text.as_str()),
            None => {},
        }
        out.append("\n");
        match &content_type {
            Some(text) => out.append(text.as_str()),
            None => {},
        }
        out.append("\n");
        match &date {
            Some(text) => out.append(text.as_str()),
            None => {},
        }
        out.append("\n");
        out.append(canonical.as_str());
        out.append(resource);
        out
    }

    /// The signature of a request: the base64 of the HMAC-SHA1 code of the
    /// string to sign under the access key secret.
    pub fn signature(&self, method: Method, headers: &HeaderMap, resource: &str) -> (r: Result<
        String,
        ClientError,
    >)
        ensures
            match r {
                Ok(s) => signature_text(
                    self@.access_key_secret,
                    string_to_sign_text(method, header_map_pairs(*headers), resource@),
                ) == Some(s@),
                Err(e) => e == ClientError::Signature && signature_text(
                    self@.access_key_secret,
                    string_to_sign_text(method, header_map_pairs(*headers), resource@),
                ) is None,
            },
            r matches Ok(s) ==> forall|i: int| 0 <= i < s@.len() ==> base64_char(#[trigger] s@[i]),
    {
        let to_sign = Self::string_to_sign(method, headers, resource);
        match sign(self.access_key_secret.as_str(), to_sign.as_str()) {
            Some(s) => Ok(s),
            None => Err(ClientError::Signature),
        }
    }

    /// Whether the configuration can issue requests.
    pub fn is_usable(&self) -> (r: bool)
        ensures
            r == usable_config(self@),
    {
        if self.access_key_id.as_str().is_empty() || self.access_key_secret.as_str().is_empty() {
            return false;
        }
        if !is_value(self.access_key_id.as_str()) {
            return false;
        }
        match &self.security_token {
            Some(token) => is_value(token.as_str()),
            None => true,
        }
    }

    /// Builds and signs a request for the point in time `unix_seconds`, in
    /// seconds since the start of 1970. Nothing is sent.
    pub fn request(
        &self,
        method: Method,
        resource: &str,
        body: Option<String>,
        unix_seconds: i64,
    ) -> (r: Result<SignedRequest, ClientError>)
        ensures
            match r {
                Ok(request) => request_outcome(
                    self@,
                    method,
                    resource@,
                    opt_text(body),
                    unix_seconds,
                ) == Ok::<SignedRequestView, ClientError>(request@),
                Err(e) => request_outcome(self@, method, resource@, opt_text(body), unix_seconds)
                    == Err::<SignedRequestView, ClientError>(e),
            },
    {
        if !self.is_usable() {
            return Err(ClientError::Config);
        }
        let date = match format_http_date(unix_seconds) {
            Some(date) => date,
            None => {
                return Err(ClientError::Unknown);
            },
        };
        let body = match body {
            Some(b) => if b.as_str().is_empty() {
                None
            } else {
                Some(b)
            },
            None => None,
        };
        proof {
            lemma_header_names();
            lemma_fixed_values();
            lemma_visible_is_value(date@);
            lemma_visible_is_value("2015-06-06"@);
            lemma_visible_is_value("text/xml;charset=utf-8"@);
            lemma_visible_is_value("mq-rust-sdk/1.0.4"@);
        }
        let mut headers = header_map_new();
        header_map_insert(&mut headers, "date", date.as_str());
        header_map_insert(&mut headers, "x-mq-version", "2015-06-06");
        header_map_insert(&mut headers, "content-type", "text/xml;charset=utf-8");
        header_map_insert(&mut headers, "user-agent", "mq-rust-sdk/1.0.4");
        match &body {
            Some(b) => {
                let length = decimal(b.as_str().as_bytes().len() as u64);
                let md5 = content_md5(b.as_str());
                proof {
                    lemma_decimal_visible(encode_utf8(b@).len());
                    lemma_visible_is_value(length@);
                    lemma_base64_visible(md5@);
                    lemma_visible_is_value(md5@);
                }
                header_map_insert(&mut headers, "content-length", length.as_str());
                header_map_insert(&mut headers, "content-md5", md5.as_str());
            },
            None => {},
        }
        let ghost unsigned = header_map_pairs(headers);
        assert(unsigned =~= unsigned_headers(date@, opt_text(body)));
        let signature = match self.signature(method, &headers, resource) {
            Ok(s) => s,
            Err(e) => {
                return Err(e);
            },
        };
        let mut authorization = String::new();
        authorization.append("MQ ");
        authorization.append(self.access_key_id.as_str());
        authorization.append(":");
        authorization.append(signature.as_str());
        proof {
            reveal_strlit(":");
            assert(":"@ =~= seq![':']);
            lemma_base64_visible(signature@);
            lemma_visible_is_value(signature@);
            lemma_visible_is_value("MQ "@);
        }
        header_map_insert(&mut headers, "authorization", authorization.as_str());
        match &self.security_token {
            Some(token) => {
                header_map_insert(&mut headers, "security-token", token.as_str());
            },
            None => {},
        }
        assert(header_map_pairs(headers) =~= signed_headers(
            unsigned,
            self@.access_key_id,
            signature@,
            self@.security_token,
        ));
        if !method.is_supported() {
            return Err(ClientError::UnsupportedMethod);
        }
        let mut url = String::new();
        url.append(self.endpoint.as_str());
        url.append(resource);
        match url_parse(url.as_str()) {
            Ok(_) => {},
            Err(_) => {
                return Err(ClientError::Url);
            },
        }
        Ok(SignedRequest { method, url, headers, body })
    }

    /// A signed GET request for `resource`.
    pub fn get(&self, resource: &str, unix_seconds: i64) -> (r: Result<SignedRequest, ClientError>)
        ensures
            match r {
                Ok(request) => request_outcome(self@, Method::Get, resource@, None, unix_seconds)
                    == Ok::<SignedRequestView, ClientError>(request@),
                Err(e) => request_outcome(self@, Method::Get, resource@, None, unix_seconds)
                    == Err::<SignedRequestView, ClientError>(e),
            },
    {
        self.request(Method::Get, resource, None, unix_seconds)
    }

    /// A signed POST request for `resource` with `body`.
    pub fn post(&self, resource: &str, body: String, unix_seconds: i64) -> (r: Result<
        SignedRequest,
        ClientError,
    >)
        ensures
            match r {
                Ok(request) => request_outcome(
                    self@,
                    Method::Post,
                    resource@,
                    Some(body@),
                    unix_seconds,
                ) == Ok::<SignedRequestView, ClientError>(request@),
                Err(e) => request_outcome(self@, Method::Post, resource@, Some(body@), unix_seconds)
                    == Err::<SignedRequestView, ClientError>(e),
            },
    {
        self.request(Method::Post, resource, Some(body), unix_seconds)
    }

    /// A signed DELETE request for `resource` with `body`.
    pub fn delete(&self, resource: &str, body: String, unix_seconds: i64) -> (r: Result<
        SignedRequest,
        ClientError,
    >)
        ensures
            match r {
                Ok(request) => request_outcome(
                    self@,
                    Method::Delete,
                    resource@,
                    Some(body@),
                    unix_seconds,
                ) == Ok::<SignedRequestView, ClientError>(request@),
                Err(e) => request_outcome(
                    self@,
                    Method::Delete,
                    resource@,
                    Some(body@),
                    unix_seconds,
                ) == Err::<SignedRequestView, ClientError>(e),
            },
    {
        self.request(Method::Delete, resource, Some(body), unix_seconds)
    }
}

} // verus!
