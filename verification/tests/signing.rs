use mq_http_rust_sdk::client::{Client, Method};
use mq_http_rust_sdk::conf::ClientOption;
use mq_http_rust_sdk::digest::{content_md5, lower_hex, sign};
use mq_http_rust_sdk::error::ClientError;
use mq_http_rust_sdk::util::get_canonicalized_mq_headers;
use reqwest::header::{HeaderMap, HeaderName, HeaderValue};

const DATE: &str = "Mon, 01 Jan 2024 00:00:00 GMT";
const RESOURCE: &str = "/topics/t/messages?consumer=g&numOfMessages=1&waitSeconds=1";

fn client(id: &str, secret: &str) -> Client {
    let mut option = ClientOption::default();
    option.set_endpoint("http://mq.example.com");
    option.set_access_key_id(id);
    option.set_access_key_secret(secret);
    Client::new(option)
}

fn headers(pairs: &[(&'static str, &str)]) -> HeaderMap {
    let mut map = HeaderMap::new();
    for (name, value) in pairs {
        map.append(HeaderName::from_static(name), HeaderValue::from_str(value).unwrap());
    }
    map
}

fn header<'a>(map: &'a HeaderMap, name: &str) -> Option<&'a str> {
    map.get(name).map(|v| v.to_str().unwrap())
}

#[test]
fn string_to_sign_without_mq_headers() {
    let map = headers(&[("date", DATE)]);
    let to_sign = Client::string_to_sign(Method::Get, &map, RESOURCE);
    assert_eq!(
        to_sign,
        "GET\n\n\nMon, 01 Jan 2024 00:00:00 GMT\n/topics/t/messages?consumer=g&numOfMessages=1&waitSeconds=1"
    );
}

#[test]
fn string_to_sign_with_version_header() {
    let map = headers(&[("date", DATE), ("x-mq-version", "2015-06-06")]);
    let to_sign = Client::string_to_sign(Method::Get, &map, RESOURCE);
    assert_eq!(
        to_sign,
        "GET\n\n\nMon, 01 Jan 2024 00:00:00 GMT\nx-mq-version:2015-06-06\n/topics/t/messages?consumer=g&numOfMessages=1&waitSeconds=1"
    );
}

#[test]
fn string_to_sign_holds_md5_and_content_type() {
    let map = headers(&[
        ("content-type", "text/xml;charset=utf-8"),
        ("content-md5", "abc="),
        ("date", DATE),
        ("user-agent", "ignored"),
    ]);
    let to_sign = Client::string_to_sign(Method::Delete, &map, "/r");
    assert_eq!(to_sign, "DELETE\nabc=\ntext/xml;charset=utf-8\nMon, 01 Jan 2024 00:00:00 GMT\n/r");
}

#[test]
fn string_to_sign_of_empty_headers() {
    let to_sign = Client::string_to_sign(Method::Post, &HeaderMap::new(), "");
    assert_eq!(to_sign, "POST\n\n\n\n");
}

#[test]
fn signature_of_known_request() {
    let map = headers(&[("date", DATE)]);
    let signature = client("id", "secret").signature(Method::Get, &map, RESOURCE);
    assert_eq!(signature, Ok("+rzQHLbaQIrxYBA80S7Nm7PwLuw=".to_string()));
}

#[test]
fn signature_with_version_header() {
    let map = headers(&[("date", DATE), ("x-mq-version", "2015-06-06")]);
    let signature = client("id", "secret").signature(Method::Get, &map, RESOURCE);
    assert_eq!(signature, Ok("YhHpdPpHLF131/LMTuF0iQnCaIU=".to_string()));
}

#[test]
fn signature_is_the_same_on_every_call() {
    let map = headers(&[("date", DATE), ("x-mq-version", "2015-06-06")]);
    let c = client("id", "secret");
    let first = c.signature(Method::Get, &map, RESOURCE);
    let second = c.signature(Method::Get, &map, RESOURCE);
    assert!(first.is_ok());
    assert_eq!(first, second);
}

#[test]
fn signature_ignores_insertion_order_of_mq_headers() {
    let forth = headers(&[("date", DATE), ("x-mq-a", "1"), ("x-mq-b", "2"), ("x-mq-c", "3")]);
    let back = headers(&[("x-mq-c", "3"), ("x-mq-b", "2"), ("date", DATE), ("x-mq-a", "1")]);
    let c = client("id", "secret");
    assert_eq!(
        Client::string_to_sign(Method::Get, &forth, "/r"),
        Client::string_to_sign(Method::Get, &back, "/r")
    );
    assert_eq!(c.signature(Method::Get, &forth, "/r"), c.signature(Method::Get, &back, "/r"));
}

#[test]
fn signature_depends_on_the_secret() {
    let map = headers(&[("date", DATE)]);
    let one = client("id", "secret").signature(Method::Get, &map, RESOURCE);
    let other = client("id", "secret2").signature(Method::Get, &map, RESOURCE);
    assert_ne!(one, other);
}

#[test]
fn sign_with_empty_key_gives_a_code() {
    assert_eq!(sign("", "abc"), Some("m0qRjzmNdNPjZ5cKujy+VOTStdk=".to_string()));
}

#[test]
fn canonical_headers_are_sorted_by_name() {
    let map = headers(&[
        ("x-mq-version", "2015-06-06"),
        ("date", DATE),
        ("x-mq-b", "two"),
        ("x-mq-a-long", "l"),
        ("x-mq-a", "one"),
        ("x-mqx", "not one of them"),
    ]);
    assert_eq!(
        get_canonicalized_mq_headers(&map),
        "x-mq-a:one\nx-mq-a-long:l\nx-mq-b:two\nx-mq-version:2015-06-06\n"
    );
}

#[test]
fn canonical_headers_of_one_name_are_sorted_by_value() {
    let map = headers(&[("x-mq-k", "b"), ("x-mq-k", "a"), ("x-mq-k", "ab")]);
    assert_eq!(get_canonicalized_mq_headers(&map), "x-mq-k:a\nx-mq-k:ab\nx-mq-k:b\n");
}

#[test]
fn canonical_headers_empty_without_mq_headers() {
    let map = headers(&[("date", DATE), ("content-type", "text/xml")]);
    assert_eq!(get_canonicalized_mq_headers(&map), "");
    assert_eq!(get_canonicalized_mq_headers(&HeaderMap::new()), "");
}

#[test]
fn canonical_headers_take_unreadable_value_as_empty() {
    let mut map = HeaderMap::new();
    map.insert(HeaderName::from_static("x-mq-bin"), HeaderValue::from_bytes(&[0xff, 0xfe]).unwrap());
    assert_eq!(get_canonicalized_mq_headers(&map), "x-mq-bin:\n");
}

#[test]
fn lower_hex_of_bytes() {
    assert_eq!(lower_hex(&[0x00, 0x0f, 0xa0, 0xff, 0x5d]), b"000fa0ff5d".to_vec());
    assert_eq!(lower_hex(&[]), Vec::<u8>::new());
}

#[test]
fn content_md5_is_base64_of_hex_digest() {
    assert_eq!(content_md5("hello"), "NWQ0MTQwMmFiYzRiMmE3NmI5NzE5ZDkxMTAxN2M1OTI=");
    assert_ne!(content_md5("hello"), "XUFAKrxLKna5cZ2REBfFkg==");
    assert_eq!(content_md5(""), "ZDQxZDhjZDk4ZjAwYjIwNGU5ODAwOTk4ZWNmODQyN2U=");
}

#[test]
fn get_request_has_fixed_headers_in_order() {
    let request = client("id", "secret").get(RESOURCE, 1704067200).unwrap();
    assert_eq!(request.method, Method::Get);
    assert_eq!(request.url, format!("http://mq.example.com{}", RESOURCE));
    assert_eq!(request.body, None);
    let names: Vec<&str> = request.headers.keys().map(|k| k.as_str()).collect();
    assert_eq!(names, vec!["date", "x-mq-version", "content-type", "user-agent", "authorization"]);
    assert_eq!(header(&request.headers, "date"), Some(DATE));
    assert_eq!(header(&request.headers, "x-mq-version"), Some("2015-06-06"));
    assert_eq!(header(&request.headers, "content-type"), Some("text/xml;charset=utf-8"));
    assert_eq!(header(&request.headers, "user-agent"), Some("mq-rust-sdk/1.0.4"));
    assert_eq!(header(&request.headers, "authorization"), Some("MQ id:f8zwLmrxHdqd163l9X6n0Ms/oq8="));
}

#[test]
fn post_request_has_length_and_md5() {
    let request =
        client("id", "secret").post("/topics/t/messages?", "hello".to_string(), 1704067200).unwrap();
    assert_eq!(request.method, Method::Post);
    assert_eq!(request.body, Some("hello".to_string()));
    let names: Vec<&str> = request.headers.keys().map(|k| k.as_str()).collect();
    assert_eq!(
        names,
        vec![
            "date",
            "x-mq-version",
            "content-type",
            "user-agent",
            "content-length",
            "content-md5",
            "authorization"
        ]
    );
    assert_eq!(header(&request.headers, "content-length"), Some("5"));
    assert_eq!(
        header(&request.headers, "content-md5"),
        Some("NWQ0MTQwMmFiYzRiMmE3NmI5NzE5ZDkxMTAxN2M1OTI=")
    );
    assert_eq!(header(&request.headers, "authorization"), Some("MQ id:q2Z4lYQtjNVoQDHmfnp+eTlSLJQ="));
}

#[test]
fn content_length_counts_bytes() {
    let request = client("id", "secret").post("/r", "h\u{e9}llo w\u{f6}rld".to_string(), 0).unwrap();
    assert_eq!(header(&request.headers, "content-length"), Some("13"));
    assert_eq!(header(&request.headers, "date"), Some("Thu, 01 Jan 1970 00:00:00 GMT"));
}

#[test]
fn empty_body_is_not_sent() {
    let request = client("id", "secret").post(RESOURCE, String::new(), 1704067200).unwrap();
    assert_eq!(request.body, None);
    assert!(request.headers.get("content-md5").is_none());
    assert!(request.headers.get("content-length").is_none());
}

#[test]
fn security_token_is_the_last_header() {
    let mut option = ClientOption::default();
    option.set_endpoint("http://mq.example.com");
    option.set_access_key_id("id");
    option.set_access_key_secret("secret");
    option.set_security_token("tok");
    let request = Client::new(option).delete("/r", "x".to_string(), 1723034096).unwrap();
    assert_eq!(request.method, Method::Delete);
    let names: Vec<&str> = request.headers.keys().map(|k| k.as_str()).collect();
    assert_eq!(names.last(), Some(&"security-token"));
    assert_eq!(header(&request.headers, "security-token"), Some("tok"));
    assert_eq!(header(&request.headers, "date"), Some("Wed, 07 Aug 2024 12:34:56 GMT"));
}

#[test]
fn request_without_credentials_is_a_config_error() {
    assert_eq!(client("", "secret").get("/r", 0).err(), Some(ClientError::Config));
    assert_eq!(client("id", "").get("/r", 0).err(), Some(ClientError::Config));
    assert_eq!(client("i\nd", "secret").get("/r", 0).err(), Some(ClientError::Config));
    let mut option = ClientOption::default();
    option.set_endpoint("http://mq.example.com");
    option.set_access_key_id("id");
    option.set_access_key_secret("secret");
    option.set_security_token("to\u{7f}ken");
    assert_eq!(Client::new(option).get("/r", 0).err(), Some(ClientError::Config));
}

#[test]
fn request_with_other_method_is_unsupported() {
    let c = client("id", "secret");
    assert_eq!(c.request(Method::Put, "/r", None, 0).err(), Some(ClientError::UnsupportedMethod));
    assert_eq!(c.request(Method::Head, "/r", None, 0).err(), Some(ClientError::UnsupportedMethod));
    assert_eq!(c.request(Method::Options, "/r", None, 0).err(), Some(ClientError::UnsupportedMethod));
    assert_eq!(c.request(Method::Patch, "/r", None, 0).err(), Some(ClientError::UnsupportedMethod));
}

#[test]
fn request_with_bad_endpoint_is_a_url_error() {
    let mut option = ClientOption::default();
    option.set_access_key_id("id");
    option.set_access_key_secret("secret");
    option.set_endpoint("not a url");
    assert_eq!(Client::new(option).get("/r", 0).err(), Some(ClientError::Url));
}

#[test]
fn request_beyond_the_calendar_is_unknown() {
    assert_eq!(client("id", "secret").get("/r", i64::MAX).err(), Some(ClientError::Unknown));
}

#[test]
fn non_ascii_access_key_id_is_sent() {
    let request = client("cl\u{e9}", "secret").get("/r", 0).unwrap();
    assert_eq!(
        request.headers.get("authorization").unwrap().as_bytes()[..7],
        "MQ cl\u{e9}".as_bytes()[..7]
    );
}

#[test]
fn method_tokens() {
    assert_eq!(Method::Get.as_str(), "GET");
    assert_eq!(Method::Post.as_str(), "POST");
    assert_eq!(Method::Delete.as_str(), "DELETE");
    assert!(Method::Get.is_supported());
    assert!(!Method::Put.is_supported());
}
