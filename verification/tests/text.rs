use mq_http_rust_sdk::client::Client;
use mq_http_rust_sdk::conf::ClientOption;
use mq_http_rust_sdk::header::is_value;
use mq_http_rust_sdk::model::message::significant_tokens;
use mq_http_rust_sdk::model::properties::Properties;
use mq_http_rust_sdk::text::{chars_le, decimal, from_chars, text_eq, to_chars};
use mq_http_rust_sdk::util::{sorted_mq_lines, HeaderLine};
use mq_http_rust_sdk::xml::{TokenKind, XmlToken};

fn chars(s: &str) -> Vec<char> {
    s.chars().collect()
}

#[test]
fn decimal_numerals() {
    assert_eq!(decimal(0), "0");
    assert_eq!(decimal(7), "7");
    assert_eq!(decimal(10), "10");
    assert_eq!(decimal(255), "255");
    assert_eq!(decimal(1009), "1009");
    assert_eq!(decimal(u64::MAX), "18446744073709551615");
}

#[test]
fn chars_and_back() {
    assert_eq!(to_chars("a\u{e9}\u{4e2d}"), vec!['a', '\u{e9}', '\u{4e2d}']);
    assert_eq!(to_chars(""), Vec::<char>::new());
    let v = chars("hello world");
    assert_eq!(from_chars(&v, 0, v.len()), "hello world");
    assert_eq!(from_chars(&v, 6, 11), "world");
    assert_eq!(from_chars(&v, 3, 3), "");
}

#[test]
fn lexicographic_order() {
    assert!(chars_le(&chars(""), &chars("")));
    assert!(chars_le(&chars(""), &chars("a")));
    assert!(!chars_le(&chars("a"), &chars("")));
    assert!(chars_le(&chars("abc"), &chars("abc")));
    assert!(chars_le(&chars("abc"), &chars("abd")));
    assert!(!chars_le(&chars("abd"), &chars("abc")));
    assert!(chars_le(&chars("ab"), &chars("abc")));
    assert!(!chars_le(&chars("abc"), &chars("ab")));
    assert!(chars_le(&chars("x-mq-a"), &chars("x-mq-a-b")));
    assert!(chars_le(&chars("Z"), &chars("a")));
    assert!(chars_le(&chars("z"), &chars("\u{e9}")));
}

#[test]
fn text_equality() {
    assert!(text_eq("", ""));
    assert!(text_eq("Message", "Message"));
    assert!(!text_eq("Message", "Messaage"));
    assert!(!text_eq("a", "ab"));
}

#[test]
fn header_value_texts() {
    assert!(is_value(""));
    assert!(is_value("MQ id:abc+/="));
    assert!(is_value("tab\there"));
    assert!(is_value("caf\u{e9}"));
    assert!(!is_value("line\nfeed"));
    assert!(!is_value("carriage\rreturn"));
    assert!(!is_value("del\u{7f}"));
    assert!(!is_value("nul\u{0}"));
}

#[test]
fn sorted_lines_keep_only_mq_headers() {
    let all = vec![
        ("x-mq-b".to_string(), "2".to_string()),
        ("date".to_string(), "d".to_string()),
        ("x-mq-a".to_string(), "1".to_string()),
        ("x-mq".to_string(), "short".to_string()),
    ];
    let lines: Vec<HeaderLine> = sorted_mq_lines(&all);
    let got: Vec<(String, String)> =
        lines.iter().map(|l| (l.name.iter().collect(), l.value.iter().collect())).collect();
    assert_eq!(
        got,
        vec![("x-mq-a".to_string(), "1".to_string()), ("x-mq-b".to_string(), "2".to_string())]
    );
}

#[test]
fn significant_tokens_drop_the_rest() {
    let tokens = vec![
        XmlToken { kind: TokenKind::Other, text: String::new() },
        XmlToken { kind: TokenKind::Open, text: "a".to_string() },
        XmlToken { kind: TokenKind::Other, text: String::new() },
        XmlToken { kind: TokenKind::Close, text: "a".to_string() },
        XmlToken { kind: TokenKind::End, text: String::new() },
    ];
    let kept: Vec<(TokenKind, String)> =
        significant_tokens(&tokens).into_iter().map(|t| (t.kind, t.text)).collect();
    assert_eq!(
        kept,
        vec![
            (TokenKind::Open, "a".to_string()),
            (TokenKind::Close, "a".to_string()),
            (TokenKind::End, String::new()),
        ]
    );
}

#[test]
fn properties_clone_keeps_entries() {
    let mut p = Properties::new();
    p.insert("a".to_string(), "1".to_string());
    p.insert("b".to_string(), "2".to_string());
    let q = p.clone();
    p.insert("a".to_string(), "changed".to_string());
    assert_eq!(q.len(), 2);
    assert_eq!(q.entry(0), ("a", "1"));
    assert_eq!(q.entry(1), ("b", "2"));
    assert_eq!(q.get("a"), Some("1"));
    assert_eq!(p.get("a"), Some("changed"));
}

#[test]
fn client_keeps_token_and_namespace() {
    let mut option = ClientOption::default();
    let bare = Client::new(option.clone());
    assert_eq!(bare.get_security_token(), None);
    assert_eq!(bare.get_namespace(), None);
    assert!(!bare.is_usable());
    option.set_access_key_id("id");
    option.set_access_key_secret("secret");
    option.set_security_token("tok");
    option.set_namespace("ns");
    let client = Client::new(option);
    assert_eq!(client.get_security_token(), Some("tok"));
    assert_eq!(client.get_namespace(), Some("ns"));
    assert!(client.is_usable());
}
