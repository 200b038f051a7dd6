use mq_http_rust_sdk::client::Method;
use mq_http_rust_sdk::conf::{ClientOption, ConsumerOption, ProducerOption};
use mq_http_rust_sdk::error::ClientError;
use mq_http_rust_sdk::model::message::ConsumerResponse;
use mq_http_rust_sdk::model::properties::Properties;
use mq_http_rust_sdk::{Consumer, Producer};
use reqwest::header::HeaderMap;

const NOW: i64 = 1704067200;

fn client_option(namespace: Option<&str>) -> ClientOption {
    let mut option = ClientOption::default();
    option.set_endpoint("http://mq.example.com");
    option.set_access_key_id("id");
    option.set_access_key_secret("secret");
    if let Some(ns) = namespace {
        option.set_namespace(ns);
    }
    option
}

fn consumer(group: &str, topic: &str, tag: Option<&str>, namespace: Option<&str>) -> Consumer {
    let mut option = ConsumerOption::default();
    option.set_group(group);
    option.set_topic(topic);
    if let Some(tag) = tag {
        option.set_tag(tag);
    }
    Consumer::new(option, client_option(namespace))
}

fn producer(topic: &str, namespace: Option<&str>) -> Producer {
    let mut option = ProducerOption::default();
    option.set_topic(topic);
    Producer::new(option, client_option(namespace))
}

fn header<'a>(map: &'a HeaderMap, name: &str) -> Option<&'a str> {
    map.get(name).map(|v| v.to_str().unwrap())
}

#[test]
fn consume_request_resource() {
    let request = consumer("g", "t", None, None).consumer_message(1, 1, NOW).unwrap();
    assert_eq!(request.method, Method::Get);
    assert_eq!(
        request.url,
        "http://mq.example.com/topics/t/messages?consumer=g&numOfMessages=1&waitSeconds=1"
    );
    assert_eq!(request.body, None);
    assert_eq!(header(&request.headers, "authorization"), Some("MQ id:f8zwLmrxHdqd163l9X6n0Ms/oq8="));
}

#[test]
fn consume_request_with_tag_and_namespace() {
    let request = consumer("g", "t", Some("T"), Some("N")).consumer_message(3, 30, NOW).unwrap();
    assert_eq!(
        request.url,
        "http://mq.example.com/topics/t/messages?consumer=g&numOfMessages=3&waitSeconds=30&tag=T&ns=N"
    );
    assert_eq!(header(&request.headers, "authorization"), Some("MQ id:aFtzpmTQKSdlKbGx+BA7JT/EAbI="));
}

#[test]
fn consume_request_numbers_are_decimal() {
    let request = consumer("g", "t", None, None).consumer_message(0, 255, NOW).unwrap();
    assert_eq!(
        request.url,
        "http://mq.example.com/topics/t/messages?consumer=g&numOfMessages=0&waitSeconds=255"
    );
}

#[test]
fn consume_request_encodes_parameters() {
    let request = consumer("a b&c", "t", Some("x=y"), Some("n/s")).consumer_message(16, 3, NOW).unwrap();
    assert_eq!(
        request.url,
        "http://mq.example.com/topics/t/messages?consumer=a+b%26c&numOfMessages=16&waitSeconds=3&tag=x%3Dy&ns=n%2Fs"
    );
}

#[test]
fn consume_request_without_group_or_topic_is_a_config_error() {
    assert_eq!(consumer("", "t", None, None).consumer_message(1, 1, NOW).err(), Some(ClientError::Config));
    assert_eq!(consumer("g", "", None, None).consumer_message(1, 1, NOW).err(), Some(ClientError::Config));
    assert_eq!(consumer("", "t", None, None).ack(vec!["h".to_string()], NOW).err(), Some(ClientError::Config));
}

#[test]
fn consume_default_option_has_no_group() {
    let c = Consumer::new(ConsumerOption::default(), client_option(None));
    assert_eq!(c.consumer_message(1, 1, NOW).err(), Some(ClientError::Config));
}

#[test]
fn consumer_reads_response() {
    let body = "<Error><Code>MessageNotExist</Code><Message>no msg</Message><RequestId>R</RequestId><HostId>H</HostId></Error>";
    match Consumer::read_response(body) {
        Ok(ConsumerResponse::Error(e)) => assert_eq!(e.code, "MessageNotExist"),
        other => panic!("unexpected {:?}", other),
    }
    assert_eq!(Consumer::read_response("<Nothing/>").err(), Some(ClientError::Xml));
}

#[test]
fn ack_request_wire_and_method() {
    let request = consumer("g", "t", Some("T"), Some("N"))
        .ack(vec!["h1".to_string(), "h2".to_string()], NOW)
        .unwrap();
    assert_eq!(request.method, Method::Delete);
    assert_eq!(request.url, "http://mq.example.com/topics/t/messages?ns=N&consumer=g");
    assert_eq!(
        request.body,
        Some(
            "<ReceiptHandles><ReceiptHandle>h1</ReceiptHandle><ReceiptHandle>h2</ReceiptHandle></ReceiptHandles>"
                .to_string()
        )
    );
    assert_eq!(header(&request.headers, "content-length"), Some("99"));
    assert_eq!(header(&request.headers, "content-md5"), Some("NmUyZTRhZTIwZTc3ZWUyYTg1ZDhjNDRhZDI4MmFjOWE="));
    assert_eq!(header(&request.headers, "authorization"), Some("MQ id:yo6SE4EuoNo6gnZ5K6X9E3DyjMw="));
}

#[test]
fn ack_request_without_namespace() {
    let request = consumer("g", "t", None, None).ack(vec!["h".to_string()], NOW).unwrap();
    assert_eq!(request.url, "http://mq.example.com/topics/t/messages?consumer=g");
}

#[test]
fn publish_message_wire() {
    let request = producer("t", None)
        .publish_message("hello".to_string(), "T".to_string(), Properties::new(), NOW)
        .unwrap();
    assert_eq!(request.method, Method::Post);
    assert_eq!(request.url, "http://mq.example.com/topics/t/messages?");
    assert_eq!(
        request.body,
        Some("<Message><MessageBody>hello</MessageBody><MessageTag>T</MessageTag></Message>".to_string())
    );
    assert_eq!(header(&request.headers, "content-length"), Some("77"));
    assert_eq!(header(&request.headers, "content-md5"), Some("OGE2YmFhZmM1ZTYyMDRmMjA2MzNjMDIzNmYzNmQ5NTk="));
    assert_eq!(header(&request.headers, "authorization"), Some("MQ id:/lzZOhBEWMVbiL5g/E8BO0hSp7Q="));
}

#[test]
fn publish_request_with_namespace_and_properties() {
    let mut properties = Properties::new();
    properties.insert("k1".to_string(), "v1".to_string());
    properties.insert("k2".to_string(), "v2".to_string());
    let request = producer("t", Some("N"))
        .publish_message("b".to_string(), String::new(), properties, NOW)
        .unwrap();
    assert_eq!(request.url, "http://mq.example.com/topics/t/messages?ns=N");
    assert_eq!(
        request.body,
        Some("<Message><MessageBody>b</MessageBody><MessageTag/><Properties>k1:v1|k2:v2</Properties></Message>".to_string())
    );
}

#[test]
fn publish_request_without_topic_is_a_config_error() {
    let p = Producer::new(ProducerOption::default(), client_option(None));
    assert_eq!(
        p.publish_message("b".to_string(), "t".to_string(), Properties::new(), NOW).err(),
        Some(ClientError::Config)
    );
}

#[test]
fn publish_request_without_credentials_is_a_config_error() {
    let mut option = ProducerOption::default();
    option.set_topic("t");
    let p = Producer::new(option, ClientOption::default());
    assert_eq!(
        p.publish_message("b".to_string(), "t".to_string(), Properties::new(), NOW).err(),
        Some(ClientError::Config)
    );
}

#[test]
fn producer_reads_response() {
    let r = Producer::read_response(
        "<Message><MessageId>M1</MessageId><MessageBodyMD5>ABC</MessageBodyMD5></Message>",
    )
    .unwrap();
    assert_eq!(r.message_id(), "M1");
    assert_eq!(r.message_body_md5(), Some("ABC"));
    assert_eq!(
        Producer::read_response(
            "<Error><Code>C</Code><Message>m</Message><RequestId>R</RequestId><HostId>H</HostId></Error>"
        )
        .err(),
        Some(ClientError::Xml)
    );
}

#[test]
fn options_keep_what_is_set() {
    let mut c = ClientOption::default();
    assert_eq!(c.get_endpoint(), "localhost:8081");
    assert_eq!(c.get_access_key_id(), "");
    assert_eq!(c.get_access_key_secret(), "");
    assert_eq!(c.get_security_token(), None);
    assert_eq!(c.get_namespace(), None);
    c.set_endpoint("e");
    c.set_access_key_id("i");
    c.set_access_key_secret("s");
    c.set_security_token("t");
    c.set_namespace("n");
    assert_eq!(c.get_endpoint(), "e");
    assert_eq!(c.get_access_key_id(), "i");
    assert_eq!(c.get_access_key_secret(), "s");
    assert_eq!(c.get_security_token(), Some("t"));
    assert_eq!(c.get_namespace(), Some("n"));

    let mut o = ConsumerOption::default();
    assert_eq!(o.get_group(), "");
    assert_eq!(o.get_topic(), "localhost:8081");
    assert_eq!(o.get_tag(), None);
    o.set_group("g");
    o.set_topic("t");
    o.set_tag("x");
    assert_eq!((o.get_group(), o.get_topic(), o.get_tag()), ("g", "t", Some("x")));

    let mut p = ProducerOption::default();
    assert_eq!(p.get_group(), None);
    assert_eq!(p.get_topic(), "");
    p.set_group("g");
    p.set_topic("t");
    assert_eq!((p.get_group(), p.get_topic()), (Some("g"), "t"));
}

#[test]
fn error_messages() {
    assert_eq!(ClientError::Config.message(), "Failed to parse config");
    assert_eq!(ClientError::Signature.message(), "Failed to signature");
    assert_eq!(ClientError::UnsupportedMethod.message(), "Unsupported method");
    assert_eq!(ClientError::Unknown.message(), "Unknown error");
}
