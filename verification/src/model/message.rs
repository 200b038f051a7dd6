//! Requests and responses, and their XML.
//!
//! Writing goes element by element through `xml::write_element`. Reading goes
//! over the tokens of a document: the functions named `decode_*` say, for
//! every sequence of tokens, what it means or that it means nothing.

use vstd::prelude::*;
use vstd::string::StringExecFns;
use crate::conf::opt_text;
use crate::error::ClientError;
use crate::model::properties::entries_view;
use crate::model::properties::parse_properties;
use crate::model::properties::parsed_pairs;
use crate::model::properties::properties_map;
use crate::model::properties::properties_text;
use crate::model::properties::serialize_properties;
use crate::model::properties::Pair;
use crate::model::properties::Properties;
use crate::text::text_eq;
use crate::xml::tokenize;
use crate::xml::tokens_view;
use crate::xml::write_element;
use crate::xml::xml_element;
use crate::xml::xml_tokens;
use crate::xml::Token;
use crate::xml::TokenKind;
use crate::xml::XmlToken;

verus! {

/// A message as the service hands it to a consumer.
#[derive(Debug)]
pub struct ConsumerMessage {
    pub message_id: String,
    pub message_body_md5: Option<String>,
    pub message_body: String,
    pub receipt_handle: String,
    pub publish_time: String,
    pub first_consume_time: String,
    pub next_consume_time: String,
    pub consumed_times: String,
    pub message_tag: String,
    pub properties: Properties,
}

/// A `ConsumerMessage` as the contracts see it.
pub struct ConsumerMessageView {
    pub message_id: Seq<char>,
    pub message_body_md5: Option<Seq<char>>,
    pub message_body: Seq<char>,
    pub receipt_handle: Seq<char>,
    pub publish_time: Seq<char>,
    pub first_consume_time: Seq<char>,
    pub next_consume_time: Seq<char>,
    pub consumed_times: Seq<char>,
    pub message_tag: Seq<char>,
    pub properties: Map<Seq<char>, Seq<char>>,
}

impl View for ConsumerMessage {
    type V = ConsumerMessageView;

    open spec fn view(&self) -> ConsumerMessageView {
        ConsumerMessageView {
            message_id: self.message_id@,
            message_body_md5: opt_text(self.message_body_md5),
            message_body: self.message_body@,
            receipt_handle: self.receipt_handle@,
            publish_time: self.publish_time@,
            first_consume_time: self.first_consume_time@,
            next_consume_time: self.next_consume_time@,
            consumed_times: self.consumed_times@,
            message_tag: self.message_tag@,
            properties: self.properties@,
        }
    }
}

/// The messages of one response, in the order of the document.
#[derive(Debug)]
pub struct ConsumerMessages {
    pub messages: Vec<ConsumerMessage>,
}

/// The messages that a vector of messages stands for.
pub open spec fn messages_view(messages: Seq<ConsumerMessage>) -> Seq<ConsumerMessageView> {
    Seq::new(messages.len(), |i: int| messages[i]@)
}

/// The error document of the service.
#[derive(Debug)]
pub struct ErrorMessage {
    pub code: String,
    pub message: String,
    pub request_id: String,
    pub host_id: String,
}

/// An `ErrorMessage` as the contracts see it.
pub struct ErrorMessageView {
    pub code: Seq<char>,
    pub message: Seq<char>,
    pub request_id: Seq<char>,
    pub host_id: Seq<char>,
}

impl View for ErrorMessage {
    type V = ErrorMessageView;

    open spec fn view(&self) -> ErrorMessageView {
        ErrorMessageView {
            code: self.code@,
            message: self.message@,
            request_id: self.request_id@,
            host_id: self.host_id@,
        }
    }
}

/// What a consume call brings back: messages, or the service's error
/// document. Which of the two is decided by the root element.
#[derive(Debug)]
pub enum ConsumerResponse {
    Messages(ConsumerMessages),
    Error(ErrorMessage),
}

/// A `ConsumerResponse` as the contracts see it.
pub enum ConsumerResponseView {
    Messages(Seq<ConsumerMessageView>),
    Error(ErrorMessageView),
}

impl View for ConsumerResponse {
    type V = ConsumerResponseView;

    open spec fn view(&self) -> ConsumerResponseView {
        match self {
            ConsumerResponse::Messages(m) => ConsumerResponseView::Messages(
                messages_view(m.messages@),
            ),
            ConsumerResponse::Error(e) => ConsumerResponseView::Error(e@),
        }
    }
}

/// The receipt handles of the messages that are acknowledged.
#[derive(Debug)]
pub struct AckMessageRequest {
    pub receipt_handle: Vec<String>,
}

/// The texts that a vector of strings stands for.
pub open spec fn texts_view(strings: Seq<String>) -> Seq<Seq<char>> {
    Seq::new(strings.len(), |i: int| strings[i]@)
}

/// A message to publish.
#[derive(Debug)]
pub struct PublishMessageRequest {
    pub message_body: String,
    pub message_tag: Option<String>,
    pub properties: Properties,
}

/// What the service answers to a published message.
#[derive(Debug)]
pub struct PublishMessageResponse {
    message_id: String,
    message_body_md5: Option<String>,
}

/// A `PublishMessageResponse` as the contracts see it.
pub struct PublishMessageResponseView {
    pub message_id: Seq<char>,
    pub message_body_md5: Option<Seq<char>>,
}

impl View for PublishMessageResponse {
    type V = PublishMessageResponseView;

    closed spec fn view(&self) -> PublishMessageResponseView {
        PublishMessageResponseView {
            message_id: self.message_id@,
            message_body_md5: opt_text(self.message_body_md5),
        }
    }
}

impl PublishMessageResponse {
    /// The identifier that the service gave the message.
    pub fn message_id(&self) -> (r: &str)
        ensures
            r@ == self@.message_id,
    {
        self.message_id.as_str()
    }

    /// The digest of the body as the service computed it.
    pub fn message_body_md5(&self) -> (r: Option<&str>)
        ensures
            match r {
                Some(t) => self@.message_body_md5 == Some(t@),
                None => self@.message_body_md5 is None,
            },
    {
        match &self.message_body_md5 {
            Some(md5) => Some(md5.as_str()),
            None => None,
        }
    }
}

/// The XML of a message to publish: the body, the tag where there is one,
/// and the properties where there are any, inside `<Message>`. `None` where
/// an element cannot be written.
pub open spec fn publish_xml(
    body: Seq<char>,
    tag: Option<Seq<char>>,
    properties: Seq<Pair>,
) -> Option<Seq<char>> {
    let body_part = xml_element("MessageBody"@, body);
    let tag_part = match tag {
        Some(t) => xml_element("MessageTag"@, t),
        None => Some(Seq::empty()),
    };
    let properties_part = if properties.len() == 0 {
        Some(Seq::empty())
    } else {
        xml_element("Properties"@, properties_text(properties))
    };
    if body_part is Some && tag_part is Some && properties_part is Some {
        Some(
            "<Message>"@ + body_part->0 + tag_part->0 + properties_part->0 + "</Message>"@,
        )
    } else {
        None
    }
}

/// One `<ReceiptHandle>` element for each handle, in order. `None` where an
/// element cannot be written.
pub open spec fn handles_xml(handles: Seq<Seq<char>>) -> Option<Seq<char>>
    decreases handles.len(),
{
    if handles.len() == 0 {
        Some(Seq::empty())
    } else {
        match (handles_xml(handles.drop_last()), xml_element("ReceiptHandle"@, handles.last())) {
            (Some(init), Some(last)) => Some(init + last),
            _ => None,
        }
    }
}

/// The XML of an acknowledgement: the handles inside `<ReceiptHandles>`, or
/// the empty element where there is no handle.
pub open spec fn ack_xml(handles: Seq<Seq<char>>) -> Option<Seq<char>> {
    if handles.len() == 0 {
        Some("<ReceiptHandles/>"@)
    } else {
        match handles_xml(handles) {
            Some(inner) => Some("<ReceiptHandles>"@ + inner + "</ReceiptHandles>"@),
            None => None,
        }
    }
}

impl PublishMessageRequest {
    /// The request as XML.
    pub fn to_xml(&self) -> (r: Result<String, ClientError>)
        ensures
            match r {
                Ok(xml) => publish_xml(
                    self.message_body@,
                    opt_text(self.message_tag),
                    self.properties.pairs(),
                ) == Some(xml@),
                Err(e) => e == ClientError::Xml && publish_xml(
                    self.message_body@,
                    opt_text(self.message_tag),
                    self.properties.pairs(),
                ) is None,
            },
    {
        let body = match write_element("MessageBody", self.message_body.as_str()) {
            Some(element) => element,
            None => {
                return Err(ClientError::Xml);
            },
        };
        let tag = match &self.message_tag {
            Some(t) => match write_element("MessageTag", t.as_str()) {
                Some(element) => element,
                None => {
                    return Err(ClientError::Xml);
                },
            },
            None => String::new(),
        };
        let properties = if self.properties.is_empty() {
            String::new()
        } else {
            let text = serialize_properties(&self.properties);
            match write_element("Properties", text.as_str()) {
                Some(element) => element,
                None => {
                    return Err(ClientError::Xml);
                },
            }
        };
        let mut out = String::new();
        out.append("<Message>");
        out.append(body.as_str());
        out.append(tag.as_str());
        out.append(properties.as_str());
        out.append("</Message>");
        Ok(out)
    }
}

impl AckMessageRequest {
    /// The request as XML.
    pub fn to_xml(&self) -> (r: Result<String, ClientError>)
        ensures
            match r {
                Ok(xml) => ack_xml(texts_view(self.receipt_handle@)) == Some(xml@),
                Err(e) => e == ClientError::Xml && ack_xml(texts_view(self.receipt_handle@))
                    is None,
            },
    {
        let ghost handles = texts_view(self.receipt_handle@);
        if self.receipt_handle.len() == 0 {
            return Ok("<ReceiptHandles/>".to_owned());
        }
        let mut inner = String::new();
        let mut i: usize = 0;
        while i < self.receipt_handle.len()
            invariant
                i <= self.receipt_handle.len(),
                handles == texts_view(self.receipt_handle@),
                handles_xml(handles.take(i as int)) == Some(inner@),
            decreases self.receipt_handle.len() - i,
        {
            proof {
                assert(handles.take(i + 1).drop_last() =~= handles.take(i as int));
            }
            match write_element("ReceiptHandle", self.receipt_handle[i].as_str()) {
                Some(element) => {
                    inner.append(element.as_str());
                },
                None => {
                    proof {
                        lemma_handles_xml_none(handles, i + 1);
                    }
                    return Err(ClientError::Xml);
                },
            }
            i = i + 1;
        }
        assert(handles.take(i as int) =~= handles);
        let mut out = String::new();
        out.append("<ReceiptHandles>");
        out.append(inner.as_str());
        out.append("</ReceiptHandles>");
        Ok(out)
    }
}

proof fn lemma_handles_xml_none(handles: Seq<Seq<char>>, n: int)
    requires
        0 <= n <= handles.len(),
        handles_xml(handles.take(n)) is None,
    ensures
        handles_xml(handles) is None,
    decreases handles.len() - n,
{
    if n < handles.len() {
        assert(handles.take(n + 1).drop_last() =~= handles.take(n));
        lemma_handles_xml_none(handles, n + 1);
    } else {
        assert(handles.take(n) =~= handles);
    }
}

/// The test that drops comments, declarations and the like.
pub open spec fn keeps() -> spec_fn(Token) -> bool {
    |t: Token| t.0 != TokenKind::Other
}

/// The tokens that carry meaning: all but comments, declarations,
/// processing instructions and document types.
pub open spec fn significant(tokens: Seq<Token>) -> Seq<Token> {
    tokens.filter(keeps())
}

/// Where the run of text tokens that begins at `i` ends.
pub open spec fn texts_end(s: Seq<Token>, i: int) -> int
    decreases s.len() - i,
{
    if 0 <= i < s.len() && s[i].0 == TokenKind::Text {
        texts_end(s, i + 1)
    } else {
        i
    }
}

/// The texts of the tokens `s[i..j]`, one behind the other.
pub open spec fn texts_concat(s: Seq<Token>, i: int, j: int) -> Seq<char>
    decreases j - i,
{
    if i >= j {
        Seq::empty()
    } else {
        texts_concat(s, i, j - 1) + s[j - 1].1
    }
}

/// An element with text content at `i`: its start, any number of text
/// tokens, and its end. The result is the element's name and text, and the
/// index behind its end.
pub open spec fn leaf_at(s: Seq<Token>, i: int) -> Option<(Pair, int)> {
    if 0 <= i < s.len() && s[i].0 == TokenKind::Open {
        let j = texts_end(s, i + 1);
        if i < j < s.len() && s[j] == (TokenKind::Close, s[i].1) {
            Some(((s[i].1, texts_concat(s, i + 1, j)), j + 1))
        } else {
            None
        }
    } else {
        None
    }
}

/// The children of a record, read from `i` up to the end tag of `name`: each
/// child is an element with text content; text between the children is passed
/// over. The result is the children, as names and texts, and the index behind
/// the end tag.
pub open spec fn fields_from(s: Seq<Token>, i: int, name: Seq<char>) -> Option<(Seq<Pair>, int)>
    decreases s.len() - i,
{
    if i < 0 || i >= s.len() {
        None
    } else if s[i] == (TokenKind::Close, name) {
        Some((Seq::empty(), i + 1))
    } else if s[i].0 == TokenKind::Text {
        fields_from(s, i + 1, name)
    } else {
        match leaf_at(s, i) {
            Some((field, j)) => if i < j <= s.len() {
                match fields_from(s, j, name) {
                    Some((fields, e)) => Some((seq![field] + fields, e)),
                    None => None,
                }
            } else {
                None
            },
            None => None,
        }
    }
}

/// The texts of the fields named `a` or `b`, in order.
pub open spec fn texts_named(fields: Seq<Pair>, a: Seq<char>, b: Seq<char>) -> Seq<Seq<char>>
    decreases fields.len(),
{
    if fields.len() == 0 {
        Seq::empty()
    } else {
        let init = texts_named(fields.drop_last(), a, b);
        if fields.last().0 == a || fields.last().0 == b {
            init.push(fields.last().1)
        } else {
            init
        }
    }
}

/// The text of a field that has to be there once, under one of two names.
pub open spec fn required(fields: Seq<Pair>, a: Seq<char>, b: Seq<char>) -> Option<Seq<char>> {
    let texts = texts_named(fields, a, b);
    if texts.len() == 1 {
        Some(texts[0])
    } else {
        None
    }
}

/// The text of a field that may be there once, under one of two names. The
/// outer `None` says that it is there more than once.
pub open spec fn optional(fields: Seq<Pair>, a: Seq<char>, b: Seq<char>) -> Option<
    Option<Seq<char>>,
> {
    let texts = texts_named(fields, a, b);
    if texts.len() == 0 {
        Some(None)
    } else if texts.len() == 1 {
        Some(Some(texts[0]))
    } else {
        None
    }
}

/// The message that a record's fields stand for. Every field but the digest
/// has to be there, and none twice; fields of other names are passed over.
pub open spec fn message_of(fields: Seq<Pair>) -> Option<ConsumerMessageView> {
    let id = required(fields, "MessageId"@, "MessageId"@);
    let md5 = optional(fields, "MessageBodyMD5"@, "MessageBodyMd5"@);
    let body = required(fields, "MessageBody"@, "MessageBody"@);
    let handle = required(fields, "ReceiptHandle"@, "ReceiptHandle"@);
    let publish = required(fields, "PublishTime"@, "PublishTime"@);
    let first = required(fields, "FirstConsumeTime"@, "FirstConsumeTime"@);
    let next = required(fields, "NextConsumeTime"@, "NextConsumeTime"@);
    let times = required(fields, "ConsumedTimes"@, "ConsumedTimes"@);
    let tag = required(fields, "MessageTag"@, "MessageTag"@);
    let properties = required(fields, "Properties"@, "Properties"@);
    if id is Some && md5 is Some && body is Some && handle is Some && publish is Some && first
        is Some && next is Some && times is Some && tag is Some && properties is Some {
        Some(
            ConsumerMessageView {
                message_id: id->0,
                message_body_md5: md5->0,
                message_body: body->0,
                receipt_handle: handle->0,
                publish_time: publish->0,
                first_consume_time: first->0,
                next_consume_time: next->0,
                consumed_times: times->0,
                message_tag: tag->0,
                properties: properties_map(parsed_pairs(properties->0)),
            },
        )
    } else {
        None
    }
}

/// The error document that a record's fields stand for.
pub open spec fn error_of(fields: Seq<Pair>) -> Option<ErrorMessageView> {
    let code = required(fields, "Code"@, "Code"@);
    let message = required(fields, "Message"@, "Message"@);
    let request_id = required(fields, "RequestId"@, "RequestId"@);
    let host_id = required(fields, "HostId"@, "HostId"@);
    if code is Some && message is Some && request_id is Some && host_id is Some {
        Some(
            ErrorMessageView {
                code: code->0,
                message: message->0,
                request_id: request_id->0,
                host_id: host_id->0,
            },
        )
    } else {
        None
    }
}

/// The publish response that a record's fields stand for.
pub open spec fn published_of(fields: Seq<Pair>) -> Option<PublishMessageResponseView> {
    let id = required(fields, "MessageId"@, "message_id"@);
    let md5 = optional(fields, "MessageBodyMD5"@, "message_body_md5"@);
    if id is Some && md5 is Some {
        Some(PublishMessageResponseView { message_id: id->0, message_body_md5: md5->0 })
    } else {
        None
    }
}

/// The children of `<Messages>`, read from `i` up to its end tag: each child
/// is a `<Message>` record; text between the children is passed over. The
/// result is the messages and the index behind the end tag.
pub open spec fn messages_from(s: Seq<Token>, i: int) -> Option<(Seq<ConsumerMessageView>, int)>
    decreases s.len() - i,
{
    if i < 0 || i >= s.len() {
        None
    } else if s[i] == (TokenKind::Close, "Messages"@) {
        Some((Seq::empty(), i + 1))
    } else if s[i].0 == TokenKind::Text {
        messages_from(s, i + 1)
    } else if s[i] == (TokenKind::Open, "Message"@) {
        match fields_from(s, i + 1, "Message"@) {
            Some((fields, j)) => match message_of(fields) {
                Some(message) => if i < j <= s.len() {
                    match messages_from(s, j) {
                        Some((messages, e)) => Some((seq![message] + messages, e)),
                        None => None,
                    }
                } else {
                    None
                },
                None => None,
            },
            None => None,
        }
    } else {
        None
    }
}

/// Whether the document ends at `e`: the token there is the end of the
/// document, and it is the last.
pub open spec fn ends_at(s: Seq<Token>, e: int) -> bool {
    0 <= e && e + 1 == s.len() && s[e].0 == TokenKind::End
}

/// What the tokens of a publish response mean: the root is `<Message>` or,
/// as the service has also written it, `<Messaage>`; its children are the
/// fields. `None` for every other sequence of tokens.
pub open spec fn publish_response_of(tokens: Seq<Token>) -> Option<PublishMessageResponseView> {
    let s = significant(tokens);
    if s.len() > 0 && (s[0] == (TokenKind::Open, "Message"@) || s[0] == (
        TokenKind::Open,
        "Messaage"@,
    )) {
        match fields_from(s, 1, s[0].1) {
            Some((fields, e)) => if ends_at(s, e) {
                published_of(fields)
            } else {
                None
            },
            None => None,
        }
    } else {
        None
    }
}

/// What the tokens of a consume response mean: under the root `<Messages>`
/// the messages, under the root `<Error>` the error document. `None` for
/// every other root and every other sequence of tokens.
pub open spec fn consumer_response_of(tokens: Seq<Token>) -> Option<ConsumerResponseView> {
    let s = significant(tokens);
    if s.len() > 0 && s[0] == (TokenKind::Open, "Messages"@) {
        match messages_from(s, 1) {
            Some((messages, e)) => if ends_at(s, e) {
                Some(ConsumerResponseView::Messages(messages))
            } else {
                None
            },
            None => None,
        }
    } else if s.len() > 0 && s[0] == (TokenKind::Open, "Error"@) {
        match fields_from(s, 1, "Error"@) {
            Some((fields, e)) => if ends_at(s, e) {
                match error_of(fields) {
                    Some(error) => Some(ConsumerResponseView::Error(error)),
                    None => None,
                }
            } else {
                None
            },
            None => None,
        }
    } else {
        None
    }
}

/// The variant of a consume response follows the root element: messages come
/// only from a root `<Messages>`, an error document only from a root
/// `<Error>`, and a document with any other root means nothing.
pub proof fn lemma_consumer_response_by_root(tokens: Seq<Token>)
    ensures
        consumer_response_of(tokens) matches Some(ConsumerResponseView::Messages(_))
            ==> significant(tokens).len() > 0 && significant(tokens)[0] == (
            TokenKind::Open,
            "Messages"@,
        ),
        consumer_response_of(tokens) matches Some(ConsumerResponseView::Error(_)) ==> significant(
            tokens,
        ).len() > 0 && significant(tokens)[0] == (TokenKind::Open, "Error"@),
        significant(tokens).len() == 0 || (significant(tokens)[0] != (TokenKind::Open, "Messages"@)
            && significant(tokens)[0] != (TokenKind::Open, "Error"@)) ==> consumer_response_of(
            tokens,
        ) is None,
{
    reveal_strlit("Messages");
    reveal_strlit("Error");
    assert("Messages"@ != "Error"@) by {
        assert("Messages"@.len() == 8);
    }
}

/// The root that the service has also written, `<Messaage>`, is read as
/// `<Message>` is: a document with that root, fields up to its end tag and
/// nothing behind means what its fields mean.
pub proof fn lemma_misspelt_root_accepted(tokens: Seq<Token>, fields: Seq<Pair>, e: int)
    requires
        significant(tokens).len() > 0,
        significant(tokens)[0] == (TokenKind::Open, "Messaage"@),
        fields_from(significant(tokens), 1, "Messaage"@) == Some((fields, e)),
        ends_at(significant(tokens), e),
    ensures
        publish_response_of(tokens) == published_of(fields),
{
}

fn token_is(token: &XmlToken, kind: TokenKind, text: &str) -> (r: bool)
    ensures
        r == (token@ == (kind, text@)),
{
    token.kind == kind && text_eq(token.text.as_str(), text)
}

/// The tokens that carry meaning, in order.
pub fn significant_tokens(tokens: &Vec<XmlToken>) -> (r: Vec<XmlToken>)
    ensures
        tokens_view(r@) == significant(tokens_view(tokens@)),
{
    let ghost all = tokens_view(tokens@);
    let mut out: Vec<XmlToken> = Vec::new();
    let mut i: usize = 0;
    while i < tokens.len()
        invariant
            i <= tokens.len(),
            all == tokens_view(tokens@),
            tokens_view(out@) == all.take(i as int).filter(keeps()),
        decreases tokens.len() - i,
    {
        proof {
            reveal(Seq::filter);
            assert(all.take(i + 1).drop_last() =~= all.take(i as int));
        }
        let keep = match tokens[i].kind {
            TokenKind::Other => false,
            _ => true,
        };
        if keep {
            out.push(XmlToken { kind: tokens[i].kind, text: tokens[i].text.clone() });
        }
        i = i + 1;
    }
    assert(all.take(i as int) =~= all);
    out
}

fn texts_end_at(s: &Vec<XmlToken>, from: usize) -> (r: usize)
    requires
        from <= s.len(),
    ensures
        r == texts_end(tokens_view(s@), from as int),
        from <= r <= s.len(),
{
    let mut i: usize = from;
    while i < s.len() && s[i].kind == TokenKind::Text
        invariant
            from <= i <= s.len(),
            texts_end(tokens_view(s@), from as int) == texts_end(tokens_view(s@), i as int),
        decreases s.len() - i,
    {
        i = i + 1;
    }
    i
}

fn leaf(s: &Vec<XmlToken>, i: usize) -> (r: Option<(String, String, usize)>)
    requires
        i < s.len(),
    ensures
        match r {
            Some((name, text, next)) => leaf_at(tokens_view(s@), i as int) == Some(
                ((name@, text@), next as int),
            ) && i < next <= s.len(),
            None => leaf_at(tokens_view(s@), i as int) is None,
        },
{
    let ghost sv = tokens_view(s@);
    if s[i].kind != TokenKind::Open {
        return None;
    }
    let j = texts_end_at(s, i + 1);
    if j >= s.len() || !token_is(&s[j], TokenKind::Close, s[i].text.as_str()) {
        return None;
    }
    let mut text = String::new();
    let mut k: usize = i + 1;
    while k < j
        invariant
            i + 1 <= k <= j < s.len(),
            sv == tokens_view(s@),
            text@ == texts_concat(sv, i + 1, k as int),
        decreases j - k,
    {
        text.append(s[k].text.as_str());
        k = k + 1;
    }
    Some((s[i].text.clone(), text, j + 1))
}

/// `fields` in front of what `rest` holds.
spec fn fields_before(fields: Seq<Pair>, rest: Option<(Seq<Pair>, int)>) -> Option<
    (Seq<Pair>, int),
> {
    match rest {
        Some((more, e)) => Some((fields + more, e)),
        None => None,
    }
}

fn fields(s: &Vec<XmlToken>, from: usize, name: &str) -> (r: Option<(Vec<(String, String)>, usize)>)
    requires
        from <= s.len(),
    ensures
        match r {
            Some((found, e)) => fields_from(tokens_view(s@), from as int, name@) == Some(
                (entries_view(found@), e as int),
            ) && from < e <= s.len(),
            None => fields_from(tokens_view(s@), from as int, name@) is None,
        },
{
    let ghost sv = tokens_view(s@);
    let ghost whole = fields_from(sv, from as int, name@);
    let mut found: Vec<(String, String)> = Vec::new();
    let mut i: usize = from;
    loop
        invariant
            from <= i <= s.len(),
            sv == tokens_view(s@),
            whole == fields_before(entries_view(found@), fields_from(sv, i as int, name@)),
            whole == fields_from(sv, from as int, name@),
        decreases s.len() - i,
    {
        if i >= s.len() {
            return None;
        }
        if token_is(&s[i], TokenKind::Close, name) {
            return Some((found, i + 1));
        }
        if s[i].kind == TokenKind::Text {
            i = i + 1;
        } else {
            match leaf(s, i) {
                Some((field_name, field_text, next)) => {
                    found.push((field_name, field_text));
                    i = next;
                },
                None => {
                    return None;
                },
            }
        }
    }
}

fn named(found: &Vec<(String, String)>, a: &str, b: &str) -> (r: Vec<String>)
    ensures
        texts_view(r@) == texts_named(entries_view(found@), a@, b@),
{
    let ghost all = entries_view(found@);
    let mut out: Vec<String> = Vec::new();
    let mut i: usize = 0;
    while i < found.len()
        invariant
            i <= found.len(),
            all == entries_view(found@),
            texts_view(out@) == texts_named(all.take(i as int), a@, b@),
        decreases found.len() - i,
    {
        proof {
            assert(all.take(i + 1).drop_last() =~= all.take(i as int));
        }
        if text_eq(found[i].0.as_str(), a) || text_eq(found[i].0.as_str(), b) {
            out.push(found[i].1.clone());
        }
        i = i + 1;
    }
    assert(all.take(i as int) =~= all);
    out
}

fn required_text(found: &Vec<(String, String)>, a: &str, b: &str) -> (r: Option<String>)
    ensures
        match r {
            Some(text) => required(entries_view(found@), a@, b@) == Some(text@),
            None => required(entries_view(found@), a@, b@) is None,
        },
{
    let texts = named(found, a, b);
    if texts.len() == 1 {
        Some(texts[0].clone())
    } else {
        None
    }
}

fn optional_text(found: &Vec<(String, String)>, a: &str, b: &str) -> (r: Option<Option<String>>)
    ensures
        match r {
            Some(Some(text)) => optional(entries_view(found@), a@, b@) == Some(Some(text@)),
            Some(None) => optional(entries_view(found@), a@, b@) == Some(None::<Seq<char>>),
            None => optional(entries_view(found@), a@, b@) is None,
        },
{
    let texts = named(found, a, b);
    if texts.len() == 0 {
        Some(None)
    } else if texts.len() == 1 {
        Some(Some(texts[0].clone()))
    } else {
        None
    }
}

fn message_from_fields(found: &Vec<(String, String)>) -> (r: Option<ConsumerMessage>)
    ensures
        match r {
            Some(message) => message_of(entries_view(found@)) == Some(message@),
            None => message_of(entries_view(found@)) is None,
        },
{
    let message_id = match required_text(found, "MessageId", "MessageId") {
        Some(t) => t,
        None => {
            return None;
        },
    };
    let message_body_md5 = match optional_text(found, "MessageBodyMD5", "MessageBodyMd5") {
        Some(t) => t,
        None => {
            return None;
        },
    };
    let message_body = match required_text(found, "MessageBody", "MessageBody") {
        Some(t) => t,
        None => {
            return None;
        },
    };
    let receipt_handle = match required_text(found, "ReceiptHandle", "ReceiptHandle") {
        Some(t) => t,
        None => {
            return None;
        },
    };
    let publish_time = match required_text(found, "PublishTime", "PublishTime") {
        Some(t) => t,
        None => {
            return None;
        },
    };
    let first_consume_time = match required_text(found, "FirstConsumeTime", "FirstConsumeTime") {
        Some(t) => t,
        None => {
            return None;
        },
    };
    let next_consume_time = match required_text(found, "NextConsumeTime", "NextConsumeTime") {
        Some(t) => t,
        None => {
            return None;
        },
    };
    let consumed_times = match required_text(found, "ConsumedTimes", "ConsumedTimes") {
        Some(t) => t,
        None => {
            return None;
        },
    };
    let message_tag = match required_text(found, "MessageTag", "MessageTag") {
        Some(t) => t,
        None => {
            return None;
        },
    };
    let properties = match required_text(found, "Properties", "Properties") {
        Some(t) => parse_properties(t.as_str()),
        None => {
            return None;
        },
    };
    Some(
        ConsumerMessage {
            message_id,
            message_body_md5,
            message_body,
            receipt_handle,
            publish_time,
            first_consume_time,
            next_consume_time,
            consumed_times,
            message_tag,
            properties,
        },
    )
}

fn error_from_fields(found: &Vec<(String, String)>) -> (r: Option<ErrorMessage>)
    ensures
        match r {
            Some(error) => error_of(entries_view(found@)) == Some(error@),
            None => error_of(entries_view(found@)) is None,
        },
{
    let code = match required_text(found, "Code", "Code") {
        Some(t) => t,
        None => {
            return None;
        },
    };
    let message = match required_text(found, "Message", "Message") {
        Some(t) => t,
        None => {
            return None;
        },
    };
    let request_id = match required_text(found, "RequestId", "RequestId") {
        Some(t) => t,
        None => {
            return None;
        },
    };
    let host_id = match required_text(found, "HostId", "HostId") {
        Some(t) => t,
        None => {
            return None;
        },
    };
    Some(ErrorMessage { code, message, request_id, host_id })
}

/// `messages` in front of what `rest` holds.
spec fn messages_before(
    messages: Seq<ConsumerMessageView>,
    rest: Option<(Seq<ConsumerMessageView>, int)>,
) -> Option<(Seq<ConsumerMessageView>, int)> {
    match rest {
        Some((more, e)) => Some((messages + more, e)),
        None => None,
    }
}

fn messages(s: &Vec<XmlToken>, from: usize) -> (r: Option<(Vec<ConsumerMessage>, usize)>)
    requires
        from <= s.len(),
    ensures
        match r {
            Some((found, e)) => messages_from(tokens_view(s@), from as int) == Some(
                (messages_view(found@), e as int),
            ) && from < e <= s.len(),
            None => messages_from(tokens_view(s@), from as int) is None,
        },
{
    let ghost sv = tokens_view(s@);
    let ghost whole = messages_from(sv, from as int);
    let mut found: Vec<ConsumerMessage> = Vec::new();
    let mut i: usize = from;
    loop
        invariant
            from <= i <= s.len(),
            sv == tokens_view(s@),
            whole == messages_before(messages_view(found@), messages_from(sv, i as int)),
            whole == messages_from(sv, from as int),
        decreases s.len() - i,
    {
        if i >= s.len() {
            return None;
        }
        if token_is(&s[i], TokenKind::Close, "Messages") {
            proof {
                assert(messages_view(found@) + Seq::<ConsumerMessageView>::empty()
                    =~= messages_view(found@));
            }
            return Some((found, i + 1));
        }
        if s[i].kind == TokenKind::Text {
            i = i + 1;
        } else if token_is(&s[i], TokenKind::Open, "Message") {
            let (record, next) = match fields(s, i + 1, "Message") {
                Some(pair) => pair,
                None => {
                    return None;
                },
            };
            let message = match message_from_fields(&record) {
                Some(message) => message,
                None => {
                    return None;
                },
            };
            found.push(message);
            i = next;
        } else {
            return None;
        }
    }
}

/// Reads a publish response from the tokens of its document.
pub fn decode_publish_response(tokens: &Vec<XmlToken>) -> (r: Result<
    PublishMessageResponse,
    ClientError,
>)
    ensures
        match r {
            Ok(response) => publish_response_of(tokens_view(tokens@)) == Some(response@),
            Err(e) => e == ClientError::Xml && publish_response_of(tokens_view(tokens@)) is None,
        },
{
    let s = significant_tokens(tokens);
    if s.len() == 0 {
        return Err(ClientError::Xml);
    }
    if !(token_is(&s[0], TokenKind::Open, "Message") || token_is(
        &s[0],
        TokenKind::Open,
        "Messaage",
    )) {
        return Err(ClientError::Xml);
    }
    let (record, e) = match fields(&s, 1, s[0].text.as_str()) {
        Some(pair) => pair,
        None => {
            return Err(ClientError::Xml);
        },
    };
    if !(e < s.len() && e == s.len() - 1 && s[e].kind == TokenKind::End) {
        return Err(ClientError::Xml);
    }
    let message_id = match required_text(&record, "MessageId", "message_id") {
        Some(t) => t,
        None => {
            return Err(ClientError::Xml);
        },
    };
    let message_body_md5 = match optional_text(&record, "MessageBodyMD5", "message_body_md5") {
        Some(t) => t,
        None => {
            return Err(ClientError::Xml);
        },
    };
    Ok(PublishMessageResponse { message_id, message_body_md5 })
}

/// Reads a consume response from the tokens of its document.
pub fn decode_consumer_response(tokens: &Vec<XmlToken>) -> (r: Result<
    ConsumerResponse,
    ClientError,
>)
    ensures
        match r {
            Ok(response) => consumer_response_of(tokens_view(tokens@)) == Some(response@),
            Err(e) => e == ClientError::Xml && consumer_response_of(tokens_view(tokens@)) is None,
        },
{
    let s = significant_tokens(tokens);
    if s.len() == 0 {
        return Err(ClientError::Xml);
    }
    if token_is(&s[0], TokenKind::Open, "Messages") {
        let (found, e) = match messages(&s, 1) {
            Some(pair) => pair,
            None => {
                return Err(ClientError::Xml);
            },
        };
        if !(e < s.len() && e == s.len() - 1 && s[e].kind == TokenKind::End) {
            return Err(ClientError::Xml);
        }
        Ok(ConsumerResponse::Messages(ConsumerMessages { messages: found }))
    } else if token_is(&s[0], TokenKind::Open, "Error") {
        let (record, e) = match fields(&s, 1, "Error") {
            Some(pair) => pair,
            None => {
                return Err(ClientError::Xml);
            },
        };
        if !(e < s.len() && e == s.len() - 1 && s[e].kind == TokenKind::End) {
            return Err(ClientError::Xml);
        }
        match error_from_fields(&record) {
            Some(error) => Ok(ConsumerResponse::Error(error)),
            None => Err(ClientError::Xml),
        }
    } else {
        Err(ClientError::Xml)
    }
}

impl PublishMessageResponse {
    /// Reads a publish response from the text of its document.
    pub fn from_xml(body: &str) -> (r: Result<PublishMessageResponse, ClientError>)
        ensures
            match r {
                Ok(response) => publish_response_of(xml_tokens(body@)) == Some(response@),
                Err(e) => e == ClientError::Xml && publish_response_of(xml_tokens(body@)) is None,
            },
    {
        let tokens = tokenize(body);
        decode_publish_response(&tokens)
    }
}

impl ConsumerResponse {
    /// Reads a consume response from the text of its document.
    pub fn from_xml(body: &str) -> (r: Result<ConsumerResponse, ClientError>)
        ensures
            match r {
                Ok(response) => consumer_response_of(xml_tokens(body@)) == Some(response@),
                Err(e) => e == ClientError::Xml && consumer_response_of(xml_tokens(body@))
                    is None,
            },
    {
        let tokens = tokenize(body);
        decode_consumer_response(&tokens)
    }
}

} // verus!
