//! XML as this crate reads and writes it: a document is a sequence of
//! tokens, and an element with text content is written by name and text.
//!
//! Reading and writing themselves are `quick_xml`'s; what a document means is
//! decided over the tokens, in `model::message`.

use vstd::prelude::*;
use quick_xml::events::Event;
use quick_xml::Reader;

verus! {

/// `quick_xml::Reader`. Nothing of its inside is known here; `reader_tokens`
/// names what it has yet to hand out.
#[verifier::external_type_specification]
#[verifier::external_body]
#[verifier::reject_recursive_types(R)]
pub struct ExReader<R>(Reader<R>);

/// `quick_xml::DeError`, carried as it comes.
#[verifier::external_type_specification]
#[verifier::external_body]
pub struct ExDeError(quick_xml::DeError);

/// `quick_xml::Error`, carried as it comes.
#[verifier::external_type_specification]
#[verifier::external_body]
pub struct ExXmlError(quick_xml::Error);

/// What a token is.
#[derive(Debug, Clone, Copy, PartialEq, Eq, Structural)]
pub enum TokenKind {
    /// The start of an element; the token's text is the element's name. An
    /// element without content counts as a start and an end.
    Open,
    /// The end of an element; the token's text is the element's name.
    Close,
    /// Character data, unescaped and without the white space around it.
    Text,
    /// A comment, a declaration, a processing instruction or a document type.
    Other,
    /// The end of the document.
    End,
    /// The place at which the document stopped being XML.
    Broken,
}

/// A token of a document.
#[derive(Debug, Clone)]
pub struct XmlToken {
    pub kind: TokenKind,
    pub text: String,
}

/// A token as the contracts see it.
pub type Token = (TokenKind, Seq<char>);

impl View for XmlToken {
    type V = Token;

    open spec fn view(&self) -> Token {
        (self.kind, self.text@)
    }
}

/// The tokens that a vector of tokens stands for.
pub open spec fn tokens_view(tokens: Seq<XmlToken>) -> Seq<Token> {
    Seq::new(tokens.len(), |i: int| tokens[i]@)
}

/// Whether a token ends a document.
pub open spec fn is_last(token: Token) -> bool {
    token.0 == TokenKind::End || token.0 == TokenKind::Broken
}

/// A sequence of tokens as a reader hands it out: it is not empty, its last
/// token ends the document, and no other does.
pub open spec fn is_stream(tokens: Seq<Token>) -> bool {
    &&& tokens.len() > 0
    &&& is_last(tokens.last())
    &&& forall|i: int| 0 <= i < tokens.len() - 1 ==> !is_last(#[trigger] tokens[i])
}

/// The tokens of a document, up to and with the one that ends it.
pub uninterp spec fn xml_tokens(document: Seq<char>) -> Seq<Token>;

/// The tokens that a reader has yet to hand out, up to and with the one that
/// ends the document.
pub uninterp spec fn reader_tokens(reader: Reader<&[u8]>) -> Seq<Token>;

/// The element `<name>text</name>`, the text escaped; `None` where the name
/// cannot be the name of an element.
pub uninterp spec fn xml_element(name: Seq<char>, text: Seq<char>) -> Option<Seq<char>>;

/// `Reader::from_str`, set to trim text and to expand empty elements: the
/// tokens that the reader will hand out are a function of the document alone,
/// and they come to an end.
#[verifier::external_body]
fn xml_reader<'a>(document: &'a str) -> (reader: Reader<&'a [u8]>)
    ensures
        reader_tokens(reader) == xml_tokens(document@),
        is_stream(reader_tokens(reader)),
{
    let mut reader = Reader::from_str(document);
    reader.trim_text(true).expand_empty_elements(true);
    reader
}

/// `Reader::read_event`, the event taken as a token: the name of a start or
/// end tag, the unescaped text, the content of a CDATA section. Where the
/// reader or the unescaping fails, the reader's first token is `Broken`. The
/// reader goes on behind every token but the last.
#[verifier::external_body]
fn xml_next<'a>(reader: &mut Reader<&'a [u8]>) -> (r: Result<XmlToken, quick_xml::Error>)
    requires
        is_stream(reader_tokens(*old(reader))),
    ensures
        match r {
            Ok(token) => token@ == reader_tokens(*old(reader)).first() && token.kind
                != TokenKind::Broken,
            Err(_) => reader_tokens(*old(reader)).first() == (
                TokenKind::Broken,
                Seq::<char>::empty(),
            ),
        },
        r matches Ok(token) && !is_last(token@) ==> reader_tokens(*final(reader))
            == reader_tokens(*old(reader)).drop_first(),
{
    let (kind, text) = match reader.read_event()? {
        Event::Start(e) => (TokenKind::Open, e.name().as_ref().to_vec()),
        Event::End(e) => (TokenKind::Close, e.name().as_ref().to_vec()),
        Event::Text(e) => (TokenKind::Text, e.unescape()?.into_owned().into_bytes()),
        Event::CData(e) => (TokenKind::Text, e.to_vec()),
        Event::Eof => (TokenKind::End, Vec::new()),
        _ => (TokenKind::Other, Vec::new()),
    };
    Ok(XmlToken { kind, text: String::from_utf8_lossy(&text).into_owned() })
}

/// `quick_xml::se::to_string_with_root` on a string slice: the element is a
/// function of name and text alone.
#[verifier::external_body]
fn xml_write_element(name: &str, text: &str) -> (r: Result<String, quick_xml::DeError>)
    ensures
        match r {
            Ok(element) => xml_element(name@, text@) == Some(element@),
            Err(_) => xml_element(name@, text@) is None,
        },
{
    quick_xml::se::to_string_with_root(name, text)
}

/// The tokens of a document.
pub fn tokenize(document: &str) -> (tokens: Vec<XmlToken>)
    ensures
        tokens_view(tokens@) == xml_tokens(document@),
        is_stream(xml_tokens(document@)),
{
    let mut reader = xml_reader(document);
    let mut tokens: Vec<XmlToken> = Vec::new();
    let ghost all = xml_tokens(document@);
    loop
        invariant_except_break
            tokens.len() < all.len(),
            tokens_view(tokens@) == all.take(tokens.len() as int),
            reader_tokens(reader) == all.skip(tokens.len() as int),
        invariant
            all == xml_tokens(document@),
            is_stream(all),
        ensures
            tokens_view(tokens@) == all,
        decreases all.len() - tokens.len(),
    {
        let ghost n = tokens.len() as int;
        assert(is_stream(all.skip(n)));
        let token = match xml_next(&mut reader) {
            Ok(token) => token,
            Err(_) => XmlToken { kind: TokenKind::Broken, text: String::new() },
        };
        let done = match token.kind {
            TokenKind::End => true,
            TokenKind::Broken => true,
            _ => false,
        };
        tokens.push(token);
        assert(tokens_view(tokens@) =~= all.take(n + 1));
        if done {
            break;
        }
    }
    tokens
}

/// The element `<name>text</name>`, the text escaped.
pub fn write_element(name: &str, text: &str) -> (r: Option<String>)
    ensures
        match r {
            Some(element) => xml_element(name@, text@) == Some(element@),
            None => xml_element(name@, text@) is None,
        },
{
    match xml_write_element(name, text) {
        Ok(element) => Some(element),
        Err(_) => None,
    }
}

} // verus!
