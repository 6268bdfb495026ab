//! The events of an XML document, as plain data, and the reader that hands
//! them out.

use quick_xml::events::Event::{Empty, End, Eof, Start, Text};
use vstd::prelude::*;

verus! {

/// One event of an XML document, holding what the decoders read of it.
#[derive(Debug, PartialEq, Eq)]
pub enum XmlEvent {
    /// A start tag: its name, and the value of its first attribute. The
    /// attribute is `None` where the tag has none, `Some(None)` where the
    /// first one is malformed.
    Start(Vec<u8>, Option<Option<Vec<u8>>>),
    /// An end tag: its name.
    End(Vec<u8>),
    /// A self-closing tag: its name.
    Empty(Vec<u8>),
    /// Character data: as written, and unescaped and decoded (`None` where
    /// that fails).
    Text(Vec<u8>, Option<String>),
    /// A comment, a CDATA section, a declaration, a processing instruction or
    /// a doctype.
    Other,
    /// The end of the document.
    Eof,
    /// The document is malformed from here on.
    Failed,
}

/// The mathematical value of an [`XmlEvent`].
pub enum Token {
    Start { name: Seq<u8>, attribute: Option<Option<Seq<u8>>> },
    End { name: Seq<u8> },
    Empty { name: Seq<u8> },
    Text { raw: Seq<u8>, text: Option<Seq<char>> },
    Other,
    Eof,
    Failed,
}

impl Token {
    /// No event follows this one.
    pub open spec fn is_terminal(self) -> bool {
        self is Eof || self is Failed
    }
}

/// The value of a start tag's first attribute.
pub open spec fn attribute_view(attribute: Option<Option<Vec<u8>>>) -> Option<Option<Seq<u8>>> {
    match attribute {
        None => None,
        Some(None) => Some(None),
        Some(Some(value)) => Some(Some(value@)),
    }
}

impl View for XmlEvent {
    type V = Token;

    open spec fn view(&self) -> Token {
        match *self {
            XmlEvent::Start(name, attribute) => Token::Start {
                name: name@,
                attribute: attribute_view(attribute),
            },
            XmlEvent::End(name) => Token::End { name: name@ },
            XmlEvent::Empty(name) => Token::Empty { name: name@ },
            XmlEvent::Text(raw, text) => Token::Text {
                raw: raw@,
                text: match text {
                    None => None,
                    Some(s) => Some(s@),
                },
            },
            XmlEvent::Other => Token::Other,
            XmlEvent::Eof => Token::Eof,
            XmlEvent::Failed => Token::Failed,
        }
    }
}

/// The values of a sequence of events.
pub open spec fn tokens_of(events: Seq<XmlEvent>) -> Seq<Token> {
    events.map_values(|e: XmlEvent| e@)
}

/// A document's events end with the first terminal one.
pub open spec fn is_document(tokens: Seq<Token>) -> bool {
    &&& tokens.len() > 0
    &&& tokens.last().is_terminal()
    &&& forall|i: int| 0 <= i < tokens.len() - 1 ==> !(#[trigger] tokens[i]).is_terminal()
}

/// A quick-xml reader over a string, somewhere on its way through it. Its
/// state is opaque; [`pending_events`] names what it has still to hand out.
#[verifier::external_body]
pub struct XmlReader<'a> {
    inner: quick_xml::Reader<&'a [u8]>,
}

/// The events that quick-xml's reader, with text trimming on, hands out for
/// `input`, call after call, up to and including the first end of input or
/// failure.
pub uninterp spec fn xml_events(input: Seq<char>) -> Seq<Token>;

/// The events that `reader` has still to hand out, up to and including the
/// first end of input or failure.
pub uninterp spec fn pending_events(reader: XmlReader) -> Seq<Token>;

/// `quick_xml::Reader::from_str`, then `trim_text(true)`: a reader at the
/// start of `input`. The contract claims that the reader has the events of
/// `input` to hand out, and that these end with the first terminal one, as
/// [`xml_events`] is defined.
#[verifier::external_body]
fn open<'a>(input: &'a str) -> (reader: XmlReader<'a>)
    ensures
        pending_events(reader) == xml_events(input@),
        is_document(pending_events(reader)),
{
    let mut inner = quick_xml::Reader::from_str(input);
    inner.trim_text(true);
    XmlReader { inner }
}

/// `quick_xml::Reader::read_event`, its result turned into plain data: a
/// tag's name by `name`, a start tag's first attribute by
/// `attributes().next()`, character data by `escaped` and by
/// `unescape_and_decode`. The contract claims that the first pending event
/// leaves the reader, and nothing of what an event holds.
#[verifier::external_body]
fn next_event<'a>(reader: &mut XmlReader<'a>) -> (event: XmlEvent)
    requires
        pending_events(*old(reader)).len() > 0,
    ensures
        event@ == pending_events(*old(reader))[0],
        pending_events(*final(reader)) == pending_events(*old(reader)).skip(1),
{
    match reader.inner.read_event(&mut Vec::new()) {
        Ok(Start(e)) => XmlEvent::Start(
            e.name().to_vec(),
            e.attributes().next().map(|a| a.map(|a| a.value.into_owned()).ok()),
        ),
        Ok(End(e)) => XmlEvent::End(e.name().to_vec()),
        Ok(Empty(e)) => XmlEvent::Empty(e.name().to_vec()),
        Ok(Text(e)) => XmlEvent::Text(
            e.escaped().to_vec(),
            e.unescape_and_decode(&reader.inner).ok(),
        ),
        Ok(Eof) => XmlEvent::Eof,
        Ok(_) => XmlEvent::Other,
        Err(_) => XmlEvent::Failed,
    }
}

/// The events of `input`, read to the end.
pub fn tokenize(input: &str) -> (events: Vec<XmlEvent>)
    ensures
        tokens_of(events@) == xml_events(input@),
        is_document(tokens_of(events@)),
{
    let mut reader = open(input);
    let mut events: Vec<XmlEvent> = Vec::new();
    loop
        invariant_except_break
            tokens_of(events@) + pending_events(reader) == xml_events(input@),
            forall|i: int| 0 <= i < events.len() ==> !(#[trigger] events[i]@).is_terminal(),
        invariant
            is_document(xml_events(input@)),
        ensures
            tokens_of(events@) == xml_events(input@),
        decreases pending_events(reader).len(),
    {
        let ghost read = tokens_of(events@);
        let ghost pending = pending_events(reader);
        let event = next_event(&mut reader);
        let done = match event {
            XmlEvent::Eof | XmlEvent::Failed => true,
            _ => false,
        };
        events.push(event);
        assert(xml_events(input@)[read.len() as int] == pending[0]);
        if done {
            break;
        }
    }
    events
}

} // verus!
